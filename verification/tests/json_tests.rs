use relay_stations::json::{
    clone_fields, field_bool, field_i64, field_or_null, field_str, lookup, parse, set_field,
    to_pretty_text, to_text, without_field, Json,
};

fn json_s(s: &str) -> Json {
    Json::Str(s.to_string())
}

#[test]
fn parse_reads_every_kind_of_value() {
    let doc = parse(r#"{"a":1,"b":"x","c":[true,null],"d":{"e":-2}}"#).unwrap();
    let expected = Json::Object(vec![
        ("a".to_string(), Json::Int(1)),
        ("b".to_string(), json_s("x")),
        ("c".to_string(), Json::Array(vec![Json::Bool(true), Json::Null])),
        ("d".to_string(), Json::Object(vec![("e".to_string(), Json::Int(-2))])),
    ]);
    assert_eq!(doc, expected);
}

#[test]
fn parse_refuses_what_is_no_json() {
    assert_eq!(parse("{"), None);
    assert_eq!(parse(""), None);
    assert_eq!(parse("{\"a\":1} x"), None);
}

#[test]
fn parse_keeps_numbers_outside_i64_as_text() {
    assert_eq!(parse("9223372036854775807"), Some(Json::Int(i64::MAX)));
    assert_eq!(parse("9223372036854775808"), Some(Json::Number("9223372036854775808".to_string())));
    assert_eq!(parse("1.5"), Some(Json::Number("1.5".to_string())));
    assert_eq!(parse("-7"), Some(Json::Int(-7)));
}

#[test]
fn parse_keeps_the_last_of_two_members_of_one_name() {
    assert_eq!(
        parse(r#"{"a":1,"a":2}"#),
        Some(Json::Object(vec![("a".to_string(), Json::Int(2))]))
    );
}

#[test]
fn to_text_prints_compactly() {
    let doc = Json::Object(vec![
        ("b".to_string(), Json::Array(vec![Json::Int(1), Json::Null])),
        ("a".to_string(), json_s("x")),
        ("n".to_string(), Json::Number("1.5".to_string())),
    ]);
    assert_eq!(to_text(&doc).as_deref(), Some(r#"{"a":"x","b":[1,null],"n":1.5}"#));
    assert_eq!(to_text(&json_s("q\"")).as_deref(), Some(r#""q\"""#));
}

#[test]
fn to_text_fails_on_a_number_that_is_none() {
    assert_eq!(to_text(&Json::Number("abc".to_string())), None);
    assert_eq!(to_pretty_text(&Json::Array(vec![Json::Number("".to_string())])), None);
}

#[test]
fn to_text_prints_the_first_of_two_fields_of_one_name() {
    let doc = Json::Object(vec![("a".to_string(), Json::Int(1)), ("a".to_string(), Json::Int(2))]);
    assert_eq!(to_text(&doc).as_deref(), Some(r#"{"a":1}"#));
}

#[test]
fn to_pretty_text_indents() {
    let doc = Json::Object(vec![("a".to_string(), Json::Int(1))]);
    assert_eq!(to_pretty_text(&doc).as_deref(), Some("{\n  \"a\": 1\n}"));
}

#[test]
fn text_round_trip_gives_the_document_back() {
    let text = r#"{"env":{"A":"b"},"list":[1,2,{"x":null}],"permissions":{"allow":["x"]}}"#;
    let doc = parse(text).unwrap();
    assert_eq!(to_text(&doc).as_deref(), Some(text));
    assert_eq!(parse(&to_pretty_text(&doc).unwrap()), Some(doc));
}

#[test]
fn accessors_read_only_their_own_kind() {
    let doc = parse(r#"{"i":5,"s":"t","b":false,"a":[1],"o":{}}"#).unwrap();
    assert_eq!(doc.get("i").and_then(|v| v.as_i64()), Some(5));
    assert_eq!(doc.get("s").and_then(|v| v.as_i64()), None);
    assert_eq!(doc.get("s").and_then(|v| v.as_str()), Some("t"));
    assert_eq!(doc.get("i").and_then(|v| v.as_str()), None);
    assert_eq!(doc.get("b").and_then(|v| v.as_bool()), Some(false));
    assert_eq!(doc.get("a").and_then(|v| v.as_array()).map(|a| a.len()), Some(1));
    assert_eq!(doc.get("o").and_then(|v| v.as_object()).map(|o| o.len()), Some(0));
    assert_eq!(doc.get("missing"), None);
    assert_eq!(Json::Int(1).get("i"), None);
    assert_eq!(Json::string("x"), json_s("x"));
}

#[test]
fn field_readers_find_the_first_field_of_a_name() {
    let fields = vec![
        ("k".to_string(), Json::Int(1)),
        ("k".to_string(), Json::Int(2)),
        ("s".to_string(), json_s("v")),
        ("b".to_string(), Json::Bool(true)),
    ];
    assert_eq!(lookup(&fields, "k"), Some(&Json::Int(1)));
    assert_eq!(field_i64(&fields, "k"), Some(1));
    assert_eq!(field_str(&fields, "s"), Some("v"));
    assert_eq!(field_bool(&fields, "b"), Some(true));
    assert_eq!(field_i64(&fields, "s"), None);
    assert_eq!(field_or_null(&fields, "nope"), Json::Null);
    assert_eq!(field_or_null(&fields, "s"), json_s("v"));
}

#[test]
fn set_field_replaces_in_place_or_appends() {
    let mut fields = vec![("a".to_string(), Json::Int(1)), ("b".to_string(), Json::Int(2))];
    set_field(&mut fields, "a", Json::Int(9));
    assert_eq!(fields, vec![("a".to_string(), Json::Int(9)), ("b".to_string(), Json::Int(2))]);
    set_field(&mut fields, "c", Json::Null);
    assert_eq!(fields.len(), 3);
    assert_eq!(fields[2], ("c".to_string(), Json::Null));
}

#[test]
fn without_field_drops_every_field_of_the_name() {
    let fields = vec![
        ("a".to_string(), Json::Int(1)),
        ("b".to_string(), Json::Int(2)),
        ("a".to_string(), Json::Int(3)),
    ];
    assert_eq!(without_field(&fields, "a"), vec![("b".to_string(), Json::Int(2))]);
    assert_eq!(without_field(&fields, "z"), clone_fields(&fields));
}

#[test]
fn clone_json_copies_deeply() {
    let doc = parse(r#"{"a":[1,{"b":"c"}],"n":1e3}"#).unwrap();
    assert_eq!(doc.clone_json(), doc);
}

use relay_stations::adapters::newapi::{
    expiry, filter_time, listed_token, log_entry, log_entry_given, token_from_fields, NewApiAdapter,
};
use relay_stations::http::{HttpMethod, HttpReply, RelayError};
use relay_stations::json::{parse, Json};
use relay_stations::station::{
    micro_units, whole_units, AuthMethod, CreateTokenRequest, RelayStation, RelayStationAdapter,
    UpdateTokenRequest,
};

fn newapi_station() -> RelayStation {
    RelayStation {
        id: "st-1".to_string(),
        name: "Main".to_string(),
        description: None,
        api_url: "https://relay.example".to_string(),
        adapter: RelayStationAdapter::Newapi,
        auth_method: AuthMethod::BearerToken,
        system_token: "sys-token".to_string(),
        user_id: Some("42".to_string()),
        adapter_config: None,
        enabled: true,
        created_at: 100,
        updated_at: 100,
    }
}

fn newapi_ok(body: &str) -> HttpReply {
    HttpReply::Response {
        status: 200,
        status_text: "200 OK".to_string(),
        body: body.to_string(),
        elapsed_ms: 12,
    }
}

fn newapi_headers(pairs: &[(&str, &str)]) -> Vec<(String, String)> {
    pairs.iter().map(|(k, v)| (k.to_string(), v.to_string())).collect()
}

#[test]
fn expiry_sentinel_means_never() {
    assert_eq!(expiry(Some(-1)), None);
    assert_eq!(expiry(Some(0)), Some(0));
    assert_eq!(expiry(Some(1700000000)), Some(1700000000));
    assert_eq!(expiry(None), None);
}

#[test]
fn listed_token_with_expired_time_minus_one_has_no_expiry() {
    let item = parse(
        r#"{"id":7,"name":"t","key":"sk-1","user_id":3,"status":1,"expired_time":-1,
            "group":"g","remain_quota":500,"unlimited_quota":false,"created_time":9,"used_quota":4}"#,
    )
    .unwrap();
    let token = listed_token("st-1", &item, false);
    assert_eq!(token.expires_at, None);
    assert_eq!(token.id, "7");
    assert_eq!(token.station_id, "st-1");
    assert_eq!(token.name, "t");
    assert_eq!(token.token, "sk-1");
    assert_eq!(token.user_id.as_deref(), Some("3"));
    assert!(token.enabled);
    assert_eq!(token.group.as_deref(), Some("g"));
    assert_eq!(token.remain_quota, Some(500));
    assert_eq!(token.unlimited_quota, Some(false));
    assert_eq!(token.created_at, 9);
    let metadata = token.metadata.unwrap();
    assert_eq!(metadata.len(), 4);
    assert_eq!(metadata[0], ("raw".to_string(), item));
    assert_eq!(metadata[1], ("used_quota".to_string(), Json::Int(4)));
    assert_eq!(metadata[2], ("remain_quota".to_string(), Json::Int(500)));
    assert_eq!(metadata[3], ("group".to_string(), Json::Str("g".to_string())));
}

#[test]
fn listed_token_of_something_that_is_no_object_has_defaults() {
    let token = listed_token("st-1", &Json::Int(5), true);
    assert_eq!(token.id, "");
    assert_eq!(token.name, "");
    assert_eq!(token.token, "");
    assert_eq!(token.user_id, None);
    assert!(!token.enabled);
    assert_eq!(token.expires_at, None);
    assert_eq!(token.created_at, 0);
    let metadata = token.metadata.unwrap();
    assert_eq!(metadata.len(), 5);
    assert_eq!(metadata[4], ("accessed_time".to_string(), Json::Null));
}

#[test]
fn token_from_fields_uses_the_defaults_it_is_given() {
    let fields = vec![("status".to_string(), Json::Int(2)), ("expired_time".to_string(), Json::Int(5))];
    let token = token_from_fields("s", &fields, "99", true, Vec::new());
    assert_eq!(token.id, "99");
    assert!(!token.enabled);
    assert_eq!(token.expires_at, Some(5));
    let none = token_from_fields("s", &Vec::new(), "99", true, Vec::new());
    assert!(none.enabled);
}

#[test]
fn list_tokens_request_names_page_and_size() {
    let request = NewApiAdapter::list_tokens_request(&newapi_station(), 2, 25);
    assert_eq!(request.method, HttpMethod::Get);
    assert_eq!(request.url, "https://relay.example/api/token/?p=2&size=25");
    assert_eq!(
        request.headers,
        newapi_headers(&[("Authorization", "Bearer sys-token"), ("New-API-User", "42")])
    );
    assert_eq!(request.body, None);
    assert_eq!(request.timeout_secs, None);
}

#[test]
fn tenant_defaults_to_one() {
    let mut station = newapi_station();
    station.user_id = None;
    let request = NewApiAdapter::list_tokens_request(&station, 1, 10);
    assert_eq!(request.headers[1], ("New-API-User".to_string(), "1".to_string()));
}

#[test]
fn list_tokens_reads_items_and_total() {
    let reply = newapi_ok(r#"{"data":{"items":[{"id":1,"expired_time":-1},{"id":2,"expired_time":77}],"total":40}}"#);
    let page = NewApiAdapter::list_tokens(&newapi_station(), 1, 10, &reply).unwrap();
    assert_eq!(page.items.len(), 2);
    assert_eq!(page.items[0].id, "1");
    assert_eq!(page.items[0].expires_at, None);
    assert_eq!(page.items[1].expires_at, Some(77));
    assert_eq!(page.page, 1);
    assert_eq!(page.page_size, 10);
    assert_eq!(page.total, 40);
}

#[test]
fn list_tokens_without_items_or_total() {
    let page = NewApiAdapter::list_tokens(&newapi_station(), 3, 5, &newapi_ok(r#"{"data":{}}"#)).unwrap();
    assert_eq!(page.items.len(), 0);
    assert_eq!(page.total, 0);
    assert_eq!(page.page, 3);
}

#[test]
fn replies_that_fail_are_upstream_errors() {
    let station = newapi_station();
    let not_found = HttpReply::Response {
        status: 404,
        status_text: "404 Not Found".to_string(),
        body: "".to_string(),
        elapsed_ms: 1,
    };
    assert_eq!(
        NewApiAdapter::list_tokens(&station, 1, 10, &not_found),
        Err(RelayError::Upstream("Failed to list tokens: 404 Not Found".to_string()))
    );
    let failed = HttpReply::Failed { error: "connection refused".to_string() };
    assert_eq!(
        NewApiAdapter::list_tokens(&station, 1, 10, &failed),
        Err(RelayError::Upstream("connection refused".to_string()))
    );
    assert_eq!(
        NewApiAdapter::list_tokens(&station, 1, 10, &newapi_ok("not json")),
        Err(RelayError::Upstream("error decoding response body".to_string()))
    );
    assert_eq!(
        NewApiAdapter::list_tokens(&station, 1, 10, &newapi_ok(r#"{"data":[]}"#)),
        Err(RelayError::Upstream("Invalid response format".to_string()))
    );
    assert_eq!(
        NewApiAdapter::get_logs(None, None, &not_found),
        Err(RelayError::Upstream("Failed to get logs: 404 Not Found".to_string()))
    );
    assert_eq!(
        NewApiAdapter::get_user_groups(&not_found),
        Err(RelayError::Upstream("API request failed with status: 404 Not Found".to_string()))
    );
    assert_eq!(
        NewApiAdapter::delete_token(&not_found),
        Err(RelayError::Upstream("Failed to delete token: 404 Not Found".to_string()))
    );
    assert_eq!(NewApiAdapter::delete_token(&newapi_ok("whatever")), Ok(()));
}

#[test]
fn update_token_request_sends_only_what_is_present() {
    let request = UpdateTokenRequest {
        id: 5,
        name: Some("n".to_string()),
        remain_quota: None,
        expired_time: Some(-1),
        unlimited_quota: None,
        model_limits_enabled: None,
        model_limits: None,
        group: None,
        allow_ips: None,
        enabled: Some(false),
    };
    let sent = NewApiAdapter::update_token_request(&newapi_station(), &request);
    assert_eq!(sent.method, HttpMethod::Put);
    assert_eq!(sent.url, "https://relay.example/api/token/");
    assert_eq!(
        sent.headers,
        newapi_headers(&[
            ("Authorization", "Bearer sys-token"),
            ("New-API-User", "42"),
            ("Content-Type", "application/json"),
        ])
    );
    assert_eq!(
        sent.body,
        Some(Json::Object(vec![
            ("id".to_string(), Json::Int(5)),
            ("name".to_string(), Json::Str("n".to_string())),
            ("expired_time".to_string(), Json::Int(-1)),
            ("status".to_string(), Json::Int(0)),
        ]))
    );
}

#[test]
fn update_token_reads_the_changed_token() {
    let reply = newapi_ok(r#"{"data":{"name":"n","status":1,"expired_time":-1}}"#);
    let token = NewApiAdapter::update_token(&newapi_station(), "5", &reply).unwrap();
    assert_eq!(token.id, "5");
    assert_eq!(token.name, "n");
    assert!(token.enabled);
    assert_eq!(token.expires_at, None);
    assert_eq!(
        token.metadata,
        Some(vec![("raw".to_string(), parse(r#"{"name":"n","status":1,"expired_time":-1}"#).unwrap())])
    );
    assert_eq!(
        NewApiAdapter::update_token(&newapi_station(), "5", &newapi_ok(r#"{"success":true}"#)),
        Err(RelayError::Upstream("Invalid response format".to_string()))
    );
}

#[test]
fn toggle_token_request_needs_a_numeric_id() {
    let station = newapi_station();
    assert_eq!(
        NewApiAdapter::toggle_token_request(&station, "abc", true),
        Err(RelayError::Validation("Invalid token ID: abc".to_string()))
    );
    let on = NewApiAdapter::toggle_token_request(&station, "12", true).unwrap();
    assert_eq!(on.url, "https://relay.example/api/token/?status_only=true");
    assert_eq!(
        on.body,
        Some(Json::Object(vec![("id".to_string(), Json::Int(12)), ("status".to_string(), Json::Int(1))]))
    );
    let off = NewApiAdapter::toggle_token_request(&station, "12", false).unwrap();
    assert_eq!(
        off.body,
        Some(Json::Object(vec![("id".to_string(), Json::Int(12)), ("status".to_string(), Json::Int(2))]))
    );
}

#[test]
fn toggle_token_defaults_to_what_was_asked() {
    let reply = newapi_ok(r#"{"data":{"id":12}}"#);
    let on = NewApiAdapter::toggle_token(&newapi_station(), "12", true, &reply).unwrap();
    assert!(on.enabled);
    let off = NewApiAdapter::toggle_token(&newapi_station(), "12", false, &reply).unwrap();
    assert!(!off.enabled);
}

#[test]
fn delete_and_groups_requests() {
    let station = newapi_station();
    let delete = NewApiAdapter::delete_token_request(&station, "8");
    assert_eq!(delete.method, HttpMethod::Delete);
    assert_eq!(delete.url, "https://relay.example/api/token/8");
    let groups = NewApiAdapter::get_user_groups_request(&station);
    assert_eq!(groups.url, "https://relay.example/api/user/self/groups");
    let doc = r#"{"data":{"default":{"ratio":1}}}"#;
    assert_eq!(NewApiAdapter::get_user_groups(&newapi_ok(doc)), Ok(parse(doc).unwrap()));
}

#[test]
fn create_token_request_fills_in_defaults() {
    let request = CreateTokenRequest {
        name: "new".to_string(),
        remain_quota: None,
        expired_time: None,
        unlimited_quota: None,
        model_limits_enabled: None,
        model_limits: None,
        group: None,
        allow_ips: None,
    };
    let sent = NewApiAdapter::create_token_request(&newapi_station(), &request);
    assert_eq!(sent.method, HttpMethod::Post);
    assert_eq!(sent.url, "https://relay.example/api/token/");
    assert_eq!(
        sent.body,
        Some(Json::Object(vec![
            ("name".to_string(), Json::Str("new".to_string())),
            ("remain_quota".to_string(), Json::Int(500000)),
            ("expired_time".to_string(), Json::Int(-1)),
            ("unlimited_quota".to_string(), Json::Bool(true)),
            ("model_limits_enabled".to_string(), Json::Bool(false)),
            ("model_limits".to_string(), Json::Str("".to_string())),
            ("group".to_string(), Json::Str("".to_string())),
            ("allow_ips".to_string(), Json::Str("".to_string())),
        ]))
    );
}

#[test]
fn create_token_gives_a_stand_in() {
    let request = CreateTokenRequest {
        name: "new".to_string(),
        remain_quota: Some(10),
        expired_time: Some(-1),
        unlimited_quota: Some(false),
        model_limits_enabled: None,
        model_limits: None,
        group: Some("g".to_string()),
        allow_ips: None,
    };
    let reply = newapi_ok(r#"{"success":true}"#);
    let token = NewApiAdapter::create_token_at(&newapi_station(), &request, &reply, 555).unwrap();
    assert_eq!(token.id, "");
    assert_eq!(token.token, "");
    assert_eq!(token.name, "new");
    assert_eq!(token.station_id, "st-1");
    assert_eq!(token.user_id.as_deref(), Some("42"));
    assert!(token.enabled);
    assert_eq!(token.expires_at, None);
    assert_eq!(token.group.as_deref(), Some("g"));
    assert_eq!(token.remain_quota, Some(10));
    assert_eq!(token.created_at, 555);
    let metadata = token.metadata.unwrap();
    assert_eq!(metadata[0], ("response".to_string(), parse(r#"{"success":true}"#).unwrap()));
    assert_eq!(
        metadata[1],
        (
            "note".to_string(),
            Json::Str("Token created successfully, refresh to see details".to_string())
        )
    );
    let stamped = NewApiAdapter::create_token(&newapi_station(), &request, &reply).unwrap();
    assert!(stamped.created_at > 1_600_000_000);
}

#[test]
fn create_token_tells_why_it_failed() {
    let request = CreateTokenRequest {
        name: "new".to_string(),
        remain_quota: None,
        expired_time: Some(99),
        unlimited_quota: None,
        model_limits_enabled: None,
        model_limits: None,
        group: None,
        allow_ips: None,
    };
    let station = newapi_station();
    assert_eq!(
        NewApiAdapter::create_token_at(&station, &request, &newapi_ok(r#"{"success":false,"message":"quota"}"#), 1),
        Err(RelayError::Upstream("Failed to create token: quota".to_string()))
    );
    assert_eq!(
        NewApiAdapter::create_token_at(&station, &request, &newapi_ok("{}"), 1),
        Err(RelayError::Upstream("Failed to create token: Unknown error".to_string()))
    );
    let made = NewApiAdapter::create_token_at(&station, &request, &newapi_ok(r#"{"success":true}"#), 1).unwrap();
    assert_eq!(made.expires_at, Some(99));
}

#[test]
fn station_info_reads_the_status_document() {
    let station = newapi_station();
    let request = NewApiAdapter::get_station_info_request(&station);
    assert_eq!(request.url, "https://relay.example/api/status");
    assert_eq!(request.headers, newapi_headers(&[("New-API-User", "42")]));
    assert_eq!(request.timeout_secs, None);
    let body = r#"{"data":{"system_name":"Relay","version":"v1","quota_per_unit":500000,
        "announcements":[{"content":"hello"},{"content":"later"}]}}"#;
    let info = NewApiAdapter::get_station_info(&station, &newapi_ok(body)).unwrap();
    assert_eq!(info.name, "Relay");
    assert_eq!(info.announcement.as_deref(), Some("hello"));
    assert_eq!(info.api_url, "https://relay.example");
    assert_eq!(info.version.as_deref(), Some("v1"));
    assert_eq!(info.quota_per_unit, Some(500000));
    let metadata = info.metadata.unwrap();
    assert_eq!(metadata.len(), 1);
    assert_eq!(metadata[0].0, "response");
    let plain = NewApiAdapter::get_station_info(&station, &newapi_ok(r#"{"data":{}}"#)).unwrap();
    assert_eq!(plain.name, "Main");
    assert_eq!(plain.announcement, None);
    assert_eq!(plain.version, None);
}

#[test]
fn user_info_maps_status_and_quota() {
    let station = newapi_station();
    let request = NewApiAdapter::get_user_info_request(&station, "");
    assert_eq!(request.url, "https://relay.example/api/user/self");
    assert_eq!(request.headers[1], ("New-API-User".to_string(), "42".to_string()));
    let asked = NewApiAdapter::get_user_info_request(&station, "7");
    assert_eq!(asked.headers[1], ("New-API-User".to_string(), "7".to_string()));
    let body = r#"{"data":{"id":7,"username":"u","email":"","quota":1250000,"used_quota":250000,
        "request_count":3,"status":1}}"#;
    let info = NewApiAdapter::get_user_info("9", &newapi_ok(body)).unwrap();
    assert_eq!(info.user_id, "7");
    assert_eq!(info.username.as_deref(), Some("u"));
    assert_eq!(info.email, None);
    assert_eq!(info.balance_remaining, Some(1250000));
    assert_eq!(info.amount_used, Some(250000));
    assert_eq!(info.request_count, Some(3));
    assert_eq!(info.status.as_deref(), Some("active"));
    let disabled = NewApiAdapter::get_user_info("9", &newapi_ok(r#"{"data":{"status":0,"email":"e@x"}}"#)).unwrap();
    assert_eq!(disabled.user_id, "9");
    assert_eq!(disabled.status.as_deref(), Some("disabled"));
    assert_eq!(disabled.email.as_deref(), Some("e@x"));
    let unknown = NewApiAdapter::get_user_info("9", &newapi_ok(r#"{"data":{"status":5}}"#)).unwrap();
    assert_eq!(unknown.status.as_deref(), Some("unknown"));
    let missing = NewApiAdapter::get_user_info("9", &newapi_ok(r#"{"data":{}}"#)).unwrap();
    assert_eq!(missing.status.as_deref(), Some("unknown"));
}

#[test]
fn quota_converts_to_currency_units() {
    assert_eq!(whole_units(1250000), 2);
    assert_eq!(micro_units(1250000), 500000);
    assert_eq!(whole_units(500000), 1);
    assert_eq!(micro_units(500000), 0);
    assert_eq!(whole_units(1), 0);
    assert_eq!(micro_units(1), 2);
    assert_eq!(whole_units(-750000), -1);
    assert_eq!(micro_units(-750000), -500000);
    assert_eq!(whole_units(0), 0);
}

#[test]
fn test_connection_never_fails() {
    let request = NewApiAdapter::test_connection_request(&newapi_station());
    assert_eq!(request.url, "https://relay.example/api/status");
    assert_eq!(request.timeout_secs, Some(10));
    let fine = NewApiAdapter::test_connection(&newapi_ok("ignored"));
    assert!(fine.success);
    assert_eq!(fine.response_time, Some(12));
    assert_eq!(fine.message, "Connection successful");
    assert_eq!(fine.status_code, Some(200));
    let bad = NewApiAdapter::test_connection(&HttpReply::Response {
        status: 503,
        status_text: "503 Service Unavailable".to_string(),
        body: "".to_string(),
        elapsed_ms: 40,
    });
    assert!(!bad.success);
    assert_eq!(bad.message, "HTTP 503");
    assert_eq!(bad.status_code, Some(503));
    assert_eq!(bad.response_time, Some(40));
    let down = NewApiAdapter::test_connection(&HttpReply::Failed { error: "timed out".to_string() });
    assert!(!down.success);
    assert_eq!(down.message, "Connection failed: timed out");
    assert_eq!(down.status_code, None);
    assert_eq!(down.response_time, None);
}

#[test]
fn logs_request_reads_times_as_utc_and_encodes_filters() {
    let filters = parse(
        r#"{"startTime":"2024-01-01T00:00","endTime":"2024-01-02T12:30","modelName":"gpt 4/o","group":"vip"}"#,
    )
    .unwrap();
    let request = NewApiAdapter::get_logs_request_at(&newapi_station(), Some(2), Some(50), Some(&filters), 99);
    assert_eq!(
        request.url,
        "https://relay.example/api/log/self?p=2&page_size=50&type=0&token_name=&model_name=gpt%204%2Fo&start_timestamp=1704067200&end_timestamp=1704198600&group=vip"
    );
    assert_eq!(
        request.headers,
        newapi_headers(&[("Authorization", "Bearer sys-token"), ("New-API-User", "42")])
    );
}

#[test]
fn logs_request_defaults() {
    let request = NewApiAdapter::get_logs_request_at(&newapi_station(), None, None, None, 1234);
    assert_eq!(
        request.url,
        "https://relay.example/api/log/self?p=1&page_size=10&type=0&token_name=&model_name=&start_timestamp=0&end_timestamp=1234&group="
    );
    let unreadable = parse(r#"{"startTime":"yesterday","endTime":""}"#).unwrap();
    let fallback = NewApiAdapter::get_logs_request_at(&newapi_station(), None, None, Some(&unreadable), 1234);
    assert_eq!(fallback.url, request.url);
    let now_request = NewApiAdapter::get_logs_request(&newapi_station(), None, None, None);
    assert!(now_request.url.starts_with("https://relay.example/api/log/self?p=1&page_size=10"));
}

#[test]
fn filter_times_are_read_as_rfc_3339() {
    let minute = parse(r#"{"t":"1970-01-01T00:01","empty":"","bad":"1970-01-01","n":5}"#).unwrap();
    assert_eq!(filter_time(Some(&minute), "t", -1), 60);
    assert_eq!(filter_time(Some(&minute), "empty", -1), -1);
    assert_eq!(filter_time(Some(&minute), "bad", -1), -1);
    assert_eq!(filter_time(Some(&minute), "n", -1), -1);
    assert_eq!(filter_time(Some(&minute), "missing", 7), 7);
    assert_eq!(filter_time(None, "t", 7), 7);
    let leap = parse(r#"{"t":"2024-02-29T23:59"}"#).unwrap();
    assert_eq!(filter_time(Some(&leap), "t", 0), 1709251140);
}

#[test]
fn filters_are_percent_encoded() {
    let url_of = |model: &str| {
        let filters = Json::Object(vec![("modelName".to_string(), Json::Str(model.to_string()))]);
        NewApiAdapter::get_logs_request_at(&newapi_station(), None, None, Some(&filters), 0).url
    };
    let prefix = "https://relay.example/api/log/self?p=1&page_size=10&type=0&token_name=&model_name=";
    let suffix = "&start_timestamp=0&end_timestamp=0&group=";
    assert_eq!(url_of("a-b_c.d~e"), format!("{}a-b_c.d~e{}", prefix, suffix));
    assert_eq!(url_of("a b&c"), format!("{}a%20b%26c{}", prefix, suffix));
    assert_eq!(url_of("é"), format!("{}%C3%A9{}", prefix, suffix));
    assert_eq!(url_of("AZaz09"), format!("{}AZaz09{}", prefix, suffix));
    assert_eq!(url_of("%+/"), format!("{}%25%2B%2F{}", prefix, suffix));
}

#[test]
fn log_entries_are_read_field_by_field() {
    let log = parse(
        r#"{"id":11,"created_at":1700,"type":2,"model_name":"m","prompt_tokens":1,"completion_tokens":2,
            "quota":3,"user_id":4,"token_name":"tk","use_time":5,"is_stream":true,"channel":6,"group":"g",
            "other":"{\"ratio\":2}"}"#,
    )
    .unwrap();
    let entry = log_entry(&log);
    assert_eq!(entry.id, "11");
    assert_eq!(entry.timestamp, 1700);
    assert_eq!(entry.level, "api");
    assert_eq!(entry.message, "API调用 - 模型: m | 提示: 1 | 补全: 2 | 花费: 3");
    assert_eq!(entry.user_id.as_deref(), Some("4"));
    assert_eq!(entry.request_id.as_deref(), Some("11"));
    assert_eq!(entry.model_name.as_deref(), Some("m"));
    assert_eq!(entry.prompt_tokens, Some(1));
    assert_eq!(entry.completion_tokens, Some(2));
    assert_eq!(entry.quota, Some(3));
    assert_eq!(entry.token_name.as_deref(), Some("tk"));
    assert_eq!(entry.use_time, Some(5));
    assert_eq!(entry.is_stream, Some(true));
    assert_eq!(entry.channel, Some(6));
    assert_eq!(entry.group.as_deref(), Some("g"));
    let metadata = entry.metadata.unwrap();
    assert_eq!(metadata[0], ("raw".to_string(), log));
    assert_eq!(metadata[1], ("other".to_string(), parse(r#"{"ratio":2}"#).unwrap()));
}

#[test]
fn log_entry_defaults() {
    let entry = log_entry(&parse(r#"{"other":"not json","type":9}"#).unwrap());
    assert_eq!(entry.id, "");
    assert_eq!(entry.request_id, None);
    assert_eq!(entry.timestamp, 0);
    assert_eq!(entry.level, "info");
    assert_eq!(entry.message, "API调用 - 模型: unknown | 提示: 0 | 补全: 0 | 花费: 0");
    assert_eq!(entry.metadata.unwrap()[1], ("other".to_string(), Json::Null));
    let levels: Vec<String> = [1, 2, 3, 4]
        .iter()
        .map(|t| log_entry(&Json::Object(vec![("type".to_string(), Json::Int(*t))])).level)
        .collect();
    assert_eq!(levels, vec!["info", "api", "warn", "error"]);
    let given = log_entry_given(&Json::Null, Json::Int(1));
    assert_eq!(given.metadata.unwrap()[1], ("other".to_string(), Json::Int(1)));
}

#[test]
fn get_logs_reads_a_page() {
    let reply = newapi_ok(r#"{"data":{"items":[{"id":1},{"id":2}],"total":2}}"#);
    let page = NewApiAdapter::get_logs(None, Some(20), &reply).unwrap();
    assert_eq!(page.items.len(), 2);
    assert_eq!(page.items[1].id, "2");
    assert_eq!(page.page, 1);
    assert_eq!(page.page_size, 20);
    assert_eq!(page.total, 2);
}

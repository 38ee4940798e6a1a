//! The standard adapter: a REST management API with bearer-token
//! authentication and a tenant header.
//!
//! Every operation comes as a pair: the request to send, and the reading of
//! what came back.
use crate::http::{
    auth_header, concat, json_header, result_view, spec_auth_header, spec_json_header,
    spec_tenant_header, tenant_header, HttpMethod, HttpReply, HttpReplyV, HttpRequest,
    HttpRequestV, RelayError, RelayErrorV,
};
use crate::json::{
    field_bool, field_i64, field_or_null, field_str, lemma_object_view, lookup, spec_field_bool,
    spec_field_i64, spec_field_or_null, spec_field_str, spec_lookup, Fields, Json, JsonV,
};
use crate::station::{
    RelayStation, RelayStationToken, RelayStationTokenV, RelayStationV, TokenPaginationResponse,
    TokenPaginationResponseV,
};
use crate::text::{decimal_string, spec_decimal, spec_or_empty};
use vstd::prelude::*;

verus! {

/// The standard adapter.
#[derive(Debug, Clone, Copy, PartialEq, Eq, Structural)]
pub struct NewApiAdapter;

// ---------------------------------------------------------------------------
// Shared readings
// ---------------------------------------------------------------------------

pub open spec fn spec_opt_decimal(v: Option<i64>) -> Option<Seq<char>> {
    match v {
        Some(i) => Some(spec_decimal(i as int)),
        None => None,
    }
}

pub fn opt_decimal(v: Option<i64>) -> (r: Option<String>)
    ensures
        r.deep_view() == spec_opt_decimal(v),
{
    match v {
        Some(i) => Some(decimal_string(i as i128)),
        None => None,
    }
}

pub fn opt_string(v: Option<&str>) -> (r: Option<String>)
    ensures
        r.deep_view() == v.deep_view(),
{
    match v {
        Some(s) => Some(String::from_str(s)),
        None => None,
    }
}

pub fn str_or<'a>(v: Option<&'a str>, fallback: &'a str) -> (r: &'a str)
    ensures
        r@ == (match v.deep_view() {
            Some(s) => s,
            None => fallback@,
        }),
{
    match v {
        Some(s) => s,
        None => fallback,
    }
}

pub open spec fn spec_i64_or(v: Option<i64>, fallback: i64) -> i64 {
    match v {
        Some(i) => i,
        None => fallback,
    }
}

pub fn i64_or(v: Option<i64>, fallback: i64) -> (r: i64)
    ensures
        r == spec_i64_or(v, fallback),
{
    match v {
        Some(i) => i,
        None => fallback,
    }
}

/// When a token expires: the provider's `expired_time`, where `-1` stands for
/// never.
pub open spec fn spec_expiry(raw: Option<i64>) -> Option<i64> {
    match raw {
        Some(t) => if t == -1 {
            None
        } else {
            Some(t)
        },
        None => None,
    }
}

pub fn expiry(raw: Option<i64>) -> (r: Option<i64>)
    ensures
        r == spec_expiry(raw),
        r != Some(-1i64),
{
    match raw {
        Some(t) => if t == -1 {
            None
        } else {
            Some(t)
        },
        None => None,
    }
}

/// The fields of a document that is an object, no fields for any other.
pub open spec fn spec_object_or_empty(doc: JsonV) -> Fields {
    match doc {
        JsonV::Object(fields) => fields,
        _ => Seq::empty(),
    }
}

/// The items of the array member `key`, none where there is no such array.
pub open spec fn spec_array_member(fields: Fields, key: Seq<char>) -> Seq<JsonV> {
    match spec_lookup(fields, key) {
        Some(JsonV::Array(items)) => items,
        _ => Seq::empty(),
    }
}

/// The text that a reply in an unexpected shape fails with.
pub open spec fn spec_invalid_format() -> RelayErrorV {
    RelayErrorV::Upstream("Invalid response format"@)
}

pub fn invalid_format() -> (r: RelayError)
    ensures
        r.deep_view() == spec_invalid_format(),
{
    RelayError::Upstream(String::from_str("Invalid response format"))
}

pub fn field(key: &str, value: Json) -> (r: (String, Json))
    ensures
        r.deep_view() == (key@, value@),
{
    (String::from_str(key), value)
}

// ---------------------------------------------------------------------------
// Tokens
// ---------------------------------------------------------------------------

/// The token that a provider's token object describes. `default_id` and
/// `default_enabled` stand in where the object has no integer `id` or
/// `status`; a token is enabled when its status is 1.
pub open spec fn spec_token(
    station_id: Seq<char>,
    obj: Fields,
    default_id: Seq<char>,
    default_enabled: bool,
    metadata: Fields,
) -> RelayStationTokenV {
    RelayStationTokenV {
        id: match spec_field_i64(obj, "id"@) {
            Some(i) => spec_decimal(i as int),
            None => default_id,
        },
        station_id,
        name: spec_or_empty(spec_field_str(obj, "name"@)),
        token: spec_or_empty(spec_field_str(obj, "key"@)),
        user_id: spec_opt_decimal(spec_field_i64(obj, "user_id"@)),
        enabled: match spec_field_i64(obj, "status"@) {
            Some(s) => s == 1,
            None => default_enabled,
        },
        expires_at: spec_expiry(spec_field_i64(obj, "expired_time"@)),
        group: spec_field_str(obj, "group"@),
        remain_quota: spec_field_i64(obj, "remain_quota"@),
        unlimited_quota: spec_field_bool(obj, "unlimited_quota"@),
        metadata: Some(metadata),
        created_at: spec_i64_or(spec_field_i64(obj, "created_time"@), 0),
    }
}

pub fn token_from_fields(
    station_id: &str,
    obj: &Vec<(String, Json)>,
    default_id: &str,
    default_enabled: bool,
    metadata: Vec<(String, Json)>,
) -> (r: RelayStationToken)
    ensures
        r.deep_view() == spec_token(
            station_id@,
            obj.deep_view(),
            default_id@,
            default_enabled,
            metadata.deep_view(),
        ),
        r.expires_at != Some(-1i64),
{
    let id = match field_i64(obj, "id") {
        Some(i) => decimal_string(i as i128),
        None => String::from_str(default_id),
    };
    let enabled = match field_i64(obj, "status") {
        Some(s) => s == 1,
        None => default_enabled,
    };
    proof {
        reveal_strlit("");
    }
    assert(""@ =~= Seq::<char>::empty());
    RelayStationToken {
        id,
        station_id: String::from_str(station_id),
        name: String::from_str(str_or(field_str(obj, "name"), "")),
        token: String::from_str(str_or(field_str(obj, "key"), "")),
        user_id: opt_decimal(field_i64(obj, "user_id")),
        enabled,
        expires_at: expiry(field_i64(obj, "expired_time")),
        group: opt_string(field_str(obj, "group")),
        remain_quota: field_i64(obj, "remain_quota"),
        unlimited_quota: field_bool(obj, "unlimited_quota"),
        metadata: Some(metadata),
        created_at: i64_or(field_i64(obj, "created_time"), 0),
    }
}

/// What a listed token keeps of the provider's object: the object itself as
/// `raw` and three of its members, and `accessed_time` too where `extended`.
pub open spec fn spec_listed_metadata(item: JsonV, extended: bool) -> Fields {
    let obj = spec_object_or_empty(item);
    let base = seq![
        ("raw"@, item),
        ("used_quota"@, spec_field_or_null(obj, "used_quota"@)),
        ("remain_quota"@, spec_field_or_null(obj, "remain_quota"@)),
        ("group"@, spec_field_or_null(obj, "group"@)),
    ];
    if extended {
        base.push(("accessed_time"@, spec_field_or_null(obj, "accessed_time"@)))
    } else {
        base
    }
}

/// The token that one item of a token list describes. An item that is no
/// object is read as an object without members.
pub open spec fn spec_listed_token(station_id: Seq<char>, item: JsonV, extended: bool) -> RelayStationTokenV {
    spec_token(
        station_id,
        spec_object_or_empty(item),
        Seq::empty(),
        false,
        spec_listed_metadata(item, extended),
    )
}

pub fn listed_token(station_id: &str, item: &Json, extended: bool) -> (r: RelayStationToken)
    ensures
        r.deep_view() == spec_listed_token(station_id@, item@, extended),
        r.expires_at != Some(-1i64),
{
    let empty: Vec<(String, Json)> = Vec::new();
    let obj: &Vec<(String, Json)> = match item {
        Json::Object(fields) => {
            proof {
                lemma_object_view(*fields);
            }
            fields
        },
        _ => &empty,
    };
    let mut metadata: Vec<(String, Json)> = Vec::new();
    metadata.push(field("raw", item.clone_json()));
    metadata.push(field("used_quota", field_or_null(obj, "used_quota")));
    metadata.push(field("remain_quota", field_or_null(obj, "remain_quota")));
    metadata.push(field("group", field_or_null(obj, "group")));
    if extended {
        metadata.push(field("accessed_time", field_or_null(obj, "accessed_time")));
    }
    assert(metadata.deep_view() =~= spec_listed_metadata(item@, extended));
    proof {
        reveal_strlit("");
    }
    assert(""@ =~= Seq::<char>::empty());
    token_from_fields(station_id, obj, "", false, metadata)
}

/// The tokens that a run of list items describes, item by item.
pub open spec fn spec_listed_tokens(station_id: Seq<char>, items: Seq<JsonV>, extended: bool) -> Seq<
    RelayStationTokenV,
> {
    Seq::new(items.len(), |i: int| spec_listed_token(station_id, items[i], extended))
}

/// Reads the first `limit` items of a token list, or all where it has no
/// more.
pub fn listed_tokens(station_id: &str, items: &Vec<Json>, limit: usize, extended: bool) -> (r: Vec<
    RelayStationToken,
>)
    ensures
        r.deep_view() == spec_listed_tokens(
            station_id@,
            items.deep_view().take(
                if limit <= items@.len() {
                    limit as int
                } else {
                    items@.len() as int
                },
            ),
            extended,
        ),
        forall|i: int| 0 <= i < r@.len() ==> (#[trigger] r@[i]).expires_at != Some(-1i64),
{
    let count: usize = if limit <= items.len() {
        limit
    } else {
        items.len()
    };
    let mut out: Vec<RelayStationToken> = Vec::new();
    let mut i: usize = 0;
    while i < count
        invariant
            i <= count <= items@.len(),
            out@.len() == i,
            forall|j: int|
                0 <= j < i ==> (#[trigger] out@[j]).deep_view() == spec_listed_token(
                    station_id@,
                    items@[j]@,
                    extended,
                ),
            forall|j: int| 0 <= j < i ==> (#[trigger] out@[j]).expires_at != Some(-1i64),
        decreases count - i,
    {
        out.push(listed_token(station_id, &items[i], extended));
        i = i + 1;
    }
    assert(out.deep_view() =~= spec_listed_tokens(
        station_id@,
        items.deep_view().take(count as int),
        extended,
    ));
    out
}

impl NewApiAdapter {
    // -- list tokens --------------------------------------------------------

    pub open spec fn spec_list_tokens_url(api_url: Seq<char>, page: int, size: int) -> Seq<char> {
        api_url + "/api/token/?p="@ + spec_decimal(page) + "&size="@ + spec_decimal(size)
    }

    pub open spec fn spec_list_tokens_request(station: RelayStationV, page: usize, size: usize) -> HttpRequestV {
        HttpRequestV {
            method: HttpMethod::Get,
            url: Self::spec_list_tokens_url(station.fields.api_url, page as int, size as int),
            headers: seq![
                spec_auth_header(station.fields.system_token),
                spec_tenant_header(station.tenant()),
            ],
            body: None,
            timeout_secs: None,
        }
    }

    pub fn list_tokens_url(api_url: &str, page: usize, size: usize) -> (r: String)
        ensures
            r@ == Self::spec_list_tokens_url(api_url@, page as int, size as int),
    {
        let mut url = String::from_str(api_url);
        url.append("/api/token/?p=");
        url.append(decimal_string(page as i128).as_str());
        url.append("&size=");
        url.append(decimal_string(size as i128).as_str());
        url
    }

    /// The request that lists the tokens of page `page` (counted from 1).
    pub fn list_tokens_request(station: &RelayStation, page: usize, size: usize) -> (r: HttpRequest)
        ensures
            r.deep_view() == Self::spec_list_tokens_request(station.deep_view(), page, size),
    {
        let mut headers: Vec<(String, String)> = Vec::new();
        headers.push(auth_header(station.system_token.as_str()));
        headers.push(tenant_header(station.tenant()));
        let r = HttpRequest {
            method: HttpMethod::Get,
            url: Self::list_tokens_url(station.api_url.as_str(), page, size),
            headers,
            body: None,
            timeout_secs: None,
        };
        assert(r.headers.deep_view() =~= Self::spec_list_tokens_request(
            station.deep_view(),
            page,
            size,
        ).headers);
        r
    }

    /// The page that a token-list document holds: the items of `data.items`,
    /// and `data.total` as the total (0 where it is missing).
    pub open spec fn spec_list_tokens(station: RelayStationV, page: usize, size: usize, doc: JsonV) -> Result<
        TokenPaginationResponseV,
        RelayErrorV,
    > {
        match doc.member("data"@).as_object() {
            None => Err(spec_invalid_format()),
            Some(data) => Ok(
                TokenPaginationResponseV {
                    items: spec_listed_tokens(station.id, spec_array_member(data, "items"@), false),
                    page,
                    page_size: size,
                    total: spec_i64_or(spec_field_i64(data, "total"@), 0),
                },
            ),
        }
    }

    pub fn list_tokens_from_json(station: &RelayStation, page: usize, size: usize, doc: &Json) -> (r: Result<
        TokenPaginationResponse,
        RelayError,
    >)
        ensures
            result_view(r) == Self::spec_list_tokens(station.deep_view(), page, size, doc@),
            r matches Ok(p) ==> forall|i: int|
                0 <= i < p.items@.len() ==> (#[trigger] p.items@[i]).expires_at != Some(-1i64),
    {
        let data = match member_object(doc, "data") {
            Some(d) => d,
            None => {
                return Err(invalid_format());
            },
        };
        let empty: Vec<Json> = Vec::new();
        let items = array_member(data, "items", &empty);
        assert(items.deep_view().take(items@.len() as int) =~= items.deep_view());
        Ok(
            TokenPaginationResponse {
                items: listed_tokens(station.id.as_str(), items, items.len(), false),
                page,
                page_size: size,
                total: i64_or(field_i64(data, "total"), 0),
            },
        )
    }

    /// Reads the reply to `list_tokens_request`.
    pub fn list_tokens(station: &RelayStation, page: usize, size: usize, reply: &HttpReply) -> (r: Result<
        TokenPaginationResponse,
        RelayError,
    >)
        ensures
            result_view(r) == (match reply.deep_view().parsed_document("Failed to list tokens: "@) {
                Ok(doc) => Self::spec_list_tokens(station.deep_view(), page, size, doc),
                Err(e) => Err(e),
            }),
            r matches Ok(p) ==> forall|i: int|
                0 <= i < p.items@.len() ==> (#[trigger] p.items@[i]).expires_at != Some(-1i64),
    {
        match reply.document("Failed to list tokens: ") {
            Ok(doc) => Self::list_tokens_from_json(station, page, size, &doc),
            Err(e) => Err(e),
        }
    }
}

/// The fields of member `key` of a document, where that member is an object.
pub fn member_object<'a>(doc: &'a Json, key: &str) -> (r: Option<&'a Vec<(String, Json)>>)
    ensures
        r.deep_view() == doc@.member(key@).as_object(),
{
    match doc.get(key) {
        Some(v) => v.as_object(),
        None => None,
    }
}

/// The items of the array member `key`, `empty` where there is no such array.
pub(crate) fn array_member<'a>(fields: &'a Vec<(String, Json)>, key: &str, empty: &'a Vec<Json>) -> (r: &'a Vec<
    Json,
>)
    requires
        empty@.len() == 0,
    ensures
        r.deep_view() == spec_array_member(fields.deep_view(), key@),
{
    let found = match lookup(fields, key) {
        Some(v) => v.as_array(),
        None => None,
    };
    match found {
        Some(items) => items,
        None => {
            empty
        },
    }
}


// ---------------------------------------------------------------------------
// Request bodies
// ---------------------------------------------------------------------------

/// The field `key` where there is a value for it, else nothing.
pub open spec fn spec_opt_field(key: Seq<char>, value: Option<JsonV>) -> Fields {
    match value {
        Some(v) => seq![(key, v)],
        None => Seq::empty(),
    }
}

pub open spec fn spec_opt_str_json(v: Option<Seq<char>>) -> Option<JsonV> {
    match v {
        Some(s) => Some(JsonV::Str(s)),
        None => None,
    }
}

pub open spec fn spec_opt_int_json(v: Option<i64>) -> Option<JsonV> {
    match v {
        Some(i) => Some(JsonV::Int(i as int)),
        None => None,
    }
}

pub open spec fn spec_opt_bool_json(v: Option<bool>) -> Option<JsonV> {
    match v {
        Some(b) => Some(JsonV::Bool(b)),
        None => None,
    }
}

pub fn opt_str_json(v: &Option<String>) -> (r: Option<Json>)
    ensures
        r.deep_view() == spec_opt_str_json(v.deep_view()),
{
    match v {
        Some(s) => Some(Json::Str(s.clone())),
        None => None,
    }
}

pub fn opt_int_json(v: Option<i64>) -> (r: Option<Json>)
    ensures
        r.deep_view() == spec_opt_int_json(v),
{
    match v {
        Some(i) => Some(Json::Int(i)),
        None => None,
    }
}

pub fn opt_bool_json(v: Option<bool>) -> (r: Option<Json>)
    ensures
        r.deep_view() == spec_opt_bool_json(v),
{
    match v {
        Some(b) => Some(Json::Bool(b)),
        None => None,
    }
}

/// Adds the field `key` to a field list where there is a value for it.
pub fn push_opt(fields: &mut Vec<(String, Json)>, key: &str, value: Option<Json>)
    ensures
        final(fields).deep_view() == old(fields).deep_view() + spec_opt_field(key@, value.deep_view()),
{
    match value {
        Some(v) => {
            fields.push((String::from_str(key), v));
        },
        None => {
        },
    }
}

/// The three headers of a request that carries a JSON body.
pub open spec fn spec_write_headers(station: RelayStationV) -> Seq<(Seq<char>, Seq<char>)> {
    seq![
        spec_auth_header(station.fields.system_token),
        spec_tenant_header(station.tenant()),
        spec_json_header(),
    ]
}

/// The two headers of a request that reads with the management credential.
pub open spec fn spec_read_headers(station: RelayStationV) -> Seq<(Seq<char>, Seq<char>)> {
    seq![spec_auth_header(station.fields.system_token), spec_tenant_header(station.tenant())]
}

pub fn write_headers(station: &RelayStation) -> (r: Vec<(String, String)>)
    ensures
        r.deep_view() == spec_write_headers(station.deep_view()),
{
    let mut headers: Vec<(String, String)> = Vec::new();
    headers.push(auth_header(station.system_token.as_str()));
    headers.push(tenant_header(station.tenant()));
    headers.push(json_header());
    headers
}

pub fn read_headers(station: &RelayStation) -> (r: Vec<(String, String)>)
    ensures
        r.deep_view() == spec_read_headers(station.deep_view()),
{
    let mut headers: Vec<(String, String)> = Vec::new();
    headers.push(auth_header(station.system_token.as_str()));
    headers.push(tenant_header(station.tenant()));
    headers
}

/// The token that the answer to a change describes: the object `data`, read
/// with `token_id` and `default_enabled` as defaults, `data` kept as `raw`.
pub open spec fn spec_changed_token(
    station: RelayStationV,
    token_id: Seq<char>,
    default_enabled: bool,
    doc: JsonV,
) -> Result<RelayStationTokenV, RelayErrorV> {
    match doc.member("data"@).as_object() {
        Some(obj) => Ok(
            spec_token(station.id, obj, token_id, default_enabled, seq![("raw"@, doc.member("data"@))]),
        ),
        None => Err(spec_invalid_format()),
    }
}

pub fn changed_token(station: &RelayStation, token_id: &str, default_enabled: bool, doc: &Json) -> (r: Result<
    RelayStationToken,
    RelayError,
>)
    ensures
        result_view(r) == spec_changed_token(station.deep_view(), token_id@, default_enabled, doc@),
        r matches Ok(t) ==> t.expires_at != Some(-1i64),
{
    match doc.get("data") {
        Some(data) => match data.as_object() {
            Some(obj) => {
                let mut metadata: Vec<(String, Json)> = Vec::new();
                metadata.push(field("raw", data.clone_json()));
                assert(metadata.deep_view() =~= seq![("raw"@, doc@.member("data"@))]);
                Ok(token_from_fields(station.id.as_str(), obj, token_id, default_enabled, metadata))
            },
            None => Err(invalid_format()),
        },
        None => Err(invalid_format()),
    }
}

impl NewApiAdapter {
    // -- update token -------------------------------------------------------

    /// The body of an update: the token's id, then each field that the
    /// request holds; `enabled` goes out as `status` 1 or 0.
    pub open spec fn spec_update_body(req: crate::station::UpdateTokenRequestV) -> Fields {
        seq![("id"@, JsonV::Int(req.id as int))] + spec_opt_field(
            "name"@,
            spec_opt_str_json(req.name),
        ) + spec_opt_field("remain_quota"@, spec_opt_int_json(req.remain_quota)) + spec_opt_field(
            "expired_time"@,
            spec_opt_int_json(req.expired_time),
        ) + spec_opt_field("unlimited_quota"@, spec_opt_bool_json(req.unlimited_quota))
            + spec_opt_field("model_limits_enabled"@, spec_opt_bool_json(req.model_limits_enabled))
            + spec_opt_field("model_limits"@, spec_opt_str_json(req.model_limits)) + spec_opt_field(
            "group"@,
            spec_opt_str_json(req.group),
        ) + spec_opt_field("allow_ips"@, spec_opt_str_json(req.allow_ips)) + spec_opt_field(
            "status"@,
            match req.enabled {
                Some(e) => Some(
                    JsonV::Int(
                        if e {
                            1
                        } else {
                            0
                        },
                    ),
                ),
                None => None,
            },
        )
    }

    pub open spec fn spec_update_token_request(
        station: RelayStationV,
        req: crate::station::UpdateTokenRequestV,
    ) -> HttpRequestV {
        HttpRequestV {
            method: HttpMethod::Put,
            url: station.fields.api_url + "/api/token/"@,
            headers: spec_write_headers(station),
            body: Some(JsonV::Object(Self::spec_update_body(req))),
            timeout_secs: None,
        }
    }

    /// The request that changes a token.
    pub fn update_token_request(station: &RelayStation, req: &crate::station::UpdateTokenRequest) -> (r:
        HttpRequest)
        ensures
            r.deep_view() == Self::spec_update_token_request(station.deep_view(), req.deep_view()),
    {
        let mut body: Vec<(String, Json)> = Vec::new();
        body.push(field("id", Json::Int(req.id)));
        assert(body.deep_view() =~= seq![("id"@, JsonV::Int(req.id as int))]);
        push_opt(&mut body, "name", opt_str_json(&req.name));
        push_opt(&mut body, "remain_quota", opt_int_json(req.remain_quota));
        push_opt(&mut body, "expired_time", opt_int_json(req.expired_time));
        push_opt(&mut body, "unlimited_quota", opt_bool_json(req.unlimited_quota));
        push_opt(&mut body, "model_limits_enabled", opt_bool_json(req.model_limits_enabled));
        push_opt(&mut body, "model_limits", opt_str_json(&req.model_limits));
        push_opt(&mut body, "group", opt_str_json(&req.group));
        push_opt(&mut body, "allow_ips", opt_str_json(&req.allow_ips));
        let status = match req.enabled {
            Some(e) => Some(
                Json::Int(
                    if e {
                        1
                    } else {
                        0
                    },
                ),
            ),
            None => None,
        };
        push_opt(&mut body, "status", status);
        proof {
            lemma_object_view(body);
        }
        HttpRequest {
            method: HttpMethod::Put,
            url: concat(station.api_url.as_str(), "/api/token/"),
            headers: write_headers(station),
            body: Some(Json::Object(body)),
            timeout_secs: None,
        }
    }

    /// Reads the reply to `update_token_request`.
    pub fn update_token(station: &RelayStation, token_id: &str, reply: &HttpReply) -> (r: Result<
        RelayStationToken,
        RelayError,
    >)
        ensures
            result_view(r) == (match reply.deep_view().parsed_document("Failed to update token: "@) {
                Ok(doc) => spec_changed_token(station.deep_view(), token_id@, false, doc),
                Err(e) => Err(e),
            }),
            r matches Ok(t) ==> t.expires_at != Some(-1i64),
    {
        match reply.document("Failed to update token: ") {
            Ok(doc) => changed_token(station, token_id, false, &doc),
            Err(e) => Err(e),
        }
    }

    // -- toggle token -------------------------------------------------------

    /// The request that enables or disables a token, given the number that
    /// its id reads as: status 1 enables, status 2 disables.
    pub open spec fn spec_toggle_token_request(station: RelayStationV, id: i64, enabled: bool) -> HttpRequestV {
        HttpRequestV {
            method: HttpMethod::Put,
            url: station.fields.api_url + "/api/token/?status_only=true"@,
            headers: spec_write_headers(station),
            body: Some(
                JsonV::Object(
                    seq![
                        ("id"@, JsonV::Int(id as int)),
                        (
                            "status"@,
                            JsonV::Int(
                                if enabled {
                                    1
                                } else {
                                    2
                                },
                            ),
                        ),
                    ],
                ),
            ),
            timeout_secs: None,
        }
    }

    /// The request that enables or disables a token. A token id that is no
    /// decimal `i64` is refused.
    pub fn toggle_token_request(station: &RelayStation, token_id: &str, enabled: bool) -> (r: Result<
        HttpRequest,
        RelayError,
    >)
        ensures
            result_view(r) == (match crate::text::spec_parse_i64(token_id@) {
                Some(id) => Ok(Self::spec_toggle_token_request(station.deep_view(), id, enabled)),
                None => Err(RelayErrorV::Validation("Invalid token ID: "@ + token_id@)),
            }),
    {
        let id = match crate::text::parse_i64(token_id) {
            Some(id) => id,
            None => {
                return Err(RelayError::Validation(concat("Invalid token ID: ", token_id)));
            },
        };
        let mut body: Vec<(String, Json)> = Vec::new();
        body.push(field("id", Json::Int(id)));
        body.push(
            field(
                "status",
                Json::Int(
                    if enabled {
                        1
                    } else {
                        2
                    },
                ),
            ),
        );
        proof {
            lemma_object_view(body);
            assert(body.deep_view() =~= Self::spec_toggle_token_request(
                station.deep_view(),
                id,
                enabled,
            ).body->0->Object_0);
        }
        Ok(
            HttpRequest {
                method: HttpMethod::Put,
                url: concat(station.api_url.as_str(), "/api/token/?status_only=true"),
                headers: write_headers(station),
                body: Some(Json::Object(body)),
                timeout_secs: None,
            },
        )
    }

    /// Reads the reply to `toggle_token_request`.
    pub fn toggle_token(station: &RelayStation, token_id: &str, enabled: bool, reply: &HttpReply) -> (r:
        Result<RelayStationToken, RelayError>)
        ensures
            result_view(r) == (match reply.deep_view().parsed_document("Failed to toggle token: "@) {
                Ok(doc) => spec_changed_token(station.deep_view(), token_id@, enabled, doc),
                Err(e) => Err(e),
            }),
            r matches Ok(t) ==> t.expires_at != Some(-1i64),
    {
        match reply.document("Failed to toggle token: ") {
            Ok(doc) => changed_token(station, token_id, enabled, &doc),
            Err(e) => Err(e),
        }
    }

    // -- delete token -------------------------------------------------------

    pub open spec fn spec_delete_token_request(station: RelayStationV, token_id: Seq<char>) -> HttpRequestV {
        HttpRequestV {
            method: HttpMethod::Delete,
            url: station.fields.api_url + "/api/token/"@ + token_id,
            headers: spec_read_headers(station),
            body: None,
            timeout_secs: None,
        }
    }

    /// The request that deletes a token.
    pub fn delete_token_request(station: &RelayStation, token_id: &str) -> (r: HttpRequest)
        ensures
            r.deep_view() == Self::spec_delete_token_request(station.deep_view(), token_id@),
    {
        let mut url = concat(station.api_url.as_str(), "/api/token/");
        url.append(token_id);
        HttpRequest {
            method: HttpMethod::Delete,
            url,
            headers: read_headers(station),
            body: None,
            timeout_secs: None,
        }
    }

    /// Reads the reply to `delete_token_request`: a 2xx answer is success.
    pub fn delete_token(reply: &HttpReply) -> (r: Result<(), RelayError>)
        ensures
            result_view(r) == reply.deep_view().outcome("Failed to delete token: "@),
    {
        reply.outcome("Failed to delete token: ")
    }

    // -- user groups --------------------------------------------------------

    pub open spec fn spec_user_groups_request(station: RelayStationV) -> HttpRequestV {
        HttpRequestV {
            method: HttpMethod::Get,
            url: station.fields.api_url + "/api/user/self/groups"@,
            headers: spec_read_headers(station),
            body: None,
            timeout_secs: None,
        }
    }

    /// The request for the groups of the station's user.
    pub fn get_user_groups_request(station: &RelayStation) -> (r: HttpRequest)
        ensures
            r.deep_view() == Self::spec_user_groups_request(station.deep_view()),
    {
        HttpRequest {
            method: HttpMethod::Get,
            url: concat(station.api_url.as_str(), "/api/user/self/groups"),
            headers: read_headers(station),
            body: None,
            timeout_secs: None,
        }
    }

    /// Reads the reply to `get_user_groups_request`: the document as it came.
    pub fn get_user_groups(reply: &HttpReply) -> (r: Result<Json, RelayError>)
        ensures
            result_view(r) == reply.deep_view().parsed_document("API request failed with status: "@),
    {
        reply.document("API request failed with status: ")
    }
}


pub open spec fn spec_bool_or(v: Option<bool>, fallback: bool) -> bool {
    match v {
        Some(b) => b,
        None => fallback,
    }
}

pub open spec fn spec_text_or(v: Option<Seq<char>>, fallback: Seq<char>) -> Seq<char> {
    match v {
        Some(s) => s,
        None => fallback,
    }
}

pub fn bool_or(v: Option<bool>, fallback: bool) -> (r: bool)
    ensures
        r == spec_bool_or(v, fallback),
{
    match v {
        Some(b) => b,
        None => fallback,
    }
}

pub fn string_or(v: &Option<String>, fallback: &str) -> (r: String)
    ensures
        r@ == spec_text_or(v.deep_view(), fallback@),
{
    match v {
        Some(s) => s.clone(),
        None => String::from_str(fallback),
    }
}

impl NewApiAdapter {
    // -- create token -------------------------------------------------------

    /// The body of a creation: every field, with a default where the request
    /// holds none. A token without a group goes to the account's own group.
    pub open spec fn spec_create_body(req: crate::station::CreateTokenRequestV) -> Fields {
        seq![
            ("name"@, JsonV::Str(req.name)),
            ("remain_quota"@, JsonV::Int(spec_i64_or(req.remain_quota, 500000) as int)),
            ("expired_time"@, JsonV::Int(spec_i64_or(req.expired_time, -1i64) as int)),
            ("unlimited_quota"@, JsonV::Bool(spec_bool_or(req.unlimited_quota, true))),
            ("model_limits_enabled"@, JsonV::Bool(spec_bool_or(req.model_limits_enabled, false))),
            ("model_limits"@, JsonV::Str(spec_text_or(req.model_limits, ""@))),
            ("group"@, JsonV::Str(spec_text_or(req.group, ""@))),
            ("allow_ips"@, JsonV::Str(spec_text_or(req.allow_ips, ""@))),
        ]
    }

    pub open spec fn spec_create_token_request(
        station: RelayStationV,
        req: crate::station::CreateTokenRequestV,
    ) -> HttpRequestV {
        HttpRequestV {
            method: HttpMethod::Post,
            url: station.fields.api_url + "/api/token/"@,
            headers: spec_write_headers(station),
            body: Some(JsonV::Object(Self::spec_create_body(req))),
            timeout_secs: None,
        }
    }

    /// The request that creates a token.
    pub fn create_token_request(station: &RelayStation, req: &crate::station::CreateTokenRequest) -> (r:
        HttpRequest)
        ensures
            r.deep_view() == Self::spec_create_token_request(station.deep_view(), req.deep_view()),
    {
        let mut body: Vec<(String, Json)> = Vec::new();
        body.push(field("name", Json::Str(req.name.clone())));
        body.push(field("remain_quota", Json::Int(i64_or(req.remain_quota, 500000))));
        body.push(field("expired_time", Json::Int(i64_or(req.expired_time, -1))));
        body.push(field("unlimited_quota", Json::Bool(bool_or(req.unlimited_quota, true))));
        body.push(field("model_limits_enabled", Json::Bool(bool_or(req.model_limits_enabled, false))));
        body.push(field("model_limits", Json::Str(string_or(&req.model_limits, ""))));
        body.push(field("group", Json::Str(string_or(&req.group, ""))));
        body.push(field("allow_ips", Json::Str(string_or(&req.allow_ips, ""))));
        proof {
            lemma_object_view(body);
            assert(body.deep_view() =~= Self::spec_create_body(req.deep_view()));
        }
        HttpRequest {
            method: HttpMethod::Post,
            url: concat(station.api_url.as_str(), "/api/token/"),
            headers: write_headers(station),
            body: Some(Json::Object(body)),
            timeout_secs: None,
        }
    }

    /// What the answer to a creation gives. The provider does not echo the
    /// token it made, so success yields a stand-in: no id and no secret, the
    /// request's own values, and a note that says to refresh. Where the
    /// answer's `success` is not `true`, its `message` is the failure.
    pub open spec fn spec_create_token(
        station: RelayStationV,
        req: crate::station::CreateTokenRequestV,
        doc: JsonV,
        now: i64,
    ) -> Result<RelayStationTokenV, RelayErrorV> {
        if doc.member("success"@).as_bool() == Some(true) {
            Ok(
                RelayStationTokenV {
                    id: Seq::empty(),
                    station_id: station.id,
                    name: req.name,
                    token: Seq::empty(),
                    user_id: Some(station.tenant()),
                    enabled: true,
                    expires_at: spec_expiry(req.expired_time),
                    group: req.group,
                    remain_quota: req.remain_quota,
                    unlimited_quota: req.unlimited_quota,
                    metadata: Some(
                        seq![
                            ("response"@, doc),
                            (
                                "note"@,
                                JsonV::Str("Token created successfully, refresh to see details"@),
                            ),
                        ],
                    ),
                    created_at: now,
                },
            )
        } else {
            Err(
                RelayErrorV::Upstream(
                    "Failed to create token: "@ + spec_text_or(
                        doc.member("message"@).as_str(),
                        "Unknown error"@,
                    ),
                ),
            )
        }
    }

    pub fn create_token_from_json(
        station: &RelayStation,
        req: &crate::station::CreateTokenRequest,
        doc: &Json,
        now: i64,
    ) -> (r: Result<RelayStationToken, RelayError>)
        ensures
            result_view(r) == Self::spec_create_token(station.deep_view(), req.deep_view(), doc@, now),
            r matches Ok(t) ==> t.expires_at != Some(-1i64),
    {
        let success = match doc.get("success") {
            Some(v) => v.as_bool(),
            None => None,
        };
        let ok = match success {
            Some(b) => b,
            None => false,
        };
        if ok {
            let mut metadata: Vec<(String, Json)> = Vec::new();
            metadata.push(field("response", doc.clone_json()));
            metadata.push(
                field("note", Json::string("Token created successfully, refresh to see details")),
            );
            proof {
                reveal_strlit("");
                assert(""@ =~= Seq::<char>::empty());
                assert(metadata.deep_view() =~= seq![
                    ("response"@, doc@),
                    ("note"@, JsonV::Str("Token created successfully, refresh to see details"@)),
                ]);
            }
            Ok(
                RelayStationToken {
                    id: String::from_str(""),
                    station_id: station.id.clone(),
                    name: req.name.clone(),
                    token: String::from_str(""),
                    user_id: Some(String::from_str(station.tenant())),
                    enabled: true,
                    expires_at: expiry(req.expired_time),
                    group: crate::text::clone_opt_string(&req.group),
                    remain_quota: req.remain_quota,
                    unlimited_quota: req.unlimited_quota,
                    metadata: Some(metadata),
                    created_at: now,
                },
            )
        } else {
            let message = match doc.get("message") {
                Some(v) => v.as_str(),
                None => None,
            };
            Err(
                RelayError::Upstream(
                    concat("Failed to create token: ", str_or(message, "Unknown error")),
                ),
            )
        }
    }

    /// Reads the reply to `create_token_request`, `now` being the time that
    /// the stand-in token is stamped with.
    pub fn create_token_at(
        station: &RelayStation,
        req: &crate::station::CreateTokenRequest,
        reply: &HttpReply,
        now: i64,
    ) -> (r: Result<RelayStationToken, RelayError>)
        ensures
            result_view(r) == Self::spec_create_token_reply(
                station.deep_view(),
                req.deep_view(),
                reply.deep_view(),
                now,
            ),
            r matches Ok(t) ==> t.expires_at != Some(-1i64),
    {
        match reply.document("Failed to create token: ") {
            Ok(doc) => Self::create_token_from_json(station, req, &doc, now),
            Err(e) => Err(e),
        }
    }

    pub open spec fn spec_create_token_reply(
        station: RelayStationV,
        req: crate::station::CreateTokenRequestV,
        reply: HttpReplyV,
        now: i64,
    ) -> Result<RelayStationTokenV, RelayErrorV> {
        match reply.parsed_document("Failed to create token: "@) {
            Ok(doc) => Self::spec_create_token(station, req, doc, now),
            Err(e) => Err(e),
        }
    }

    /// Reads the reply to `create_token_request`; the stand-in token is
    /// stamped with the time of the call.
    pub fn create_token(
        station: &RelayStation,
        req: &crate::station::CreateTokenRequest,
        reply: &HttpReply,
    ) -> (r: Result<RelayStationToken, RelayError>)
        ensures
            exists|now: i64|
                result_view(r) == #[trigger] Self::spec_create_token_reply(
                    station.deep_view(),
                    req.deep_view(),
                    reply.deep_view(),
                    now,
                ),
            r matches Ok(t) ==> t.expires_at != Some(-1i64),
    {
        let now = crate::platform::unix_now();
        Self::create_token_at(station, req, reply, now)
    }

    // -- station info -------------------------------------------------------

    pub open spec fn spec_status_request(station: RelayStationV, timeout_secs: Option<u64>) -> HttpRequestV {
        HttpRequestV {
            method: HttpMethod::Get,
            url: station.fields.api_url + "/api/status"@,
            headers: seq![spec_tenant_header(station.tenant())],
            body: None,
            timeout_secs,
        }
    }

    fn status_request(station: &RelayStation, timeout_secs: Option<u64>) -> (r: HttpRequest)
        ensures
            r.deep_view() == Self::spec_status_request(station.deep_view(), timeout_secs),
    {
        let mut headers: Vec<(String, String)> = Vec::new();
        headers.push(tenant_header(station.tenant()));
        assert(headers.deep_view() =~= seq![spec_tenant_header(station.deep_view().tenant())]);
        HttpRequest {
            method: HttpMethod::Get,
            url: concat(station.api_url.as_str(), "/api/status"),
            headers,
            body: None,
            timeout_secs,
        }
    }

    /// The request for what a station says about itself. It carries no
    /// credential.
    pub fn get_station_info_request(station: &RelayStation) -> (r: HttpRequest)
        ensures
            r.deep_view() == Self::spec_status_request(station.deep_view(), None),
    {
        Self::status_request(station, None)
    }

    /// The text of the first announcement: member `content` of the first
    /// item of the array `announcements`.
    pub open spec fn spec_first_announcement(data: Fields) -> Option<Seq<char>> {
        let items = spec_array_member(data, "announcements"@);
        if items.len() == 0 {
            None
        } else {
            items[0].member("content"@).as_str()
        }
    }

    pub open spec fn spec_station_info(station: RelayStationV, doc: JsonV) -> Result<
        crate::station::StationInfoV,
        RelayErrorV,
    > {
        match doc.member("data"@).as_object() {
            None => Err(spec_invalid_format()),
            Some(data) => Ok(
                crate::station::StationInfoV {
                    name: spec_text_or(spec_field_str(data, "system_name"@), station.fields.name),
                    announcement: Self::spec_first_announcement(data),
                    api_url: station.fields.api_url,
                    version: spec_field_str(data, "version"@),
                    metadata: Some(seq![("response"@, doc.member("data"@))]),
                    quota_per_unit: spec_field_i64(data, "quota_per_unit"@),
                },
            ),
        }
    }

    pub fn station_info_from_json(station: &RelayStation, doc: &Json) -> (r: Result<
        crate::station::StationInfo,
        RelayError,
    >)
        ensures
            result_view(r) == Self::spec_station_info(station.deep_view(), doc@),
    {
        let whole = match doc.get("data") {
            Some(d) => d,
            None => {
                return Err(invalid_format());
            },
        };
        let data = match whole.as_object() {
            Some(d) => d,
            None => {
                return Err(invalid_format());
            },
        };
        let empty: Vec<Json> = Vec::new();
        let items = array_member(data, "announcements", &empty);
        let announcement = if items.len() == 0 {
            None
        } else {
            let content = match items[0].get("content") {
                Some(c) => c.as_str(),
                None => None,
            };
            opt_string(content)
        };
        let mut metadata: Vec<(String, Json)> = Vec::new();
        metadata.push(field("response", whole.clone_json()));
        assert(metadata.deep_view() =~= seq![("response"@, doc@.member("data"@))]);
        Ok(
            crate::station::StationInfo {
                name: String::from_str(str_or(field_str(data, "system_name"), station.name.as_str())),
                announcement,
                api_url: station.api_url.clone(),
                version: opt_string(field_str(data, "version")),
                metadata: Some(metadata),
                quota_per_unit: field_i64(data, "quota_per_unit"),
            },
        )
    }

    /// Reads the reply to `get_station_info_request`.
    pub fn get_station_info(station: &RelayStation, reply: &HttpReply) -> (r: Result<
        crate::station::StationInfo,
        RelayError,
    >)
        ensures
            result_view(r) == (match reply.deep_view().parsed_document(
                "Failed to get station info: "@,
            ) {
                Ok(doc) => Self::spec_station_info(station.deep_view(), doc),
                Err(e) => Err(e),
            }),
    {
        match reply.document("Failed to get station info: ") {
            Ok(doc) => Self::station_info_from_json(station, &doc),
            Err(e) => Err(e),
        }
    }

    // -- connection test ----------------------------------------------------

    /// The request of a connection test: the status request, bounded to ten
    /// seconds.
    pub fn test_connection_request(station: &RelayStation) -> (r: HttpRequest)
        ensures
            r.deep_view() == Self::spec_status_request(station.deep_view(), Some(10u64)),
    {
        Self::status_request(station, Some(10))
    }

    /// How a connection test ended, whatever came back.
    pub open spec fn spec_test_connection(reply: HttpReplyV) -> crate::station::ConnectionTestResultV {
        match reply {
            HttpReplyV::Response { status, status_text, body, elapsed_ms } => crate::station::ConnectionTestResultV {
                success: crate::http::spec_is_success(status),
                response_time: Some(elapsed_ms),
                message: if crate::http::spec_is_success(status) {
                    "Connection successful"@
                } else {
                    "HTTP "@ + spec_decimal(status as int)
                },
                status_code: Some(status),
                details: None,
            },
            HttpReplyV::Failed { error } => crate::station::ConnectionTestResultV {
                success: false,
                response_time: None,
                message: "Connection failed: "@ + error,
                status_code: None,
                details: None,
            },
        }
    }

    /// Reads the reply to `test_connection_request`. It never fails.
    pub fn test_connection(reply: &HttpReply) -> (r: crate::station::ConnectionTestResult)
        ensures
            r.deep_view() == Self::spec_test_connection(reply.deep_view()),
    {
        match reply {
            HttpReply::Response { status, status_text, body, elapsed_ms } => {
                let ok = crate::http::is_success(*status);
                crate::station::ConnectionTestResult {
                    success: ok,
                    response_time: Some(*elapsed_ms),
                    message: if ok {
                        String::from_str("Connection successful")
                    } else {
                        concat("HTTP ", decimal_string(*status as i128).as_str())
                    },
                    status_code: Some(*status),
                    details: None,
                }
            },
            HttpReply::Failed { error } => crate::station::ConnectionTestResult {
                success: false,
                response_time: None,
                message: concat("Connection failed: ", error.as_str()),
                status_code: None,
                details: None,
            },
        }
    }

    // -- user info ----------------------------------------------------------

    /// The tenant that an account is asked for: the given user id, or the
    /// station's tenant where none is given.
    pub open spec fn spec_asked_user(station: RelayStationV, user_id: Seq<char>) -> Seq<char> {
        if user_id.len() == 0 {
            station.tenant()
        } else {
            user_id
        }
    }

    pub open spec fn spec_user_info_request(station: RelayStationV, user_id: Seq<char>) -> HttpRequestV {
        HttpRequestV {
            method: HttpMethod::Get,
            url: station.fields.api_url + "/api/user/self"@,
            headers: seq![
                spec_auth_header(station.fields.system_token),
                spec_tenant_header(Self::spec_asked_user(station, user_id)),
            ],
            body: None,
            timeout_secs: None,
        }
    }

    /// The request for one account.
    pub fn get_user_info_request(station: &RelayStation, user_id: &str) -> (r: HttpRequest)
        ensures
            r.deep_view() == Self::spec_user_info_request(station.deep_view(), user_id@),
    {
        let asked = if user_id.is_empty() {
            station.tenant()
        } else {
            user_id
        };
        let mut headers: Vec<(String, String)> = Vec::new();
        headers.push(auth_header(station.system_token.as_str()));
        headers.push(tenant_header(asked));
        assert(headers.deep_view() =~= Self::spec_user_info_request(
            station.deep_view(),
            user_id@,
        ).headers);
        HttpRequest {
            method: HttpMethod::Get,
            url: concat(station.api_url.as_str(), "/api/user/self"),
            headers,
            body: None,
            timeout_secs: None,
        }
    }

    /// An account's standing: status 1 is active, 0 is disabled, anything
    /// else is unknown.
    pub open spec fn spec_account_status(status: Option<i64>) -> Seq<char> {
        if status == Some(1i64) {
            "active"@
        } else if status == Some(0i64) {
            "disabled"@
        } else {
            "unknown"@
        }
    }

    pub fn account_status(status: Option<i64>) -> (r: &'static str)
        ensures
            r@ == Self::spec_account_status(status),
    {
        match status {
            Some(1) => "active",
            Some(0) => "disabled",
            _ => "unknown",
        }
    }

    /// A text that is not empty.
    pub open spec fn spec_non_empty(v: Option<Seq<char>>) -> Option<Seq<char>> {
        match v {
            Some(s) => if s.len() == 0 {
                None
            } else {
                Some(s)
            },
            None => None,
        }
    }

    pub open spec fn spec_user_info(user_id: Seq<char>, doc: JsonV) -> Result<
        crate::station::UserInfoV,
        RelayErrorV,
    > {
        match doc.member("data"@).as_object() {
            None => Err(spec_invalid_format()),
            Some(data) => Ok(
                crate::station::UserInfoV {
                    user_id: match spec_field_i64(data, "id"@) {
                        Some(i) => spec_decimal(i as int),
                        None => user_id,
                    },
                    username: spec_field_str(data, "username"@),
                    email: Self::spec_non_empty(spec_field_str(data, "email"@)),
                    balance_remaining: spec_field_i64(data, "quota"@),
                    amount_used: spec_field_i64(data, "used_quota"@),
                    request_count: spec_field_i64(data, "request_count"@),
                    status: Some(Self::spec_account_status(spec_field_i64(data, "status"@))),
                    metadata: Some(seq![("response"@, doc.member("data"@))]),
                },
            ),
        }
    }

    pub fn user_info_from_json(user_id: &str, doc: &Json) -> (r: Result<
        crate::station::UserInfo,
        RelayError,
    >)
        ensures
            result_view(r) == Self::spec_user_info(user_id@, doc@),
    {
        let whole = match doc.get("data") {
            Some(d) => d,
            None => {
                return Err(invalid_format());
            },
        };
        let data = match whole.as_object() {
            Some(d) => d,
            None => {
                return Err(invalid_format());
            },
        };
        let email = match field_str(data, "email") {
            Some(s) => if s.is_empty() {
                None
            } else {
                Some(String::from_str(s))
            },
            None => None,
        };
        let mut metadata: Vec<(String, Json)> = Vec::new();
        metadata.push(field("response", whole.clone_json()));
        assert(metadata.deep_view() =~= seq![("response"@, doc@.member("data"@))]);
        Ok(
            crate::station::UserInfo {
                user_id: match field_i64(data, "id") {
                    Some(i) => decimal_string(i as i128),
                    None => String::from_str(user_id),
                },
                username: opt_string(field_str(data, "username")),
                email,
                balance_remaining: field_i64(data, "quota"),
                amount_used: field_i64(data, "used_quota"),
                request_count: field_i64(data, "request_count"),
                status: Some(String::from_str(Self::account_status(field_i64(data, "status")))),
                metadata: Some(metadata),
            },
        )
    }

    /// Reads the reply to `get_user_info_request`.
    pub fn get_user_info(user_id: &str, reply: &HttpReply) -> (r: Result<
        crate::station::UserInfo,
        RelayError,
    >)
        ensures
            result_view(r) == (match reply.deep_view().parsed_document("Failed to get user info: "@) {
                Ok(doc) => Self::spec_user_info(user_id@, doc),
                Err(e) => Err(e),
            }),
    {
        match reply.document("Failed to get user info: ") {
            Ok(doc) => Self::user_info_from_json(user_id, &doc),
            Err(e) => Err(e),
        }
    }
}


/// The default page of a listing: the first.
pub open spec fn spec_page_or_first(page: Option<usize>) -> usize {
    match page {
        Some(p) => p,
        None => 1,
    }
}

/// The default size of a page: ten items.
pub open spec fn spec_size_or_ten(size: Option<usize>) -> usize {
    match size {
        Some(s) => s,
        None => 10,
    }
}

pub fn page_or_first(page: Option<usize>) -> (r: usize)
    ensures
        r == spec_page_or_first(page),
{
    match page {
        Some(p) => p,
        None => 1,
    }
}

pub fn size_or_ten(size: Option<usize>) -> (r: usize)
    ensures
        r == spec_size_or_ten(size),
{
    match size {
        Some(s) => s,
        None => 10,
    }
}

/// The text member `key` of an optional filter document.
pub open spec fn spec_filter_text(filters: Option<JsonV>, key: Seq<char>) -> Option<Seq<char>> {
    match filters {
        Some(f) => f.member(key).as_str(),
        None => None,
    }
}

pub fn filter_text<'a>(filters: Option<&'a Json>, key: &str) -> (r: Option<&'a str>)
    ensures
        r.deep_view() == spec_filter_text(filters.deep_view(), key@),
{
    match filters {
        Some(f) => match f.get(key) {
            Some(v) => v.as_str(),
            None => None,
        },
        None => None,
    }
}

/// The text that a filter's time is read from: the time as given, which has
/// minutes but neither seconds nor a zone, completed as UTC.
pub open spec fn spec_utc_text(local: Seq<char>) -> Seq<char> {
    local + ":00+00:00"@
}

/// The bound that a filter's time gives, `parsed` being what the completed
/// text reads as: `fallback` where the time is missing, empty or unreadable.
pub open spec fn spec_time_bound(text: Option<Seq<char>>, parsed: Option<i64>, fallback: i64) -> i64 {
    match text {
        Some(t) => if t.len() == 0 {
            fallback
        } else {
            spec_i64_or(parsed, fallback)
        },
        None => fallback,
    }
}

pub fn time_bound_given(text: Option<&str>, parsed: Option<i64>, fallback: i64) -> (r: i64)
    ensures
        r == spec_time_bound(text.deep_view(), parsed, fallback),
{
    match text {
        Some(t) => if t.is_empty() {
            fallback
        } else {
            i64_or(parsed, fallback)
        },
        None => fallback,
    }
}

/// The bound that a filter's time gives, its text read as an RFC 3339 time.
pub open spec fn spec_filter_time(filters: Option<JsonV>, key: Seq<char>, fallback: i64) -> i64 {
    let text = spec_filter_text(filters, key);
    spec_time_bound(
        text,
        match text {
            Some(t) => crate::platform::spec_rfc3339_timestamp(spec_utc_text(t)),
            None => None,
        },
        fallback,
    )
}

pub fn filter_time(filters: Option<&Json>, key: &str, fallback: i64) -> (r: i64)
    ensures
        r == spec_filter_time(filters.deep_view(), key@, fallback),
{
    let text = filter_text(filters, key);
    let parsed = match text {
        Some(t) => crate::platform::rfc3339_timestamp(concat(t, ":00+00:00").as_str()),
        None => None,
    };
    time_bound_given(text, parsed, fallback)
}

/// The severity that a log line's type stands for.
pub open spec fn spec_log_level(kind: Option<i64>) -> Seq<char> {
    if kind == Some(2i64) {
        "api"@
    } else if kind == Some(3i64) {
        "warn"@
    } else if kind == Some(4i64) {
        "error"@
    } else {
        "info"@
    }
}

pub fn log_level(kind: Option<i64>) -> (r: &'static str)
    ensures
        r@ == spec_log_level(kind),
{
    match kind {
        Some(2) => "api",
        Some(3) => "warn",
        Some(4) => "error",
        _ => "info",
    }
}

/// The one-line summary of a log line.
pub open spec fn spec_log_message(obj: Fields) -> Seq<char> {
    "API调用 - 模型: "@ + spec_text_or(spec_field_str(obj, "model_name"@), "unknown"@) + " | 提示: "@
        + spec_decimal(spec_i64_or(spec_field_i64(obj, "prompt_tokens"@), 0) as int) + " | 补全: "@
        + spec_decimal(spec_i64_or(spec_field_i64(obj, "completion_tokens"@), 0) as int)
        + " | 花费: "@ + spec_decimal(spec_i64_or(spec_field_i64(obj, "quota"@), 0) as int)
}

pub fn log_message(obj: &Vec<(String, Json)>) -> (r: String)
    ensures
        r@ == spec_log_message(obj.deep_view()),
{
    let mut m = String::from_str("API调用 - 模型: ");
    m.append(str_or(field_str(obj, "model_name"), "unknown"));
    m.append(" | 提示: ");
    m.append(decimal_string(i64_or(field_i64(obj, "prompt_tokens"), 0) as i128).as_str());
    m.append(" | 补全: ");
    m.append(decimal_string(i64_or(field_i64(obj, "completion_tokens"), 0) as i128).as_str());
    m.append(" | 花费: ");
    m.append(decimal_string(i64_or(field_i64(obj, "quota"), 0) as i128).as_str());
    m
}

/// The log entry that a provider's log object describes, `other` being what
/// its member `other` holds once read.
pub open spec fn spec_log_entry_given(log: JsonV, other: JsonV) -> crate::station::StationLogEntryV {
    let obj = spec_object_or_empty(log);
    crate::station::StationLogEntryV {
        id: spec_or_empty(spec_opt_decimal(spec_field_i64(obj, "id"@))),
        timestamp: spec_i64_or(spec_field_i64(obj, "created_at"@), 0),
        level: spec_log_level(spec_field_i64(obj, "type"@)),
        message: spec_log_message(obj),
        user_id: spec_opt_decimal(spec_field_i64(obj, "user_id"@)),
        request_id: spec_opt_decimal(spec_field_i64(obj, "id"@)),
        metadata: Some(seq![("raw"@, log), ("other"@, other)]),
        model_name: spec_field_str(obj, "model_name"@),
        prompt_tokens: spec_field_i64(obj, "prompt_tokens"@),
        completion_tokens: spec_field_i64(obj, "completion_tokens"@),
        quota: spec_field_i64(obj, "quota"@),
        token_name: spec_field_str(obj, "token_name"@),
        use_time: spec_field_i64(obj, "use_time"@),
        is_stream: spec_field_bool(obj, "is_stream"@),
        channel: spec_field_i64(obj, "channel"@),
        group: spec_field_str(obj, "group"@),
    }
}

/// What a log object's member `other` holds: the member is a text that
/// carries a JSON document of its own. `null` where there is no such text or
/// it is no document.
pub open spec fn spec_log_other(log: JsonV) -> JsonV {
    match spec_field_str(spec_object_or_empty(log), "other"@) {
        Some(t) => match crate::json::spec_parse(t) {
            Some(doc) => doc,
            None => JsonV::Null,
        },
        None => JsonV::Null,
    }
}

pub open spec fn spec_log_entry(log: JsonV) -> crate::station::StationLogEntryV {
    spec_log_entry_given(log, spec_log_other(log))
}

fn object_or_empty<'a>(doc: &'a Json, empty: &'a Vec<(String, Json)>) -> (r: &'a Vec<(String, Json)>)
    requires
        empty@.len() == 0,
    ensures
        r.deep_view() == spec_object_or_empty(doc@),
{
    match doc {
        Json::Object(fields) => {
            proof {
                lemma_object_view(*fields);
            }
            fields
        },
        _ => {
            empty
        },
    }
}

pub fn log_entry_given(log: &Json, other: Json) -> (r: crate::station::StationLogEntry)
    ensures
        r.deep_view() == spec_log_entry_given(log@, other@),
{
    let empty: Vec<(String, Json)> = Vec::new();
    let obj = object_or_empty(log, &empty);
    let id = opt_decimal(field_i64(obj, "id"));
    let mut metadata: Vec<(String, Json)> = Vec::new();
    metadata.push(field("raw", log.clone_json()));
    metadata.push(field("other", other));
    assert(metadata.deep_view() =~= seq![("raw"@, log@), ("other"@, other@)]);
    crate::station::StationLogEntry {
        id: String::from_str(crate::text::or_empty(&id)),
        timestamp: i64_or(field_i64(obj, "created_at"), 0),
        level: String::from_str(log_level(field_i64(obj, "type"))),
        message: log_message(obj),
        user_id: opt_decimal(field_i64(obj, "user_id")),
        request_id: opt_decimal(field_i64(obj, "id")),
        metadata: Some(metadata),
        model_name: opt_string(field_str(obj, "model_name")),
        prompt_tokens: field_i64(obj, "prompt_tokens"),
        completion_tokens: field_i64(obj, "completion_tokens"),
        quota: field_i64(obj, "quota"),
        token_name: opt_string(field_str(obj, "token_name")),
        use_time: field_i64(obj, "use_time"),
        is_stream: field_bool(obj, "is_stream"),
        channel: field_i64(obj, "channel"),
        group: opt_string(field_str(obj, "group")),
    }
}

pub fn log_entry(log: &Json) -> (r: crate::station::StationLogEntry)
    ensures
        r.deep_view() == spec_log_entry(log@),
{
    let empty: Vec<(String, Json)> = Vec::new();
    let obj = object_or_empty(log, &empty);
    let other = match field_str(obj, "other") {
        Some(t) => match crate::json::parse(t) {
            Some(doc) => doc,
            None => Json::Null,
        },
        None => Json::Null,
    };
    log_entry_given(log, other)
}

pub open spec fn spec_log_entries(items: Seq<JsonV>) -> Seq<crate::station::StationLogEntryV> {
    Seq::new(items.len(), |i: int| spec_log_entry(items[i]))
}

pub fn log_entries(items: &Vec<Json>) -> (r: Vec<crate::station::StationLogEntry>)
    ensures
        r.deep_view() == spec_log_entries(items.deep_view()),
{
    let mut out: Vec<crate::station::StationLogEntry> = Vec::new();
    let mut i: usize = 0;
    while i < items.len()
        invariant
            i <= items@.len(),
            out@.len() == i,
            forall|j: int| 0 <= j < i ==> (#[trigger] out@[j]).deep_view() == spec_log_entry(items@[j]@),
        decreases items.len() - i,
    {
        out.push(log_entry(&items[i]));
        i = i + 1;
    }
    out
}

impl NewApiAdapter {
    // -- logs ---------------------------------------------------------------

    /// The address of a page of the log, `model` and `group` being the two
    /// filters as they go into a query.
    pub open spec fn spec_logs_url(
        api_url: Seq<char>,
        page: usize,
        page_size: usize,
        model: Seq<char>,
        start: i64,
        end: i64,
        group: Seq<char>,
    ) -> Seq<char> {
        api_url + "/api/log/self?p="@ + spec_decimal(page as int) + "&page_size="@ + spec_decimal(
            page_size as int,
        ) + "&type=0&token_name=&model_name="@ + model + "&start_timestamp="@ + spec_decimal(
            start as int,
        ) + "&end_timestamp="@ + spec_decimal(end as int) + "&group="@ + group
    }

    pub fn logs_url(
        api_url: &str,
        page: usize,
        page_size: usize,
        model: &str,
        start: i64,
        end: i64,
        group: &str,
    ) -> (r: String)
        ensures
            r@ == Self::spec_logs_url(api_url@, page, page_size, model@, start, end, group@),
    {
        let mut url = String::from_str(api_url);
        url.append("/api/log/self?p=");
        url.append(decimal_string(page as i128).as_str());
        url.append("&page_size=");
        url.append(decimal_string(page_size as i128).as_str());
        url.append("&type=0&token_name=&model_name=");
        url.append(model);
        url.append("&start_timestamp=");
        url.append(decimal_string(start as i128).as_str());
        url.append("&end_timestamp=");
        url.append(decimal_string(end as i128).as_str());
        url.append("&group=");
        url.append(group);
        url
    }

    /// A filter's text as it goes into a query: percent-encoded, empty where
    /// the filter is missing.
    pub open spec fn spec_query_text(filters: Option<JsonV>, key: Seq<char>) -> Seq<char> {
        crate::platform::spec_percent_encode(
            vstd::utf8::encode_utf8(spec_or_empty(spec_filter_text(filters, key))),
        )
    }

    /// The request for a page of the log at time `now`. The page defaults to
    /// the first and its size to ten; the log is asked from `startTime`
    /// (default: the epoch) to `endTime` (default: `now`), for `modelName`
    /// and `group`.
    pub open spec fn spec_logs_request(
        station: RelayStationV,
        page: Option<usize>,
        page_size: Option<usize>,
        filters: Option<JsonV>,
        now: i64,
    ) -> HttpRequestV {
        HttpRequestV {
            method: HttpMethod::Get,
            url: Self::spec_logs_url(
                station.fields.api_url,
                spec_page_or_first(page),
                spec_size_or_ten(page_size),
                Self::spec_query_text(filters, "modelName"@),
                spec_filter_time(filters, "startTime"@, 0),
                spec_filter_time(filters, "endTime"@, now),
                Self::spec_query_text(filters, "group"@),
            ),
            headers: spec_read_headers(station),
            body: None,
            timeout_secs: None,
        }
    }

    pub fn get_logs_request_at(
        station: &RelayStation,
        page: Option<usize>,
        page_size: Option<usize>,
        filters: Option<&Json>,
        now: i64,
    ) -> (r: HttpRequest)
        ensures
            r.deep_view() == Self::spec_logs_request(
                station.deep_view(),
                page,
                page_size,
                filters.deep_view(),
                now,
            ),
    {
        let model = match filter_text(filters, "modelName") {
            Some(m) => String::from_str(m),
            None => String::new(),
        };
        let group = match filter_text(filters, "group") {
            Some(g) => String::from_str(g),
            None => String::new(),
        };
        let model_query = crate::platform::url_encode(model.as_str());
        let group_query = crate::platform::url_encode(group.as_str());
        let start = filter_time(filters, "startTime", 0);
        let end = filter_time(filters, "endTime", now);
        HttpRequest {
            method: HttpMethod::Get,
            url: Self::logs_url(
                station.api_url.as_str(),
                page_or_first(page),
                size_or_ten(page_size),
                model_query.as_str(),
                start,
                end,
                group_query.as_str(),
            ),
            headers: read_headers(station),
            body: None,
            timeout_secs: None,
        }
    }

    /// The request for a page of the log, at the time of the call.
    pub fn get_logs_request(
        station: &RelayStation,
        page: Option<usize>,
        page_size: Option<usize>,
        filters: Option<&Json>,
    ) -> (r: HttpRequest)
        ensures
            exists|now: i64|
                r.deep_view() == #[trigger] Self::spec_logs_request(
                    station.deep_view(),
                    page,
                    page_size,
                    filters.deep_view(),
                    now,
                ),
    {
        let now = crate::platform::unix_now();
        Self::get_logs_request_at(station, page, page_size, filters, now)
    }

    /// The page that a log document holds: the items of `data.items`, and
    /// `data.total` as the total (0 where it is missing).
    pub open spec fn spec_logs(page: Option<usize>, page_size: Option<usize>, doc: JsonV) -> Result<
        crate::station::LogPaginationResponseV,
        RelayErrorV,
    > {
        match doc.member("data"@).as_object() {
            None => Err(spec_invalid_format()),
            Some(data) => Ok(
                crate::station::LogPaginationResponseV {
                    items: spec_log_entries(spec_array_member(data, "items"@)),
                    page: spec_page_or_first(page),
                    page_size: spec_size_or_ten(page_size),
                    total: spec_i64_or(spec_field_i64(data, "total"@), 0),
                },
            ),
        }
    }

    pub fn logs_from_json(page: Option<usize>, page_size: Option<usize>, doc: &Json) -> (r: Result<
        crate::station::LogPaginationResponse,
        RelayError,
    >)
        ensures
            result_view(r) == Self::spec_logs(page, page_size, doc@),
    {
        let data = match member_object(doc, "data") {
            Some(d) => d,
            None => {
                return Err(invalid_format());
            },
        };
        let empty: Vec<Json> = Vec::new();
        let items = array_member(data, "items", &empty);
        Ok(
            crate::station::LogPaginationResponse {
                items: log_entries(items),
                page: page_or_first(page),
                page_size: size_or_ten(page_size),
                total: i64_or(field_i64(data, "total"), 0),
            },
        )
    }

    /// Reads the reply to `get_logs_request`.
    pub fn get_logs(page: Option<usize>, page_size: Option<usize>, reply: &HttpReply) -> (r: Result<
        crate::station::LogPaginationResponse,
        RelayError,
    >)
        ensures
            result_view(r) == (match reply.deep_view().parsed_document("Failed to get logs: "@) {
                Ok(doc) => Self::spec_logs(page, page_size, doc),
                Err(e) => Err(e),
            }),
    {
        match reply.document("Failed to get logs: ") {
            Ok(doc) => Self::logs_from_json(page, page_size, &doc),
            Err(e) => Err(e),
        }
    }
}

} // verus!

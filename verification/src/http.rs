//! Requests to a provider's management API and the replies to them, as plain
//! values: the library says what to send and reads what came back, and leaves
//! the sending to its caller.
use crate::json::{parse, spec_parse, Json, JsonV};
use vstd::prelude::*;

verus! {

/// What went wrong, by kind, each with the text of its cause.
#[derive(Debug, Clone, PartialEq, Eq)]
pub enum RelayError {
    /// A station or a token that is not there.
    NotFound(String),
    /// An identifier that is already taken.
    Conflict(String),
    /// A request that is malformed.
    Validation(String),
    /// A provider that answered outside 2xx, or in a shape that cannot be
    /// read, or not at all.
    Upstream(String),
    /// An operation that the station's configuration has no backend for.
    Unsupported(String),
    /// A failure of the store.
    Storage(String),
}

pub enum RelayErrorV {
    NotFound(Seq<char>),
    Conflict(Seq<char>),
    Validation(Seq<char>),
    Upstream(Seq<char>),
    Unsupported(Seq<char>),
    Storage(Seq<char>),
}

impl DeepView for RelayError {
    type V = RelayErrorV;

    open spec fn deep_view(&self) -> RelayErrorV {
        match self {
            RelayError::NotFound(m) => RelayErrorV::NotFound(m@),
            RelayError::Conflict(m) => RelayErrorV::Conflict(m@),
            RelayError::Validation(m) => RelayErrorV::Validation(m@),
            RelayError::Upstream(m) => RelayErrorV::Upstream(m@),
            RelayError::Unsupported(m) => RelayErrorV::Unsupported(m@),
            RelayError::Storage(m) => RelayErrorV::Storage(m@),
        }
    }
}

impl RelayErrorV {
    pub open spec fn message(self) -> Seq<char> {
        match self {
            RelayErrorV::NotFound(m) => m,
            RelayErrorV::Conflict(m) => m,
            RelayErrorV::Validation(m) => m,
            RelayErrorV::Upstream(m) => m,
            RelayErrorV::Unsupported(m) => m,
            RelayErrorV::Storage(m) => m,
        }
    }
}

impl RelayError {
    /// The text of the cause.
    pub fn message(&self) -> (r: String)
        ensures
            r@ == self.deep_view().message(),
    {
        match self {
            RelayError::NotFound(m) => m.clone(),
            RelayError::Conflict(m) => m.clone(),
            RelayError::Validation(m) => m.clone(),
            RelayError::Upstream(m) => m.clone(),
            RelayError::Unsupported(m) => m.clone(),
            RelayError::Storage(m) => m.clone(),
        }
    }
}

/// The value of a result whose two sides have values.
pub open spec fn result_view<T: DeepView, E: DeepView>(r: Result<T, E>) -> Result<T::V, E::V> {
    match r {
        Ok(t) => Ok(t.deep_view()),
        Err(e) => Err(e.deep_view()),
    }
}

#[derive(Debug, Clone, Copy, PartialEq, Eq, Structural)]
pub enum HttpMethod {
    Get,
    Post,
    Put,
    Delete,
}

/// A request to send.
#[derive(Debug, PartialEq, Eq)]
pub struct HttpRequest {
    pub method: HttpMethod,
    pub url: String,
    /// Header names and values, in the order in which they are set.
    pub headers: Vec<(String, String)>,
    /// The JSON document to send as the body, if any.
    pub body: Option<Json>,
    /// Seconds after which the caller gives the request up, if bounded.
    pub timeout_secs: Option<u64>,
}

pub struct HttpRequestV {
    pub method: HttpMethod,
    pub url: Seq<char>,
    pub headers: Seq<(Seq<char>, Seq<char>)>,
    pub body: Option<JsonV>,
    pub timeout_secs: Option<u64>,
}

impl DeepView for HttpRequest {
    type V = HttpRequestV;

    open spec fn deep_view(&self) -> HttpRequestV {
        HttpRequestV {
            method: self.method,
            url: self.url@,
            headers: self.headers.deep_view(),
            body: self.body.deep_view(),
            timeout_secs: self.timeout_secs,
        }
    }
}

/// What came back for a request.
#[derive(Debug, Clone, PartialEq, Eq)]
pub enum HttpReply {
    /// The provider answered.
    Response {
        status: u16,
        /// The status as a text, such as `404 Not Found`.
        status_text: String,
        body: String,
        /// Milliseconds from sending to the answer.
        elapsed_ms: u64,
    },
    /// No answer came: the transport's description of why.
    Failed { error: String },
}

pub enum HttpReplyV {
    Response { status: u16, status_text: Seq<char>, body: Seq<char>, elapsed_ms: u64 },
    Failed { error: Seq<char> },
}

impl DeepView for HttpReply {
    type V = HttpReplyV;

    open spec fn deep_view(&self) -> HttpReplyV {
        match self {
            HttpReply::Response { status, status_text, body, elapsed_ms } => HttpReplyV::Response {
                status: *status,
                status_text: status_text@,
                body: body@,
                elapsed_ms: *elapsed_ms,
            },
            HttpReply::Failed { error } => HttpReplyV::Failed { error: error@ },
        }
    }
}

/// A status in the 2xx range.
pub open spec fn spec_is_success(status: u16) -> bool {
    200 <= status < 300
}

pub fn is_success(status: u16) -> (r: bool)
    ensures
        r == spec_is_success(status),
{
    200 <= status && status < 300
}

impl HttpReplyV {
    /// The document that a reply carries, given what its body reads as: the
    /// body of a 2xx answer where it is a JSON document. A missing answer
    /// fails with the transport's text, another status with `prefix` and the
    /// status text, an unreadable body with a fixed text.
    pub open spec fn document(self, prefix: Seq<char>, parsed: Option<JsonV>) -> Result<
        JsonV,
        RelayErrorV,
    > {
        match self {
            HttpReplyV::Failed { error } => Err(RelayErrorV::Upstream(error)),
            HttpReplyV::Response { status, status_text, body, elapsed_ms } => {
                if !spec_is_success(status) {
                    Err(RelayErrorV::Upstream(prefix + status_text))
                } else {
                    match parsed {
                        Some(doc) => Ok(doc),
                        None => Err(RelayErrorV::Upstream("error decoding response body"@)),
                    }
                }
            },
        }
    }

    /// What the body of an answer reads as; `None` where no answer came.
    pub open spec fn parsed_body(self) -> Option<JsonV> {
        match self {
            HttpReplyV::Failed { error } => None,
            HttpReplyV::Response { status, status_text, body, elapsed_ms } => spec_parse(body),
        }
    }

    /// The document of a reply whose body is read by `spec_parse`.
    pub open spec fn parsed_document(self, prefix: Seq<char>) -> Result<JsonV, RelayErrorV> {
        self.document(prefix, self.parsed_body())
    }

    /// What a reply says of an operation that needs no document: success for
    /// a 2xx answer, else the failure that `document` gives.
    pub open spec fn outcome(self, prefix: Seq<char>) -> Result<(), RelayErrorV> {
        match self {
            HttpReplyV::Failed { error } => Err(RelayErrorV::Upstream(error)),
            HttpReplyV::Response { status, status_text, body, elapsed_ms } => {
                if !spec_is_success(status) {
                    Err(RelayErrorV::Upstream(prefix + status_text))
                } else {
                    Ok(())
                }
            },
        }
    }
}

/// The text `a` followed by the text `b`.
pub fn concat(a: &str, b: &str) -> (r: String)
    ensures
        r@ == a@ + b@,
{
    let mut s = String::from_str(a);
    s.append(b);
    s
}

impl HttpReply {
    /// The document of a reply, `parsed` being what its body reads as.
    pub fn document_given(&self, prefix: &str, parsed: Option<Json>) -> (r: Result<Json, RelayError>)
        ensures
            result_view(r) == self.deep_view().document(prefix@, parsed.deep_view()),
    {
        match self {
            HttpReply::Failed { error } => Err(RelayError::Upstream(error.clone())),
            HttpReply::Response { status, status_text, body, elapsed_ms } => {
                if !is_success(*status) {
                    Err(RelayError::Upstream(concat(prefix, status_text.as_str())))
                } else {
                    match parsed {
                        Some(doc) => Ok(doc),
                        None => Err(
                            RelayError::Upstream(String::from_str("error decoding response body")),
                        ),
                    }
                }
            },
        }
    }

    /// The document of a reply: its body, read as JSON.
    pub fn document(&self, prefix: &str) -> (r: Result<Json, RelayError>)
        ensures
            result_view(r) == self.deep_view().parsed_document(prefix@),
    {
        let parsed = match self {
            HttpReply::Failed { error } => None,
            HttpReply::Response { status, status_text, body, elapsed_ms } => parse(body.as_str()),
        };
        self.document_given(prefix, parsed)
    }

    /// Whether the reply is a 2xx answer, and if not, why.
    pub fn outcome(&self, prefix: &str) -> (r: Result<(), RelayError>)
        ensures
            result_view(r) == self.deep_view().outcome(prefix@),
    {
        match self {
            HttpReply::Failed { error } => Err(RelayError::Upstream(error.clone())),
            HttpReply::Response { status, status_text, body, elapsed_ms } => {
                if !is_success(*status) {
                    Err(RelayError::Upstream(concat(prefix, status_text.as_str())))
                } else {
                    Ok(())
                }
            },
        }
    }
}

/// The header that names the tenant of a call.
pub open spec fn spec_tenant_header(tenant: Seq<char>) -> (Seq<char>, Seq<char>) {
    ("New-API-User"@, tenant)
}

/// The header that carries the management credential.
pub open spec fn spec_auth_header(token: Seq<char>) -> (Seq<char>, Seq<char>) {
    ("Authorization"@, "Bearer "@ + token)
}

/// The header that announces a JSON body.
pub open spec fn spec_json_header() -> (Seq<char>, Seq<char>) {
    ("Content-Type"@, "application/json"@)
}

pub fn tenant_header(tenant: &str) -> (r: (String, String))
    ensures
        r.deep_view() == spec_tenant_header(tenant@),
{
    (String::from_str("New-API-User"), String::from_str(tenant))
}

pub fn auth_header(token: &str) -> (r: (String, String))
    ensures
        r.deep_view() == spec_auth_header(token@),
{
    (String::from_str("Authorization"), concat("Bearer ", token))
}

pub fn json_header() -> (r: (String, String))
    ensures
        r.deep_view() == spec_json_header(),
{
    (String::from_str("Content-Type"), String::from_str("application/json"))
}

} // verus!

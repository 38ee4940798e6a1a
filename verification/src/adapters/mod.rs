//! The provider adapters: one type per provider family, behind one
//! capability set.
//!
//! An adapter does not send anything itself. `begin` says what a call needs:
//! a request to send, or nothing more. `finish` reads the reply.
pub mod custom;
pub mod newapi;
pub mod yourapi;

use crate::adapters::custom::CustomAdapter;
use crate::adapters::newapi::{
    page_or_first, size_or_ten, spec_changed_token, spec_page_or_first, spec_size_or_ten,
    NewApiAdapter,
};
use crate::adapters::yourapi::YourApiAdapter;
use crate::http::{
    result_view, HttpReply, HttpReplyV, HttpRequest, HttpRequestV, RelayError, RelayErrorV,
};
use crate::json::{Json, JsonV};
use crate::station::{
    ConnectionTestResult, ConnectionTestResultV, CreateTokenRequest, CreateTokenRequestV,
    LogPaginationResponse, LogPaginationResponseV, RelayStation, RelayStationAdapter,
    RelayStationToken, RelayStationTokenV, RelayStationV, StationInfo, StationInfoV,
    TokenPaginationResponse, TokenPaginationResponseV, UpdateTokenRequest, UpdateTokenRequestV,
    UserInfo, UserInfoV,
};
use crate::text::spec_parse_i64;
use vstd::prelude::*;

verus! {

/// One call of the capability set, with its arguments.
#[derive(Debug, PartialEq, Eq)]
pub enum AdapterCall {
    GetStationInfo,
    GetUserInfo { user_id: String },
    GetLogs { page: Option<usize>, page_size: Option<usize>, filters: Option<Json> },
    TestConnection,
    ListTokens { page: Option<usize>, size: Option<usize> },
    CreateToken { request: CreateTokenRequest },
    UpdateToken { token_id: String, request: UpdateTokenRequest },
    DeleteToken { token_id: String },
    ToggleToken { token_id: String, enabled: bool },
    GetUserGroups,
}

pub enum AdapterCallV {
    GetStationInfo,
    GetUserInfo { user_id: Seq<char> },
    GetLogs { page: Option<usize>, page_size: Option<usize>, filters: Option<JsonV> },
    TestConnection,
    ListTokens { page: Option<usize>, size: Option<usize> },
    CreateToken { request: CreateTokenRequestV },
    UpdateToken { token_id: Seq<char>, request: UpdateTokenRequestV },
    DeleteToken { token_id: Seq<char> },
    ToggleToken { token_id: Seq<char>, enabled: bool },
    GetUserGroups,
}

impl DeepView for AdapterCall {
    type V = AdapterCallV;

    open spec fn deep_view(&self) -> AdapterCallV {
        match self {
            AdapterCall::GetStationInfo => AdapterCallV::GetStationInfo,
            AdapterCall::GetUserInfo { user_id } => AdapterCallV::GetUserInfo { user_id: user_id@ },
            AdapterCall::GetLogs { page, page_size, filters } => AdapterCallV::GetLogs {
                page: *page,
                page_size: *page_size,
                filters: filters.deep_view(),
            },
            AdapterCall::TestConnection => AdapterCallV::TestConnection,
            AdapterCall::ListTokens { page, size } => AdapterCallV::ListTokens {
                page: *page,
                size: *size,
            },
            AdapterCall::CreateToken { request } => AdapterCallV::CreateToken {
                request: request.deep_view(),
            },
            AdapterCall::UpdateToken { token_id, request } => AdapterCallV::UpdateToken {
                token_id: token_id@,
                request: request.deep_view(),
            },
            AdapterCall::DeleteToken { token_id } => AdapterCallV::DeleteToken {
                token_id: token_id@,
            },
            AdapterCall::ToggleToken { token_id, enabled } => AdapterCallV::ToggleToken {
                token_id: token_id@,
                enabled: *enabled,
            },
            AdapterCall::GetUserGroups => AdapterCallV::GetUserGroups,
        }
    }
}

/// What a call gives, by kind of call.
#[derive(Debug, PartialEq, Eq)]
pub enum AdapterOutput {
    StationInfo(StationInfo),
    UserInfo(UserInfo),
    Logs(LogPaginationResponse),
    Connection(ConnectionTestResult),
    Tokens(TokenPaginationResponse),
    Token(RelayStationToken),
    Deleted,
    Groups(Json),
}

pub enum AdapterOutputV {
    StationInfo(StationInfoV),
    UserInfo(UserInfoV),
    Logs(LogPaginationResponseV),
    Connection(ConnectionTestResultV),
    Tokens(TokenPaginationResponseV),
    Token(RelayStationTokenV),
    Deleted,
    Groups(JsonV),
}

impl DeepView for AdapterOutput {
    type V = AdapterOutputV;

    open spec fn deep_view(&self) -> AdapterOutputV {
        match self {
            AdapterOutput::StationInfo(v) => AdapterOutputV::StationInfo(v.deep_view()),
            AdapterOutput::UserInfo(v) => AdapterOutputV::UserInfo(v.deep_view()),
            AdapterOutput::Logs(v) => AdapterOutputV::Logs(v.deep_view()),
            AdapterOutput::Connection(v) => AdapterOutputV::Connection(v.deep_view()),
            AdapterOutput::Tokens(v) => AdapterOutputV::Tokens(v.deep_view()),
            AdapterOutput::Token(v) => AdapterOutputV::Token(v.deep_view()),
            AdapterOutput::Deleted => AdapterOutputV::Deleted,
            AdapterOutput::Groups(v) => AdapterOutputV::Groups(v@),
        }
    }
}

/// What a call needs next.
#[derive(Debug, PartialEq, Eq)]
pub enum AdapterStep {
    /// Send this request and hand the reply to `finish`.
    Send(HttpRequest),
    /// Nothing is to be sent: this is the call's result.
    Done(Result<AdapterOutput, RelayError>),
}

pub enum AdapterStepV {
    Send(HttpRequestV),
    Done(Result<AdapterOutputV, RelayErrorV>),
}

impl DeepView for AdapterStep {
    type V = AdapterStepV;

    open spec fn deep_view(&self) -> AdapterStepV {
        match self {
            AdapterStep::Send(r) => AdapterStepV::Send(r.deep_view()),
            AdapterStep::Done(r) => AdapterStepV::Done(result_view(*r)),
        }
    }
}

/// What went wrong, or what `wrap` makes of what went right.
pub open spec fn spec_wrap<T>(r: Result<T, RelayErrorV>, wrap: spec_fn(T) -> AdapterOutputV) -> Result<
    AdapterOutputV,
    RelayErrorV,
> {
    match r {
        Ok(t) => Ok(wrap(t)),
        Err(e) => Err(e),
    }
}

/// What `read` makes of the document of a reply.
pub open spec fn spec_read<T>(
    reply: HttpReplyV,
    prefix: Seq<char>,
    read: spec_fn(JsonV) -> Result<T, RelayErrorV>,
) -> Result<T, RelayErrorV> {
    match reply.parsed_document(prefix) {
        Ok(doc) => read(doc),
        Err(e) => Err(e),
    }
}

/// The capability set that every adapter offers, for a station and at a time
/// `now` in seconds since the epoch.
pub trait StationAdapter {
    spec fn spec_begin(&self, station: RelayStationV, call: AdapterCallV, now: i64) -> AdapterStepV;

    spec fn spec_finish(
        &self,
        station: RelayStationV,
        call: AdapterCallV,
        reply: HttpReplyV,
        now: i64,
    ) -> Result<AdapterOutputV, RelayErrorV>;

    /// What `call` needs: a request to send, or its result at once.
    fn begin(&self, station: &RelayStation, call: &AdapterCall, now: i64) -> (r: AdapterStep)
        ensures
            r.deep_view() == self.spec_begin(station.deep_view(), call.deep_view(), now),
    ;

    /// The result of `call`, given the reply to the request of `begin`.
    fn finish(&self, station: &RelayStation, call: &AdapterCall, reply: &HttpReply, now: i64) -> (r:
        Result<AdapterOutput, RelayError>)
        ensures
            result_view(r) == self.spec_finish(
                station.deep_view(),
                call.deep_view(),
                reply.deep_view(),
                now,
            ),
    ;
}

fn wrap_token(r: Result<RelayStationToken, RelayError>) -> (out: Result<AdapterOutput, RelayError>)
    ensures
        result_view(out) == spec_wrap(result_view(r), |t: RelayStationTokenV| AdapterOutputV::Token(t)),
{
    match r {
        Ok(t) => Ok(AdapterOutput::Token(t)),
        Err(e) => Err(e),
    }
}

fn wrap_tokens(r: Result<TokenPaginationResponse, RelayError>) -> (out: Result<
    AdapterOutput,
    RelayError,
>)
    ensures
        result_view(out) == spec_wrap(
            result_view(r),
            |t: TokenPaginationResponseV| AdapterOutputV::Tokens(t),
        ),
{
    match r {
        Ok(t) => Ok(AdapterOutput::Tokens(t)),
        Err(e) => Err(e),
    }
}

impl StationAdapter for NewApiAdapter {
    open spec fn spec_begin(&self, station: RelayStationV, call: AdapterCallV, now: i64) -> AdapterStepV {
        match call {
            AdapterCallV::GetStationInfo => AdapterStepV::Send(
                NewApiAdapter::spec_status_request(station, None),
            ),
            AdapterCallV::GetUserInfo { user_id } => AdapterStepV::Send(
                NewApiAdapter::spec_user_info_request(station, user_id),
            ),
            AdapterCallV::GetLogs { page, page_size, filters } => AdapterStepV::Send(
                NewApiAdapter::spec_logs_request(station, page, page_size, filters, now),
            ),
            AdapterCallV::TestConnection => AdapterStepV::Send(
                NewApiAdapter::spec_status_request(station, Some(10u64)),
            ),
            AdapterCallV::ListTokens { page, size } => AdapterStepV::Send(
                NewApiAdapter::spec_list_tokens_request(
                    station,
                    spec_page_or_first(page),
                    spec_size_or_ten(size),
                ),
            ),
            AdapterCallV::CreateToken { request } => AdapterStepV::Send(
                NewApiAdapter::spec_create_token_request(station, request),
            ),
            AdapterCallV::UpdateToken { token_id, request } => AdapterStepV::Send(
                NewApiAdapter::spec_update_token_request(station, request),
            ),
            AdapterCallV::DeleteToken { token_id } => AdapterStepV::Send(
                NewApiAdapter::spec_delete_token_request(station, token_id),
            ),
            AdapterCallV::ToggleToken { token_id, enabled } => match spec_parse_i64(token_id) {
                Some(id) => AdapterStepV::Send(
                    NewApiAdapter::spec_toggle_token_request(station, id, enabled),
                ),
                None => AdapterStepV::Done(
                    Err(RelayErrorV::Validation("Invalid token ID: "@ + token_id)),
                ),
            },
            AdapterCallV::GetUserGroups => AdapterStepV::Send(
                NewApiAdapter::spec_user_groups_request(station),
            ),
        }
    }

    open spec fn spec_finish(
        &self,
        station: RelayStationV,
        call: AdapterCallV,
        reply: HttpReplyV,
        now: i64,
    ) -> Result<AdapterOutputV, RelayErrorV> {
        match call {
            AdapterCallV::GetStationInfo => spec_wrap(
                spec_read(
                    reply,
                    "Failed to get station info: "@,
                    |doc: JsonV| NewApiAdapter::spec_station_info(station, doc),
                ),
                |v: StationInfoV| AdapterOutputV::StationInfo(v),
            ),
            AdapterCallV::GetUserInfo { user_id } => spec_wrap(
                spec_read(
                    reply,
                    "Failed to get user info: "@,
                    |doc: JsonV| NewApiAdapter::spec_user_info(user_id, doc),
                ),
                |v: UserInfoV| AdapterOutputV::UserInfo(v),
            ),
            AdapterCallV::GetLogs { page, page_size, filters } => spec_wrap(
                spec_read(
                    reply,
                    "Failed to get logs: "@,
                    |doc: JsonV| NewApiAdapter::spec_logs(page, page_size, doc),
                ),
                |v: LogPaginationResponseV| AdapterOutputV::Logs(v),
            ),
            AdapterCallV::TestConnection => Ok(
                AdapterOutputV::Connection(NewApiAdapter::spec_test_connection(reply)),
            ),
            AdapterCallV::ListTokens { page, size } => spec_wrap(
                spec_read(
                    reply,
                    "Failed to list tokens: "@,
                    |doc: JsonV|
                        NewApiAdapter::spec_list_tokens(
                            station,
                            spec_page_or_first(page),
                            spec_size_or_ten(size),
                            doc,
                        ),
                ),
                |v: TokenPaginationResponseV| AdapterOutputV::Tokens(v),
            ),
            AdapterCallV::CreateToken { request } => spec_wrap(
                NewApiAdapter::spec_create_token_reply(station, request, reply, now),
                |v: RelayStationTokenV| AdapterOutputV::Token(v),
            ),
            AdapterCallV::UpdateToken { token_id, request } => spec_wrap(
                spec_read(
                    reply,
                    "Failed to update token: "@,
                    |doc: JsonV| spec_changed_token(station, token_id, false, doc),
                ),
                |v: RelayStationTokenV| AdapterOutputV::Token(v),
            ),
            AdapterCallV::DeleteToken { token_id } => spec_wrap(
                reply.outcome("Failed to delete token: "@),
                |v: ()| AdapterOutputV::Deleted,
            ),
            AdapterCallV::ToggleToken { token_id, enabled } => spec_wrap(
                spec_read(
                    reply,
                    "Failed to toggle token: "@,
                    |doc: JsonV| spec_changed_token(station, token_id, enabled, doc),
                ),
                |v: RelayStationTokenV| AdapterOutputV::Token(v),
            ),
            AdapterCallV::GetUserGroups => spec_wrap(
                reply.parsed_document("API request failed with status: "@),
                |v: JsonV| AdapterOutputV::Groups(v),
            ),
        }
    }

    fn begin(&self, station: &RelayStation, call: &AdapterCall, now: i64) -> (r: AdapterStep) {
        match call {
            AdapterCall::GetStationInfo => AdapterStep::Send(
                NewApiAdapter::get_station_info_request(station),
            ),
            AdapterCall::GetUserInfo { user_id } => AdapterStep::Send(
                NewApiAdapter::get_user_info_request(station, user_id.as_str()),
            ),
            AdapterCall::GetLogs { page, page_size, filters } => AdapterStep::Send(
                NewApiAdapter::get_logs_request_at(station, *page, *page_size, filters.as_ref(), now),
            ),
            AdapterCall::TestConnection => AdapterStep::Send(
                NewApiAdapter::test_connection_request(station),
            ),
            AdapterCall::ListTokens { page, size } => AdapterStep::Send(
                NewApiAdapter::list_tokens_request(station, page_or_first(*page), size_or_ten(*size)),
            ),
            AdapterCall::CreateToken { request } => AdapterStep::Send(
                NewApiAdapter::create_token_request(station, request),
            ),
            AdapterCall::UpdateToken { token_id, request } => AdapterStep::Send(
                NewApiAdapter::update_token_request(station, request),
            ),
            AdapterCall::DeleteToken { token_id } => AdapterStep::Send(
                NewApiAdapter::delete_token_request(station, token_id.as_str()),
            ),
            AdapterCall::ToggleToken { token_id, enabled } => {
                match NewApiAdapter::toggle_token_request(station, token_id.as_str(), *enabled) {
                    Ok(request) => AdapterStep::Send(request),
                    Err(e) => AdapterStep::Done(Err(e)),
                }
            },
            AdapterCall::GetUserGroups => AdapterStep::Send(
                NewApiAdapter::get_user_groups_request(station),
            ),
        }
    }

    fn finish(&self, station: &RelayStation, call: &AdapterCall, reply: &HttpReply, now: i64) -> (r:
        Result<AdapterOutput, RelayError>) {
        match call {
            AdapterCall::GetStationInfo => match NewApiAdapter::get_station_info(station, reply) {
                Ok(v) => Ok(AdapterOutput::StationInfo(v)),
                Err(e) => Err(e),
            },
            AdapterCall::GetUserInfo { user_id } => match NewApiAdapter::get_user_info(
                user_id.as_str(),
                reply,
            ) {
                Ok(v) => Ok(AdapterOutput::UserInfo(v)),
                Err(e) => Err(e),
            },
            AdapterCall::GetLogs { page, page_size, filters } => match NewApiAdapter::get_logs(
                *page,
                *page_size,
                reply,
            ) {
                Ok(v) => Ok(AdapterOutput::Logs(v)),
                Err(e) => Err(e),
            },
            AdapterCall::TestConnection => Ok(
                AdapterOutput::Connection(NewApiAdapter::test_connection(reply)),
            ),
            AdapterCall::ListTokens { page, size } => wrap_tokens(
                NewApiAdapter::list_tokens(station, page_or_first(*page), size_or_ten(*size), reply),
            ),
            AdapterCall::CreateToken { request } => wrap_token(
                NewApiAdapter::create_token_at(station, request, reply, now),
            ),
            AdapterCall::UpdateToken { token_id, request } => wrap_token(
                NewApiAdapter::update_token(station, token_id.as_str(), reply),
            ),
            AdapterCall::DeleteToken { token_id } => match NewApiAdapter::delete_token(reply) {
                Ok(v) => Ok(AdapterOutput::Deleted),
                Err(e) => Err(e),
            },
            AdapterCall::ToggleToken { token_id, enabled } => wrap_token(
                NewApiAdapter::toggle_token(station, token_id.as_str(), *enabled, reply),
            ),
            AdapterCall::GetUserGroups => match NewApiAdapter::get_user_groups(reply) {
                Ok(v) => Ok(AdapterOutput::Groups(v)),
                Err(e) => Err(e),
            },
        }
    }
}

impl StationAdapter for YourApiAdapter {
    /// As the standard adapter, but for the token list.
    open spec fn spec_begin(&self, station: RelayStationV, call: AdapterCallV, now: i64) -> AdapterStepV {
        match call {
            AdapterCallV::ListTokens { page, size } => match YourApiAdapter::spec_list_tokens_request(
                station,
                spec_page_or_first(page),
                spec_size_or_ten(size),
            ) {
                Ok(request) => AdapterStepV::Send(request),
                Err(e) => AdapterStepV::Done(Err(e)),
            },
            _ => self.newapi.spec_begin(station, call, now),
        }
    }

    /// As the standard adapter, but for the token list.
    open spec fn spec_finish(
        &self,
        station: RelayStationV,
        call: AdapterCallV,
        reply: HttpReplyV,
        now: i64,
    ) -> Result<AdapterOutputV, RelayErrorV> {
        match call {
            AdapterCallV::ListTokens { page, size } => spec_wrap(
                spec_read(
                    reply,
                    "Failed to list tokens: "@,
                    |doc: JsonV|
                        YourApiAdapter::spec_list_tokens(
                            station,
                            spec_page_or_first(page),
                            spec_size_or_ten(size),
                            doc,
                        ),
                ),
                |v: TokenPaginationResponseV| AdapterOutputV::Tokens(v),
            ),
            _ => self.newapi.spec_finish(station, call, reply, now),
        }
    }

    fn begin(&self, station: &RelayStation, call: &AdapterCall, now: i64) -> (r: AdapterStep) {
        match call {
            AdapterCall::ListTokens { page, size } => match YourApiAdapter::list_tokens_request(
                station,
                page_or_first(*page),
                size_or_ten(*size),
            ) {
                Ok(request) => AdapterStep::Send(request),
                Err(e) => AdapterStep::Done(Err(e)),
            },
            _ => self.newapi.begin(station, call, now),
        }
    }

    fn finish(&self, station: &RelayStation, call: &AdapterCall, reply: &HttpReply, now: i64) -> (r:
        Result<AdapterOutput, RelayError>) {
        match call {
            AdapterCall::ListTokens { page, size } => wrap_tokens(
                YourApiAdapter::list_tokens(station, page_or_first(*page), size_or_ten(*size), reply),
            ),
            _ => self.newapi.finish(station, call, reply, now),
        }
    }
}

impl CustomAdapter {
    /// What a call gives without a backend: the station's own description,
    /// a connection test that has nothing to test, and for everything else
    /// the failure that says what is not available.
    pub open spec fn spec_answer(station: RelayStationV, call: AdapterCallV) -> Result<
        AdapterOutputV,
        RelayErrorV,
    > {
        match call {
            AdapterCallV::GetStationInfo => Ok(
                AdapterOutputV::StationInfo(CustomAdapter::spec_station_info(station)),
            ),
            AdapterCallV::TestConnection => Ok(
                AdapterOutputV::Connection(CustomAdapter::spec_test_connection()),
            ),
            AdapterCallV::GetUserInfo { user_id } => Err(CustomAdapter::spec_unavailable("User info"@)),
            AdapterCallV::GetLogs { page, page_size, filters } => Err(
                CustomAdapter::spec_unavailable("Logs"@),
            ),
            AdapterCallV::GetUserGroups => Err(CustomAdapter::spec_unavailable("User groups"@)),
            _ => Err(CustomAdapter::spec_unavailable("Token management"@)),
        }
    }

    pub fn answer(station: &RelayStation, call: &AdapterCall) -> (r: Result<AdapterOutput, RelayError>)
        ensures
            result_view(r) == Self::spec_answer(station.deep_view(), call.deep_view()),
    {
        match call {
            AdapterCall::GetStationInfo => Ok(
                AdapterOutput::StationInfo(CustomAdapter::get_station_info(station)),
            ),
            AdapterCall::TestConnection => Ok(
                AdapterOutput::Connection(CustomAdapter::test_connection()),
            ),
            AdapterCall::GetUserInfo { user_id } => Err(CustomAdapter::unavailable("User info")),
            AdapterCall::GetLogs { page, page_size, filters } => Err(
                CustomAdapter::unavailable("Logs"),
            ),
            AdapterCall::GetUserGroups => Err(CustomAdapter::unavailable("User groups")),
            _ => Err(CustomAdapter::unavailable("Token management")),
        }
    }
}

impl StationAdapter for CustomAdapter {
    open spec fn spec_begin(&self, station: RelayStationV, call: AdapterCallV, now: i64) -> AdapterStepV {
        AdapterStepV::Done(CustomAdapter::spec_answer(station, call))
    }

    open spec fn spec_finish(
        &self,
        station: RelayStationV,
        call: AdapterCallV,
        reply: HttpReplyV,
        now: i64,
    ) -> Result<AdapterOutputV, RelayErrorV> {
        CustomAdapter::spec_answer(station, call)
    }

    fn begin(&self, station: &RelayStation, call: &AdapterCall, now: i64) -> (r: AdapterStep) {
        AdapterStep::Done(CustomAdapter::answer(station, call))
    }

    fn finish(&self, station: &RelayStation, call: &AdapterCall, reply: &HttpReply, now: i64) -> (r:
        Result<AdapterOutput, RelayError>) {
        CustomAdapter::answer(station, call)
    }
}

/// The adapter of a station, by provider family.
#[derive(Debug, Clone, Copy, PartialEq, Eq, Structural)]
pub enum Adapter {
    Standard(NewApiAdapter),
    AltPagination(YourApiAdapter),
    Minimal(CustomAdapter),
}

/// The adapter that serves an adapter kind. `Oneapi`, the older name of a
/// compatible family, is served by the standard adapter.
pub open spec fn spec_create_adapter(kind: RelayStationAdapter) -> Adapter {
    match kind {
        RelayStationAdapter::Newapi => Adapter::Standard(NewApiAdapter),
        RelayStationAdapter::Oneapi => Adapter::Standard(NewApiAdapter),
        RelayStationAdapter::Yourapi => Adapter::AltPagination(
            YourApiAdapter { newapi: NewApiAdapter },
        ),
        RelayStationAdapter::Custom => Adapter::Minimal(CustomAdapter),
    }
}

pub fn create_adapter(adapter_type: &RelayStationAdapter) -> (r: Adapter)
    ensures
        r == spec_create_adapter(*adapter_type),
{
    match adapter_type {
        RelayStationAdapter::Newapi => Adapter::Standard(NewApiAdapter),
        RelayStationAdapter::Oneapi => Adapter::Standard(NewApiAdapter),
        RelayStationAdapter::Yourapi => Adapter::AltPagination(YourApiAdapter::new()),
        RelayStationAdapter::Custom => Adapter::Minimal(CustomAdapter),
    }
}

impl StationAdapter for Adapter {
    open spec fn spec_begin(&self, station: RelayStationV, call: AdapterCallV, now: i64) -> AdapterStepV {
        match self {
            Adapter::Standard(a) => a.spec_begin(station, call, now),
            Adapter::AltPagination(a) => a.spec_begin(station, call, now),
            Adapter::Minimal(a) => a.spec_begin(station, call, now),
        }
    }

    open spec fn spec_finish(
        &self,
        station: RelayStationV,
        call: AdapterCallV,
        reply: HttpReplyV,
        now: i64,
    ) -> Result<AdapterOutputV, RelayErrorV> {
        match self {
            Adapter::Standard(a) => a.spec_finish(station, call, reply, now),
            Adapter::AltPagination(a) => a.spec_finish(station, call, reply, now),
            Adapter::Minimal(a) => a.spec_finish(station, call, reply, now),
        }
    }

    fn begin(&self, station: &RelayStation, call: &AdapterCall, now: i64) -> (r: AdapterStep) {
        match self {
            Adapter::Standard(a) => a.begin(station, call, now),
            Adapter::AltPagination(a) => a.begin(station, call, now),
            Adapter::Minimal(a) => a.begin(station, call, now),
        }
    }

    fn finish(&self, station: &RelayStation, call: &AdapterCall, reply: &HttpReply, now: i64) -> (r:
        Result<AdapterOutput, RelayError>) {
        match self {
            Adapter::Standard(a) => a.finish(station, call, reply, now),
            Adapter::AltPagination(a) => a.finish(station, call, reply, now),
            Adapter::Minimal(a) => a.finish(station, call, reply, now),
        }
    }
}

} // verus!

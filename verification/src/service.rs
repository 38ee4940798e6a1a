//! The service layer: what the shell around the library calls.
//!
//! Every call that goes to a provider resolves the station first, picks the
//! adapter of its kind and lets it begin; the caller sends the request with
//! no hold on the store, and hands the reply to `finish_call`. What goes
//! wrong is told as a text that names the operation and keeps the cause.
use crate::adapters::{
    create_adapter, spec_create_adapter, AdapterCall, AdapterCallV, AdapterOutput, AdapterOutputV,
    AdapterStep, AdapterStepV, StationAdapter,
};
use crate::http::{HttpReply, HttpReplyV, HttpRequest, HttpRequestV, RelayError, RelayErrorV};
use crate::json::{lemma_array_view, lemma_object_view, lookup, spec_lookup, Fields, Json, JsonV};
use crate::station::{
    ApiEndpoint, ApiEndpointV, ConfigUsageStatus, CreateRelayStationRequest, RelayStation,
    RelayStationConfig, RelayStationConfigV, RelayStationExport, RelayStationV,
    SaveStationConfigRequest, SaveStationConfigRequestV, StationFields, StationInfo, StationInfoV,
    TokenPaginationResponse, TokenPaginationResponseV,
};
use crate::store::{RelayStationManager, StoreV};
use vstd::prelude::*;

verus! {

/// The text of a failure: what failed, and why.
pub open spec fn spec_failure(what: Seq<char>, cause: RelayErrorV) -> Seq<char> {
    what + ": "@ + cause.message()
}

pub fn failure(what: &str, cause: &RelayError) -> (r: String)
    ensures
        r@ == spec_failure(what@, cause.deep_view()),
{
    let mut m = String::from_str(what);
    m.append(": ");
    m.append(cause.message().as_str());
    m
}

/// The name under which a failed call is told.
pub open spec fn spec_call_failure(call: AdapterCallV) -> Seq<char> {
    match call {
        AdapterCallV::GetStationInfo => "relay.failed_to_get_station_info"@,
        AdapterCallV::GetUserInfo { user_id } => "relay.failed_to_get_user_info"@,
        AdapterCallV::GetLogs { page, page_size, filters } => "relay.failed_to_get_logs"@,
        AdapterCallV::TestConnection => "relay.failed_to_test_connection"@,
        AdapterCallV::ListTokens { page, size } => "relay.failed_to_list_tokens"@,
        AdapterCallV::CreateToken { request } => "relay.failed_to_create_token"@,
        AdapterCallV::UpdateToken { token_id, request } => "relay.failed_to_update_token"@,
        AdapterCallV::DeleteToken { token_id } => "relay.failed_to_delete_token"@,
        AdapterCallV::ToggleToken { token_id, enabled } => "relay.failed_to_toggle_token"@,
        AdapterCallV::GetUserGroups => "relay.failed_to_get_user_groups"@,
    }
}

pub fn call_failure(call: &AdapterCall) -> (r: &'static str)
    ensures
        r@ == spec_call_failure(call.deep_view()),
{
    match call {
        AdapterCall::GetStationInfo => "relay.failed_to_get_station_info",
        AdapterCall::GetUserInfo { user_id } => "relay.failed_to_get_user_info",
        AdapterCall::GetLogs { page, page_size, filters } => "relay.failed_to_get_logs",
        AdapterCall::TestConnection => "relay.failed_to_test_connection",
        AdapterCall::ListTokens { page, size } => "relay.failed_to_list_tokens",
        AdapterCall::CreateToken { request } => "relay.failed_to_create_token",
        AdapterCall::UpdateToken { token_id, request } => "relay.failed_to_update_token",
        AdapterCall::DeleteToken { token_id } => "relay.failed_to_delete_token",
        AdapterCall::ToggleToken { token_id, enabled } => "relay.failed_to_toggle_token",
        AdapterCall::GetUserGroups => "relay.failed_to_get_user_groups",
    }
}

/// The result of a call as it is told: a failure as its text.
pub open spec fn spec_told(call: AdapterCallV, r: Result<AdapterOutputV, RelayErrorV>) -> Result<
    AdapterOutputV,
    Seq<char>,
> {
    match r {
        Ok(v) => Ok(v),
        Err(e) => Err(spec_failure(spec_call_failure(call), e)),
    }
}

/// The value of a result whose failure is a text.
pub open spec fn told_view<T: DeepView>(r: Result<T, String>) -> Result<T::V, Seq<char>> {
    match r {
        Ok(v) => Ok(v.deep_view()),
        Err(m) => Err(m@),
    }
}

fn told(call: &AdapterCall, r: Result<AdapterOutput, RelayError>) -> (out: Result<AdapterOutput, String>)
    ensures
        told_view(out) == spec_told(call.deep_view(), crate::http::result_view(r)),
{
    match r {
        Ok(v) => Ok(v),
        Err(e) => Err(failure(call_failure(call), &e)),
    }
}

/// What a call needs next.
#[derive(Debug, PartialEq, Eq)]
pub enum ServiceStep {
    /// Send `request` and hand the reply, with `station`, to `finish_call`.
    Send { station: RelayStation, request: HttpRequest },
    /// Nothing is to be sent: this is the call's result.
    Done(Result<AdapterOutput, String>),
}

pub enum ServiceStepV {
    Send { station: RelayStationV, request: HttpRequestV },
    Done(Result<AdapterOutputV, Seq<char>>),
}

impl DeepView for ServiceStep {
    type V = ServiceStepV;

    open spec fn deep_view(&self) -> ServiceStepV {
        match self {
            ServiceStep::Send { station, request } => ServiceStepV::Send {
                station: station.deep_view(),
                request: request.deep_view(),
            },
            ServiceStep::Done(r) => ServiceStepV::Done(told_view(*r)),
        }
    }
}

/// The page of tokens of a station that is not there: no tokens.
pub open spec fn spec_no_tokens() -> TokenPaginationResponseV {
    TokenPaginationResponseV { items: Seq::empty(), page: 1, page_size: 10, total: 0 }
}

/// What a call gives where there is no store yet: the token list is
/// empty, every other call fails.
pub open spec fn spec_uninitialized(call: AdapterCallV) -> ServiceStepV {
    match call {
        AdapterCallV::ListTokens { page, size } => ServiceStepV::Done(
            Ok(AdapterOutputV::Tokens(spec_no_tokens())),
        ),
        _ => ServiceStepV::Done(Err("relay.manager_not_initialized"@)),
    }
}

/// How a call begins: the station is resolved, the adapter of its kind
/// begins. A station that is not there fails the call. `store` is `None`
/// where the service has no store yet.
pub open spec fn spec_begin_call(store: Option<StoreV>, station_id: Seq<char>, call: AdapterCallV, now: i64) -> ServiceStepV {
    match store {
        None => spec_uninitialized(call),
        Some(s) => match s.get(station_id) {
            None => ServiceStepV::Done(Err("relay.station_not_found"@)),
            Some(station) => match spec_create_adapter(station.fields.adapter).spec_begin(
                station,
                call,
                now,
            ) {
                AdapterStepV::Send(request) => ServiceStepV::Send { station, request },
                AdapterStepV::Done(r) => ServiceStepV::Done(spec_told(call, r)),
            },
        },
    }
}

/// How a call ends: the adapter of the station's kind reads the reply.
pub open spec fn spec_finish_call(station: RelayStationV, call: AdapterCallV, reply: HttpReplyV, now: i64) -> Result<
    AdapterOutputV,
    Seq<char>,
> {
    spec_told(
        call,
        spec_create_adapter(station.fields.adapter).spec_finish(station, call, reply, now),
    )
}

fn uninitialized(call: &AdapterCall) -> (r: ServiceStep)
    ensures
        r.deep_view() == spec_uninitialized(call.deep_view()),
{
    match call {
        AdapterCall::ListTokens { page, size } => {
            let items: Vec<crate::station::RelayStationToken> = Vec::new();
            assert(items.deep_view() =~= Seq::<crate::station::RelayStationTokenV>::empty());
            ServiceStep::Done(
                Ok(
                    AdapterOutput::Tokens(
                        TokenPaginationResponse { items, page: 1, page_size: 10, total: 0 },
                    ),
                ),
            )
        },
        _ => ServiceStep::Done(Err(String::from_str("relay.manager_not_initialized"))),
    }
}

/// Reads the reply to the request of `begin_call`, at time `now`.
pub fn finish_call_at(station: &RelayStation, call: &AdapterCall, reply: &HttpReply, now: i64) -> (r: Result<
    AdapterOutput,
    String,
>)
    ensures
        told_view(r) == spec_finish_call(station.deep_view(), call.deep_view(), reply.deep_view(), now),
{
    let adapter = create_adapter(&station.adapter);
    told(call, adapter.finish(station, call, reply, now))
}

/// Reads the reply to the request of `begin_call`, at the time of the call.
pub fn finish_call(station: &RelayStation, call: &AdapterCall, reply: &HttpReply) -> (r: Result<
    AdapterOutput,
    String,
>)
    ensures
        exists|now: i64|
            told_view(r) == #[trigger] spec_finish_call(
                station.deep_view(),
                call.deep_view(),
                reply.deep_view(),
                now,
            ),
{
    let now = crate::platform::unix_now();
    finish_call_at(station, call, reply, now)
}

// ---------------------------------------------------------------------------
// Endpoints
// ---------------------------------------------------------------------------

/// A text member that must be there.
pub open spec fn spec_text_member(fields: Fields, key: Seq<char>) -> Option<Seq<char>> {
    match spec_lookup(fields, key) {
        Some(JsonV::Str(s)) => Some(s),
        _ => None,
    }
}

/// The endpoint that a document describes: an object with an `id` within
/// `i32` and four texts.
pub open spec fn spec_endpoint(doc: JsonV) -> Option<ApiEndpointV> {
    match doc {
        JsonV::Object(f) => match (
            spec_lookup(f, "id"@),
            spec_text_member(f, "route"@),
            spec_text_member(f, "url"@),
            spec_text_member(f, "description"@),
            spec_text_member(f, "color"@),
        ) {
            (Some(JsonV::Int(id)), Some(route), Some(url), Some(description), Some(color)) => if i32::MIN
                <= id <= i32::MAX {
                Some(ApiEndpointV { id: id as i32, route, url, description, color })
            } else {
                None
            },
            _ => None,
        },
        _ => None,
    }
}

/// The endpoints that a document lists: an array of endpoints.
pub open spec fn spec_endpoints(doc: JsonV) -> Option<Seq<ApiEndpointV>> {
    match doc {
        JsonV::Array(items) => if forall|i: int|
            0 <= i < items.len() ==> spec_endpoint(#[trigger] items[i]).is_some() {
            Some(Seq::new(items.len(), |i: int| spec_endpoint(items[i]).unwrap()))
        } else {
            None
        },
        _ => None,
    }
}

/// The one endpoint of a station that names none: its own address.
pub open spec fn spec_default_endpoints(station: RelayStationV) -> Seq<ApiEndpointV> {
    seq![
        ApiEndpointV {
            id: 0,
            route: "relay.default_endpoint"@,
            url: station.fields.api_url,
            description: "relay.current_configured_endpoint"@,
            color: "blue"@,
        },
    ]
}

/// The endpoints that a station offers, given what it says about itself:
/// the list `api_info` of its answer, or else the list `api_info` beside
/// the answer, or else its own address. A station that says nothing offers
/// its own address.
pub open spec fn spec_station_endpoints(station: RelayStationV, info: Option<StationInfoV>) -> Seq<
    ApiEndpointV,
> {
    let metadata: Fields = match info {
        Some(i) => match i.metadata {
            Some(m) => m,
            None => Seq::empty(),
        },
        None => Seq::empty(),
    };
    let nested: Option<Seq<ApiEndpointV>> = match spec_lookup(metadata, "response"@) {
        Some(response) => match response.get("api_info"@) {
            Some(list) => spec_endpoints(list),
            None => None,
        },
        None => None,
    };
    let direct: Option<Seq<ApiEndpointV>> = match spec_lookup(metadata, "api_info"@) {
        Some(list) => spec_endpoints(list),
        None => None,
    };
    match nested {
        Some(list) => list,
        None => match direct {
            Some(list) => list,
            None => spec_default_endpoints(station),
        },
    }
}

fn text_member(fields: &Vec<(String, Json)>, key: &str) -> (r: Option<String>)
    ensures
        r.deep_view() == spec_text_member(fields.deep_view(), key@),
{
    match lookup(fields, key) {
        Some(Json::Str(s)) => Some(s.clone()),
        _ => None,
    }
}

pub fn endpoint_from_json(doc: &Json) -> (r: Option<ApiEndpoint>)
    ensures
        r.deep_view() == spec_endpoint(doc@),
{
    let f = match doc {
        Json::Object(f) => {
            proof {
                lemma_object_view(*f);
            }
            f
        },
        _ => {
            return None;
        },
    };
    let id: i64 = match lookup(f, "id") {
        Some(Json::Int(id)) => *id,
        _ => {
            return None;
        },
    };
    match (
        text_member(f, "route"),
        text_member(f, "url"),
        text_member(f, "description"),
        text_member(f, "color"),
    ) {
        (Some(route), Some(url), Some(description), Some(color)) => {
            if -0x8000_0000 <= id && id <= 0x7fff_ffff {
                Some(ApiEndpoint { id: id as i32, route, url, description, color })
            } else {
                None
            }
        },
        _ => None,
    }
}

#[verifier::loop_isolation(false)]
pub fn endpoints_from_json(doc: &Json) -> (r: Option<Vec<ApiEndpoint>>)
    ensures
        r.deep_view() == spec_endpoints(doc@),
{
    match doc {
        Json::Array(items) => {
            proof {
                lemma_array_view(*items);
            }
            let ghost iv = items.deep_view();
            let mut out: Vec<ApiEndpoint> = Vec::new();
            let mut i: usize = 0;
            while i < items.len()
                invariant
                    i <= items@.len(),
                    out@.len() == i,
                    forall|j: int| 0 <= j < i ==> spec_endpoint(#[trigger] iv[j]).is_some(),
                    forall|j: int|
                        0 <= j < i ==> (#[trigger] out@[j]).deep_view() == spec_endpoint(iv[j]).unwrap(),
                decreases items.len() - i,
            {
                match endpoint_from_json(&items[i]) {
                    Some(e) => {
                        out.push(e);
                    },
                    None => {
                        assert(spec_endpoint(iv[i as int]).is_none());
                        return None;
                    },
                }
                i = i + 1;
            }
            Some(out)
        },
        _ => None,
    }
}

/// The endpoints that a station offers, given what it says about itself
/// (`None` where asking it failed).
pub fn load_station_api_endpoints(station: &RelayStation, info: Option<&StationInfo>) -> (r: Vec<
    ApiEndpoint,
>)
    ensures
        r.deep_view() == spec_station_endpoints(station.deep_view(), info.deep_view()),
{
    let empty: Vec<(String, Json)> = Vec::new();
    let metadata: &Vec<(String, Json)> = match info {
        Some(i) => match &i.metadata {
            Some(m) => m,
            None => &empty,
        },
        None => &empty,
    };
    let nested = match lookup(metadata, "response") {
        Some(response) => match response.get("api_info") {
            Some(list) => endpoints_from_json(list),
            None => None,
        },
        None => None,
    };
    match nested {
        Some(list) => {
            return list;
        },
        None => {},
    }
    let direct = match lookup(metadata, "api_info") {
        Some(list) => endpoints_from_json(list),
        None => None,
    };
    match direct {
        Some(list) => {
            return list;
        },
        None => {},
    }
    let mut out: Vec<ApiEndpoint> = Vec::new();
    out.push(
        ApiEndpoint {
            id: 0,
            route: String::from_str("relay.default_endpoint"),
            url: station.api_url.clone(),
            description: String::from_str("relay.current_configured_endpoint"),
            color: String::from_str("blue"),
        },
    );
    out
}

/// The configuration that a request saves for a station at time `now`.
pub open spec fn spec_config_of(request: SaveStationConfigRequestV, station: RelayStationV, now: i64) -> RelayStationConfigV {
    RelayStationConfigV {
        station_id: request.station_id,
        station_name: station.fields.name,
        api_endpoint: request.api_endpoint,
        custom_endpoint: request.custom_endpoint,
        path: request.path,
        model: request.model,
        saved_settings: None,
        created_at: now,
        updated_at: now,
    }
}

pub fn config_of(request: SaveStationConfigRequest, station: &RelayStation, now: i64) -> (r: RelayStationConfig)
    ensures
        r.deep_view() == spec_config_of(request.deep_view(), station.deep_view(), now),
{
    RelayStationConfig {
        station_id: request.station_id,
        station_name: station.name.clone(),
        api_endpoint: request.api_endpoint,
        custom_endpoint: request.custom_endpoint,
        path: request.path,
        model: request.model,
        saved_settings: None,
        created_at: now,
        updated_at: now,
    }
}


/// What the creation of a station from the fields of a request gives, under
/// the id `id` and at time `now`: the store after it, and what is told.
/// Without a store nothing is created. Under an id that is taken nothing is
/// created either and the conflict is told. Else the store has one station
/// more: the fields of the request under `id`, created and updated at `now`.
pub open spec fn spec_add_relay_station(store: Option<StoreV>, fields: StationFields, id: Seq<char>, now: i64) -> (
    Option<StoreV>,
    Result<Seq<char>, Seq<char>>,
) {
    match store {
        None => (None, Err("relay.manager_not_initialized"@)),
        Some(s) => if s.get(id).is_none() {
            (
                Some(s.add(RelayStationV { id, fields, created_at: now, updated_at: now })),
                Ok("relay.station_add_success"@),
            )
        } else {
            (
                Some(s),
                Err(spec_failure("relay.failed_to_add_station"@, crate::store::spec_id_taken(id))),
            )
        },
    }
}

/// The service: a store, once there is one.
pub struct StationService {
    pub manager: Option<RelayStationManager>,
}

impl StationService {
    /// The store as a value, `None` where the service has none yet.
    pub open spec fn store(self) -> Option<StoreV> {
        match self.manager {
            Some(m) => Some(m@),
            None => None,
        }
    }

    /// A service without a store.
    pub fn uninitialized() -> (r: Self)
        ensures
            r.store().is_none(),
    {
        StationService { manager: None }
    }

    /// A service over an empty store.
    pub fn new() -> (r: Self)
        ensures
            r.store() == Some(StoreV::empty()),
    {
        StationService { manager: Some(RelayStationManager::new()) }
    }

    /// All stations, newest first; none where there is no store.
    pub fn list_relay_stations(&self) -> (r: Result<Vec<RelayStation>, String>)
        ensures
            r matches Ok(stations) && stations.deep_view() == (match self.store() {
                Some(s) => s.newest_first(),
                None => Seq::empty(),
            }),
    {
        match &self.manager {
            Some(m) => match m.list_stations() {
                Ok(stations) => Ok(stations),
                Err(e) => Err(failure("relay.failed_to_list_stations", &e)),
            },
            None => {
                let none: Vec<RelayStation> = Vec::new();
                Ok(none)
            },
        }
    }

    /// The station `station_id`; none where there is no store.
    pub fn get_relay_station(&self, station_id: &str) -> (r: Result<Option<RelayStation>, String>)
        ensures
            r matches Ok(found) && found.deep_view() == (match self.store() {
                Some(s) => s.get(station_id@),
                None => None,
            }),
    {
        match &self.manager {
            Some(m) => match m.get_station(station_id) {
                Ok(found) => Ok(found),
                Err(e) => Err(failure("relay.failed_to_get_station", &e)),
            },
            None => Ok(None),
        }
    }

    /// Creates a station from a request, under the id `id` and at time
    /// `now`.
    pub fn add_relay_station_with(&mut self, request: CreateRelayStationRequest, id: String, now: i64) -> (r:
        Result<String, String>)
        ensures
            (final(self).store(), told_view(r)) == spec_add_relay_station(
                old(self).store(),
                request.deep_view(),
                id@,
                now,
            ),
    {
        match &mut self.manager {
            Some(m) => {
                let station = RelayStation::from_request(request, id, now);
                match m.add_station(&station) {
                    Ok(()) => Ok(String::from_str("relay.station_add_success")),
                    Err(e) => Err(failure("relay.failed_to_add_station", &e)),
                }
            },
            None => Err(String::from_str("relay.manager_not_initialized")),
        }
    }

    /// Creates a station from a request, under a fresh id and at the time
    /// of the call: what `spec_add_relay_station` gives for the id that was
    /// made. A store without stations has no id that could be taken, so there
    /// the station is added.
    pub fn add_relay_station(&mut self, request: CreateRelayStationRequest) -> (r: Result<String, String>)
        ensures
            exists|id: Seq<char>, now: i64|
                (final(self).store(), told_view(r)) == #[trigger] spec_add_relay_station(
                    old(self).store(),
                    request.deep_view(),
                    id,
                    now,
                ),
            old(self).store() matches Some(s) && s.stations.len() == 0 ==> r.is_ok(),
    {
        let id = crate::platform::fresh_id();
        let now = crate::platform::unix_now();
        proof {
            if self.store().is_some() && self.store().unwrap().stations.len() == 0 {
                crate::seqs::lemma_first_index_none(
                    self.store().unwrap().stations,
                    crate::store::station_has_id(id@),
                );
            }
        }
        self.add_relay_station_with(request, id, now)
    }

    /// Updates the station `station_id`.
    pub fn update_relay_station(&mut self, station_id: &str, updates: &Vec<(String, Json)>) -> (r: Result<
        String,
        String,
    >)
        ensures
            match old(self).store() {
                None => final(self).store().is_none() && (r matches Err(m) && m@
                    == "relay.manager_not_initialized"@),
                Some(s) => (r matches Ok(m) && m@ == "relay.station_update_success"@) && exists|now: i64|
                    final(self).store() == Some(#[trigger] s.update(station_id@, updates.deep_view(), now)),
            },
    {
        let ghost mut at: i64 = 0;
        let r = match &mut self.manager {
            Some(m) => {
                let ghost before = m@;
                let done = m.update_station(station_id, updates);
                proof {
                    at = choose|now: i64|
                        m@ == #[trigger] before.update(station_id@, updates.deep_view(), now);
                }
                match done {
                    Ok(()) => Ok(String::from_str("relay.station_update_success")),
                    Err(e) => Err(failure("relay.failed_to_update_station", &e)),
                }
            },
            None => Err(String::from_str("relay.manager_not_initialized")),
        };
        proof {
            if old(self).store().is_some() {
                assert(self.store() == Some(
                    old(self).store().unwrap().update(station_id@, updates.deep_view(), at),
                ));
            }
        }
        r
    }

    /// Deletes the station `station_id`.
    pub fn delete_relay_station(&mut self, station_id: &str) -> (r: Result<String, String>)
        ensures
            match old(self).store() {
                None => final(self).store().is_none() && (r matches Err(m) && m@
                    == "relay.manager_not_initialized"@),
                Some(s) => final(self).store() == Some(s.delete(station_id@)) && (r matches Ok(m) && m@
                    == "relay.station_delete_success"@),
            },
    {
        match &mut self.manager {
            Some(m) => match m.delete_station(station_id) {
                Ok(()) => Ok(String::from_str("relay.station_delete_success")),
                Err(e) => Err(failure("relay.failed_to_delete_station", &e)),
            },
            None => Err(String::from_str("relay.manager_not_initialized")),
        }
    }

    /// Begins a call to the provider of the station `station_id`, at time
    /// `now`.
    pub fn begin_call_at(&self, station_id: &str, call: &AdapterCall, now: i64) -> (r: ServiceStep)
        ensures
            r.deep_view() == spec_begin_call(self.store(), station_id@, call.deep_view(), now),
    {
        let m = match &self.manager {
            Some(m) => m,
            None => {
                return uninitialized(call);
            },
        };
        let found = match m.get_station(station_id) {
            Ok(found) => found,
            Err(e) => None,
        };
        match found {
            None => ServiceStep::Done(Err(String::from_str("relay.station_not_found"))),
            Some(station) => {
                let adapter = create_adapter(&station.adapter);
                match adapter.begin(&station, call, now) {
                    AdapterStep::Send(request) => ServiceStep::Send { station, request },
                    AdapterStep::Done(r) => ServiceStep::Done(told(call, r)),
                }
            },
        }
    }

    /// Begins a call to the provider of the station `station_id`, at the
    /// time of the call.
    pub fn begin_call(&self, station_id: &str, call: &AdapterCall) -> (r: ServiceStep)
        ensures
            exists|now: i64|
                r.deep_view() == #[trigger] spec_begin_call(
                    self.store(),
                    station_id@,
                    call.deep_view(),
                    now,
                ),
    {
        let now = crate::platform::unix_now();
        self.begin_call_at(station_id, call, now)
    }

    /// Saves a station's configuration at time `now`. The station has to be
    /// there.
    pub fn save_station_config_at(&mut self, request: SaveStationConfigRequest, now: i64) -> (r: Result<
        String,
        String,
    >)
        ensures
            match old(self).store() {
                None => final(self).store().is_none() && (r matches Err(m) && m@
                    == "relay.manager_not_initialized"@),
                Some(s) => match s.get(request.station_id@) {
                    None => final(self).store() == Some(s) && (r matches Err(m) && m@
                        == "relay.station_not_found"@),
                    Some(station) => final(self).store() == Some(
                        s.save_config(spec_config_of(request.deep_view(), station, now)),
                    ) && (r matches Ok(m) && m@ == "relay.config_save_success"@),
                },
            },
    {
        match &mut self.manager {
            Some(m) => {
                let found = match m.get_station(request.station_id.as_str()) {
                    Ok(found) => found,
                    Err(e) => None,
                };
                match found {
                    None => Err(String::from_str("relay.station_not_found")),
                    Some(station) => {
                        let config = config_of(request, &station, now);
                        match m.save_station_config(&config) {
                            Ok(()) => Ok(String::from_str("relay.config_save_success")),
                            Err(e) => Err(failure("relay.failed_to_save_config", &e)),
                        }
                    },
                }
            },
            None => Err(String::from_str("relay.manager_not_initialized")),
        }
    }

    /// Saves a station's configuration at the time of the call.
    pub fn save_station_config(&mut self, request: SaveStationConfigRequest) -> (r: Result<String, String>)
        ensures
            old(self).store().is_none() ==> final(self).store().is_none() && r.is_err(),
            old(self).store() matches Some(s) ==> match s.get(request.station_id@) {
                None => final(self).store() == Some(s) && r.is_err(),
                Some(station) => r.is_ok() && exists|now: i64|
                    final(self).store() == Some(
                        s.save_config(#[trigger] spec_config_of(request.deep_view(), station, now)),
                    ),
            },
    {
        let now = crate::platform::unix_now();
        self.save_station_config_at(request, now)
    }

    /// The saved configuration of the station `station_id`.
    pub fn get_station_config(&self, station_id: &str) -> (r: Result<Option<RelayStationConfig>, String>)
        ensures
            match self.store() {
                None => r matches Err(m) && m@ == "relay.manager_not_initialized"@,
                Some(s) => r matches Ok(found) && found.deep_view() == s.config(station_id@),
            },
    {
        match &self.manager {
            Some(m) => match m.get_station_config(station_id) {
                Ok(found) => Ok(found),
                Err(e) => Err(failure("relay.failed_to_get_config", &e)),
            },
            None => Err(String::from_str("relay.manager_not_initialized")),
        }
    }

    /// The usage records as they are shown.
    pub fn get_config_usage_status(&self) -> (r: Result<Vec<ConfigUsageStatus>, String>)
        ensures
            match self.store() {
                None => r matches Err(m) && m@ == "relay.manager_not_initialized"@,
                Some(s) => r matches Ok(shown) && shown.deep_view() == s.usage_status(),
            },
    {
        match &self.manager {
            Some(m) => match m.get_config_usage_status() {
                Ok(shown) => Ok(shown),
                Err(e) => Err(failure("relay.failed_to_get_usage_status", &e)),
            },
            None => Err(String::from_str("relay.manager_not_initialized")),
        }
    }

    /// Records that a base URL and a token were applied for a station.
    pub fn record_config_usage(&mut self, station_id: &str, base_url: &str, token: &str) -> (r: Result<
        String,
        String,
    >)
        ensures
            match old(self).store() {
                None => final(self).store().is_none() && (r matches Err(m) && m@
                    == "relay.manager_not_initialized"@),
                Some(s) => (r matches Ok(m) && m@ == "relay.usage_record_updated"@) && exists|now: i64|
                    final(self).store() == Some(
                        s.record_usage(
                            #[trigger] crate::store::spec_usage_record(
                                station_id@,
                                base_url@,
                                token@,
                                now,
                            ),
                        ),
                    ),
            },
    {
        match &mut self.manager {
            Some(m) => match m.record_config_usage(station_id, base_url, token) {
                Ok(()) => Ok(String::from_str("relay.usage_record_updated")),
                Err(e) => Err(failure("relay.failed_to_record_usage", &e)),
            },
            None => Err(String::from_str("relay.manager_not_initialized")),
        }
    }

    /// A snapshot of stations.
    pub fn export_relay_stations(&self, station_ids: Option<Vec<String>>) -> (r: Result<
        RelayStationExport,
        String,
    >)
        ensures
            match self.store() {
                None => r matches Err(m) && m@ == "relay.manager_not_initialized"@,
                Some(s) => r matches Ok(export) && export.version == 1 && export.stations.deep_view()
                    == s.exported(station_ids.deep_view()),
            },
    {
        match &self.manager {
            Some(m) => match m.export_stations(station_ids) {
                Ok(export) => Ok(export),
                Err(e) => Err(failure("relay.failed_to_export_stations", &e)),
            },
            None => Err(String::from_str("relay.manager_not_initialized")),
        }
    }

    /// Imports the stations of a snapshot and names those that were added
    /// or overwritten.
    pub fn import_relay_stations(&mut self, export_data: &RelayStationExport, overwrite_existing: bool) -> (r:
        Result<Vec<String>, String>)
        ensures
            match old(self).store() {
                None => final(self).store().is_none() && (r matches Err(m) && m@
                    == "relay.manager_not_initialized"@),
                Some(s) => exists|ids: Seq<Seq<char>>, times: Seq<i64>|
                    ids.len() == export_data.stations@.len() && times.len()
                        == export_data.stations@.len() && final(self).store() == Some(
                        s.import_all(export_data.stations.deep_view(), overwrite_existing, ids, times),
                    ) && told_view(r) == (match (#[trigger] crate::store::spec_import_all(
                        s.stations,
                        export_data.stations.deep_view(),
                        overwrite_existing,
                        ids,
                        times,
                    )).1 {
                        Ok(names) => Ok::<Seq<Seq<char>>, Seq<char>>(names),
                        Err(e) => Err::<Seq<Seq<char>>, Seq<char>>(
                            spec_failure("relay.failed_to_import_stations"@, e),
                        ),
                    }),
            },
    {
        let ghost mut ids: Seq<Seq<char>> = Seq::empty();
        let ghost mut times: Seq<i64> = Seq::empty();
        let ghost items = export_data.stations.deep_view();
        let r = match &mut self.manager {
            Some(m) => {
                let ghost before = m@;
                let done = m.import_stations(export_data, overwrite_existing);
                proof {
                    let (i, t) = choose|i: Seq<Seq<char>>, t: Seq<i64>|
                        i.len() == export_data.stations@.len() && t.len() == export_data.stations@.len()
                            && m@ == before.import_all(items, overwrite_existing, i, t)
                            && crate::http::result_view(done) == (#[trigger] crate::store::spec_import_all(
                            before.stations,
                            items,
                            overwrite_existing,
                            i,
                            t,
                        )).1;
                    ids = i;
                    times = t;
                }
                match done {
                    Ok(names) => Ok(names),
                    Err(e) => Err(failure("relay.failed_to_import_stations", &e)),
                }
            },
            None => Err(String::from_str("relay.manager_not_initialized")),
        };
        proof {
            if old(self).store().is_some() {
                let s = old(self).store().unwrap();
                assert(told_view(r) == (match crate::store::spec_import_all(
                    s.stations,
                    items,
                    overwrite_existing,
                    ids,
                    times,
                ).1 {
                    Ok(names) => Ok::<Seq<Seq<char>>, Seq<char>>(names),
                    Err(e) => Err::<Seq<Seq<char>>, Seq<char>>(
                        spec_failure("relay.failed_to_import_stations"@, e),
                    ),
                }));
            }
        }
        r
    }
}

} // verus!

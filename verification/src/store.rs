//! The station store: stations, one saved configuration per station and one
//! usage record per station, with the operations on them.
//!
//! `StoreV` is the store as a mathematical value and says what every
//! operation does; `RelayStationManager` holds the store and does it.
use crate::http::{RelayError, RelayErrorV};
use crate::json::{lookup, spec_lookup, Fields, Json, JsonV};
use crate::seqs::{
    lemma_first_index, lemma_first_index_is, lemma_first_index_none, order_desc, spec_first,
    spec_first_index, spec_order_desc,
};
use crate::station::{
    AuthMethod, ConfigUsageStatus, ConfigUsageStatusV, RelayStation, RelayStationAdapter,
    RelayStationConfig, RelayStationConfigV, RelayStationV, StationFields,
};
use crate::text::{clone_opt_string, spec_or_empty, str_eq};
use vstd::prelude::*;

verus! {

/// The base URL and token that were last applied for a station.
#[derive(Debug, Clone, PartialEq, Eq)]
pub struct UsageRecord {
    pub station_id: String,
    pub base_url: String,
    pub token: String,
    pub applied_at: i64,
}

pub struct UsageRecordV {
    pub station_id: Seq<char>,
    pub base_url: Seq<char>,
    pub token: Seq<char>,
    pub applied_at: i64,
}

impl DeepView for UsageRecord {
    type V = UsageRecordV;

    open spec fn deep_view(&self) -> UsageRecordV {
        UsageRecordV {
            station_id: self.station_id@,
            base_url: self.base_url@,
            token: self.token@,
            applied_at: self.applied_at,
        }
    }
}

impl UsageRecord {
    pub fn clone_record(&self) -> (r: UsageRecord)
        ensures
            r.deep_view() == self.deep_view(),
    {
        UsageRecord {
            station_id: self.station_id.clone(),
            base_url: self.base_url.clone(),
            token: self.token.clone(),
            applied_at: self.applied_at,
        }
    }
}

/// The record of a base URL and a token applied for a station at a time.
pub open spec fn spec_usage_record(station_id: Seq<char>, base_url: Seq<char>, token: Seq<char>, now: i64) -> UsageRecordV {
    UsageRecordV { station_id, base_url, token, applied_at: now }
}

pub open spec fn station_has_id(id: Seq<char>) -> spec_fn(RelayStationV) -> bool {
    |s: RelayStationV| s.id == id
}

pub open spec fn station_has_name(name: Seq<char>) -> spec_fn(RelayStationV) -> bool {
    |s: RelayStationV| s.fields.name == name
}

pub open spec fn config_is_for(id: Seq<char>) -> spec_fn(RelayStationConfigV) -> bool {
    |c: RelayStationConfigV| c.station_id == id
}

pub open spec fn usage_is_for(id: Seq<char>) -> spec_fn(UsageRecordV) -> bool {
    |u: UsageRecordV| u.station_id == id
}

/// No two stations share an id.
pub open spec fn spec_distinct_stations(stations: Seq<RelayStationV>) -> bool {
    forall|i: int, j: int|
        0 <= i < j < stations.len() ==> (#[trigger] stations[i]).id != (#[trigger] stations[j]).id
}

/// No two saved configurations are for one station.
pub open spec fn spec_distinct_configs(configs: Seq<RelayStationConfigV>) -> bool {
    forall|i: int, j: int|
        0 <= i < j < configs.len() ==> (#[trigger] configs[i]).station_id != (
        #[trigger] configs[j]).station_id
}

/// No two usage records are for one station.
pub open spec fn spec_distinct_usage(usage: Seq<UsageRecordV>) -> bool {
    forall|i: int, j: int|
        0 <= i < j < usage.len() ==> (#[trigger] usage[i]).station_id != (
        #[trigger] usage[j]).station_id
}

// ---------------------------------------------------------------------------
// Partial updates
// ---------------------------------------------------------------------------

/// Whether an update names a field that can be updated. Any other name in
/// it is ignored.
pub open spec fn spec_touches(updates: Fields) -> bool {
    spec_lookup(updates, "name"@).is_some() || spec_lookup(updates, "description"@).is_some()
        || spec_lookup(updates, "api_url"@).is_some() || spec_lookup(updates, "adapter"@).is_some()
        || spec_lookup(updates, "auth_method"@).is_some() || spec_lookup(
        updates,
        "system_token"@,
    ).is_some() || spec_lookup(updates, "user_id"@).is_some() || spec_lookup(
        updates,
        "enabled"@,
    ).is_some()
}

/// A text field after an update: the update's text where it names the
/// field (empty where it gives no text), else the old text.
pub open spec fn spec_updated_text(updates: Fields, key: Seq<char>, old_text: Seq<char>) -> Seq<char> {
    match spec_lookup(updates, key) {
        Some(v) => spec_or_empty(v.as_str()),
        None => old_text,
    }
}

/// An optional text field after an update: the update's text where it
/// names the field (none where it gives no text), else the old one.
pub open spec fn spec_updated_opt_text(updates: Fields, key: Seq<char>, old_text: Option<Seq<char>>) -> Option<
    Seq<char>,
> {
    match spec_lookup(updates, key) {
        Some(v) => v.as_str(),
        None => old_text,
    }
}

/// A station after an update at time `now`: each field that the update
/// names is rewritten, every other is left as it is, and `updated_at` is
/// `now`. The id, the adapter configuration and `created_at` never change.
pub open spec fn spec_apply_update(s: RelayStationV, updates: Fields, now: i64) -> RelayStationV {
    RelayStationV {
        id: s.id,
        fields: StationFields {
            name: spec_updated_text(updates, "name"@, s.fields.name),
            description: spec_updated_opt_text(updates, "description"@, s.fields.description),
            api_url: spec_updated_text(updates, "api_url"@, s.fields.api_url),
            adapter: match spec_lookup(updates, "adapter"@) {
                Some(v) => match v.as_str() {
                    Some(name) => RelayStationAdapter::spec_from_name(name),
                    None => RelayStationAdapter::Newapi,
                },
                None => s.fields.adapter,
            },
            auth_method: match spec_lookup(updates, "auth_method"@) {
                Some(v) => match v.as_str() {
                    Some(name) => AuthMethod::spec_from_name(name),
                    None => AuthMethod::BearerToken,
                },
                None => s.fields.auth_method,
            },
            system_token: spec_updated_text(updates, "system_token"@, s.fields.system_token),
            user_id: spec_updated_opt_text(updates, "user_id"@, s.fields.user_id),
            adapter_config: s.fields.adapter_config,
            enabled: match spec_lookup(updates, "enabled"@) {
                Some(v) => v.as_bool() == Some(true),
                None => s.fields.enabled,
            },
        },
        created_at: s.created_at,
        updated_at: now,
    }
}

pub fn touches(updates: &Vec<(String, Json)>) -> (r: bool)
    ensures
        r == spec_touches(updates.deep_view()),
{
    lookup(updates, "name").is_some() || lookup(updates, "description").is_some() || lookup(
        updates,
        "api_url",
    ).is_some() || lookup(updates, "adapter").is_some() || lookup(updates, "auth_method").is_some()
        || lookup(updates, "system_token").is_some() || lookup(updates, "user_id").is_some()
        || lookup(updates, "enabled").is_some()
}

fn updated_text(updates: &Vec<(String, Json)>, key: &str, old_text: &String) -> (r: String)
    ensures
        r@ == spec_updated_text(updates.deep_view(), key@, old_text@),
{
    match lookup(updates, key) {
        Some(v) => match v.as_str() {
            Some(t) => String::from_str(t),
            None => String::new(),
        },
        None => old_text.clone(),
    }
}

fn updated_opt_text(updates: &Vec<(String, Json)>, key: &str, old_text: &Option<String>) -> (r: Option<
    String,
>)
    ensures
        r.deep_view() == spec_updated_opt_text(updates.deep_view(), key@, old_text.deep_view()),
{
    match lookup(updates, key) {
        Some(v) => match v.as_str() {
            Some(t) => Some(String::from_str(t)),
            None => None,
        },
        None => clone_opt_string(old_text),
    }
}

pub fn apply_update(station: &RelayStation, updates: &Vec<(String, Json)>, now: i64) -> (r: RelayStation)
    ensures
        r.deep_view() == spec_apply_update(station.deep_view(), updates.deep_view(), now),
{
    let adapter = match lookup(updates, "adapter") {
        Some(v) => match v.as_str() {
            Some(name) => RelayStationAdapter::from_name(name),
            None => RelayStationAdapter::Newapi,
        },
        None => station.adapter,
    };
    let auth_method = match lookup(updates, "auth_method") {
        Some(v) => match v.as_str() {
            Some(name) => AuthMethod::from_name(name),
            None => AuthMethod::BearerToken,
        },
        None => station.auth_method,
    };
    let enabled = match lookup(updates, "enabled") {
        Some(v) => match v.as_bool() {
            Some(b) => b,
            None => false,
        },
        None => station.enabled,
    };
    RelayStation {
        id: station.id.clone(),
        name: updated_text(updates, "name", &station.name),
        description: updated_opt_text(updates, "description", &station.description),
        api_url: updated_text(updates, "api_url", &station.api_url),
        adapter,
        auth_method,
        system_token: updated_text(updates, "system_token", &station.system_token),
        user_id: updated_opt_text(updates, "user_id", &station.user_id),
        adapter_config: crate::json::clone_opt_fields(&station.adapter_config),
        enabled,
        created_at: station.created_at,
        updated_at: now,
    }
}

// ---------------------------------------------------------------------------
// The store as a value
// ---------------------------------------------------------------------------

/// The store: its stations in the order in which they were added, its saved
/// configurations and its usage records.
pub struct StoreV {
    pub stations: Seq<RelayStationV>,
    pub configs: Seq<RelayStationConfigV>,
    pub usage: Seq<UsageRecordV>,
}

/// The creation times of a run of stations.
pub open spec fn spec_station_ages(stations: Seq<RelayStationV>) -> Seq<i64> {
    Seq::new(stations.len(), |i: int| stations[i].created_at)
}

/// The application times of a run of usage records.
pub open spec fn spec_usage_ages(usage: Seq<UsageRecordV>) -> Seq<i64> {
    Seq::new(usage.len(), |i: int| usage[i].applied_at)
}

/// The items of `s` at the places that `order` names, in that order.
pub open spec fn spec_pick<A>(s: Seq<A>, order: Seq<int>) -> Seq<A> {
    Seq::new(order.len(), |k: int| s[order[k]])
}

/// A run of stations after a partial update of the station `id`.
pub open spec fn spec_updated_stations(
    stations: Seq<RelayStationV>,
    id: Seq<char>,
    updates: Fields,
    now: i64,
) -> Seq<RelayStationV> {
    if !spec_touches(updates) {
        stations
    } else {
        match spec_first_index(stations, station_has_id(id)) {
            Some(i) => stations.update(i, spec_apply_update(stations[i], updates, now)),
            None => stations,
        }
    }
}

/// A sequence without the first item that satisfies `p`.
pub open spec fn spec_without_first<A>(s: Seq<A>, p: spec_fn(A) -> bool) -> Seq<A> {
    match spec_first_index(s, p) {
        Some(i) => s.remove(i),
        None => s,
    }
}

impl StoreV {
    pub open spec fn empty() -> StoreV {
        StoreV { stations: Seq::empty(), configs: Seq::empty(), usage: Seq::empty() }
    }

    /// No id is used twice, and no station has two configurations or two
    /// usage records.
    pub open spec fn wf(self) -> bool {
        &&& spec_distinct_stations(self.stations)
        &&& spec_distinct_configs(self.configs)
        &&& spec_distinct_usage(self.usage)
    }

    /// The station with the id `id`.
    pub open spec fn get(self, id: Seq<char>) -> Option<RelayStationV> {
        spec_first(self.stations, station_has_id(id))
    }

    /// The store with one more station.
    pub open spec fn add(self, s: RelayStationV) -> StoreV {
        StoreV { stations: self.stations.push(s), ..self }
    }

    /// The store after a partial update of the station `id` at time `now`.
    /// An update that names no field that can be updated changes nothing,
    /// and neither does one of a station that is not there.
    pub open spec fn update(self, id: Seq<char>, updates: Fields, now: i64) -> StoreV {
        StoreV { stations: spec_updated_stations(self.stations, id, updates, now), ..self }
    }

    /// The store without the station `id`, its saved configuration and its
    /// usage record.
    pub open spec fn delete(self, id: Seq<char>) -> StoreV {
        StoreV {
            stations: spec_without_first(self.stations, station_has_id(id)),
            configs: spec_without_first(self.configs, config_is_for(id)),
            usage: spec_without_first(self.usage, usage_is_for(id)),
        }
    }

    /// The stations, newest first.
    pub open spec fn newest_first(self) -> Seq<RelayStationV> {
        spec_pick(self.stations, spec_order_desc(spec_station_ages(self.stations)))
    }

    /// The store in which `config` is the saved configuration of its
    /// station, in place of an earlier one.
    pub open spec fn save_config(self, config: RelayStationConfigV) -> StoreV {
        StoreV {
            configs: spec_without_first(self.configs, config_is_for(config.station_id)).push(config),
            ..self
        }
    }

    /// The saved configuration of the station `id`.
    pub open spec fn config(self, id: Seq<char>) -> Option<RelayStationConfigV> {
        spec_first(self.configs, config_is_for(id))
    }

    /// The store in which `record` is the usage record of its station, in
    /// place of an earlier one.
    pub open spec fn record_usage(self, record: UsageRecordV) -> StoreV {
        StoreV {
            usage: spec_without_first(self.usage, usage_is_for(record.station_id)).push(record),
            ..self
        }
    }

    /// How a usage record is shown: with the current name of its station,
    /// or `Unknown` where the station is not there.
    pub open spec fn usage_status_of(self, record: UsageRecordV) -> ConfigUsageStatusV {
        ConfigUsageStatusV {
            station_id: record.station_id,
            station_name: match self.get(record.station_id) {
                Some(s) => s.fields.name,
                None => "Unknown"@,
            },
            base_url: record.base_url,
            token: record.token,
            is_active: true,
            applied_at: Some(record.applied_at),
        }
    }

    /// The usage records as they are shown, last applied first.
    pub open spec fn usage_status(self) -> Seq<ConfigUsageStatusV> {
        let order = spec_order_desc(spec_usage_ages(self.usage));
        Seq::new(order.len(), |k: int| self.usage_status_of(self.usage[order[k]]))
    }
}

/// Removing an item keeps the others apart.
proof fn lemma_remove_distinct_stations(stations: Seq<RelayStationV>, i: int)
    requires
        spec_distinct_stations(stations),
        0 <= i < stations.len(),
    ensures
        spec_distinct_stations(stations.remove(i)),
        forall|j: int| 0 <= j < stations.remove(i).len() ==> (#[trigger] stations.remove(i)[j]).id
            != stations[i].id,
{
    assert(stations.remove(i).len() == stations.len() - 1);
}

proof fn lemma_remove_distinct_configs(configs: Seq<RelayStationConfigV>, i: int)
    requires
        spec_distinct_configs(configs),
        0 <= i < configs.len(),
    ensures
        spec_distinct_configs(configs.remove(i)),
        forall|j: int|
            0 <= j < configs.remove(i).len() ==> (#[trigger] configs.remove(i)[j]).station_id
                != configs[i].station_id,
{
    assert(configs.remove(i).len() == configs.len() - 1);
}

proof fn lemma_remove_distinct_usage(usage: Seq<UsageRecordV>, i: int)
    requires
        spec_distinct_usage(usage),
        0 <= i < usage.len(),
    ensures
        spec_distinct_usage(usage.remove(i)),
        forall|j: int| 0 <= j < usage.remove(i).len() ==> (#[trigger] usage.remove(i)[j]).station_id
            != usage[i].station_id,
{
    assert(usage.remove(i).len() == usage.len() - 1);
}

// ---------------------------------------------------------------------------
// Finding
// ---------------------------------------------------------------------------

pub fn station_index(stations: &Vec<RelayStation>, id: &str) -> (r: Option<usize>)
    ensures
        match r {
            Some(i) => spec_first_index(stations.deep_view(), station_has_id(id@)) == Some(i as int),
            None => spec_first_index(stations.deep_view(), station_has_id(id@)).is_none(),
        },
        r matches Some(i) ==> i < stations@.len() && stations@[i as int].id@ == id@,
{
    let ghost sv = stations.deep_view();
    let mut i: usize = 0;
    while i < stations.len()
        invariant
            i <= stations@.len(),
            sv == stations.deep_view(),
            forall|j: int| 0 <= j < i ==> !station_has_id(id@)(#[trigger] sv[j]),
        decreases stations.len() - i,
    {
        if str_eq(stations[i].id.as_str(), id) {
            proof {
                lemma_first_index_is(sv, station_has_id(id@), i as int);
            }
            return Some(i);
        }
        i = i + 1;
    }
    proof {
        lemma_first_index_none(sv, station_has_id(id@));
    }
    None
}

pub fn station_index_by_name(stations: &Vec<RelayStation>, name: &str) -> (r: Option<usize>)
    ensures
        match r {
            Some(i) => spec_first_index(stations.deep_view(), station_has_name(name@)) == Some(i as int),
            None => spec_first_index(stations.deep_view(), station_has_name(name@)).is_none(),
        },
        r matches Some(i) ==> i < stations@.len() && stations@[i as int].name@ == name@,
{
    let ghost sv = stations.deep_view();
    let mut i: usize = 0;
    while i < stations.len()
        invariant
            i <= stations@.len(),
            sv == stations.deep_view(),
            forall|j: int| 0 <= j < i ==> !station_has_name(name@)(#[trigger] sv[j]),
        decreases stations.len() - i,
    {
        if str_eq(stations[i].name.as_str(), name) {
            proof {
                lemma_first_index_is(sv, station_has_name(name@), i as int);
            }
            return Some(i);
        }
        i = i + 1;
    }
    proof {
        lemma_first_index_none(sv, station_has_name(name@));
    }
    None
}

pub fn config_index(configs: &Vec<RelayStationConfig>, id: &str) -> (r: Option<usize>)
    ensures
        match r {
            Some(i) => spec_first_index(configs.deep_view(), config_is_for(id@)) == Some(i as int),
            None => spec_first_index(configs.deep_view(), config_is_for(id@)).is_none(),
        },
        r matches Some(i) ==> i < configs@.len() && configs@[i as int].station_id@ == id@,
{
    let ghost cv = configs.deep_view();
    let mut i: usize = 0;
    while i < configs.len()
        invariant
            i <= configs@.len(),
            cv == configs.deep_view(),
            forall|j: int| 0 <= j < i ==> !config_is_for(id@)(#[trigger] cv[j]),
        decreases configs.len() - i,
    {
        if str_eq(configs[i].station_id.as_str(), id) {
            proof {
                lemma_first_index_is(cv, config_is_for(id@), i as int);
            }
            return Some(i);
        }
        i = i + 1;
    }
    proof {
        lemma_first_index_none(cv, config_is_for(id@));
    }
    None
}

pub fn usage_index(usage: &Vec<UsageRecord>, id: &str) -> (r: Option<usize>)
    ensures
        match r {
            Some(i) => spec_first_index(usage.deep_view(), usage_is_for(id@)) == Some(i as int),
            None => spec_first_index(usage.deep_view(), usage_is_for(id@)).is_none(),
        },
        r matches Some(i) ==> i < usage@.len() && usage@[i as int].station_id@ == id@,
{
    let ghost uv = usage.deep_view();
    let mut i: usize = 0;
    while i < usage.len()
        invariant
            i <= usage@.len(),
            uv == usage.deep_view(),
            forall|j: int| 0 <= j < i ==> !usage_is_for(id@)(#[trigger] uv[j]),
        decreases usage.len() - i,
    {
        if str_eq(usage[i].station_id.as_str(), id) {
            proof {
                lemma_first_index_is(uv, usage_is_for(id@), i as int);
            }
            return Some(i);
        }
        i = i + 1;
    }
    proof {
        lemma_first_index_none(uv, usage_is_for(id@));
    }
    None
}

/// The failure of an insertion under an id that is taken.
pub open spec fn spec_id_taken(id: Seq<char>) -> RelayErrorV {
    RelayErrorV::Conflict("station id already exists: "@ + id)
}

fn id_taken(id: &str) -> (r: RelayError)
    ensures
        r.deep_view() == spec_id_taken(id@),
{
    RelayError::Conflict(crate::http::concat("station id already exists: ", id))
}

fn push_station(stations: &mut Vec<RelayStation>, station: RelayStation) -> (r: Result<(), RelayError>)
    requires
        spec_distinct_stations(old(stations).deep_view()),
    ensures
        spec_distinct_stations(final(stations).deep_view()),
        spec_first_index(old(stations).deep_view(), station_has_id(station.id@)).is_none() ==> r.is_ok()
            && final(stations).deep_view() == old(stations).deep_view().push(station.deep_view()),
        spec_first_index(old(stations).deep_view(), station_has_id(station.id@)).is_some() ==> {
            &&& final(stations).deep_view() == old(stations).deep_view()
            &&& r matches Err(e) && e.deep_view() == spec_id_taken(station.id@)
        },
{
    let ghost before = stations.deep_view();
    proof {
        lemma_first_index(before, station_has_id(station.id@));
    }
    match station_index(stations, station.id.as_str()) {
        Some(i) => Err(id_taken(station.id.as_str())),
        None => {
            stations.push(station);
            proof {
                let after = stations.deep_view();
                assert forall|a: int, b: int| 0 <= a < b < after.len() implies (#[trigger] after[a]).id
                    != (#[trigger] after[b]).id by {
                    if b < before.len() {
                        assert(before[a].id != before[b].id);
                    }
                }
            }
            Ok(())
        },
    }
}

fn update_in(stations: &mut Vec<RelayStation>, id: &str, updates: &Vec<(String, Json)>, now: i64)
    requires
        spec_distinct_stations(old(stations).deep_view()),
    ensures
        spec_distinct_stations(final(stations).deep_view()),
        final(stations).deep_view() == spec_updated_stations(
            old(stations).deep_view(),
            id@,
            updates.deep_view(),
            now,
        ),
{
    if !touches(updates) {
        return ;
    }
    match station_index(stations, id) {
        Some(i) => {
            let ghost before = stations.deep_view();
            let changed = apply_update(&stations[i], updates, now);
            stations.set(i, changed);
            proof {
                let after = stations.deep_view();
                assert(after =~= before.update(
                    i as int,
                    spec_apply_update(before[i as int], updates.deep_view(), now),
                ));
            }
        },
        None => {},
    }
}

fn remove_station(stations: &mut Vec<RelayStation>, id: &str)
    requires
        spec_distinct_stations(old(stations).deep_view()),
    ensures
        spec_distinct_stations(final(stations).deep_view()),
        final(stations).deep_view() == spec_without_first(
            old(stations).deep_view(),
            station_has_id(id@),
        ),
{
    let ghost before = stations.deep_view();
    match station_index(stations, id) {
        Some(i) => {
            proof {
                lemma_remove_distinct_stations(before, i as int);
            }
            stations.remove(i);
            assert(stations.deep_view() =~= before.remove(i as int));
        },
        None => {},
    }
}

fn remove_config(configs: &mut Vec<RelayStationConfig>, id: &str)
    requires
        spec_distinct_configs(old(configs).deep_view()),
    ensures
        spec_distinct_configs(final(configs).deep_view()),
        final(configs).deep_view() == spec_without_first(old(configs).deep_view(), config_is_for(id@)),
        forall|j: int|
            0 <= j < final(configs).deep_view().len() ==> (#[trigger] final(
                configs
            ).deep_view()[j]).station_id != id@,
{
    let ghost before = configs.deep_view();
    proof {
        lemma_first_index(before, config_is_for(id@));
    }
    match config_index(configs, id) {
        Some(i) => {
            proof {
                lemma_remove_distinct_configs(before, i as int);
            }
            configs.remove(i);
            assert(configs.deep_view() =~= before.remove(i as int));
        },
        None => {},
    }
}

fn remove_usage(usage: &mut Vec<UsageRecord>, id: &str)
    requires
        spec_distinct_usage(old(usage).deep_view()),
    ensures
        spec_distinct_usage(final(usage).deep_view()),
        final(usage).deep_view() == spec_without_first(old(usage).deep_view(), usage_is_for(id@)),
        forall|j: int|
            0 <= j < final(usage).deep_view().len() ==> (#[trigger] final(
                usage
            ).deep_view()[j]).station_id != id@,
{
    let ghost before = usage.deep_view();
    proof {
        lemma_first_index(before, usage_is_for(id@));
    }
    match usage_index(usage, id) {
        Some(i) => {
            proof {
                lemma_remove_distinct_usage(before, i as int);
            }
            usage.remove(i);
            assert(usage.deep_view() =~= before.remove(i as int));
        },
        None => {},
    }
}

fn put_config(configs: &mut Vec<RelayStationConfig>, config: RelayStationConfig)
    requires
        spec_distinct_configs(old(configs).deep_view()),
    ensures
        spec_distinct_configs(final(configs).deep_view()),
        final(configs).deep_view() == spec_without_first(
            old(configs).deep_view(),
            config_is_for(config.station_id@),
        ).push(config.deep_view()),
{
    remove_config(configs, config.station_id.as_str());
    let ghost kept = configs.deep_view();
    configs.push(config);
    proof {
        let after = configs.deep_view();
        assert forall|a: int, b: int| 0 <= a < b < after.len() implies (#[trigger] after[a]).station_id
            != (#[trigger] after[b]).station_id by {
            if b < kept.len() {
                assert(kept[a].station_id != kept[b].station_id);
            }
        }
    }
}

fn put_usage(usage: &mut Vec<UsageRecord>, record: UsageRecord)
    requires
        spec_distinct_usage(old(usage).deep_view()),
    ensures
        spec_distinct_usage(final(usage).deep_view()),
        final(usage).deep_view() == spec_without_first(
            old(usage).deep_view(),
            usage_is_for(record.station_id@),
        ).push(record.deep_view()),
{
    remove_usage(usage, record.station_id.as_str());
    let ghost kept = usage.deep_view();
    usage.push(record);
    proof {
        let after = usage.deep_view();
        assert forall|a: int, b: int| 0 <= a < b < after.len() implies (#[trigger] after[a]).station_id
            != (#[trigger] after[b]).station_id by {
            if b < kept.len() {
                assert(kept[a].station_id != kept[b].station_id);
            } else {
                assert(kept[a].station_id != record.station_id@);
            }
        }
    }
}

/// The store.
pub struct RelayStationManager {
    stations: Vec<RelayStation>,
    configs: Vec<RelayStationConfig>,
    usage: Vec<UsageRecord>,
}

impl View for RelayStationManager {
    type V = StoreV;

    closed spec fn view(&self) -> StoreV {
        StoreV {
            stations: self.stations.deep_view(),
            configs: self.configs.deep_view(),
            usage: self.usage.deep_view(),
        }
    }
}

impl RelayStationManager {
    #[verifier::type_invariant]
    spec fn inv(self) -> bool {
        self@.wf()
    }

    /// A store always holds at most one station per id, and at most one
    /// configuration and one usage record per station.
    pub fn well_formed(&self)
        ensures
            self@.wf(),
    {
        proof {
            use_type_invariant(self);
        }
    }

    /// The empty store.
    pub fn new() -> (r: Self)
        ensures
            r@ == StoreV::empty(),
    {
        let r = RelayStationManager { stations: Vec::new(), configs: Vec::new(), usage: Vec::new() };
        assert(r@.stations =~= Seq::empty() && r@.configs =~= Seq::empty() && r@.usage =~= Seq::empty());
        r
    }

    /// The station with the id `station_id`, if there is one.
    pub fn get_station(&self, station_id: &str) -> (r: Result<Option<RelayStation>, RelayError>)
        ensures
            r matches Ok(found) && found.deep_view() == self@.get(station_id@),
    {
        match station_index(&self.stations, station_id) {
            Some(i) => Ok(Some(self.stations[i].clone_station())),
            None => Ok(None),
        }
    }

    /// Adds a station. An id that is taken is a conflict, and nothing changes.
    pub fn add_station(&mut self, station: &RelayStation) -> (r: Result<(), RelayError>)
        ensures
            old(self)@.get(station.id@).is_none() ==> r.is_ok() && final(self)@ == old(self)@.add(
                station.deep_view(),
            ),
            old(self)@.get(station.id@).is_some() ==> final(self)@ == old(self)@ && (r matches Err(e)
                && e.deep_view() == spec_id_taken(station.id@)),
    {
        proof {
            use_type_invariant(&*self);
        }
        let mut stations: Vec<RelayStation> = Vec::new();
        core::mem::swap(&mut self.stations, &mut stations);
        let r = push_station(&mut stations, station.clone_station());
        core::mem::swap(&mut self.stations, &mut stations);
        r
    }

    /// Updates the station `station_id` at time `now`: the fields that
    /// `updates` names are rewritten.
    pub fn update_station_at(&mut self, station_id: &str, updates: &Vec<(String, Json)>, now: i64) -> (r:
        Result<(), RelayError>)
        ensures
            r.is_ok(),
            final(self)@ == old(self)@.update(station_id@, updates.deep_view(), now),
    {
        proof {
            use_type_invariant(&*self);
        }
        let mut stations: Vec<RelayStation> = Vec::new();
        core::mem::swap(&mut self.stations, &mut stations);
        update_in(&mut stations, station_id, updates, now);
        core::mem::swap(&mut self.stations, &mut stations);
        Ok(())
    }

    /// Updates the station `station_id` at the time of the call. The clock
    /// is read only where the update names a field that can be updated.
    pub fn update_station(&mut self, station_id: &str, updates: &Vec<(String, Json)>) -> (r: Result<
        (),
        RelayError,
    >)
        ensures
            r.is_ok(),
            exists|now: i64| final(self)@ == #[trigger] old(self)@.update(
                station_id@,
                updates.deep_view(),
                now,
            ),
    {
        if !touches(updates) {
            assert(self@ == self@.update(station_id@, updates.deep_view(), 0));
            return Ok(());
        }
        let now = crate::platform::unix_now();
        self.update_station_at(station_id, updates, now)
    }

    /// Deletes the station `station_id`, and with it its saved
    /// configuration and its usage record.
    pub fn delete_station(&mut self, station_id: &str) -> (r: Result<(), RelayError>)
        ensures
            r.is_ok(),
            final(self)@ == old(self)@.delete(station_id@),
    {
        proof {
            use_type_invariant(&*self);
        }
        let mut stations: Vec<RelayStation> = Vec::new();
        core::mem::swap(&mut self.stations, &mut stations);
        remove_station(&mut stations, station_id);
        core::mem::swap(&mut self.stations, &mut stations);
        let mut configs: Vec<RelayStationConfig> = Vec::new();
        core::mem::swap(&mut self.configs, &mut configs);
        remove_config(&mut configs, station_id);
        core::mem::swap(&mut self.configs, &mut configs);
        let mut usage: Vec<UsageRecord> = Vec::new();
        core::mem::swap(&mut self.usage, &mut usage);
        remove_usage(&mut usage, station_id);
        core::mem::swap(&mut self.usage, &mut usage);
        Ok(())
    }

    /// All stations, newest first.
    pub fn list_stations(&self) -> (r: Result<Vec<RelayStation>, RelayError>)
        ensures
            r matches Ok(stations) && stations.deep_view() == self@.newest_first(),
    {
        let mut ages: Vec<i64> = Vec::new();
        let mut i: usize = 0;
        while i < self.stations.len()
            invariant
                i <= self.stations@.len(),
                ages@.len() == i,
                forall|j: int| 0 <= j < i ==> #[trigger] ages@[j] == self.stations@[j].created_at,
            decreases self.stations.len() - i,
        {
            ages.push(self.stations[i].created_at);
            i = i + 1;
        }
        assert(ages@ =~= spec_station_ages(self@.stations));
        let order = order_desc(&ages);
        let mut out: Vec<RelayStation> = Vec::new();
        let mut k: usize = 0;
        while k < order.len()
            invariant
                k <= order@.len(),
                out@.len() == k,
                order@.len() == ages@.len(),
                ages@.len() == self.stations@.len(),
                forall|a: int| 0 <= a < order@.len() ==> #[trigger] order@[a] < ages@.len(),
                forall|j: int|
                    0 <= j < k ==> (#[trigger] out@[j]).deep_view() == self.stations@[order@[j] as int].deep_view(),
            decreases order.len() - k,
        {
            out.push(self.stations[order[k]].clone_station());
            k = k + 1;
        }
        Ok(out)
    }

    /// Saves a station's configuration, in place of the one saved before.
    pub fn save_station_config(&mut self, config: &RelayStationConfig) -> (r: Result<(), RelayError>)
        ensures
            r.is_ok(),
            final(self)@ == old(self)@.save_config(config.deep_view()),
    {
        proof {
            use_type_invariant(&*self);
        }
        let mut configs: Vec<RelayStationConfig> = Vec::new();
        core::mem::swap(&mut self.configs, &mut configs);
        put_config(&mut configs, config.clone_config());
        core::mem::swap(&mut self.configs, &mut configs);
        Ok(())
    }

    /// The saved configuration of the station `station_id`, if there is one.
    pub fn get_station_config(&self, station_id: &str) -> (r: Result<
        Option<RelayStationConfig>,
        RelayError,
    >)
        ensures
            r matches Ok(found) && found.deep_view() == self@.config(station_id@),
    {
        match config_index(&self.configs, station_id) {
            Some(i) => Ok(Some(self.configs[i].clone_config())),
            None => Ok(None),
        }
    }

    /// Records that a base URL and a token were applied for a station at
    /// time `now`, in place of what was recorded for it before.
    pub fn record_config_usage_at(&mut self, station_id: &str, base_url: &str, token: &str, now: i64) -> (r:
        Result<(), RelayError>)
        ensures
            r.is_ok(),
            final(self)@ == old(self)@.record_usage(
                spec_usage_record(station_id@, base_url@, token@, now),
            ),
    {
        proof {
            use_type_invariant(&*self);
        }
        let record = UsageRecord {
            station_id: String::from_str(station_id),
            base_url: String::from_str(base_url),
            token: String::from_str(token),
            applied_at: now,
        };
        let mut usage: Vec<UsageRecord> = Vec::new();
        core::mem::swap(&mut self.usage, &mut usage);
        put_usage(&mut usage, record);
        core::mem::swap(&mut self.usage, &mut usage);
        Ok(())
    }

    /// Records that a base URL and a token were applied for a station, at
    /// the time of the call.
    pub fn record_config_usage(&mut self, station_id: &str, base_url: &str, token: &str) -> (r: Result<
        (),
        RelayError,
    >)
        ensures
            r.is_ok(),
            exists|now: i64|
                final(self)@ == old(self)@.record_usage(
                    #[trigger] spec_usage_record(station_id@, base_url@, token@, now),
                ),
    {
        let now = crate::platform::unix_now();
        self.record_config_usage_at(station_id, base_url, token, now)
    }

    /// The usage records as they are shown, last applied first.
    pub fn get_config_usage_status(&self) -> (r: Result<Vec<ConfigUsageStatus>, RelayError>)
        ensures
            r matches Ok(shown) && shown.deep_view() == self@.usage_status(),
    {
        let mut ages: Vec<i64> = Vec::new();
        let mut i: usize = 0;
        while i < self.usage.len()
            invariant
                i <= self.usage@.len(),
                ages@.len() == i,
                forall|j: int| 0 <= j < i ==> #[trigger] ages@[j] == self.usage@[j].applied_at,
            decreases self.usage.len() - i,
        {
            ages.push(self.usage[i].applied_at);
            i = i + 1;
        }
        assert(ages@ =~= spec_usage_ages(self@.usage));
        let order = order_desc(&ages);
        let mut out: Vec<ConfigUsageStatus> = Vec::new();
        let mut k: usize = 0;
        while k < order.len()
            invariant
                k <= order@.len(),
                out@.len() == k,
                order@.len() == ages@.len(),
                ages@.len() == self.usage@.len(),
                forall|a: int| 0 <= a < order@.len() ==> #[trigger] order@[a] < ages@.len(),
                forall|j: int|
                    0 <= j < k ==> (#[trigger] out@[j]).deep_view() == self@.usage_status_of(
                        self.usage@[order@[j] as int].deep_view(),
                    ),
            decreases order.len() - k,
        {
            let record = &self.usage[order[k]];
            let station_name = match station_index(&self.stations, record.station_id.as_str()) {
                Some(s) => self.stations[s].name.clone(),
                None => String::from_str("Unknown"),
            };
            out.push(
                ConfigUsageStatus {
                    station_id: record.station_id.clone(),
                    station_name,
                    base_url: record.base_url.clone(),
                    token: record.token.clone(),
                    is_active: true,
                    applied_at: Some(record.applied_at),
                },
            );
            k = k + 1;
        }
        Ok(out)
    }

    /// The stations, in the order in which they were added.
    pub fn stations(&self) -> (r: Vec<RelayStation>)
        ensures
            r.deep_view() == self@.stations,
    {
        let mut out: Vec<RelayStation> = Vec::new();
        let mut i: usize = 0;
        while i < self.stations.len()
            invariant
                i <= self.stations@.len(),
                out@.len() == i,
                forall|j: int|
                    0 <= j < i ==> (#[trigger] out@[j]).deep_view() == self.stations@[j].deep_view(),
            decreases self.stations.len() - i,
        {
            out.push(self.stations[i].clone_station());
            i = i + 1;
        }
        out
    }

    /// The saved configurations, in the order in which they were saved.
    pub fn station_configs(&self) -> (r: Vec<RelayStationConfig>)
        ensures
            r.deep_view() == self@.configs,
    {
        let mut out: Vec<RelayStationConfig> = Vec::new();
        let mut i: usize = 0;
        while i < self.configs.len()
            invariant
                i <= self.configs@.len(),
                out@.len() == i,
                forall|j: int|
                    0 <= j < i ==> (#[trigger] out@[j]).deep_view() == self.configs@[j].deep_view(),
            decreases self.configs.len() - i,
        {
            out.push(self.configs[i].clone_config());
            i = i + 1;
        }
        out
    }

    /// The usage records, in the order in which they were recorded.
    pub fn usage_records(&self) -> (r: Vec<UsageRecord>)
        ensures
            r.deep_view() == self@.usage,
    {
        let mut out: Vec<UsageRecord> = Vec::new();
        let mut i: usize = 0;
        while i < self.usage.len()
            invariant
                i <= self.usage@.len(),
                out@.len() == i,
                forall|j: int|
                    0 <= j < i ==> (#[trigger] out@[j]).deep_view() == self.usage@[j].deep_view(),
            decreases self.usage.len() - i,
        {
            out.push(self.usage[i].clone_record());
            i = i + 1;
        }
        out
    }
}

// ---------------------------------------------------------------------------
// Export and import
// ---------------------------------------------------------------------------

/// The exported form of the stations that `ids` names, in the order of
/// `ids`; an id that names no station adds nothing.
pub open spec fn spec_selected(stations: Seq<RelayStationV>, ids: Seq<Seq<char>>) -> Seq<StationFields>
    decreases ids.len(),
{
    if ids.len() == 0 {
        Seq::empty()
    } else {
        spec_selected(stations, ids.drop_last()) + (match spec_first(
            stations,
            station_has_id(ids.last()),
        ) {
            Some(s) => seq![s.fields],
            None => Seq::empty(),
        })
    }
}

/// The exported form of a run of stations.
pub open spec fn spec_fields_of(stations: Seq<RelayStationV>) -> Seq<StationFields> {
    Seq::new(stations.len(), |i: int| stations[i].fields)
}

/// What became of one imported station.
pub enum ImportOutcome {
    /// A station of that name exists and is left as it is.
    Skipped,
    /// The station was added, or the one of that name was overwritten.
    Imported,
    /// The id made for the new station is taken.
    Refused,
}

/// A station overwritten by an imported one at time `now`: it keeps its
/// id, its name and its creation time.
pub open spec fn spec_overwritten(s: RelayStationV, item: StationFields, now: i64) -> RelayStationV {
    RelayStationV {
        id: s.id,
        fields: StationFields { name: s.fields.name, ..item },
        created_at: s.created_at,
        updated_at: now,
    }
}

/// The import of one station, `fresh_id` being the id for a new station
/// and `now` the time. The station is matched by name against the first
/// station of that name: where there is one, it is overwritten if
/// `overwrite` and left alone if not; where there is none, the station is
/// added under `fresh_id`.
pub open spec fn spec_import_one(
    stations: Seq<RelayStationV>,
    item: StationFields,
    overwrite: bool,
    fresh_id: Seq<char>,
    now: i64,
) -> (Seq<RelayStationV>, ImportOutcome) {
    match spec_first_index(stations, station_has_name(item.name)) {
        Some(i) => if overwrite {
            (stations.update(i, spec_overwritten(stations[i], item, now)), ImportOutcome::Imported)
        } else {
            (stations, ImportOutcome::Skipped)
        },
        None => if spec_first_index(stations, station_has_id(fresh_id)).is_some() {
            (stations, ImportOutcome::Refused)
        } else {
            (
                stations.push(
                    RelayStationV { id: fresh_id, fields: item, created_at: now, updated_at: now },
                ),
                ImportOutcome::Imported,
            )
        },
    }
}

/// The import of a run of stations, one after the other, the `k`-th with
/// the id `ids[k]` and at the time `times[k]`. The result names the
/// stations that were added or overwritten, in order. The import stops at
/// the first station that is refused; what was imported before it stays.
pub open spec fn spec_import_all(
    stations: Seq<RelayStationV>,
    items: Seq<StationFields>,
    overwrite: bool,
    ids: Seq<Seq<char>>,
    times: Seq<i64>,
) -> (Seq<RelayStationV>, Result<Seq<Seq<char>>, RelayErrorV>)
    decreases items.len(),
{
    if items.len() == 0 {
        (stations, Ok(Seq::empty()))
    } else {
        let k = items.len() - 1;
        let (before, names) = spec_import_all(stations, items.drop_last(), overwrite, ids, times);
        match names {
            Err(e) => (before, Err(e)),
            Ok(done) => {
                let (after, outcome) = spec_import_one(before, items[k], overwrite, ids[k], times[k]);
                match outcome {
                    ImportOutcome::Skipped => (after, Ok(done)),
                    ImportOutcome::Imported => (after, Ok(done.push(items[k].name))),
                    ImportOutcome::Refused => (after, Err(spec_id_taken(ids[k]))),
                }
            },
        }
    }
}

impl StoreV {
    /// What an export holds: the stations that `ids` names, or all
    /// stations, newest first, where no ids are given.
    pub open spec fn exported(self, ids: Option<Seq<Seq<char>>>) -> Seq<StationFields> {
        match ids {
            Some(ids) => spec_selected(self.stations, ids),
            None => spec_fields_of(self.newest_first()),
        }
    }

    /// The store after an import.
    pub open spec fn import_all(
        self,
        items: Seq<StationFields>,
        overwrite: bool,
        ids: Seq<Seq<char>>,
        times: Seq<i64>,
    ) -> StoreV {
        StoreV { stations: spec_import_all(self.stations, items, overwrite, ids, times).0, ..self }
    }
}

/// An import reads of `ids` and `times` only what stands at the places of
/// its items.
pub proof fn lemma_import_reads_prefix(
    stations: Seq<RelayStationV>,
    items: Seq<StationFields>,
    overwrite: bool,
    ids: Seq<Seq<char>>,
    times: Seq<i64>,
    ids2: Seq<Seq<char>>,
    times2: Seq<i64>,
)
    requires
        items.len() <= ids.len(),
        items.len() <= times.len(),
        items.len() <= ids2.len(),
        items.len() <= times2.len(),
        forall|k: int| 0 <= k < items.len() ==> ids[k] == ids2[k] && times[k] == times2[k],
    ensures
        spec_import_all(stations, items, overwrite, ids, times) == spec_import_all(
            stations,
            items,
            overwrite,
            ids2,
            times2,
        ),
    decreases items.len(),
{
    if items.len() > 0 {
        lemma_import_reads_prefix(stations, items.drop_last(), overwrite, ids, times, ids2, times2);
    }
}

/// An import keeps the stations apart.
pub proof fn lemma_import_one_distinct(
    stations: Seq<RelayStationV>,
    item: StationFields,
    overwrite: bool,
    fresh_id: Seq<char>,
    now: i64,
)
    requires
        spec_distinct_stations(stations),
    ensures
        spec_distinct_stations(spec_import_one(stations, item, overwrite, fresh_id, now).0),
{
    lemma_first_index(stations, station_has_name(item.name));
    lemma_first_index(stations, station_has_id(fresh_id));
    assert(spec_import_one(stations, item, overwrite, fresh_id, now).0.len() >= stations.len());
}

fn import_into(
    stations: &mut Vec<RelayStation>,
    item: &crate::station::RelayStationExportItem,
    overwrite: bool,
    fresh_id: String,
    now: i64,
) -> (r: Result<bool, RelayError>)
    requires
        spec_distinct_stations(old(stations).deep_view()),
    ensures
        spec_distinct_stations(final(stations).deep_view()),
        final(stations).deep_view() == spec_import_one(
            old(stations).deep_view(),
            item.deep_view(),
            overwrite,
            fresh_id@,
            now,
        ).0,
        match spec_import_one(old(stations).deep_view(), item.deep_view(), overwrite, fresh_id@, now).1 {
            ImportOutcome::Skipped => r == Ok::<bool, RelayError>(false),
            ImportOutcome::Imported => r == Ok::<bool, RelayError>(true),
            ImportOutcome::Refused => r matches Err(e) && e.deep_view() == spec_id_taken(fresh_id@),
        },
{
    let ghost before = stations.deep_view();
    proof {
        lemma_import_one_distinct(before, item.deep_view(), overwrite, fresh_id@, now);
    }
    match station_index_by_name(stations, item.name.as_str()) {
        Some(i) => {
            if !overwrite {
                return Ok(false);
            }
            let existing = &stations[i];
            let changed = RelayStation {
                id: existing.id.clone(),
                name: existing.name.clone(),
                description: clone_opt_string(&item.description),
                api_url: item.api_url.clone(),
                adapter: item.adapter,
                auth_method: item.auth_method,
                system_token: item.system_token.clone(),
                user_id: clone_opt_string(&item.user_id),
                adapter_config: crate::json::clone_opt_fields(&item.adapter_config),
                enabled: item.enabled,
                created_at: existing.created_at,
                updated_at: now,
            };
            stations.set(i, changed);
            assert(stations.deep_view() =~= before.update(
                i as int,
                spec_overwritten(before[i as int], item.deep_view(), now),
            ));
            Ok(true)
        },
        None => {
            let added = RelayStation {
                id: fresh_id,
                name: item.name.clone(),
                description: clone_opt_string(&item.description),
                api_url: item.api_url.clone(),
                adapter: item.adapter,
                auth_method: item.auth_method,
                system_token: item.system_token.clone(),
                user_id: clone_opt_string(&item.user_id),
                adapter_config: crate::json::clone_opt_fields(&item.adapter_config),
                enabled: item.enabled,
                created_at: now,
                updated_at: now,
            };
            match push_station(stations, added) {
                Ok(()) => Ok(true),
                Err(e) => Err(e),
            }
        },
    }
}

impl RelayStationManager {
    /// A snapshot of the stations that `station_ids` names, or of all
    /// stations where none are named, stamped with the time `now`.
    pub fn export_stations_at(&self, station_ids: Option<&Vec<String>>, now: i64) -> (r: Result<
        crate::station::RelayStationExport,
        RelayError,
    >)
        ensures
            r matches Ok(export) && export.deep_view() == (crate::station::RelayStationExportV {
                version: 1,
                exported_at: now,
                stations: self@.exported(station_ids.deep_view()),
            }),
    {
        let mut items: Vec<crate::station::RelayStationExportItem> = Vec::new();
        match station_ids {
            Some(ids) => {
                let mut i: usize = 0;
                while i < ids.len()
                    invariant
                        i <= ids@.len(),
                        items.deep_view() == spec_selected(
                            self@.stations,
                            ids.deep_view().take(i as int),
                        ),
                    decreases ids.len() - i,
                {
                    let ghost before = items.deep_view();
                    proof {
                        let upto = ids.deep_view().take(i + 1);
                        assert(upto.drop_last() =~= ids.deep_view().take(i as int));
                    }
                    match station_index(&self.stations, ids[i].as_str()) {
                        Some(s) => {
                            items.push(
                                crate::station::RelayStationExportItem::of_station(&self.stations[s]),
                            );
                            assert(items.deep_view() =~= before + seq![
                                self@.stations[s as int].fields,
                            ]);
                        },
                        None => {},
                    }
                    i = i + 1;
                }
                assert(ids.deep_view().take(ids@.len() as int) =~= ids.deep_view());
            },
            None => {
                let listed = match self.list_stations() {
                    Ok(l) => l,
                    Err(e) => {
                        return Err(e);
                    },
                };
                let mut i: usize = 0;
                while i < listed.len()
                    invariant
                        i <= listed@.len(),
                        items@.len() == i,
                        forall|j: int|
                            0 <= j < i ==> (#[trigger] items@[j]).deep_view()
                                == listed@[j].deep_view().fields,
                    decreases listed.len() - i,
                {
                    items.push(crate::station::RelayStationExportItem::of_station(&listed[i]));
                    i = i + 1;
                }
                assert(items.deep_view() =~= spec_fields_of(listed.deep_view()));
            },
        }
        Ok(crate::station::RelayStationExport { version: 1, exported_at: now, stations: items })
    }

    /// A snapshot of stations, stamped with the time of the call.
    pub fn export_stations(&self, station_ids: Option<Vec<String>>) -> (r: Result<
        crate::station::RelayStationExport,
        RelayError,
    >)
        ensures
            r matches Ok(export) && export.version == 1 && export.stations.deep_view() == self@.exported(
                station_ids.deep_view(),
            ),
    {
        let now = crate::platform::unix_now();
        self.export_stations_at(station_ids.as_ref(), now)
    }

    /// Imports one station, given the id for a new station and the time.
    /// `Ok(true)` says that the station was added or overwritten,
    /// `Ok(false)` that it was skipped.
    pub fn import_station_with(
        &mut self,
        item: &crate::station::RelayStationExportItem,
        overwrite_existing: bool,
        fresh_id: String,
        now: i64,
    ) -> (r: Result<bool, RelayError>)
        ensures
            final(self)@ == (StoreV {
                stations: spec_import_one(
                    old(self)@.stations,
                    item.deep_view(),
                    overwrite_existing,
                    fresh_id@,
                    now,
                ).0,
                ..old(self)@
            }),
            match spec_import_one(
                old(self)@.stations,
                item.deep_view(),
                overwrite_existing,
                fresh_id@,
                now,
            ).1 {
                ImportOutcome::Skipped => r == Ok::<bool, RelayError>(false),
                ImportOutcome::Imported => r == Ok::<bool, RelayError>(true),
                ImportOutcome::Refused => r matches Err(e) && e.deep_view() == spec_id_taken(fresh_id@),
            },
    {
        proof {
            use_type_invariant(&*self);
        }
        let mut stations: Vec<RelayStation> = Vec::new();
        core::mem::swap(&mut self.stations, &mut stations);
        let r = import_into(&mut stations, item, overwrite_existing, fresh_id, now);
        core::mem::swap(&mut self.stations, &mut stations);
        r
    }

    /// Imports the stations of a snapshot, each under a fresh id and at the
    /// time at which its turn comes, and names those that were added or
    /// overwritten.
    pub fn import_stations(
        &mut self,
        export_data: &crate::station::RelayStationExport,
        overwrite_existing: bool,
    ) -> (r: Result<Vec<String>, RelayError>)
        ensures
            exists|ids: Seq<Seq<char>>, times: Seq<i64>|
                ids.len() == export_data.stations@.len() && times.len() == export_data.stations@.len()
                    && final(self)@ == old(self)@.import_all(
                    export_data.stations.deep_view(),
                    overwrite_existing,
                    ids,
                    times,
                ) && crate::http::result_view(r) == (#[trigger] spec_import_all(
                    old(self)@.stations,
                    export_data.stations.deep_view(),
                    overwrite_existing,
                    ids,
                    times,
                )).1,
    {
        proof {
            use_type_invariant(&*self);
        }
        let ghost start = self@;
        let ghost items = export_data.stations.deep_view();
        let mut stations: Vec<RelayStation> = Vec::new();
        core::mem::swap(&mut self.stations, &mut stations);
        let mut names: Vec<String> = Vec::new();
        let mut failure: Option<RelayError> = None;
        let ghost mut ids: Seq<Seq<char>> = Seq::empty();
        let ghost mut times: Seq<i64> = Seq::empty();
        let mut i: usize = 0;
        assert(names.deep_view() =~= Seq::<Seq<char>>::empty());
        while i < export_data.stations.len()
            invariant
                i <= export_data.stations@.len(),
                items == export_data.stations.deep_view(),
                ids.len() == i,
                times.len() == i,
                spec_distinct_stations(stations.deep_view()),
                stations.deep_view() == spec_import_all(
                    start.stations,
                    items.take(i as int),
                    overwrite_existing,
                    ids,
                    times,
                ).0,
                (match failure {
                    Some(e) => Err::<Seq<Seq<char>>, RelayErrorV>(e.deep_view()),
                    None => Ok::<Seq<Seq<char>>, RelayErrorV>(names.deep_view()),
                }) == spec_import_all(
                    start.stations,
                    items.take(i as int),
                    overwrite_existing,
                    ids,
                    times,
                ).1,
            decreases export_data.stations.len() - i,
        {
            let fresh = crate::platform::fresh_id();
            let now = crate::platform::unix_now();
            let ghost old_ids = ids;
            let ghost old_times = times;
            let ghost done = names.deep_view();
            proof {
                ids = ids.push(fresh@);
                times = times.push(now);
                let upto = items.take(i + 1);
                assert(upto.drop_last() =~= items.take(i as int));
                lemma_import_reads_prefix(
                    start.stations,
                    items.take(i as int),
                    overwrite_existing,
                    old_ids,
                    old_times,
                    ids,
                    times,
                );
            }
            if failure.is_none() {
                match import_into(&mut stations, &export_data.stations[i], overwrite_existing, fresh, now) {
                    Ok(imported) => {
                        if imported {
                            names.push(export_data.stations[i].name.clone());
                            assert(names.deep_view() =~= done.push(items[i as int].name));
                        }
                    },
                    Err(e) => {
                        failure = Some(e);
                    },
                }
            }
            i = i + 1;
        }
        assert(items.take(export_data.stations@.len() as int) =~= items);
        core::mem::swap(&mut self.stations, &mut stations);
        match failure {
            Some(e) => Err(e),
            None => Ok(names),
        }
    }
}

// ---------------------------------------------------------------------------
// Laws
// ---------------------------------------------------------------------------

/// A station that was added is found under its id, field for field.
pub proof fn law_get_after_add(store: StoreV, station: RelayStationV)
    requires
        store.get(station.id).is_none(),
    ensures
        store.add(station).get(station.id) == Some(station),
{
    let after = store.add(station).stations;
    lemma_first_index(store.stations, station_has_id(station.id));
    lemma_first_index_is(after, station_has_id(station.id), store.stations.len() as int);
}

/// A station made from a request and then added is found with the fields of
/// the request.
pub proof fn law_get_after_create(store: StoreV, fields: StationFields, id: Seq<char>, now: i64)
    requires
        store.get(id).is_none(),
    ensures
        store.add(RelayStationV { id, fields, created_at: now, updated_at: now }).get(id) matches Some(
            found,
        ) && found.fields == fields,
{
    law_get_after_add(store, RelayStationV { id, fields, created_at: now, updated_at: now });
}

/// An update that names no field changes nothing, not even `updated_at`.
pub proof fn law_empty_update(store: StoreV, id: Seq<char>, now: i64)
    ensures
        store.update(id, Seq::empty(), now) == store,
{
}

/// An update that names no field that can be updated changes nothing.
pub proof fn law_unrecognized_update(store: StoreV, id: Seq<char>, updates: Fields, now: i64)
    requires
        !spec_touches(updates),
    ensures
        store.update(id, updates, now) == store,
{
}

/// An update of the name alone changes the name and `updated_at` of the
/// station it is for, and nothing else in the store.
pub proof fn law_update_name(store: StoreV, id: Seq<char>, name: Seq<char>, now: i64)
    requires
        store.wf(),
        store.get(id).is_some(),
    ensures
        ({
            let before = store.get(id).unwrap();
            let after = store.update(id, seq![("name"@, JsonV::Str(name))], now);
            &&& after.get(id) == Some(
                RelayStationV {
                    fields: StationFields { name, ..before.fields },
                    updated_at: now,
                    ..before
                },
            )
            &&& after.stations.len() == store.stations.len()
            &&& forall|j: int|
                0 <= j < store.stations.len() && store.stations[j].id != id
                    ==> #[trigger] after.stations[j] == store.stations[j]
            &&& after.configs == store.configs
            &&& after.usage == store.usage
        }),
{
    let updates: Fields = seq![("name"@, JsonV::Str(name))];
    lemma_single_name_update(name);
    lemma_first_index(store.stations, station_has_id(id));
    let i = spec_first_index(store.stations, station_has_id(id)).unwrap();
    let after = store.update(id, updates, now);
    lemma_first_index_is(after.stations, station_has_id(id), i);
}

/// What an update of the name alone holds.
proof fn lemma_single_name_update(name: Seq<char>)
    ensures
        ({
            let updates: Fields = seq![("name"@, JsonV::Str(name))];
            &&& spec_lookup(updates, "name"@) == Some(JsonV::Str(name))
            &&& spec_lookup(updates, "description"@).is_none()
            &&& spec_lookup(updates, "api_url"@).is_none()
            &&& spec_lookup(updates, "adapter"@).is_none()
            &&& spec_lookup(updates, "auth_method"@).is_none()
            &&& spec_lookup(updates, "system_token"@).is_none()
            &&& spec_lookup(updates, "user_id"@).is_none()
            &&& spec_lookup(updates, "enabled"@).is_none()
        }),
{
    let updates: Fields = seq![("name"@, JsonV::Str(name))];
    reveal_strlit("name");
    reveal_strlit("description");
    reveal_strlit("api_url");
    reveal_strlit("adapter");
    reveal_strlit("auth_method");
    reveal_strlit("system_token");
    reveal_strlit("user_id");
    reveal_strlit("enabled");
    assert(updates[0].0 == "name"@);
    crate::json::lemma_lookup_skip(updates, "name"@, 0);
    crate::json::lemma_lookup_none(updates, "description"@);
    crate::json::lemma_lookup_none(updates, "api_url"@);
    crate::json::lemma_lookup_none(updates, "adapter"@);
    crate::json::lemma_lookup_none(updates, "auth_method"@);
    crate::json::lemma_lookup_none(updates, "system_token"@);
    crate::json::lemma_lookup_none(updates, "user_id"@);
    crate::json::lemma_lookup_none(updates, "enabled"@);
}

/// The stations are listed newest first: each station once and none left
/// out, none before one that was created later, and of two that were
/// created at the same time the one that was added first.
pub proof fn law_newest_first(store: StoreV)
    ensures
        ({
            let listed = store.newest_first();
            let order = spec_order_desc(spec_station_ages(store.stations));
            &&& listed.len() == store.stations.len()
            &&& crate::seqs::is_order_desc(order, spec_station_ages(store.stations), store.stations.len())
            &&& forall|k: int| 0 <= k < listed.len() ==> #[trigger] listed[k] == store.stations[order[k]]
            &&& forall|a: int, b: int|
                0 <= a < b < listed.len() ==> (#[trigger] listed[a]).created_at >= (
                #[trigger] listed[b]).created_at
        }),
{
    let ages = spec_station_ages(store.stations);
    crate::seqs::lemma_order_prefix(ages, ages.len());
    assert(store.newest_first().len() == store.stations.len());
}

/// The names of a run of stations.
pub open spec fn spec_names(stations: Seq<RelayStationV>) -> Seq<Seq<char>> {
    Seq::new(stations.len(), |i: int| stations[i].fields.name)
}

/// The ids of a run of stations.
pub open spec fn spec_ids(stations: Seq<RelayStationV>) -> Seq<Seq<char>> {
    Seq::new(stations.len(), |i: int| stations[i].id)
}

/// An import that overwrites, of stations whose names are all in the store,
/// adds no station and changes no id and no name, and names every station
/// it was given.
pub proof fn lemma_import_known_names(
    stations: Seq<RelayStationV>,
    items: Seq<StationFields>,
    ids: Seq<Seq<char>>,
    times: Seq<i64>,
)
    requires
        forall|k: int|
            0 <= k < items.len() ==> exists|i: int|
                0 <= i < stations.len() && stations[i].fields.name == (#[trigger] items[k]).name,
    ensures
        ({
            let (after, result) = spec_import_all(stations, items, true, ids, times);
            &&& spec_names(after) == spec_names(stations)
            &&& spec_ids(after) == spec_ids(stations)
            &&& result == Ok::<Seq<Seq<char>>, RelayErrorV>(Seq::new(items.len(), |k: int| items[k].name))
        }),
    decreases items.len(),
{
    if items.len() == 0 {
        assert(Seq::new(items.len(), |k: int| items[k].name) =~= Seq::<Seq<char>>::empty());
    } else {
        let k = items.len() - 1;
        let front = items.drop_last();
        lemma_import_known_names(stations, front, ids, times);
        let (before, names) = spec_import_all(stations, front, true, ids, times);
        let w = choose|i: int| 0 <= i < stations.len() && stations[i].fields.name == items[k].name;
        assert(spec_names(before)[w] == spec_names(stations)[w]);
        assert(before.len() == spec_names(before).len());
        lemma_first_index(before, station_has_name(items[k].name));
        let (after, outcome) = spec_import_one(before, items[k], true, ids[k], times[k]);
        assert(names->Ok_0.push(items[k].name) =~= Seq::new(items.len(), |j: int| items[j].name)) by {}
    }
}

/// Importing what was exported, with overwriting, brings back the same
/// stations by id and name: none is added, none is lost, and every exported
/// station is named in the result.
pub proof fn law_import_of_export(store: StoreV, ids: Seq<Seq<char>>, times: Seq<i64>)
    ensures
        ({
            let items = store.exported(None);
            let (after, result) = spec_import_all(store.stations, items, true, ids, times);
            &&& spec_names(after) == spec_names(store.stations)
            &&& spec_ids(after) == spec_ids(store.stations)
            &&& after.len() == store.stations.len()
            &&& result == Ok::<Seq<Seq<char>>, RelayErrorV>(Seq::new(items.len(), |k: int| items[k].name))
        }),
{
    let items = store.exported(None);
    law_newest_first(store);
    lemma_import_known_names(store.stations, items, ids, times);
    let after = spec_import_all(store.stations, items, true, ids, times).0;
    assert(spec_names(after).len() == after.len());
}

/// An import that does not overwrite leaves every station that was there
/// as it was, whatever is imported.
pub proof fn law_import_keeps_existing(
    stations: Seq<RelayStationV>,
    items: Seq<StationFields>,
    ids: Seq<Seq<char>>,
    times: Seq<i64>,
)
    ensures
        ({
            let after = spec_import_all(stations, items, false, ids, times).0;
            &&& after.len() >= stations.len()
            &&& forall|i: int| 0 <= i < stations.len() ==> #[trigger] after[i] == stations[i]
        }),
    decreases items.len(),
{
    if items.len() > 0 {
        law_import_keeps_existing(stations, items.drop_last(), ids, times);
    }
}

} // verus!

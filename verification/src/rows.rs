//! Stations as the rows of a table: every column a text or a number. This
//! is the form in which the store is written to disk and read back.
use crate::http::{result_view, RelayError, RelayErrorV};
use crate::json::{
    clone_fields, lemma_object_view, parse, spec_parse, spec_text, to_text, Fields, Json, JsonV,
};
use crate::station::{AuthMethod, RelayStation, RelayStationAdapter, RelayStationV, StationFields};
use crate::text::clone_opt_string;
use vstd::prelude::*;

verus! {

/// A station as a row.
#[derive(Debug, Clone, PartialEq, Eq)]
pub struct StationRow {
    pub id: String,
    pub name: String,
    pub description: Option<String>,
    pub api_url: String,
    pub adapter: String,
    pub auth_method: String,
    pub system_token: String,
    pub user_id: Option<String>,
    /// The adapter configuration as the text of a JSON object.
    pub adapter_config: Option<String>,
    /// 0 for a disabled station, anything else for an enabled one.
    pub enabled: i32,
    pub created_at: i64,
    pub updated_at: i64,
}

pub struct StationRowV {
    pub id: Seq<char>,
    pub name: Seq<char>,
    pub description: Option<Seq<char>>,
    pub api_url: Seq<char>,
    pub adapter: Seq<char>,
    pub auth_method: Seq<char>,
    pub system_token: Seq<char>,
    pub user_id: Option<Seq<char>>,
    pub adapter_config: Option<Seq<char>>,
    pub enabled: i32,
    pub created_at: i64,
    pub updated_at: i64,
}

impl DeepView for StationRow {
    type V = StationRowV;

    open spec fn deep_view(&self) -> StationRowV {
        StationRowV {
            id: self.id@,
            name: self.name@,
            description: self.description.deep_view(),
            api_url: self.api_url@,
            adapter: self.adapter@,
            auth_method: self.auth_method@,
            system_token: self.system_token@,
            user_id: self.user_id.deep_view(),
            adapter_config: self.adapter_config.deep_view(),
            enabled: self.enabled,
            created_at: self.created_at,
            updated_at: self.updated_at,
        }
    }
}

/// The fields that a column of JSON text holds, `parsed` being what the
/// text reads as: the members of the object, none where the column is
/// empty or its text is no object.
pub open spec fn spec_fields_given(text: Option<Seq<char>>, parsed: Option<JsonV>) -> Option<Fields> {
    match text {
        Some(t) => match parsed {
            Some(JsonV::Object(f)) => Some(f),
            _ => None,
        },
        None => None,
    }
}

/// The fields that a column of JSON text holds.
pub open spec fn spec_fields_of_text(text: Option<Seq<char>>) -> Option<Fields> {
    spec_fields_given(
        text,
        match text {
            Some(t) => spec_parse(t),
            None => None,
        },
    )
}

pub fn fields_given(text: &Option<String>, parsed: Option<Json>) -> (r: Option<Vec<(String, Json)>>)
    ensures
        r.deep_view() == spec_fields_given(text.deep_view(), parsed.deep_view()),
{
    match text {
        Some(t) => match parsed {
            Some(Json::Object(f)) => {
                proof {
                    lemma_object_view(f);
                }
                Some(f)
            },
            _ => None,
        },
        None => None,
    }
}

pub fn fields_of_text(text: &Option<String>) -> (r: Option<Vec<(String, Json)>>)
    ensures
        r.deep_view() == spec_fields_of_text(text.deep_view()),
{
    let parsed = match text {
        Some(t) => parse(t.as_str()),
        None => None,
    };
    fields_given(text, parsed)
}

/// The station that a row holds. An adapter or an authentication method
/// under an unknown name is read as the default one.
pub open spec fn spec_station_of_row(row: StationRowV) -> RelayStationV {
    RelayStationV {
        id: row.id,
        fields: StationFields {
            name: row.name,
            description: row.description,
            api_url: row.api_url,
            adapter: RelayStationAdapter::spec_from_name(row.adapter),
            auth_method: AuthMethod::spec_from_name(row.auth_method),
            system_token: row.system_token,
            user_id: row.user_id,
            adapter_config: spec_fields_of_text(row.adapter_config),
            enabled: row.enabled != 0,
        },
        created_at: row.created_at,
        updated_at: row.updated_at,
    }
}

pub fn station_from_row(row: &StationRow) -> (r: RelayStation)
    ensures
        r.deep_view() == spec_station_of_row(row.deep_view()),
{
    RelayStation {
        id: row.id.clone(),
        name: row.name.clone(),
        description: clone_opt_string(&row.description),
        api_url: row.api_url.clone(),
        adapter: RelayStationAdapter::from_name(row.adapter.as_str()),
        auth_method: AuthMethod::from_name(row.auth_method.as_str()),
        system_token: row.system_token.clone(),
        user_id: clone_opt_string(&row.user_id),
        adapter_config: fields_of_text(&row.adapter_config),
        enabled: row.enabled != 0,
        created_at: row.created_at,
        updated_at: row.updated_at,
    }
}

/// The failure to print a column of JSON text.
pub open spec fn spec_unprintable() -> RelayErrorV {
    RelayErrorV::Storage("adapter configuration cannot be written as JSON"@)
}

/// The text of a column of JSON, `printed` being what the object of the
/// fields prints as: outer `None` where there are fields and they cannot
/// be printed.
pub open spec fn spec_text_given(fields: Option<Fields>, printed: Option<Seq<char>>) -> Option<
    Option<Seq<char>>,
> {
    match fields {
        None => Some(None),
        Some(f) => match printed {
            Some(t) => Some(Some(t)),
            None => None,
        },
    }
}

/// The text of a column of JSON.
pub open spec fn spec_text_of_fields(fields: Option<Fields>) -> Option<Option<Seq<char>>> {
    spec_text_given(
        fields,
        match fields {
            Some(f) => spec_text(JsonV::Object(f)),
            None => None,
        },
    )
}

pub fn text_of_fields(fields: &Option<Vec<(String, Json)>>) -> (r: Option<Option<String>>)
    ensures
        r.deep_view() == spec_text_of_fields(fields.deep_view()),
{
    match fields {
        None => Some(None),
        Some(f) => {
            let copy = clone_fields(f);
            proof {
                lemma_object_view(copy);
            }
            match to_text(&Json::Object(copy)) {
                Some(t) => Some(Some(t)),
                None => None,
            }
        },
    }
}

/// The row that holds a station.
pub open spec fn spec_row_of_station(station: RelayStationV) -> Result<StationRowV, RelayErrorV> {
    match spec_text_of_fields(station.fields.adapter_config) {
        None => Err(spec_unprintable()),
        Some(adapter_config) => Ok(
            StationRowV {
                id: station.id,
                name: station.fields.name,
                description: station.fields.description,
                api_url: station.fields.api_url,
                adapter: station.fields.adapter.spec_name(),
                auth_method: station.fields.auth_method.spec_name(),
                system_token: station.fields.system_token,
                user_id: station.fields.user_id,
                adapter_config,
                enabled: if station.fields.enabled {
                    1
                } else {
                    0
                },
                created_at: station.created_at,
                updated_at: station.updated_at,
            },
        ),
    }
}

pub fn row_of_station(station: &RelayStation) -> (r: Result<StationRow, RelayError>)
    ensures
        result_view(r) == spec_row_of_station(station.deep_view()),
{
    let adapter_config = match text_of_fields(&station.adapter_config) {
        Some(t) => t,
        None => {
            return Err(
                RelayError::Storage(
                    String::from_str("adapter configuration cannot be written as JSON"),
                ),
            );
        },
    };
    Ok(
        StationRow {
            id: station.id.clone(),
            name: station.name.clone(),
            description: clone_opt_string(&station.description),
            api_url: station.api_url.clone(),
            adapter: String::from_str(station.adapter.name()),
            auth_method: String::from_str(station.auth_method.name()),
            system_token: station.system_token.clone(),
            user_id: clone_opt_string(&station.user_id),
            adapter_config,
            enabled: if station.enabled {
                1
            } else {
                0
            },
            created_at: station.created_at,
            updated_at: station.updated_at,
        },
    )
}

/// A row read back gives the adapter and the authentication method that
/// it was written with, and whether the station is enabled.
pub proof fn law_row_keeps_kinds(station: RelayStationV)
    requires
        spec_row_of_station(station).is_ok(),
    ensures
        ({
            let back = spec_station_of_row(spec_row_of_station(station)->Ok_0);
            &&& back.id == station.id
            &&& back.fields.adapter == station.fields.adapter
            &&& back.fields.auth_method == station.fields.auth_method
            &&& back.fields.enabled == station.fields.enabled
            &&& back.fields.name == station.fields.name
            &&& back.fields.system_token == station.fields.system_token
            &&& back.created_at == station.created_at
            &&& back.updated_at == station.updated_at
        }),
{
    station.fields.adapter.lemma_name_round_trip();
    station.fields.auth_method.lemma_name_round_trip();
}

} // verus!

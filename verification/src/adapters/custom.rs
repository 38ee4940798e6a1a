//! The adapter for configurations that are a URL and a key, with no
//! management API behind them. It sends nothing.
use crate::http::{RelayError, RelayErrorV};
use crate::json::{Json, JsonV};
use crate::station::{
    ConnectionTestResult, ConnectionTestResultV, RelayStation, RelayStationV, StationInfo,
    StationInfoV,
};
use vstd::prelude::*;

verus! {

/// The minimal adapter.
#[derive(Debug, Clone, Copy, PartialEq, Eq, Structural)]
pub struct CustomAdapter;

impl CustomAdapter {
    /// What is known of such a station: its own name and address.
    pub open spec fn spec_station_info(station: RelayStationV) -> StationInfoV {
        StationInfoV {
            name: station.fields.name,
            announcement: None,
            api_url: station.fields.api_url,
            version: Some("Custom"@),
            metadata: Some(
                seq![
                    ("adapter_type"@, JsonV::Str("custom"@)),
                    (
                        "note"@,
                        JsonV::Str(
                            "This is a custom configuration that only provides URL and API key."@,
                        ),
                    ),
                ],
            ),
            quota_per_unit: None,
        }
    }

    pub fn get_station_info(station: &RelayStation) -> (r: StationInfo)
        ensures
            r.deep_view() == Self::spec_station_info(station.deep_view()),
    {
        let mut metadata: Vec<(String, Json)> = Vec::new();
        metadata.push((String::from_str("adapter_type"), Json::string("custom")));
        metadata.push(
            (
                String::from_str("note"),
                Json::string("This is a custom configuration that only provides URL and API key."),
            ),
        );
        assert(metadata.deep_view() =~= Self::spec_station_info(station.deep_view()).metadata->0);
        StationInfo {
            name: station.name.clone(),
            announcement: None,
            api_url: station.api_url.clone(),
            version: Some(String::from_str("Custom")),
            metadata: Some(metadata),
            quota_per_unit: None,
        }
    }

    /// A connection test of such a station: there is nothing to test.
    pub open spec fn spec_test_connection() -> ConnectionTestResultV {
        ConnectionTestResultV {
            success: true,
            response_time: None,
            message: "Custom configuration - connection testing not applicable"@,
            status_code: None,
            details: None,
        }
    }

    pub fn test_connection() -> (r: ConnectionTestResult)
        ensures
            r.deep_view() == Self::spec_test_connection(),
    {
        ConnectionTestResult {
            success: true,
            response_time: None,
            message: String::from_str("Custom configuration - connection testing not applicable"),
            status_code: None,
            details: None,
        }
    }

    /// The failure of an operation that has no backend: `what` names what
    /// was asked for.
    pub open spec fn spec_unavailable(what: Seq<char>) -> RelayErrorV {
        RelayErrorV::Unsupported(what + " not available for custom configurations"@)
    }

    pub fn unavailable(what: &str) -> (r: RelayError)
        ensures
            r.deep_view() == Self::spec_unavailable(what@),
    {
        RelayError::Unsupported(crate::http::concat(what, " not available for custom configurations"))
    }
}

} // verus!

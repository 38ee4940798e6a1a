use relay_stations::adapters::{AdapterCall, AdapterOutput};
use relay_stations::http::{HttpReply, RelayError};
use relay_stations::json::{parse, Json};
use relay_stations::rows::{fields_of_text, row_of_station, station_from_row, text_of_fields, StationRow};
use relay_stations::service::{
    config_of, endpoint_from_json, failure, finish_call, finish_call_at, load_station_api_endpoints,
    ServiceStep, StationService,
};
use relay_stations::sessions::{
    after_force_stop, after_stop, begin_sweep, SessionInfo, StopOutcome, SweepAction,
};
use relay_stations::station::{
    ApiEndpoint, AuthMethod, CreateRelayStationRequest, RelayStation, RelayStationAdapter,
    RelayStationExport, SaveStationConfigRequest, StationInfo,
};

fn service_request(name: &str, adapter: RelayStationAdapter) -> CreateRelayStationRequest {
    CreateRelayStationRequest {
        name: name.to_string(),
        description: None,
        api_url: "https://svc.example".to_string(),
        adapter,
        auth_method: AuthMethod::BearerToken,
        system_token: "sys".to_string(),
        user_id: None,
        adapter_config: None,
        enabled: true,
    }
}

fn service_reply(status: u16, text: &str, body: &str) -> HttpReply {
    HttpReply::Response { status, status_text: text.to_string(), body: body.to_string(), elapsed_ms: 3 }
}

fn service_sessions() -> Vec<SessionInfo> {
    vec![
        SessionInfo { id: 10, pid: 100, kind: "session".to_string() },
        SessionInfo { id: 11, pid: 101, kind: "session".to_string() },
    ]
}

#[test]
fn a_service_without_a_store_says_so() {
    let mut service = StationService::uninitialized();
    assert_eq!(service.list_relay_stations(), Ok(Vec::new()));
    assert_eq!(service.get_relay_station("a"), Ok(None));
    let missing = Err("relay.manager_not_initialized".to_string());
    assert_eq!(service.add_relay_station(service_request("n", RelayStationAdapter::Newapi)), missing);
    assert_eq!(service.update_relay_station("a", &Vec::new()), missing);
    assert_eq!(service.delete_relay_station("a"), missing);
    assert_eq!(service.get_station_config("a"), Err("relay.manager_not_initialized".to_string()));
    assert_eq!(service.get_config_usage_status(), Err("relay.manager_not_initialized".to_string()));
    assert_eq!(service.record_config_usage("a", "u", "t"), missing);
    assert_eq!(service.export_relay_stations(None), Err("relay.manager_not_initialized".to_string()));
    let export = RelayStationExport { version: 1, exported_at: 0, stations: Vec::new() };
    assert_eq!(service.import_relay_stations(&export, true), Err("relay.manager_not_initialized".to_string()));
    assert_eq!(
        service.begin_call("a", &AdapterCall::GetStationInfo),
        ServiceStep::Done(Err("relay.manager_not_initialized".to_string()))
    );
    match service.begin_call("a", &AdapterCall::ListTokens { page: Some(4), size: Some(2) }) {
        ServiceStep::Done(Ok(AdapterOutput::Tokens(page))) => {
            assert_eq!(page.items.len(), 0);
            assert_eq!((page.page, page.page_size, page.total), (1, 10, 0));
        }
        other => panic!("unexpected {:?}", other),
    }
}

#[test]
fn stations_are_created_changed_and_deleted() {
    let mut service = StationService::new();
    assert_eq!(
        service.add_relay_station_with(service_request("One", RelayStationAdapter::Newapi), "id-1".to_string(), 5),
        Ok("relay.station_add_success".to_string())
    );
    assert_eq!(
        service.add_relay_station_with(service_request("Two", RelayStationAdapter::Newapi), "id-1".to_string(), 6),
        Err("relay.failed_to_add_station: station id already exists: id-1".to_string())
    );
    assert_eq!(service.add_relay_station(service_request("Three", RelayStationAdapter::Custom)), Ok("relay.station_add_success".to_string()));
    let listed = service.list_relay_stations().unwrap();
    assert_eq!(listed.len(), 2);
    assert_eq!(listed[0].name, "Three");
    assert_eq!(listed[0].id.len(), 36);
    let found = service.get_relay_station("id-1").unwrap().unwrap();
    assert_eq!(found.name, "One");
    assert_eq!((found.created_at, found.updated_at), (5, 5));
    let updates = vec![("name".to_string(), Json::Str("Uno".to_string()))];
    assert_eq!(service.update_relay_station("id-1", &updates), Ok("relay.station_update_success".to_string()));
    assert_eq!(service.get_relay_station("id-1").unwrap().unwrap().name, "Uno");
    assert_eq!(service.delete_relay_station("id-1"), Ok("relay.station_delete_success".to_string()));
    assert_eq!(service.get_relay_station("id-1"), Ok(None));
}

#[test]
fn a_call_to_a_missing_station_is_not_found() {
    let service = StationService::new();
    assert_eq!(
        service.begin_call_at("nope", &AdapterCall::GetUserGroups, 1),
        ServiceStep::Done(Err("relay.station_not_found".to_string()))
    );
    assert_eq!(
        service.begin_call_at("nope", &AdapterCall::ListTokens { page: None, size: None }, 1),
        ServiceStep::Done(Err("relay.station_not_found".to_string()))
    );
}

#[test]
fn a_call_begins_with_the_adapter_of_the_station() {
    let mut service = StationService::new();
    service.add_relay_station_with(service_request("S", RelayStationAdapter::Yourapi), "s".to_string(), 5).unwrap();
    service.add_relay_station_with(service_request("C", RelayStationAdapter::Custom), "c".to_string(), 6).unwrap();
    let list = AdapterCall::ListTokens { page: None, size: None };
    match service.begin_call_at("s", &list, 9) {
        ServiceStep::Send { station, request } => {
            assert_eq!(station.id, "s");
            assert_eq!(request.url, "https://svc.example/api/token/?p=0&size=11");
            let reply = service_reply(200, "200 OK", r#"{"data":[{"id":1}]}"#);
            match finish_call_at(&station, &list, &reply, 9) {
                Ok(AdapterOutput::Tokens(page)) => assert_eq!(page.total, 1),
                other => panic!("unexpected {:?}", other),
            }
            let gone = service_reply(500, "500 Internal Server Error", "");
            assert_eq!(
                finish_call(&station, &list, &gone),
                Err("relay.failed_to_list_tokens: Failed to list tokens: 500 Internal Server Error".to_string())
            );
        }
        other => panic!("unexpected {:?}", other),
    }
    assert_eq!(
        service.begin_call_at("c", &list, 9),
        ServiceStep::Done(Err(
            "relay.failed_to_list_tokens: Token management not available for custom configurations".to_string()
        ))
    );
    assert_eq!(
        service.begin_call_at("s", &AdapterCall::ToggleToken { token_id: "x".to_string(), enabled: true }, 9),
        ServiceStep::Done(Err("relay.failed_to_toggle_token: Invalid token ID: x".to_string()))
    );
    match service.begin_call_at("c", &AdapterCall::TestConnection, 9) {
        ServiceStep::Done(Ok(AdapterOutput::Connection(result))) => assert!(result.success),
        other => panic!("unexpected {:?}", other),
    }
}

#[test]
fn failures_keep_their_cause() {
    assert_eq!(failure("relay.x", &RelayError::Storage("disk full".to_string())), "relay.x: disk full");
    assert_eq!(RelayError::NotFound("n".to_string()).message(), "n");
    assert_eq!(RelayError::Conflict("c".to_string()).message(), "c");
    assert_eq!(RelayError::Validation("v".to_string()).message(), "v");
    assert_eq!(RelayError::Upstream("u".to_string()).message(), "u");
    assert_eq!(RelayError::Unsupported("s".to_string()).message(), "s");
}

#[test]
fn configurations_are_saved_for_stations_that_exist() {
    let mut service = StationService::new();
    service.add_relay_station_with(service_request("S", RelayStationAdapter::Newapi), "s".to_string(), 5).unwrap();
    let request = SaveStationConfigRequest {
        station_id: "s".to_string(),
        api_endpoint: "https://e".to_string(),
        custom_endpoint: Some("https://c".to_string()),
        path: None,
        model: Some("m".to_string()),
    };
    assert_eq!(service.save_station_config_at(request.clone(), 44), Ok("relay.config_save_success".to_string()));
    let saved = service.get_station_config("s").unwrap().unwrap();
    assert_eq!(saved.station_name, "S");
    assert_eq!(saved.api_endpoint, "https://e");
    assert_eq!(saved.custom_endpoint.as_deref(), Some("https://c"));
    assert_eq!(saved.model.as_deref(), Some("m"));
    assert_eq!(saved.saved_settings, None);
    assert_eq!((saved.created_at, saved.updated_at), (44, 44));
    let mut other = request.clone();
    other.station_id = "missing".to_string();
    assert_eq!(service.save_station_config(other), Err("relay.station_not_found".to_string()));
    assert_eq!(service.save_station_config(request), Ok("relay.config_save_success".to_string()));
    assert_eq!(service.get_station_config("missing"), Ok(None));
}

#[test]
fn usage_export_and_import_go_through_the_service() {
    let mut service = StationService::new();
    service.add_relay_station_with(service_request("S", RelayStationAdapter::Newapi), "s".to_string(), 5).unwrap();
    assert_eq!(service.record_config_usage("s", "u", "t"), Ok("relay.usage_record_updated".to_string()));
    let shown = service.get_config_usage_status().unwrap();
    assert_eq!(shown.len(), 1);
    assert_eq!(shown[0].station_name, "S");
    let export = service.export_relay_stations(None).unwrap();
    assert_eq!(export.stations.len(), 1);
    assert_eq!(service.import_relay_stations(&export, false), Ok(Vec::new()));
    assert_eq!(service.import_relay_stations(&export, true), Ok(vec!["S".to_string()]));
    let chosen = service.export_relay_stations(Some(vec!["s".to_string()])).unwrap();
    assert_eq!(chosen.stations.len(), 1);
}

#[test]
fn endpoints_come_from_the_answer_or_default_to_the_station() {
    let station = RelayStation::from_request(service_request("S", RelayStationAdapter::Newapi), "s".to_string(), 1);
    let default = vec![ApiEndpoint {
        id: 0,
        route: "relay.default_endpoint".to_string(),
        url: "https://svc.example".to_string(),
        description: "relay.current_configured_endpoint".to_string(),
        color: "blue".to_string(),
    }];
    assert_eq!(load_station_api_endpoints(&station, None), default);
    let info = |metadata: Option<Vec<(String, Json)>>| StationInfo {
        name: "n".to_string(),
        announcement: None,
        api_url: "u".to_string(),
        version: None,
        metadata,
        quota_per_unit: None,
    };
    assert_eq!(load_station_api_endpoints(&station, Some(&info(None))), default);
    let list = r#"[{"id":1,"route":"r","url":"https://one","description":"d","color":"red"}]"#;
    let one = vec![ApiEndpoint {
        id: 1,
        route: "r".to_string(),
        url: "https://one".to_string(),
        description: "d".to_string(),
        color: "red".to_string(),
    }];
    let nested = info(Some(vec![(
        "response".to_string(),
        parse(&format!("{{\"api_info\":{}}}", list)).unwrap(),
    )]));
    assert_eq!(load_station_api_endpoints(&station, Some(&nested)), one);
    let direct = info(Some(vec![
        ("response".to_string(), parse(r#"{"api_info":[{"id":"bad"}]}"#).unwrap()),
        ("api_info".to_string(), parse(list).unwrap()),
    ]));
    assert_eq!(load_station_api_endpoints(&station, Some(&direct)), one);
    let broken = info(Some(vec![("api_info".to_string(), parse(r#"{"id":1}"#).unwrap())]));
    assert_eq!(load_station_api_endpoints(&station, Some(&broken)), default);
    assert_eq!(
        endpoint_from_json(&parse(r#"{"id":2147483648,"route":"r","url":"u","description":"d","color":"c"}"#).unwrap()),
        None
    );
    assert_eq!(
        endpoint_from_json(&parse(r#"{"id":-2147483648,"route":"r","url":"u","description":"d","color":"c"}"#).unwrap())
            .map(|e| e.id),
        Some(i32::MIN)
    );
}

#[test]
fn config_of_takes_the_name_from_the_station() {
    let station = RelayStation::from_request(service_request("S", RelayStationAdapter::Newapi), "s".to_string(), 1);
    let request = SaveStationConfigRequest {
        station_id: "s".to_string(),
        api_endpoint: "e".to_string(),
        custom_endpoint: None,
        path: Some("/p".to_string()),
        model: None,
    };
    let config = config_of(request, &station, 8);
    assert_eq!(config.station_id, "s");
    assert_eq!(config.station_name, "S");
    assert_eq!(config.path.as_deref(), Some("/p"));
    assert_eq!(config.created_at, 8);
}

#[test]
fn every_session_has_its_turn() {
    let sessions = service_sessions();
    assert_eq!(begin_sweep(&sessions), SweepAction::Stop { index: 0, id: 10 });
    assert_eq!(after_stop(&sessions, 0, &StopOutcome::Stopped), SweepAction::Stop { index: 1, id: 11 });
    assert_eq!(
        after_stop(&sessions, 0, &StopOutcome::NotStopped),
        SweepAction::ForceStop { index: 0, id: 10, pid: 100 }
    );
    assert_eq!(
        after_stop(&sessions, 1, &StopOutcome::Failed("gone".to_string())),
        SweepAction::ForceStop { index: 1, id: 11, pid: 101 }
    );
    assert_eq!(after_force_stop(&sessions, 0, false), SweepAction::Stop { index: 1, id: 11 });
    assert_eq!(after_force_stop(&sessions, 0, true), SweepAction::Stop { index: 1, id: 11 });
    assert_eq!(after_force_stop(&sessions, 1, false), SweepAction::Finished);
    assert_eq!(after_stop(&sessions, 1, &StopOutcome::Stopped), SweepAction::Finished);
    assert_eq!(begin_sweep(&Vec::new()), SweepAction::Finished);
}

#[test]
fn a_sweep_in_which_everything_fails_still_ends() {
    let sessions = service_sessions();
    let mut asked = Vec::new();
    let mut action = begin_sweep(&sessions);
    loop {
        asked.push(action);
        action = match action {
            SweepAction::Stop { index, .. } => after_stop(&sessions, index, &StopOutcome::Failed("x".to_string())),
            SweepAction::ForceStop { index, .. } => after_force_stop(&sessions, index, false),
            SweepAction::Finished => break,
        };
    }
    assert_eq!(
        asked,
        vec![
            SweepAction::Stop { index: 0, id: 10 },
            SweepAction::ForceStop { index: 0, id: 10, pid: 100 },
            SweepAction::Stop { index: 1, id: 11 },
            SweepAction::ForceStop { index: 1, id: 11, pid: 101 },
            SweepAction::Finished,
        ]
    );
}

#[test]
fn rows_hold_stations() {
    let row = StationRow {
        id: "r".to_string(),
        name: "Row".to_string(),
        description: Some("d".to_string()),
        api_url: "u".to_string(),
        adapter: "yourapi".to_string(),
        auth_method: "api_key".to_string(),
        system_token: "t".to_string(),
        user_id: None,
        adapter_config: Some(r#"{"a":[1,2]}"#.to_string()),
        enabled: 3,
        created_at: 1,
        updated_at: 2,
    };
    let station = station_from_row(&row);
    assert_eq!(station.adapter, RelayStationAdapter::Yourapi);
    assert_eq!(station.auth_method, AuthMethod::ApiKey);
    assert!(station.enabled);
    assert_eq!(station.adapter_config, Some(vec![("a".to_string(), parse("[1,2]").unwrap())]));
    let back = row_of_station(&station).unwrap();
    assert_eq!(back, StationRow { enabled: 1, ..row.clone() });
    let legacy = StationRow { adapter: "legacy".to_string(), auth_method: "?".to_string(), enabled: 0, adapter_config: Some("[1]".to_string()), ..row };
    let read = station_from_row(&legacy);
    assert_eq!(read.adapter, RelayStationAdapter::Newapi);
    assert_eq!(read.auth_method, AuthMethod::BearerToken);
    assert!(!read.enabled);
    assert_eq!(read.adapter_config, None);
    assert_eq!(row_of_station(&read).unwrap().adapter, "newapi");
    assert_eq!(row_of_station(&read).unwrap().adapter_config, None);
}

#[test]
fn columns_of_json_text() {
    assert_eq!(fields_of_text(&None), None);
    assert_eq!(fields_of_text(&Some("not json".to_string())), None);
    assert_eq!(fields_of_text(&Some("{}".to_string())), Some(Vec::new()));
    assert_eq!(text_of_fields(&None), Some(None));
    assert_eq!(
        text_of_fields(&Some(vec![("k".to_string(), Json::Bool(true))])),
        Some(Some(r#"{"k":true}"#.to_string()))
    );
    assert_eq!(text_of_fields(&Some(vec![("k".to_string(), Json::Number("x".to_string()))])), None);
    let mut station = RelayStation::from_request(service_request("S", RelayStationAdapter::Oneapi), "s".to_string(), 1);
    station.adapter_config = Some(vec![("k".to_string(), Json::Number("x".to_string()))]);
    assert_eq!(
        row_of_station(&station),
        Err(RelayError::Storage("adapter configuration cannot be written as JSON".to_string()))
    );
    assert_eq!(RelayStationAdapter::Oneapi.name(), "oneapi");
    assert_eq!(RelayStationAdapter::from_name("oneapi"), RelayStationAdapter::Oneapi);
    assert_eq!(AuthMethod::Custom.name(), "custom");
    assert_eq!(AuthMethod::from_name("custom"), AuthMethod::Custom);
}

#[test]
fn a_station_is_always_added_to_a_store_without_stations() {
    let mut service = StationService::new();
    assert_eq!(
        service.add_relay_station(service_request("First", RelayStationAdapter::Newapi)),
        Ok("relay.station_add_success".to_string())
    );
    let listed = service.list_relay_stations().unwrap();
    assert_eq!(listed.len(), 1);
    assert_eq!(listed[0].name, "First");
    assert_eq!(listed[0].api_url, "https://svc.example");
    assert_eq!(listed[0].created_at, listed[0].updated_at);
    assert_eq!(service.get_relay_station(&listed[0].id).unwrap().unwrap().name, "First");
}

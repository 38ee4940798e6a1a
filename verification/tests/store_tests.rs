use relay_stations::http::RelayError;
use relay_stations::json::{parse, Json};
use relay_stations::station::{
    AuthMethod, CreateRelayStationRequest, RelayStation, RelayStationAdapter, RelayStationConfig,
    RelayStationExport, RelayStationExportItem,
};
use relay_stations::store::{apply_update, touches, RelayStationManager};

fn store_station(id: &str, name: &str, created_at: i64) -> RelayStation {
    RelayStation {
        id: id.to_string(),
        name: name.to_string(),
        description: Some("d".to_string()),
        api_url: format!("https://{}.example", id),
        adapter: RelayStationAdapter::Yourapi,
        auth_method: AuthMethod::ApiKey,
        system_token: format!("token-{}", id),
        user_id: Some("7".to_string()),
        adapter_config: Some(vec![("k".to_string(), Json::Int(1))]),
        enabled: true,
        created_at,
        updated_at: created_at,
    }
}

fn store_updates(text: &str) -> Vec<(String, Json)> {
    match parse(text).unwrap() {
        Json::Object(fields) => fields,
        _ => panic!("an object is needed"),
    }
}

fn store_item(name: &str, token: &str) -> RelayStationExportItem {
    RelayStationExportItem {
        name: name.to_string(),
        description: None,
        api_url: "https://imported.example".to_string(),
        adapter: RelayStationAdapter::Newapi,
        auth_method: AuthMethod::BearerToken,
        system_token: token.to_string(),
        user_id: None,
        adapter_config: None,
        enabled: false,
    }
}

fn store_config(station_id: &str, endpoint: &str, at: i64) -> RelayStationConfig {
    RelayStationConfig {
        station_id: station_id.to_string(),
        station_name: "n".to_string(),
        api_endpoint: endpoint.to_string(),
        custom_endpoint: None,
        path: Some("/v1".to_string()),
        model: None,
        saved_settings: None,
        created_at: at,
        updated_at: at,
    }
}

#[test]
fn a_station_that_was_added_is_found_as_it_was() {
    let mut store = RelayStationManager::new();
    let station = store_station("a", "Alpha", 10);
    assert_eq!(store.get_station("a"), Ok(None));
    assert_eq!(store.add_station(&station), Ok(()));
    assert_eq!(store.get_station("a"), Ok(Some(store_station("a", "Alpha", 10))));
    assert_eq!(store.get_station("b"), Ok(None));
}

#[test]
fn a_station_made_from_a_request_keeps_the_request() {
    let request = CreateRelayStationRequest {
        name: "Req".to_string(),
        description: None,
        api_url: "https://r.example".to_string(),
        adapter: RelayStationAdapter::Custom,
        auth_method: AuthMethod::Custom,
        system_token: "s".to_string(),
        user_id: None,
        adapter_config: None,
        enabled: false,
    };
    let station = RelayStation::from_request(request, "id-1".to_string(), 77);
    assert_eq!(station.id, "id-1");
    assert_eq!(station.name, "Req");
    assert_eq!(station.adapter, RelayStationAdapter::Custom);
    assert_eq!(station.auth_method, AuthMethod::Custom);
    assert!(!station.enabled);
    assert_eq!(station.created_at, 77);
    assert_eq!(station.updated_at, 77);
    assert_eq!(station.tenant(), "1");
}

#[test]
fn an_id_that_is_taken_is_a_conflict() {
    let mut store = RelayStationManager::new();
    store.add_station(&store_station("a", "Alpha", 10)).unwrap();
    assert_eq!(
        store.add_station(&store_station("a", "Other", 20)),
        Err(RelayError::Conflict("station id already exists: a".to_string()))
    );
    assert_eq!(store.get_station("a").unwrap().unwrap().name, "Alpha");
    assert_eq!(store.list_stations().unwrap().len(), 1);
}

#[test]
fn two_stations_may_share_a_name() {
    let mut store = RelayStationManager::new();
    store.add_station(&store_station("a", "Same", 10)).unwrap();
    store.add_station(&store_station("b", "Same", 20)).unwrap();
    assert_eq!(store.list_stations().unwrap().len(), 2);
}

#[test]
fn stations_are_listed_newest_first() {
    let mut store = RelayStationManager::new();
    store.add_station(&store_station("a", "A", 20)).unwrap();
    store.add_station(&store_station("b", "B", 30)).unwrap();
    store.add_station(&store_station("c", "C", 10)).unwrap();
    store.add_station(&store_station("d", "D", 30)).unwrap();
    let ids: Vec<String> = store.list_stations().unwrap().into_iter().map(|s| s.id).collect();
    assert_eq!(ids, vec!["b", "d", "a", "c"]);
    assert_eq!(RelayStationManager::new().list_stations(), Ok(Vec::new()));
}

#[test]
fn an_empty_update_changes_nothing() {
    let mut store = RelayStationManager::new();
    store.add_station(&store_station("a", "Alpha", 10)).unwrap();
    assert_eq!(store.update_station("a", &Vec::new()), Ok(()));
    assert_eq!(store.get_station("a"), Ok(Some(store_station("a", "Alpha", 10))));
    assert_eq!(store.update_station_at("a", &Vec::new(), 999), Ok(()));
    assert_eq!(store.get_station("a"), Ok(Some(store_station("a", "Alpha", 10))));
}

#[test]
fn names_that_cannot_be_updated_are_ignored() {
    let mut store = RelayStationManager::new();
    store.add_station(&store_station("a", "Alpha", 10)).unwrap();
    let updates = store_updates(r#"{"id":"zzz","adapter_config":{"x":1},"created_at":5,"bogus":true}"#);
    assert!(!touches(&updates));
    assert_eq!(store.update_station_at("a", &updates, 999), Ok(()));
    assert_eq!(store.get_station("a"), Ok(Some(store_station("a", "Alpha", 10))));
}

#[test]
fn an_update_of_the_name_changes_name_and_time_only() {
    let mut store = RelayStationManager::new();
    store.add_station(&store_station("a", "Alpha", 10)).unwrap();
    store.add_station(&store_station("b", "Beta", 20)).unwrap();
    let updates = store_updates(r#"{"name":"x"}"#);
    assert!(touches(&updates));
    assert_eq!(store.update_station_at("a", &updates, 999), Ok(()));
    let mut expected = store_station("a", "Alpha", 10);
    expected.name = "x".to_string();
    expected.updated_at = 999;
    assert_eq!(store.get_station("a"), Ok(Some(expected)));
    assert_eq!(store.get_station("b"), Ok(Some(store_station("b", "Beta", 20))));
}

#[test]
fn update_station_stamps_the_time_of_the_call() {
    let mut store = RelayStationManager::new();
    store.add_station(&store_station("a", "Alpha", 10)).unwrap();
    store.update_station("a", &store_updates(r#"{"enabled":false}"#)).unwrap();
    let station = store.get_station("a").unwrap().unwrap();
    assert!(!station.enabled);
    assert!(station.updated_at > 1_600_000_000);
    assert_eq!(station.created_at, 10);
}

#[test]
fn every_field_that_can_be_updated_is_updated() {
    let station = store_station("a", "Alpha", 10);
    let updates = store_updates(
        r#"{"name":"N","description":null,"api_url":"u","adapter":"custom","auth_method":"bearer_token",
            "system_token":"t","user_id":"9","enabled":false}"#,
    );
    let changed = apply_update(&station, &updates, 50);
    assert_eq!(changed.id, "a");
    assert_eq!(changed.name, "N");
    assert_eq!(changed.description, None);
    assert_eq!(changed.api_url, "u");
    assert_eq!(changed.adapter, RelayStationAdapter::Custom);
    assert_eq!(changed.auth_method, AuthMethod::BearerToken);
    assert_eq!(changed.system_token, "t");
    assert_eq!(changed.user_id.as_deref(), Some("9"));
    assert!(!changed.enabled);
    assert_eq!(changed.adapter_config, station.adapter_config);
    assert_eq!(changed.created_at, 10);
    assert_eq!(changed.updated_at, 50);
}

#[test]
fn updates_of_the_wrong_kind_fall_back() {
    let station = store_station("a", "Alpha", 10);
    let updates = store_updates(r#"{"name":5,"adapter":"legacy","auth_method":7,"user_id":3,"enabled":"yes"}"#);
    let changed = apply_update(&station, &updates, 50);
    assert_eq!(changed.name, "");
    assert_eq!(changed.adapter, RelayStationAdapter::Newapi);
    assert_eq!(changed.auth_method, AuthMethod::BearerToken);
    assert_eq!(changed.user_id, None);
    assert!(!changed.enabled);
    assert_eq!(changed.api_url, station.api_url);
}

#[test]
fn an_update_of_a_missing_station_changes_nothing() {
    let mut store = RelayStationManager::new();
    store.add_station(&store_station("a", "Alpha", 10)).unwrap();
    assert_eq!(store.update_station_at("zzz", &store_updates(r#"{"name":"x"}"#), 9), Ok(()));
    assert_eq!(store.get_station("a"), Ok(Some(store_station("a", "Alpha", 10))));
}

#[test]
fn deleting_a_station_removes_what_depends_on_it() {
    let mut store = RelayStationManager::new();
    store.add_station(&store_station("a", "Alpha", 10)).unwrap();
    store.add_station(&store_station("b", "Beta", 20)).unwrap();
    store.save_station_config(&store_config("a", "e1", 1)).unwrap();
    store.save_station_config(&store_config("b", "e2", 1)).unwrap();
    store.record_config_usage_at("a", "u", "t", 5).unwrap();
    store.record_config_usage_at("b", "u", "t", 6).unwrap();
    assert_eq!(store.delete_station("a"), Ok(()));
    assert_eq!(store.get_station("a"), Ok(None));
    assert_eq!(store.get_station_config("a"), Ok(None));
    assert_eq!(store.get_station_config("b"), Ok(Some(store_config("b", "e2", 1))));
    let usage = store.usage_records();
    assert_eq!(usage.len(), 1);
    assert_eq!(usage[0].station_id, "b");
    assert_eq!(store.delete_station("a"), Ok(()));
    assert_eq!(store.list_stations().unwrap().len(), 1);
}

#[test]
fn saving_a_configuration_replaces_the_earlier_one() {
    let mut store = RelayStationManager::new();
    assert_eq!(store.get_station_config("a"), Ok(None));
    store.save_station_config(&store_config("a", "first", 1)).unwrap();
    store.save_station_config(&store_config("b", "other", 2)).unwrap();
    store.save_station_config(&store_config("a", "second", 3)).unwrap();
    assert_eq!(store.get_station_config("a"), Ok(Some(store_config("a", "second", 3))));
    let all = store.station_configs();
    assert_eq!(all.len(), 2);
    assert_eq!(all[0].station_id, "b");
    assert_eq!(all[1].api_endpoint, "second");
}

#[test]
fn usage_is_shown_last_applied_first_with_the_station_name() {
    let mut store = RelayStationManager::new();
    store.add_station(&store_station("a", "Alpha", 10)).unwrap();
    store.record_config_usage_at("a", "https://a", "ta", 100).unwrap();
    store.record_config_usage_at("ghost", "https://g", "tg", 300).unwrap();
    store.record_config_usage_at("a", "https://a2", "ta2", 200).unwrap();
    let shown = store.get_config_usage_status().unwrap();
    assert_eq!(shown.len(), 2);
    assert_eq!(shown[0].station_id, "ghost");
    assert_eq!(shown[0].station_name, "Unknown");
    assert_eq!(shown[0].applied_at, Some(300));
    assert!(shown[0].is_active);
    assert_eq!(shown[1].station_id, "a");
    assert_eq!(shown[1].station_name, "Alpha");
    assert_eq!(shown[1].base_url, "https://a2");
    assert_eq!(shown[1].token, "ta2");
    assert_eq!(shown[1].applied_at, Some(200));
    store.record_config_usage("a", "https://a3", "ta3").unwrap();
    assert!(store.usage_records()[1].applied_at > 1_600_000_000);
}

#[test]
fn export_names_all_stations_newest_first() {
    let mut store = RelayStationManager::new();
    store.add_station(&store_station("a", "Alpha", 10)).unwrap();
    store.add_station(&store_station("b", "Beta", 20)).unwrap();
    let export = store.export_stations_at(None, 1234).unwrap();
    assert_eq!(export.version, 1);
    assert_eq!(export.exported_at, 1234);
    assert_eq!(export.stations.len(), 2);
    assert_eq!(export.stations[0], RelayStationExportItem::of_station(&store_station("b", "Beta", 20)));
    assert_eq!(export.stations[1].name, "Alpha");
    assert_eq!(export.stations[1].system_token, "token-a");
    let now = store.export_stations(None).unwrap();
    assert!(now.exported_at > 1_600_000_000);
    assert_eq!(now.stations, export.stations);
}

#[test]
fn export_of_chosen_stations_follows_the_ids() {
    let mut store = RelayStationManager::new();
    store.add_station(&store_station("a", "Alpha", 10)).unwrap();
    store.add_station(&store_station("b", "Beta", 20)).unwrap();
    let ids = vec!["a".to_string(), "missing".to_string(), "b".to_string(), "a".to_string()];
    let export = store.export_stations_at(Some(&ids), 1).unwrap();
    let names: Vec<&str> = export.stations.iter().map(|s| s.name.as_str()).collect();
    assert_eq!(names, vec!["Alpha", "Beta", "Alpha"]);
    assert_eq!(store.export_stations_at(Some(&Vec::new()), 1).unwrap().stations.len(), 0);
}

#[test]
fn importing_an_export_brings_back_the_same_names() {
    let mut store = RelayStationManager::new();
    store.add_station(&store_station("a", "Alpha", 10)).unwrap();
    store.add_station(&store_station("b", "Beta", 20)).unwrap();
    store.add_station(&store_station("c", "Gamma", 15)).unwrap();
    let export = store.export_stations(None).unwrap();
    let imported = store.import_stations(&export, true).unwrap();
    assert_eq!(imported, vec!["Beta", "Gamma", "Alpha"]);
    let mut names: Vec<String> = store.list_stations().unwrap().into_iter().map(|s| s.name).collect();
    names.sort();
    assert_eq!(names, vec!["Alpha", "Beta", "Gamma"]);
    let a = store.get_station("a").unwrap().unwrap();
    assert_eq!(a.system_token, "token-a");
    assert_eq!(a.created_at, 10);
    assert!(a.updated_at > 1_600_000_000);
}

#[test]
fn import_without_overwrite_leaves_an_existing_station_alone() {
    let mut store = RelayStationManager::new();
    let mut foo = store_station("a", "Foo", 10);
    foo.system_token = "original".to_string();
    store.add_station(&foo).unwrap();
    let export = RelayStationExport {
        version: 1,
        exported_at: 0,
        stations: vec![store_item("Foo", "changed"), store_item("Bar", "fresh")],
    };
    let imported = store.import_stations(&export, false).unwrap();
    assert_eq!(imported, vec!["Bar"]);
    let kept = store.get_station("a").unwrap().unwrap();
    assert_eq!(kept.system_token, "original");
    assert_eq!(kept, foo);
    assert_eq!(store.list_stations().unwrap().len(), 2);
}

#[test]
fn import_with_overwrite_keeps_the_id() {
    let mut store = RelayStationManager::new();
    store.add_station(&store_station("a", "Foo", 10)).unwrap();
    let export = RelayStationExport { version: 1, exported_at: 0, stations: vec![store_item("Foo", "changed")] };
    assert_eq!(store.import_stations(&export, true), Ok(vec!["Foo".to_string()]));
    let changed = store.get_station("a").unwrap().unwrap();
    assert_eq!(changed.id, "a");
    assert_eq!(changed.name, "Foo");
    assert_eq!(changed.system_token, "changed");
    assert_eq!(changed.api_url, "https://imported.example");
    assert_eq!(changed.adapter, RelayStationAdapter::Newapi);
    assert_eq!(changed.description, None);
    assert_eq!(changed.adapter_config, None);
    assert!(!changed.enabled);
    assert_eq!(changed.created_at, 10);
    assert_eq!(store.list_stations().unwrap().len(), 1);
}

#[test]
fn import_of_a_new_station_gives_it_a_fresh_id() {
    let mut store = RelayStationManager::new();
    assert_eq!(store.import_station_with(&store_item("New", "t"), false, "fresh-1".to_string(), 40), Ok(true));
    let added = store.get_station("fresh-1").unwrap().unwrap();
    assert_eq!(added.name, "New");
    assert_eq!(added.created_at, 40);
    assert_eq!(added.updated_at, 40);
    assert_eq!(store.import_station_with(&store_item("New", "t2"), false, "fresh-2".to_string(), 41), Ok(false));
    assert_eq!(store.get_station("fresh-2"), Ok(None));
    assert_eq!(
        store.import_station_with(&store_item("Other", "t"), true, "fresh-1".to_string(), 42),
        Err(RelayError::Conflict("station id already exists: fresh-1".to_string()))
    );
    assert_eq!(store.list_stations().unwrap().len(), 1);
}

#[test]
fn the_same_name_twice_in_an_import_hits_the_same_station() {
    let mut store = RelayStationManager::new();
    let export = RelayStationExport {
        version: 1,
        exported_at: 0,
        stations: vec![store_item("Dup", "one"), store_item("Dup", "two")],
    };
    assert_eq!(store.import_stations(&export, true), Ok(vec!["Dup".to_string(), "Dup".to_string()]));
    let listed = store.list_stations().unwrap();
    assert_eq!(listed.len(), 1);
    assert_eq!(listed[0].system_token, "two");
    assert_eq!(listed[0].id.len(), 36);
}

#[test]
fn stations_are_kept_in_the_order_in_which_they_were_added() {
    let mut store = RelayStationManager::new();
    store.add_station(&store_station("late", "L", 30)).unwrap();
    store.add_station(&store_station("early", "E", 10)).unwrap();
    let ids: Vec<String> = store.stations().into_iter().map(|s| s.id).collect();
    assert_eq!(ids, vec!["late", "early"]);
    store.well_formed();
}

#[test]
fn ids_that_are_listed_are_accepted_back() {
    use_decimal_ids();
}

fn use_decimal_ids() {
    for v in [0i64, 7, -7, 1234567890, i64::MAX, i64::MIN] {
        let text = relay_stations::text::decimal_string(v as i128);
        assert_eq!(relay_stations::text::parse_i64(&text), Some(v));
    }
}

use relay_stations::adapters::custom::CustomAdapter;
use relay_stations::adapters::yourapi::{page_valid, YourApiAdapter};
use relay_stations::adapters::{
    create_adapter, Adapter, AdapterCall, AdapterOutput, AdapterStep, StationAdapter,
};
use relay_stations::adapters::newapi::NewApiAdapter;
use relay_stations::http::{HttpReply, RelayError};
use relay_stations::json::Json;
use relay_stations::station::{AuthMethod, RelayStation, RelayStationAdapter};

fn yourapi_station(adapter: RelayStationAdapter) -> RelayStation {
    RelayStation {
        id: "st-2".to_string(),
        name: "Alt".to_string(),
        description: None,
        api_url: "https://alt.example".to_string(),
        adapter,
        auth_method: AuthMethod::BearerToken,
        system_token: "tok".to_string(),
        user_id: None,
        adapter_config: None,
        enabled: true,
        created_at: 1,
        updated_at: 1,
    }
}

fn yourapi_reply(count: usize) -> HttpReply {
    let items: Vec<String> = (0..count).map(|i| format!("{{\"id\":{},\"expired_time\":-1}}", i + 1)).collect();
    HttpReply::Response {
        status: 200,
        status_text: "200 OK".to_string(),
        body: format!("{{\"data\":[{}]}}", items.join(",")),
        elapsed_ms: 1,
    }
}

#[test]
fn new_holds_a_standard_adapter() {
    assert_eq!(YourApiAdapter::new(), YourApiAdapter { newapi: NewApiAdapter });
}

#[test]
fn list_tokens_request_pages_from_zero_and_asks_for_one_more() {
    let station = yourapi_station(RelayStationAdapter::Yourapi);
    let request = YourApiAdapter::list_tokens_request(&station, 1, 10).unwrap();
    assert_eq!(request.url, "https://alt.example/api/token/?p=0&size=11");
    assert_eq!(request.headers[1], ("New-API-User".to_string(), "1".to_string()));
    let third = YourApiAdapter::list_tokens_request(&station, 3, 20).unwrap();
    assert_eq!(third.url, "https://alt.example/api/token/?p=2&size=21");
}

#[test]
fn page_zero_is_refused() {
    let station = yourapi_station(RelayStationAdapter::Yourapi);
    let refused = Err(RelayError::Validation("Invalid page or page size".to_string()));
    assert_eq!(YourApiAdapter::list_tokens_request(&station, 0, 10), refused);
    assert_eq!(YourApiAdapter::list_tokens_request(&station, 1, usize::MAX), refused);
    assert_eq!(YourApiAdapter::list_tokens(&station, 0, 10, &yourapi_reply(1)).map(|p| p.total), Err(RelayError::Validation("Invalid page or page size".to_string())));
    assert!(page_valid(1, 0));
    assert!(page_valid(1, 10));
    assert!(!page_valid(0, 10));
    assert!(!page_valid(usize::MAX, usize::MAX - 1));
    assert!(!page_valid(1usize << 32, 1usize << 31));
    assert!(page_valid(1usize << 31, 1usize << 31));
}

#[test]
fn a_full_last_page_has_an_exact_total() {
    let station = yourapi_station(RelayStationAdapter::Yourapi);
    let page = YourApiAdapter::list_tokens(&station, 1, 10, &yourapi_reply(10)).unwrap();
    assert_eq!(page.total, 10);
    assert_eq!(page.items.len(), 10);
    assert_eq!(page.page, 1);
    assert_eq!(page.page_size, 10);
    assert!(page.total <= (page.page * page.page_size) as i64);
    assert!(page.items.iter().all(|t| t.expires_at.is_none()));
}

#[test]
fn one_item_more_names_a_further_page() {
    let station = yourapi_station(RelayStationAdapter::Yourapi);
    let page = YourApiAdapter::list_tokens(&station, 1, 10, &yourapi_reply(11)).unwrap();
    assert_eq!(page.items.len(), 10);
    assert_eq!(page.items[9].id, "10");
    assert_eq!(page.total, 11);
    let second = YourApiAdapter::list_tokens(&station, 2, 10, &yourapi_reply(11)).unwrap();
    assert_eq!(second.total, 21);
}

#[test]
fn a_later_last_page_counts_the_pages_before_it() {
    let station = yourapi_station(RelayStationAdapter::Yourapi);
    let page = YourApiAdapter::list_tokens(&station, 2, 10, &yourapi_reply(3)).unwrap();
    assert_eq!(page.items.len(), 3);
    assert_eq!(page.total, 13);
    let empty = YourApiAdapter::list_tokens(&station, 1, 10, &yourapi_reply(0)).unwrap();
    assert_eq!(empty.total, 0);
    assert_eq!(empty.items.len(), 0);
}

#[test]
fn listed_tokens_keep_the_time_of_access() {
    let station = yourapi_station(RelayStationAdapter::Yourapi);
    let reply = HttpReply::Response {
        status: 200,
        status_text: "200 OK".to_string(),
        body: r#"{"data":[{"id":1,"accessed_time":77}]}"#.to_string(),
        elapsed_ms: 1,
    };
    let page = YourApiAdapter::list_tokens(&station, 1, 10, &reply).unwrap();
    let metadata = page.items[0].metadata.as_ref().unwrap();
    assert_eq!(metadata.len(), 5);
    assert_eq!(metadata[4], ("accessed_time".to_string(), Json::Int(77)));
}

#[test]
fn a_page_wrapper_is_not_an_array() {
    let station = yourapi_station(RelayStationAdapter::Yourapi);
    let reply = HttpReply::Response {
        status: 200,
        status_text: "200 OK".to_string(),
        body: r#"{"data":{"items":[]}}"#.to_string(),
        elapsed_ms: 1,
    };
    assert_eq!(
        YourApiAdapter::list_tokens(&station, 1, 10, &reply),
        Err(RelayError::Upstream("Invalid response format: data is not an array".to_string()))
    );
}

#[test]
fn adapters_are_chosen_by_kind() {
    assert_eq!(create_adapter(&RelayStationAdapter::Newapi), Adapter::Standard(NewApiAdapter));
    assert_eq!(create_adapter(&RelayStationAdapter::Oneapi), Adapter::Standard(NewApiAdapter));
    assert_eq!(
        create_adapter(&RelayStationAdapter::Yourapi),
        Adapter::AltPagination(YourApiAdapter::new())
    );
    assert_eq!(create_adapter(&RelayStationAdapter::Custom), Adapter::Minimal(CustomAdapter));
}

#[test]
fn the_alternate_adapter_forwards_all_but_the_token_list() {
    let station = yourapi_station(RelayStationAdapter::Yourapi);
    let alt = create_adapter(&RelayStationAdapter::Yourapi);
    let standard = create_adapter(&RelayStationAdapter::Newapi);
    let calls = vec![
        AdapterCall::GetStationInfo,
        AdapterCall::GetUserInfo { user_id: "3".to_string() },
        AdapterCall::GetLogs { page: Some(2), page_size: None, filters: None },
        AdapterCall::TestConnection,
        AdapterCall::DeleteToken { token_id: "4".to_string() },
        AdapterCall::ToggleToken { token_id: "4".to_string(), enabled: true },
        AdapterCall::ToggleToken { token_id: "x".to_string(), enabled: true },
        AdapterCall::GetUserGroups,
    ];
    for call in &calls {
        assert_eq!(alt.begin(&station, call, 50), standard.begin(&station, call, 50));
        assert_eq!(
            alt.finish(&station, call, &yourapi_reply(1), 50),
            standard.finish(&station, call, &yourapi_reply(1), 50)
        );
    }
    let list = AdapterCall::ListTokens { page: None, size: None };
    match alt.begin(&station, &list, 50) {
        AdapterStep::Send(request) => assert_eq!(request.url, "https://alt.example/api/token/?p=0&size=11"),
        AdapterStep::Done(_) => panic!("the token list needs a request"),
    }
    match standard.begin(&station, &list, 50) {
        AdapterStep::Send(request) => assert_eq!(request.url, "https://alt.example/api/token/?p=1&size=10"),
        AdapterStep::Done(_) => panic!("the token list needs a request"),
    }
    match alt.finish(&station, &list, &yourapi_reply(10), 50) {
        Ok(AdapterOutput::Tokens(page)) => assert_eq!(page.total, 10),
        other => panic!("unexpected {:?}", other),
    }
    let zero = AdapterCall::ListTokens { page: Some(0), size: None };
    assert_eq!(
        alt.begin(&station, &zero, 50),
        AdapterStep::Done(Err(RelayError::Validation("Invalid page or page size".to_string())))
    );
}

#[test]
fn the_minimal_adapter_sends_nothing() {
    let station = yourapi_station(RelayStationAdapter::Custom);
    let adapter = create_adapter(&RelayStationAdapter::Custom);
    match adapter.begin(&station, &AdapterCall::GetStationInfo, 1) {
        AdapterStep::Done(Ok(AdapterOutput::StationInfo(info))) => {
            assert_eq!(info.name, "Alt");
            assert_eq!(info.api_url, "https://alt.example");
            assert_eq!(info.version.as_deref(), Some("Custom"));
            assert_eq!(info.announcement, None);
            assert_eq!(info.quota_per_unit, None);
            let metadata = info.metadata.unwrap();
            assert_eq!(metadata[0], ("adapter_type".to_string(), Json::Str("custom".to_string())));
            assert_eq!(metadata[1].0, "note");
        }
        other => panic!("unexpected {:?}", other),
    }
    match adapter.begin(&station, &AdapterCall::TestConnection, 1) {
        AdapterStep::Done(Ok(AdapterOutput::Connection(result))) => {
            assert!(result.success);
            assert_eq!(result.message, "Custom configuration - connection testing not applicable");
            assert_eq!(result.response_time, None);
            assert_eq!(result.status_code, None);
        }
        other => panic!("unexpected {:?}", other),
    }
    let unsupported = |what: &str| {
        AdapterStep::Done(Err(RelayError::Unsupported(format!(
            "{} not available for custom configurations",
            what
        ))))
    };
    assert_eq!(
        adapter.begin(&station, &AdapterCall::GetUserInfo { user_id: "1".to_string() }, 1),
        unsupported("User info")
    );
    assert_eq!(
        adapter.begin(&station, &AdapterCall::GetLogs { page: None, page_size: None, filters: None }, 1),
        unsupported("Logs")
    );
    assert_eq!(adapter.begin(&station, &AdapterCall::GetUserGroups, 1), unsupported("User groups"));
    assert_eq!(
        adapter.begin(&station, &AdapterCall::ListTokens { page: None, size: None }, 1),
        unsupported("Token management")
    );
    assert_eq!(
        adapter.begin(&station, &AdapterCall::DeleteToken { token_id: "1".to_string() }, 1),
        unsupported("Token management")
    );
    assert_eq!(
        adapter.finish(&station, &AdapterCall::GetUserGroups, &yourapi_reply(0), 1),
        Err(RelayError::Unsupported("User groups not available for custom configurations".to_string()))
    );
    assert_eq!(CustomAdapter::unavailable("X").message(), "X not available for custom configurations");
}

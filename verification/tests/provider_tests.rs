use relay_stations::http::RelayError;
use relay_stations::json::{parse, to_text, Json};
use relay_stations::provider::{
    add_provider_config, clear_document, delete_provider_config, detect_current_provider,
    empty_document, get_current_provider_config, get_current_provider_id, get_provider_config,
    matches_provider, switch_document, test_provider_connection, update_provider_config,
    CurrentConfig, ProviderConfig,
};
use relay_stations::settings::{
    clear_message, clear_provider_config, get_provider_presets, load_claude_settings,
    load_providers_from_file, parse_compatible_settings, provider_from_json, provider_to_json,
    save_providers_to_file, settings_document, strict_settings, switch_message,
    switch_provider_config, ClaudeSettings, PermissionsConfig,
};

fn provider(id: &str, url: &str, auth_token: Option<&str>, api_key: Option<&str>) -> ProviderConfig {
    ProviderConfig {
        id: id.to_string(),
        name: format!("name-{}", id),
        description: format!("about {}", id),
        base_url: url.to_string(),
        auth_token: auth_token.map(|s| s.to_string()),
        api_key: api_key.map(|s| s.to_string()),
        model: None,
        small_fast_model: None,
    }
}

fn provider_env(doc: &Json, key: &str) -> Option<Json> {
    doc.get("env").and_then(|env| env.get(key)).map(|v| v.clone_json())
}

fn provider_text(s: &str) -> Option<Json> {
    Some(Json::Str(s.to_string()))
}

#[test]
fn the_api_key_overrides_the_bearer_token() {
    let config = provider("p", "https://p.example", Some("T"), Some("K"));
    let doc = switch_document(&empty_document(), &config);
    assert_eq!(provider_env(&doc, "ANTHROPIC_API_KEY"), provider_text("K"));
    assert_eq!(provider_env(&doc, "ANTHROPIC_AUTH_TOKEN"), None);
    assert_eq!(provider_env(&doc, "ANTHROPIC_BASE_URL"), provider_text("https://p.example"));
    assert_eq!(to_text(&doc).as_deref(), Some(r#"{"env":{"ANTHROPIC_API_KEY":"K","ANTHROPIC_BASE_URL":"https://p.example"}}"#));
}

#[test]
fn the_bearer_token_is_used_where_there_is_no_api_key() {
    let doc = switch_document(&empty_document(), &provider("p", "https://p.example", Some("T"), None));
    assert_eq!(provider_env(&doc, "ANTHROPIC_AUTH_TOKEN"), provider_text("T"));
    assert_eq!(provider_env(&doc, "ANTHROPIC_API_KEY"), None);
    let empty_key = switch_document(&empty_document(), &provider("p", "https://p.example", Some("T"), Some("")));
    assert_eq!(provider_env(&empty_key, "ANTHROPIC_AUTH_TOKEN"), provider_text("T"));
    assert_eq!(provider_env(&empty_key, "ANTHROPIC_API_KEY"), None);
}

#[test]
fn values_that_are_missing_or_empty_set_no_key() {
    let mut config = provider("p", "", None, Some(""));
    config.model = Some("".to_string());
    config.small_fast_model = Some("haiku".to_string());
    let doc = switch_document(&empty_document(), &config);
    assert_eq!(to_text(&doc).as_deref(), Some(r#"{"env":{"ANTHROPIC_SMALL_FAST_MODEL":"haiku"}}"#));
    config.model = Some("opus".to_string());
    let with_model = switch_document(&empty_document(), &config);
    assert_eq!(provider_env(&with_model, "ANTHROPIC_MODEL"), provider_text("opus"));
}

#[test]
fn switching_twice_keeps_what_is_not_managed() {
    let start = parse(
        r#"{"permissions":{"allow":["x"]},"env":{"API_TIMEOUT_MS":"600000","ANTHROPIC_AUTH_TOKEN":"old",
            "ANTHROPIC_MODEL":"m","N":5},"theme":"dark"}"#,
    )
    .unwrap();
    let first = switch_document(&start, &provider("a", "https://a.example", Some("ta"), None));
    let second = switch_document(&first, &provider("b", "https://b.example", None, Some("kb")));
    assert_eq!(second.get("permissions"), Some(&parse(r#"{"allow":["x"]}"#).unwrap()));
    assert_eq!(second.get("theme"), Some(&Json::Str("dark".to_string())));
    assert_eq!(provider_env(&second, "API_TIMEOUT_MS"), provider_text("600000"));
    assert_eq!(provider_env(&second, "N"), Some(Json::Int(5)));
    assert_eq!(provider_env(&second, "ANTHROPIC_AUTH_TOKEN"), None);
    assert_eq!(provider_env(&second, "ANTHROPIC_MODEL"), None);
    assert_eq!(provider_env(&second, "ANTHROPIC_API_KEY"), provider_text("kb"));
    assert_eq!(provider_env(&second, "ANTHROPIC_BASE_URL"), provider_text("https://b.example"));
    assert_eq!(
        to_text(&second).as_deref(),
        Some(r#"{"env":{"ANTHROPIC_API_KEY":"kb","ANTHROPIC_BASE_URL":"https://b.example","API_TIMEOUT_MS":"600000","N":5},"permissions":{"allow":["x"]},"theme":"dark"}"#)
    );
}

#[test]
fn a_document_that_is_no_object_is_left_alone() {
    let list = parse("[1,2]").unwrap();
    assert_eq!(switch_document(&list, &provider("a", "u", Some("t"), None)), parse("[1,2]").unwrap());
    assert_eq!(clear_document(&list), parse("[1,2]").unwrap());
    let odd_env = parse(r#"{"env":"text","x":1}"#).unwrap();
    let switched = switch_document(&odd_env, &provider("a", "u", Some("t"), None));
    assert_eq!(to_text(&switched).as_deref(), Some(r#"{"env":{"ANTHROPIC_AUTH_TOKEN":"t","ANTHROPIC_BASE_URL":"u"},"x":1}"#));
}

#[test]
fn clearing_removes_the_managed_keys_only() {
    let start = parse(
        r#"{"env":{"ANTHROPIC_BASE_URL":"u","ANTHROPIC_AUTH_TOKEN":"t","ANTHROPIC_API_KEY":"k",
            "ANTHROPIC_MODEL":"m","ANTHROPIC_SMALL_FAST_MODEL":"s","KEEP":"1"},"permissions":{"deny":[]}}"#,
    )
    .unwrap();
    let cleared = clear_document(&start);
    assert_eq!(to_text(&cleared).as_deref(), Some(r#"{"env":{"KEEP":"1"},"permissions":{"deny":[]}}"#));
    assert_eq!(to_text(&clear_document(&empty_document())).as_deref(), Some(r#"{"env":{}}"#));
}

#[test]
fn the_current_configuration_is_read_from_the_document() {
    let doc = parse(r#"{"env":{"ANTHROPIC_BASE_URL":"u","ANTHROPIC_API_KEY":"k","ANTHROPIC_MODEL":7}}"#).unwrap();
    let current = get_current_provider_config(&doc);
    assert_eq!(
        current,
        CurrentConfig {
            anthropic_base_url: Some("u".to_string()),
            anthropic_auth_token: None,
            anthropic_api_key: Some("k".to_string()),
            anthropic_model: None,
            anthropic_small_fast_model: None,
        }
    );
    let none = get_current_provider_config(&empty_document());
    assert_eq!(none.anthropic_base_url, None);
}

#[test]
fn a_base_url_that_matches_no_provider_is_custom() {
    let a = provider("A", "https://a.example", Some("ta"), None);
    let b = provider("B", "https://b.example", None, Some("kb"));
    let known = vec![a.clone_config(), b.clone_config()];
    let switched = switch_document(&empty_document(), &a);
    assert_eq!(get_current_provider_id(&switched, &known), Some("A".to_string()));
    let edited = parse(r#"{"env":{"ANTHROPIC_BASE_URL":"https://elsewhere.example","ANTHROPIC_AUTH_TOKEN":"ta"}}"#).unwrap();
    assert_eq!(get_current_provider_id(&edited, &known), Some("custom".to_string()));
    assert_eq!(get_current_provider_id(&clear_document(&switched), &known), None);
    assert_eq!(get_current_provider_id(&switch_document(&switched, &b), &known), Some("B".to_string()));
}

#[test]
fn detection_takes_the_first_provider_that_matches() {
    let mut first = provider("first", "https://x.example", Some("t"), None);
    let second = provider("second", "https://x.example", Some("t"), None);
    let current = CurrentConfig {
        anthropic_base_url: Some("https://x.example".to_string()),
        anthropic_auth_token: Some("t".to_string()),
        anthropic_api_key: None,
        anthropic_model: None,
        anthropic_small_fast_model: None,
    };
    assert_eq!(
        detect_current_provider(&current, &vec![first.clone_config(), second.clone_config()]),
        Some("first".to_string())
    );
    first.model = Some("other".to_string());
    assert!(!matches_provider(&current, &first));
    assert_eq!(
        detect_current_provider(&current, &vec![first.clone_config(), second.clone_config()]),
        Some("second".to_string())
    );
    assert_eq!(detect_current_provider(&current, &Vec::new()), Some("custom".to_string()));
}

#[test]
fn detection_needs_a_credential_that_is_set() {
    let no_credentials = provider("p", "https://x.example", None, None);
    let current = CurrentConfig {
        anthropic_base_url: Some("https://x.example".to_string()),
        anthropic_auth_token: None,
        anthropic_api_key: None,
        anthropic_model: None,
        anthropic_small_fast_model: None,
    };
    assert!(!matches_provider(&current, &no_credentials));
    let only_model = CurrentConfig {
        anthropic_base_url: None,
        anthropic_auth_token: None,
        anthropic_api_key: None,
        anthropic_model: Some("m".to_string()),
        anthropic_small_fast_model: None,
    };
    assert_eq!(detect_current_provider(&only_model, &Vec::new()), Some("custom".to_string()));
    let nothing = CurrentConfig {
        anthropic_base_url: None,
        anthropic_auth_token: None,
        anthropic_api_key: None,
        anthropic_model: None,
        anthropic_small_fast_model: None,
    };
    assert_eq!(detect_current_provider(&nothing, &vec![no_credentials]), None);
    let by_key = provider("k", "https://x.example", Some("other"), Some("key"));
    let with_key = CurrentConfig {
        anthropic_base_url: Some("https://x.example".to_string()),
        anthropic_auth_token: None,
        anthropic_api_key: Some("key".to_string()),
        anthropic_model: None,
        anthropic_small_fast_model: None,
    };
    assert!(matches_provider(&with_key, &by_key));
}

#[test]
fn providers_are_added_changed_and_removed_by_id() {
    let mut known: Vec<ProviderConfig> = Vec::new();
    assert_eq!(
        add_provider_config(&mut known, provider("a", "u", None, None)),
        Ok("成功添加代理商配置: name-a".to_string())
    );
    assert_eq!(
        add_provider_config(&mut known, provider("a", "other", None, None)),
        Err("ID 'a' 已存在，请使用不同的ID".to_string())
    );
    assert_eq!(known.len(), 1);
    assert_eq!(known[0].base_url, "u");
    assert_eq!(
        update_provider_config(&mut known, provider("a", "changed", None, None)),
        Ok("成功更新代理商配置: name-a".to_string())
    );
    assert_eq!(known[0].base_url, "changed");
    assert_eq!(
        update_provider_config(&mut known, provider("b", "u", None, None)),
        Err("未找到ID为 'b' 的配置".to_string())
    );
    assert_eq!(get_provider_config(&known, "a"), Ok(provider("a", "changed", None, None)));
    assert_eq!(get_provider_config(&known, "b"), Err("未找到ID为 'b' 的配置".to_string()));
    assert_eq!(delete_provider_config(&mut known, "b"), Err("未找到ID为 'b' 的配置".to_string()));
    assert_eq!(delete_provider_config(&mut known, "a"), Ok("成功删除代理商配置: name-a".to_string()));
    assert!(known.is_empty());
}

#[test]
fn the_connection_test_names_its_address() {
    assert_eq!(
        test_provider_connection("https://x.example"),
        Ok("连接测试完成：https://x.example/v1/messages".to_string())
    );
    assert_eq!(
        test_provider_connection("https://x.example/"),
        Ok("连接测试完成：https://x.example/v1/messages".to_string())
    );
    assert_eq!(test_provider_connection(""), Ok("连接测试完成：/v1/messages".to_string()));
}

#[test]
fn settings_are_read_strictly_where_that_can_be_done() {
    let doc = parse(r#"{"env":{"A":"1","B":"2"},"permissions":{"allow":["x"],"other":1},"extra":true}"#).unwrap();
    assert_eq!(
        strict_settings(&doc),
        Some(ClaudeSettings {
            env: vec![("A".to_string(), "1".to_string()), ("B".to_string(), "2".to_string())],
            permissions: Some(PermissionsConfig { allow: vec!["x".to_string()], deny: Vec::new() }),
        })
    );
    assert_eq!(
        strict_settings(&parse("{}").unwrap()),
        Some(ClaudeSettings { env: Vec::new(), permissions: None })
    );
    assert_eq!(strict_settings(&parse(r#"{"env":{"A":1}}"#).unwrap()), None);
    assert_eq!(strict_settings(&parse(r#"{"permissions":{"allow":"x"}}"#).unwrap()), None);
    assert_eq!(strict_settings(&parse(r#"{"permissions":null}"#).unwrap()).unwrap().permissions, None);
    assert_eq!(strict_settings(&parse("[]").unwrap()), None);
}

#[test]
fn settings_are_read_leniently_otherwise() {
    let doc = parse(r#"{"env":{"A":"1","N":2,"B":"3"},"permissions":{"allow":["x"]}}"#).unwrap();
    let lenient = ClaudeSettings {
        env: vec![("A".to_string(), "1".to_string()), ("B".to_string(), "3".to_string())],
        permissions: None,
    };
    assert_eq!(parse_compatible_settings(&doc), lenient);
    assert_eq!(load_claude_settings(r#"{"env":{"A":"1","N":2,"B":"3"},"permissions":{"allow":["x"]}}"#), Ok(lenient));
    assert_eq!(parse_compatible_settings(&parse("[1]").unwrap()), ClaudeSettings { env: Vec::new(), permissions: None });
}

#[test]
fn a_blank_settings_file_gives_the_default_settings() {
    let default = ClaudeSettings {
        env: Vec::new(),
        permissions: Some(PermissionsConfig { allow: Vec::new(), deny: Vec::new() }),
    };
    assert_eq!(load_claude_settings(""), Ok(default.clone()));
    assert_eq!(load_claude_settings("  \n"), Ok(default));
    assert_eq!(load_claude_settings("{oops"), Err(RelayError::Validation("JSON 格式无效".to_string())));
    assert_eq!(settings_document(" "), empty_document());
    assert_eq!(settings_document("{oops"), empty_document());
    assert_eq!(settings_document("[1]"), parse("[1]").unwrap());
}

#[test]
fn the_settings_file_is_rewritten_as_indented_text() {
    let config = provider("p", "https://p.example", Some("T"), Some("K"));
    let expected = "{\n  \"env\": {\n    \"ANTHROPIC_API_KEY\": \"K\",\n    \"ANTHROPIC_BASE_URL\": \"https://p.example\"\n  }\n}";
    assert_eq!(switch_provider_config(None, &config), Ok(expected.to_string()));
    assert_eq!(switch_provider_config(Some("  "), &config), Ok(expected.to_string()));
    assert_eq!(
        switch_provider_config(Some("{broken"), &config),
        Err(RelayError::Validation("JSON 格式无效".to_string()))
    );
    let kept = switch_provider_config(Some(r#"{"permissions":{"allow":["x"]}}"#), &config).unwrap();
    let doc = parse(&kept).unwrap();
    assert_eq!(doc.get("permissions"), Some(&parse(r#"{"allow":["x"]}"#).unwrap()));
    assert_eq!(clear_provider_config(Some(&kept)), Ok("{\n  \"env\": {},\n  \"permissions\": {\n    \"allow\": [\n      \"x\"\n    ]\n  }\n}".to_string()));
    assert_eq!(clear_provider_config(None), Ok("{\n  \"env\": {}\n}".to_string()));
    assert_eq!(
        clear_provider_config(Some("nope")),
        Err(RelayError::Validation("JSON 格式无效".to_string()))
    );
    assert_eq!(
        switch_provider_config(Some(r#"{"n":1e400}"#), &config),
        Err(RelayError::Validation("JSON 格式无效".to_string()))
    );
}

#[test]
fn messages_name_the_provider() {
    assert_eq!(
        switch_message(&provider("p", "u", None, None)),
        "已成功切换到 name-p (about p)，所有Claude会话已重启以应用新配置"
    );
    assert_eq!(clear_message(), "已清理所有 ANTHROPIC 配置，所有Claude会话已重启");
}

#[test]
fn the_providers_file_lists_providers() {
    let text = r#"[{"id":"a","name":"A","description":"d","base_url":"u","auth_token":" ","api_key":"k","model":null},
                   {"id":"b","name":"B","description":"","base_url":"v","small_fast_model":"s","extra":1}]"#;
    let listed = load_providers_from_file(text).unwrap();
    assert_eq!(listed.len(), 2);
    assert_eq!(listed[0].auth_token, None);
    assert_eq!(listed[0].api_key.as_deref(), Some("k"));
    assert_eq!(listed[0].model, None);
    assert_eq!(listed[1].small_fast_model.as_deref(), Some("s"));
    assert_eq!(listed[1].description, "");
    assert_eq!(load_providers_from_file("  "), Ok(Vec::new()));
    assert_eq!(get_provider_presets(None), Ok(Vec::new()));
    assert_eq!(get_provider_presets(Some(text)).unwrap().len(), 2);
    let refused = Err(RelayError::Validation("解析配置文件失败".to_string()));
    assert_eq!(load_providers_from_file("{}"), refused);
    assert_eq!(load_providers_from_file("[{\"id\":\"a\"}]"), refused);
    assert_eq!(load_providers_from_file("[1"), refused);
    assert_eq!(
        load_providers_from_file(r#"[{"id":"a","name":"A","description":"d","base_url":"u","model":5}]"#),
        refused
    );
    assert_eq!(get_provider_presets(Some("")), Err(RelayError::Validation("配置文件格式错误".to_string())));
    assert_eq!(provider_from_json(&parse("[]").unwrap()), None);
}

#[test]
fn providers_are_written_as_they_are_read() {
    let mut full = provider("a", "u", Some("t"), None);
    full.model = Some("m".to_string());
    let known = vec![full, provider("b", "v", None, Some("k"))];
    let text = save_providers_to_file(&known).unwrap();
    assert_eq!(load_providers_from_file(&text), Ok(known));
    assert_eq!(
        to_text(&provider_to_json(&provider("b", "v", None, Some("k")))).as_deref(),
        Some(r#"{"api_key":"k","auth_token":null,"base_url":"v","description":"about b","id":"b","model":null,"name":"name-b","small_fast_model":null}"#)
    );
    assert_eq!(save_providers_to_file(&Vec::new()), Ok("[]".to_string()));
}

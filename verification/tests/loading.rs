use llm_agent::mcp::error::McpError;
use llm_agent::mcp::loading::{
    expand_found, lookup, strings_from_value, text_map_from_value, PLACEHOLDER_PATTERN,
};
use llm_agent::mcp::types::{McpConfig, McpServerConfig};
use llm_agent::mcp::McpManager;
use serde_json::Value;

fn value(text: &str) -> Value {
    serde_json::from_str(text).unwrap()
}

fn env(items: &[(&str, &str)]) -> Vec<(String, String)> {
    items.iter().map(|(k, v)| (k.to_string(), v.to_string())).collect()
}

#[test]
fn placeholder_expands_to_the_value() {
    assert_eq!(McpManager::expand_env_vars("${FOO}", &env(&[("FOO", "bar")])), "bar");
}

#[test]
fn missing_variable_expands_to_nothing() {
    assert_eq!(McpManager::expand_env_vars("${MISSING}", &env(&[("FOO", "bar")])), "");
    assert_eq!(McpManager::expand_env_vars("a${MISSING}b", &env(&[])), "ab");
}

#[test]
fn text_without_placeholder_is_untouched() {
    let e = env(&[("FOO", "bar"), ("x", "y")]);
    for text in ["", "plain", "$FOO", "{FOO}", "${}", "${FOO", "$ {FOO}", "${FOO-BAR}", "${a b}", "\\${FOO\\}"] {
        assert_eq!(McpManager::expand_env_vars(text, &e), text);
    }
}

#[test]
fn every_occurrence_is_replaced() {
    let e = env(&[("HOME", "/home/u"), ("N_1", "7"), ("É", "accent")]);
    assert_eq!(
        McpManager::expand_env_vars(r#"{"a":"${HOME}/x","b":"${N_1}${N_1}","c":"${HOME}","d":"${É}"}"#, &e),
        r#"{"a":"/home/u/x","b":"77","c":"/home/u","d":"accent"}"#
    );
    assert_eq!(McpManager::expand_env_vars("${${HOME}}", &e), "${/home/u}");
}

#[test]
fn lookup_takes_the_first_entry() {
    let e = env(&[("A", "1"), ("B", "2"), ("A", "3")]);
    assert_eq!(lookup(&e, "A"), "1");
    assert_eq!(lookup(&e, "B"), "2");
    assert_eq!(lookup(&e, "C"), "");
    assert_eq!(PLACEHOLDER_PATTERN, r"\$\{(\w+)\}");
}

#[test]
fn load_config_reads_providers() {
    let text = r#"{
        "mcpServers": {
            "files": {"command": "npx", "args": ["-y", "srv", "${ROOT}"], "env": {"TOKEN": "${TOKEN}", "MODE": "ro"}},
            "web": {"type": "streamable-http", "url": "http://${HOST}/mcp", "disabled": true, "command": null},
            "bare": {}
        },
        "other": 1
    }"#;
    let config = McpManager::load_config(text, &env(&[("ROOT", "/data"), ("HOST", "h:1")])).unwrap();
    assert!(config.is_well_formed());
    assert_eq!(config.mcp_servers.len(), 3);
    let files = &config.mcp_servers[config.position("files").unwrap()].1;
    assert_eq!(files.command.as_deref(), Some("npx"));
    assert_eq!(files.args, vec!["-y", "srv", "/data"]);
    let mut overrides = files.env.clone();
    overrides.sort();
    assert_eq!(overrides, env(&[("MODE", "ro"), ("TOKEN", "")]));
    assert!(!files.disabled);
    assert_eq!(files.transport_type, None);
    assert_eq!(files.url, None);
    let web = &config.mcp_servers[config.position("web").unwrap()].1;
    assert_eq!(web.command, None);
    assert!(web.args.is_empty() && web.env.is_empty());
    assert!(web.disabled);
    assert_eq!(web.transport_type.as_deref(), Some("streamable-http"));
    assert_eq!(web.url.as_deref(), Some("http://h:1/mcp"));
    let bare = &config.mcp_servers[config.position("bare").unwrap()].1;
    assert_eq!(bare.command, None);
    assert!(!bare.disabled);
    let manager = McpManager::new(config);
    assert!(manager.is_enabled("files") && manager.is_enabled("bare") && !manager.is_enabled("web"));
}

#[test]
fn load_config_refuses_what_is_no_configuration() {
    let none = env(&[]);
    for text in [
        "",
        "not json",
        "[]",
        "{}",
        r#"{"mcpServers": []}"#,
        r#"{"mcpServers": null}"#,
        r#"{"mcpServers": {"a": 1}}"#,
        r#"{"mcpServers": {"a": {"command": 1}}}"#,
        r#"{"mcpServers": {"a": {"args": null}}}"#,
        r#"{"mcpServers": {"a": {"args": ["x", 1]}}}"#,
        r#"{"mcpServers": {"a": {"env": {"k": 1}}}}"#,
        r#"{"mcpServers": {"a": {"env": []}}}"#,
        r#"{"mcpServers": {"a": {"disabled": "yes"}}}"#,
        r#"{"mcpServers": {"a": {"disabled": null}}}"#,
        r#"{"mcpServers": {"a": {"type": 1}}}"#,
        r#"{"mcpServers": {"a": {"url": false}}}"#,
        r#"{"mcpServers": {"a": {}, "b": {"url": []}}}"#,
    ] {
        assert!(matches!(McpManager::load_config(text, &none), Err(McpError::InvalidConfig { .. })), "{}", text);
    }
    assert!(McpManager::load_config(r#"{"mcpServers": {}}"#, &none).unwrap().mcp_servers.is_empty());
}

#[test]
fn config_from_value_lists_each_member_once() {
    let config = McpConfig::from_value(&value(r#"{"mcpServers":{"b":{"disabled":true},"a":{"url":"u"}}}"#)).unwrap();
    let mut names: Vec<&str> = config.mcp_servers.iter().map(|e| e.0.as_str()).collect();
    names.sort();
    assert_eq!(names, vec!["a", "b"]);
    assert!(McpServerConfig::from_value(&value("[]")).is_none());
    assert!(McpServerConfig::from_value(&value("null")).is_none());
    let c = McpServerConfig::from_value(&value(r#"{"type":null,"url":null,"extra":[1]}"#)).unwrap();
    assert_eq!(c.transport_type, None);
    assert_eq!(c.url, None);
}

#[test]
fn string_lists_and_maps_decode() {
    assert_eq!(strings_from_value(&value(r#"["a","","b"]"#)), Some(vec!["a".to_string(), "".to_string(), "b".to_string()]));
    assert_eq!(strings_from_value(&value("[]")), Some(vec![]));
    assert_eq!(strings_from_value(&value(r#"["a",null]"#)), None);
    assert_eq!(strings_from_value(&value(r#"{"a":"b"}"#)), None);
    let mut map = text_map_from_value(&value(r#"{"k":"v","a":""}"#)).unwrap();
    map.sort();
    assert_eq!(map, env(&[("a", ""), ("k", "v")]));
    assert_eq!(text_map_from_value(&value(r#"{"k":["v"]}"#)), None);
    assert_eq!(text_map_from_value(&value(r#"["k","v"]"#)), None);
    assert_eq!(text_map_from_value(&value("{}")), Some(vec![]));
}

#[test]
fn found_placeholders_are_replaced_in_one_pass() {
    let e = env(&[("A", "1"), ("B", "${A}")]);
    let found = vec![
        ("${A}".to_string(), Some("A".to_string())),
        ("${B}".to_string(), Some("B".to_string())),
        ("${C}".to_string(), None),
        ("".to_string(), Some("A".to_string())),
        ("${A}".to_string(), Some("A".to_string())),
    ];
    assert_eq!(expand_found("x${A}y${B}z${C}${A}", &found, &e), "x1y${A}z${C}1");
    assert_eq!(expand_found("x${A}y${B}z${C}", &vec![], &e), "x${A}y${B}z${C}");
    let missing = vec![("${A}".to_string(), Some("NOPE".to_string()))];
    assert_eq!(expand_found("${A}${A}", &missing, &e), "${A}");
    let absent = vec![("${Z}".to_string(), Some("A".to_string())), ("${A}".to_string(), Some("A".to_string()))];
    assert_eq!(expand_found("a${A}b", &absent, &e), "a1b");
}

#[test]
fn what_a_value_brings_in_is_not_expanded_again() {
    let e = env(&[("B", "${A}"), ("X", "y")]);
    assert_eq!(McpManager::expand_env_vars("$${A}{A}${A}", &env(&[])), "${A}");
    assert_eq!(McpManager::expand_env_vars("${B}-${A}", &e), "${A}-");
    assert_eq!(McpManager::expand_env_vars("$${X}{X}", &e), "$y{X}");
    assert_eq!(McpManager::expand_env_vars("${X}${X}$", &e), "yy$");
}

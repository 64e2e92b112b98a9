use llm_agent::mcp::connection::McpTransport;
use llm_agent::mcp::error::McpError;
use llm_agent::mcp::protocol::JsonRpcResponse;
use llm_agent::mcp::session::{HandshakeStep, McpServerInstance};
use llm_agent::mcp::types::{McpConfig, McpServerConfig};
use llm_agent::mcp::McpManager;
use serde_json::Value;

fn value(text: &str) -> Value {
    serde_json::from_str(text).unwrap()
}

fn reply(text: &str) -> Result<JsonRpcResponse, McpError> {
    Ok(JsonRpcResponse::parse(text).unwrap())
}

fn stdio(command: &str, disabled: bool) -> McpServerConfig {
    McpServerConfig {
        command: Some(command.to_string()),
        args: vec![],
        env: vec![],
        disabled,
        transport_type: None,
        url: None,
    }
}

fn http(url: Option<&str>, kind: &str) -> McpServerConfig {
    McpServerConfig {
        command: None,
        args: vec![],
        env: vec![],
        disabled: false,
        transport_type: Some(kind.to_string()),
        url: url.map(|u| u.to_string()),
    }
}

fn config() -> McpConfig {
    McpConfig {
        mcp_servers: vec![
            ("alpha".to_string(), stdio("alpha-server --stdio", false)),
            ("a".to_string(), http(Some("http://h/a"), "http")),
            ("x".to_string(), stdio("x-server", false)),
            ("off".to_string(), stdio("off-server", true)),
            ("broken".to_string(), http(None, "streamable-http")),
        ],
    }
}

fn connected(name: &str, tools: &str) -> McpServerInstance {
    let mut s = McpServerInstance::new(name.to_string());
    s.initialize();
    s.advance(reply(r#"{"jsonrpc":"2.0","id":1,"result":{}}"#));
    s.advance(reply(r#"{"jsonrpc":"2.0","id":2,"result":{}}"#));
    let listing = format!(r#"{{"jsonrpc":"2.0","id":3,"result":{{"tools":{}}}}}"#, tools);
    s.advance(reply(&listing));
    let done = s.advance(reply(r#"{"jsonrpc":"2.0","id":4,"result":{}}"#));
    assert!(matches!(done, HandshakeStep::Connected));
    s
}

fn manager() -> McpManager {
    let mut m = McpManager::new(config());
    assert!(!m.register(connected("alpha", r#"[{"name":"beta","inputSchema":{}},{"name":"gamma","description":"G","inputSchema":{}}]"#)));
    assert!(!m.register(connected("a", r#"[{"name":"b_c","inputSchema":{}}]"#)));
    assert!(!m.register(connected("x", r#"[{"name":"only","inputSchema":{}}]"#)));
    m
}

#[test]
fn config_names_must_be_distinct() {
    assert!(config().is_well_formed());
    let twice = McpConfig {
        mcp_servers: vec![("a".to_string(), stdio("s", false)), ("b".to_string(), stdio("s", false)), ("a".to_string(), stdio("t", false))],
    };
    assert!(!twice.is_well_formed());
    assert_eq!(config().position("x"), Some(2));
    assert_eq!(config().position("nope"), None);
}

#[test]
fn new_manager_enables_what_is_not_disabled() {
    let m = McpManager::new(config());
    for name in ["alpha", "a", "x", "broken"] {
        assert!(m.is_enabled(name));
    }
    assert!(!m.is_enabled("off"));
    assert!(!m.is_enabled("ghost"));
    assert!(m.connected_servers().is_empty());
    assert!(m.get_all_tools().is_empty());
    assert_eq!(m.config().mcp_servers.len(), 5);
}

#[test]
fn connect_all_plans_each_enabled_provider() {
    let m = McpManager::new(config());
    let plans = m.connect_all();
    let names: Vec<&str> = plans.iter().map(|p| p.0.as_str()).collect();
    assert_eq!(names, vec!["alpha", "a", "x", "broken"]);
    match &plans[0].1 {
        Ok(McpTransport::Stdio { program, args, env }) => {
            assert_eq!(program, "alpha-server");
            assert_eq!(args, &vec!["--stdio".to_string()]);
            assert!(env.is_empty());
        }
        other => panic!("unexpected: {:?}", other),
    }
    match &plans[1].1 {
        Ok(McpTransport::Http { url }) => assert_eq!(url, "http://h/a"),
        other => panic!("unexpected: {:?}", other),
    }
    match &plans[3].1 {
        Err(McpError::Config { field }) => assert_eq!(field, "url"),
        other => panic!("unexpected: {:?}", other),
    }
}

#[test]
fn connect_server_names_the_missing_field() {
    let no_command = McpServerConfig { command: None, args: vec![], env: vec![], disabled: false, transport_type: Some("stdio".to_string()), url: Some("http://ignored".to_string()) };
    match McpManager::connect_server(&no_command) {
        Err(McpError::Config { field }) => assert_eq!(field, "command"),
        other => panic!("unexpected: {:?}", other),
    }
    let odd_kind = McpServerConfig { transport_type: Some("sse".to_string()), ..stdio("run me", false) };
    match McpManager::connect_server(&odd_kind) {
        Ok(McpTransport::Stdio { program, args, .. }) => {
            assert_eq!(program, "run");
            assert_eq!(args, vec!["me".to_string()]);
        }
        other => panic!("unexpected: {:?}", other),
    }
    match McpManager::connect_server(&http(Some("http://h"), "streamable-http")) {
        Ok(McpTransport::Http { url }) => assert_eq!(url, "http://h"),
        other => panic!("unexpected: {:?}", other),
    }
}

#[test]
fn enabling_an_unknown_server_fails_and_changes_nothing() {
    let mut m = manager();
    let before: Vec<bool> = ["alpha", "a", "x", "off", "broken", "ghost"].iter().map(|n| m.is_enabled(n)).collect();
    match m.enable_server("ghost") {
        Err(McpError::ServerNotFound { server }) => assert_eq!(server, "ghost"),
        other => panic!("unexpected: {:?}", other),
    }
    let after: Vec<bool> = ["alpha", "a", "x", "off", "broken", "ghost"].iter().map(|n| m.is_enabled(n)).collect();
    assert_eq!(before, after);
    assert_eq!(m.connected_servers(), vec!["alpha", "a", "x"]);
}

#[test]
fn enabling_plans_a_connection_for_a_provider_that_is_not_connected() {
    let mut m = manager();
    match m.enable_server("off") {
        Ok(Some(McpTransport::Stdio { program, .. })) => assert_eq!(program, "off-server"),
        other => panic!("unexpected: {:?}", other),
    }
    assert!(m.is_enabled("off"));
    assert!(matches!(m.enable_server("alpha"), Ok(None)));
    assert!(m.is_enabled("alpha"));
    match m.enable_server("broken") {
        Err(McpError::Config { field }) => assert_eq!(field, "url"),
        other => panic!("unexpected: {:?}", other),
    }
    assert!(m.is_enabled("broken"));
}

#[test]
fn disabled_provider_lists_no_tools() {
    let mut m = manager();
    assert!(m.get_all_tools().iter().any(|(s, _)| s == "x"));
    assert!(m.disable_server("x"));
    assert!(m.get_all_tools().iter().all(|(s, _)| s != "x"));
    assert!(!m.is_enabled("x"));
    assert!(!m.is_connected("x"));
    assert_eq!(m.config().position("x"), Some(2));
    assert_eq!(m.connected_servers(), vec!["alpha", "a"]);
}

#[test]
fn disabling_what_is_neither_enabled_nor_connected_is_a_no_op() {
    let mut m = manager();
    assert!(!m.disable_server("ghost"));
    assert!(!m.disable_server("off"));
    assert_eq!(m.connected_servers(), vec!["alpha", "a", "x"]);
    assert_eq!(m.get_all_tools().len(), 4);
}

#[test]
fn registering_again_replaces_the_session() {
    let mut m = manager();
    assert!(m.register(connected("alpha", r#"[{"name":"fresh","inputSchema":{}}]"#)));
    assert_eq!(m.connected_servers(), vec!["a", "x", "alpha"]);
    let tools = m.get_all_tools();
    let names: Vec<(&str, &str)> = tools.iter().map(|(s, t)| (s.as_str(), t.name.as_str())).collect();
    assert_eq!(names, vec![("a", "b_c"), ("x", "only"), ("alpha", "fresh")]);
}

#[test]
fn all_tools_pairs_each_tool_with_its_provider() {
    let m = manager();
    let tools = m.get_all_tools();
    let names: Vec<(&str, &str)> = tools.iter().map(|(s, t)| (s.as_str(), t.name.as_str())).collect();
    assert_eq!(names, vec![("alpha", "beta"), ("alpha", "gamma"), ("a", "b_c"), ("x", "only")]);
    assert_eq!(tools[1].1.description.as_deref(), Some("G"));
}

#[test]
fn status_reports_every_configured_provider() {
    let mut m = manager();
    m.disable_server("x");
    let status = m.get_servers_status();
    assert_eq!(status.len(), 5);
    assert_eq!(status[0].name, "alpha");
    assert!(status[0].enabled && status[0].connected);
    assert_eq!(status[0].transport_type, "stdio");
    assert_eq!(status[0].tools_count, 2);
    assert_eq!(status[0].tools, vec!["beta", "gamma"]);
    assert_eq!(status[1].name, "a");
    assert_eq!(status[1].transport_type, "http");
    assert_eq!(status[1].tools, vec!["b_c"]);
    assert_eq!(status[2].name, "x");
    assert!(!status[2].enabled && !status[2].connected);
    assert_eq!(status[2].tools_count, 0);
    assert_eq!(status[3].name, "off");
    assert!(!status[3].enabled && !status[3].connected);
    assert_eq!(status[4].name, "broken");
    assert!(status[4].enabled && !status[4].connected);
    assert_eq!(status[4].transport_type, "streamable-http");
    assert!(status[4].tools.is_empty());
}

#[test]
fn call_tool_issues_the_next_request_of_the_session() {
    let mut m = manager();
    let r = m.call_tool("alpha", "beta", value(r#"{"q":1}"#)).unwrap();
    assert_eq!(r.id, 5);
    assert_eq!(r.method, "tools/call");
    assert_eq!(r.params, Some(value(r#"{"name":"beta","arguments":{"q":1}}"#)));
    let again = m.call_tool("alpha", "gamma", Value::Null).unwrap();
    assert_eq!(again.id, 6);
    assert_eq!(again.params, Some(value(r#"{"name":"gamma","arguments":null}"#)));
    let other = m.call_tool("x", "only", value("[]")).unwrap();
    assert_eq!(other.id, 5);
    let text = m.call_tool_text("x", "only", value("[]")).unwrap();
    assert_eq!(text.id, 6);
    assert_eq!(text.method, "tools/call");
}

#[test]
fn call_tool_refuses_disabled_and_unconnected_providers() {
    let mut m = manager();
    match m.call_tool("off", "t", Value::Null) {
        Err(McpError::ServerDisabled { server }) => assert_eq!(server, "off"),
        other => panic!("unexpected: {:?}", other),
    }
    match m.call_tool("ghost", "t", Value::Null) {
        Err(McpError::ServerDisabled { server }) => assert_eq!(server, "ghost"),
        other => panic!("unexpected: {:?}", other),
    }
    match m.call_tool("broken", "t", Value::Null) {
        Err(McpError::ServerNotFound { server }) => assert_eq!(server, "broken"),
        other => panic!("unexpected: {:?}", other),
    }
}

#[test]
fn full_name_splits_at_the_first_underscore() {
    let mut m = manager();
    let (server, request) = m.call_tool_by_full_name("alpha_beta", value(r#"{"k":"v"}"#)).unwrap();
    assert_eq!(server, "alpha");
    assert_eq!(request.params, Some(value(r#"{"name":"beta","arguments":{"k":"v"}}"#)));
    let (server, request) = m.call_tool_by_full_name("a_b_c", value("{}")).unwrap();
    assert_eq!(server, "a");
    assert_eq!(request.params, Some(value(r#"{"name":"b_c","arguments":{}}"#)));
    assert_eq!(request.id, 5);
}

#[test]
fn full_name_without_underscore_is_invalid() {
    let mut m = manager();
    match m.call_tool_by_full_name("alphabeta", Value::Null) {
        Err(McpError::InvalidName { name }) => assert_eq!(name, "alphabeta"),
        other => panic!("unexpected: {:?}", other),
    }
    match m.call_tool_by_full_name("", Value::Null) {
        Err(McpError::InvalidName { name }) => assert_eq!(name, ""),
        other => panic!("unexpected: {:?}", other),
    }
    match m.call_tool_by_full_name("_tool", Value::Null) {
        Err(McpError::ServerDisabled { server }) => assert_eq!(server, ""),
        other => panic!("unexpected: {:?}", other),
    }
    match m.call_tool_by_full_name("off_tool", Value::Null) {
        Err(McpError::ServerDisabled { server }) => assert_eq!(server, "off"),
        other => panic!("unexpected: {:?}", other),
    }
}

#[test]
fn complete_call_unwraps_or_annotates() {
    let m = manager();
    let ok = m.complete_call("alpha", reply(r#"{"jsonrpc":"2.0","id":5,"result":{"content":[]}}"#)).unwrap();
    assert_eq!(ok, value(r#"{"content":[]}"#));
    match m.complete_call("alpha", reply(r#"{"jsonrpc":"2.0","id":5,"error":{"code":2,"message":"m"}}"#)) {
        Err(McpError::Provider { server, cause }) => {
            assert_eq!(server, "alpha");
            match *cause {
                McpError::Rpc { code, message } => {
                    assert_eq!(code, 2);
                    assert_eq!(message, "m");
                }
                other => panic!("unexpected: {:?}", other),
            }
        }
        other => panic!("unexpected: {:?}", other),
    }
    match m.complete_call("alpha", Err(McpError::TransportClosed)) {
        Err(McpError::Provider { server, cause }) => {
            assert_eq!(server, "alpha");
            assert!(matches!(*cause, McpError::TransportClosed));
        }
        other => panic!("unexpected: {:?}", other),
    }
    match m.complete_call("off", reply(r#"{"jsonrpc":"2.0","id":5,"result":1}"#)) {
        Err(McpError::ServerNotFound { server }) => assert_eq!(server, "off"),
        other => panic!("unexpected: {:?}", other),
    }
}

#[test]
fn complete_call_text_reduces_the_result() {
    let m = manager();
    let text = m
        .complete_call_text("x", reply(r#"{"jsonrpc":"2.0","id":5,"result":{"content":[{"type":"text","text":"one"},{"type":"text","text":"two"}]}}"#))
        .unwrap();
    assert_eq!(text, "one\ntwo");
    assert!(matches!(
        m.complete_call_text("x", reply(r#"{"jsonrpc":"2.0","id":5}"#)),
        Err(McpError::Provider { .. })
    ));
}

#[test]
fn extract_text_joins_the_texts_of_content() {
    assert_eq!(McpManager::extract_text(&value(r#"{"content":[{"text":"a"},{"text":"b"}]}"#)), "a\nb");
    assert_eq!(McpManager::extract_text(&value(r#"{"other":1}"#)), "{\"other\":1}");
}

#[test]
fn extract_text_skips_items_without_text() {
    assert_eq!(
        McpManager::extract_text(&value(r#"{"content":[{"image":"x"},{"text":"a"},{"text":5},7,{"text":""},{"text":"b"}]}"#)),
        "a\n\nb"
    );
    assert_eq!(McpManager::extract_text(&value(r#"{"content":[{"text":""},{"text":"b"}]}"#)), "\nb");
    assert_eq!(McpManager::extract_text(&value(r#"{"content":[]}"#)), "");
    assert_eq!(McpManager::extract_text(&value(r#"{"content":[{"data":1}]}"#)), "");
}

#[test]
fn extract_text_prints_the_whole_result_where_content_is_no_array() {
    assert_eq!(McpManager::extract_text(&value(r#"{"content":"hi"}"#)), "{\"content\":\"hi\"}");
    assert_eq!(
        McpManager::extract_text(&value(r#"{"content":{"b":1,"a":2}}"#)),
        "{\"content\":{\"a\":2,\"b\":1}}"
    );
    assert_eq!(McpManager::extract_text(&value(r#"{"x":1,"content":null}"#)), "{\"content\":null,\"x\":1}");
    assert_eq!(McpManager::extract_text(&value("[1, 2]")), "[1,2]");
    assert_eq!(McpManager::extract_text(&value("\"s\"")), "\"s\"");
}

#[test]
fn command_that_names_no_program_fails_alone() {
    let blank = McpConfig {
        mcp_servers: vec![
            ("ok".to_string(), stdio("run this", false)),
            ("blank".to_string(), stdio("  ", false)),
            ("blank-off".to_string(), stdio(" ", true)),
            ("empty".to_string(), stdio("", false)),
            ("blank-http".to_string(), McpServerConfig { command: Some(" ".to_string()), ..http(Some("http://h"), "http") }),
        ],
    };
    match McpManager::connect_server(&blank.mcp_servers[1].1) {
        Err(McpError::TransportSpawn { detail }) => assert_eq!(detail, "the command names no program"),
        other => panic!("unexpected: {:?}", other),
    }
    assert!(matches!(McpManager::connect_server(&blank.mcp_servers[3].1), Err(McpError::TransportSpawn { .. })));
    assert!(matches!(McpManager::connect_server(&blank.mcp_servers[4].1), Ok(McpTransport::Http { .. })));
    let mut m = McpManager::new(blank);
    let plans = m.connect_all();
    assert_eq!(plans.iter().map(|p| p.0.as_str()).collect::<Vec<_>>(), vec!["ok", "blank", "empty", "blank-http"]);
    assert!(matches!(plans[0].1, Ok(McpTransport::Stdio { .. })));
    assert!(matches!(plans[1].1, Err(McpError::TransportSpawn { .. })));
    assert!(matches!(plans[2].1, Err(McpError::TransportSpawn { .. })));
    assert!(matches!(plans[3].1, Ok(McpTransport::Http { .. })));
    assert!(matches!(m.enable_server("blank-off"), Err(McpError::TransportSpawn { .. })));
    assert!(m.is_enabled("blank-off"));
    assert!(!m.is_connected("blank-off"));
    assert!(matches!(m.enable_server("ok"), Ok(Some(McpTransport::Stdio { .. }))));
    assert!(m.connected_servers().is_empty());
}

#[test]
fn tool_calls_can_be_issued_while_ids_last() {
    let m = manager();
    for name in ["alpha", "a", "x", "off", "ghost", "broken"] {
        assert!(m.can_issue(name));
    }
    assert!(m.can_issue_by_full_name("alpha_beta"));
    assert!(m.can_issue_by_full_name("nounderscore"));
    assert!(m.can_issue_by_full_name("_"));
}

use llm_agent::config::{find_var, find_var_or, Config, DEFAULT_PORT, DEFAULT_SYSTEM_PROMPT};
use llm_agent::error::AgentError;
use llm_agent::handlers::{
    chat_answer, chat_messages, chunk_content, completion_answer, completion_messages,
    full_tool_name, run_answer, usage_info, DEFAULT_CHAT_PROMPT,
};
use llm_agent::models::{
    ChatCompletionChunk, ChatCompletionResponse, Choice, Delta, Message, MessageFunctionCall,
    MessageToolCall, ResponseMessage, Role, StreamChoice, Usage,
};
use llm_agent::openrouter::{
    authorization, chat_url, check_status, convert_tools, drain_events, models_url,
};
use llm_agent::tools::{FunctionDef, ToolDefinition};

fn env(items: &[(&str, &str)]) -> Vec<(String, String)> {
    items.iter().map(|(k, v)| (k.to_string(), v.to_string())).collect()
}

fn completion(content: Option<&str>) -> ChatCompletionResponse {
    ChatCompletionResponse {
        id: "gen-1".to_string(),
        choices: vec![
            Choice {
                index: 0,
                message: ResponseMessage { role: "assistant".to_string(), content: content.map(|c| c.to_string()), tool_calls: None },
                finish_reason: Some("stop".to_string()),
            },
            Choice {
                index: 1,
                message: ResponseMessage { role: "assistant".to_string(), content: Some("second".to_string()), tool_calls: None },
                finish_reason: None,
            },
        ],
        model: "m/1".to_string(),
        usage: Some(Usage { prompt_tokens: 3, completion_tokens: 4, total_tokens: 7 }),
    }
}

#[test]
fn plain_messages_have_role_and_content_only() {
    for (m, role, text) in [
        (Message::system("be brief"), Role::System, "be brief"),
        (Message::user("hi"), Role::User, "hi"),
        (Message::assistant(""), Role::Assistant, ""),
    ] {
        assert_eq!(m.role, role);
        assert_eq!(m.content.as_deref(), Some(text));
        assert!(m.name.is_none() && m.tool_calls.is_none() && m.tool_call_id.is_none());
    }
}

#[test]
fn assistant_with_tool_calls_keeps_them() {
    let call = MessageToolCall {
        id: "c1".to_string(),
        call_type: "function".to_string(),
        function: MessageFunctionCall { name: "mcp_a_b".to_string(), arguments: "{}".to_string() },
    };
    let m = Message::assistant_with_tool_calls(None, vec![call]);
    assert_eq!(m.role, Role::Assistant);
    assert_eq!(m.content, None);
    let calls = m.tool_calls.unwrap();
    assert_eq!(calls.len(), 1);
    assert_eq!(calls[0].id, "c1");
    assert_eq!(calls[0].function.name, "mcp_a_b");
    assert!(m.tool_call_id.is_none());
    let with_text = Message::assistant_with_tool_calls(Some("thinking".to_string()), vec![]);
    assert_eq!(with_text.content.as_deref(), Some("thinking"));
    assert_eq!(with_text.tool_calls.unwrap().len(), 0);
}

#[test]
fn tool_result_names_its_call() {
    let m = Message::tool_result("call-9", "42");
    assert_eq!(m.role, Role::Tool);
    assert_eq!(m.content.as_deref(), Some("42"));
    assert_eq!(m.tool_call_id.as_deref(), Some("call-9"));
    assert!(m.name.is_none() && m.tool_calls.is_none());
}

#[test]
fn error_messages_name_the_kind() {
    assert_eq!(AgentError::ConfigError("x".into()).message(), "Configuration error: x");
    assert_eq!(AgentError::RequestFailed("x".into()).message(), "Request failed: x");
    assert_eq!(AgentError::ApiError { status: 429, message: "slow down".into() }.message(), "API error (status 429): slow down");
    assert_eq!(AgentError::ApiError { status: 0, message: "".into() }.message(), "API error (status 0): ");
    assert_eq!(AgentError::ParseError("x".into()).message(), "Parse error: x");
    assert_eq!(AgentError::StreamError("x".into()).message(), "Stream error: x");
    assert_eq!(AgentError::InvalidRequest("x".into()).message(), "Invalid request: x");
    assert_eq!(AgentError::Internal("x".into()).message(), "Internal error: x");
    assert_eq!(AgentError::ToolError("x".into()).message(), "Tool error: x");
}

#[test]
fn error_responses_carry_status_and_code() {
    let cases = vec![
        (AgentError::ConfigError("m".into()), 500, "CONFIG_ERROR"),
        (AgentError::RequestFailed("m".into()), 502, "REQUEST_FAILED"),
        (AgentError::ApiError { status: 429, message: "m".into() }, 429, "API_ERROR"),
        (AgentError::ApiError { status: 99, message: "m".into() }, 502, "API_ERROR"),
        (AgentError::ApiError { status: 100, message: "m".into() }, 100, "API_ERROR"),
        (AgentError::ApiError { status: 999, message: "m".into() }, 999, "API_ERROR"),
        (AgentError::ApiError { status: 1000, message: "m".into() }, 502, "API_ERROR"),
        (AgentError::ParseError("m".into()), 500, "PARSE_ERROR"),
        (AgentError::StreamError("m".into()), 500, "STREAM_ERROR"),
        (AgentError::InvalidRequest("m".into()), 400, "INVALID_REQUEST"),
        (AgentError::Internal("m".into()), 500, "INTERNAL_ERROR"),
        (AgentError::ToolError("m".into()), 500, "TOOL_ERROR"),
    ];
    for (e, status, code) in cases {
        let (s, body) = e.into_response();
        assert_eq!(s, status);
        assert_eq!(body.code, code);
        assert_eq!(body.error, "m");
    }
}

#[test]
fn config_needs_the_api_key() {
    assert!(Config::from_env(&env(&[("DEFAULT_MODEL", "m")])).is_none());
    assert!(Config::from_env(&env(&[])).is_none());
}

#[test]
fn config_takes_defaults() {
    let c = Config::from_env(&env(&[("OPENROUTER_API_KEY", "k")])).unwrap();
    assert_eq!(c.openrouter_api_key, "k");
    assert_eq!(c.openrouter_base_url, "https://openrouter.ai/api/v1");
    assert_eq!(c.default_model, "openrouter/auto");
    assert_eq!(c.server_host, "0.0.0.0");
    assert_eq!(c.server_port, 3000);
    assert_eq!(DEFAULT_PORT, 3000);
    assert_eq!(c.system_prompt, DEFAULT_SYSTEM_PROMPT);
    assert!(c.system_prompt.starts_with("You are a helpful AI assistant with access to MCP tools. Use tools"));
}

#[test]
fn config_takes_what_is_set() {
    let c = Config::from_env(&env(&[
        ("SERVER_PORT", "8080"),
        ("OPENROUTER_API_KEY", ""),
        ("OPENROUTER_BASE_URL", "http://localhost:1"),
        ("DEFAULT_MODEL", "m/x"),
        ("SERVER_HOST", "127.0.0.1"),
        ("SYSTEM_PROMPT", "p"),
    ]))
    .unwrap();
    assert_eq!(c.openrouter_api_key, "");
    assert_eq!(c.openrouter_base_url, "http://localhost:1");
    assert_eq!(c.default_model, "m/x");
    assert_eq!(c.server_host, "127.0.0.1");
    assert_eq!(c.server_port, 8080);
    assert_eq!(c.system_prompt, "p");
}

#[test]
fn port_that_is_no_number_gives_the_default() {
    for bad in ["", "http", "70000", "-1", " 80"] {
        let c = Config::from_env(&env(&[("OPENROUTER_API_KEY", "k"), ("SERVER_PORT", bad)])).unwrap();
        assert_eq!(c.server_port, 3000);
    }
    let e = env(&[("A", "1"), ("A", "2")]);
    assert_eq!(find_var(&e, "A"), Some("1".to_string()));
    assert_eq!(find_var(&e, "B"), None);
    assert_eq!(find_var_or(&e, "B", "d"), "d");
    assert_eq!(find_var_or(&e, "A", "d"), "1");
}

#[test]
fn completion_messages_put_the_system_prompt_first() {
    let out = completion_messages(vec![Message::user("a"), Message::assistant("b")], Some("sys".to_string()));
    assert_eq!(out.len(), 3);
    assert_eq!(out[0].role, Role::System);
    assert_eq!(out[0].content.as_deref(), Some("sys"));
    assert_eq!(out[1].content.as_deref(), Some("a"));
    assert_eq!(out[2].content.as_deref(), Some("b"));
    let same = completion_messages(vec![Message::user("a")], None);
    assert_eq!(same.len(), 1);
    assert_eq!(same[0].role, Role::User);
}

#[test]
fn chat_messages_frame_the_conversation() {
    let out = chat_messages("now", vec![Message::user("a"), Message::assistant("b")], None);
    assert_eq!(out.len(), 4);
    assert_eq!(out[0].role, Role::System);
    assert_eq!(out[0].content.as_deref(), Some(DEFAULT_CHAT_PROMPT));
    assert_eq!(out[1].content.as_deref(), Some("a"));
    assert_eq!(out[2].content.as_deref(), Some("b"));
    assert_eq!(out[3].role, Role::User);
    assert_eq!(out[3].content.as_deref(), Some("now"));
    let custom = chat_messages("q", vec![], Some("short".to_string()));
    assert_eq!(custom.len(), 2);
    assert_eq!(custom[0].content.as_deref(), Some("short"));
}

#[test]
fn completion_answer_takes_the_first_choice() {
    let a = completion_answer(completion(Some("hello"))).unwrap();
    assert_eq!(a.id, "gen-1");
    assert_eq!(a.content, "hello");
    assert_eq!(a.model, "m/1");
    assert_eq!(a.finish_reason.as_deref(), Some("stop"));
    let u = a.usage.unwrap();
    assert_eq!((u.prompt_tokens, u.completion_tokens, u.total_tokens), (3, 4, 7));
    assert_eq!(completion_answer(completion(None)).unwrap().content, "");
    assert!(usage_info(None).is_none());
}

#[test]
fn completion_without_choice_is_a_parse_error() {
    let empty = ChatCompletionResponse { id: "g".into(), choices: vec![], model: "m".into(), usage: None };
    match completion_answer(empty) {
        Err(AgentError::ParseError(m)) => assert_eq!(m, "No choices in response"),
        other => panic!("unexpected: {:?}", other),
    }
    let empty = ChatCompletionResponse { id: "g".into(), choices: vec![], model: "m".into(), usage: None };
    match chat_answer("id".into(), empty) {
        Err(AgentError::ParseError(m)) => assert_eq!(m, "No choices in response"),
        other => panic!("unexpected: {:?}", other),
    }
}

#[test]
fn chat_and_run_answers_carry_the_given_id() {
    let a = chat_answer("id-1".into(), completion(Some("hey"))).unwrap();
    assert_eq!(a.id, "id-1");
    assert_eq!(a.message, "hey");
    assert_eq!(a.model, "m/1");
    assert!(a.steps.is_none());
    assert_eq!(a.usage.unwrap().total_tokens, 7);
    let r = run_answer(
        "id-2".into(),
        llm_agent::agent::AgentResponse { steps: vec![], final_answer: "done".into(), iterations: 2 },
    );
    assert_eq!(r.id, "id-2");
    assert_eq!(r.final_answer, "done");
    assert_eq!(r.iterations, 2);
    assert!(r.steps.is_empty());
    assert_eq!(full_tool_name("files", "read_file"), "files_read_file");
}

#[test]
fn chunk_content_is_that_of_the_first_choice() {
    let chunk = ChatCompletionChunk {
        id: "c".into(),
        choices: vec![StreamChoice {
            index: 0,
            delta: Delta { role: None, content: Some("tok".into()), tool_calls: None },
            finish_reason: Some("length".into()),
        }],
        model: None,
    };
    assert_eq!(chunk_content(&chunk), ("tok".to_string(), Some("length".to_string())));
    let silent = ChatCompletionChunk {
        id: "c".into(),
        choices: vec![StreamChoice { index: 0, delta: Delta { role: None, content: None, tool_calls: None }, finish_reason: None }],
        model: None,
    };
    assert_eq!(chunk_content(&silent), (String::new(), None));
    let none = ChatCompletionChunk { id: "c".into(), choices: vec![], model: None };
    assert_eq!(chunk_content(&none), (String::new(), None));
}

#[test]
fn gateway_addresses_and_header() {
    assert_eq!(chat_url("https://openrouter.ai/api/v1"), "https://openrouter.ai/api/v1/chat/completions");
    assert_eq!(models_url("http://h"), "http://h/models");
    assert_eq!(authorization("sk-1"), "Bearer sk-1");
}

#[test]
fn gateway_status_is_judged() {
    assert_eq!(check_status(200, "b".into()).unwrap(), "b");
    assert_eq!(check_status(299, "b".into()).unwrap(), "b");
    for status in [100u16, 199, 300, 401, 500] {
        match check_status(status, "why".into()) {
            Err(AgentError::ApiError { status: s, message }) => {
                assert_eq!(s, status);
                assert_eq!(message, "why");
            }
            other => panic!("unexpected: {:?}", other),
        }
    }
}

#[test]
fn tools_are_converted_member_by_member() {
    let given = vec![ToolDefinition {
        tool_type: "function".into(),
        function: FunctionDef { name: "n".into(), description: "d".into(), parameters: serde_json::from_str("{\"a\":1}").unwrap() },
    }];
    let out = convert_tools(Some(given)).unwrap();
    assert_eq!(out.len(), 1);
    assert_eq!(out[0].tool_type, "function");
    assert_eq!(out[0].function.name, "n");
    assert_eq!(out[0].function.description, "d");
    assert_eq!(out[0].function.parameters.to_string(), "{\"a\":1}");
    assert!(convert_tools(None).is_none());
    assert_eq!(convert_tools(Some(vec![])).unwrap().len(), 0);
}

#[test]
fn stream_events_are_cut_at_blank_lines() {
    let e = drain_events("data: {\"a\":1}\n\n: ping\n\ndata: {\"a\":2}\n\ndata: {\"a\"");
    assert_eq!(e.payloads, vec!["{\"a\":1}", "{\"a\":2}"]);
    assert!(!e.done);
    assert_eq!(e.rest, "data: {\"a\"");
    let none = drain_events("data: partial\n");
    assert!(none.payloads.is_empty());
    assert!(!none.done);
    assert_eq!(none.rest, "data: partial\n");
    let empty = drain_events("");
    assert!(empty.payloads.is_empty() && !empty.done && empty.rest.is_empty());
}

#[test]
fn done_mark_ends_the_stream() {
    let e = drain_events("data: x\n\ndata: [DONE]\n\ndata: late\n\n");
    assert_eq!(e.payloads, vec!["x"]);
    assert!(e.done);
    assert_eq!(e.rest, "data: late\n\n");
    let odd = drain_events("data:[DONE]\n\ndata: [DONE] \n\ndata: \n\n\n\ndata: y\n\n");
    assert_eq!(odd.payloads, vec!["[DONE] ", "", "y"]);
    assert!(!odd.done);
    assert_eq!(odd.rest, "");
}

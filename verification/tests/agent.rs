use llm_agent::agent::{Agent, AgentAction, RunPhase, StepType, MAX_ITERATIONS};
use llm_agent::config::Config;
use llm_agent::error::AgentError;
use llm_agent::mcp::types::McpTool;
use llm_agent::models::{
    ChatCompletionResponse, Choice, FunctionCall, Message, ResponseMessage, Role, ToolCall,
};
use llm_agent::tools::{find_operator, ToolPlan, ToolRegistry};

fn config() -> Config {
    Config {
        openrouter_api_key: "k".into(),
        openrouter_base_url: "http://h".into(),
        default_model: "m/default".into(),
        server_host: "0.0.0.0".into(),
        server_port: 3000,
        system_prompt: "default prompt".into(),
    }
}

fn call(id: &str, name: &str, arguments: &str) -> ToolCall {
    ToolCall { id: id.into(), call_type: "function".into(), function: FunctionCall { name: name.into(), arguments: arguments.into() } }
}

fn answer(content: Option<&str>, calls: Option<Vec<ToolCall>>) -> Result<ChatCompletionResponse, AgentError> {
    Ok(ChatCompletionResponse {
        id: "g".into(),
        choices: vec![Choice {
            index: 0,
            message: ResponseMessage { role: "assistant".into(), content: content.map(|c| c.to_string()), tool_calls: calls },
            finish_reason: None,
        }],
        model: "m".into(),
        usage: None,
    })
}

#[test]
fn tool_names_resolve_to_provider_and_tool() {
    assert_eq!(Agent::parse_mcp_tool_name("mcp_files_read_file"), Some(("files".to_string(), "read_file".to_string())));
    assert_eq!(Agent::parse_mcp_tool_name("mcp_a_b"), Some(("a".to_string(), "b".to_string())));
    assert_eq!(Agent::parse_mcp_tool_name("mcp__b"), Some(("".to_string(), "b".to_string())));
    assert_eq!(Agent::parse_mcp_tool_name("mcp_a_"), Some(("a".to_string(), "".to_string())));
    for bad in ["", "mcp", "mcp_", "mcp_files", "files_read", "MCP_a_b", "xmcp_a_b"] {
        assert_eq!(Agent::parse_mcp_tool_name(bad), None, "{}", bad);
    }
}

#[test]
fn offered_tools_are_named_after_their_provider() {
    let listed = vec![
        ("files".to_string(), McpTool { name: "read".into(), description: Some("Reads a file".into()), input_schema: serde_json::from_str("{\"type\":\"object\"}").unwrap() }),
        ("web".to_string(), McpTool { name: "get_page".into(), description: None, input_schema: serde_json::Value::Null }),
    ];
    let tools = Agent::get_tools(listed);
    assert_eq!(tools.len(), 2);
    assert_eq!(tools[0].tool_type, "function");
    assert_eq!(tools[0].function.name, "mcp_files_read");
    assert_eq!(tools[0].function.description, "Reads a file");
    assert_eq!(tools[0].function.parameters.to_string(), "{\"type\":\"object\"}");
    assert_eq!(tools[1].function.name, "mcp_web_get_page");
    assert_eq!(tools[1].function.description, "MCP tool from web");
    assert!(tools[1].function.parameters.is_null());
    assert!(Agent::get_tools(vec![]).is_empty());
    let (server, tool) = Agent::parse_mcp_tool_name(&tools[1].function.name).unwrap();
    assert_eq!((server.as_str(), tool.as_str()), ("web", "get_page"));
}

#[test]
fn tool_calls_are_resolved_or_refused() {
    let plan = Agent::execute_tool("mcp_files_read", "{\"path\":\"/a\"}").unwrap();
    assert_eq!(plan.server, "files");
    assert_eq!(plan.tool, "read");
    assert_eq!(plan.arguments.to_string(), "{\"path\":\"/a\"}");
    match Agent::execute_tool("calculator", "{}") {
        Err(AgentError::ToolError(m)) => assert_eq!(m, "Unknown tool: calculator"),
        other => panic!("unexpected: {:?}", other),
    }
    match Agent::execute_tool("mcp_files_read", "{path") {
        Err(AgentError::ToolError(m)) => assert!(m.starts_with("Invalid arguments: "), "{}", m),
        other => panic!("unexpected: {:?}", other),
    }
}

#[test]
fn run_opens_the_conversation() {
    let agent = Agent::new(config());
    let run = agent.run("question", vec![Message::user("earlier"), Message::assistant("reply")], None, None, vec![]);
    assert_eq!(run.phase(), RunPhase::AwaitingModel);
    assert_eq!(run.iterations(), 1);
    assert_eq!(run.model(), "m/default");
    assert!(run.steps().is_empty());
    assert!(run.tools().is_empty());
    let m = run.messages();
    assert_eq!(m.len(), 4);
    assert_eq!((m[0].role, m[0].content.as_deref()), (Role::System, Some("default prompt")));
    assert_eq!(m[1].content.as_deref(), Some("earlier"));
    assert_eq!(m[2].content.as_deref(), Some("reply"));
    assert_eq!((m[3].role, m[3].content.as_deref()), (Role::User, Some("question")));
    let other = agent.run("q", vec![], Some("be terse".into()), Some("m/other".into()), vec![]);
    assert_eq!(other.model(), "m/other");
    assert_eq!(other.messages()[0].content.as_deref(), Some("be terse"));
    assert_eq!(other.messages().len(), 2);
}

#[test]
fn answer_without_tools_is_final() {
    let agent = Agent::new(config());
    let mut run = agent.run("q", vec![], None, None, vec![]);
    match run.on_model(answer(Some("the answer"), None)) {
        AgentAction::Finish(r) => {
            assert_eq!(r.final_answer, "the answer");
            assert_eq!(r.iterations, 1);
            assert_eq!(r.steps.len(), 1);
            assert_eq!(r.steps[0].step_type, StepType::FinalAnswer);
            assert_eq!(r.steps[0].content, "the answer");
            assert!(r.steps[0].tool_name.is_none() && r.steps[0].tool_input.is_none() && r.steps[0].tool_output.is_none());
        }
        other => panic!("unexpected: {:?}", other),
    }
    assert_eq!(run.phase(), RunPhase::Finished);
    let mut silent = agent.run("q", vec![], None, None, vec![]);
    match silent.on_model(answer(None, Some(vec![]))) {
        AgentAction::Finish(r) => {
            assert_eq!(r.final_answer, "");
            assert_eq!(r.steps.len(), 1);
        }
        other => panic!("unexpected: {:?}", other),
    }
}

#[test]
fn gateway_failure_and_missing_choice_end_the_run() {
    let agent = Agent::new(config());
    let mut run = agent.run("q", vec![], None, None, vec![]);
    match run.on_model(Err(AgentError::RequestFailed("timeout".into()))) {
        AgentAction::Fail(AgentError::RequestFailed(m)) => assert_eq!(m, "timeout"),
        other => panic!("unexpected: {:?}", other),
    }
    assert_eq!(run.phase(), RunPhase::Finished);
    let mut run = agent.run("q", vec![], None, None, vec![]);
    let empty = ChatCompletionResponse { id: "g".into(), choices: vec![], model: "m".into(), usage: None };
    match run.on_model(Ok(empty)) {
        AgentAction::Fail(AgentError::ParseError(m)) => assert_eq!(m, "No choices in response"),
        other => panic!("unexpected: {:?}", other),
    }
}

#[test]
fn tools_are_called_in_turn_and_recorded() {
    let agent = Agent::new(config());
    let mut run = agent.run("q", vec![], None, None, vec![]);
    let action = run.on_model(answer(
        Some("let me look"),
        Some(vec![call("c1", "mcp_files_read", "{\"p\":1}"), call("c2", "mcp_web_get", "{}")]),
    ));
    match action {
        AgentAction::CallTool { name, arguments } => {
            assert_eq!(name, "mcp_files_read");
            assert_eq!(arguments, "{\"p\":1}");
        }
        other => panic!("unexpected: {:?}", other),
    }
    assert_eq!(run.phase(), RunPhase::AwaitingTool);
    assert_eq!(run.steps().len(), 2);
    assert_eq!(run.steps()[0].step_type, StepType::Thinking);
    assert_eq!(run.steps()[0].content, "let me look");
    assert_eq!(run.steps()[1].step_type, StepType::ToolCall);
    assert_eq!(run.steps()[1].content, "Calling: mcp_files_read");
    assert_eq!(run.steps()[1].tool_name.as_deref(), Some("mcp_files_read"));
    assert_eq!(run.steps()[1].tool_input.as_deref(), Some("{\"p\":1}"));
    assert_eq!(run.steps()[1].tool_output, None);
    let asked = &run.messages()[2];
    assert_eq!(asked.role, Role::Assistant);
    assert_eq!(asked.content.as_deref(), Some("let me look"));
    let calls = asked.tool_calls.as_ref().unwrap();
    assert_eq!(calls.len(), 2);
    assert_eq!((calls[1].id.as_str(), calls[1].call_type.as_str(), calls[1].function.name.as_str()), ("c2", "function", "mcp_web_get"));

    match run.on_tool(Ok("file text".into())) {
        AgentAction::CallTool { name, arguments } => {
            assert_eq!(name, "mcp_web_get");
            assert_eq!(arguments, "{}");
        }
        other => panic!("unexpected: {:?}", other),
    }
    assert_eq!(run.steps().len(), 4);
    assert_eq!(run.steps()[2].step_type, StepType::ToolResult);
    assert_eq!(run.steps()[2].content, "file text");
    assert_eq!(run.steps()[2].tool_name.as_deref(), Some("mcp_files_read"));
    assert_eq!(run.steps()[2].tool_input, None);
    assert_eq!(run.steps()[2].tool_output.as_deref(), Some("file text"));
    assert_eq!(run.steps()[3].content, "Calling: mcp_web_get");
    let answered = &run.messages()[3];
    assert_eq!((answered.role, answered.content.as_deref(), answered.tool_call_id.as_deref()), (Role::Tool, Some("file text"), Some("c1")));

    assert!(matches!(run.on_tool(Err(AgentError::ToolError("Server web is disabled".into()))), AgentAction::AskModel));
    assert_eq!(run.phase(), RunPhase::AwaitingModel);
    assert_eq!(run.iterations(), 2);
    assert_eq!(run.steps().len(), 5);
    assert_eq!(run.steps()[4].step_type, StepType::Error);
    assert_eq!(run.steps()[4].content, "Error: Tool error: Server web is disabled");
    assert_eq!(run.steps()[4].tool_output.as_deref(), Some("Error: Tool error: Server web is disabled"));
    assert_eq!(run.messages()[4].tool_call_id.as_deref(), Some("c2"));
    assert_eq!(run.messages()[4].content.as_deref(), Some("Error: Tool error: Server web is disabled"));

    match run.on_model(answer(Some("done"), None)) {
        AgentAction::Finish(r) => {
            assert_eq!(r.final_answer, "done");
            assert_eq!(r.iterations, 2);
            assert_eq!(r.steps.len(), 6);
        }
        other => panic!("unexpected: {:?}", other),
    }
}

#[test]
fn empty_thought_is_not_recorded() {
    let agent = Agent::new(config());
    let mut run = agent.run("q", vec![], None, None, vec![]);
    run.on_model(answer(Some(""), Some(vec![call("c", "mcp_a_b", "{}")])));
    assert_eq!(run.steps().len(), 1);
    assert_eq!(run.steps()[0].step_type, StepType::ToolCall);
    assert_eq!(run.messages()[2].content.as_deref(), Some(""));
    let mut run = agent.run("q", vec![], None, None, vec![]);
    run.on_model(answer(None, Some(vec![call("c", "mcp_a_b", "{}")])));
    assert_eq!(run.steps().len(), 1);
    assert_eq!(run.messages()[2].content, None);
}

#[test]
fn run_stops_at_the_iteration_limit() {
    assert_eq!(MAX_ITERATIONS, 10);
    let agent = Agent::new(config());
    let mut run = agent.run("q", vec![], None, None, vec![]);
    let mut asked = 0;
    let last = loop {
        asked += 1;
        match run.on_model(answer(None, Some(vec![call("c", "mcp_a_b", "{}")]))) {
            AgentAction::CallTool { .. } => {}
            other => panic!("unexpected: {:?}", other),
        }
        let text = format!("result {}", asked);
        match run.on_tool(Ok(text)) {
            AgentAction::AskModel => assert_eq!(run.iterations(), asked + 1),
            AgentAction::Finish(r) => break r,
            other => panic!("unexpected: {:?}", other),
        }
    };
    assert_eq!(asked, 10);
    assert_eq!(last.iterations, 11);
    assert_eq!(last.final_answer, "result 10");
    assert_eq!(last.steps.len(), 21);
    assert_eq!(last.steps[20].step_type, StepType::Error);
    assert_eq!(last.steps[20].content, "Maximum iterations reached");
    assert_eq!(run.phase(), RunPhase::Finished);
}

#[test]
fn run_without_usable_step_is_incomplete() {
    let agent = Agent::new(config());
    let mut run = agent.run("q", vec![], None, None, vec![]);
    let last = loop {
        run.on_model(answer(None, Some(vec![call("c", "mcp_a_b", "{}")])));
        match run.on_tool(Err(AgentError::ToolError("no".into()))) {
            AgentAction::AskModel => {}
            AgentAction::Finish(r) => break r,
            other => panic!("unexpected: {:?}", other),
        }
    };
    assert_eq!(last.final_answer, "Task incomplete: iteration limit reached.");
    assert_eq!(last.iterations, 11);
}

#[test]
fn final_response_appends_the_answer() {
    let r = Agent::create_final_response(vec![], &Some("x".to_string()), 3);
    assert_eq!(r.final_answer, "x");
    assert_eq!(r.iterations, 3);
    assert_eq!(r.steps.len(), 1);
    assert_eq!(r.steps[0].step_type, StepType::FinalAnswer);
    assert_eq!(r.steps[0].content, "x");
    let none = Agent::create_final_response(r.steps, &None, 4);
    assert_eq!(none.final_answer, "");
    assert_eq!(none.steps.len(), 2);
    assert_eq!(none.steps[1].content, "");
}

#[test]
fn last_operator_outside_parentheses_is_found() {
    let plus_minus = ['+', '-'];
    let times = ['*', '/'];
    assert_eq!(find_operator("1+2", &plus_minus), Some(1));
    assert_eq!(find_operator("1+2-3", &plus_minus), Some(3));
    assert_eq!(find_operator("2*3+4*5", &plus_minus), Some(3));
    assert_eq!(find_operator("2*3+4*5", &times), Some(5));
    assert_eq!(find_operator("(1+2)*3", &plus_minus), None);
    assert_eq!(find_operator("(1+2)*3", &times), Some(5));
    assert_eq!(find_operator("2*(3+(4-5))-1", &plus_minus), Some(11));
    assert_eq!(find_operator("2*(3+(4-5))", &plus_minus), None);
    assert_eq!(find_operator("-5", &plus_minus), None);
    assert_eq!(find_operator("-5+3", &plus_minus), Some(2));
    assert_eq!(find_operator("3*-5", &plus_minus), Some(2));
    assert_eq!(find_operator("", &plus_minus), None);
    assert_eq!(find_operator("12", &plus_minus), None);
    assert_eq!(find_operator("1+2", &[]), None);
    assert_eq!(find_operator("1)+(2", &plus_minus), None);
    assert_eq!(find_operator("é+1", &plus_minus), Some(1));
    assert_eq!(find_operator("1(2)", &['(', ')']), None);
    assert_eq!(find_operator("1(2", &['(', '2']), Some(2));
}

#[test]
fn registry_holds_the_built_in_tools() {
    let registry = ToolRegistry::new();
    let all = registry.get_all();
    let names: Vec<&str> = all.iter().map(|t| t.function.name.as_str()).collect();
    assert_eq!(names, vec!["calculator", "get_current_time", "web_search", "save_note", "run_code"]);
    for tool in &all {
        assert_eq!(tool.tool_type, "function");
        assert_eq!(tool.function.parameters["type"], "object");
        assert!(tool.function.parameters["properties"].is_object());
        assert!(tool.function.parameters["required"].is_array());
    }
    let calc = registry.get("calculator").unwrap();
    assert_eq!(calc.function.description, "Perform mathematical calculations. Supports basic arithmetic operations.");
    assert_eq!(calc.function.parameters["properties"]["expression"]["description"], "Mathematical expression to evaluate, e.g., '2 + 2 * 3'");
    assert_eq!(calc.function.parameters["required"][0], "expression");
    let code = registry.get("run_code").unwrap();
    assert_eq!(code.function.parameters["properties"]["language"]["enum"][1], "javascript");
    assert!(registry.get("nothing").is_none());
    assert_eq!(ToolRegistry::default().get_all().len(), 5);
}

#[test]
fn registering_replaces_a_tool_of_the_same_name() {
    let mut registry = ToolRegistry::new();
    let mut custom = registry.get("web_search").unwrap().clone();
    custom.function.description = "mine".into();
    registry.register(custom);
    assert_eq!(registry.get_all().len(), 5);
    assert_eq!(registry.get("web_search").unwrap().function.description, "mine");
    assert_eq!(registry.get_all()[2].function.name, "web_search");
    let mut extra = registry.get("save_note").unwrap().clone();
    extra.function.name = "extra".into();
    registry.register(extra);
    assert_eq!(registry.get_all().len(), 6);
    assert_eq!(registry.get_all()[5].function.name, "extra");
}

#[test]
fn built_in_tools_execute() {
    let registry = ToolRegistry::new();
    match registry.execute("calculator", "{\"expression\":\"2 + 2\"}") {
        ToolPlan::Calculate { expression } => assert_eq!(expression, "2 + 2"),
        other => panic!("unexpected: {:?}", other),
    }
    match registry.execute("calculator", "no json") {
        ToolPlan::Calculate { expression } => assert_eq!(expression, ""),
        other => panic!("unexpected: {:?}", other),
    }
    assert!(matches!(registry.execute("get_current_time", "{\"timezone\":\"UTC\"}"), ToolPlan::ReadClock));
    match registry.execute("web_search", "{\"query\":\"rust\"}") {
        ToolPlan::Done(r) => {
            assert_eq!(r.name, "web_search");
            assert_eq!(r.tool_call_id, "");
            assert!(r.success);
            assert_eq!(
                r.result,
                "Search results for 'rust':\n1. [Wikipedia] rust - General information and overview\n2. [Documentation] Official docs about rust\n3. [Tutorial] How to work with rust\n(Note: This is a simulated search. Connect a real search API for actual results.)"
            );
        }
        other => panic!("unexpected: {:?}", other),
    }
    match registry.execute("save_note", "{\"content\":\"milk\"}") {
        ToolPlan::Done(r) => assert_eq!(r.result, "Note saved: 'Untitled' - milk"),
        other => panic!("unexpected: {:?}", other),
    }
    match registry.execute("run_code", "{\"code\":\"print(1)\",\"language\":7}") {
        ToolPlan::Done(r) => assert_eq!(
            r.result,
            "[python] Code execution simulated. Code:\nprint(1)\n\n(Note: Connect a real code sandbox for actual execution.)"
        ),
        other => panic!("unexpected: {:?}", other),
    }
    match registry.execute("teleport", "{}") {
        ToolPlan::Done(r) => {
            assert_eq!(r.name, "teleport");
            assert_eq!(r.result, "Unknown tool: teleport");
            assert!(!r.success);
        }
        other => panic!("unexpected: {:?}", other),
    }
}

#[test]
fn outside_outcomes_become_tool_results() {
    let ok = ToolRegistry::execute_calculator(Ok("8".into()));
    assert_eq!((ok.name.as_str(), ok.result.as_str(), ok.success), ("calculator", "8", true));
    let bad = ToolRegistry::execute_calculator(Err("Mismatched parentheses".into()));
    assert_eq!((bad.result.as_str(), bad.success), ("Error: Mismatched parentheses", false));
    let now = ToolRegistry::execute_get_time("2026-01-02 03:04:05 UTC".into());
    assert_eq!((now.name.as_str(), now.result.as_str(), now.success), ("get_current_time", "2026-01-02 03:04:05 UTC", true));
}

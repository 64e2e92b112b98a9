use llm_agent::mcp::error::McpError;
use llm_agent::mcp::protocol::{
    create_init_params, frame, parse_sse_response, reduce_sse, JsonRpcError, JsonRpcRequest,
    JsonRpcResponse, MCP_PROTOCOL_VERSION,
};
use serde_json::Value;

fn value(text: &str) -> Value {
    serde_json::from_str(text).unwrap()
}

#[test]
fn request_without_params_has_three_members() {
    let request = JsonRpcRequest::new(1, "tools/list", None);
    assert_eq!(request.jsonrpc, "2.0");
    assert_eq!(request.id, 1);
    assert_eq!(request.method, "tools/list");
    assert!(request.params.is_none());
    assert_eq!(request.to_text(), r#"{"jsonrpc":"2.0","id":1,"method":"tools/list"}"#);
}

#[test]
fn request_with_params_appends_them() {
    let request = JsonRpcRequest::new(7, "tools/call", Some(value(r#"{"name":"t","arguments":{"x":[1,2]}}"#)));
    assert_eq!(
        request.to_text(),
        r#"{"jsonrpc":"2.0","id":7,"method":"tools/call","params":{"arguments":{"x":[1,2]},"name":"t"}}"#
    );
}

#[test]
fn request_text_escapes_the_method() {
    let request = JsonRpcRequest::new(18446744073709551615, "a\"b\nc", None);
    assert_eq!(
        request.to_text(),
        "{\"jsonrpc\":\"2.0\",\"id\":18446744073709551615,\"method\":\"a\\\"b\\nc\"}"
    );
    let back: Value = serde_json::from_str(&request.to_text()).unwrap();
    assert_eq!(back["method"], "a\"b\nc");
}

#[test]
fn response_with_result_parses() {
    let response = JsonRpcResponse::parse(r#" {"jsonrpc":"2.0","id":3,"result":{"ok":true}} "#).unwrap();
    assert_eq!(response.jsonrpc, "2.0");
    assert_eq!(response.id, Some(3));
    assert_eq!(response.result, Some(value(r#"{"ok":true}"#)));
    assert!(response.error.is_none());
    assert_eq!(response.into_result().unwrap(), value(r#"{"ok":true}"#));
}

#[test]
fn response_with_error_fails_with_rpc_error() {
    let response = JsonRpcResponse::parse(
        r#"{"jsonrpc":"2.0","id":null,"error":{"code":-32601,"message":"no such method","data":1},"result":5}"#,
    )
    .unwrap();
    assert_eq!(response.id, None);
    assert_eq!(response.result, Some(value("5")));
    match response.into_result() {
        Err(McpError::Rpc { code, message }) => {
            assert_eq!(code, -32601);
            assert_eq!(message, "no such method");
        }
        other => panic!("unexpected: {:?}", other),
    }
}

#[test]
fn response_without_result_fails_with_missing_result() {
    let response = JsonRpcResponse::parse(r#"{"jsonrpc":"2.0"}"#).unwrap();
    assert!(matches!(response.into_result(), Err(McpError::MissingResult)));
    let null_result = JsonRpcResponse::parse(r#"{"jsonrpc":"2.0","id":1,"result":null}"#).unwrap();
    assert!(matches!(null_result.into_result(), Err(McpError::MissingResult)));
}

#[test]
fn texts_that_are_no_envelope_do_not_parse() {
    assert!(JsonRpcResponse::parse("").is_none());
    assert!(JsonRpcResponse::parse("not json").is_none());
    assert!(JsonRpcResponse::parse("[1,2]").is_none());
    assert!(JsonRpcResponse::parse(r#"{"id":1,"result":{}}"#).is_none());
    assert!(JsonRpcResponse::parse(r#"{"jsonrpc":2,"result":{}}"#).is_none());
    assert!(JsonRpcResponse::parse(r#"{"jsonrpc":"2.0","id":"one","result":{}}"#).is_none());
    assert!(JsonRpcResponse::parse(r#"{"jsonrpc":"2.0","id":-1,"result":{}}"#).is_none());
    assert!(JsonRpcResponse::parse(r#"{"jsonrpc":"2.0","id":1.5,"result":{}}"#).is_none());
    assert!(JsonRpcResponse::parse(r#"{"jsonrpc":"2.0","error":{"code":"x","message":"m"}}"#).is_none());
    assert!(JsonRpcResponse::parse(r#"{"jsonrpc":"2.0","error":{"code":1}}"#).is_none());
    assert!(JsonRpcResponse::parse(r#"{"jsonrpc":"2.0","error":7}"#).is_none());
    assert!(JsonRpcResponse::parse(r#"{"jsonrpc":"2.0","result":{}} trailing"#).is_none());
}

#[test]
fn error_code_must_fit_i64() {
    assert!(JsonRpcError::from_value(&value(r#"{"code":9223372036854775807,"message":""}"#)).is_some());
    assert!(JsonRpcError::from_value(&value(r#"{"code":9223372036854775808,"message":""}"#)).is_none());
    let e = JsonRpcError::from_value(&value(r#"{"code":-9223372036854775808,"message":"m"}"#)).unwrap();
    assert_eq!(e.code, i64::MIN);
    assert_eq!(e.message, "m");
}

#[test]
fn response_from_value_reads_members() {
    let response = JsonRpcResponse::from_value(&value(r#"{"jsonrpc":"2.0","id":18446744073709551615,"result":[1]}"#)).unwrap();
    assert_eq!(response.id, Some(u64::MAX));
    assert_eq!(response.result, Some(value("[1]")));
    assert!(JsonRpcResponse::from_value(&value(r#""jsonrpc""#)).is_none());
}

#[test]
fn sse_reducer_takes_the_last_data_line() {
    assert_eq!(parse_sse_response("data: {\"a\":1}\n\ndata: {\"a\":2}\n\n"), "{\"a\":2}");
}

#[test]
fn sse_reducer_falls_back_to_the_body() {
    assert_eq!(parse_sse_response("{\"a\":1}"), "{\"a\":1}");
    assert_eq!(parse_sse_response(""), "");
    assert_eq!(parse_sse_response("event: message\nid: 3\n"), "event: message\nid: 3\n");
    assert_eq!(parse_sse_response("data:\ndata:   \n"), "data:\ndata:   \n");
    assert_eq!(parse_sse_response(" data: x\n"), " data: x\n");
}

#[test]
fn sse_reducer_trims_and_skips_empty_data_lines() {
    assert_eq!(parse_sse_response("event: m\r\ndata:  {\"k\":1}  \r\n\r\n"), "{\"k\":1}");
    assert_eq!(parse_sse_response("data: first\ndata:\n: comment\n"), "first");
    assert_eq!(parse_sse_response("data:no-space"), "no-space");
    assert_eq!(parse_sse_response("data: a\ndata: b"), "b");
    assert_eq!(parse_sse_response("data:\u{a0}x\u{2003}\n"), "x");
}

#[test]
fn init_params_declare_version_capabilities_and_client() {
    assert_eq!(MCP_PROTOCOL_VERSION, "2025-11-25");
    let expected = value(
        r#"{"protocolVersion":"2025-11-25","capabilities":{"roots":{"listChanged":true},"sampling":{}},"clientInfo":{"name":"llm-agent","version":"0.1.0"}}"#,
    );
    assert_eq!(create_init_params(), expected);
}

#[test]
fn envelope_is_framed_from_the_texts_of_its_members() {
    assert_eq!(frame("\"2.0\"", "12", "\"m\"", None), r#"{"jsonrpc":"2.0","id":12,"method":"m"}"#);
    assert_eq!(
        frame("\"2.0\"", "1", "\"m\"", Some("[true]")),
        r#"{"jsonrpc":"2.0","id":1,"method":"m","params":[true]}"#
    );
    assert_eq!(frame("", "", "", Some("")), r#"{"jsonrpc":,"id":,"method":,"params":}"#);
}

#[test]
fn reducer_goes_by_the_given_white_space() {
    let body: Vec<char> = "data: a \ndata:.b.\nx".chars().collect();
    let by_blanks: Vec<bool> = body.iter().map(|c| *c == ' ' || *c == '\n').collect();
    assert_eq!(reduce_sse(&body, &by_blanks), ".b.");
    let by_dots: Vec<bool> = body.iter().map(|c| *c == '.').collect();
    assert_eq!(reduce_sse(&body, &by_dots), "b");
    let nothing: Vec<bool> = body.iter().map(|_| false).collect();
    assert_eq!(reduce_sse(&body, &nothing), ".b.");
    let everything: Vec<bool> = body.iter().map(|_| true).collect();
    assert_eq!(reduce_sse(&body, &everything), "data: a \ndata:.b.\nx");
    assert_eq!(reduce_sse(&vec![], &vec![]), "");
}

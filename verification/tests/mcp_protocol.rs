use oxide_agent::mcp_config::{McpServerConfig, McpServerType};
use oxide_agent::mcp_protocol::{
    adapters_for, initialize_outcome, reply_payload, request_headers, status_failure_message, stdio_reply,
    tool_call_result, tools_list_reply, HttpMcpConnection, InitializeOutcome, McpReplyError, McpToolAdapter,
    McpToolDefinition, RequestIds, StdioReplyError,
};
use oxide_agent::tools::ToolProfile;
use oxide_agent::types::truncate_description;

fn remote(name: &str) -> McpServerConfig {
    McpServerConfig {
        name: name.to_string(),
        description: Some(name.to_string()),
        server_type: McpServerType::Remote { url: "http://localhost:8080".to_string(), access_token: None, api_key: None },
        auto_start: Some(false),
        environment: None,
    }
}

#[test]
fn test_truncate_description_short() {
    let desc = "Short description";
    let result = truncate_description(desc);
    assert_eq!(result, "Short description");
}

#[test]
fn test_truncate_description_long() {
    let desc = "This is a very long description that exceeds sixty characters and should be truncated with an ellipsis";
    let result = truncate_description(desc);
    assert!(result.len() <= 63);
    assert!(result.ends_with("..."));
}

#[test]
fn test_http_mcp_connection_creation() {
    let config = remote("test");
    let http_conn = HttpMcpConnection::new(&config, "http://localhost:8080".to_string(), None, None);
    assert_eq!(http_conn.server_name(), "test");
    assert_eq!(http_conn.base_url(), "http://localhost:8080");
}

#[test]
fn test_tools_list_result_structure() {
    let reply = r#"{"jsonrpc":"2.0","id":1,"result":{"tools":[{"name":"http_test_tool","description":"A test tool for HTTP testing","inputSchema":{"type":"object","properties":{"param1":{"type":"string"}}}}]}}"#;
    let tools = tools_list_reply(reply).unwrap();
    assert_eq!(tools.len(), 1);
    assert_eq!(tools[0].name, "http_test_tool");
    assert_eq!(tools[0].description, "A test tool for HTTP testing");
}

#[test]
fn test_mcp_tool_adapter_creation() {
    let adapter = McpToolAdapter::new(
        "test_tool".to_string(),
        "A test tool".to_string(),
        "{}".to_string(),
        "test_connection".to_string(),
    );
    assert_eq!(adapter.name(), "test_tool");
    assert_eq!(adapter.description(), "A test tool");
    assert_eq!(adapter.profile(), ToolProfile::Generic);
    assert_eq!(adapter.parameters(), "{}");
    assert_eq!(adapter.connection_id(), "test_connection");
}

#[test]
fn test_mcp_tool_adapter_parameters() {
    let params = r#"{"properties":{"test_param":{"type":"string"}},"type":"object"}"#.to_string();
    let adapter = McpToolAdapter::new(
        "param_test_tool".to_string(),
        "A test tool with parameters".to_string(),
        params.clone(),
        "test_connection".to_string(),
    );
    assert_eq!(adapter.parameters(), params);
    let definition = adapter.definition();
    assert_eq!(definition.kind, "function");
    assert_eq!(definition.function.parameters, params);
}

#[test]
fn test_mcp_tool_adapter_clone() {
    let original = McpToolAdapter::new(
        "clone_test_tool".to_string(),
        "A test tool for clone testing".to_string(),
        "{}".to_string(),
        "test_connection".to_string(),
    );
    let cloned = original.clone();
    assert_eq!(cloned.name(), "clone_test_tool");
    assert_eq!(cloned.description(), "A test tool for clone testing");
}

#[test]
fn sse_replies_are_unwrapped() {
    assert_eq!(reply_payload("{\"a\":1}"), "{\"a\":1}");
    assert_eq!(reply_payload("event: message\ndata: {\"a\":1} \n\n"), "{\"a\":1}");
    assert_eq!(reply_payload("event: message\nid: 3\n"), "event: message\nid: 3\n");
}

#[test]
fn headers_carry_the_credentials() {
    let h = request_headers(&Some("tok".to_string()), &Some("key".to_string()));
    assert_eq!(
        h,
        vec![
            ("Authorization".to_string(), "Bearer tok".to_string()),
            ("X-API-Key".to_string(), "key".to_string()),
            ("Content-Type".to_string(), "application/json".to_string()),
            ("Accept".to_string(), "application/json, text/event-stream".to_string()),
        ]
    );
    assert_eq!(request_headers(&None, &None).len(), 2);
    let conn = HttpMcpConnection::new(&remote("x"), "http://h".to_string(), None, Some("k".to_string()));
    assert_eq!(conn.headers()[0], ("X-API-Key".to_string(), "k".to_string()));
}

#[test]
fn tool_call_replies_give_the_result_text() {
    let ok = tool_call_result("event: message\ndata: {\"jsonrpc\":\"2.0\",\"id\":1,\"result\":{\"content\":[]}}\n");
    assert_eq!(ok, Ok("{\"content\":[]}".to_string()));
    let err = tool_call_result("{\"jsonrpc\":\"2.0\",\"id\":1,\"error\":{\"code\":-1}}").unwrap_err();
    assert!(matches!(err, McpReplyError::ServerError(_)));
    assert!(err.message().starts_with("MCP server returned error: "));
    let none = tool_call_result("{\"jsonrpc\":\"2.0\",\"id\":1}").unwrap_err();
    assert_eq!(none, McpReplyError::NoResult);
    assert_eq!(none.message(), "No result field in response");
    let bad = tool_call_result("not json").unwrap_err();
    match &bad {
        McpReplyError::InvalidJson { raw, .. } => assert_eq!(raw, "not json"),
        _ => panic!("expected invalid JSON"),
    }
    assert!(bad.message().starts_with("Failed to parse JSON response: "));
    assert!(bad.message().ends_with(" (raw response: not json)"));
}

#[test]
fn tools_list_needs_every_tool_complete() {
    let reply = r#"{"result":{"tools":[{"name":"a","description":"x"},{"name":"b"}]}}"#;
    assert_eq!(tools_list_reply(reply).unwrap_err(), McpReplyError::BadToolsList);
    let reply = r#"{"result":{"tools":[{"name":"a","description":"x"}]}}"#;
    let tools = tools_list_reply(reply).unwrap();
    assert_eq!(tools[0].input_schema, "null");
    assert_eq!(McpReplyError::BadToolsList.message(), "Failed to parse tools list response");
}

#[test]
fn initialize_replies_are_classified() {
    assert_eq!(initialize_outcome("{\"result\":{}}"), InitializeOutcome::Initialized);
    assert_eq!(initialize_outcome("{\"error\":{}}"), InitializeOutcome::ServerError);
    assert_eq!(initialize_outcome("<html>"), InitializeOutcome::Unreadable);
}

#[test]
fn failure_status_message_includes_the_body() {
    assert_eq!(
        status_failure_message("404 Not Found", Some("nope")),
        "JSON-RPC request failed with status: 404 Not Found (response body: nope)"
    );
    assert_eq!(status_failure_message("500", None), "JSON-RPC request failed with status: 500");
}

#[test]
fn stdio_replies_must_answer_the_request() {
    let ok = r#"{"jsonrpc":"2.0","id":7,"result":{"tools":[]}}"#;
    assert_eq!(stdio_reply(ok, 7), Ok("{\"tools\":[]}".to_string()));
    assert_eq!(stdio_reply(ok, 8), Err(StdioReplyError::IdMismatch));
    let err = r#"{"jsonrpc":"2.0","id":7,"error":{"code":-32601,"message":"Method not found"}}"#;
    let e = stdio_reply(err, 7).unwrap_err();
    assert_eq!(e, StdioReplyError::Server { code: -32601, message: "Method not found".to_string() });
    assert_eq!(e.message(), "MCP server error -32601: Method not found");
    assert_eq!(stdio_reply(err, 1), Err(StdioReplyError::IdMismatch));
    let junk = stdio_reply("hello", 1).unwrap_err();
    assert_eq!(junk.message(), "Failed to parse MCP server response: hello");
    assert_eq!(StdioReplyError::IdMismatch.message(), "Response ID mismatch");
}

#[test]
fn request_ids_count_from_one() {
    let mut ids = RequestIds::new();
    assert_eq!(ids.take(), 1);
    assert_eq!(ids.take(), 2);
    assert_eq!(ids.take(), 3);
}

#[test]
fn adapters_route_to_their_connection() {
    let defs = vec![
        McpToolDefinition { name: "a".to_string(), description: "da".to_string(), input_schema: "{}".to_string() },
        McpToolDefinition { name: "b".to_string(), description: "db".to_string(), input_schema: "null".to_string() },
    ];
    let adapters = adapters_for(&defs, "srv_connection");
    assert_eq!(adapters.len(), 2);
    assert_eq!(adapters[1].name(), "b");
    assert_eq!(adapters[1].parameters(), "null");
    assert_eq!(adapters[0].connection_id(), "srv_connection");
}

#[test]
fn test_mcp_tool_adapter_execute_method() {
    let adapter = McpToolAdapter::new(
        "execute_test_tool".to_string(),
        "A test tool for execute method testing".to_string(),
        r#"{"properties":{"test_param":{"type":"string"}},"type":"object"}"#.to_string(),
        "test_connection".to_string(),
    );
    assert_eq!(adapter.name(), "execute_test_tool");
    assert_eq!(adapter.description(), "A test tool for execute method testing");
    assert_eq!(adapter.profile(), ToolProfile::Generic);
}

#[test]
fn tools_lists_in_array_form_are_read() {
    let reply = r#"{"jsonrpc":"2.0","id":1,"result":[[["a","first"],["b","second",{"type":"object"}],{"name":"c","description":"third"}]]}"#;
    let tools = tools_list_reply(reply).unwrap();
    assert_eq!(tools.len(), 3);
    assert_eq!(tools[0].name, "a");
    assert_eq!(tools[0].input_schema, "null");
    assert_eq!(tools[1].description, "second");
    assert_eq!(tools[1].input_schema, "{\"type\":\"object\"}");
    assert_eq!(tools[2].name, "c");
    let too_long = r#"{"jsonrpc":"2.0","id":1,"result":{"tools":[["a","first",null,1]]}}"#;
    assert!(tools_list_reply(too_long).is_err());
    let two = r#"{"jsonrpc":"2.0","id":1,"result":[[],[]]}"#;
    assert!(tools_list_reply(two).is_err());
}

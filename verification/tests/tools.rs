use oxide_agent::mcp_protocol::McpToolAdapter;
use oxide_agent::tools::{argument_text, ReadFileTool, RegisteredTool, RunShellCommandTool, ToolRegistry, WriteFileTool};

#[test]
fn builtin_tools_are_registered_in_order() {
    let registry = ToolRegistry::builtin();
    let defs = registry.definitions();
    let names: Vec<String> = defs.iter().map(|d| d.function.name.clone()).collect();
    assert_eq!(names, vec!["write_file", "read_file", "run_shell_command"]);
    assert_eq!(defs[1].function.description, "Read content from a file");
    let schema: serde_json::Value = serde_json::from_str(&defs[0].function.parameters).unwrap();
    let required: Vec<&str> = schema["required"].as_array().unwrap().iter().map(|v| v.as_str().unwrap()).collect();
    assert_eq!(required, vec!["path", "content"]);
    assert!(registry.get_tool("read_file").is_some());
    assert!(registry.get_tool("delete_file").is_none());
}

#[test]
fn registry_finds_mcp_tools() {
    let mut registry = ToolRegistry::new();
    registry.add_tool(RegisteredTool::Mcp(McpToolAdapter::new(
        "search".to_string(),
        "Search".to_string(),
        "{}".to_string(),
        "web_connection".to_string(),
    )));
    match registry.get_tool("search") {
        Some(RegisteredTool::Mcp(a)) => assert_eq!(a.connection_id(), "web_connection"),
        _ => panic!("expected the MCP tool"),
    }
}

#[test]
fn tool_arguments_are_read_from_json() {
    assert_eq!(argument_text("{\"path\":\"a\"}", "/path"), "a");
    assert_eq!(argument_text("{\"path\":1}", "/path"), "");
    assert_eq!(WriteFileTool::arguments("{\"path\":\"p\",\"content\":\"c\"}"), Ok(("p".to_string(), "c".to_string())));
    assert_eq!(WriteFileTool::arguments("{\"path\":\"p\"}"), Ok(("p".to_string(), String::new())));
    assert_eq!(WriteFileTool::arguments("{}"), Err("'path' argument is required".to_string()));
    assert_eq!(ReadFileTool::arguments("{\"path\":\"\"}"), Err("'path' argument is required".to_string()));
    assert_eq!(RunShellCommandTool::arguments("{\"command\":\"ls\"}"), Ok("ls".to_string()));
    assert_eq!(RunShellCommandTool::arguments("[]"), Err("'command' argument is required".to_string()));
    assert_eq!(WriteFileTool::success_message("a.txt"), "File 'a.txt' written successfully.");
}

#[test]
fn shell_outcome_reports_failures() {
    assert_eq!(RunShellCommandTool::outcome(true, "out", "err"), Ok("out".to_string()));
    assert_eq!(
        RunShellCommandTool::outcome(false, "out", "err"),
        Err("Command failed: out. Stderr: err".to_string())
    );
}

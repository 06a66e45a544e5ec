use oxide_agent::session::{stored_state_plan, SessionManager, SessionState, StoredStatePlan};
use oxide_agent::tool_approval::{
    all_tool_calls_preapproved, apply_approval, denial_note, denial_notice, is_tool_preapproved, llm_error_message,
    llm_error_note, plan_tool_calls, tool_error_message, tool_output_message, unknown_tool_message, ToolCallPlan,
};
use oxide_agent::tool_permissions::GlobalToolPermissions;
use oxide_agent::types::{ChatMessage, ToolApprovalResponse, ToolCall, ToolFunction};

fn call(name: &str) -> ToolCall {
    ToolCall { function: ToolFunction { name: name.to_string(), arguments: "{}".to_string() } }
}

#[test]
fn session_files_round_trip() {
    assert_eq!(SessionManager::get_session_filename(None), "session.json");
    assert_eq!(SessionManager::get_session_filename(Some("work")), "session_work.json");
    assert_eq!(SessionManager::session_name_from_file("session_work.json"), Some("work".to_string()));
    assert_eq!(SessionManager::session_name_from_file("notes.json"), None);
    let listing = vec!["session_a.json".to_string(), "other.txt".to_string(), "session_b.json".to_string()];
    assert_eq!(
        SessionManager::sessions_from_listing(true, &listing),
        vec!["default".to_string(), "a".to_string(), "b".to_string()]
    );
}

#[test]
fn stored_files_are_planned() {
    assert_eq!(stored_state_plan(false, None), StoredStatePlan::Absent);
    assert_eq!(stored_state_plan(true, None), StoredStatePlan::Fresh);
    assert_eq!(stored_state_plan(true, Some(" \n")), StoredStatePlan::Fresh);
    assert_eq!(stored_state_plan(true, Some("{}")), StoredStatePlan::Parse);
}

#[test]
fn session_permissions_are_kept_once() {
    let mut s = SessionState::new();
    s.add_allowed_tool("ls".to_string());
    s.add_allowed_tool("ls".to_string());
    assert!(s.is_tool_allowed("ls"));
    assert_eq!(s.list_allowed_tools(), vec!["ls".to_string()]);
    assert!(s.remove_allowed_tool("ls"));
    assert!(!s.is_tool_allowed("ls"));
    assert!(!s.remove_allowed_tool("ls"));
}

#[test]
fn tools_allowed_anywhere_run_without_asking() {
    let mut global = GlobalToolPermissions::new();
    let mut session = SessionState::new();
    assert!(!is_tool_preapproved(&global, &session, "ls"));
    let calls = vec![call("ls"), call("cat")];
    let reply = ChatMessage::tool_call("", calls.clone());
    assert_eq!(plan_tool_calls(Some(reply), &global, &session), ToolCallPlan::AskApproval(calls.clone()));
    let outcome = apply_approval(ToolApprovalResponse::AlwaysAllow, &vec![call("ls")], &mut global, &mut session);
    assert!(outcome.save_global_permissions);
    assert!(global.is_allowed("ls"));
    apply_approval(ToolApprovalResponse::AlwaysAllowSession, &vec![call("cat")], &mut global, &mut session);
    assert!(session.is_tool_allowed("cat"));
    assert!(all_tool_calls_preapproved(&calls, &global, &session));
    let reply = ChatMessage::tool_call("", calls.clone());
    assert_eq!(plan_tool_calls(Some(reply), &global, &session), ToolCallPlan::RunAll(calls));
    assert_eq!(plan_tool_calls(Some(ChatMessage::assistant("hi")), &global, &session), ToolCallPlan::NoToolCalls);
    let denied = apply_approval(ToolApprovalResponse::Deny, &vec![call("rm")], &mut global, &mut session);
    assert!(denied.denied && !denied.run_tools);
    assert!(!global.is_allowed("rm"));
}

#[test]
fn tool_messages() {
    assert_eq!(tool_output_message("ls", "a"), "The tool 'ls' produced this output:\na");
    assert_eq!(tool_error_message("ls", "boom"), "Error executing tool 'ls': boom");
    assert_eq!(unknown_tool_message("zap"), "Unknown tool: zap");
    assert_eq!(llm_error_message("timeout"), "Error communicating with LLM: timeout");
    assert_eq!(llm_error_note("timeout"), "Error: timeout");
    assert_eq!(denial_note(), "Tool execution denied by user.");
    assert_eq!(denial_notice(), "Tool execution denied.");
}

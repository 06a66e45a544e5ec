use oxide_agent::tui_messages::{apply_stream_chunk, convert_history_to_messages, finish_stream, messages_to_history, Message};
use oxide_agent::tui_state::{Key, KeyPress, TuiState};
use oxide_agent::types::{AppEvent, ChatMessage, ToolApprovalResponse, ToolCall, ToolFunction};

fn state() -> TuiState {
    TuiState::new(
        "default".to_string(),
        vec![ChatMessage::system("sys"), ChatMessage::user("hi"), ChatMessage::assistant("hello")],
        vec!["Qwen".to_string(), "Llama".to_string()],
        "qwen3:4b".to_string(),
        vec!["qwen3:4b".to_string(), "llama3.2".to_string()],
        vec!["default".to_string(), "work".to_string()],
    )
}

fn key(k: Key) -> KeyPress {
    KeyPress { key: k, ctrl: false }
}

fn ctrl(c: char) -> KeyPress {
    KeyPress { key: Key::Char(c), ctrl: true }
}

#[test]
fn history_is_shown_without_system_messages() {
    let msgs = convert_history_to_messages(vec![
        ChatMessage::system("sys"),
        ChatMessage::user("hi"),
        ChatMessage::assistant("  #### thinking"),
        ChatMessage::assistant("answer"),
    ]);
    assert_eq!(msgs.len(), 3);
    assert!(matches!(&msgs[0], Message::User(t) if t == "hi"));
    assert!(matches!(&msgs[1], Message::Thinking(_, _, false)));
    assert!(matches!(&msgs[2], Message::Agent(_, t) if t == "answer"));
    let back = messages_to_history(&msgs);
    assert_eq!(back[0].role, "user");
    assert_eq!(back[2].content, "answer");
}

#[test]
fn streamed_chunks_build_one_answer() {
    let mut msgs: Vec<Message> = Vec::new();
    apply_stream_chunk(&mut msgs, "Hel");
    apply_stream_chunk(&mut msgs, "lo");
    finish_stream(&mut msgs);
    assert_eq!(msgs.len(), 1);
    assert!(matches!(&msgs[0], Message::Agent(_, t) if t == "Hello"));
}

#[test]
fn enter_sends_the_input() {
    let mut s = state();
    assert_eq!(s.messages.len(), 2);
    let out = s.handle_key(key(Key::Enter), "what is rust?");
    assert_eq!(out.events, vec![AppEvent::UserInput("what is rust?".to_string())]);
    assert!(out.reset_input);
    let out = s.handle_key(key(Key::Enter), "/switch  work ");
    assert_eq!(out.events, vec![AppEvent::SwitchSession("work".to_string())]);
    let out = s.handle_key(key(Key::Enter), "/model llama3.2");
    assert_eq!(out.events, vec![AppEvent::SwitchModel("llama3.2".to_string())]);
    let out = s.handle_key(key(Key::Enter), "");
    assert!(out.events.is_empty() && !out.reset_input);
    let out = s.handle_key(key(Key::Char('x')), "");
    assert!(out.forward_to_input);
    assert!(s.handle_key(ctrl('q'), "").quit);
}

#[test]
fn tool_requests_wait_for_an_answer() {
    let mut s = state();
    let calls = vec![ToolCall { function: ToolFunction { name: "ls".to_string(), arguments: "{}".to_string() } }];
    assert!(s.handle_app_event(AppEvent::ToolRequest(calls)).is_none());
    assert!(s.is_awaiting_confirmation);
    let out = s.handle_key(key(Key::Char('9')), "");
    assert!(out.events.is_empty());
    let out = s.handle_key(key(Key::Char('3')), "");
    assert_eq!(out.events, vec![AppEvent::ToolApproval(ToolApprovalResponse::AlwaysAllowSession)]);
    assert!(!s.is_awaiting_confirmation);
    assert!(matches!(s.messages.last(), Some(Message::User(t)) if t == "Always Allowed for Session"));
}

#[test]
fn session_switcher_picks_a_session() {
    let mut s = state();
    let out = s.handle_key(ctrl('s'), "");
    assert_eq!(out.events, vec![AppEvent::RefreshSessions]);
    assert!(s.overlays.session);
    s.handle_key(key(Key::Down), "");
    let out = s.handle_key(key(Key::Enter), "");
    assert_eq!(out.events, vec![AppEvent::SwitchSession("work".to_string())]);
    assert!(!s.overlays.session);
}

#[test]
fn orchestrator_events_update_the_view() {
    let mut s = state();
    let r = s.handle_app_event(AppEvent::SessionSwitched("work".to_string()));
    assert_eq!(r, Some(AppEvent::RefreshSessions));
    assert_eq!(s.choices.session_name, "work");
    assert_eq!(s.messages.len(), 1);
    s.handle_app_event(AppEvent::AgentMessage("Available sessions: a, b".to_string()));
    assert_eq!(s.choices.available_sessions, vec!["a".to_string(), "b".to_string()]);
    s.handle_app_event(AppEvent::Error("boom".to_string()));
    assert!(matches!(s.messages.last(), Some(Message::ToolOutput(t, false)) if t == "Error: boom"));
    s.handle_app_event(AppEvent::AgentStatusUpdate("Qwen-agent_1".to_string(), "Idle".to_string()));
    assert_eq!(s.agent_statuses.get("Qwen-agent_1"), Some(&"Idle".to_string()));
}

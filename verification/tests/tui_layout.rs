use oxide_agent::agents::AgentId;
use oxide_agent::status_table::StatusTable;
use oxide_agent::switcher::SwitcherSelection;
use oxide_agent::tui_layout::{
    collapsed_preview, confirmation, lines, message_height, message_text, stack_messages, switcher_panel, text_rows,
};
use oxide_agent::tui_messages::Message;
use oxide_agent::tui_state::Rect;
use oxide_agent::types::{ToolCall, ToolFunction};

#[test]
fn lines_follow_str_lines() {
    for text in ["", "a", "a\n", "a\r\nb", "a\n\nb\n", "x\r", "\n"] {
        let expected: Vec<String> = text.lines().map(|l| l.to_string()).collect();
        assert_eq!(lines(text), expected, "{text:?}");
    }
}

#[test]
fn collapsed_messages_show_a_preview() {
    assert_eq!(collapsed_preview("1\n2\n3\n4", true), "1\n2\n3...");
    assert_eq!(collapsed_preview("first\nsecond", true), "first");
    assert_eq!(collapsed_preview("", true), "Thinking...");
    assert_eq!(collapsed_preview("first\nsecond", false), "first\nsecond");
    let m = Message::ToolOutput("a\nb\nc\nd\ne".to_string(), false);
    assert_eq!(message_text(&m), "a\nb\nc...");
    let m = Message::Thinking(AgentId::Ollama, "a\nb".to_string(), true);
    assert_eq!(message_text(&m), "a\nb");
}

#[test]
fn confirmation_lists_the_calls() {
    let calls = vec![ToolCall { function: ToolFunction { name: "ls".to_string(), arguments: "{\"a\":1}".to_string() } }];
    assert_eq!(
        confirmation(&calls),
        "Agent wants to use the following tools:\n- ls: \n{\n  \"a\": 1\n}Do you approve?"
    );
    let bad = vec![ToolCall { function: ToolFunction { name: "x".to_string(), arguments: "nope".to_string() } }];
    assert!(confirmation(&bad).contains("Invalid JSON"));
}

#[test]
fn rows_count_wrapped_lines() {
    assert_eq!(text_rows("abcdef\n\nxy", 4), 2 + 1 + 1);
    assert_eq!(text_rows("", 10), 0);
    assert_eq!(text_rows("a\nb", 0), 2);
    assert_eq!(message_height(3), 5);
}

#[test]
fn messages_stack_from_the_bottom() {
    let inner = Rect { x: 1, y: 2, width: 20, height: 10 };
    let placed = stack_messages(&vec![3, 4, 5], inner);
    assert_eq!(placed, vec![(2, Rect { x: 1, y: 7, width: 20, height: 5 }), (1, Rect { x: 1, y: 3, width: 20, height: 4 })]);
    assert!(stack_messages(&vec![10], inner).is_empty());
}

#[test]
fn switcher_panel_marks_current_and_selected() {
    let mut statuses = StatusTable::new();
    statuses.insert("Llama".to_string(), "Processing".to_string());
    let agents = vec!["Qwen".to_string(), "Llama".to_string()];
    let (title, text) = switcher_panel(
        SwitcherSelection::Agent(1),
        &agents,
        "Qwen",
        &Vec::new(),
        "default",
        &Vec::new(),
        "m",
        0,
        13,
        &statuses,
    );
    assert_eq!(title, "Switch Agent (Ctrl+A / Esc to close)");
    assert_eq!(
        text,
        "Available Agents:\n    [Qwen] [Idle]  (current)\n -> [Llama] [Processing]  (selected)\n\nUse Up/Down arrows to navigate, Enter to select.\n"
    );
    let sessions: Vec<String> = (0..20).map(|i| format!("s{i}")).collect();
    let (_, text) = switcher_panel(SwitcherSelection::Session(0), &Vec::new(), "", &sessions, "s0", &Vec::new(), "", 0, 5, &statuses);
    assert!(text.ends_with("\n... 5/20 ... Use Up/Down arrows to navigate, Enter to select."));
    assert!(text.contains(" -> [s0] (current) (selected)\n"));
    assert!(!text.contains("[s4]"));
}

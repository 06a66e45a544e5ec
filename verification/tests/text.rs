use oxide_agent::cli::AgentType;
use oxide_agent::text::{contains_str, find_str, i64_text, join_with, split_str, trim, u64_text};
use oxide_agent::types::{truncate_description, ChatMessage, Tool};

#[test]
fn numbers_print_in_decimal() {
    assert_eq!(u64_text(0), "0");
    assert_eq!(u64_text(1907), "1907");
    assert_eq!(i64_text(-32601), "-32601");
    assert_eq!(i64_text(i64::MIN), i64::MIN.to_string());
    assert_eq!(u64_text(u64::MAX), u64::MAX.to_string());
}

#[test]
fn text_helpers() {
    assert_eq!(trim("  a b \n"), "a b");
    assert_eq!(find_str("abcabc", "ca"), Some(2));
    assert!(!contains_str("abc", "d"));
    assert_eq!(split_str("a, b, c", ", "), vec!["a", "b", "c"]);
    assert_eq!(join_with(&vec!["a".to_string(), "b".to_string()], ", "), "a, b");
}

#[test]
fn descriptions_are_cut_at_sixty_characters() {
    let long = "x".repeat(70);
    let cut = truncate_description(&long);
    assert_eq!(cut, format!("{}...", "x".repeat(60)));
    let tool = Tool::new("t", &long, "{}".to_string());
    assert_eq!(tool.truncated_description(), cut);
    assert_eq!(truncate_description(&"y".repeat(60)), "y".repeat(60));
}

#[test]
fn message_builders() {
    let m = ChatMessage::user("hi");
    assert_eq!((m.role.as_str(), m.content.as_str()), ("user", "hi"));
    assert_eq!(ChatMessage::system("s").role, "system");
    assert_eq!(AgentType::Llama.name(), "Llama");
}

#[test]
fn truncation_counts_characters() {
    let accented = "é".repeat(61);
    assert_eq!(truncate_description(&accented), format!("{}...", "é".repeat(60)));
    let exact = "é".repeat(60);
    assert_eq!(truncate_description(&exact), exact);
}

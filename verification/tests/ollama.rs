use oxide_agent::ollama::{model_names, reply_of_body, ChatStream};

#[test]
fn stream_lines_are_cut_at_newlines() {
    let mut s = ChatStream::new();
    s.push_text("{\"a\":1}\n{\"b\"");
    assert_eq!(s.next_line(), Some("{\"a\":1}\n".to_string()));
    assert_eq!(s.next_line(), None);
    s.push_text(":2}\n");
    assert_eq!(s.next_line(), Some("{\"b\":2}\n".to_string()));
    assert_eq!(s.next_line(), None);
}

#[test]
fn streamed_reply_gathers_content_until_done() {
    let mut s = ChatStream::new();
    let l1 = "{\"message\":{\"role\":\"assistant\",\"content\":\"Hel\"},\"done\":false}\n";
    let l2 = "{\"message\":{\"role\":\"assistant\",\"content\":\"lo\"},\"done\":false}\n";
    let l3 = "{\"message\":{\"role\":\"assistant\",\"content\":\"\"},\"done\":true}\n";
    assert_eq!(ChatStream::line_chunk(l1), Some("Hel".to_string()));
    assert!(s.accept_line(l1).is_none());
    assert!(s.accept_line("   \n").is_none());
    assert!(s.accept_line("garbage\n").is_none());
    assert!(s.accept_line(l2).is_none());
    let m = s.accept_line(l3).unwrap();
    assert_eq!(m.role, "assistant");
    assert_eq!(m.content, "Hello");
    assert!(m.tool_calls.is_none());
}

#[test]
fn streamed_tool_calls_make_a_tool_call_reply() {
    let mut s = ChatStream::new();
    let line = "{\"message\":{\"content\":\"\",\"tool_calls\":[{\"function\":{\"name\":\"read_file\",\"arguments\":{\"path\":\"a.txt\"}}},{\"function\":{\"arguments\":{}}}]},\"done\":false}\n";
    assert!(s.accept_line(line).is_none());
    let m = s.finish();
    let calls = m.tool_calls.unwrap();
    assert_eq!(calls.len(), 1);
    assert_eq!(calls[0].function.name, "read_file");
    assert_eq!(calls[0].function.arguments, "{\"path\":\"a.txt\"}");
}

#[test]
fn whole_reply_is_read_from_the_body() {
    let m = reply_of_body("{\"message\":{\"role\":\"assistant\",\"content\":\"hi\"},\"done\":true}").unwrap();
    assert_eq!(m.content, "hi");
    assert!(m.tool_calls.is_none());
    let m = reply_of_body("{\"done\":true}").unwrap();
    assert_eq!(m.content, "");
    assert!(reply_of_body("{oops").is_err());
}

#[test]
fn model_names_skip_unnamed_entries() {
    let body = "{\"models\":[{\"name\":\"qwen3:4b\"},{\"size\":1},{\"name\":\"llama3\"}]}";
    assert_eq!(model_names(body), vec!["qwen3:4b".to_string(), "llama3".to_string()]);
    assert!(model_names("{}").is_empty());
}

#[test]
fn tool_calls_in_array_form_are_read() {
    let mut s = ChatStream::new();
    let line = [
        "{\"message\":{\"content\":\"\",\"tool_calls\":[",
        "[{\"name\":\"a\",\"arguments\":{\"x\":1}}],",
        "{\"function\":[\"b\",[1,2]]},",
        "[[\"c\",null]],",
        "[[\"d\",1,2]],",
        "[[7,{}]],",
        "[]",
        "]},\"done\":false}\n",
    ]
    .join("");
    let line = line.as_str();
    assert!(s.accept_line(line).is_none());
    let calls = s.finish().tool_calls.unwrap();
    let seen: Vec<(String, String)> =
        calls.iter().map(|c| (c.function.name.clone(), c.function.arguments.clone())).collect();
    assert_eq!(
        seen,
        vec![
            ("a".to_string(), "{\"x\":1}".to_string()),
            ("b".to_string(), "[1,2]".to_string()),
            ("c".to_string(), "null".to_string()),
        ]
    );
}

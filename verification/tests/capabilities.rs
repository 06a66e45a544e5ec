use oxide_agent::capabilities::InterfaceCapabilities;

#[test]
fn capability_profiles_are_sane() {
    let tui = InterfaceCapabilities::tui();
    assert!(tui.streaming_output);
    assert!(tui.interactive_tool_approval);

    let telegram = InterfaceCapabilities::telegram();
    assert!(!telegram.streaming_output);
    assert!(!telegram.rich_message_rendering);

    let web = InterfaceCapabilities::web();
    let discord = InterfaceCapabilities::discord();
    assert!(web.agent_switching && discord.agent_switching);
}

#[test]
fn tui_and_web_share_the_full_profile() {
    assert_eq!(InterfaceCapabilities::tui(), InterfaceCapabilities::web());
    let discord = InterfaceCapabilities::discord();
    assert!(discord.session_switching);
}

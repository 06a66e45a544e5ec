use oxide_agent::adapters::{
    interface_error_message, normalize_error, ApprovalAction, ApprovalFlow, ApprovalFlowState, MessageChunkBuffer,
};
use oxide_agent::types::{AppEvent, ToolApprovalResponse};

#[test]
fn approval_flow_requires_request_before_decision() {
    let mut flow = ApprovalFlow::new();
    assert_eq!(flow.state(), ApprovalFlowState::Idle);
    assert!(flow.decide(ApprovalAction::ApproveOnce).is_none());

    flow.request_approval();
    let event = flow.decide(ApprovalAction::ApproveAlwaysSession);
    assert!(matches!(event, Some(AppEvent::ToolApproval(ToolApprovalResponse::AlwaysAllowSession))));
    assert_eq!(flow.state(), ApprovalFlowState::Completed);
}

#[test]
fn message_chunk_buffer_flushes_all_chunks() {
    let mut buffer = MessageChunkBuffer::default();
    assert!(buffer.is_empty());

    buffer.push_chunk("hel");
    buffer.push_chunk("lo");
    assert_eq!(buffer.flush().as_deref(), Some("hello"));
    assert!(buffer.flush().is_none());
}

#[test]
fn approval_flow_maps_each_action() {
    let cases = [
        (ApprovalAction::ApproveOnce, ToolApprovalResponse::Allow),
        (ApprovalAction::ApproveAlwaysGlobal, ToolApprovalResponse::AlwaysAllow),
        (ApprovalAction::ApproveAlwaysSession, ToolApprovalResponse::AlwaysAllowSession),
        (ApprovalAction::Deny, ToolApprovalResponse::Deny),
    ];
    for (action, response) in cases {
        let mut flow = ApprovalFlow::new();
        flow.request_approval();
        assert_eq!(flow.state(), ApprovalFlowState::AwaitingDecision);
        assert_eq!(flow.decide(action), Some(AppEvent::ToolApproval(response)));
        // a second decision without a new request gives nothing
        assert!(flow.decide(action).is_none());
        flow.reset();
        assert_eq!(flow.state(), ApprovalFlowState::Idle);
    }
}

#[test]
fn chunk_buffer_keeps_order_and_empties() {
    let mut buffer = MessageChunkBuffer::default();
    assert!(buffer.flush().is_none());
    buffer.push_chunk("a");
    buffer.push_chunk("");
    buffer.push_chunk("bc");
    assert!(!buffer.is_empty());
    assert_eq!(buffer.flush(), Some("abc".to_string()));
    assert!(buffer.is_empty());
}

#[test]
fn interface_errors_are_prefixed() {
    assert_eq!(interface_error_message("boom"), "Interface error: boom");
    let error = anyhow::Error::msg("disk full");
    assert_eq!(normalize_error(&error), "Interface error: disk full");
    let chained = anyhow::Error::msg("low level").context("high level");
    assert_eq!(normalize_error(&chained), "Interface error: high level: low level");
}

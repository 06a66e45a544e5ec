use oxide_agent::agent_task::{
    agent_created_message, agent_not_found_message, agent_status_key, on_idle_timeout, on_queue_closed,
    session_file_for, AgentAction, AgentDirectory, AgentId, AgentInfo, AgentLoopState, AgentStatus,
};
use oxide_agent::orchestrator::{model_for_agent_name, Orchestrator, OrchestratorAction};
use oxide_agent::types::{AppEvent, ToolApprovalResponse, ToolCall, ToolFunction};

fn info(id: &str, name: &str) -> AgentInfo {
    AgentInfo {
        id: AgentId::new(id),
        name: name.to_string(),
        model: "qwen3:4b".to_string(),
        status: AgentStatus::Idle,
        session_name: "default".to_string(),
    }
}

#[test]
fn directory_reads_back_what_was_added() {
    let mut d = AgentDirectory::new();
    assert!(d.insert(info("agent_1", "Qwen")).is_none());
    assert!(d.insert(info("agent_2", "Llama")).is_none());
    assert_eq!(d.get(&AgentId::new("agent_2")).unwrap().name, "Llama");
    assert_eq!(d.get_by_name("Qwen").unwrap().id.as_str(), "agent_1");
    assert!(d.get_by_name("Granite").is_none());
    let replaced = d.insert(info("agent_1", "Granite")).unwrap();
    assert_eq!(replaced.name, "Qwen");
    assert_eq!(d.list().len(), 2);
    let removed = d.remove(&AgentId::new("agent_1")).unwrap();
    assert_eq!(removed.name, "Granite");
    assert!(d.get(&AgentId::new("agent_1")).is_none());
    assert!(d.remove(&AgentId::new("agent_1")).is_none());
    assert_eq!(d.get(&AgentId::new("agent_2")).unwrap().name, "Llama");
}

#[test]
fn directory_listing_follows_inserts_and_removals() {
    let mut d = AgentDirectory::new();
    d.insert(info("agent_1", "Qwen"));
    d.insert(info("agent_2", "Llama"));
    d.insert(info("agent_3", "Granite"));
    d.insert(info("agent_2", "Llama2"));
    let names: Vec<String> = d.list().iter().map(|a| a.name.clone()).collect();
    assert_eq!(names, vec!["Qwen", "Llama2", "Granite"]);
    d.remove(&AgentId::new("agent_1"));
    let ids: Vec<String> = d.list().iter().map(|a| a.id.as_str().to_string()).collect();
    assert_eq!(ids, vec!["agent_2", "agent_3"]);
}

#[test]
fn agent_texts() {
    let id = AgentId::with_suffix("x1");
    assert_eq!(id.as_str(), "agent_x1");
    assert_eq!(agent_status_key("Qwen", &id), "Qwen-agent_x1");
    assert_eq!(agent_created_message(&id, "Qwen"), "Created new agent: agent_x1 (Qwen)");
    assert_eq!(agent_not_found_message(&id), "Agent with ID agent_x1 not found");
    assert_eq!(session_file_for("default"), "session.json");
    assert_eq!(session_file_for("work"), "session_work.json");
}

fn call(name: &str) -> ToolCall {
    ToolCall { function: ToolFunction { name: name.to_string(), arguments: "{}".to_string() } }
}

#[test]
fn user_input_starts_a_turn() {
    let mut s = AgentLoopState::new(None);
    assert_eq!(s.current_session_name, "default");
    let actions = s.on_event(AppEvent::UserInput("hi".to_string()), "Qwen-a");
    assert!(s.is_processing);
    assert_eq!(
        actions,
        vec![
            AgentAction::Notify(AppEvent::AgentStatusUpdate("Qwen-a".to_string(), "Processing".to_string())),
            AgentAction::StartTurn { user_message: Some("hi".to_string()) },
        ]
    );
}

#[test]
fn session_switch_waits_for_the_turn() {
    let mut s = AgentLoopState::new(Some("work".to_string()));
    s.on_event(AppEvent::UserInput("hi".to_string()), "k");
    let actions = s.on_event(AppEvent::SwitchSession("play".to_string()), "k");
    assert_eq!(
        actions,
        vec![AgentAction::Notify(AppEvent::AgentMessage(
            "Session switch queued - will complete after current response.".to_string()
        ))]
    );
    assert_eq!(s.pending_session_switch, Some("play".to_string()));
    let actions = s.finish_turn("k");
    assert!(!s.is_processing);
    assert_eq!(actions[1], AgentAction::Requeue(AppEvent::SwitchSession("play".to_string())));
    let actions = s.on_event(AppEvent::SwitchSession("play".to_string()), "k");
    assert_eq!(
        actions,
        vec![AgentAction::SwitchSession {
            save_file: "session_work.json".to_string(),
            load_file: "session_play.json".to_string(),
            new_session: "play".to_string(),
        }]
    );
    s.session_switched("play".to_string());
    assert_eq!(s.current_session_name, "play");
}

#[test]
fn tool_answers_go_to_the_pending_request() {
    let mut s = AgentLoopState::new(None);
    assert!(s.on_event(AppEvent::ToolApproval(ToolApprovalResponse::Allow), "k").is_empty());
    let notice = s.await_tool_approval(vec![call("ls")]);
    assert_eq!(notice, AgentAction::Notify(AppEvent::ToolRequest(vec![call("ls")])));
    let actions = s.on_event(AppEvent::ToolApproval(ToolApprovalResponse::Deny), "k");
    assert_eq!(
        actions,
        vec![AgentAction::AnswerToolRequest { calls: vec![call("ls")], response: ToolApprovalResponse::Deny }]
    );
    assert!(s.pending_tool_calls.is_none());
    assert_eq!(
        on_idle_timeout("k"),
        AgentAction::Notify(AppEvent::AgentStatusUpdate("k".to_string(), "Idle".to_string()))
    );
    assert_eq!(on_queue_closed("k")[1], AgentAction::Stop);
}

#[test]
fn input_goes_to_the_active_agent() {
    let mut o = Orchestrator::new("qwen3:4b".to_string());
    assert_eq!(
        o.route(AppEvent::UserInput("hi".to_string())),
        vec![OrchestratorAction::Reply(AppEvent::Error("No active agent".to_string()))]
    );
    o.set_active_agent(AgentId::new("agent_1"));
    match &o.route(AppEvent::UserInput("hi".to_string()))[0] {
        OrchestratorAction::SendToAgent { agent, event, .. } => {
            assert_eq!(agent.as_str(), "agent_1");
            assert_eq!(event, &AppEvent::UserInput("hi".to_string()));
        }
        other => panic!("unexpected {other:?}"),
    }
    let actions = o.route(AppEvent::SwitchModel("llama3.2".to_string()));
    assert_eq!(o.model, "llama3.2");
    assert_eq!(
        actions,
        vec![OrchestratorAction::Reply(AppEvent::AgentMessage("Switched to model: llama3.2".to_string()))]
    );
    assert_eq!(model_for_agent_name("Granite"), "granite3.3");
    assert_eq!(model_for_agent_name("Other"), "qwen3:4b");
}

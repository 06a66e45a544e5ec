//! The orchestrator's decisions: where each event from the interface goes,
//! which agent is active, and what the interface is told.

use vstd::prelude::*;
use crate::agent_task::AgentId;
use crate::cli::{agent_display_name, model_key, AgentType};
use crate::text::occurs_at;
use crate::text::{concat2, join_with, joined, str_eq, to_owned_string};
use crate::types::AppEvent;

verus! {

/// What the orchestrator does next.
#[derive(Debug, PartialEq, Eq)]
pub enum OrchestratorAction {
    /// Send `event` to the agent `agent`; if that fails, tell the interface
    /// `Error(failure_prefix + reason)`.
    SendToAgent { agent: AgentId, event: AppEvent, failure_prefix: String },
    /// Tell the interface.
    Reply(AppEvent),
    /// Look for a running agent named `name`, then call
    /// `Orchestrator::agent_found` or `Orchestrator::agent_missing`.
    FindAgent { name: String, session: String },
    /// List the sessions; show them as a message when `as_message`, else
    /// send them as a `SessionList`.
    ListSessions { as_message: bool },
}

/// The orchestrator's state.
#[derive(Debug)]
pub struct Orchestrator {
    /// The agent that receives the user's input.
    pub active_agent_id: Option<AgentId>,
    /// The model last chosen.
    pub model: String,
}

/// The model used for a new agent of the given name.
pub open spec fn model_for_agent(name: Seq<char>) -> Seq<char> {
    if name == "Qwen"@ {
        "qwen3:4b"@
    } else if name == "Llama"@ {
        "llama3.2"@
    } else if name == "Granite"@ {
        "granite3.3"@
    } else {
        "qwen3:4b"@
    }
}

/// Each named agent gets its own model: Qwen `qwen3:4b`, Llama
/// `llama3.2`, Granite `granite3.3`; the model's name holds the key by which
/// the agent's model is looked up, and no two agents share a model.
pub proof fn lemma_each_agent_gets_its_model(t: AgentType, u: AgentType)
    ensures
        t == AgentType::Qwen ==> model_for_agent(agent_display_name(t)) == "qwen3:4b"@,
        t == AgentType::Llama ==> model_for_agent(agent_display_name(t)) == "llama3.2"@,
        t == AgentType::Granite ==> model_for_agent(agent_display_name(t)) == "granite3.3"@,
        occurs_at(model_for_agent(agent_display_name(t)), model_key(t), 0),
        t != u ==> model_for_agent(agent_display_name(t)) != model_for_agent(agent_display_name(u)),
{
    reveal_strlit("Qwen");
    reveal_strlit("Llama");
    reveal_strlit("Granite");
    reveal_strlit("qwen3:4b");
    reveal_strlit("llama3.2");
    reveal_strlit("granite3.3");
    reveal_strlit("qwen");
    reveal_strlit("llama");
    reveal_strlit("granite");
    assert("Llama"@ != "Qwen"@) by {
        assert("Llama"@[0] != "Qwen"@[0]);
    }
    assert("Granite"@ != "Qwen"@) by {
        assert("Granite"@[0] != "Qwen"@[0]);
    }
    assert("Granite"@ != "Llama"@) by {
        assert("Granite"@[0] != "Llama"@[0]);
    }
    let m = model_for_agent(agent_display_name(t));
    let n = model_for_agent(agent_display_name(u));
    match t {
        AgentType::Qwen => {
            assert(m == "qwen3:4b"@);
            assert(m.subrange(0, 4) =~= "qwen"@);
            assert(m[0] == 'q');
        },
        AgentType::Llama => {
            assert(m == "llama3.2"@);
            assert(m.subrange(0, 5) =~= "llama"@);
            assert(m[0] == 'l');
        },
        AgentType::Granite => {
            assert(m == "granite3.3"@);
            assert(m.subrange(0, 7) =~= "granite"@);
            assert(m[0] == 'g');
        },
    }
    match u {
        AgentType::Qwen => {
            assert(n[0] == 'q');
        },
        AgentType::Llama => {
            assert(n[0] == 'l');
        },
        AgentType::Granite => {
            assert(n[0] == 'g');
        },
    }
}

/// The model used for a new agent of the given name.
pub fn model_for_agent_name(name: &str) -> (r: &'static str)
    ensures
        r@ == model_for_agent(name@),
{
    if str_eq(name, "Qwen") {
        "qwen3:4b"
    } else if str_eq(name, "Llama") {
        "llama3.2"
    } else if str_eq(name, "Granite") {
        "granite3.3"
    } else {
        "qwen3:4b"
    }
}

/// A send to `agent` of `event`, reported with `prefix` on failure.
pub open spec fn is_send(a: OrchestratorAction, agent: Seq<char>, event: AppEvent, prefix: Seq<char>) -> bool {
    a matches OrchestratorAction::SendToAgent { agent: id, event: e, failure_prefix: p } && id@ == agent
        && e == event && p@ == prefix
}

/// An error reply with the given text.
pub open spec fn is_error_reply(a: OrchestratorAction, text: Seq<char>) -> bool {
    a matches OrchestratorAction::Reply(AppEvent::Error(t)) && t@ == text
}

/// An agent message reply with the given text.
pub open spec fn is_message_reply(a: OrchestratorAction, text: Seq<char>) -> bool {
    a matches OrchestratorAction::Reply(AppEvent::AgentMessage(t)) && t@ == text
}

/// How the orchestrator routes an event from the interface.
pub open spec fn routing(pre: Orchestrator, event: AppEvent, post: Orchestrator, actions: Seq<OrchestratorAction>) -> bool {
    match event {
        AppEvent::UserInput(_) => post == pre && match pre.active_agent_id {
            Some(id) => actions.len() == 1 && is_send(actions[0], id@, event, Seq::empty()),
            None => actions.len() == 1 && is_error_reply(actions[0], "No active agent"@),
        },
        AppEvent::ToolApproval(_) => post == pre && match pre.active_agent_id {
            Some(id) => actions.len() == 1 && is_send(actions[0], id@, event, Seq::empty()),
            None => actions.len() == 0,
        },
        AppEvent::ContinueConversation => post == pre && match pre.active_agent_id {
            Some(id) => actions.len() == 1 && is_send(actions[0], id@, event, Seq::empty()),
            None => actions.len() == 0,
        },
        AppEvent::SwitchSession(_) => post == pre && match pre.active_agent_id {
            Some(id) => actions.len() == 1 && is_send(actions[0], id@, event, "Failed to switch session: "@),
            None => actions.len() == 1 && is_error_reply(actions[0], "No active agent to switch session for"@),
        },
        AppEvent::SwitchAgent(name, session) => post == pre && actions.len() == 1 && actions[0]
            == OrchestratorAction::FindAgent { name, session },
        AppEvent::SwitchModel(m) => {
            &&& post.model == m
            &&& post.active_agent_id == pre.active_agent_id
            &&& actions.len() == 1
            &&& is_message_reply(actions[0], "Switched to model: "@ + m@)
        },
        AppEvent::ListSessions => post == pre && actions == seq![
            OrchestratorAction::ListSessions { as_message: true },
        ],
        AppEvent::RefreshSessions => post == pre && actions == seq![
            OrchestratorAction::ListSessions { as_message: false },
        ],
        _ => post == pre && actions.len() == 0,
    }
}

fn copy_agent_id(id: &Option<AgentId>) -> (r: Option<AgentId>)
    ensures
        r is Some == id is Some,
        r matches Some(a) ==> a@ == id->0@,
{
    match id {
        Some(a) => Some(a.clone()),
        None => None,
    }
}

impl Orchestrator {
    /// An orchestrator with no active agent.
    pub fn new(model: String) -> (r: Self)
        ensures
            r.active_agent_id is None,
            r.model == model,
    {
        Orchestrator { active_agent_id: None, model }
    }

    /// Routes an event from the interface.
    pub fn route(&mut self, event: AppEvent) -> (r: Vec<OrchestratorAction>)
        ensures
            routing(*old(self), event, *final(self), r@),
    {
        let mut actions: Vec<OrchestratorAction> = Vec::new();
        match event {
            AppEvent::UserInput(input) => match copy_agent_id(&self.active_agent_id) {
                Some(id) => actions.push(
                    OrchestratorAction::SendToAgent {
                        agent: id,
                        event: AppEvent::UserInput(input),
                        failure_prefix: String::new(),
                    },
                ),
                None => actions.push(
                    OrchestratorAction::Reply(AppEvent::Error(String::from_str("No active agent"))),
                ),
            },
            AppEvent::ToolApproval(response) => match copy_agent_id(&self.active_agent_id) {
                Some(id) => actions.push(
                    OrchestratorAction::SendToAgent {
                        agent: id,
                        event: AppEvent::ToolApproval(response),
                        failure_prefix: String::new(),
                    },
                ),
                None => {},
            },
            AppEvent::ContinueConversation => match copy_agent_id(&self.active_agent_id) {
                Some(id) => actions.push(
                    OrchestratorAction::SendToAgent {
                        agent: id,
                        event: AppEvent::ContinueConversation,
                        failure_prefix: String::new(),
                    },
                ),
                None => {},
            },
            AppEvent::SwitchSession(name) => match copy_agent_id(&self.active_agent_id) {
                Some(id) => actions.push(
                    OrchestratorAction::SendToAgent {
                        agent: id,
                        event: AppEvent::SwitchSession(name),
                        failure_prefix: String::from_str("Failed to switch session: "),
                    },
                ),
                None => actions.push(
                    OrchestratorAction::Reply(
                        AppEvent::Error(String::from_str("No active agent to switch session for")),
                    ),
                ),
            },
            AppEvent::SwitchAgent(name, session) => {
                actions.push(OrchestratorAction::FindAgent { name, session });
            },
            AppEvent::SwitchModel(model_name) => {
                let text = concat2("Switched to model: ", model_name.as_str());
                self.model = model_name;
                actions.push(OrchestratorAction::Reply(AppEvent::AgentMessage(text)));
            },
            AppEvent::ListSessions => {
                actions.push(OrchestratorAction::ListSessions { as_message: true });
            },
            AppEvent::RefreshSessions => {
                actions.push(OrchestratorAction::ListSessions { as_message: false });
            },
            _ => {},
        }
        proof {
            if actions@.len() == 1 {
                assert(actions@ =~= seq![actions@[0]]);
            }
        }
        actions
    }

    /// The agent asked for is running (or was just created): it becomes the
    /// active agent, the interface is told of the switch and of the agent's
    /// model, and the current session is moved to the agent.
    pub fn activate_agent(&mut self, id: AgentId, name: &str, model: &str, session: String) -> (r: Vec<
        OrchestratorAction,
    >)
        ensures
            final(self).active_agent_id matches Some(a) && a@ == id@,
            final(self).model == old(self).model,
            r@.len() == 3,
            is_message_reply(r@[0], "Switched to agent: "@ + name@),
            r@[1] matches OrchestratorAction::Reply(AppEvent::SwitchModel(m)) && m@ == model@,
            is_send(r@[2], id@, AppEvent::SwitchSession(session), "Failed to migrate session: "@),
    {
        let mut r: Vec<OrchestratorAction> = Vec::new();
        r.push(
            OrchestratorAction::Reply(AppEvent::AgentMessage(concat2("Switched to agent: ", name))),
        );
        r.push(OrchestratorAction::Reply(AppEvent::SwitchModel(to_owned_string(model))));
        r.push(
            OrchestratorAction::SendToAgent {
                agent: id.clone(),
                event: AppEvent::SwitchSession(session),
                failure_prefix: String::from_str("Failed to migrate session: "),
            },
        );
        self.active_agent_id = Some(id);
        r
    }

    /// Makes an agent the active one.
    pub fn set_active_agent(&mut self, id: AgentId)
        ensures
            final(self).active_agent_id == Some(id),
            final(self).model == old(self).model,
    {
        self.active_agent_id = Some(id);
    }
}

/// The reply when an agent cannot be created.
pub fn agent_creation_failed(error: &str) -> (r: OrchestratorAction)
    ensures
        is_error_reply(r, "Failed to create agent: "@ + error@),
{
    OrchestratorAction::Reply(AppEvent::Error(concat2("Failed to create agent: ", error)))
}

/// The reply when sending to an agent failed.
pub fn send_failure(prefix: &str, error: &str) -> (r: AppEvent)
    ensures
        r matches AppEvent::Error(t) && t@ == prefix@ + error@,
{
    AppEvent::Error(concat2(prefix, error))
}

/// The reply that shows the list of sessions.
pub fn sessions_message(sessions: &Vec<String>) -> (r: AppEvent)
    ensures
        r matches AppEvent::AgentMessage(t) && t@ == "Available sessions: "@ + joined(
            sessions@.map_values(|s: String| s@),
            ", "@,
        ),
{
    let list = join_with(sessions, ", ");
    AppEvent::AgentMessage(concat2("Available sessions: ", list.as_str()))
}

/// Input from the user always reaches the active agent, unchanged.
pub proof fn lemma_input_reaches_active_agent(
    pre: Orchestrator,
    text: String,
    post: Orchestrator,
    actions: Seq<OrchestratorAction>,
)
    requires
        pre.active_agent_id is Some,
        routing(pre, AppEvent::UserInput(text), post, actions),
    ensures
        actions.len() == 1,
        actions[0] matches OrchestratorAction::SendToAgent { agent, event, .. } && agent@
            == pre.active_agent_id->0@ && event == AppEvent::UserInput(text),
        post == pre,
{
}

} // verus!

//! The decisions of an agent's task: how it reacts to each event, when a
//! session switch waits for the current reply, and what it reports.
//! The task itself (chatting with the model, running tools, reading and
//! writing session files) is carried out by the program around it.

use vstd::prelude::*;
use crate::session::session_file_name;
use crate::text::{concat3, str_eq, to_owned_string};
use crate::types::{AppEvent, ToolApprovalResponse, ToolCall};

verus! {

/// The identifier of an agent.
#[derive(Debug, PartialEq, Eq, Hash)]
pub struct AgentId {
    id: String,
}

impl View for AgentId {
    type V = Seq<char>;

    closed spec fn view(&self) -> Seq<char> {
        self.id@
    }
}

impl Clone for AgentId {
    fn clone(&self) -> (r: Self)
        ensures
            r == *self,
    {
        AgentId { id: self.id.clone() }
    }
}

impl AgentId {
    /// An agent identifier.
    pub fn new(id: &str) -> (r: Self)
        ensures
            r@ == id@,
    {
        AgentId { id: String::from_str(id) }
    }

    /// The identifier as text.
    pub fn as_str(&self) -> (r: &str)
        ensures
            r@ == self@,
    {
        self.id.as_str()
    }

    /// The identifier of a new agent with the given random suffix.
    pub fn with_suffix(suffix: &str) -> (r: Self)
        ensures
            r@ == "agent_"@ + suffix@,
    {
        AgentId { id: crate::text::concat2("agent_", suffix) }
    }
}

/// What an agent is doing.
#[derive(Debug, PartialEq, Eq)]
pub enum AgentStatus {
    Idle,
    Processing,
    Error(String),
}

impl Clone for AgentStatus {
    fn clone(&self) -> (r: Self)
        ensures
            r == *self,
    {
        match self {
            AgentStatus::Idle => AgentStatus::Idle,
            AgentStatus::Processing => AgentStatus::Processing,
            AgentStatus::Error(e) => AgentStatus::Error(e.clone()),
        }
    }
}

/// What is known of an agent.
#[derive(Debug)]
pub struct AgentInfo {
    pub id: AgentId,
    pub name: String,
    pub model: String,
    pub status: AgentStatus,
    pub session_name: String,
}

impl Clone for AgentInfo {
    fn clone(&self) -> (r: Self)
        ensures
            r == *self,
    {
        AgentInfo {
            id: self.id.clone(),
            name: self.name.clone(),
            model: self.model.clone(),
            status: self.status.clone(),
            session_name: self.session_name.clone(),
        }
    }
}

/// Index of the agent with identifier `id` in a list, or -1.
pub open spec fn index_of_id(s: Seq<AgentInfo>, id: Seq<char>) -> int
    decreases s.len(),
{
    if s.len() == 0 {
        -1
    } else if s.last().id@ == id {
        s.len() - 1
    } else {
        index_of_id(s.drop_last(), id)
    }
}

/// No two agents of a list share an identifier.
pub open spec fn ids_unique(s: Seq<AgentInfo>) -> bool {
    forall|i: int, j: int| 0 <= i < j < s.len() ==> #[trigger] s[i].id@ != #[trigger] s[j].id@
}

proof fn lemma_index_of_id(s: Seq<AgentInfo>, id: Seq<char>)
    ensures
        index_of_id(s, id) == -1 ==> forall|i: int| 0 <= i < s.len() ==> #[trigger] s[i].id@ != id,
        index_of_id(s, id) != -1 ==> 0 <= index_of_id(s, id) < s.len() && s[index_of_id(s, id)].id@ == id,
    decreases s.len(),
{
    if s.len() > 0 {
        lemma_index_of_id(s.drop_last(), id);
        if s.last().id@ != id {
            if index_of_id(s, id) == -1 {
                assert forall|i: int| 0 <= i < s.len() implies #[trigger] s[i].id@ != id by {
                    if i < s.len() - 1 {
                        assert(s[i] == s.drop_last()[i]);
                    }
                }
            } else {
                let k = index_of_id(s, id);
                assert(s[k] == s.drop_last()[k]);
            }
        }
    }
}

/// The agents running, each under its own identifier.
pub struct AgentDirectory {
    agents: Vec<AgentInfo>,
}

impl AgentDirectory {
    #[verifier::type_invariant]
    spec fn unique(&self) -> bool {
        ids_unique(self.agents@)
    }

    /// The agents, in the order they were added.
    pub closed spec fn agents(&self) -> Seq<AgentInfo> {
        self.agents@
    }

    /// The agent with identifier `id`, if any.
    pub open spec fn agent(&self, id: Seq<char>) -> Option<AgentInfo> {
        let i = index_of_id(self.agents(), id);
        if i == -1 {
            None
        } else {
            Some(self.agents()[i])
        }
    }

    /// No agents.
    pub fn new() -> (r: Self)
        ensures
            r.agents().len() == 0,
    {
        AgentDirectory { agents: Vec::new() }
    }

    fn position(&self, id: &AgentId) -> (r: Option<usize>)
        ensures
            match r {
                Some(j) => j as int == index_of_id(self.agents(), id@),
                None => index_of_id(self.agents(), id@) == -1,
            },
    {
        let mut i: usize = self.agents.len();
        assert(self.agents@.take(i as int) =~= self.agents@);
        while i > 0
            invariant
                i <= self.agents@.len(),
                index_of_id(self.agents@, id@) == index_of_id(self.agents@.take(i as int), id@),
            decreases i,
        {
            let ghost t = self.agents@.take(i as int);
            assert(t.drop_last() =~= self.agents@.take(i - 1));
            assert(t.last() == self.agents@[i - 1]);
            if str_eq(self.agents[i - 1].id.as_str(), id.as_str()) {
                return Some(i - 1);
            }
            i = i - 1;
        }
        None
    }

    /// The agent with this identifier.
    pub fn get(&self, id: &AgentId) -> (r: Option<&AgentInfo>)
        ensures
            match self.agent(id@) {
                Some(a) => r == Some(&a),
                None => r is None,
            },
    {
        proof {
            lemma_index_of_id(self.agents@, id@);
        }
        match self.position(id) {
            Some(j) => Some(&self.agents[j]),
            None => None,
        }
    }

    /// The first agent with this name.
    pub fn get_by_name(&self, name: &str) -> (r: Option<&AgentInfo>)
        ensures
            match r {
                Some(a) => exists|i: int| {
                    &&& 0 <= i < self.agents().len()
                    &&& self.agents()[i] == *a
                    &&& a.name@ == name@
                    &&& forall|j: int| 0 <= j < i ==> (#[trigger] self.agents()[j]).name@ != name@
                },
                None => forall|i: int| 0 <= i < self.agents().len() ==> (#[trigger] self.agents()[i]).name@ != name@,
            },
    {
        let mut i: usize = 0;
        while i < self.agents.len()
            invariant
                i <= self.agents@.len(),
                forall|j: int| 0 <= j < i ==> (#[trigger] self.agents@[j]).name@ != name@,
            decreases self.agents@.len() - i,
        {
            if str_eq(self.agents[i].name.as_str(), name) {
                return Some(&self.agents[i]);
            }
            i = i + 1;
        }
        None
    }

    /// Adds an agent, replacing the one with the same identifier; gives the
    /// replaced one back. A new agent is listed last; a replaced one keeps
    /// its place.
    pub fn insert(&mut self, info: AgentInfo) -> (r: Option<AgentInfo>)
        ensures
            r == old(self).agent(info.id@),
            r is None ==> final(self).agents() == old(self).agents().push(info),
            r is Some ==> final(self).agents() == old(self).agents().update(
                index_of_id(old(self).agents(), info.id@),
                info,
            ),
            final(self).agent(info.id@) == Some(info),
            forall|k: Seq<char>| k != info.id@ ==> #[trigger] final(self).agent(k) == old(self).agent(k),
    {
        proof {
            use_type_invariant(&*self);
            lemma_index_of_id(self.agents@, info.id@);
        }
        let ghost old_agents = self.agents@;
        let pos = self.position(&info.id);
        let mut agents: Vec<AgentInfo> = Vec::new();
        std::mem::swap(&mut agents, &mut self.agents);
        let replaced = match pos {
            Some(j) => {
                let previous = agents[j].clone();
                proof {
                    assert forall|i: int| j < i < old_agents.len() implies #[trigger] old_agents[i].id@ != info.id@ by {
                        assert(old_agents[j as int].id@ != old_agents[i].id@);
                    }
                    lemma_update_finds(old_agents, j as int, info);
                }
                agents.set(j, info);
                proof {
                    assert(agents@ == old_agents.update(j as int, info));
                    assert forall|a: int, b: int| 0 <= a < b < agents@.len() implies #[trigger] agents@[a].id@
                        != #[trigger] agents@[b].id@ by {
                        assert(old_agents[a].id@ != old_agents[b].id@);
                    }
                    assert forall|k: Seq<char>| k != info.id@ implies index_of_id(agents@, k) == index_of_id(old_agents, k)
                        && (index_of_id(agents@, k) != -1 ==> agents@[index_of_id(agents@, k)] == old_agents[index_of_id(
                        old_agents,
                        k,
                    )]) by {
                        lemma_update_index(old_agents, j as int, info, k);
                        lemma_index_of_id(old_agents, k);
                    }
                }
                Some(previous)
            },
            None => {
                agents.push(info);
                proof {
                    assert(agents@ =~= old_agents.push(info));
                    assert(agents@.drop_last() =~= old_agents);
                    assert forall|a: int, b: int| 0 <= a < b < agents@.len() implies #[trigger] agents@[a].id@
                        != #[trigger] agents@[b].id@ by {
                        if b < old_agents.len() {
                            assert(old_agents[a].id@ != old_agents[b].id@);
                        } else {
                            assert(old_agents[a].id@ != info.id@);
                        }
                    }
                    assert forall|k: Seq<char>| k != info.id@ implies index_of_id(agents@, k) == index_of_id(old_agents, k)
                        && (index_of_id(agents@, k) != -1 ==> agents@[index_of_id(agents@, k)] == old_agents[index_of_id(
                        old_agents,
                        k,
                    )]) by {
                        lemma_index_of_id(old_agents, k);
                    }
                }
                None
            },
        };
        self.agents = agents;
        replaced
    }

    /// Removes the agent with this identifier; gives it back. The others
    /// keep their order.
    pub fn remove(&mut self, id: &AgentId) -> (r: Option<AgentInfo>)
        ensures
            r == old(self).agent(id@),
            r is None ==> final(self).agents() == old(self).agents(),
            r is Some ==> final(self).agents() == old(self).agents().remove(
                index_of_id(old(self).agents(), id@),
            ),
            final(self).agent(id@) is None,
            forall|k: Seq<char>| k != id@ ==> #[trigger] final(self).agent(k) == old(self).agent(k),
    {
        proof {
            use_type_invariant(&*self);
        }
        let ghost old_agents = self.agents@;
        match self.position(id) {
            None => {
                proof {
                    lemma_index_of_id(old_agents, id@);
                }
                None
            },
            Some(j) => {
                proof {
                    lemma_index_of_id(old_agents, id@);
                }
                let mut agents: Vec<AgentInfo> = Vec::new();
                std::mem::swap(&mut agents, &mut self.agents);
                let removed = agents.remove(j);
                proof {
                    assert(agents@ =~= old_agents.remove(j as int));
                    assert forall|i: int| 0 <= i < old_agents.len() && i != j implies #[trigger] old_agents[i].id@
                        != id@ by {
                        if i < j {
                            assert(old_agents[i].id@ != old_agents[j as int].id@);
                        } else {
                            assert(old_agents[j as int].id@ != old_agents[i].id@);
                        }
                    }
                    assert forall|a: int, b: int| 0 <= a < b < agents@.len() implies #[trigger] agents@[a].id@
                        != #[trigger] agents@[b].id@ by {
                        if b < j {
                            assert(old_agents[a].id@ != old_agents[b].id@);
                        } else if a < j {
                            assert(old_agents[a].id@ != old_agents[b + 1].id@);
                        } else {
                            assert(old_agents[a + 1].id@ != old_agents[b + 1].id@);
                        }
                    }
                    lemma_index_of_id(agents@, id@);
                    assert forall|k: Seq<char>| k != id@ implies (#[trigger] index_of_id(agents@, k) == -1) == (
                    index_of_id(old_agents, k) == -1) && (index_of_id(agents@, k) != -1 ==> agents@[index_of_id(
                        agents@,
                        k,
                    )] == old_agents[index_of_id(old_agents, k)]) by {
                        lemma_remove_index(old_agents, j as int, k);
                        lemma_index_of_id(old_agents, k);
                    }
                }
                self.agents = agents;
                Some(removed)
            },
        }
    }

    /// The agents, in the order they were added.
    pub fn list(&self) -> (r: Vec<AgentInfo>)
        ensures
            r@ == self.agents(),
    {
        let r = self.agents.clone();
        assert(r@ =~= self.agents@);
        r
    }
}

proof fn lemma_update_index(s: Seq<AgentInfo>, j: int, x: AgentInfo, k: Seq<char>)
    requires
        0 <= j < s.len(),
        s[j].id@ == x.id@,
        k != x.id@,
    ensures
        index_of_id(s.update(j, x), k) == index_of_id(s, k),
        index_of_id(s, k) != j,
    decreases s.len(),
{
    let u = s.update(j, x);
    lemma_index_of_id(s, k);
    if j == s.len() - 1 {
        assert(u.drop_last() =~= s.drop_last());
    } else {
        assert(u.drop_last() =~= s.drop_last().update(j, x));
        assert(u.last() == s.last());
        lemma_update_index(s.drop_last(), j, x, k);
    }
}

proof fn lemma_update_finds(s: Seq<AgentInfo>, j: int, x: AgentInfo)
    requires
        0 <= j < s.len(),
        s[j].id@ == x.id@,
        forall|i: int| j < i < s.len() ==> #[trigger] s[i].id@ != x.id@,
    ensures
        index_of_id(s.update(j, x), x.id@) == j,
        index_of_id(s, x.id@) == j,
    decreases s.len(),
{
    let u = s.update(j, x);
    if j < s.len() - 1 {
        assert(u.drop_last() =~= s.drop_last().update(j, x));
        assert(u.last() == s.last());
        assert(s.last().id@ != x.id@);
        assert forall|i: int| j < i < s.drop_last().len() implies #[trigger] s.drop_last()[i].id@ != x.id@ by {
            assert(s.drop_last()[i] == s[i]);
        }
        lemma_update_finds(s.drop_last(), j, x);
    }
}

/// Where an agent's entry is after another entry is removed.
pub open spec fn index_after_removal(i: int, j: int) -> int {
    if i == -1 {
        -1
    } else if i < j {
        i
    } else {
        i - 1
    }
}

proof fn lemma_remove_index(s: Seq<AgentInfo>, j: int, k: Seq<char>)
    requires
        0 <= j < s.len(),
        k != s[j].id@,
    ensures
        index_of_id(s, k) != j,
        index_of_id(s.remove(j), k) == index_after_removal(index_of_id(s, k), j),
    decreases s.len(),
{
    let r = s.remove(j);
    lemma_index_of_id(s, k);
    if j == s.len() - 1 {
        assert(r =~= s.drop_last());
        lemma_index_of_id(s.drop_last(), k);
    } else {
        assert(r.drop_last() =~= s.drop_last().remove(j));
        assert(r.last() == s.last());
        assert(s.drop_last()[j] == s[j]);
        lemma_remove_index(s.drop_last(), j, k);
    }
}

/// The error for an agent that is not running.
pub fn agent_not_found_message(id: &AgentId) -> (r: String)
    ensures
        r@ == "Agent with ID "@ + id@ + " not found"@,
{
    concat3("Agent with ID ", id.as_str(), " not found")
}

/// The key under which an agent's status is reported: its name, a dash and
/// its identifier.
pub fn agent_status_key(name: &str, id: &AgentId) -> (r: String)
    ensures
        r@ == name@ + "-"@ + id@,
{
    concat3(name, "-", id.as_str())
}

/// The announcement of a new agent.
pub fn agent_created_message(id: &AgentId, name: &str) -> (r: String)
    ensures
        r@ == "Created new agent: "@ + id@ + " ("@ + name@ + ")"@,
{
    let mut r = concat3("Created new agent: ", id.as_str(), " (");
    r.append(name);
    r.append(")");
    r
}

/// The session file of a named session; "default" names the default
/// session.
pub open spec fn file_of_session(name: Seq<char>) -> Seq<char> {
    if name == "default"@ {
        session_file_name(None)
    } else {
        session_file_name(Some(name))
    }
}

/// The session file of a named session.
pub fn session_file_for(name: &str) -> (r: String)
    ensures
        r@ == file_of_session(name@),
{
    if str_eq(name, "default") {
        crate::session::SessionManager::get_session_filename(None)
    } else {
        crate::session::SessionManager::get_session_filename(Some(name))
    }
}

/// What the agent task does next.
#[derive(Debug, PartialEq, Eq)]
pub enum AgentAction {
    /// Tell the interfaces (broadcast).
    Notify(AppEvent),
    /// Put an event back on the agent's own queue.
    Requeue(AppEvent),
    /// Save the current session to `save_file`, then load `load_file`;
    /// when both succeed the agent is in session `new_session`, its history
    /// is the loaded one, and the interfaces are told of the switch and the
    /// history. A failure is reported as an error.
    SwitchSession { save_file: String, load_file: String, new_session: String },
    /// Start a turn of the conversation: add `user_message` (if any) to the
    /// history, store the history in the session, chat with the model and
    /// handle its reply.
    StartTurn { user_message: Option<String> },
    /// Handle the user's answer to the pending tool request.
    AnswerToolRequest { calls: Vec<ToolCall>, response: ToolApprovalResponse },
    /// Stop the task.
    Stop,
}

/// The state an agent task keeps between events.
#[derive(Debug)]
pub struct AgentLoopState {
    /// The session the agent works in.
    pub current_session_name: String,
    /// Whether a reply of the model is being handled.
    pub is_processing: bool,
    /// A session switch that waits for the current reply.
    pub pending_session_switch: Option<String>,
    /// Tool calls that wait for the user's approval.
    pub pending_tool_calls: Option<Vec<ToolCall>>,
}

/// The message sent when a session switch has to wait.
pub open spec fn queued_switch_notice() -> Seq<char> {
    "Session switch queued - will complete after current response."@
}

/// A status report.
pub open spec fn status_event(key: Seq<char>, status: Seq<char>, e: AppEvent) -> bool {
    e matches AppEvent::AgentStatusUpdate(k, s) && k@ == key && s@ == status
}

/// How the task answers an event: its actions and the state after it.
pub open spec fn event_response(
    pre: AgentLoopState,
    event: AppEvent,
    key: Seq<char>,
    post: AgentLoopState,
    actions: Seq<AgentAction>,
) -> bool {
    match event {
        AppEvent::SwitchSession(n) => if pre.is_processing {
            &&& post.pending_session_switch == Some(n)
            &&& post.current_session_name == pre.current_session_name
            &&& post.is_processing == pre.is_processing
            &&& post.pending_tool_calls == pre.pending_tool_calls
            &&& actions.len() == 1
            &&& actions[0] matches AgentAction::Notify(AppEvent::AgentMessage(m)) && m@
                == queued_switch_notice()
        } else {
            &&& post == pre
            &&& actions.len() == 1
            &&& actions[0] matches AgentAction::SwitchSession { save_file, load_file, new_session }
                && save_file@ == file_of_session(pre.current_session_name@) && load_file@
                == file_of_session(n@) && new_session == n
        },
        AppEvent::UserInput(input) => {
            &&& post.is_processing
            &&& post.current_session_name == pre.current_session_name
            &&& post.pending_session_switch == pre.pending_session_switch
            &&& post.pending_tool_calls == pre.pending_tool_calls
            &&& actions.len() == 2
            &&& actions[0] matches AgentAction::Notify(e) && status_event(key, "Processing"@, e)
            &&& actions[1] == AgentAction::StartTurn { user_message: Some(input) }
        },
        AppEvent::ContinueConversation => {
            &&& post.is_processing
            &&& post.current_session_name == pre.current_session_name
            &&& post.pending_session_switch == pre.pending_session_switch
            &&& post.pending_tool_calls == pre.pending_tool_calls
            &&& actions.len() == 2
            &&& actions[0] matches AgentAction::Notify(e) && status_event(key, "Processing"@, e)
            &&& actions[1] == AgentAction::StartTurn { user_message: None }
        },
        AppEvent::ToolApproval(response) => {
            &&& post.current_session_name == pre.current_session_name
            &&& post.is_processing == pre.is_processing
            &&& post.pending_session_switch == pre.pending_session_switch
            &&& post.pending_tool_calls is None
            &&& match pre.pending_tool_calls {
                Some(calls) => actions == seq![AgentAction::AnswerToolRequest { calls, response }],
                None => actions.len() == 0,
            }
        },
        AppEvent::AgentStreamChunk(c) => post == pre && actions == seq![
            AgentAction::Notify(AppEvent::AgentStreamChunk(c)),
        ],
        AppEvent::AgentStreamEnd => post == pre && actions == seq![AgentAction::Notify(AppEvent::AgentStreamEnd)],
        _ => post == pre && actions.len() == 0,
    }
}

fn status_update(key: &str, status: &str) -> (r: AgentAction)
    ensures
        r matches AgentAction::Notify(e) && status_event(key@, status@, e),
{
    AgentAction::Notify(AppEvent::AgentStatusUpdate(to_owned_string(key), to_owned_string(status)))
}

impl AgentLoopState {
    /// The state of a new task working in the given session ("default"
    /// when none is named).
    pub fn new(session_name: Option<String>) -> (r: Self)
        ensures
            r.current_session_name@ == (match session_name {
                Some(n) => n@,
                None => "default"@,
            }),
            !r.is_processing,
            r.pending_session_switch is None,
            r.pending_tool_calls is None,
    {
        AgentLoopState {
            current_session_name: match session_name {
                Some(n) => n,
                None => String::from_str("default"),
            },
            is_processing: false,
            pending_session_switch: None,
            pending_tool_calls: None,
        }
    }

    /// Reacts to an event received by the task; `status_key` is the key of
    /// the agent's status reports.
    pub fn on_event(&mut self, event: AppEvent, status_key: &str) -> (r: Vec<AgentAction>)
        ensures
            event_response(*old(self), event, status_key@, *final(self), r@),
    {
        let mut actions: Vec<AgentAction> = Vec::new();
        match event {
            AppEvent::SwitchSession(n) => {
                if self.is_processing {
                    self.pending_session_switch = Some(n);
                    actions.push(
                        AgentAction::Notify(
                            AppEvent::AgentMessage(
                                String::from_str(
                                    "Session switch queued - will complete after current response.",
                                ),
                            ),
                        ),
                    );
                } else {
                    let save_file = session_file_for(self.current_session_name.as_str());
                    let load_file = session_file_for(n.as_str());
                    actions.push(AgentAction::SwitchSession { save_file, load_file, new_session: n });
                }
            },
            AppEvent::UserInput(input) => {
                self.is_processing = true;
                actions.push(status_update(status_key, "Processing"));
                actions.push(AgentAction::StartTurn { user_message: Some(input) });
            },
            AppEvent::ContinueConversation => {
                self.is_processing = true;
                actions.push(status_update(status_key, "Processing"));
                actions.push(AgentAction::StartTurn { user_message: None });
            },
            AppEvent::ToolApproval(response) => {
                let pending = self.pending_tool_calls.take();
                match pending {
                    Some(calls) => {
                        actions.push(AgentAction::AnswerToolRequest { calls, response });
                    },
                    None => {},
                }
            },
            AppEvent::AgentStreamChunk(c) => {
                actions.push(AgentAction::Notify(AppEvent::AgentStreamChunk(c)));
            },
            AppEvent::AgentStreamEnd => {
                actions.push(AgentAction::Notify(AppEvent::AgentStreamEnd));
            },
            _ => {},
        }
        proof {
            if actions@.len() == 1 {
                assert(actions@ =~= seq![actions@[0]]);
            }
        }
        actions
    }

    /// The model asked for tools that need approval: keep them and tell the
    /// interfaces.
    pub fn await_tool_approval(&mut self, calls: Vec<ToolCall>) -> (r: AgentAction)
        ensures
            final(self).pending_tool_calls == Some(calls),
            r matches AgentAction::Notify(AppEvent::ToolRequest(c)) && c@ == calls@,
            final(self).current_session_name == old(self).current_session_name,
            final(self).is_processing == old(self).is_processing,
            final(self).pending_session_switch == old(self).pending_session_switch,
    {
        let r = AgentAction::Notify(AppEvent::ToolRequest(crate::types::copy_tool_calls(&calls)));
        self.pending_tool_calls = Some(calls);
        r
    }

    /// A turn of the conversation is over: the agent is idle again, and a
    /// session switch that waited for it is put back on the queue.
    pub fn finish_turn(&mut self, status_key: &str) -> (r: Vec<AgentAction>)
        ensures
            !final(self).is_processing,
            final(self).pending_session_switch is None,
            final(self).current_session_name == old(self).current_session_name,
            final(self).pending_tool_calls == old(self).pending_tool_calls,
            r@.len() >= 1,
            r@[0] matches AgentAction::Notify(e) && status_event(status_key@, "Idle"@, e),
            match old(self).pending_session_switch {
                Some(n) => r@.len() == 2 && r@[1] == AgentAction::Requeue(AppEvent::SwitchSession(n)),
                None => r@.len() == 1,
            },
    {
        self.is_processing = false;
        let mut actions: Vec<AgentAction> = Vec::new();
        actions.push(status_update(status_key, "Idle"));
        match self.pending_session_switch.take() {
            Some(n) => {
                actions.push(AgentAction::Requeue(AppEvent::SwitchSession(n)));
            },
            None => {},
        }
        actions
    }

    /// The saved and loaded session switch succeeded.
    pub fn session_switched(&mut self, new_session: String)
        ensures
            final(self).current_session_name == new_session,
            final(self).is_processing == old(self).is_processing,
            final(self).pending_session_switch == old(self).pending_session_switch,
            final(self).pending_tool_calls == old(self).pending_tool_calls,
    {
        self.current_session_name = new_session;
    }
}

/// What the task reports when no event came for a while.
pub fn on_idle_timeout(status_key: &str) -> (r: AgentAction)
    ensures
        r matches AgentAction::Notify(e) && status_event(status_key@, "Idle"@, e),
{
    status_update(status_key, "Idle")
}

/// What the task reports when its queue is closed; it then stops.
pub fn on_queue_closed(status_key: &str) -> (r: Vec<AgentAction>)
    ensures
        r@.len() == 2,
        r@[0] matches AgentAction::Notify(e) && status_event(status_key@, "Stopped"@, e),
        r@[1] == AgentAction::Stop,
{
    let mut r: Vec<AgentAction> = Vec::new();
    r.push(status_update(status_key, "Stopped"));
    r.push(AgentAction::Stop);
    r
}

/// A session switch asked for while the agent answers is carried out once
/// the answer is done: it is queued, and the end of the turn puts it back
/// on the queue.
pub proof fn lemma_switch_during_turn_is_deferred(
    pre: AgentLoopState,
    n: String,
    key: Seq<char>,
    mid: AgentLoopState,
    actions: Seq<AgentAction>,
)
    requires
        pre.is_processing,
        event_response(pre, AppEvent::SwitchSession(n), key, mid, actions),
    ensures
        mid.pending_session_switch == Some(n),
        mid.current_session_name == pre.current_session_name,
        forall|i: int| 0 <= i < actions.len() ==> !(#[trigger] actions[i] is SwitchSession),
{
}

} // verus!

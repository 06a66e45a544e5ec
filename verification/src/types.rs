//! Messages, events and tool descriptions shared by all parts of the agent.

use vstd::prelude::*;
use vstd::string::*;
use crate::text::{concat2, to_owned_string};

verus! {

/// The user's answer to a request to run tools.
#[derive(Debug, Clone, Copy, PartialEq, Eq, Structural)]
pub enum ToolApprovalResponse {
    Allow,
    AlwaysAllow,
    AlwaysAllowSession,
    Deny,
}

/// A tool invocation requested by the model. `arguments` holds the JSON
/// text of the arguments object.
#[derive(Debug, PartialEq, Eq)]
pub struct ToolFunction {
    pub name: String,
    pub arguments: String,
}

impl Clone for ToolFunction {
    fn clone(&self) -> (r: Self)
        ensures
            r == *self,
    {
        ToolFunction { name: self.name.clone(), arguments: self.arguments.clone() }
    }
}

/// One tool call of a model reply.
#[derive(Debug, PartialEq, Eq)]
pub struct ToolCall {
    pub function: ToolFunction,
}

impl Clone for ToolCall {
    fn clone(&self) -> (r: Self)
        ensures
            r == *self,
    {
        ToolCall { function: self.function.clone() }
    }
}

/// A copy of a list of tool calls.
pub fn copy_tool_calls(calls: &Vec<ToolCall>) -> (r: Vec<ToolCall>)
    ensures
        r@ == calls@,
{
    let r = calls.clone();
    assert(r@ =~= calls@);
    r
}

/// One message of a conversation.
#[derive(Debug, Clone, PartialEq, Eq)]
pub struct ChatMessage {
    pub role: String,
    pub content: String,
    pub tool_calls: Option<Vec<ToolCall>>,
}

/// Events exchanged between the interface, the orchestrator and the agents.
#[derive(Debug, Clone, PartialEq, Eq)]
pub enum AppEvent {
    UserInput(String),
    ToolApproval(ToolApprovalResponse),
    AgentMessage(String),
    AgentStreamChunk(String),
    AgentStreamEnd,
    ToolRequest(Vec<ToolCall>),
    ToolResult(String, String),
    Error(String),
    SwitchSession(String),
    SwitchAgent(String, String),
    SwitchModel(String),
    ListSessions,
    RefreshSessions,
    SessionList(Vec<String>),
    SessionSwitched(String),
    SessionHistory(Vec<ChatMessage>),
    ContinueConversation,
    AgentStatusUpdate(String, String),
}

/// The function part of a tool description sent to the model.
/// `parameters` holds the JSON text of the parameter schema.
#[derive(Debug, Clone, PartialEq, Eq)]
pub struct ToolFunctionDefinition {
    pub name: String,
    pub description: String,
    pub parameters: String,
}

/// A tool description sent to the model; `kind` is its `type` field.
#[derive(Debug, Clone, PartialEq, Eq)]
pub struct Tool {
    pub kind: String,
    pub function: ToolFunctionDefinition,
}

/// Role and content of a message, with no tool calls.
pub open spec fn plain_message(m: ChatMessage, role: Seq<char>, content: Seq<char>) -> bool {
    m.role@ == role && m.content@ == content && m.tool_calls is None
}

impl ChatMessage {
    /// A message typed by the user.
    pub fn user(content: &str) -> (m: Self)
        ensures
            plain_message(m, "user"@, content@),
    {
        ChatMessage { role: String::from_str("user"), content: String::from_str(content), tool_calls: None }
    }

    /// A reply of the model.
    pub fn assistant(content: &str) -> (m: Self)
        ensures
            plain_message(m, "assistant"@, content@),
    {
        ChatMessage {
            role: String::from_str("assistant"),
            content: String::from_str(content),
            tool_calls: None,
        }
    }

    /// The system prompt.
    pub fn system(content: &str) -> (m: Self)
        ensures
            plain_message(m, "system"@, content@),
    {
        ChatMessage { role: String::from_str("system"), content: String::from_str(content), tool_calls: None }
    }

    /// A reply of the model that asks for tools to be run.
    pub fn tool_call(content: &str, tool_calls: Vec<ToolCall>) -> (m: Self)
        ensures
            m.role@ == "assistant"@,
            m.content@ == content@,
            m.tool_calls == Some(tool_calls),
    {
        ChatMessage {
            role: String::from_str("assistant"),
            content: String::from_str(content),
            tool_calls: Some(tool_calls),
        }
    }
}

/// The three characters appended to a shortened description.
pub open spec fn ellipsis() -> Seq<char> {
    seq!['.', '.', '.']
}

/// A description is shortened to its first 60 characters followed by
/// `...` when it is longer than 60 characters, and kept otherwise.
pub open spec fn is_truncation_of(d: Seq<char>, r: Seq<char>) -> bool {
    if d.len() <= 60 {
        r == d
    } else {
        r == d.subrange(0, 60) + ellipsis()
    }
}

/// Shortens a description to its first 60 characters and an ellipsis.
pub fn truncate_description(description: &str) -> (r: String)
    ensures
        is_truncation_of(description@, r@),
{
    let n = description.unicode_len();
    if n > 60 {
        let head = description.substring_char(0, 60);
        let r = concat2(head, "...");
        proof {
            reveal_strlit("...");
            assert("..."@ == ellipsis());
        }
        r
    } else {
        to_owned_string(description)
    }
}

impl Tool {
    /// A function tool description.
    pub fn new(name: &str, description: &str, parameters: String) -> (t: Self)
        ensures
            t.kind@ == "function"@,
            t.function.name@ == name@,
            t.function.description@ == description@,
            t.function.parameters == parameters,
    {
        Tool {
            kind: String::from_str("function"),
            function: ToolFunctionDefinition {
                name: String::from_str(name),
                description: String::from_str(description),
                parameters,
            },
        }
    }

    /// The description shortened to 60 characters with an ellipsis if
    /// needed.
    pub fn truncated_description(&self) -> (r: String)
        ensures
            is_truncation_of(self.function.description@, r@),
    {
        truncate_description(self.function.description.as_str())
    }
}

} // verus!

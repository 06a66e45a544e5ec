//! Command-line options of the agent, as plain values.

use vstd::prelude::*;
use crate::text::{contains_str, occurs_in};

verus! {

/// The options given on the command line.
#[derive(Debug, Clone, PartialEq, Eq)]
pub struct Args {
    pub agent: Option<AgentType>,
    pub no_stream: Option<bool>,
    pub session: Option<String>,
    pub list_sessions: Option<bool>,
    pub mcp_server: Option<String>,
    pub mcp_auth_token: Option<String>,
    pub interface: Option<InterfaceType>,
    pub config: Option<String>,
    pub llm_api_base: Option<String>,
    pub llm_api_key: Option<String>,
    pub llm_model: Option<String>,
}

/// The agents offered on the command line.
#[derive(Debug, Clone, Copy, PartialEq, Eq, Structural)]
pub enum AgentType {
    Qwen,
    Llama,
    Granite,
}

/// The interfaces offered on the command line.
#[derive(Debug, Clone, Copy, PartialEq, Eq, Structural)]
pub enum InterfaceType {
    Tui,
    Web,
    Telegram,
    Discord,
}

/// The text searched for in model names for an agent type.
pub open spec fn model_key(t: AgentType) -> Seq<char> {
    match t {
        AgentType::Qwen => "qwen"@,
        AgentType::Llama => "llama"@,
        AgentType::Granite => "granite"@,
    }
}

/// The display name of an agent type.
pub open spec fn agent_display_name(t: AgentType) -> Seq<char> {
    match t {
        AgentType::Qwen => "Qwen"@,
        AgentType::Llama => "Llama"@,
        AgentType::Granite => "Granite"@,
    }
}

/// The system prompt of an agent type.
pub open spec fn agent_prompt(t: AgentType) -> Seq<char> {
    match t {
        AgentType::Qwen => "You are a Rust programming expert."@,
        AgentType::Llama => "You are a helpful assistant."@,
        AgentType::Granite => "You are a helpful assistant."@,
    }
}

/// `i` is the first model whose name contains `key`.
pub open spec fn first_model_with(models: Seq<String>, key: Seq<char>, i: int) -> bool {
    &&& 0 <= i < models.len()
    &&& occurs_in(models[i]@, key)
    &&& forall|j: int| 0 <= j < i ==> !occurs_in(#[trigger] models[j]@, key)
}

impl AgentType {
    /// The model for this agent: the first available model whose name
    /// contains the agent's key, else the first available model, else "".
    pub fn model<'a>(&self, available_models: &'a [String]) -> (r: &'a str)
        ensures
            (exists|i: int| 0 <= i < available_models@.len() && occurs_in(
                #[trigger] available_models@[i]@,
                model_key(*self),
            )) ==> exists|i: int|
                first_model_with(available_models@, model_key(*self), i) && r@
                    == available_models@[i]@,
            !(exists|i: int| 0 <= i < available_models@.len() && occurs_in(
                #[trigger] available_models@[i]@,
                model_key(*self),
            )) ==> r@ == (if available_models@.len() > 0 {
                available_models@[0]@
            } else {
                ""@
            }),
    {
        let key = match self {
            AgentType::Qwen => "qwen",
            AgentType::Llama => "llama",
            AgentType::Granite => "granite",
        };
        let mut i: usize = 0;
        while i < available_models.len()
            invariant
                key@ == model_key(*self),
                i <= available_models@.len(),
                forall|j: int| 0 <= j < i ==> !occurs_in(#[trigger] available_models@[j]@, key@),
            decreases available_models@.len() - i,
        {
            if contains_str(available_models[i].as_str(), key) {
                assert(first_model_with(available_models@, key@, i as int));
                return available_models[i].as_str();
            }
            i = i + 1;
        }
        if available_models.len() > 0 {
            available_models[0].as_str()
        } else {
            ""
        }
    }

    /// The display name.
    pub fn name(&self) -> (r: &'static str)
        ensures
            r@ == agent_display_name(*self),
    {
        match self {
            AgentType::Qwen => "Qwen",
            AgentType::Llama => "Llama",
            AgentType::Granite => "Granite",
        }
    }

    /// The system prompt.
    pub fn system_prompt(&self) -> (r: &'static str)
        ensures
            r@ == agent_prompt(*self),
    {
        match self {
            AgentType::Qwen => "You are a Rust programming expert.",
            AgentType::Llama => "You are a helpful assistant.",
            AgentType::Granite => "You are a helpful assistant.",
        }
    }
}

} // verus!

//! An agent's conversation: the system prompt followed by the messages of
//! the user and the model. The model itself is reached by the program
//! around the library.

use vstd::prelude::*;
use crate::types::{plain_message, ChatMessage};

verus! {

/// The kind of model behind an agent's replies.
#[derive(Debug, Clone, Copy, PartialEq, Eq, Structural)]
pub enum AgentId {
    Ollama,
}

impl AgentId {
    /// The name of the model kind.
    pub fn name(&self) -> (r: &'static str)
        ensures
            r@ == "Ollama"@,
    {
        "Ollama"
    }
}

/// An agent's conversation history.
#[derive(Debug)]
pub struct Agent {
    pub history: Vec<ChatMessage>,
}

impl Agent {
    /// A conversation that starts with the system prompt.
    pub fn new(system_prompt: &str) -> (r: Self)
        ensures
            r.history@.len() == 1,
            plain_message(r.history@[0], "system"@, system_prompt@),
    {
        let mut history: Vec<ChatMessage> = Vec::new();
        history.push(ChatMessage::system(system_prompt));
        Agent { history }
    }

    /// Appends a message of the user.
    pub fn add_user_message(&mut self, content: &str)
        ensures
            final(self).history@.len() == old(self).history@.len() + 1,
            final(self).history@.subrange(0, old(self).history@.len() as int) == old(self).history@,
            plain_message(final(self).history@.last(), "user"@, content@),
    {
        self.history.push(ChatMessage::user(content));
        assert(self.history@.subrange(0, old(self).history@.len() as int) =~= old(self).history@);
    }

    /// Appends a reply of the model.
    pub fn add_assistant_message(&mut self, message: ChatMessage)
        ensures
            final(self).history@ == old(self).history@.push(message),
    {
        self.history.push(message);
    }
}

} // verus!

//! Which interaction patterns each interface supports.

use vstd::prelude::*;

verus! {

/// Declares which interaction patterns an interface supports.
#[derive(Debug, Clone, Copy, PartialEq, Eq, Structural)]
pub struct InterfaceCapabilities {
    pub streaming_output: bool,
    pub interactive_tool_approval: bool,
    pub agent_switching: bool,
    pub session_switching: bool,
    pub rich_message_rendering: bool,
}

/// The profile of an interface that supports everything.
pub open spec fn full_profile() -> InterfaceCapabilities {
    InterfaceCapabilities {
        streaming_output: true,
        interactive_tool_approval: true,
        agent_switching: true,
        session_switching: true,
        rich_message_rendering: true,
    }
}

impl InterfaceCapabilities {
    /// The terminal interface supports everything.
    pub fn tui() -> (c: Self)
        ensures
            c == full_profile(),
    {
        InterfaceCapabilities {
            streaming_output: true,
            interactive_tool_approval: true,
            agent_switching: true,
            session_switching: true,
            rich_message_rendering: true,
        }
    }

    /// The web interface supports everything.
    pub fn web() -> (c: Self)
        ensures
            c == full_profile(),
    {
        InterfaceCapabilities {
            streaming_output: true,
            interactive_tool_approval: true,
            agent_switching: true,
            session_switching: true,
            rich_message_rendering: true,
        }
    }

    /// Telegram neither streams nor renders rich messages.
    pub fn telegram() -> (c: Self)
        ensures
            c == (InterfaceCapabilities {
                streaming_output: false,
                interactive_tool_approval: true,
                agent_switching: true,
                session_switching: true,
                rich_message_rendering: false,
            }),
    {
        InterfaceCapabilities {
            streaming_output: false,
            interactive_tool_approval: true,
            agent_switching: true,
            session_switching: true,
            rich_message_rendering: false,
        }
    }

    /// The Discord interface supports everything.
    pub fn discord() -> (c: Self)
        ensures
            c == full_profile(),
    {
        InterfaceCapabilities {
            streaming_output: true,
            interactive_tool_approval: true,
            agent_switching: true,
            session_switching: true,
            rich_message_rendering: true,
        }
    }
}

} // verus!

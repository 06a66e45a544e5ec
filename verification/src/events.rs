//! Events with their source and destination, and the filters that route
//! them. The broadcast channel that carries them is the caller's.
use vstd::prelude::*;
use crate::types::{AppEvent, ChatMessage, ToolApprovalResponse, ToolCall};

verus! {

/// What an event is about.
#[derive(Debug)]
pub enum EventType {
    UserInput(String),
    ToolApprovalRequested(Vec<ToolCall>),
    ToolApprovalResponse(ToolApprovalResponse),
    AgentMessage(String),
    AgentStreamChunk(String),
    AgentStreamEnd,
    ToolRequest(Vec<ToolCall>),
    ToolResult(String, String),
    Error(String),
    SwitchSession(String),
    SwitchAgent(String),
    ListSessions,
    RefreshSessions,
    SessionList(Vec<String>),
    SessionSwitched(String),
    SessionHistory(Vec<ChatMessage>),
    Shutdown,
    ConfigChanged,
    ContinueConversation,
}

/// An event with where it comes from, where it goes, and when it was made
/// (milliseconds since the Unix epoch, as the caller's clock gives them).
#[derive(Debug)]
pub struct Event {
    pub event_type: EventType,
    pub source: String,
    pub destination: Option<String>,
    pub timestamp_ms: u64,
}

impl Event {
    /// An event for no particular destination.
    pub fn new(event_type: EventType, source: String, timestamp_ms: u64) -> (r: Self)
        ensures
            r.event_type == event_type,
            r.source == source,
            r.destination is None,
            r.timestamp_ms == timestamp_ms,
    {
        Event { event_type, source, destination: None, timestamp_ms }
    }

    /// An event for a destination.
    pub fn new_with_destination(event_type: EventType, source: String, destination: String, timestamp_ms: u64) -> (r:
        Self)
        ensures
            r.event_type == event_type,
            r.source == source,
            r.destination == Some(destination),
            r.timestamp_ms == timestamp_ms,
    {
        Event { event_type, source, destination: Some(destination), timestamp_ms }
    }
}

/// The event that an application event is published as. The agent's
/// session context and the two variants without an event type (model
/// switches and agent status updates) are not published.
pub open spec fn published_type(e: AppEvent) -> Option<EventType> {
    match e {
        AppEvent::UserInput(s) => Some(EventType::UserInput(s)),
        AppEvent::ToolApproval(r) => Some(EventType::ToolApprovalResponse(r)),
        AppEvent::AgentMessage(s) => Some(EventType::AgentMessage(s)),
        AppEvent::AgentStreamChunk(s) => Some(EventType::AgentStreamChunk(s)),
        AppEvent::AgentStreamEnd => Some(EventType::AgentStreamEnd),
        AppEvent::ToolRequest(c) => Some(EventType::ToolRequest(c)),
        AppEvent::ToolResult(n, r) => Some(EventType::ToolResult(n, r)),
        AppEvent::Error(s) => Some(EventType::Error(s)),
        AppEvent::SwitchSession(s) => Some(EventType::SwitchSession(s)),
        AppEvent::SwitchAgent(a, _) => Some(EventType::SwitchAgent(a)),
        AppEvent::SwitchModel(_) => None,
        AppEvent::ListSessions => Some(EventType::ListSessions),
        AppEvent::RefreshSessions => Some(EventType::RefreshSessions),
        AppEvent::SessionList(v) => Some(EventType::SessionList(v)),
        AppEvent::SessionSwitched(s) => Some(EventType::SessionSwitched(s)),
        AppEvent::SessionHistory(h) => Some(EventType::SessionHistory(h)),
        AppEvent::ContinueConversation => Some(EventType::ContinueConversation),
        AppEvent::AgentStatusUpdate(_, _) => None,
    }
}

/// The event type an application event is published as.
pub fn event_type_of(e: AppEvent) -> (r: Option<EventType>)
    ensures
        r == published_type(e),
{
    match e {
        AppEvent::UserInput(s) => Some(EventType::UserInput(s)),
        AppEvent::ToolApproval(r) => Some(EventType::ToolApprovalResponse(r)),
        AppEvent::AgentMessage(s) => Some(EventType::AgentMessage(s)),
        AppEvent::AgentStreamChunk(s) => Some(EventType::AgentStreamChunk(s)),
        AppEvent::AgentStreamEnd => Some(EventType::AgentStreamEnd),
        AppEvent::ToolRequest(c) => Some(EventType::ToolRequest(c)),
        AppEvent::ToolResult(n, r) => Some(EventType::ToolResult(n, r)),
        AppEvent::Error(s) => Some(EventType::Error(s)),
        AppEvent::SwitchSession(s) => Some(EventType::SwitchSession(s)),
        AppEvent::SwitchAgent(a, _) => Some(EventType::SwitchAgent(a)),
        AppEvent::SwitchModel(_) => None,
        AppEvent::ListSessions => Some(EventType::ListSessions),
        AppEvent::RefreshSessions => Some(EventType::RefreshSessions),
        AppEvent::SessionList(v) => Some(EventType::SessionList(v)),
        AppEvent::SessionSwitched(s) => Some(EventType::SessionSwitched(s)),
        AppEvent::SessionHistory(h) => Some(EventType::SessionHistory(h)),
        AppEvent::ContinueConversation => Some(EventType::ContinueConversation),
        AppEvent::AgentStatusUpdate(_, _) => None,
    }
}

/// The position of an event type's variant in the list of variants; two
/// event types are of the same kind when these agree, whatever they carry.
pub open spec fn kind_number(t: EventType) -> u8 {
    match t {
        EventType::UserInput(_) => 0,
        EventType::ToolApprovalRequested(_) => 1,
        EventType::ToolApprovalResponse(_) => 2,
        EventType::AgentMessage(_) => 3,
        EventType::AgentStreamChunk(_) => 4,
        EventType::AgentStreamEnd => 5,
        EventType::ToolRequest(_) => 6,
        EventType::ToolResult(_, _) => 7,
        EventType::Error(_) => 8,
        EventType::SwitchSession(_) => 9,
        EventType::SwitchAgent(_) => 10,
        EventType::ListSessions => 11,
        EventType::RefreshSessions => 12,
        EventType::SessionList(_) => 13,
        EventType::SessionSwitched(_) => 14,
        EventType::SessionHistory(_) => 15,
        EventType::Shutdown => 16,
        EventType::ConfigChanged => 17,
        EventType::ContinueConversation => 18,
    }
}

/// The position of an event type's variant.
pub fn kind_number_of(t: &EventType) -> (r: u8)
    ensures
        r == kind_number(*t),
{
    match t {
        EventType::UserInput(_) => 0,
        EventType::ToolApprovalRequested(_) => 1,
        EventType::ToolApprovalResponse(_) => 2,
        EventType::AgentMessage(_) => 3,
        EventType::AgentStreamChunk(_) => 4,
        EventType::AgentStreamEnd => 5,
        EventType::ToolRequest(_) => 6,
        EventType::ToolResult(_, _) => 7,
        EventType::Error(_) => 8,
        EventType::SwitchSession(_) => 9,
        EventType::SwitchAgent(_) => 10,
        EventType::ListSessions => 11,
        EventType::RefreshSessions => 12,
        EventType::SessionList(_) => 13,
        EventType::SessionSwitched(_) => 14,
        EventType::SessionHistory(_) => 15,
        EventType::Shutdown => 16,
        EventType::ConfigChanged => 17,
        EventType::ContinueConversation => 18,
    }
}

/// Which events a receiver wants: from a source, to a destination, of a
/// type (compared by variant only).
#[derive(Debug)]
pub struct EventFilter {
    pub source_filter: Option<String>,
    pub destination_filter: Option<String>,
    pub event_type_filter: Option<EventType>,
}

/// An event passes a filter: its source is the one asked for, if any, it
/// has the destination asked for, if any, and its type is of the kind asked
/// for, if any.
pub open spec fn passes(f: EventFilter, e: Event) -> bool {
    &&& f.source_filter matches Some(s) ==> e.source@ == s@
    &&& f.destination_filter matches Some(d) ==> (e.destination matches Some(x) && x@ == d@)
    &&& f.event_type_filter matches Some(t) ==> kind_number(t) == kind_number(e.event_type)
}

impl EventFilter {
    /// A filter that lets every event through.
    pub fn new() -> (r: Self)
        ensures
            r.source_filter is None,
            r.destination_filter is None,
            r.event_type_filter is None,
    {
        EventFilter { source_filter: None, destination_filter: None, event_type_filter: None }
    }

    /// Restricts the source.
    pub fn with_source(self, source: String) -> (r: Self)
        ensures
            r.source_filter == Some(source),
            r.destination_filter == self.destination_filter,
            r.event_type_filter == self.event_type_filter,
    {
        EventFilter { source_filter: Some(source), ..self }
    }

    /// Restricts the destination.
    pub fn with_destination(self, destination: String) -> (r: Self)
        ensures
            r.destination_filter == Some(destination),
            r.source_filter == self.source_filter,
            r.event_type_filter == self.event_type_filter,
    {
        EventFilter { destination_filter: Some(destination), ..self }
    }

    /// Restricts the kind of event type.
    pub fn with_event_type(self, event_type: EventType) -> (r: Self)
        ensures
            r.event_type_filter == Some(event_type),
            r.source_filter == self.source_filter,
            r.destination_filter == self.destination_filter,
    {
        EventFilter { event_type_filter: Some(event_type), ..self }
    }

    /// Whether an event passes the filter.
    pub fn matches(&self, event: &Event) -> (r: bool)
        ensures
            r == passes(*self, *event),
    {
        match &self.source_filter {
            Some(source) => {
                if !crate::text::str_eq(event.source.as_str(), source.as_str()) {
                    return false;
                }
            },
            None => {},
        }
        match &self.destination_filter {
            Some(destination) => match &event.destination {
                Some(d) => {
                    if !crate::text::str_eq(d.as_str(), destination.as_str()) {
                        return false;
                    }
                },
                None => return false,
            },
            None => {},
        }
        match &self.event_type_filter {
            Some(t) => {
                if kind_number_of(t) != kind_number_of(&event.event_type) {
                    return false;
                }
            },
            None => {},
        }
        true
    }
}

impl Default for EventFilter {
    fn default() -> (r: Self)
        ensures
            r.source_filter is None,
            r.destination_filter is None,
            r.event_type_filter is None,
    {
        Self::new()
    }
}

} // verus!

//! Shared adapter utilities for interface transports: the approval state
//! machine, the chunk buffer and error rendering.

use vstd::prelude::*;
use crate::text::concat2;
use crate::types::{AppEvent, ToolApprovalResponse};

verus! {

/// Normalized approval actions exposed by interface transports.
#[derive(Debug, Clone, Copy, PartialEq, Eq, Structural)]
pub enum ApprovalAction {
    ApproveOnce,
    ApproveAlwaysGlobal,
    ApproveAlwaysSession,
    Deny,
}

/// The approval response an action stands for.
pub open spec fn response_of(action: ApprovalAction) -> ToolApprovalResponse {
    match action {
        ApprovalAction::ApproveOnce => ToolApprovalResponse::Allow,
        ApprovalAction::ApproveAlwaysGlobal => ToolApprovalResponse::AlwaysAllow,
        ApprovalAction::ApproveAlwaysSession => ToolApprovalResponse::AlwaysAllowSession,
        ApprovalAction::Deny => ToolApprovalResponse::Deny,
    }
}

impl From<ApprovalAction> for ToolApprovalResponse {
    fn from(value: ApprovalAction) -> (r: Self) {
        match value {
            ApprovalAction::ApproveOnce => ToolApprovalResponse::Allow,
            ApprovalAction::ApproveAlwaysGlobal => ToolApprovalResponse::AlwaysAllow,
            ApprovalAction::ApproveAlwaysSession => ToolApprovalResponse::AlwaysAllowSession,
            ApprovalAction::Deny => ToolApprovalResponse::Deny,
        }
    }
}

impl vstd::std_specs::convert::FromSpecImpl<ApprovalAction> for ToolApprovalResponse {
    open spec fn obeys_from_spec() -> bool {
        true
    }

    open spec fn from_spec(v: ApprovalAction) -> Self {
        response_of(v)
    }
}

/// Tracks transport-facing approval state.
#[derive(Debug, Clone, Copy, PartialEq, Eq, Structural)]
pub enum ApprovalFlowState {
    Idle,
    AwaitingDecision,
    Completed,
}

/// Small state machine for approval workflows: a decision is only taken
/// while one is awaited.
#[derive(Debug, Clone, Copy, PartialEq, Eq, Structural)]
pub struct ApprovalFlow {
    state: ApprovalFlowState,
}

impl View for ApprovalFlow {
    type V = ApprovalFlowState;

    closed spec fn view(&self) -> ApprovalFlowState {
        self.state
    }
}

impl Default for ApprovalFlow {
    fn default() -> (r: Self)
        ensures
            r@ == ApprovalFlowState::Idle,
    {
        Self::new()
    }
}

impl ApprovalFlow {
    /// A flow in the idle state.
    pub fn new() -> (r: Self)
        ensures
            r@ == ApprovalFlowState::Idle,
    {
        ApprovalFlow { state: ApprovalFlowState::Idle }
    }

    /// A tool request arrived: a decision is now awaited.
    pub fn request_approval(&mut self)
        ensures
            final(self)@ == ApprovalFlowState::AwaitingDecision,
    {
        self.state = ApprovalFlowState::AwaitingDecision;
    }

    /// Takes the user's decision. Only while a decision is awaited does it
    /// complete the flow and yield the approval event; otherwise nothing
    /// changes and no event is produced.
    pub fn decide(&mut self, action: ApprovalAction) -> (r: Option<AppEvent>)
        ensures
            old(self)@ == ApprovalFlowState::AwaitingDecision ==> {
                &&& final(self)@ == ApprovalFlowState::Completed
                &&& r == Some(AppEvent::ToolApproval(response_of(action)))
            },
            old(self)@ != ApprovalFlowState::AwaitingDecision ==> {
                &&& final(self)@ == old(self)@
                &&& r is None
            },
    {
        match self.state {
            ApprovalFlowState::AwaitingDecision => {},
            _ => {
                return None;
            },
        }
        self.state = ApprovalFlowState::Completed;
        Some(AppEvent::ToolApproval(ToolApprovalResponse::from(action)))
    }

    /// The current state.
    pub fn state(&self) -> (r: ApprovalFlowState)
        ensures
            r == self@,
    {
        self.state
    }

    /// Back to idle.
    pub fn reset(&mut self)
        ensures
            final(self)@ == ApprovalFlowState::Idle,
    {
        self.state = ApprovalFlowState::Idle;
    }
}

/// The concatenation of a sequence of texts, in order.
pub open spec fn concat_all(s: Seq<Seq<char>>) -> Seq<char>
    decreases s.len(),
{
    if s.len() == 0 {
        Seq::empty()
    } else {
        concat_all(s.drop_last()) + s.last()
    }
}

/// Chunk buffer for interfaces that cannot stream every token immediately.
#[derive(Debug)]
pub struct MessageChunkBuffer {
    chunks: Vec<String>,
}

impl View for MessageChunkBuffer {
    type V = Seq<Seq<char>>;

    closed spec fn view(&self) -> Seq<Seq<char>> {
        self.chunks@.map_values(|c: String| c@)
    }
}

impl Default for MessageChunkBuffer {
    fn default() -> (r: Self)
        ensures
            r@ == Seq::<Seq<char>>::empty(),
    {
        let r = MessageChunkBuffer { chunks: Vec::new() };
        assert(r@ =~= Seq::<Seq<char>>::empty());
        r
    }
}

impl MessageChunkBuffer {
    /// Appends a chunk.
    pub fn push_chunk(&mut self, chunk: &str)
        ensures
            final(self)@ == old(self)@.push(chunk@),
    {
        self.chunks.push(String::from_str(chunk));
        assert(self@ =~= old(self)@.push(chunk@));
    }

    /// Whether no chunk is held.
    pub fn is_empty(&self) -> (r: bool)
        ensures
            r == (self@.len() == 0),
    {
        self.chunks.len() == 0
    }

    /// Hands out all held chunks joined in order and empties the buffer;
    /// `None` when nothing is held.
    pub fn flush(&mut self) -> (r: Option<String>)
        ensures
            old(self)@.len() == 0 ==> r is None,
            old(self)@.len() > 0 ==> (r matches Some(t) && t@ == concat_all(old(self)@)),
            final(self)@.len() == 0,
    {
        if self.chunks.len() == 0 {
            return None;
        }
        let mut result = String::new();
        let mut i: usize = 0;
        while i < self.chunks.len()
            invariant
                i <= self.chunks@.len(),
                self@ == old(self)@,
                result@ == concat_all(self@.subrange(0, i as int)),
            decreases self.chunks@.len() - i,
        {
            result.append(self.chunks[i].as_str());
            assert(self@.subrange(0, i + 1).drop_last() =~= self@.subrange(0, i as int));
            i = i + 1;
        }
        assert(self@.subrange(0, i as int) =~= self@);
        self.chunks = Vec::new();
        assert(self@ =~= Seq::<Seq<char>>::empty());
        Some(result)
    }
}

/// Buffering chunks and flushing them gives back their concatenation and
/// leaves the buffer empty, so that a second flush yields nothing.
pub proof fn lemma_concat_two(a: Seq<char>, b: Seq<char>)
    ensures
        concat_all(seq![a, b]) == a + b,
{
    reveal_with_fuel(concat_all, 3);
    assert(seq![a, b].drop_last() =~= seq![a]);
    assert(seq![a].drop_last() =~= Seq::<Seq<char>>::empty());
    assert(Seq::<char>::empty() + a =~= a);
}

#[verifier::external_type_specification]
#[verifier::external_body]
pub struct ExAnyhowError(anyhow::Error);

/// The alternate (`{:#}`) rendering of an `anyhow::Error`: its message
/// followed by the messages of its causes, each after `": "`.
pub uninterp spec fn error_chain(error: anyhow::Error) -> Seq<char>;

/// Formats an `anyhow::Error` with `{:#}`. Claimed: the result is
/// `error_chain` of the error; nothing is claimed of that text for a given
/// error, which is opaque here.
#[verifier::external_body]
fn error_chain_text(error: &anyhow::Error) -> (r: String)
    ensures
        r@ == error_chain(*error),
{
    format!("{error:#}")
}

/// The user-facing text for an error with the given rendering.
pub fn interface_error_message(detail: &str) -> (r: String)
    ensures
        r@ == "Interface error: "@ + detail@,
{
    concat2("Interface error: ", detail)
}

/// Normalize an error for user-facing rendering.
pub fn normalize_error(error: &anyhow::Error) -> (r: String)
    ensures
        r@ == "Interface error: "@ + error_chain(*error),
{
    let detail = error_chain_text(error);
    interface_error_message(detail.as_str())
}

} // verus!

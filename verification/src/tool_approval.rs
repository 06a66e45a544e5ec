//! The rules for running the tools a model asks for: which run without
//! asking, what each answer of the user grants, and the messages that
//! report what happened.

use vstd::prelude::*;
use crate::session::{with_tool, SessionState};
use crate::text::{concat2, concat3};
use crate::tool_permissions::GlobalToolPermissions;
use crate::types::{ChatMessage, ToolApprovalResponse, ToolCall};

verus! {

/// The names of the tools asked for, in order.
pub open spec fn call_names(calls: Seq<ToolCall>) -> Seq<Seq<char>> {
    calls.map_values(|c: ToolCall| c.function.name@)
}

/// A tool runs without asking when it is allowed globally or for the
/// session.
pub open spec fn preapproved(global: Set<Seq<char>>, session: Seq<Seq<char>>, name: Seq<char>) -> bool {
    global.contains(name) || session.contains(name)
}

/// Every tool asked for runs without asking.
pub open spec fn all_preapproved(global: Set<Seq<char>>, session: Seq<Seq<char>>, calls: Seq<ToolCall>) -> bool {
    forall|i: int| 0 <= i < calls.len() ==> preapproved(global, session, #[trigger] calls[i].function.name@)
}

/// The session's allowed tools after allowing each of `names` in turn.
pub open spec fn with_tools(s: Seq<Seq<char>>, names: Seq<Seq<char>>) -> Seq<Seq<char>>
    decreases names.len(),
{
    if names.len() == 0 {
        s
    } else {
        with_tool(with_tools(s, names.drop_last()), names.last())
    }
}

/// Whether a tool runs without asking.
pub fn is_tool_preapproved(global: &GlobalToolPermissions, session: &SessionState, name: &str) -> (r: bool)
    ensures
        r == preapproved(global@, session.allowed_view(), name@),
{
    global.is_allowed(name) || session.is_tool_allowed(name)
}

/// Whether every tool asked for runs without asking.
pub fn all_tool_calls_preapproved(
    calls: &Vec<ToolCall>,
    global: &GlobalToolPermissions,
    session: &SessionState,
) -> (r: bool)
    ensures
        r == all_preapproved(global@, session.allowed_view(), calls@),
{
    let mut i: usize = 0;
    while i < calls.len()
        invariant
            i <= calls@.len(),
            forall|k: int| 0 <= k < i ==> preapproved(global@, session.allowed_view(), #[trigger] calls@[k].function.name@),
        decreases calls@.len() - i,
    {
        if !is_tool_preapproved(global, session, calls[i].function.name.as_str()) {
            return false;
        }
        i = i + 1;
    }
    true
}

/// What to do with a reply of the model.
#[derive(Debug, PartialEq, Eq)]
pub enum ToolCallPlan {
    /// The reply asks for no tools.
    NoToolCalls,
    /// Every tool asked for may run: run them in order.
    RunAll(Vec<ToolCall>),
    /// Some tool needs the user's approval: ask for it, keeping the calls.
    AskApproval(Vec<ToolCall>),
}

/// The plan for a reply of the model.
pub open spec fn tool_call_plan(
    response: Option<ChatMessage>,
    global: Set<Seq<char>>,
    session: Seq<Seq<char>>,
) -> ToolCallPlan {
    match response {
        Some(m) => match m.tool_calls {
            Some(calls) => if all_preapproved(global, session, calls@) {
                ToolCallPlan::RunAll(calls)
            } else {
                ToolCallPlan::AskApproval(calls)
            },
            None => ToolCallPlan::NoToolCalls,
        },
        None => ToolCallPlan::NoToolCalls,
    }
}

/// Decides what to do with a reply of the model.
pub fn plan_tool_calls(
    response: Option<ChatMessage>,
    global: &GlobalToolPermissions,
    session: &SessionState,
) -> (r: ToolCallPlan)
    ensures
        r == tool_call_plan(response, global@, session.allowed_view()),
{
    match response {
        Some(m) => match m.tool_calls {
            Some(calls) => {
                if all_tool_calls_preapproved(&calls, global, session) {
                    ToolCallPlan::RunAll(calls)
                } else {
                    ToolCallPlan::AskApproval(calls)
                }
            },
            None => ToolCallPlan::NoToolCalls,
        },
        None => ToolCallPlan::NoToolCalls,
    }
}

/// What follows the user's answer to a tool request.
#[derive(Debug, Clone, Copy, PartialEq, Eq, Structural)]
pub struct ApprovalOutcome {
    /// Run the requested tools, in order.
    pub run_tools: bool,
    /// Store the global permissions.
    pub save_global_permissions: bool,
    /// Ask the model to go on once the tools ran.
    pub continue_conversation: bool,
    /// Tell the model and the user that the request was denied.
    pub denied: bool,
}

/// The outcome of each answer.
pub open spec fn approval_outcome(response: ToolApprovalResponse) -> ApprovalOutcome {
    match response {
        ToolApprovalResponse::Deny => ApprovalOutcome {
            run_tools: false,
            save_global_permissions: false,
            continue_conversation: false,
            denied: true,
        },
        ToolApprovalResponse::AlwaysAllow => ApprovalOutcome {
            run_tools: true,
            save_global_permissions: true,
            continue_conversation: true,
            denied: false,
        },
        _ => ApprovalOutcome {
            run_tools: true,
            save_global_permissions: false,
            continue_conversation: true,
            denied: false,
        },
    }
}

/// Applies the user's answer to a tool request: "always allow" allows each
/// requested tool globally, "always allow for the session" allows each for
/// the session, the other answers change no permission.
pub fn apply_approval(
    response: ToolApprovalResponse,
    calls: &Vec<ToolCall>,
    global: &mut GlobalToolPermissions,
    session: &mut SessionState,
) -> (r: ApprovalOutcome)
    ensures
        r == approval_outcome(response),
        response == ToolApprovalResponse::AlwaysAllow ==> final(global)@ == old(global)@.union(
            call_names(calls@).to_set(),
        ),
        response != ToolApprovalResponse::AlwaysAllow ==> final(global)@ == old(global)@,
        response == ToolApprovalResponse::AlwaysAllowSession ==> final(session).allowed_view()
            == with_tools(old(session).allowed_view(), call_names(calls@)),
        response != ToolApprovalResponse::AlwaysAllowSession ==> final(session).allowed_view()
            == old(session).allowed_view(),
        final(session).history_view() == old(session).history_view(),
{
    match response {
        ToolApprovalResponse::AlwaysAllow => {
            let mut i: usize = 0;
            while i < calls.len()
                invariant
                    i <= calls@.len(),
                    global@ == old(global)@.union(call_names(calls@.subrange(0, i as int)).to_set()),
                    session.allowed_view() == old(session).allowed_view(),
                    session.history_view() == old(session).history_view(),
                decreases calls@.len() - i,
            {
                global.add_allowed(calls[i].function.name.as_str());
                assert(call_names(calls@.subrange(0, i + 1)) =~= call_names(calls@.subrange(0, i as int)).push(
                    calls@[i as int].function.name@,
                ));
                proof {
                    let p = call_names(calls@.subrange(0, i as int));
                    let e = calls@[i as int].function.name@;
                    assert forall|x: Seq<char>| #[trigger] p.push(e).contains(x) == (p.contains(x) || x == e) by {
                        if p.push(e).contains(x) {
                            let k = choose|k: int| 0 <= k < p.push(e).len() && p.push(e)[k] == x;
                            if k < p.len() {
                                assert(p[k] == x);
                            }
                        }
                        if p.contains(x) {
                            let k = choose|k: int| 0 <= k < p.len() && p[k] == x;
                            assert(p.push(e)[k] == x);
                        }
                        if x == e {
                            assert(p.push(e)[p.len() as int] == x);
                        }
                    }
                }
                assert(global@ =~= old(global)@.union(call_names(calls@.subrange(0, i + 1)).to_set()));
                i = i + 1;
            }
            assert(calls@.subrange(0, i as int) =~= calls@);
            ApprovalOutcome {
                run_tools: true,
                save_global_permissions: true,
                continue_conversation: true,
                denied: false,
            }
        },
        ToolApprovalResponse::AlwaysAllowSession => {
            let mut i: usize = 0;
            while i < calls.len()
                invariant
                    i <= calls@.len(),
                    session.allowed_view() == with_tools(
                        old(session).allowed_view(),
                        call_names(calls@.subrange(0, i as int)),
                    ),
                    session.history_view() == old(session).history_view(),
                    global@ == old(global)@,
                decreases calls@.len() - i,
            {
                session.add_allowed_tool(calls[i].function.name.clone());
                assert(call_names(calls@.subrange(0, i + 1)).drop_last() =~= call_names(
                    calls@.subrange(0, i as int),
                ));
                i = i + 1;
            }
            assert(calls@.subrange(0, i as int) =~= calls@);
            ApprovalOutcome {
                run_tools: true,
                save_global_permissions: false,
                continue_conversation: true,
                denied: false,
            }
        },
        ToolApprovalResponse::Allow => ApprovalOutcome {
            run_tools: true,
            save_global_permissions: false,
            continue_conversation: true,
            denied: false,
        },
        ToolApprovalResponse::Deny => ApprovalOutcome {
            run_tools: false,
            save_global_permissions: false,
            continue_conversation: false,
            denied: true,
        },
    }
}

/// Every answer but a denial runs the requested tools and then lets the
/// model go on; a denial runs nothing, does not go on and is reported as
/// denied; only "always allow" stores the global permissions.
pub proof fn lemma_answers_decide_the_run(response: ToolApprovalResponse)
    ensures
        approval_outcome(response).run_tools == (response != ToolApprovalResponse::Deny),
        approval_outcome(response).denied == (response == ToolApprovalResponse::Deny),
        approval_outcome(response).run_tools == !approval_outcome(response).denied,
        approval_outcome(response).continue_conversation == approval_outcome(response).run_tools,
        approval_outcome(response).save_global_permissions == (response
            == ToolApprovalResponse::AlwaysAllow),
{
}

/// What the model is told when a tool ran.
pub fn tool_output_message(name: &str, output: &str) -> (r: String)
    ensures
        r@ == "The tool '"@ + name@ + "' produced this output:\n"@ + output@,
{
    let mut r = concat3("The tool '", name, "' produced this output:\n");
    r.append(output);
    r
}

/// What the model and the user are told when a tool failed.
pub fn tool_error_message(name: &str, error: &str) -> (r: String)
    ensures
        r@ == "Error executing tool '"@ + name@ + "': "@ + error@,
{
    let mut r = concat3("Error executing tool '", name, "': ");
    r.append(error);
    r
}

/// What the model and the user are told when a tool is not known.
pub fn unknown_tool_message(name: &str) -> (r: String)
    ensures
        r@ == "Unknown tool: "@ + name@,
{
    concat2("Unknown tool: ", name)
}

/// What the user is told when the model cannot be reached.
pub fn llm_error_message(error: &str) -> (r: String)
    ensures
        r@ == "Error communicating with LLM: "@ + error@,
{
    concat2("Error communicating with LLM: ", error)
}

/// What the model's history records when it cannot be reached.
pub fn llm_error_note(error: &str) -> (r: String)
    ensures
        r@ == "Error: "@ + error@,
{
    concat2("Error: ", error)
}

/// What the model's history records when the user denies a tool request.
pub fn denial_note() -> (r: String)
    ensures
        r@ == "Tool execution denied by user."@,
{
    String::from_str("Tool execution denied by user.")
}

/// What the user is shown when a tool request is denied.
pub fn denial_notice() -> (r: String)
    ensures
        r@ == "Tool execution denied."@,
{
    String::from_str("Tool execution denied.")
}

/// Once the user always allows the requested tools globally, a later
/// request for any of them runs without asking.
pub proof fn lemma_always_allow_preapproves(
    old_global: Set<Seq<char>>,
    session: Seq<Seq<char>>,
    calls: Seq<ToolCall>,
)
    ensures
        all_preapproved(old_global.union(call_names(calls).to_set()), session, calls),
{
    assert forall|i: int| 0 <= i < calls.len() implies preapproved(
        old_global.union(call_names(calls).to_set()),
        session,
        #[trigger] calls[i].function.name@,
    ) by {
        assert(call_names(calls)[i] == calls[i].function.name@);
    }
}

/// Once the user always allows the requested tools for the session, a
/// later request for any of them runs without asking.
pub proof fn lemma_session_allow_preapproves(
    global: Set<Seq<char>>,
    session: Seq<Seq<char>>,
    calls: Seq<ToolCall>,
)
    ensures
        all_preapproved(global, with_tools(session, call_names(calls)), calls),
    decreases calls.len(),
{
    lemma_with_tools_contains(session, call_names(calls));
    assert forall|i: int| 0 <= i < calls.len() implies preapproved(
        global,
        with_tools(session, call_names(calls)),
        #[trigger] calls[i].function.name@,
    ) by {
        assert(call_names(calls)[i] == calls[i].function.name@);
    }
}

/// Allowing a list of tools for a session allows each of them and keeps
/// every tool that was allowed before.
pub proof fn lemma_with_tools_contains(s: Seq<Seq<char>>, names: Seq<Seq<char>>)
    ensures
        forall|i: int| 0 <= i < names.len() ==> with_tools(s, names).contains(#[trigger] names[i]),
        forall|x: Seq<char>| s.contains(x) ==> #[trigger] with_tools(s, names).contains(x),
    decreases names.len(),
{
    if names.len() > 0 {
        let rest = names.drop_last();
        lemma_with_tools_contains(s, rest);
        let w = with_tools(s, rest);
        let e = names.last();
        assert forall|x: Seq<char>| w.contains(x) implies #[trigger] with_tool(w, e).contains(x) by {
            if !w.contains(e) {
                let k = choose|k: int| 0 <= k < w.len() && w[k] == x;
                assert(w.push(e)[k] == x);
            }
        }
        if !w.contains(e) {
            assert(w.push(e)[w.len() as int] == e);
        }
        assert forall|i: int| 0 <= i < names.len() implies with_tools(s, names).contains(#[trigger] names[i]) by {
            if i < names.len() - 1 {
                assert(names[i] == rest[i]);
                assert(w.contains(rest[i]));
            }
        }
    }
}

} // verus!

//! The messages shown by the terminal interface: how a stored history is
//! shown, how what is shown is stored again, and how streamed model output
//! is split into reasoning (between `<think>` and `</think>`) and answer.

use vstd::prelude::*;
use crate::agents::AgentId;
use crate::text::{
    chars_of, concat2, find_first, find_from, first_index, has_prefix, lemma_find_from_range, occurs_at, occurs_in,
    starts_with, str_eq, to_owned_string, trim_start, trim_start_seq,
};
use crate::types::{ChatMessage, ToolCall};

verus! {

/// A message of the chat view.
#[derive(Debug)]
pub enum Message {
    User(String),
    Agent(AgentId, String),
    /// Reasoning of the model, and whether it is shown expanded.
    Thinking(AgentId, String, bool),
    /// Tool output or notice, and whether it is shown expanded.
    ToolOutput(String, bool),
    ToolConfirmation(Vec<ToolCall>),
}

/// What a message shows.
pub enum MessageView {
    User(Seq<char>),
    Agent(Seq<char>),
    Thinking(Seq<char>, bool),
    ToolOutput(Seq<char>, bool),
    ToolConfirmation(Seq<ToolCall>),
}

impl View for Message {
    type V = MessageView;

    open spec fn view(&self) -> MessageView {
        match self {
            Message::User(c) => MessageView::User(c@),
            Message::Agent(_, c) => MessageView::Agent(c@),
            Message::Thinking(_, c, e) => MessageView::Thinking(c@, *e),
            Message::ToolOutput(c, e) => MessageView::ToolOutput(c@, *e),
            Message::ToolConfirmation(calls) => MessageView::ToolConfirmation(calls@),
        }
    }
}

/// What a list of messages shows.
pub open spec fn views_of(msgs: Seq<Message>) -> Seq<MessageView> {
    msgs.map_values(|m: Message| m@)
}

/// How a stored message is shown: user messages as such; model messages
/// as reasoning (collapsed) when they start with `####` after white space,
/// else as answers; system messages not at all; others as a notice.
pub open spec fn message_of_chat(m: ChatMessage) -> Option<MessageView> {
    if m.role@ == "user"@ {
        Some(MessageView::User(m.content@))
    } else if m.role@ == "assistant"@ {
        if has_prefix(trim_start_seq(m.content@), "####"@) {
            Some(MessageView::Thinking(m.content@, false))
        } else {
            Some(MessageView::Agent(m.content@))
        }
    } else if m.role@ == "system"@ {
        None
    } else {
        Some(MessageView::ToolOutput("Unknown message type: "@ + m.role@, false))
    }
}

/// How a stored history is shown.
pub open spec fn messages_of_history(h: Seq<ChatMessage>) -> Seq<MessageView>
    decreases h.len(),
{
    if h.len() == 0 {
        Seq::empty()
    } else {
        let rest = messages_of_history(h.drop_last());
        match message_of_chat(h.last()) {
            Some(v) => rest.push(v),
            None => rest,
        }
    }
}

/// Converts a stored history into the messages shown.
pub fn convert_history_to_messages(history: Vec<ChatMessage>) -> (r: Vec<Message>)
    ensures
        views_of(r@) == messages_of_history(history@),
{
    let mut r: Vec<Message> = Vec::new();
    let mut i: usize = 0;
    while i < history.len()
        invariant
            i <= history@.len(),
            views_of(r@) == messages_of_history(history@.subrange(0, i as int)),
        decreases history@.len() - i,
    {
        assert(history@.subrange(0, i + 1).drop_last() =~= history@.subrange(0, i as int));
        let m = &history[i];
        let ghost before = views_of(r@);
        let role = m.role.as_str();
        if str_eq(role, "user") {
            r.push(Message::User(m.content.clone()));
            assert(views_of(r@) =~= before.push(MessageView::User(m.content@)));
        } else if str_eq(role, "assistant") {
            if starts_with(trim_start(m.content.as_str()), "####") {
                r.push(Message::Thinking(AgentId::Ollama, m.content.clone(), false));
                assert(views_of(r@) =~= before.push(MessageView::Thinking(m.content@, false)));
            } else {
                r.push(Message::Agent(AgentId::Ollama, m.content.clone()));
                assert(views_of(r@) =~= before.push(MessageView::Agent(m.content@)));
            }
        } else if str_eq(role, "system") {
        } else {
            let notice = concat2("Unknown message type: ", role);
            r.push(Message::ToolOutput(notice, false));
            assert(views_of(r@) =~= before.push(
                MessageView::ToolOutput("Unknown message type: "@ + m.role@, false),
            ));
        }
        i = i + 1;
    }
    assert(history@.subrange(0, i as int) =~= history@);
    r
}

/// How a shown message is stored: user messages and the model's answers
/// and reasoning are kept (role and content); tool output and tool
/// requests are not.
pub open spec fn chat_of_message(v: MessageView) -> Option<(Seq<char>, Seq<char>)> {
    match v {
        MessageView::User(c) => Some(("user"@, c)),
        MessageView::Agent(c) => Some(("assistant"@, c)),
        MessageView::Thinking(c, _) => Some(("assistant"@, c)),
        _ => None,
    }
}

/// The stored form (role and content) of the shown messages.
pub open spec fn history_of_messages(msgs: Seq<MessageView>) -> Seq<(Seq<char>, Seq<char>)>
    decreases msgs.len(),
{
    if msgs.len() == 0 {
        Seq::empty()
    } else {
        let rest = history_of_messages(msgs.drop_last());
        match chat_of_message(msgs.last()) {
            Some(p) => rest.push(p),
            None => rest,
        }
    }
}

/// Role and content of stored messages.
pub open spec fn role_and_content(h: Seq<ChatMessage>) -> Seq<(Seq<char>, Seq<char>)> {
    h.map_values(|m: ChatMessage| (m.role@, m.content@))
}

/// The history to store for the shown messages; no message carries tool
/// calls.
pub fn messages_to_history(messages: &Vec<Message>) -> (r: Vec<ChatMessage>)
    ensures
        role_and_content(r@) == history_of_messages(views_of(messages@)),
        forall|i: int| 0 <= i < r@.len() ==> (#[trigger] r@[i]).tool_calls is None,
{
    let ghost views = views_of(messages@);
    let mut r: Vec<ChatMessage> = Vec::new();
    let mut i: usize = 0;
    while i < messages.len()
        invariant
            i <= messages@.len(),
            views == views_of(messages@),
            role_and_content(r@) == history_of_messages(views.subrange(0, i as int)),
            forall|k: int| 0 <= k < r@.len() ==> (#[trigger] r@[k]).tool_calls is None,
        decreases messages@.len() - i,
    {
        assert(views.subrange(0, i + 1).drop_last() =~= views.subrange(0, i as int));
        let ghost before = role_and_content(r@);
        match &messages[i] {
            Message::User(c) => {
                r.push(ChatMessage::user(c.as_str()));
                assert(role_and_content(r@) =~= before.push(("user"@, c@)));
            },
            Message::Agent(_, c) => {
                r.push(ChatMessage::assistant(c.as_str()));
                assert(role_and_content(r@) =~= before.push(("assistant"@, c@)));
            },
            Message::Thinking(_, c, _) => {
                r.push(ChatMessage::assistant(c.as_str()));
                assert(role_and_content(r@) =~= before.push(("assistant"@, c@)));
            },
            _ => {},
        }
        i = i + 1;
    }
    assert(views.subrange(0, i as int) =~= views);
    r
}

/// The tag that opens the model's reasoning.
pub open spec fn open_tag() -> Seq<char> {
    seq!['<', 't', 'h', 'i', 'n', 'k', '>']
}

/// The tag that closes the model's reasoning.
pub open spec fn close_tag() -> Seq<char> {
    seq!['<', '/', 't', 'h', 'i', 'n', 'k', '>']
}

/// The last shown message, if any.
pub open spec fn last_of(msgs: Seq<MessageView>) -> Option<MessageView> {
    if msgs.len() > 0 {
        Some(msgs.last())
    } else {
        None
    }
}

/// The messages after streamed text arrives. Text goes to the reasoning
/// being shown, or else to the answer being shown (a new answer is started
/// when the last message is not one). A closing tag in the reasoning ends
/// it and starts a new answer with what follows; an opening tag in the
/// answer ends it and starts a new (collapsed) reasoning with what follows.
/// At most `budget` such splits are made for one piece of text.
pub open spec fn stream_apply(msgs: Seq<MessageView>, text: Seq<char>, budget: nat) -> Seq<MessageView>
    decreases budget,
{
    if text.len() == 0 || budget == 0 {
        msgs
    } else {
        match last_of(msgs) {
            Some(MessageView::Thinking(c0, e)) => {
                let c = c0 + text;
                let i = first_index(c, close_tag());
                if i >= 0 {
                    stream_apply(
                        msgs.drop_last().push(MessageView::Thinking(c.subrange(0, i), e)).push(
                            MessageView::Agent(Seq::empty()),
                        ),
                        c.subrange(i + 8, c.len() as int),
                        (budget - 1) as nat,
                    )
                } else {
                    msgs.drop_last().push(MessageView::Thinking(c, e))
                }
            },
            _ => {
                let base = match last_of(msgs) {
                    Some(MessageView::Agent(_)) => msgs,
                    _ => msgs.push(MessageView::Agent(Seq::empty())),
                };
                let c0 = match base.last() {
                    MessageView::Agent(c0) => c0,
                    _ => Seq::empty(),
                };
                let c = c0 + text;
                let i = first_index(c, open_tag());
                if i >= 0 {
                    stream_apply(
                        base.drop_last().push(MessageView::Agent(c.subrange(0, i))).push(
                            MessageView::Thinking(Seq::empty(), false),
                        ),
                        c.subrange(i + 7, c.len() as int),
                        (budget - 1) as nat,
                    )
                } else {
                    base.drop_last().push(MessageView::Agent(c))
                }
            },
        }
    }
}

/// A shown message holds no tag that should have ended it: reasoning holds
/// no `</think>`, an answer no `<think>`.
pub open spec fn tags_settled(m: MessageView) -> bool {
    match m {
        MessageView::Thinking(c, _) => !occurs_in(c, close_tag()),
        MessageView::Agent(c) => !occurs_in(c, open_tag()),
        _ => true,
    }
}

/// Every shown message has its tags settled.
pub open spec fn all_tags_settled(msgs: Seq<MessageView>) -> bool {
    forall|k: int| 0 <= k < msgs.len() ==> tags_settled(#[trigger] msgs[k])
}

proof fn lemma_no_occurrence_before(s: Seq<char>, p: Seq<char>, k: int)
    requires
        0 <= k,
    ensures
        forall|j: int|
            k <= j && (find_from(s, p, k) == -1 || j < find_from(s, p, k)) ==> !#[trigger] occurs_at(s, p, j),
    decreases s.len() + 1 - k,
{
    if k + p.len() <= s.len() && !occurs_at(s, p, k) {
        lemma_no_occurrence_before(s, p, k + 1);
    }
}

/// Text with no occurrence of `p` before position `i` (or none at all when
/// `i` is -1) keeps none in its first `i` characters, or in the whole of it.
proof fn lemma_prefix_free(c: Seq<char>, p: Seq<char>)
    requires
        p.len() > 0,
    ensures
        first_index(c, p) < 0 ==> !occurs_in(c, p),
        first_index(c, p) >= 0 ==> !occurs_in(c.subrange(0, first_index(c, p)), p),
{
    lemma_no_occurrence_before(c, p, 0);
    lemma_find_from_range(c, p, 0);
    let i = first_index(c, p);
    if i == -1 {
        assert forall|j: int| !occurs_at(c, p, j) by {
            if j >= 0 {
                assert(!occurs_at(c, p, j));
            }
        }
    } else {
        let pre = c.subrange(0, i);
        assert forall|j: int| !occurs_at(pre, p, j) by {
            if occurs_at(pre, p, j) {
                assert(pre.subrange(j, j + p.len()) =~= c.subrange(j, j + p.len()));
                assert(occurs_at(c, p, j));
            }
        }
    }
}

proof fn lemma_settled_push(msgs: Seq<MessageView>, m: MessageView)
    requires
        all_tags_settled(msgs),
        tags_settled(m),
    ensures
        all_tags_settled(msgs.push(m)),
{
    assert forall|k: int| 0 <= k < msgs.push(m).len() implies tags_settled(#[trigger] msgs.push(m)[k]) by {
        if k < msgs.len() {
            assert(msgs.push(m)[k] == msgs[k]);
        }
    }
}

proof fn lemma_settled_drop_last(msgs: Seq<MessageView>)
    requires
        all_tags_settled(msgs),
        msgs.len() > 0,
    ensures
        all_tags_settled(msgs.drop_last()),
{
    assert forall|k: int| 0 <= k < msgs.drop_last().len() implies tags_settled(#[trigger] msgs.drop_last()[k]) by {
        assert(msgs.drop_last()[k] == msgs[k]);
    }
}

/// A tag in streamed text ends the section it arrives in: after any piece
/// of streamed text, no shown reasoning holds a `</think>` (the reasoning
/// ends before it and what follows goes to a new answer) and no shown answer
/// holds a `<think>`, provided none did before.
pub proof fn lemma_stream_settles_tags(msgs: Seq<MessageView>, text: Seq<char>, budget: nat)
    requires
        all_tags_settled(msgs),
    ensures
        all_tags_settled(stream_apply(msgs, text, budget)),
    decreases budget,
{
    if text.len() == 0 || budget == 0 {
    } else {
        match last_of(msgs) {
            Some(MessageView::Thinking(c0, e)) => {
                let c = c0 + text;
                lemma_prefix_free(c, close_tag());
                lemma_settled_drop_last(msgs);
                let i = first_index(c, close_tag());
                if i >= 0 {
                    let m1 = msgs.drop_last().push(MessageView::Thinking(c.subrange(0, i), e));
                    lemma_settled_push(msgs.drop_last(), MessageView::Thinking(c.subrange(0, i), e));
                    assert(!occurs_in(Seq::<char>::empty(), open_tag())) by {
                        assert forall|j: int| !occurs_at(Seq::<char>::empty(), open_tag(), j) by {}
                    }
                    lemma_settled_push(m1, MessageView::Agent(Seq::empty()));
                    lemma_stream_settles_tags(
                        m1.push(MessageView::Agent(Seq::empty())),
                        c.subrange(i + 8, c.len() as int),
                        (budget - 1) as nat,
                    );
                } else {
                    lemma_settled_push(msgs.drop_last(), MessageView::Thinking(c, e));
                }
            },
            _ => {
                let base = match last_of(msgs) {
                    Some(MessageView::Agent(_)) => msgs,
                    _ => msgs.push(MessageView::Agent(Seq::empty())),
                };
                assert(!occurs_in(Seq::<char>::empty(), open_tag())) by {
                    assert forall|j: int| !occurs_at(Seq::<char>::empty(), open_tag(), j) by {}
                }
                assert(!occurs_in(Seq::<char>::empty(), close_tag())) by {
                    assert forall|j: int| !occurs_at(Seq::<char>::empty(), close_tag(), j) by {}
                }
                if !(last_of(msgs) matches Some(MessageView::Agent(_))) {
                    lemma_settled_push(msgs, MessageView::Agent(Seq::empty()));
                }
                assert(all_tags_settled(base));
                let c0 = match base.last() {
                    MessageView::Agent(c0) => c0,
                    _ => Seq::empty(),
                };
                let c = c0 + text;
                lemma_prefix_free(c, open_tag());
                lemma_settled_drop_last(base);
                let i = first_index(c, open_tag());
                if i >= 0 {
                    let m1 = base.drop_last().push(MessageView::Agent(c.subrange(0, i)));
                    lemma_settled_push(base.drop_last(), MessageView::Agent(c.subrange(0, i)));
                    lemma_settled_push(m1, MessageView::Thinking(Seq::empty(), false));
                    lemma_stream_settles_tags(
                        m1.push(MessageView::Thinking(Seq::empty(), false)),
                        c.subrange(i + 7, c.len() as int),
                        (budget - 1) as nat,
                    );
                } else {
                    lemma_settled_push(base.drop_last(), MessageView::Agent(c));
                }
            },
        }
    }
}

/// In `a` followed by `tag` and `b`, the first `tag` is the one after `a`
/// when `a` holds none and the tag's first character does not recur in it.
proof fn lemma_first_tag_after(a: Seq<char>, tag: Seq<char>, b: Seq<char>)
    requires
        tag.len() > 0,
        !occurs_in(a, tag),
        forall|k: int| 1 <= k < tag.len() ==> #[trigger] tag[k] != tag[0],
    ensures
        first_index(a + tag + b, tag) == a.len(),
{
    let c = a + tag + b;
    assert(c.subrange(a.len() as int, (a.len() + tag.len()) as int) =~= tag);
    assert forall|j: int| 0 <= j < a.len() implies !occurs_at(c, tag, j) by {
        if occurs_at(c, tag, j) {
            if j + tag.len() <= a.len() {
                assert(a.subrange(j, j + tag.len()) =~= c.subrange(j, j + tag.len()));
                assert(occurs_at(a, tag, j));
            } else {
                let k = a.len() - j;
                assert(c.subrange(j, j + tag.len())[k] == c[a.len() as int]);
                assert(c[a.len() as int] == tag[0]);
                assert(tag[k] == tag[0]);
            }
        }
    }
    crate::text::lemma_find_from_first(c, tag, 0, a.len() as int);
}

/// Reasoning that a closing tag ends is shown up to the tag, and what
/// follows the tag is shown as the answer: when the last message is
/// reasoning and, with the streamed text appended, it reads `a`, the tag and
/// then `b` (with no other tag in `a` or `b`), the reasoning becomes `a` and
/// a new answer `b` follows it.
pub proof fn lemma_closing_tag_ends_reasoning(
    msgs: Seq<MessageView>,
    text: Seq<char>,
    budget: nat,
    a: Seq<char>,
    b: Seq<char>,
)
    requires
        msgs.len() > 0,
        msgs.last() matches MessageView::Thinking(c0, _) && c0 + text == a + close_tag() + b,
        text.len() > 0,
        budget >= 2,
        !occurs_in(a, close_tag()),
        !occurs_in(b, open_tag()),
    ensures
        stream_apply(msgs, text, budget) == msgs.drop_last().push(
            MessageView::Thinking(a, msgs.last()->Thinking_1),
        ).push(MessageView::Agent(b)),
{
    let e = msgs.last()->Thinking_1;
    let c = msgs.last()->Thinking_0 + text;
    lemma_first_tag_after(a, close_tag(), b);
    assert(c.subrange(0, a.len() as int) =~= a);
    assert(c.subrange((a.len() + 8) as int, c.len() as int) =~= b);
    let m1 = msgs.drop_last().push(MessageView::Thinking(a, e)).push(MessageView::Agent(Seq::empty()));
    assert(stream_apply(msgs, text, budget) == stream_apply(m1, b, (budget - 1) as nat));
    if b.len() > 0 {
        crate::text::lemma_find_from_absent(Seq::<char>::empty() + b, open_tag(), 0);
        assert(Seq::<char>::empty() + b =~= b);
        assert(m1.drop_last() =~= msgs.drop_last().push(MessageView::Thinking(a, e)));
    } else {
        assert(b =~= Seq::<char>::empty());
    }
}

/// An answer that an opening tag ends is shown up to the tag, and what
/// follows the tag is shown as new (collapsed) reasoning: when the last
/// message is an answer and, with the streamed text appended, it reads `a`,
/// the tag and then `b` (with no other tag in `a` or `b`), the answer
/// becomes `a` and reasoning `b` follows it.
pub proof fn lemma_opening_tag_starts_reasoning(
    msgs: Seq<MessageView>,
    text: Seq<char>,
    budget: nat,
    a: Seq<char>,
    b: Seq<char>,
)
    requires
        msgs.len() > 0,
        msgs.last() matches MessageView::Agent(c0) && c0 + text == a + open_tag() + b,
        text.len() > 0,
        budget >= 2,
        !occurs_in(a, open_tag()),
        !occurs_in(b, close_tag()),
    ensures
        stream_apply(msgs, text, budget) == msgs.drop_last().push(MessageView::Agent(a)).push(
            MessageView::Thinking(b, false),
        ),
{
    let c = msgs.last()->Agent_0 + text;
    lemma_first_tag_after(a, open_tag(), b);
    assert(c.subrange(0, a.len() as int) =~= a);
    assert(c.subrange((a.len() + 7) as int, c.len() as int) =~= b);
    let m1 = msgs.drop_last().push(MessageView::Agent(a)).push(MessageView::Thinking(Seq::empty(), false));
    assert(stream_apply(msgs, text, budget) == stream_apply(m1, b, (budget - 1) as nat));
    if b.len() > 0 {
        crate::text::lemma_find_from_absent(Seq::<char>::empty() + b, close_tag(), 0);
        assert(Seq::<char>::empty() + b =~= b);
        assert(m1.drop_last() =~= msgs.drop_last().push(MessageView::Agent(a)));
    } else {
        assert(b =~= Seq::<char>::empty());
    }
}

/// Adds a piece of streamed model output to the shown messages.
pub fn apply_stream_chunk(messages: &mut Vec<Message>, chunk: &str)
    ensures
        views_of(final(messages)@) == stream_apply(views_of(old(messages)@), chunk@, 100),
{
    proof {
        reveal_strlit("<think>");
        reveal_strlit("</think>");
    }
    let open = chars_of("<think>");
    let close = chars_of("</think>");
    assert(open@ =~= open_tag());
    assert(close@ =~= close_tag());
    let mut text: String = to_owned_string(chunk);
    let mut loops: usize = 0;
    while text.as_str().unicode_len() > 0 && loops < 100
        invariant_except_break
            stream_apply(views_of(messages@), text@, (100 - loops) as nat) == stream_apply(
                views_of(old(messages)@),
                chunk@,
                100,
            ),
        invariant
            loops <= 100,
            open@ == open_tag(),
            close@ == close_tag(),
        ensures
            views_of(messages@) == stream_apply(views_of(old(messages)@), chunk@, 100),
        decreases 100 - loops,
    {
        loops = loops + 1;
        let ghost msgs = views_of(messages@);
        let ghost budget = (100 - (loops - 1)) as nat;
        let is_thinking = match messages.last() {
            Some(Message::Thinking(_, _, _)) => true,
            _ => false,
        };
        if is_thinking {
            let last = messages.pop().unwrap();
            assert(views_of(messages@) =~= msgs.drop_last());
            match last {
                Message::Thinking(who, c0, e) => {
                    let c = concat2(c0.as_str(), text.as_str());
                    let cv = chars_of(c.as_str());
                    match find_first(&cv, &close) {
                        Some(i) => {
                            proof {
                                lemma_find_from_range(c@, close_tag(), 0);
                            }
                            let n = c.as_str().unicode_len();
                            let kept = to_owned_string(c.as_str().substring_char(0, i));
                            let rest = to_owned_string(c.as_str().substring_char(i + 8, n));
                            messages.push(Message::Thinking(who, kept, e));
                            messages.push(Message::Agent(AgentId::Ollama, String::new()));
                            assert(views_of(messages@) =~= msgs.drop_last().push(
                                MessageView::Thinking(c@.subrange(0, i as int), e),
                            ).push(MessageView::Agent(Seq::empty())));
                            text = rest;
                        },
                        None => {
                            messages.push(Message::Thinking(who, c, e));
                            assert(views_of(messages@) =~= msgs.drop_last().push(
                                MessageView::Thinking(c@, e),
                            ));
                            assert(views_of(messages@) == stream_apply(msgs, text@, budget));
                            break ;
                        },
                    }
                },
                _ => {
                    assert(false);
                },
            }
        } else {
            let last_is_agent = match messages.last() {
                Some(Message::Agent(_, _)) => true,
                _ => false,
            };
            if !last_is_agent {
                messages.push(Message::Agent(AgentId::Ollama, String::new()));
            }
            let ghost base = views_of(messages@);
            assert(base =~= match last_of(msgs) {
                Some(MessageView::Agent(_)) => msgs,
                _ => msgs.push(MessageView::Agent(Seq::empty())),
            });
            let last = messages.pop().unwrap();
            assert(views_of(messages@) =~= base.drop_last());
            match last {
                Message::Agent(who, c0) => {
                    let c = concat2(c0.as_str(), text.as_str());
                    let cv = chars_of(c.as_str());
                    match find_first(&cv, &open) {
                        Some(i) => {
                            proof {
                                lemma_find_from_range(c@, open_tag(), 0);
                            }
                            let n = c.as_str().unicode_len();
                            let kept = to_owned_string(c.as_str().substring_char(0, i));
                            let rest = to_owned_string(c.as_str().substring_char(i + 7, n));
                            messages.push(Message::Agent(who, kept));
                            messages.push(Message::Thinking(AgentId::Ollama, String::new(), false));
                            assert(views_of(messages@) =~= base.drop_last().push(
                                MessageView::Agent(c@.subrange(0, i as int)),
                            ).push(MessageView::Thinking(Seq::empty(), false)));
                            text = rest;
                        },
                        None => {
                            messages.push(Message::Agent(who, c));
                            assert(views_of(messages@) =~= base.drop_last().push(
                                MessageView::Agent(c@),
                            ));
                            assert(views_of(messages@) == stream_apply(msgs, text@, budget));
                            break ;
                        },
                    }
                },
                _ => {
                    assert(false);
                },
            }
        }
    }
}

/// When the stream ends, an empty answer left at the end is dropped.
pub fn finish_stream(messages: &mut Vec<Message>)
    ensures
        views_of(final(messages)@) == (match last_of(views_of(old(messages)@)) {
            Some(MessageView::Agent(c)) => if c.len() == 0 {
                views_of(old(messages)@).drop_last()
            } else {
                views_of(old(messages)@)
            },
            _ => views_of(old(messages)@),
        }),
{
    let empty_answer = match messages.last() {
        Some(Message::Agent(_, c)) => c.as_str().unicode_len() == 0,
        _ => false,
    };
    if empty_answer {
        let _ = messages.pop();
        assert(views_of(messages@) =~= views_of(old(messages)@).drop_last());
    }
}

} // verus!

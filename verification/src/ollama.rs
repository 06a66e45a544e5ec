//! Reading the replies of an Ollama server.
//!
//! A streamed chat reply arrives as newline-delimited JSON objects, cut into
//! chunks at arbitrary places. `ChatStream` gathers the chunks, hands out
//! complete lines, and accumulates the content and the tool calls that the
//! lines carry until one of them says `"done": true`. The HTTP exchange and
//! the forwarding of chunks to the interface are done by the caller.
use vstd::prelude::*;
use crate::json::{items_at, json_bool_at, json_items_at, json_parse_error, json_str_at, json_text_at, bool_at, parse_error, str_at, text_at};
use crate::text::{chars_of, is_blank, lemma_trim_empty_iff_blank, to_owned_string, trim, trim_seq};
use crate::types::{ChatMessage, ToolCall, ToolFunction};

verus! {

/// A tool call as name and JSON text of the arguments.
pub open spec fn call_view(c: ToolCall) -> (Seq<char>, Seq<char>) {
    (c.function.name@, c.function.arguments@)
}

/// A list of tool calls as names and argument texts.
pub open spec fn calls_view(cs: Seq<ToolCall>) -> Seq<(Seq<char>, Seq<char>)> {
    cs.map_values(|c: ToolCall| call_view(c))
}

/// The name and arguments that a `function` value stands for: an object
/// with a string `name` and some `arguments` value, or an array of exactly
/// those two.
pub open spec fn decoded_function(f: Seq<char>) -> Option<(Seq<char>, Seq<char>)> {
    match json_items_at(f, Seq::empty()) {
        Some(parts) => if parts.len() == 2 {
            match json_str_at(parts[0], Seq::empty()) {
                Some(n) => Some((n, parts[1])),
                None => None,
            }
        } else {
            None
        },
        None => match (json_str_at(f, "/name"@), json_text_at(f, "/arguments"@)) {
            (Some(n), Some(a)) => Some((n, a)),
            _ => None,
        },
    }
}

/// The tool call that one item of a `tool_calls` array stands for: an
/// object whose `function` is one, or an array of exactly one function.
pub open spec fn decoded_tool_call(item: Seq<char>) -> Option<(Seq<char>, Seq<char>)> {
    match json_items_at(item, Seq::empty()) {
        Some(parts) => if parts.len() == 1 {
            decoded_function(parts[0])
        } else {
            None
        },
        None => match json_text_at(item, "/function"@) {
            Some(f) => decoded_function(f),
            None => None,
        },
    }
}

/// The tool calls of a list of items, skipping the items that are not one.
pub open spec fn decoded_calls(items: Seq<Seq<char>>) -> Seq<(Seq<char>, Seq<char>)>
    decreases items.len(),
{
    if items.len() == 0 {
        Seq::empty()
    } else {
        let rest = decoded_calls(items.drop_last());
        match decoded_tool_call(items.last()) {
            Some(c) => rest.push(c),
            None => rest,
        }
    }
}

/// The tool calls listed at `pointer` of a JSON text, if any.
pub open spec fn calls_at(text: Seq<char>, pointer: Seq<char>) -> Seq<(Seq<char>, Seq<char>)> {
    match json_items_at(text, pointer) {
        Some(items) => decoded_calls(items),
        None => Seq::empty(),
    }
}

/// The content piece that one streamed line carries.
pub open spec fn line_content(line: Seq<char>) -> Option<Seq<char>> {
    if trim_seq(line).len() == 0 {
        None
    } else {
        json_str_at(trim_seq(line), "/message/content"@)
    }
}

/// The tool calls that one streamed line carries.
pub open spec fn line_calls(line: Seq<char>) -> Seq<(Seq<char>, Seq<char>)> {
    if trim_seq(line).len() == 0 {
        Seq::empty()
    } else {
        calls_at(trim_seq(line), "/message/tool_calls"@)
    }
}

/// Whether one streamed line ends the reply.
pub open spec fn line_done(line: Seq<char>) -> bool {
    trim_seq(line).len() != 0 && json_bool_at(trim_seq(line), "/done"@) == Some(true)
}

/// The empty text where a piece is absent.
pub open spec fn piece(p: Option<Seq<char>>) -> Seq<char> {
    match p {
        Some(s) => s,
        None => Seq::empty(),
    }
}

/// `m` is the model's reply with this content and these tool calls: a plain
/// assistant message when there are none.
pub open spec fn is_reply(m: ChatMessage, content: Seq<char>, calls: Seq<(Seq<char>, Seq<char>)>) -> bool {
    &&& m.role@ == "assistant"@
    &&& m.content@ == content
    &&& calls.len() == 0 ==> m.tool_calls is None
    &&& calls.len() > 0 ==> (m.tool_calls matches Some(v) && calls_view(v@) == calls)
}

/// Decodes one item of a `tool_calls` array.
fn decode_tool_call(item: &str) -> (r: Option<ToolCall>)
    ensures
        match decoded_tool_call(item@) {
            Some(c) => r matches Some(t) && call_view(t) == c,
            None => r is None,
        },
{
    proof {
        reveal_strlit("");
        assert(""@ =~= Seq::<char>::empty());
    }
    match items_at(item, "") {
        Some(parts) => {
            if parts.len() == 1 {
                decode_function(parts[0].as_str())
            } else {
                None
            }
        },
        None => match text_at(item, "/function") {
            Some(f) => decode_function(f.as_str()),
            None => None,
        },
    }
}

/// Decodes the `function` value of a tool call.
fn decode_function(f: &str) -> (r: Option<ToolCall>)
    ensures
        match decoded_function(f@) {
            Some(c) => r matches Some(t) && call_view(t) == c,
            None => r is None,
        },
{
    proof {
        reveal_strlit("");
        assert(""@ =~= Seq::<char>::empty());
    }
    match items_at(f, "") {
        Some(parts) => {
            if parts.len() == 2 {
                match str_at(parts[0].as_str(), "") {
                    Some(n) => Some(ToolCall { function: ToolFunction { name: n, arguments: parts[1].clone() } }),
                    None => None,
                }
            } else {
                None
            }
        },
        None => {
            let name = str_at(f, "/name");
            let arguments = text_at(f, "/arguments");
            match (name, arguments) {
                (Some(n), Some(a)) => Some(ToolCall { function: ToolFunction { name: n, arguments: a } }),
                _ => None,
            }
        },
    }
}

/// Decodes the tool calls listed at `pointer` of a JSON text.
fn decode_calls_at(text: &str, pointer: &str) -> (r: Vec<ToolCall>)
    ensures
        calls_view(r@) == calls_at(text@, pointer@),
        json_parse_error(text@) is Some ==> r@.len() == 0,
{
    let items = match items_at(text, pointer) {
        Some(items) => items,
        None => {
            let r: Vec<ToolCall> = Vec::new();
            assert(calls_view(r@) =~= Seq::empty());
            return r;
        },
    };
    let ghost all = items.deep_view();
    let mut out: Vec<ToolCall> = Vec::new();
    let mut i: usize = 0;
    while i < items.len()
        invariant
            i <= items.len(),
            all == items.deep_view(),
            json_items_at(text@, pointer@) == Some(all),
            calls_view(out@) == decoded_calls(all.take(i as int)),
        decreases items.len() - i,
    {
        assert(all.take(i + 1).drop_last() =~= all.take(i as int));
        assert(all.take(i + 1).last() == items@[i as int]@);
        let ghost before = out@;
        match decode_tool_call(items[i].as_str()) {
            Some(c) => {
                out.push(c);
                assert(calls_view(out@) =~= calls_view(before).push(call_view(c)));
            },
            None => {},
        }
        i = i + 1;
    }
    assert(all.take(i as int) =~= all);
    out
}

/// Builds the reply from the content and tool calls gathered.
fn reply_of(content: &str, calls: Vec<ToolCall>) -> (m: ChatMessage)
    ensures
        is_reply(m, content@, calls_view(calls@)),
{
    if calls.len() > 0 {
        ChatMessage::tool_call(content, calls)
    } else {
        ChatMessage::assistant(content)
    }
}

/// The reply of a non-streamed chat request, or the message of the error
/// that reading the body as JSON gave.
pub fn reply_of_body(body: &str) -> (r: Result<ChatMessage, String>)
    ensures
        match json_parse_error(body@) {
            Some(e) => r matches Err(m) && m@ == e,
            None => r matches Ok(m) && is_reply(
                m,
                piece(json_str_at(body@, "/message/content"@)),
                calls_at(body@, "/message/tool_calls"@),
            ),
        },
{
    match parse_error(body) {
        Some(e) => Err(e),
        None => {
            let content = match str_at(body, "/message/content") {
                Some(c) => c,
                None => String::new(),
            };
            let calls = decode_calls_at(body, "/message/tool_calls");
            Ok(reply_of(content.as_str(), calls))
        },
    }
}

/// The names of the models an `/api/tags` reply lists, skipping entries
/// without a string name.
pub open spec fn names_of(items: Seq<Seq<char>>) -> Seq<Seq<char>>
    decreases items.len(),
{
    if items.len() == 0 {
        Seq::empty()
    } else {
        let rest = names_of(items.drop_last());
        match json_str_at(items.last(), "/name"@) {
            Some(n) => rest.push(n),
            None => rest,
        }
    }
}

/// The model names listed by an `/api/tags` reply body.
pub fn model_names(body: &str) -> (r: Vec<String>)
    ensures
        r.deep_view() == match json_items_at(body@, "/models"@) {
            Some(items) => names_of(items),
            None => Seq::empty(),
        },
{
    let items = match items_at(body, "/models") {
        Some(items) => items,
        None => {
            let r: Vec<String> = Vec::new();
            assert(r.deep_view() =~= Seq::empty());
            return r;
        },
    };
    let ghost all = items.deep_view();
    let mut out: Vec<String> = Vec::new();
    let mut i: usize = 0;
    while i < items.len()
        invariant
            i <= items.len(),
            all == items.deep_view(),
            json_items_at(body@, "/models"@) == Some(all),
            out.deep_view() == names_of(all.take(i as int)),
        decreases items.len() - i,
    {
        assert(all.take(i + 1).drop_last() =~= all.take(i as int));
        assert(all.take(i + 1).last() == items@[i as int]@);
        let ghost before = out.deep_view();
        match str_at(items[i].as_str(), "/name") {
            Some(n) => {
                out.push(n);
                assert(out.deep_view() =~= before.push(out@[out@.len() - 1]@));
            },
            None => {},
        }
        i = i + 1;
    }
    assert(all.take(i as int) =~= all);
    out
}

/// The state of a streamed chat reply being read.
pub struct ChatStream {
    buffer: String,
    content: String,
    calls: Vec<ToolCall>,
}

impl ChatStream {
    /// Received text not yet handed out as a line.
    pub closed spec fn pending(&self) -> Seq<char> {
        self.buffer@
    }

    /// The content gathered so far.
    pub closed spec fn content(&self) -> Seq<char> {
        self.content@
    }

    /// The tool calls gathered so far.
    pub closed spec fn calls(&self) -> Seq<(Seq<char>, Seq<char>)> {
        calls_view(self.calls@)
    }

    /// A stream with nothing received.
    pub fn new() -> (s: Self)
        ensures
            s.pending() == Seq::<char>::empty(),
            s.content() == Seq::<char>::empty(),
            s.calls() == Seq::<(Seq<char>, Seq<char>)>::empty(),
    {
        let s = ChatStream { buffer: String::new(), content: String::new(), calls: Vec::new() };
        assert(calls_view(s.calls@) =~= Seq::empty());
        s
    }

    /// Appends received text.
    pub fn push_text(&mut self, text: &str)
        ensures
            final(self).pending() == old(self).pending() + text@,
            final(self).content() == old(self).content(),
            final(self).calls() == old(self).calls(),
    {
        self.buffer.append(text);
    }

    /// Takes the first complete line, newline included, off the pending
    /// text; `None` while no newline has arrived.
    pub fn next_line(&mut self) -> (r: Option<String>)
        ensures
            final(self).content() == old(self).content(),
            final(self).calls() == old(self).calls(),
            match r {
                Some(line) => {
                    &&& line@ + final(self).pending() == old(self).pending()
                    &&& line@.len() > 0
                    &&& line@.last() == '\n'
                    &&& !line@.drop_last().contains('\n')
                },
                None => final(self).pending() == old(self).pending() && !old(self).pending().contains('\n'),
            },
    {
        let v = chars_of(self.buffer.as_str());
        let mut i: usize = 0;
        while i < v.len()
            invariant
                i <= v.len(),
                v@ == self.buffer@,
                self.buffer@ == old(self).buffer@,
                self.content@ == old(self).content@,
                self.calls@ == old(self).calls@,
                forall|j: int| 0 <= j < i ==> v@[j] != '\n',
            decreases v.len() - i,
        {
            if v[i] == '\n' {
                let n = self.buffer.as_str().unicode_len();
                let line = to_owned_string(self.buffer.as_str().substring_char(0, i + 1));
                let rest = to_owned_string(self.buffer.as_str().substring_char(i + 1, n));
                proof {
                    assert(line@ + rest@ =~= v@);
                    assert(line@.drop_last() =~= v@.subrange(0, i as int));
                    assert forall|j: int| 0 <= j < line@.drop_last().len() implies line@.drop_last()[j] != '\n' by {
                        assert(line@.drop_last()[j] == v@[j]);
                    }
                }
                self.buffer = rest;
                return Some(line);
            }
            i = i + 1;
        }
        proof {
            assert forall|j: int| 0 <= j < self.buffer@.len() implies self.buffer@[j] != '\n' by {
                assert(self.buffer@[j] == v@[j]);
            }
        }
        None
    }

    /// The content piece a line carries, to be shown as it arrives.
    pub fn line_chunk(line: &str) -> (r: Option<String>)
        ensures
            r.deep_view() == line_content(line@),
    {
        let t = trim(line);
        proof {
            lemma_trim_empty_iff_blank(line@);
        }
        if is_blank(line) {
            None
        } else {
            str_at(t, "/message/content")
        }
    }

    /// Adds what a line carries to the reply; gives the finished reply if
    /// the line ends it.
    pub fn accept_line(&mut self, line: &str) -> (r: Option<ChatMessage>)
        ensures
            final(self).pending() == old(self).pending(),
            final(self).content() == old(self).content() + piece(line_content(line@)),
            final(self).calls() == old(self).calls() + line_calls(line@),
            r is Some == line_done(line@),
            r matches Some(m) ==> is_reply(m, final(self).content(), final(self).calls()),
            json_parse_error(trim_seq(line@)) is Some ==> final(self).content() == old(self).content()
                && final(self).calls() == old(self).calls() && r is None,
    {
        proof {
            lemma_trim_empty_iff_blank(line@);
        }
        if is_blank(line) {
            assert(self.content@ =~= self.content@ + piece(line_content(line@)));
            assert(self.calls() =~= self.calls() + line_calls(line@));
            return None;
        }
        let t = trim(line);
        match str_at(t, "/message/content") {
            Some(c) => self.content.append(c.as_str()),
            None => {
                assert(self.content@ =~= self.content@ + Seq::<char>::empty());
            },
        }
        let found = decode_calls_at(t, "/message/tool_calls");
        let ghost before = self.calls@;
        let mut found = found;
        self.calls.append(&mut found);
        assert(calls_view(self.calls@) =~= calls_view(before) + line_calls(line@));
        match bool_at(t, "/done") {
            Some(true) => Some(self.finish()),
            _ => None,
        }
    }

    /// The reply built from what was gathered, for a stream that ended
    /// without a line saying it is done.
    pub fn finish(&self) -> (m: ChatMessage)
        ensures
            is_reply(m, self.content(), self.calls()),
    {
        let calls = crate::types::copy_tool_calls(&self.calls);
        reply_of(self.content.as_str(), calls)
    }
}

} // verus!

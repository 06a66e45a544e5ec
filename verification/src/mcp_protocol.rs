//! The JSON-RPC side of the Model Context Protocol: what is sent with each
//! request, how replies are read, and how discovered tools become tools of
//! the agent.
//!
//! Over HTTP a reply may come as JSON or as a server-sent event whose
//! `data:` line holds the JSON. Over stdio each reply is one line that must
//! answer the request with the same id.
use vstd::prelude::*;
use crate::json::{
    debug_at, i64_at, items_at, json_debug_at, json_i64_at, json_items_at, json_parse_error, json_str_at,
    json_text_at, json_u64_at, parse_error, str_at, text_at, u64_at,
};
use crate::mcp_config::McpServerConfig;
use crate::text::{
    concat2, concat3, has_prefix, i64_text, int_text, split_seq, split_str, starts_with, strip_prefix, to_owned_string,
    trim, trim_seq,
};
use crate::tools::ToolProfile;
use crate::types::Tool;

verus! {

/// A tool that an MCP server offers; `input_schema` is the JSON text of its
/// parameter schema.
#[derive(Debug, Clone, PartialEq, Eq)]
pub struct McpToolDefinition {
    pub name: String,
    pub description: String,
    pub input_schema: String,
}

/// A tool definition as name, description and schema text.
pub open spec fn definition_view(d: McpToolDefinition) -> (Seq<char>, Seq<char>, Seq<char>) {
    (d.name@, d.description@, d.input_schema@)
}

/// The first line of a list that starts with `data:`.
pub open spec fn first_data_line(lines: Seq<Seq<char>>) -> Option<Seq<char>>
    decreases lines.len(),
{
    if lines.len() == 0 {
        None
    } else if has_prefix(lines[0], "data:"@) {
        Some(lines[0])
    } else {
        first_data_line(lines.drop_first())
    }
}

/// The JSON text of a reply: for a server-sent event (text starting with
/// `event:`), what follows `data:` on its first data line, trimmed; else the
/// whole text.
pub open spec fn sse_payload(text: Seq<char>) -> Seq<char> {
    if has_prefix(text, "event:"@) {
        match first_data_line(split_seq(text, seq!['\n'])) {
            Some(l) => trim_seq(l.subrange(5, l.len() as int)),
            None => text,
        }
    } else {
        text
    }
}

/// Takes the JSON text out of a reply that may be a server-sent event.
pub fn reply_payload(text: &str) -> (r: String)
    ensures
        r@ == sse_payload(text@),
{
    proof {
        reveal_strlit("\n");
        reveal_strlit("data:");
    }
    if !starts_with(text, "event:") {
        return to_owned_string(text);
    }
    let lines = split_str(text, "\n");
    assert("\n"@ =~= seq!['\n']);
    assert("data:"@.len() == 5);
    let ghost all = lines@.map_values(|t: String| t@);
    let mut i: usize = 0;
    assert(all.skip(0) =~= all);
    while i < lines.len()
        invariant
            i <= lines.len(),
            all == lines@.map_values(|t: String| t@),
            all == split_seq(text@, seq!['\n']),
            has_prefix(text@, "event:"@),
            first_data_line(all) == first_data_line(all.skip(i as int)),
        decreases lines.len() - i,
    {
        assert(all.skip(i as int).drop_first() =~= all.skip(i + 1));
        assert(all.skip(i as int)[0] == lines@[i as int]@);
        match strip_prefix(lines[i].as_str(), "data:") {
            Some(rest) => {
                assert("data:"@.len() == 5) by {
                    reveal_strlit("data:");
                }
                assert(first_data_line(all.skip(i as int)) == Some(lines@[i as int]@));
                return to_owned_string(trim(rest));
            },
            None => {},
        }
        i = i + 1;
    }
    assert(all.skip(i as int) =~= Seq::<Seq<char>>::empty());
    to_owned_string(text)
}

/// The headers sent with every request: the bearer token and the API key
/// where configured, then the JSON content type and what is accepted back.
pub open spec fn header_list(access_token: Option<Seq<char>>, api_key: Option<Seq<char>>) -> Seq<
    (Seq<char>, Seq<char>),
> {
    (match access_token {
        Some(t) => seq![("Authorization"@, "Bearer "@ + t)],
        None => Seq::empty(),
    }) + (match api_key {
        Some(k) => seq![("X-API-Key"@, k)],
        None => Seq::empty(),
    }) + seq![("Content-Type"@, "application/json"@), ("Accept"@, "application/json, text/event-stream"@)]
}

/// The headers of a request to an MCP server.
pub fn request_headers(access_token: &Option<String>, api_key: &Option<String>) -> (r: Vec<(String, String)>)
    ensures
        r@.map_values(|p: (String, String)| (p.0@, p.1@)) == header_list(access_token.deep_view(), api_key.deep_view()),
{
    let mut out: Vec<(String, String)> = Vec::new();
    let ghost a: Seq<(Seq<char>, Seq<char>)> = Seq::empty();
    match access_token {
        Some(t) => {
            out.push((String::from_str("Authorization"), concat2("Bearer ", t.as_str())));
        },
        None => {},
    }
    let ghost after_token = out@.map_values(|p: (String, String)| (p.0@, p.1@));
    match api_key {
        Some(k) => {
            out.push((String::from_str("X-API-Key"), k.clone()));
        },
        None => {},
    }
    let ghost after_key = out@.map_values(|p: (String, String)| (p.0@, p.1@));
    out.push((String::from_str("Content-Type"), String::from_str("application/json")));
    out.push((String::from_str("Accept"), String::from_str("application/json, text/event-stream")));
    proof {
        let v = out@.map_values(|p: (String, String)| (p.0@, p.1@));
        let t_part: Seq<(Seq<char>, Seq<char>)> = match access_token.deep_view() {
            Some(t) => seq![("Authorization"@, "Bearer "@ + t)],
            None => Seq::empty(),
        };
        let k_part: Seq<(Seq<char>, Seq<char>)> = match api_key.deep_view() {
            Some(k) => seq![("X-API-Key"@, k)],
            None => Seq::empty(),
        };
        assert(after_token =~= t_part);
        assert(after_key =~= t_part + k_part);
        assert(v =~= t_part + k_part + seq![
            ("Content-Type"@, "application/json"@),
            ("Accept"@, "application/json, text/event-stream"@),
        ]);
    }
    out
}

/// Why the reply of an MCP server over HTTP was not used.
#[derive(Debug, Clone, PartialEq, Eq)]
pub enum McpReplyError {
    /// The reply is not JSON: the parser's message and the raw reply.
    InvalidJson { error: String, raw: String },
    /// The server answered with an error object, in debug notation.
    ServerError(String),
    /// The reply has no `result`.
    NoResult,
    /// The `result` of a `tools/list` reply is not a list of tools.
    BadToolsList,
}

impl McpReplyError {
    /// The message of the error.
    pub fn message(&self) -> (r: String)
        ensures
            match *self {
                McpReplyError::InvalidJson { error, raw } => r@ == "Failed to parse JSON response: "@ + error@
                    + " (raw response: "@ + raw@ + ")"@,
                McpReplyError::ServerError(e) => r@ == "MCP server returned error: "@ + e@,
                McpReplyError::NoResult => r@ == "No result field in response"@,
                McpReplyError::BadToolsList => r@ == "Failed to parse tools list response"@,
            },
    {
        match self {
            McpReplyError::InvalidJson { error, raw } => {
                let a = concat3("Failed to parse JSON response: ", error.as_str(), " (raw response: ");
                concat3(a.as_str(), raw.as_str(), ")")
            },
            McpReplyError::ServerError(e) => concat2("MCP server returned error: ", e.as_str()),
            McpReplyError::NoResult => String::from_str("No result field in response"),
            McpReplyError::BadToolsList => String::from_str("Failed to parse tools list response"),
        }
    }
}

/// How a reply is read up to its `result`: not JSON, an error object, no
/// result, or the JSON text of the result.
pub open spec fn reply_result(text: Seq<char>) -> Result<Seq<char>, McpReplyErrorView> {
    let p = sse_payload(text);
    match json_parse_error(p) {
        Some(e) => Err(McpReplyErrorView::InvalidJson(e, text)),
        None => match json_debug_at(p, "/error"@) {
            Some(d) => Err(McpReplyErrorView::ServerError(d)),
            None => match json_text_at(p, "/result"@) {
                Some(r) => Ok(r),
                None => Err(McpReplyErrorView::NoResult),
            },
        },
    }
}

/// An `McpReplyError` in terms of plain text.
pub enum McpReplyErrorView {
    InvalidJson(Seq<char>, Seq<char>),
    ServerError(Seq<char>),
    NoResult,
    BadToolsList,
}

/// An error as plain text.
pub open spec fn error_view(e: McpReplyError) -> McpReplyErrorView {
    match e {
        McpReplyError::InvalidJson { error, raw } => McpReplyErrorView::InvalidJson(error@, raw@),
        McpReplyError::ServerError(d) => McpReplyErrorView::ServerError(d@),
        McpReplyError::NoResult => McpReplyErrorView::NoResult,
        McpReplyError::BadToolsList => McpReplyErrorView::BadToolsList,
    }
}

/// Reads a reply up to the JSON text of its `result`; this is what a
/// `tools/call` request gives back.
pub fn tool_call_result(text: &str) -> (r: Result<String, McpReplyError>)
    ensures
        match reply_result(text@) {
            Ok(res) => r matches Ok(s) && s@ == res,
            Err(e) => r matches Err(x) && error_view(x) == e,
        },
{
    let p = reply_payload(text);
    match parse_error(p.as_str()) {
        Some(e) => Err(McpReplyError::InvalidJson { error: e, raw: to_owned_string(text) }),
        None => match debug_at(p.as_str(), "/error") {
            Some(d) => Err(McpReplyError::ServerError(d)),
            None => match text_at(p.as_str(), "/result") {
                Some(res) => Ok(res),
                None => Err(McpReplyError::NoResult),
            },
        },
    }
}

/// The tool definition an item of a tools list stands for: an object with a
/// string `name`, a string `description` and the `inputSchema`, `null` where
/// absent; or an array of the name, the description and, optionally, the
/// schema.
pub open spec fn decoded_definition(item: Seq<char>) -> Option<(Seq<char>, Seq<char>, Seq<char>)> {
    match json_items_at(item, Seq::empty()) {
        Some(parts) => if parts.len() == 2 || parts.len() == 3 {
            match (json_str_at(parts[0], Seq::empty()), json_str_at(parts[1], Seq::empty())) {
                (Some(n), Some(d)) => Some((n, d, if parts.len() == 3 { parts[2] } else { "null"@ })),
                _ => None,
            }
        } else {
            None
        },
        None => match (json_str_at(item, "/name"@), json_str_at(item, "/description"@)) {
            (Some(n), Some(d)) => Some(
                (
                    n,
                    d,
                    match json_text_at(item, "/inputSchema"@) {
                        Some(s) => s,
                        None => "null"@,
                    },
                ),
            ),
            _ => None,
        },
    }
}

/// The definitions of a list of items, if every item is one.
pub open spec fn decoded_definitions(items: Seq<Seq<char>>) -> Option<Seq<(Seq<char>, Seq<char>, Seq<char>)>>
    decreases items.len(),
{
    if items.len() == 0 {
        Some(Seq::empty())
    } else {
        match (decoded_definitions(items.drop_last()), decoded_definition(items.last())) {
            (Some(rest), Some(d)) => Some(rest.push(d)),
            _ => None,
        }
    }
}

/// The items of the tools list of a `tools/list` result: the array at
/// `tools` of an object, or the array that an array of exactly one element
/// holds.
pub open spec fn tool_items_of_result(result: Seq<char>) -> Option<Seq<Seq<char>>> {
    match json_items_at(result, Seq::empty()) {
        Some(parts) => if parts.len() == 1 {
            json_items_at(parts[0], Seq::empty())
        } else {
            None
        },
        None => json_items_at(result, "/tools"@),
    }
}

/// The tools that a `tools/list` result lists.
pub open spec fn tools_of_result(result: Seq<char>) -> Option<Seq<(Seq<char>, Seq<char>, Seq<char>)>> {
    match tool_items_of_result(result) {
        Some(items) => decoded_definitions(items),
        None => None,
    }
}

/// Reads the items of the tools list of a `tools/list` result.
fn tool_items(result: &str) -> (r: Option<Vec<String>>)
    ensures
        r.deep_view() == tool_items_of_result(result@),
{
    proof {
        reveal_strlit("");
        assert(""@ =~= Seq::<char>::empty());
    }
    match items_at(result, "") {
        Some(parts) => {
            if parts.len() == 1 {
                items_at(parts[0].as_str(), "")
            } else {
                None
            }
        },
        None => items_at(result, "/tools"),
    }
}

fn decode_definition(item: &str) -> (r: Option<McpToolDefinition>)
    ensures
        match decoded_definition(item@) {
            Some(d) => r matches Some(x) && definition_view(x) == d,
            None => r is None,
        },
{
    proof {
        reveal_strlit("");
        assert(""@ =~= Seq::<char>::empty());
        reveal_strlit("null");
    }
    match items_at(item, "") {
        Some(parts) => {
            if parts.len() == 2 || parts.len() == 3 {
                match (str_at(parts[0].as_str(), ""), str_at(parts[1].as_str(), "")) {
                    (Some(n), Some(d)) => {
                        let schema = if parts.len() == 3 {
                            parts[2].clone()
                        } else {
                            String::from_str("null")
                        };
                        return Some(McpToolDefinition { name: n, description: d, input_schema: schema });
                    },
                    _ => return None,
                }
            } else {
                return None;
            }
        },
        None => {},
    }
    let name = str_at(item, "/name");
    let description = str_at(item, "/description");
    match (name, description) {
        (Some(n), Some(d)) => {
            let schema = match text_at(item, "/inputSchema") {
                Some(s) => s,
                None => String::from_str("null"),
            };
            Some(McpToolDefinition { name: n, description: d, input_schema: schema })
        },
        _ => None,
    }
}

/// Reads the tools of a `tools/list` result.
pub fn tools_from_result(result: &str) -> (r: Option<Vec<McpToolDefinition>>)
    ensures
        match tools_of_result(result@) {
            Some(ds) => r matches Some(v) && v@.map_values(|d: McpToolDefinition| definition_view(d)) == ds,
            None => r is None,
        },
{
    let items = match tool_items(result) {
        Some(items) => items,
        None => return None,
    };
    let ghost all = items.deep_view();
    let mut out: Vec<McpToolDefinition> = Vec::new();
    let mut i: usize = 0;
    while i < items.len()
        invariant
            i <= items.len(),
            all == items.deep_view(),
            tool_items_of_result(result@) == Some(all),
            decoded_definitions(all.take(i as int)) == Some(
                out@.map_values(|d: McpToolDefinition| definition_view(d)),
            ),
        decreases items.len() - i,
    {
        assert(all.take(i + 1).drop_last() =~= all.take(i as int));
        assert(all.take(i + 1).last() == items@[i as int]@);
        match decode_definition(items[i].as_str()) {
            Some(d) => {
                let ghost prev = out@.map_values(|d: McpToolDefinition| definition_view(d));
                out.push(d);
                assert(out@.map_values(|d: McpToolDefinition| definition_view(d)) =~= prev.push(definition_view(d)));
            },
            None => {
                proof {
                    lemma_failed_item_fails(all, i as int);
                }
                return None;
            },
        }
        i = i + 1;
    }
    assert(all.take(i as int) =~= all);
    Some(out)
}

proof fn lemma_failed_item_fails(items: Seq<Seq<char>>, i: int)
    requires
        0 <= i < items.len(),
        decoded_definition(items[i]) is None,
    ensures
        decoded_definitions(items) is None,
    decreases items.len(),
{
    if i < items.len() - 1 {
        assert(items.drop_last()[i] == items[i]);
        lemma_failed_item_fails(items.drop_last(), i);
    }
}

/// Reads a `tools/list` reply: the tools, or why there are none.
pub fn tools_list_reply(text: &str) -> (r: Result<Vec<McpToolDefinition>, McpReplyError>)
    ensures
        match reply_result(text@) {
            Ok(res) => match tools_of_result(res) {
                Some(ds) => r matches Ok(v) && v@.map_values(|d: McpToolDefinition| definition_view(d)) == ds,
                None => r == Err::<Vec<McpToolDefinition>, McpReplyError>(McpReplyError::BadToolsList),
            },
            Err(e) => r matches Err(x) && error_view(x) == e,
        },
{
    match tool_call_result(text) {
        Err(e) => Err(e),
        Ok(res) => match tools_from_result(res.as_str()) {
            Some(v) => Ok(v),
            None => Err(McpReplyError::BadToolsList),
        },
    }
}

/// What the reply to `initialize` leads to.
#[derive(Debug, Clone, Copy, PartialEq, Eq, Structural)]
pub enum InitializeOutcome {
    /// The server accepted: the `initialized` notification is sent next.
    Initialized,
    /// The server answered with an error; discovery goes on anyway.
    ServerError,
    /// The reply is not JSON; discovery goes on anyway.
    Unreadable,
}

/// Reads the reply to `initialize`.
pub fn initialize_outcome(text: &str) -> (r: InitializeOutcome)
    ensures
        json_parse_error(sse_payload(text@)) is Some ==> r == InitializeOutcome::Unreadable,
        json_parse_error(sse_payload(text@)) is None && json_debug_at(sse_payload(text@), "/error"@) is Some ==> r
            == InitializeOutcome::ServerError,
        json_parse_error(sse_payload(text@)) is None && json_debug_at(sse_payload(text@), "/error"@) is None ==> r
            == InitializeOutcome::Initialized,
{
    let p = reply_payload(text);
    match parse_error(p.as_str()) {
        Some(_) => InitializeOutcome::Unreadable,
        None => match debug_at(p.as_str(), "/error") {
            Some(_) => InitializeOutcome::ServerError,
            None => InitializeOutcome::Initialized,
        },
    }
}

/// The message for a request answered with a failure status.
pub fn status_failure_message(status: &str, body: Option<&str>) -> (r: String)
    ensures
        r@ == "JSON-RPC request failed with status: "@ + status@ + match body {
            Some(b) => " (response body: "@ + b@ + ")"@,
            None => Seq::<char>::empty(),
        },
{
    let head = concat2("JSON-RPC request failed with status: ", status);
    match body {
        Some(b) => {
            let tail = concat3(" (response body: ", b, ")");
            let r = concat2(head.as_str(), tail.as_str());
            assert(r@ =~= "JSON-RPC request failed with status: "@ + status@ + (" (response body: "@ + b@ + ")"@));
            r
        },
        None => {
            assert(head@ =~= head@ + Seq::<char>::empty());
            head
        },
    }
}

/// Why the reply to a stdio request was not used.
#[derive(Debug, Clone, PartialEq, Eq)]
pub enum StdioReplyError {
    /// The reply answers another request.
    IdMismatch,
    /// The server answered with an error code and message.
    Server { code: i64, message: String },
    /// The reply is neither a result nor an error.
    Unparsable(String),
}

impl StdioReplyError {
    /// The message of the error.
    pub fn message(&self) -> (r: String)
        ensures
            match *self {
                StdioReplyError::IdMismatch => r@ == "Response ID mismatch"@,
                StdioReplyError::Server { code, message } => r@ == "MCP server error "@ + int_text(code as int)
                    + ": "@ + message@,
                StdioReplyError::Unparsable(raw) => r@ == "Failed to parse MCP server response: "@ + raw@,
            },
    {
        match self {
            StdioReplyError::IdMismatch => String::from_str("Response ID mismatch"),
            StdioReplyError::Server { code, message } => {
                let c = i64_text(*code);
                let a = concat3("MCP server error ", c.as_str(), ": ");
                concat2(a.as_str(), message.as_str())
            },
            StdioReplyError::Unparsable(raw) => concat2("Failed to parse MCP server response: ", raw.as_str()),
        }
    }
}

/// The id of a JSON-RPC reply, where it is a `u32`.
pub open spec fn reply_id(reply: Seq<char>) -> Option<u64> {
    match json_u64_at(reply, "/id"@) {
        Some(n) => if n <= u32::MAX {
            Some(n)
        } else {
            None
        },
        None => None,
    }
}

/// The reply is a JSON-RPC success: a string `jsonrpc`, a `u32` id and a
/// result.
pub open spec fn is_success_reply(reply: Seq<char>) -> bool {
    json_str_at(reply, "/jsonrpc"@) is Some && reply_id(reply) is Some && json_text_at(reply, "/result"@) is Some
}

/// The error code of a reply, where it is an `i32`.
pub open spec fn error_code(reply: Seq<char>) -> Option<i64> {
    match json_i64_at(reply, "/error/code"@) {
        Some(c) => if i32::MIN <= c <= i32::MAX {
            Some(c)
        } else {
            None
        },
        None => None,
    }
}

/// The reply is a JSON-RPC error: a string `jsonrpc`, a `u32` id, and an
/// error with an `i32` code and a string message.
pub open spec fn is_error_reply(reply: Seq<char>) -> bool {
    &&& json_str_at(reply, "/jsonrpc"@) is Some
    &&& reply_id(reply) is Some
    &&& error_code(reply) is Some
    &&& json_str_at(reply, "/error/message"@) is Some
}

/// Reads the reply line to the stdio request with id `request_id`: the JSON
/// text of its result, or why it is not used.
pub fn stdio_reply(reply: &str, request_id: u32) -> (r: Result<String, StdioReplyError>)
    ensures
        is_success_reply(reply@) ==> if reply_id(reply@) == Some(request_id as u64) {
            r matches Ok(s) && json_text_at(reply@, "/result"@) == Some(s@)
        } else {
            r == Err::<String, StdioReplyError>(StdioReplyError::IdMismatch)
        },
        !is_success_reply(reply@) && is_error_reply(reply@) ==> if reply_id(reply@) == Some(request_id as u64) {
            r matches Err(StdioReplyError::Server { code, message }) && error_code(reply@) == Some(code)
                && json_str_at(reply@, "/error/message"@) == Some(message@)
        } else {
            r == Err::<String, StdioReplyError>(StdioReplyError::IdMismatch)
        },
        !is_success_reply(reply@) && !is_error_reply(reply@) ==> (r matches Err(StdioReplyError::Unparsable(raw))
            && raw@ == reply@),
{
    let jsonrpc = str_at(reply, "/jsonrpc");
    let id = match u64_at(reply, "/id") {
        Some(n) => if n <= 0xffff_ffffu64 {
            Some(n)
        } else {
            None
        },
        None => None,
    };
    let result = text_at(reply, "/result");
    match (jsonrpc.is_some(), id, result) {
        (true, Some(n), Some(s)) => {
            return if n == request_id as u64 {
                Ok(s)
            } else {
                Err(StdioReplyError::IdMismatch)
            };
        },
        _ => {},
    }
    let code = match i64_at(reply, "/error/code") {
        Some(c) => if -0x8000_0000i64 <= c && c <= 0x7fff_ffffi64 {
            Some(c)
        } else {
            None
        },
        None => None,
    };
    let message = str_at(reply, "/error/message");
    match (jsonrpc, id, code, message) {
        (Some(_), Some(n), Some(c), Some(m)) => {
            if n == request_id as u64 {
                Err(StdioReplyError::Server { code: c, message: m })
            } else {
                Err(StdioReplyError::IdMismatch)
            }
        },
        _ => Err(StdioReplyError::Unparsable(to_owned_string(reply))),
    }
}

/// The ids of stdio requests: 1, 2, 3, and so on.
pub struct RequestIds {
    next: u32,
}

impl RequestIds {
    /// The id the next request gets.
    pub closed spec fn next_id(&self) -> u32 {
        self.next
    }

    /// Ids starting at 1.
    pub fn new() -> (r: Self)
        ensures
            r.next_id() == 1,
    {
        RequestIds { next: 1 }
    }

    /// The id the next request gets.
    pub fn peek(&self) -> (r: u32)
        ensures
            r == self.next_id(),
    {
        self.next
    }

    /// Gives the next id and moves past it.
    pub fn take(&mut self) -> (r: u32)
        requires
            old(self).next_id() < u32::MAX,
        ensures
            r == old(self).next_id(),
            final(self).next_id() == old(self).next_id() + 1,
    {
        let r = self.next;
        self.next = self.next + 1;
        r
    }
}

/// The endpoint of an MCP server reached over HTTP.
pub struct HttpMcpConnection {
    base_url: String,
    access_token: Option<String>,
    api_key: Option<String>,
    server_name: String,
}

impl HttpMcpConnection {
    /// The URL requests go to.
    pub closed spec fn url(&self) -> Seq<char> {
        self.base_url@
    }

    /// The name of the server.
    pub closed spec fn name(&self) -> Seq<char> {
        self.server_name@
    }

    /// The token and key sent with requests.
    pub closed spec fn credentials(&self) -> (Option<Seq<char>>, Option<Seq<char>>) {
        (self.access_token.deep_view(), self.api_key.deep_view())
    }

    /// An endpoint for a configured server at `url`.
    pub fn new(config: &McpServerConfig, url: String, access_token: Option<String>, api_key: Option<String>) -> (r:
        Self)
        ensures
            r.url() == url@,
            r.name() == config.name@,
            r.credentials() == (access_token.deep_view(), api_key.deep_view()),
    {
        HttpMcpConnection { base_url: url, access_token, api_key, server_name: config.name.clone() }
    }

    /// The URL requests go to.
    pub fn base_url(&self) -> (r: &str)
        ensures
            r@ == self.url(),
    {
        self.base_url.as_str()
    }

    /// The name of the server.
    pub fn server_name(&self) -> (r: &str)
        ensures
            r@ == self.name(),
    {
        self.server_name.as_str()
    }

    /// The headers of every request to this server.
    pub fn headers(&self) -> (r: Vec<(String, String)>)
        ensures
            r@.map_values(|p: (String, String)| (p.0@, p.1@)) == header_list(self.credentials().0, self.credentials().1),
    {
        request_headers(&self.access_token, &self.api_key)
    }
}

/// A tool of an MCP server as a tool of the agent: calls go to the
/// connection registered under `connection_id`.
#[derive(Debug)]
pub struct McpToolAdapter {
    name: String,
    description: String,
    parameters: String,
    connection_id: String,
}

impl Clone for McpToolAdapter {
    fn clone(&self) -> (r: Self)
        ensures
            r == *self,
    {
        McpToolAdapter {
            name: self.name.clone(),
            description: self.description.clone(),
            parameters: self.parameters.clone(),
            connection_id: self.connection_id.clone(),
        }
    }
}

impl McpToolAdapter {
    /// Name, description, parameter schema and connection, as text.
    pub closed spec fn parts(&self) -> (Seq<char>, Seq<char>, Seq<char>, Seq<char>) {
        (self.name@, self.description@, self.parameters@, self.connection_id@)
    }

    /// An adapter for a tool.
    pub fn new(name: String, description: String, parameters: String, connection_id: String) -> (r: Self)
        ensures
            r.parts() == (name@, description@, parameters@, connection_id@),
    {
        McpToolAdapter { name, description, parameters, connection_id }
    }

    /// An adapter for a discovered tool.
    pub fn for_definition(def: &McpToolDefinition, connection_id: &str) -> (r: Self)
        ensures
            r.parts() == (def.name@, def.description@, def.input_schema@, connection_id@),
    {
        McpToolAdapter {
            name: def.name.clone(),
            description: def.description.clone(),
            parameters: def.input_schema.clone(),
            connection_id: to_owned_string(connection_id),
        }
    }

    /// The tool's name.
    pub fn name(&self) -> (r: String)
        ensures
            r@ == self.parts().0,
    {
        self.name.clone()
    }

    /// The tool's description.
    pub fn description(&self) -> (r: String)
        ensures
            r@ == self.parts().1,
    {
        self.description.clone()
    }

    /// The JSON text of the tool's parameter schema.
    pub fn parameters(&self) -> (r: String)
        ensures
            r@ == self.parts().2,
    {
        self.parameters.clone()
    }

    /// The kind of tool: a tool offered by an MCP server is generic.
    pub fn profile(&self) -> (r: ToolProfile)
        ensures
            r == ToolProfile::Generic,
    {
        ToolProfile::Generic
    }

    /// The connection the tool's calls go to.
    pub fn connection_id(&self) -> (r: &str)
        ensures
            r@ == self.parts().3,
    {
        self.connection_id.as_str()
    }

    /// The description of the tool sent to the model.
    pub fn definition(&self) -> (t: Tool)
        ensures
            t.kind@ == "function"@,
            t.function.name@ == self.parts().0,
            t.function.description@ == self.parts().1,
            t.function.parameters@ == self.parts().2,
    {
        Tool::new(self.name.as_str(), self.description.as_str(), self.parameters.clone())
    }
}

/// Adapters for all tools discovered on one connection, in order.
pub fn adapters_for(defs: &Vec<McpToolDefinition>, connection_id: &str) -> (r: Vec<McpToolAdapter>)
    ensures
        r@.len() == defs@.len(),
        forall|i: int|
            0 <= i < defs@.len() ==> #[trigger] r@[i].parts() == (
                defs@[i].name@,
                defs@[i].description@,
                defs@[i].input_schema@,
                connection_id@,
            ),
{
    let mut out: Vec<McpToolAdapter> = Vec::new();
    let mut i: usize = 0;
    while i < defs.len()
        invariant
            i <= defs.len(),
            out@.len() == i,
            forall|j: int|
                0 <= j < i ==> #[trigger] out@[j].parts() == (
                    defs@[j].name@,
                    defs@[j].description@,
                    defs@[j].input_schema@,
                    connection_id@,
                ),
        decreases defs.len() - i,
    {
        out.push(McpToolAdapter::for_definition(&defs[i], connection_id));
        i = i + 1;
    }
    out
}

} // verus!

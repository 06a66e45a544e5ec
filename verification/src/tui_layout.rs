//! What the terminal interface shows: the text of each chat message, how
//! many rows it takes, where the messages go in the chat area, and the text
//! of the switcher panel. Drawing it is left to the program around the
//! library.
use vstd::prelude::*;
use crate::json::{json_pretty_text, pretty_text};
use crate::status_table::StatusTable;
use crate::switcher::SwitcherSelection;
use crate::text::{concat2, concat3, digits, ends_with, split_seq, split_str, str_eq, to_owned_string, u64_text};
use crate::tui_messages::{Message, MessageView};
use crate::tui_state::Rect;
use crate::types::ToolCall;

verus! {

/// A line without the carriage return that ended it, if any.
pub open spec fn strip_cr(l: Seq<char>) -> Seq<char> {
    if l.len() > 0 && l.last() == '\r' {
        l.drop_last()
    } else {
        l
    }
}

/// The lines of a text as `str::lines` gives them: it is cut at each
/// newline, a carriage return before a newline is dropped, and a newline at
/// the very end starts no further line.
pub open spec fn lines_of(s: Seq<char>) -> Seq<Seq<char>> {
    let p = split_seq(s, seq!['\n']);
    let head = p.drop_last().map_values(|l: Seq<char>| strip_cr(l));
    if p.len() == 0 || p.last().len() == 0 {
        head
    } else {
        head.push(p.last())
    }
}

fn strip_cr_exec(l: &str) -> (r: String)
    ensures
        r@ == strip_cr(l@),
{
    proof {
        reveal_strlit("\r");
    }
    assert("\r"@ =~= seq!['\r']);
    if ends_with(l, "\r") {
        let n = l.unicode_len();
        assert(l@.subrange(l@.len() - 1, l@.len() as int)[0] == l@.last());
        let r = to_owned_string(l.substring_char(0, n - 1));
        assert(r@ =~= l@.drop_last());
        r
    } else {
        assert(!(l@.len() > 0 && l@.last() == '\r')) by {
            if l@.len() > 0 && l@.last() == '\r' {
                assert(l@.subrange(l@.len() - 1, l@.len() as int) =~= seq!['\r']);
            }
        }
        to_owned_string(l)
    }
}

/// Splits a text into its lines.
pub fn lines(s: &str) -> (r: Vec<String>)
    ensures
        r.deep_view() == lines_of(s@),
{
    proof {
        reveal_strlit("\n");
    }
    let pieces = split_str(s, "\n");
    assert("\n"@ =~= seq!['\n']);
    let ghost p = split_seq(s@, seq!['\n']);
    assert(pieces@.map_values(|t: String| t@) == p);
    let mut out: Vec<String> = Vec::new();
    let n = pieces.len();
    if n == 0 {
        assert(out.deep_view() =~= lines_of(s@));
        return out;
    }
    let mut i: usize = 0;
    while i + 1 < n
        invariant
            n == pieces@.len(),
            n >= 1,
            i + 1 <= n,
            pieces@.map_values(|t: String| t@) == p,
            out.deep_view() == p.drop_last().take(i as int).map_values(|l: Seq<char>| strip_cr(l)),
        decreases n - i,
    {
        let ghost prev = out.deep_view();
        out.push(strip_cr_exec(pieces[i].as_str()));
        assert(p[i as int] == pieces@[i as int]@);
        assert(out.deep_view() =~= prev.push(strip_cr(p[i as int])));
        assert(p.drop_last().take(i + 1).map_values(|l: Seq<char>| strip_cr(l)) =~= p.drop_last().take(
            i as int,
        ).map_values(|l: Seq<char>| strip_cr(l)).push(strip_cr(p[i as int])));
        i = i + 1;
    }
    assert(p.drop_last().take(i as int) =~= p.drop_last());
    assert(p.last() == pieces@[n - 1]@);
    if pieces[n - 1].as_str().unicode_len() > 0 {
        let ghost prev = out.deep_view();
        out.push(pieces[n - 1].clone());
        assert(out.deep_view() =~= prev.push(p.last()));
    }
    out
}

/// The preview of a collapsed message: its first three lines and an
/// ellipsis when it has more than three; otherwise, for reasoning, its
/// first line (or a placeholder when it has none), and for tool output the
/// whole text.
pub open spec fn collapsed_text(content: Seq<char>, reasoning: bool) -> Seq<char> {
    let ls = lines_of(content);
    if ls.len() > 3 {
        ls[0] + "\n"@ + ls[1] + "\n"@ + ls[2] + "..."@
    } else if reasoning {
        if ls.len() > 0 {
            ls[0]
        } else {
            "Thinking..."@
        }
    } else {
        content
    }
}

/// The preview of a collapsed message.
pub fn collapsed_preview(content: &str, reasoning: bool) -> (r: String)
    ensures
        r@ == collapsed_text(content@, reasoning),
{
    let ls = lines(content);
    if ls.len() > 3 {
        let a = concat3(ls[0].as_str(), "\n", ls[1].as_str());
        let b = concat3(a.as_str(), "\n", ls[2].as_str());
        let r = concat2(b.as_str(), "...");
        assert(ls.deep_view()[0] == ls@[0]@ && ls.deep_view()[1] == ls@[1]@ && ls.deep_view()[2] == ls@[2]@);
        r
    } else if reasoning {
        if ls.len() > 0 {
            assert(ls.deep_view()[0] == ls@[0]@);
            ls[0].clone()
        } else {
            String::from_str("Thinking...")
        }
    } else {
        to_owned_string(content)
    }
}

/// The text a chat message stands for, as used to size it.
pub open spec fn sizing_text(m: MessageView, confirmation: Seq<char>) -> Seq<char> {
    match m {
        MessageView::User(c) => c,
        MessageView::Agent(c) => c,
        MessageView::Thinking(c, expanded) => if expanded {
            c
        } else {
            collapsed_text(c, true)
        },
        MessageView::ToolOutput(c, expanded) => if expanded {
            c
        } else {
            collapsed_text(c, false)
        },
        MessageView::ToolConfirmation(_) => confirmation,
    }
}

/// The arguments of a tool call pretty-printed, or a notice when they are
/// not JSON.
pub open spec fn pretty_arguments(arguments: Seq<char>) -> Seq<char> {
    match json_pretty_text(arguments) {
        Some(p) => p,
        None => "Invalid JSON"@,
    }
}

/// The request for approval of a list of tool calls, as text.
pub open spec fn confirmation_text(calls: Seq<ToolCall>) -> Seq<char>
    decreases calls.len(),
{
    if calls.len() == 0 {
        "Agent wants to use the following tools:\n"@
    } else {
        let c = calls.last();
        confirmation_text(calls.drop_last()) + "- "@ + c.function.name@ + ": \n"@ + pretty_arguments(
            c.function.arguments@,
        )
    }
}

/// Pretty-prints the arguments of a tool call.
pub fn arguments_text(arguments: &str) -> (r: String)
    ensures
        r@ == pretty_arguments(arguments@),
{
    match pretty_text(arguments) {
        Some(p) => p,
        None => String::from_str("Invalid JSON"),
    }
}

/// The text of a request for approval of tool calls.
pub fn confirmation(calls: &Vec<ToolCall>) -> (r: String)
    ensures
        r@ == confirmation_text(calls@) + "Do you approve?"@,
{
    let mut text = String::from_str("Agent wants to use the following tools:\n");
    let mut i: usize = 0;
    while i < calls.len()
        invariant
            i <= calls@.len(),
            text@ == confirmation_text(calls@.take(i as int)),
        decreases calls@.len() - i,
    {
        assert(calls@.take(i + 1).drop_last() =~= calls@.take(i as int));
        assert(calls@.take(i + 1).last() == calls@[i as int]);
        let args = arguments_text(calls[i].function.arguments.as_str());
        let line = concat3("- ", calls[i].function.name.as_str(), ": \n");
        text.append(line.as_str());
        text.append(args.as_str());
        i = i + 1;
    }
    assert(calls@.take(i as int) =~= calls@);
    text.append("Do you approve?");
    text
}

/// The text that a message shows in the chat list (for a request for
/// approval, the full request).
pub fn message_text(m: &Message) -> (r: String)
    ensures
        m matches Message::ToolConfirmation(calls) ==> r@ == confirmation_text(calls@) + "Do you approve?"@,
        !(m is ToolConfirmation) ==> r@ == sizing_text(m@, Seq::empty()),
{
    match m {
        Message::User(c) => c.clone(),
        Message::Agent(_, c) => c.clone(),
        Message::Thinking(_, c, expanded) => if *expanded {
            c.clone()
        } else {
            collapsed_preview(c.as_str(), true)
        },
        Message::ToolOutput(c, expanded) => if *expanded {
            c.clone()
        } else {
            collapsed_preview(c.as_str(), false)
        },
        Message::ToolConfirmation(calls) => confirmation(calls),
    }
}

/// The rows that a text takes when wrapped at `width` columns: each line
/// takes one row per `width` characters, plus one; an empty line one row.
/// With no width, one row per line.
pub open spec fn rows_of(lines: Seq<Seq<char>>, width: nat) -> nat
    decreases lines.len(),
{
    if lines.len() == 0 {
        0
    } else {
        rows_of(lines.drop_last(), width) + if width == 0 {
            1
        } else if lines.last().len() == 0 {
            1
        } else {
            lines.last().len() / width + 1
        }
    }
}

/// A count capped at the largest `usize`.
pub open spec fn capped(n: nat) -> usize {
    if n <= usize::MAX {
        n as usize
    } else {
        usize::MAX
    }
}

/// The rows that a text takes in a chat area `width` columns wide (capped
/// at the largest `usize`).
pub fn text_rows(text: &str, width: usize) -> (r: usize)
    ensures
        r == capped(rows_of(lines_of(text@), width as nat)),
{
    let ls = lines(text);
    let ghost all = ls.deep_view();
    let mut total: usize = 0;
    let mut i: usize = 0;
    while i < ls.len()
        invariant
            i <= ls@.len(),
            all == ls.deep_view(),
            total == capped(rows_of(all.take(i as int), width as nat)),
        decreases ls@.len() - i,
    {
        assert(all.take(i + 1).drop_last() =~= all.take(i as int));
        assert(all.take(i + 1).last() == ls@[i as int]@);
        let n = ls[i].as_str().unicode_len();
        let add: usize = if width == 0 {
            1
        } else if n == 0 {
            1
        } else {
            (n / width).saturating_add(1)
        };
        total = total.saturating_add(add);
        i = i + 1;
    }
    assert(all.take(i as int) =~= all);
    total
}

/// The rows a message takes: its text's rows and two for the border.
pub fn message_height(rows: u16) -> (r: u16)
    requires
        rows <= 65533,
    ensures
        r == rows + 2,
{
    rows + 2
}

/// The area of a message `h` rows high placed `offset` rows above the
/// bottom of the chat area.
pub open spec fn placed_area(inner: Rect, offset: int, h: u16) -> Rect {
    Rect { x: inner.x, y: (inner.y + inner.height - offset - h) as u16, width: inner.width, height: h }
}

/// Where the messages go in the chat area, the newest at the bottom: going
/// back from the last message, each is placed above the previous one while
/// it fits strictly inside the area's height (`limit`); `used` rows are
/// taken already. Each entry is the message's index and its area.
pub open spec fn placed(heights: Seq<u16>, inner: Rect, limit: int, used: int) -> Seq<(usize, Rect)>
    decreases heights.len(),
{
    if heights.len() == 0 {
        Seq::empty()
    } else if used + heights.last() < limit {
        seq![((heights.len() - 1) as usize, placed_area(inner, used, heights.last()))] + placed(
            heights.drop_last(),
            inner,
            limit,
            used + heights.last(),
        )
    } else {
        Seq::empty()
    }
}

/// Places the messages of the given heights in the chat area.
pub fn stack_messages(heights: &Vec<u16>, inner: Rect) -> (r: Vec<(usize, Rect)>)
    requires
        inner.y + inner.height <= u16::MAX,
    ensures
        r@ == placed(heights@, inner, inner.height as int, 0),
{
    let mut out: Vec<(usize, Rect)> = Vec::new();
    let mut used: u32 = 0;
    let mut i: usize = heights.len();
    let mut full = false;
    assert(heights@.take(i as int) =~= heights@);
    assert(out@ + placed(heights@, inner, inner.height as int, 0) =~= placed(heights@, inner, inner.height as int, 0));
    while i > 0 && !full
        invariant
            i <= heights@.len(),
            used <= inner.height,
            placed(heights@, inner, inner.height as int, 0) == out@ + placed(
                heights@.take(i as int),
                inner,
                inner.height as int,
                used as int,
            ),
            full ==> placed(heights@.take(i as int), inner, inner.height as int, used as int) =~= Seq::<
                (usize, Rect),
            >::empty(),
            inner.y + inner.height <= u16::MAX,
        decreases i, (if full { 0int } else { 1int }),
    {
        let h = heights[i - 1];
        let ghost t = heights@.take(i as int);
        assert(t.drop_last() =~= heights@.take(i - 1));
        assert(t.last() == h);
        if used + (h as u32) < (inner.height as u32) {
            let y = inner.y + inner.height - (used as u16) - h;
            let area = Rect { x: inner.x, y, width: inner.width, height: h };
            assert(area == placed_area(inner, used as int, h));
            let ghost before = out@;
            out.push((i - 1, area));
            assert(before + placed(t, inner, inner.height as int, used as int) =~= out@ + placed(
                heights@.take(i - 1),
                inner,
                inner.height as int,
                used + h,
            ));
            used = used + (h as u32);
            i = i - 1;
        } else {
            full = true;
        }
    }
    proof {
        if i == 0 {
            assert(heights@.take(0) =~= Seq::<u16>::empty());
        }
        assert(out@ + Seq::<(usize, Rect)>::empty() =~= out@);
    }
    out
}

/// An entry is listed when it lies in the rows shown: from `scroll` to one
/// row before the panel's height is used up.
pub open spec fn shown(offset: int, scroll: int, rows: int) -> bool {
    !(offset < scroll || offset >= scroll + rows - 1)
}

/// A text, or nothing.
pub open spec fn if_set(b: bool, t: Seq<char>) -> Seq<char> {
    if b {
        t
    } else {
        Seq::empty()
    }
}

/// One entry of the switcher panel: the selection arrow, the name, the
/// agent's status for agents, and whether it is current and selected.
pub open spec fn entry_line(name: Seq<char>, status: Option<Seq<char>>, selected: bool, current: bool) -> Seq<char> {
    " "@ + (if selected {
        "->"@
    } else {
        "  "@
    }) + " ["@ + name + "]"@ + (match status {
        Some(st) => " ["@ + st + "] "@,
        None => Seq::empty(),
    }) + if_set(current, " (current)"@) + if_set(selected, " (selected)"@) + "\n"@
}

/// The status shown for an agent: the one reported under its name, else
/// "Idle".
pub open spec fn status_shown(statuses: Map<Seq<char>, Seq<char>>, name: Seq<char>) -> Seq<char> {
    if statuses.contains_key(name) {
        statuses[name]
    } else {
        "Idle"@
    }
}

/// The listed entries of a list.
pub open spec fn entry_lines(
    items: Seq<Seq<char>>,
    statuses: Option<Map<Seq<char>, Seq<char>>>,
    selected: int,
    current: Seq<char>,
    scroll: int,
    rows: int,
) -> Seq<char>
    decreases items.len(),
{
    if items.len() == 0 {
        Seq::empty()
    } else {
        let k = items.len() - 1;
        entry_lines(items.drop_last(), statuses, selected, current, scroll, rows) + if shown(k, scroll, rows) {
            entry_line(
                items[k],
                match statuses {
                    Some(m) => Some(status_shown(m, items[k])),
                    None => None,
                },
                k == selected,
                items[k] == current,
            )
        } else {
            Seq::empty()
        }
    }
}

/// The line under the entries: the position in a list longer than the
/// panel, and how to use it.
pub open spec fn panel_footer(total: nat, scroll: nat, rows: nat) -> Seq<char> {
    if total > rows {
        "\n... "@ + digits(scroll + rows) + "/"@ + digits(total) + " ... Use Up/Down arrows to navigate, Enter to select."@
    } else {
        "\nUse Up/Down arrows to navigate, Enter to select.\n"@
    }
}

/// The title of the panel for each list.
pub open spec fn panel_title(selection: SwitcherSelection) -> Seq<char> {
    match selection {
        SwitcherSelection::Agent(_) => "Switch Agent (Ctrl+A / Esc to close)"@,
        SwitcherSelection::Session(_) => "Switch Session (Ctrl+S / Esc to close)"@,
        SwitcherSelection::Model(_) => "Switch Model (Ctrl+L / Esc to close)"@,
    }
}

/// The heading of the panel for each list.
pub open spec fn panel_heading(selection: SwitcherSelection) -> Seq<char> {
    match selection {
        SwitcherSelection::Agent(_) => "Available Agents:\n"@,
        SwitcherSelection::Session(_) => "Available Sessions:\n"@,
        SwitcherSelection::Model(_) => "Available Models:\n"@,
    }
}

fn entry_line_exec(name: &str, status: Option<&str>, selected: bool, current: bool) -> (r: String)
    ensures
        r@ == entry_line(
            name@,
            match status {
                Some(st) => Some(st@),
                None => None,
            },
            selected,
            current,
        ),
{
    let mut text = String::from_str(" ");
    text.append(if selected { "->" } else { "  " });
    text.append(" [");
    text.append(name);
    text.append("]");
    let ghost head = text@;
    match status {
        Some(st) => {
            text.append(" [");
            text.append(st);
            text.append("] ");
            assert(text@ =~= head + (" ["@ + st@ + "] "@));
        },
        None => {
            assert(text@ =~= head + Seq::<char>::empty());
        },
    }
    let ghost mid = text@;
    if current {
        text.append(" (current)");
    }
    assert(text@ =~= mid + if_set(current, " (current)"@));
    let ghost mid2 = text@;
    if selected {
        text.append(" (selected)");
    }
    assert(text@ =~= mid2 + if_set(selected, " (selected)"@));
    text.append("\n");
    text
}

fn listed_lines(
    items: &Vec<String>,
    statuses: Option<&StatusTable>,
    selected: usize,
    current: &str,
    scroll: usize,
    rows: usize,
) -> (r: String)
    requires
        rows >= 1,
        scroll + rows <= usize::MAX,
    ensures
        r@ == entry_lines(
            items.deep_view(),
            match statuses {
                Some(t) => Some(t@),
                None => None,
            },
            selected as int,
            current@,
            scroll as int,
            rows as int,
        ),
{
    let ghost all = items.deep_view();
    let ghost st = match statuses {
        Some(t) => Some(t@),
        None => None::<Map<Seq<char>, Seq<char>>>,
    };
    let mut text = String::new();
    let mut i: usize = 0;
    while i < items.len()
        invariant
            i <= items@.len(),
            all == items.deep_view(),
            st == match statuses {
                Some(t) => Some(t@),
                None => None,
            },
            rows >= 1,
            scroll + rows <= usize::MAX,
            text@ == entry_lines(all.take(i as int), st, selected as int, current@, scroll as int, rows as int),
        decreases items@.len() - i,
    {
        assert(all.take(i + 1).drop_last() =~= all.take(i as int));
        assert(all.take(i + 1).last() == items@[i as int]@);
        if !(i < scroll || i >= scroll + rows - 1) {
            let name = items[i].as_str();
            let line = match statuses {
                Some(t) => {
                    let status = match t.get(name) {
                        Some(x) => x.clone(),
                        None => String::from_str("Idle"),
                    };
                    entry_line_exec(name, Some(status.as_str()), i == selected, str_eq(name, current))
                },
                None => entry_line_exec(name, None, i == selected, str_eq(name, current)),
            };
            text.append(line.as_str());
        } else {
            assert(text@ =~= text@ + Seq::<char>::empty());
        }
        i = i + 1;
    }
    assert(all.take(i as int) =~= all);
    text
}

fn panel_footer_exec(total: usize, scroll: usize, rows: usize) -> (r: String)
    requires
        scroll + rows <= usize::MAX,
    ensures
        r@ == panel_footer(total as nat, scroll as nat, rows as nat),
{
    if total > rows {
        let mut text = String::from_str("\n... ");
        text.append(u64_text((scroll + rows) as u64).as_str());
        text.append("/");
        text.append(u64_text(total as u64).as_str());
        text.append(" ... Use Up/Down arrows to navigate, Enter to select.");
        text
    } else {
        String::from_str("\nUse Up/Down arrows to navigate, Enter to select.\n")
    }
}

/// The title and text of the switcher panel for the list selected, with
/// `rows` rows inside the panel.
pub fn switcher_panel(
    selection: SwitcherSelection,
    agents: &Vec<String>,
    current_agent: &str,
    sessions: &Vec<String>,
    current_session: &str,
    models: &Vec<String>,
    current_model: &str,
    scroll: usize,
    rows: usize,
    statuses: &StatusTable,
) -> (r: (&'static str, String))
    requires
        rows >= 1,
        scroll + rows <= usize::MAX,
    ensures
        r.0@ == panel_title(selection),
        r.1@ == panel_heading(selection) + match selection {
            SwitcherSelection::Agent(i) => entry_lines(
                agents.deep_view(),
                Some(statuses@),
                i as int,
                current_agent@,
                scroll as int,
                rows as int,
            ) + panel_footer(agents@.len(), scroll as nat, rows as nat),
            SwitcherSelection::Session(i) => entry_lines(
                sessions.deep_view(),
                None,
                i as int,
                current_session@,
                scroll as int,
                rows as int,
            ) + panel_footer(sessions@.len(), scroll as nat, rows as nat),
            SwitcherSelection::Model(i) => entry_lines(
                models.deep_view(),
                None,
                i as int,
                current_model@,
                scroll as int,
                rows as int,
            ) + panel_footer(models@.len(), scroll as nat, rows as nat),
        },
{
    match selection {
        SwitcherSelection::Agent(i) => {
            let body = listed_lines(agents, Some(statuses), i, current_agent, scroll, rows);
            let footer = panel_footer_exec(agents.len(), scroll, rows);
            let text = concat3("Available Agents:\n", body.as_str(), footer.as_str());
            assert(text@ =~= "Available Agents:\n"@ + (body@ + footer@));
            ("Switch Agent (Ctrl+A / Esc to close)", text)
        },
        SwitcherSelection::Session(i) => {
            let body = listed_lines(sessions, None, i, current_session, scroll, rows);
            let footer = panel_footer_exec(sessions.len(), scroll, rows);
            let text = concat3("Available Sessions:\n", body.as_str(), footer.as_str());
            assert(text@ =~= "Available Sessions:\n"@ + (body@ + footer@));
            ("Switch Session (Ctrl+S / Esc to close)", text)
        },
        SwitcherSelection::Model(i) => {
            let body = listed_lines(models, None, i, current_model, scroll, rows);
            let footer = panel_footer_exec(models.len(), scroll, rows);
            let text = concat3("Available Models:\n", body.as_str(), footer.as_str());
            assert(text@ =~= "Available Models:\n"@ + (body@ + footer@));
            ("Switch Model (Ctrl+L / Esc to close)", text)
        },
    }
}

} // verus!

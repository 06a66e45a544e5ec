//! The state of the terminal interface and how keys, clicks and events
//! from the orchestrator change it. Drawing and the terminal itself are
//! handled by the program around the library.

use vstd::prelude::*;
use crate::agents::AgentId;
use crate::status_table::StatusTable;
use crate::switcher::{
    index_down, index_up, pick_echo, pick_of, pick_selected, scroll_after_down, scroll_after_up,
    selected_index, texts, with_index, Switcher, SwitcherPick, SwitcherSelection, PANEL_HEIGHT,
};
use crate::text::{
    concat2, concat3, has_prefix, split_seq, split_str, starts_with, strip_prefix, to_owned_string,
    trim, trim_seq,
};
use crate::tui_messages::{
    apply_stream_chunk, convert_history_to_messages, finish_stream, messages_of_history,
    stream_apply, views_of, last_of, Message, MessageView,
};
use crate::types::{AppEvent, ChatMessage, ToolApprovalResponse, ToolCall};

verus! {

/// The list of commands shown by the help.
pub const HELP_TEXT: &'static str = "Available commands:\n- Ctrl+q: Quit the application\n- Ctrl+a: Toggle agent/session switcher\n- Ctrl+o: Show this help message\n- /switch <session_name>: Switch to a different session\n- Type your message and press Enter to chat\n\nTool approval options (when prompted):\n- 1: Allow tool execution\n- 2: Always allow this tool\n- 3: Always allow this tool for this session\n- 4: Deny tool execution";

/// The list of commands shown by the help, as text.
pub open spec fn help_text() -> Seq<char> {
    HELP_TEXT@
}

/// A screen area.
#[derive(Debug, Clone, Copy, PartialEq, Eq, Structural)]
pub struct Rect {
    pub x: u16,
    pub y: u16,
    pub width: u16,
    pub height: u16,
}

/// The area holds the cell at `column`, `row`.
pub open spec fn rect_contains(r: Rect, column: u16, row: u16) -> bool {
    r.x <= column < r.x + r.width && r.y <= row < r.y + r.height
}

/// Which overlays are shown.
#[derive(Debug, Clone, Copy, PartialEq, Eq, Structural)]
pub struct Overlays {
    pub status: bool,
    pub agent: bool,
    pub session: bool,
    pub model: bool,
    pub help: bool,
}

/// One of the switcher overlays is shown.
pub open spec fn switcher_shown(o: Overlays) -> bool {
    o.agent || o.session || o.model
}

/// The overlays with every switcher closed.
pub open spec fn switchers_closed(o: Overlays) -> Overlays {
    Overlays { agent: false, session: false, model: false, ..o }
}

/// A key of the keyboard, as far as the interface tells keys apart.
#[derive(Debug, Clone, Copy, PartialEq, Eq, Structural)]
pub enum Key {
    Char(char),
    Enter,
    Esc,
    Up,
    Down,
    Other,
}

/// A key press and whether Ctrl was held.
#[derive(Debug, Clone, Copy, PartialEq, Eq, Structural)]
pub struct KeyPress {
    pub key: Key,
    pub ctrl: bool,
}

/// What a key press asks of the program.
#[derive(Debug, PartialEq, Eq)]
pub struct KeyOutcome {
    /// Leave the interface.
    pub quit: bool,
    /// Events to send to the orchestrator, in order.
    pub events: Vec<AppEvent>,
    /// Let the input line handle the key.
    pub forward_to_input: bool,
    /// Clear the input line.
    pub reset_input: bool,
}

/// The lists and current choices the interface knows of.
#[derive(Debug)]
pub struct Choices {
    pub current_agent: String,
    pub available_agents: Vec<String>,
    pub current_model: String,
    pub available_models: Vec<String>,
    pub session_name: String,
    pub available_sessions: Vec<String>,
}

/// The state of the terminal interface.
#[derive(Debug)]
pub struct TuiState {
    pub messages: Vec<Message>,
    pub tool_calls: Vec<ToolCall>,
    pub is_awaiting_confirmation: bool,
    pub overlays: Overlays,
    pub choices: Choices,
    pub switcher: Switcher,
    pub agent_statuses: StatusTable,
    pub message_positions: Vec<(usize, Rect)>,
}

/// The length of the list a selection is in.
pub open spec fn list_len(c: Choices, s: SwitcherSelection) -> usize {
    match s {
        SwitcherSelection::Agent(_) => c.available_agents@.len() as usize,
        SwitcherSelection::Session(_) => c.available_sessions@.len() as usize,
        SwitcherSelection::Model(_) => c.available_models@.len() as usize,
    }
}

/// The switcher after moving up.
pub open spec fn switcher_up(s: Switcher, len: usize) -> Switcher {
    if len == 0 {
        s
    } else {
        let n = index_up(selected_index(s.selection), len);
        Switcher { selection: with_index(s.selection, n), scroll: scroll_after_up(s.scroll, n, PANEL_HEIGHT) }
    }
}

/// The switcher after moving down.
pub open spec fn switcher_down(s: Switcher, len: usize) -> Switcher {
    if len == 0 {
        s
    } else {
        let n = index_down(selected_index(s.selection), len);
        Switcher {
            selection: with_index(s.selection, n),
            scroll: scroll_after_down(s.scroll, n, PANEL_HEIGHT),
        }
    }
}

/// Keys that the open switcher handles itself.
pub open spec fn switcher_key(o: Overlays, k: KeyPress) -> bool {
    ||| k.key == Key::Char('q') && k.ctrl
    ||| k.key == Key::Char('a') && k.ctrl && o.agent
    ||| k.key == Key::Char('s') && k.ctrl && o.session
    ||| k.key == Key::Char('m') && k.ctrl && o.model
    ||| k.key == Key::Esc
    ||| k.key == Key::Up
    ||| k.key == Key::Down
    ||| k.key == Key::Enter
}

/// Nothing is asked of the program.
pub open spec fn quiet(out: KeyOutcome) -> bool {
    !out.quit && out.events@.len() == 0 && !out.forward_to_input && !out.reset_input
}

/// Only the overlays may have changed.
pub open spec fn only_overlays(pre: TuiState, post: TuiState) -> bool {
    &&& post.messages == pre.messages
    &&& post.tool_calls == pre.tool_calls
    &&& post.is_awaiting_confirmation == pre.is_awaiting_confirmation
    &&& post.choices == pre.choices
    &&& post.switcher == pre.switcher
    &&& post.agent_statuses == pre.agent_statuses
    &&& post.message_positions == pre.message_positions
}

/// The event that carries out a pick.
pub open spec fn pick_event(pick: SwitcherPick, session: Seq<char>, e: AppEvent) -> bool {
    match pick {
        SwitcherPick::Agent { agent_kind, .. } => e matches AppEvent::SwitchAgent(k, s) && k@
            == agent_kind@ && s@ == session,
        SwitcherPick::Session(n) => e matches AppEvent::SwitchSession(s) && s@ == n@,
        SwitcherPick::Model(m) => e matches AppEvent::SwitchModel(s) && s@ == m@,
        SwitcherPick::Nothing => false,
    }
}

/// The command echoed for a pick.
pub open spec fn echo_of(pick: SwitcherPick) -> Seq<char> {
    match pick {
        SwitcherPick::Agent { entry, .. } => "/switch agent "@ + entry@,
        SwitcherPick::Session(s) => "/switch "@ + s@,
        SwitcherPick::Model(m) => "/model "@ + m@,
        SwitcherPick::Nothing => Seq::empty(),
    }
}

/// How the open switcher handles a key it handles.
pub open spec fn switcher_step(pre: TuiState, k: KeyPress, post: TuiState, out: KeyOutcome) -> bool {
    if k.key == Key::Up || k.key == Key::Down {
        &&& quiet(out)
        &&& post.switcher == (if k.key == Key::Up {
            switcher_up(pre.switcher, list_len(pre.choices, pre.switcher.selection))
        } else {
            switcher_down(pre.switcher, list_len(pre.choices, pre.switcher.selection))
        })
        &&& post.overlays == pre.overlays
        &&& post.messages == pre.messages
        &&& post.choices == pre.choices
        &&& post.is_awaiting_confirmation == pre.is_awaiting_confirmation
    } else if k.key == Key::Enter {
        exists|pick: SwitcherPick| {
            &&& #[trigger] pick_of(
                pre.switcher.selection,
                texts(pre.choices.available_agents@),
                pre.choices.current_agent@,
                texts(pre.choices.available_sessions@),
                pre.choices.session_name@,
                texts(pre.choices.available_models@),
                pre.choices.current_model@,
                pick,
            )
            &&& !out.quit && !out.forward_to_input && !out.reset_input
            &&& post.overlays == switchers_closed(pre.overlays)
            &&& post.switcher == pre.switcher
            &&& post.is_awaiting_confirmation == pre.is_awaiting_confirmation
            &&& post.choices.available_agents == pre.choices.available_agents
            &&& post.choices.available_sessions == pre.choices.available_sessions
            &&& post.choices.available_models == pre.choices.available_models
            &&& post.choices.session_name == pre.choices.session_name
            &&& post.choices.current_model == pre.choices.current_model
            &&& if pick == SwitcherPick::Nothing {
                &&& out.events@.len() == 0
                &&& post.messages == pre.messages
                &&& post.choices.current_agent == pre.choices.current_agent
            } else {
                &&& out.events@.len() == 1
                &&& pick_event(pick, pre.choices.session_name@, out.events@[0])
                &&& views_of(post.messages@) == views_of(pre.messages@).push(
                    MessageView::User(echo_of(pick)),
                )
                &&& (pick matches SwitcherPick::Agent { entry, .. } ==> post.choices.current_agent@
                    == entry@)
                &&& (!(pick is Agent) ==> post.choices.current_agent == pre.choices.current_agent)
            }
        }
    } else {
        &&& quiet(out)
        &&& only_overlays(pre, post)
        &&& post.overlays == (if k.key == Key::Char('a') && k.ctrl && !(k.key == Key::Char('q')) {
            Overlays { agent: false, ..pre.overlays }
        } else if k.key == Key::Char('s') && k.ctrl {
            Overlays { session: false, ..pre.overlays }
        } else if k.key == Key::Char('m') && k.ctrl {
            Overlays { model: false, ..pre.overlays }
        } else {
            switchers_closed(pre.overlays)
        })
    }
}

/// The answer given by a key while a tool request waits, if any.
pub open spec fn answer_of_key(k: Key) -> Option<ToolApprovalResponse> {
    if k == Key::Char('1') {
        Some(ToolApprovalResponse::Allow)
    } else if k == Key::Char('2') {
        Some(ToolApprovalResponse::AlwaysAllow)
    } else if k == Key::Char('3') {
        Some(ToolApprovalResponse::AlwaysAllowSession)
    } else if k == Key::Char('4') {
        Some(ToolApprovalResponse::Deny)
    } else {
        None
    }
}

/// The text echoed for each answer.
pub open spec fn answer_label(r: ToolApprovalResponse) -> Seq<char> {
    match r {
        ToolApprovalResponse::Allow => "Allowed"@,
        ToolApprovalResponse::AlwaysAllow => "Always Allowed"@,
        ToolApprovalResponse::AlwaysAllowSession => "Always Allowed for Session"@,
        ToolApprovalResponse::Deny => "Denied"@,
    }
}

/// How a key is handled while a tool request waits.
pub open spec fn confirmation_step(pre: TuiState, k: KeyPress, post: TuiState, out: KeyOutcome) -> bool {
    &&& !out.quit && !out.forward_to_input && !out.reset_input
    &&& post.overlays == pre.overlays
    &&& post.switcher == pre.switcher
    &&& post.choices == pre.choices
    &&& post.tool_calls == pre.tool_calls
    &&& match answer_of_key(k.key) {
        Some(r) => {
            &&& out.events@ == seq![AppEvent::ToolApproval(r)]
            &&& views_of(post.messages@) == views_of(pre.messages@).push(MessageView::User(answer_label(r)))
            &&& !post.is_awaiting_confirmation
        },
        None => {
            &&& out.events@.len() == 0
            &&& post.messages == pre.messages
            &&& post.is_awaiting_confirmation == pre.is_awaiting_confirmation
        },
    }
}

/// The events and echo for a line of input: `/switch <name>` switches
/// session, `/model <name>` switches model (names trimmed), anything else
/// is sent to the agent.
pub open spec fn input_events(input: Seq<char>, events: Seq<AppEvent>) -> bool {
    if has_prefix(input, "/switch "@) {
        events.len() == 1 && (events[0] matches AppEvent::SwitchSession(s) && s@ == trim_seq(
            input.subrange(8, input.len() as int),
        ))
    } else if has_prefix(input, "/model "@) {
        events.len() == 1 && (events[0] matches AppEvent::SwitchModel(s) && s@ == trim_seq(
            input.subrange(7, input.len() as int),
        ))
    } else {
        events.len() == 1 && (events[0] matches AppEvent::UserInput(s) && s@ == input)
    }
}

/// Toggling one switcher closes the others.
pub open spec fn toggled(o: Overlays, which: char) -> Overlays {
    if which == 'a' {
        Overlays { agent: !o.agent, session: false, model: false, ..o }
    } else if which == 's' {
        Overlays { session: !o.session, agent: false, model: false, ..o }
    } else {
        Overlays { model: !o.model, agent: false, session: false, ..o }
    }
}

/// How a key is handled otherwise.
pub open spec fn main_step(pre: TuiState, k: KeyPress, input: Seq<char>, post: TuiState, out: KeyOutcome) -> bool {
    &&& post.tool_calls == pre.tool_calls
    &&& post.is_awaiting_confirmation == pre.is_awaiting_confirmation
    &&& post.choices == pre.choices
    &&& if k.key == Key::Char('q') && k.ctrl {
        out.quit && out.events@.len() == 0 && !out.forward_to_input && !out.reset_input
            && post.overlays == pre.overlays && post.messages == pre.messages && post.switcher
            == pre.switcher
    } else if k.key == Key::Char('o') && k.ctrl {
        quiet(out) && post.overlays == Overlays { help: !pre.overlays.help, ..pre.overlays }
            && post.messages == pre.messages && post.switcher == pre.switcher
    } else if (k.key == Key::Char('a') || k.key == Key::Char('s') || k.key == Key::Char('l')) && k.ctrl {
        let which = if k.key == Key::Char('a') {
            'a'
        } else if k.key == Key::Char('s') {
            's'
        } else {
            'l'
        };
        let o = toggled(pre.overlays, which);
        let opened = if which == 'a' {
            o.agent
        } else if which == 's' {
            o.session
        } else {
            o.model
        };
        &&& post.overlays == o
        &&& post.messages == pre.messages
        &&& !out.quit && !out.forward_to_input && !out.reset_input
        &&& if opened {
            &&& post.switcher.scroll == 0
            &&& post.switcher.selection == (if which == 'a' {
                SwitcherSelection::Agent(0)
            } else if which == 's' {
                SwitcherSelection::Session(0)
            } else {
                SwitcherSelection::Model(0)
            })
            &&& out.events@ == (if which == 's' {
                seq![AppEvent::RefreshSessions]
            } else {
                Seq::empty()
            })
        } else {
            post.switcher == pre.switcher && out.events@.len() == 0
        }
    } else if k.key == Key::Enter {
        &&& post.overlays == pre.overlays
        &&& post.switcher == pre.switcher
        &&& !out.quit && !out.forward_to_input
        &&& if input.len() == 0 {
            out.events@.len() == 0 && !out.reset_input && post.messages == pre.messages
        } else {
            &&& out.reset_input
            &&& input_events(input, out.events@)
            &&& views_of(post.messages@) == views_of(pre.messages@).push(MessageView::User(input))
        }
    } else {
        &&& out.forward_to_input
        &&& !out.quit && !out.reset_input && out.events@.len() == 0
        &&& post.overlays == pre.overlays
        &&& post.messages == pre.messages
        &&& post.switcher == pre.switcher
    }
}

/// How the interface handles a key press, `input` being the text of the
/// input line.
pub open spec fn key_step(pre: TuiState, k: KeyPress, input: Seq<char>, post: TuiState, out: KeyOutcome) -> bool {
    &&& post.agent_statuses == pre.agent_statuses
    &&& post.message_positions == pre.message_positions
    &&& if switcher_shown(pre.overlays) && switcher_key(pre.overlays, k) {
        switcher_step(pre, k, post, out)
    } else if pre.is_awaiting_confirmation {
        confirmation_step(pre, k, post, out)
    } else {
        main_step(pre, k, input, post, out)
    }
}

fn no_outcome() -> (r: KeyOutcome)
    ensures
        quiet(r),
{
    KeyOutcome { quit: false, events: Vec::new(), forward_to_input: false, reset_input: false }
}

impl TuiState {
    /// The interface at start: the stored history shown, no overlay, the
    /// agent list selected.
    pub fn new(
        session_name: String,
        session_history: Vec<ChatMessage>,
        available_agents: Vec<String>,
        current_model: String,
        available_models: Vec<String>,
        available_sessions: Vec<String>,
    ) -> (r: Self)
        ensures
            views_of(r.messages@) == messages_of_history(session_history@),
            r.tool_calls@.len() == 0,
            !r.is_awaiting_confirmation,
            r.overlays == (Overlays { status: false, agent: false, session: false, model: false, help: false }),
            r.choices.current_agent == session_name,
            r.choices.session_name == session_name,
            r.choices.available_agents == available_agents,
            r.choices.current_model == current_model,
            r.choices.available_models == available_models,
            r.choices.available_sessions == available_sessions,
            r.switcher == (Switcher { selection: SwitcherSelection::Agent(0), scroll: 0 }),
            r.agent_statuses@ == Map::<Seq<char>, Seq<char>>::empty(),
            r.message_positions@.len() == 0,
    {
        TuiState {
            messages: convert_history_to_messages(session_history),
            tool_calls: Vec::new(),
            is_awaiting_confirmation: false,
            overlays: Overlays { status: false, agent: false, session: false, model: false, help: false },
            choices: Choices {
                current_agent: session_name.clone(),
                available_agents,
                current_model,
                available_models,
                session_name,
                available_sessions,
            },
            switcher: Switcher { selection: SwitcherSelection::Agent(0), scroll: 0 },
            agent_statuses: StatusTable::new(),
            message_positions: Vec::new(),
        }
    }

    fn selection_len(&self) -> (r: usize)
        ensures
            r == list_len(self.choices, self.switcher.selection),
    {
        match self.switcher.selection {
            SwitcherSelection::Agent(_) => self.choices.available_agents.len(),
            SwitcherSelection::Session(_) => self.choices.available_sessions.len(),
            SwitcherSelection::Model(_) => self.choices.available_models.len(),
        }
    }

    /// Handles a key press; `input` is the text of the input line.
    pub fn handle_key(&mut self, key: KeyPress, input: &str) -> (r: KeyOutcome)
        requires
            old(self).switcher.scroll + PANEL_HEIGHT <= usize::MAX,
            selected_index(old(self).switcher.selection) < usize::MAX,
        ensures
            key_step(*old(self), key, input@, *final(self), r),
    {
        let o = self.overlays;
        if o.agent || o.session || o.model {
            let ctrl = key.ctrl;
            match key.key {
                Key::Char('q') if ctrl => {
                    self.overlays.agent = false;
                    self.overlays.session = false;
                    self.overlays.model = false;
                    return no_outcome();
                },
                Key::Char('a') if ctrl && o.agent => {
                    self.overlays.agent = false;
                    return no_outcome();
                },
                Key::Char('s') if ctrl && o.session => {
                    self.overlays.session = false;
                    return no_outcome();
                },
                Key::Char('m') if ctrl && o.model => {
                    self.overlays.model = false;
                    return no_outcome();
                },
                Key::Esc => {
                    self.overlays.agent = false;
                    self.overlays.session = false;
                    self.overlays.model = false;
                    return no_outcome();
                },
                Key::Up => {
                    let len = self.selection_len();
                    self.switcher.navigate_up(len);
                    return no_outcome();
                },
                Key::Down => {
                    let len = self.selection_len();
                    self.switcher.navigate_down(len);
                    return no_outcome();
                },
                Key::Enter => {
                    return self.select_switcher_item();
                },
                _ => {},
            }
        }
        if self.is_awaiting_confirmation {
            let answer = match key.key {
                Key::Char('1') => Some((ToolApprovalResponse::Allow, "Allowed")),
                Key::Char('2') => Some((ToolApprovalResponse::AlwaysAllow, "Always Allowed")),
                Key::Char('3') => Some(
                    (ToolApprovalResponse::AlwaysAllowSession, "Always Allowed for Session"),
                ),
                Key::Char('4') => Some((ToolApprovalResponse::Deny, "Denied")),
                _ => None,
            };
            let mut out = no_outcome();
            match answer {
                Some((response, label)) => {
                    out.events.push(AppEvent::ToolApproval(response));
                    let ghost before = views_of(self.messages@);
                    self.messages.push(Message::User(to_owned_string(label)));
                    assert(views_of(self.messages@) =~= before.push(MessageView::User(label@)));
                    assert(out.events@ =~= seq![AppEvent::ToolApproval(response)]);
                    self.is_awaiting_confirmation = false;
                },
                None => {},
            }
            return out;
        }
        let mut out = no_outcome();
        assert(out.events@ =~= Seq::<AppEvent>::empty());
        match key.key {
            Key::Char('q') if key.ctrl => {
                out.quit = true;
            },
            Key::Char('o') if key.ctrl => {
                self.overlays.help = !self.overlays.help;
            },
            Key::Char('a') if key.ctrl => {
                self.overlays.agent = !self.overlays.agent;
                self.overlays.session = false;
                self.overlays.model = false;
                if self.overlays.agent {
                    self.switcher = Switcher::open(SwitcherSelection::Agent(0));
                }
            },
            Key::Char('s') if key.ctrl => {
                self.overlays.session = !self.overlays.session;
                self.overlays.agent = false;
                self.overlays.model = false;
                if self.overlays.session {
                    self.switcher = Switcher::open(SwitcherSelection::Session(0));
                    out.events.push(AppEvent::RefreshSessions);
                    assert(out.events@ =~= seq![AppEvent::RefreshSessions]);
                }
            },
            Key::Char('l') if key.ctrl => {
                self.overlays.model = !self.overlays.model;
                self.overlays.agent = false;
                self.overlays.session = false;
                if self.overlays.model {
                    self.switcher = Switcher::open(SwitcherSelection::Model(0));
                }
            },
            Key::Enter => {
                if input.unicode_len() > 0 {
                    let ghost before = views_of(self.messages@);
                    match strip_prefix(input, "/switch ") {
                        Some(rest) => {
                            out.events.push(AppEvent::SwitchSession(to_owned_string(trim(rest))));
                        },
                        None => match strip_prefix(input, "/model ") {
                            Some(rest) => {
                                out.events.push(AppEvent::SwitchModel(to_owned_string(trim(rest))));
                            },
                            None => {
                                out.events.push(AppEvent::UserInput(to_owned_string(input)));
                            },
                        },
                    }
                    proof {
                        reveal_strlit("/switch ");
                        reveal_strlit("/model ");
                    }
                    self.messages.push(Message::User(to_owned_string(input)));
                    assert(views_of(self.messages@) =~= before.push(MessageView::User(input@)));
                    out.reset_input = true;
                }
            },
            _ => {
                out.forward_to_input = true;
            },
        }
        out
    }

    /// Adds the list of commands to the chat, shown expanded.
    pub fn show_help(&mut self)
        ensures
            views_of(final(self).messages@) == views_of(old(self).messages@).push(
                MessageView::ToolOutput(help_text(), true),
            ),
            final(self).overlays == old(self).overlays,
            final(self).switcher == old(self).switcher,
            final(self).choices == old(self).choices,
            final(self).is_awaiting_confirmation == old(self).is_awaiting_confirmation,
    {
        let ghost before = views_of(self.messages@);
        self.messages.push(Message::ToolOutput(String::from_str(HELP_TEXT), true));
        assert(views_of(self.messages@) =~= before.push(MessageView::ToolOutput(help_text(), true)));
    }

    /// Picks the selected entry of the open switcher and closes it.
    fn select_switcher_item(&mut self) -> (r: KeyOutcome)
        requires
            switcher_shown(old(self).overlays),
        ensures
            switcher_step(*old(self), KeyPress { key: Key::Enter, ctrl: false }, *final(self), r),
            final(self).agent_statuses == old(self).agent_statuses,
            final(self).message_positions == old(self).message_positions,
    {
        let pick = pick_selected(
            self.switcher.selection,
            &self.choices.available_agents,
            self.choices.current_agent.as_str(),
            &self.choices.available_sessions,
            self.choices.session_name.as_str(),
            &self.choices.available_models,
            self.choices.current_model.as_str(),
        );
        let mut out = no_outcome();
        let echo = pick_echo(&pick);
        let ghost before = views_of(self.messages@);
        let ghost the_pick = pick;
        match pick {
            SwitcherPick::Nothing => {},
            SwitcherPick::Agent { agent_kind, entry } => {
                out.events.push(AppEvent::SwitchAgent(agent_kind, self.choices.session_name.clone()));
                self.choices.current_agent = entry;
            },
            SwitcherPick::Session(s) => {
                out.events.push(AppEvent::SwitchSession(s));
            },
            SwitcherPick::Model(m) => {
                out.events.push(AppEvent::SwitchModel(m));
            },
        }
        match echo {
            Some(t) => {
                self.messages.push(Message::User(t));
                assert(views_of(self.messages@) =~= before.push(MessageView::User(echo_of(the_pick))));
            },
            None => {},
        }
        self.overlays.agent = false;
        self.overlays.session = false;
        self.overlays.model = false;
        out
    }

    /// A click on the chat: the reasoning or tool output under it (the
    /// first listed area that holds the cell) is expanded or collapsed.
    pub fn toggle_message_expansion(&mut self, column: u16, row: u16)
        requires
            forall|i: int| 0 <= i < old(self).message_positions@.len() ==> {
                let r = (#[trigger] old(self).message_positions@[i]).1;
                r.x + r.width <= u16::MAX && r.y + r.height <= u16::MAX
            },
        ensures
            final(self).message_positions == old(self).message_positions,
            final(self).overlays == old(self).overlays,
            final(self).switcher == old(self).switcher,
            final(self).choices == old(self).choices,
            final(self).is_awaiting_confirmation == old(self).is_awaiting_confirmation,
            views_of(final(self).messages@) == expanded_toggled(
                views_of(old(self).messages@),
                old(self).message_positions@,
                column,
                row,
            ),
    {
        let mut i: usize = 0;
        while i < self.message_positions.len()
            invariant
                i <= self.message_positions@.len(),
                self.messages == old(self).messages,
                self.message_positions == old(self).message_positions,
                self.overlays == old(self).overlays,
                self.switcher == old(self).switcher,
                self.choices == old(self).choices,
                self.is_awaiting_confirmation == old(self).is_awaiting_confirmation,
                forall|i: int| 0 <= i < self.message_positions@.len() ==> {
                    let r = (#[trigger] self.message_positions@[i]).1;
                    r.x + r.width <= u16::MAX && r.y + r.height <= u16::MAX
                },
                forall|k: int| 0 <= k < i ==> !rect_contains((#[trigger] self.message_positions@[k]).1, column, row),
            decreases self.message_positions@.len() - i,
        {
            let (index, area) = self.message_positions[i];
            if column >= area.x && column < area.x + area.width && row >= area.y && row < area.y
                + area.height {
                assert(first_hit(old(self).message_positions@, column, row) == i as int) by {
                    lemma_first_hit(old(self).message_positions@, column, row, i as int);
                }
                if index < self.messages.len() {
                    let ghost before = views_of(self.messages@);
                    let m = self.messages.remove(index);
                    let toggledm = match m {
                        Message::Thinking(who, c, e) => Message::Thinking(who, c, !e),
                        Message::ToolOutput(c, e) => Message::ToolOutput(c, !e),
                        other => other,
                    };
                    self.messages.insert(index, toggledm);
                    assert(views_of(self.messages@) =~= before.update(index as int, flip(before[index as int])));
                }
                return ;
            }
            i = i + 1;
        }
        proof {
            lemma_no_hit(old(self).message_positions@, column, row);
        }
    }

    /// Handles an event from the orchestrator; tells which event, if any,
    /// to send back.
    pub fn handle_app_event(&mut self, event: AppEvent) -> (r: Option<AppEvent>)
        ensures
            app_event_step(*old(self), event, *final(self), r),
    {
        match event {
            AppEvent::AgentStreamChunk(chunk) => {
                apply_stream_chunk(&mut self.messages, chunk.as_str());
                None
            },
            AppEvent::AgentStreamEnd => {
                finish_stream(&mut self.messages);
                None
            },
            AppEvent::AgentMessage(content) => {
                let ghost before = views_of(self.messages@);
                if starts_with(content.as_str(), "Available sessions:") {
                    match strip_prefix(content.as_str(), "Available sessions: ") {
                        Some(list) => {
                            proof {
                                reveal_strlit(", ");
                                reveal_strlit("Available sessions: ");
                            }
                            self.choices.available_sessions = split_str(list, ", ");
                        },
                        None => {},
                    }
                    self.messages.push(Message::ToolOutput(content, true));
                } else {
                    self.messages.push(Message::Agent(AgentId::Ollama, content));
                }
                assert(views_of(self.messages@) =~= before.push(views_of(self.messages@).last()));
                None
            },
            AppEvent::ToolRequest(calls) => {
                self.tool_calls = crate::types::copy_tool_calls(&calls);
                let ghost before = views_of(self.messages@);
                let ghost cv = calls@;
                self.messages.push(Message::ToolConfirmation(calls));
                assert(views_of(self.messages@) =~= before.push(MessageView::ToolConfirmation(cv)));
                self.is_awaiting_confirmation = true;
                None
            },
            AppEvent::ToolResult(name, result) => {
                let mut text = concat3("Tool '", name.as_str(), "' result: ");
                text.append(result.as_str());
                let ghost before = views_of(self.messages@);
                let ghost tv = text@;
                self.messages.push(Message::ToolOutput(text, false));
                assert(views_of(self.messages@) =~= before.push(MessageView::ToolOutput(tv, false)));
                None
            },
            AppEvent::Error(err) => {
                let text = concat2("Error: ", err.as_str());
                let ghost before = views_of(self.messages@);
                let ghost tv = text@;
                self.messages.push(Message::ToolOutput(text, false));
                assert(views_of(self.messages@) =~= before.push(MessageView::ToolOutput(tv, false)));
                None
            },
            AppEvent::SessionSwitched(session_name) => {
                let mut text = concat3(
                    "Switched to session: ",
                    session_name.as_str(),
                    "\nSession history has been restored.",
                );
                self.choices.session_name = session_name;
                let ghost tv = text@;
                self.messages = Vec::new();
                self.messages.push(Message::ToolOutput(text, false));
                assert(views_of(self.messages@) =~= seq![MessageView::ToolOutput(tv, false)]);
                Some(AppEvent::RefreshSessions)
            },
            AppEvent::SessionList(sessions) => {
                self.choices.available_sessions = sessions;
                None
            },
            AppEvent::SessionHistory(history) => {
                self.messages = convert_history_to_messages(history);
                None
            },
            AppEvent::SwitchAgent(agent_name, _) => {
                let text = concat2("Switched to agent: ", agent_name.as_str());
                self.choices.current_agent = agent_name;
                let ghost before = views_of(self.messages@);
                let ghost tv = text@;
                self.messages.push(Message::ToolOutput(text, false));
                assert(views_of(self.messages@) =~= before.push(MessageView::ToolOutput(tv, false)));
                None
            },
            AppEvent::SwitchModel(model_name) => {
                let text = concat2("Switched to model: ", model_name.as_str());
                self.choices.current_model = model_name;
                let ghost before = views_of(self.messages@);
                let ghost tv = text@;
                self.messages.push(Message::ToolOutput(text, false));
                assert(views_of(self.messages@) =~= before.push(MessageView::ToolOutput(tv, false)));
                None
            },
            AppEvent::AgentStatusUpdate(agent_name, status) => {
                self.agent_statuses.insert(agent_name, status);
                None
            },
            _ => None,
        }
    }
}

/// A message with its expansion flipped (reasoning and tool output only).
pub open spec fn flip(m: MessageView) -> MessageView {
    match m {
        MessageView::Thinking(c, e) => MessageView::Thinking(c, !e),
        MessageView::ToolOutput(c, e) => MessageView::ToolOutput(c, !e),
        _ => m,
    }
}

/// The index of the first listed area that holds the cell; the number of
/// areas when none does.
pub open spec fn first_hit(positions: Seq<(usize, Rect)>, column: u16, row: u16) -> int
    decreases positions.len(),
{
    if positions.len() == 0 {
        0
    } else {
        let k = first_hit(positions.drop_last(), column, row);
        if k < positions.len() - 1 {
            k
        } else if rect_contains(positions.last().1, column, row) {
            positions.len() - 1
        } else {
            positions.len() as int
        }
    }
}

proof fn lemma_first_hit(positions: Seq<(usize, Rect)>, column: u16, row: u16, i: int)
    requires
        0 <= i < positions.len(),
        rect_contains(positions[i].1, column, row),
        forall|k: int| 0 <= k < i ==> !rect_contains((#[trigger] positions[k]).1, column, row),
    ensures
        first_hit(positions, column, row) == i,
    decreases positions.len(),
{
    if i < positions.len() - 1 {
        lemma_first_hit(positions.drop_last(), column, row, i);
    } else {
        lemma_no_hit(positions.drop_last(), column, row);
    }
}

proof fn lemma_no_hit(positions: Seq<(usize, Rect)>, column: u16, row: u16)
    requires
        forall|k: int| 0 <= k < positions.len() ==> !rect_contains((#[trigger] positions[k]).1, column, row),
    ensures
        first_hit(positions, column, row) == positions.len(),
    decreases positions.len(),
{
    if positions.len() > 0 {
        lemma_no_hit(positions.drop_last(), column, row);
        assert(!rect_contains(positions[positions.len() - 1].1, column, row));
    }
}

/// The shown messages after a click.
pub open spec fn expanded_toggled(
    msgs: Seq<MessageView>,
    positions: Seq<(usize, Rect)>,
    column: u16,
    row: u16,
) -> Seq<MessageView> {
    let k = first_hit(positions, column, row);
    if k < positions.len() && positions[k].0 < msgs.len() {
        let j = positions[k].0 as int;
        msgs.update(j, flip(msgs[j]))
    } else {
        msgs
    }
}

/// How an event from the orchestrator changes the interface.
pub open spec fn app_event_step(pre: TuiState, e: AppEvent, post: TuiState, r: Option<AppEvent>) -> bool {
    let m0 = views_of(pre.messages@);
    let m1 = views_of(post.messages@);
    &&& post.overlays == pre.overlays
    &&& post.switcher == pre.switcher
    &&& post.message_positions == pre.message_positions
    &&& post.choices.available_agents == pre.choices.available_agents
    &&& post.choices.available_models == pre.choices.available_models
    &&& (e matches AppEvent::SessionSwitched(_) ==> r == Some(AppEvent::RefreshSessions))
    &&& (!(e is SessionSwitched) ==> r is None)
    &&& (!(e is AgentStatusUpdate) ==> post.agent_statuses == pre.agent_statuses)
    &&& (!(e is ToolRequest) ==> post.tool_calls == pre.tool_calls
        && post.is_awaiting_confirmation == pre.is_awaiting_confirmation)
    &&& (!(e is SessionSwitched) ==> post.choices.session_name == pre.choices.session_name)
    &&& (!(e is SwitchAgent) ==> post.choices.current_agent == pre.choices.current_agent)
    &&& (!(e is SwitchModel) ==> post.choices.current_model == pre.choices.current_model)
    &&& (!(e is AgentMessage || e is SessionList) ==> post.choices.available_sessions
        == pre.choices.available_sessions)
    &&& match e {
        AppEvent::AgentStreamChunk(c) => m1 == stream_apply(m0, c@, 100),
        AppEvent::AgentStreamEnd => m1 == (match last_of(m0) {
            Some(MessageView::Agent(c)) => if c.len() == 0 {
                m0.drop_last()
            } else {
                m0
            },
            _ => m0,
        }),
        AppEvent::AgentMessage(c) => if has_prefix(c@, "Available sessions:"@) {
            &&& m1 == m0.push(MessageView::ToolOutput(c@, true))
            &&& if has_prefix(c@, "Available sessions: "@) {
                texts(post.choices.available_sessions@) == split_seq(c@.subrange(20, c@.len() as int), ", "@)
            } else {
                post.choices.available_sessions == pre.choices.available_sessions
            }
        } else {
            m1 == m0.push(MessageView::Agent(c@)) && post.choices.available_sessions
                == pre.choices.available_sessions
        },
        AppEvent::ToolRequest(calls) => {
            &&& post.tool_calls@ == calls@
            &&& m1 == m0.push(MessageView::ToolConfirmation(calls@))
            &&& post.is_awaiting_confirmation
        },
        AppEvent::ToolResult(name, result) => m1 == m0.push(
            MessageView::ToolOutput("Tool '"@ + name@ + "' result: "@ + result@, false),
        ),
        AppEvent::Error(err) => m1 == m0.push(MessageView::ToolOutput("Error: "@ + err@, false)),
        AppEvent::SessionSwitched(n) => {
            &&& post.choices.session_name == n
            &&& m1 == seq![
                MessageView::ToolOutput(
                    "Switched to session: "@ + n@ + "\nSession history has been restored."@,
                    false,
                ),
            ]
        },
        AppEvent::SessionList(s) => post.choices.available_sessions == s && m1 == m0,
        AppEvent::SessionHistory(h) => m1 == messages_of_history(h@),
        AppEvent::SwitchAgent(n, _) => {
            &&& post.choices.current_agent == n
            &&& m1 == m0.push(MessageView::ToolOutput("Switched to agent: "@ + n@, false))
        },
        AppEvent::SwitchModel(n) => {
            &&& post.choices.current_model == n
            &&& m1 == m0.push(MessageView::ToolOutput("Switched to model: "@ + n@, false))
        },
        AppEvent::AgentStatusUpdate(n, s) => post.agent_statuses@ == pre.agent_statuses@.insert(
            n@,
            s@,
        ) && m1 == m0,
        _ => m1 == m0,
    }
}

} // verus!

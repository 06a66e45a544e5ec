//! The switcher overlay of the terminal interface: which list is shown,
//! which entry is selected, how far the list is scrolled, and what picking
//! an entry asks for.

use vstd::prelude::*;
use crate::text::{concat2, contains_str, occurs_in, str_eq, to_owned_string};

verus! {

/// The number of list entries the overlay shows at once.
pub const PANEL_HEIGHT: usize = 13;

/// The list shown by the overlay and the index of its selected entry.
#[derive(Debug, Clone, Copy, PartialEq, Eq, Structural)]
pub enum SwitcherSelection {
    Agent(usize),
    Session(usize),
    Model(usize),
}

/// The selected index.
pub open spec fn selected_index(s: SwitcherSelection) -> usize {
    match s {
        SwitcherSelection::Agent(i) => i,
        SwitcherSelection::Session(i) => i,
        SwitcherSelection::Model(i) => i,
    }
}

/// The selected index.
pub fn selected_index_of(s: SwitcherSelection) -> (r: usize)
    ensures
        r == selected_index(s),
{
    match s {
        SwitcherSelection::Agent(i) => i,
        SwitcherSelection::Session(i) => i,
        SwitcherSelection::Model(i) => i,
    }
}

/// The same list with another selected index.
pub open spec fn with_index(s: SwitcherSelection, i: usize) -> SwitcherSelection {
    match s {
        SwitcherSelection::Agent(_) => SwitcherSelection::Agent(i),
        SwitcherSelection::Session(_) => SwitcherSelection::Session(i),
        SwitcherSelection::Model(_) => SwitcherSelection::Model(i),
    }
}

/// The index above `idx` in a list of `len` entries, wrapping to the last.
pub open spec fn index_up(idx: usize, len: usize) -> usize {
    if idx > 0 {
        (idx - 1) as usize
    } else {
        (len - 1) as usize
    }
}

/// The index below `idx` in a list of `len` entries, wrapping to the first.
pub open spec fn index_down(idx: usize, len: usize) -> usize {
    if idx + 1 < len {
        (idx + 1) as usize
    } else {
        0
    }
}

/// The scroll position after moving up to `new_idx`.
pub open spec fn scroll_after_up(scroll: usize, new_idx: usize, height: usize) -> usize {
    if new_idx < scroll {
        new_idx
    } else if new_idx >= scroll + height {
        (if new_idx >= height {
            new_idx - height
        } else {
            0
        } + 1) as usize
    } else {
        scroll
    }
}

/// The scroll position after moving down to `new_idx`.
pub open spec fn scroll_after_down(scroll: usize, new_idx: usize, height: usize) -> usize {
    if new_idx >= scroll + height {
        (new_idx - height + 1) as usize
    } else if new_idx < scroll {
        0
    } else {
        scroll
    }
}

/// The overlay's selection and scroll position.
#[derive(Debug, Clone, Copy, PartialEq, Eq, Structural)]
pub struct Switcher {
    pub selection: SwitcherSelection,
    pub scroll: usize,
}

/// The scroll position after moving up to `new_idx`.
pub fn adjust_scroll_up(scroll: usize, new_idx: usize, panel_height: usize) -> (r: usize)
    requires
        scroll + panel_height <= usize::MAX,
        panel_height > 0,
    ensures
        r == scroll_after_up(scroll, new_idx, panel_height),
{
    if new_idx < scroll {
        new_idx
    } else if new_idx >= scroll + panel_height {
        new_idx.saturating_sub(panel_height) + 1
    } else {
        scroll
    }
}

/// The scroll position after moving down to `new_idx`.
pub fn adjust_scroll_down(scroll: usize, new_idx: usize, panel_height: usize) -> (r: usize)
    requires
        scroll + panel_height <= usize::MAX,
        panel_height > 0,
    ensures
        r == scroll_after_down(scroll, new_idx, panel_height),
{
    if new_idx >= scroll + panel_height {
        new_idx - panel_height + 1
    } else if new_idx < scroll {
        0
    } else {
        scroll
    }
}

impl Switcher {
    /// The overlay opened on a list: its first entry selected, not scrolled.
    pub fn open(selection: SwitcherSelection) -> (r: Self)
        ensures
            r.selection == with_index(selection, 0),
            r.scroll == 0,
    {
        let selection = match selection {
            SwitcherSelection::Agent(_) => SwitcherSelection::Agent(0),
            SwitcherSelection::Session(_) => SwitcherSelection::Session(0),
            SwitcherSelection::Model(_) => SwitcherSelection::Model(0),
        };
        Switcher { selection, scroll: 0 }
    }

    /// Moves the selection up in a list of `len` entries (nothing happens
    /// when the list is empty).
    pub fn navigate_up(&mut self, len: usize)
        requires
            old(self).scroll + PANEL_HEIGHT <= usize::MAX,
        ensures
            len == 0 ==> *final(self) == *old(self),
            len > 0 ==> {
                let n = index_up(selected_index(old(self).selection), len);
                &&& final(self).selection == with_index(old(self).selection, n)
                &&& final(self).scroll == scroll_after_up(old(self).scroll, n, PANEL_HEIGHT)
            },
    {
        if len == 0 {
            return ;
        }
        let idx = match self.selection {
            SwitcherSelection::Agent(i) => i,
            SwitcherSelection::Session(i) => i,
            SwitcherSelection::Model(i) => i,
        };
        let new_idx = if idx > 0 {
            idx - 1
        } else {
            len - 1
        };
        self.selection =
            match self.selection {
                SwitcherSelection::Agent(_) => SwitcherSelection::Agent(new_idx),
                SwitcherSelection::Session(_) => SwitcherSelection::Session(new_idx),
                SwitcherSelection::Model(_) => SwitcherSelection::Model(new_idx),
            };
        self.scroll = adjust_scroll_up(self.scroll, new_idx, PANEL_HEIGHT);
    }

    /// Moves the selection down in a list of `len` entries (nothing happens
    /// when the list is empty).
    pub fn navigate_down(&mut self, len: usize)
        requires
            old(self).scroll + PANEL_HEIGHT <= usize::MAX,
            selected_index(old(self).selection) < usize::MAX,
        ensures
            len == 0 ==> *final(self) == *old(self),
            len > 0 ==> {
                let n = index_down(selected_index(old(self).selection), len);
                &&& final(self).selection == with_index(old(self).selection, n)
                &&& final(self).scroll == scroll_after_down(old(self).scroll, n, PANEL_HEIGHT)
            },
    {
        if len == 0 {
            return ;
        }
        let idx = match self.selection {
            SwitcherSelection::Agent(i) => i,
            SwitcherSelection::Session(i) => i,
            SwitcherSelection::Model(i) => i,
        };
        let new_idx = if idx + 1 < len {
            idx + 1
        } else {
            0
        };
        self.selection =
            match self.selection {
                SwitcherSelection::Agent(_) => SwitcherSelection::Agent(new_idx),
                SwitcherSelection::Session(_) => SwitcherSelection::Session(new_idx),
                SwitcherSelection::Model(_) => SwitcherSelection::Model(new_idx),
            };
        self.scroll = adjust_scroll_down(self.scroll, new_idx, PANEL_HEIGHT);
    }
}

/// Moving down and then up in a non-empty list comes back to the entry
/// one started from, and so does moving up and then down.
pub proof fn lemma_down_up_round_trip(idx: usize, len: usize)
    requires
        0 < len,
        idx < len,
    ensures
        index_up(index_down(idx, len), len) == idx,
        index_down(index_up(idx, len), len) == idx,
        index_down(idx, len) < len,
        index_up(idx, len) < len,
{
}

/// The selected entry stays in view: after moving up it always is; after
/// moving down it is whenever it was not above the view before.
pub proof fn lemma_selection_stays_visible(scroll: usize, idx: usize, len: usize)
    requires
        0 < len,
        idx < len,
        scroll + PANEL_HEIGHT <= usize::MAX,
    ensures
        ({
            let n = index_up(idx, len);
            let s = scroll_after_up(scroll, n, PANEL_HEIGHT);
            s <= n < s + PANEL_HEIGHT
        }),
        scroll <= idx ==> ({
            let n = index_down(idx, len);
            let s = scroll_after_down(scroll, n, PANEL_HEIGHT);
            s <= n < s + PANEL_HEIGHT
        }),
{
}

/// What picking an entry of the overlay asks for.
#[derive(Debug, PartialEq, Eq)]
pub enum SwitcherPick {
    /// Nothing: the entry is out of range or already current.
    Nothing,
    /// Switch to the agent of the given type name in the given session;
    /// the entry picked is `entry`.
    Agent { agent_kind: String, entry: String },
    /// Switch to the session.
    Session(String),
    /// Switch to the model.
    Model(String),
}

/// The agent type name for an agent entry: the model family it names,
/// else the entry itself.
pub open spec fn agent_agent_kind_of(entry: Seq<char>) -> Seq<char> {
    if occurs_in(entry, "qwen"@) {
        "Qwen"@
    } else if occurs_in(entry, "llama"@) {
        "Llama"@
    } else if occurs_in(entry, "granite"@) {
        "Granite"@
    } else {
        entry
    }
}

/// The pick for the selected entry of a list, given the current entry.
pub open spec fn pick_of(
    selection: SwitcherSelection,
    agents: Seq<Seq<char>>,
    current_agent: Seq<char>,
    sessions: Seq<Seq<char>>,
    current_session: Seq<char>,
    models: Seq<Seq<char>>,
    current_model: Seq<char>,
    r: SwitcherPick,
) -> bool {
    match selection {
        SwitcherSelection::Agent(i) => if i < agents.len() && agents[i as int] != current_agent {
            r matches SwitcherPick::Agent { agent_kind, entry } && agent_kind@ == agent_agent_kind_of(
                agents[i as int],
            ) && entry@ == agents[i as int]
        } else {
            r == SwitcherPick::Nothing
        },
        SwitcherSelection::Session(i) => if i < sessions.len() && sessions[i as int] != current_session {
            r matches SwitcherPick::Session(s) && s@ == sessions[i as int]
        } else {
            r == SwitcherPick::Nothing
        },
        SwitcherSelection::Model(i) => if i < models.len() && models[i as int] != current_model {
            r matches SwitcherPick::Model(m) && m@ == models[i as int]
        } else {
            r == SwitcherPick::Nothing
        },
    }
}

/// The texts of a list of strings.
pub open spec fn texts(v: Seq<String>) -> Seq<Seq<char>> {
    v.map_values(|s: String| s@)
}

/// Decides what picking the selected entry asks for.
pub fn pick_selected(
    selection: SwitcherSelection,
    agents: &Vec<String>,
    current_agent: &str,
    sessions: &Vec<String>,
    current_session: &str,
    models: &Vec<String>,
    current_model: &str,
) -> (r: SwitcherPick)
    ensures
        pick_of(
            selection,
            texts(agents@),
            current_agent@,
            texts(sessions@),
            current_session@,
            texts(models@),
            current_model@,
            r,
        ),
{
    match selection {
        SwitcherSelection::Agent(i) => {
            if i < agents.len() && !str_eq(agents[i].as_str(), current_agent) {
                let entry = agents[i].as_str();
                let agent_kind = if contains_str(entry, "qwen") {
                    String::from_str("Qwen")
                } else if contains_str(entry, "llama") {
                    String::from_str("Llama")
                } else if contains_str(entry, "granite") {
                    String::from_str("Granite")
                } else {
                    to_owned_string(entry)
                };
                SwitcherPick::Agent { agent_kind, entry: to_owned_string(entry) }
            } else {
                SwitcherPick::Nothing
            }
        },
        SwitcherSelection::Session(i) => {
            if i < sessions.len() && !str_eq(sessions[i].as_str(), current_session) {
                SwitcherPick::Session(to_owned_string(sessions[i].as_str()))
            } else {
                SwitcherPick::Nothing
            }
        },
        SwitcherSelection::Model(i) => {
            if i < models.len() && !str_eq(models[i].as_str(), current_model) {
                SwitcherPick::Model(to_owned_string(models[i].as_str()))
            } else {
                SwitcherPick::Nothing
            }
        },
    }
}

/// The command echoed in the chat for a pick.
pub fn pick_echo(pick: &SwitcherPick) -> (r: Option<String>)
    ensures
        match pick {
            SwitcherPick::Nothing => r is None,
            SwitcherPick::Agent { entry, .. } => r matches Some(t) && t@ == "/switch agent "@ + entry@,
            SwitcherPick::Session(s) => r matches Some(t) && t@ == "/switch "@ + s@,
            SwitcherPick::Model(m) => r matches Some(t) && t@ == "/model "@ + m@,
        },
{
    match pick {
        SwitcherPick::Nothing => None,
        SwitcherPick::Agent { entry, .. } => Some(concat2("/switch agent ", entry.as_str())),
        SwitcherPick::Session(s) => Some(concat2("/switch ", s.as_str())),
        SwitcherPick::Model(m) => Some(concat2("/model ", m.as_str())),
    }
}

} // verus!

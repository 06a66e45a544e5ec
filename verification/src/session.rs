//! Session state: the conversation history and the tools allowed for the
//! session, the names of session files, and what to do with a stored file.

use vstd::prelude::*;
use crate::text::{
    all_ws, concat3, ends_with, has_prefix, has_suffix, is_blank, str_eq, strip_prefix,
    to_owned_string,
};
use crate::types::ChatMessage;

verus! {

/// Holds of every tool other than `name`.
pub open spec fn other_than(name: Seq<char>) -> spec_fn(Seq<char>) -> bool {
    |t: Seq<char>| t != name
}

/// The tools of `s` other than `name`, in order.
pub open spec fn without_tool(s: Seq<Seq<char>>, name: Seq<char>) -> Seq<Seq<char>> {
    s.filter(other_than(name))
}

/// `s` with `name` appended unless it is already there.
pub open spec fn with_tool(s: Seq<Seq<char>>, name: Seq<char>) -> Seq<Seq<char>> {
    if s.contains(name) {
        s
    } else {
        s.push(name)
    }
}

/// The state of one session.
#[derive(Debug)]
pub struct SessionState {
    history: Vec<ChatMessage>,
    allowed_tools: Vec<String>,
}

impl SessionState {
    /// The messages of the session.
    pub closed spec fn history_view(&self) -> Seq<ChatMessage> {
        self.history@
    }

    /// The tools allowed for the session, in the order they were allowed.
    pub closed spec fn allowed_view(&self) -> Seq<Seq<char>> {
        self.allowed_tools@.map_values(|t: String| t@)
    }

    /// An empty session.
    pub fn new() -> (r: Self)
        ensures
            r.history_view().len() == 0,
            r.allowed_view().len() == 0,
    {
        let r = SessionState { history: Vec::new(), allowed_tools: Vec::new() };
        assert(r.allowed_view() =~= Seq::<Seq<char>>::empty());
        r
    }

    /// A session with the given history and allowed tools, as stored.
    pub fn from_parts(history: Vec<ChatMessage>, allowed_tools: Vec<String>) -> (r: Self)
        ensures
            r.history_view() == history@,
            r.allowed_view() == allowed_tools@.map_values(|t: String| t@),
    {
        SessionState { history, allowed_tools }
    }

    /// The history.
    pub fn history(&self) -> (r: &Vec<ChatMessage>)
        ensures
            r@ == self.history_view(),
    {
        &self.history
    }

    /// Replaces the history; the allowed tools stay.
    pub fn set_history(&mut self, history: Vec<ChatMessage>)
        ensures
            final(self).history_view() == history@,
            final(self).allowed_view() == old(self).allowed_view(),
    {
        self.history = history;
    }

    /// Whether a tool is allowed for this session.
    pub fn is_tool_allowed(&self, tool_name: &str) -> (r: bool)
        ensures
            r == self.allowed_view().contains(tool_name@),
    {
        let mut i: usize = 0;
        while i < self.allowed_tools.len()
            invariant
                i <= self.allowed_tools@.len(),
                forall|k: int| 0 <= k < i ==> self.allowed_view()[k] != tool_name@,
            decreases self.allowed_tools@.len() - i,
        {
            if str_eq(self.allowed_tools[i].as_str(), tool_name) {
                assert(self.allowed_view()[i as int] == tool_name@);
                return true;
            }
            i = i + 1;
        }
        false
    }

    /// Allows a tool for this session; nothing changes when it already is.
    pub fn add_allowed_tool(&mut self, tool_name: String)
        ensures
            final(self).allowed_view() == with_tool(old(self).allowed_view(), tool_name@),
            final(self).history_view() == old(self).history_view(),
    {
        if !self.is_tool_allowed(tool_name.as_str()) {
            let ghost name = tool_name@;
            self.allowed_tools.push(tool_name);
            assert(self.allowed_view() =~= old(self).allowed_view().push(name));
        }
    }

    /// Withdraws a tool from this session; tells whether it was allowed.
    pub fn remove_allowed_tool(&mut self, tool_name: &str) -> (r: bool)
        ensures
            final(self).allowed_view() == without_tool(old(self).allowed_view(), tool_name@),
            final(self).history_view() == old(self).history_view(),
            r == old(self).allowed_view().contains(tool_name@),
    {
        let ghost old_view = self.allowed_view();
        let mut kept: Vec<String> = Vec::new();
        let mut removed = false;
        let mut i: usize = 0;
        while i < self.allowed_tools.len()
            invariant
                i <= self.allowed_tools@.len(),
                old_view == self.allowed_tools@.map_values(|t: String| t@),
                kept@.map_values(|t: String| t@) == without_tool(old_view.subrange(0, i as int), tool_name@),
                removed == old_view.subrange(0, i as int).contains(tool_name@),
            decreases self.allowed_tools@.len() - i,
        {
            let ghost prefix = old_view.subrange(0, i as int);
            assert(old_view.subrange(0, i + 1) =~= prefix.push(old_view[i as int]));
            proof {
                prefix.lemma_filter_push(old_view[i as int], other_than(tool_name@));
            }
            if str_eq(self.allowed_tools[i].as_str(), tool_name) {
                removed = true;
                assert(old_view.subrange(0, i + 1)[i as int] == tool_name@);
            } else {
                kept.push(self.allowed_tools[i].clone());
                assert(kept@.map_values(|t: String| t@) =~= without_tool(prefix, tool_name@).push(old_view[i as int]));
                proof {
                    let next = old_view.subrange(0, i + 1);
                    if next.contains(tool_name@) {
                        let k = choose|k: int| 0 <= k < next.len() && next[k] == tool_name@;
                        assert(prefix[k] == tool_name@);
                    }
                }
            }
            i = i + 1;
        }
        assert(old_view.subrange(0, i as int) =~= old_view);
        self.allowed_tools = kept;
        removed
    }

    /// The tools allowed for this session, in order.
    pub fn list_allowed_tools(&self) -> (r: Vec<String>)
        ensures
            r@.map_values(|t: String| t@) == self.allowed_view(),
    {
        let r = self.allowed_tools.clone();
        assert(r@.map_values(|t: String| t@) =~= self.allowed_view());
        r
    }
}

impl Default for SessionState {
    fn default() -> (r: Self)
        ensures
            r.history_view().len() == 0,
            r.allowed_view().len() == 0,
    {
        Self::new()
    }
}

/// Allowing a tool twice is the same as allowing it once.
pub proof fn lemma_allow_idempotent(s: Seq<Seq<char>>, name: Seq<char>)
    ensures
        with_tool(with_tool(s, name), name) == with_tool(s, name),
        with_tool(s, name).contains(name),
{
    if !s.contains(name) {
        assert(s.push(name)[s.len() as int] == name);
    }
}

/// After a tool is withdrawn it is no longer allowed, and every other tool
/// keeps its standing.
pub proof fn lemma_withdrawn_tool_not_allowed(s: Seq<Seq<char>>, name: Seq<char>, other: Seq<char>)
    ensures
        !without_tool(s, name).contains(name),
        other != name ==> (without_tool(s, name).contains(other) == s.contains(other)),
{
    let f = other_than(name);
    let w = s.filter(f);
    if w.contains(name) {
        let k = choose|k: int| 0 <= k < w.len() && w[k] == name;
        s.lemma_filter_pred(f, k);
    }
    if other != name {
        if s.contains(other) {
            let k = choose|k: int| 0 <= k < s.len() && s[k] == other;
            s.lemma_filter_contains(f, k);
        }
        if w.contains(other) {
            s.lemma_filter_contains_rev(f, other);
        }
    }
}

/// Where session files are kept and how they are named.
pub struct SessionManager;

/// The file that holds a session: `session_<name>.json`, or
/// `session.json` for the default session.
pub open spec fn session_file_name(name: Option<Seq<char>>) -> Seq<char> {
    match name {
        Some(n) => "session_"@ + n + ".json"@,
        None => "session.json"@,
    }
}

/// The session name a file name stands for: the part between the
/// `session_` prefix and a `.json` suffix of what follows it.
pub open spec fn session_name_of_file(f: Seq<char>) -> Option<Seq<char>> {
    if has_prefix(f, "session_"@) && has_suffix(f.subrange(8, f.len() as int), ".json"@) {
        Some(f.subrange(8, f.len() - 5))
    } else {
        None
    }
}

/// The sessions listed from the files of a directory, in order.
pub open spec fn sessions_of_files(files: Seq<Seq<char>>) -> Seq<Seq<char>>
    decreases files.len(),
{
    if files.len() == 0 {
        Seq::empty()
    } else {
        let rest = sessions_of_files(files.drop_last());
        match session_name_of_file(files.last()) {
            Some(n) => rest.push(n),
            None => rest,
        }
    }
}

/// What to do with a stored state file.
#[derive(Debug, Clone, Copy, PartialEq, Eq, Structural)]
pub enum StoredStatePlan {
    /// There is no file.
    Absent,
    /// The file cannot be read or holds only white space: start afresh.
    Fresh,
    /// Parse the content (and start afresh if it does not parse).
    Parse,
}

/// The plan for a stored file, from whether it exists and its content
/// (`None` when it could not be read).
pub open spec fn stored_state_plan_spec(exists: bool, content: Option<Seq<char>>) -> StoredStatePlan {
    if !exists {
        StoredStatePlan::Absent
    } else {
        match content {
            None => StoredStatePlan::Fresh,
            Some(c) => if all_ws(c) {
                StoredStatePlan::Fresh
            } else {
                StoredStatePlan::Parse
            },
        }
    }
}

/// Decides what to do with a stored state file.
pub fn stored_state_plan(exists: bool, content: Option<&str>) -> (r: StoredStatePlan)
    ensures
        r == stored_state_plan_spec(exists, match content {
            Some(c) => Some(c@),
            None => None,
        }),
{
    if !exists {
        return StoredStatePlan::Absent;
    }
    match content {
        None => StoredStatePlan::Fresh,
        Some(c) => if is_blank(c) {
            StoredStatePlan::Fresh
        } else {
            StoredStatePlan::Parse
        },
    }
}

impl SessionManager {
    /// The session filename for a given session name.
    pub fn get_session_filename(session_name: Option<&str>) -> (r: String)
        ensures
            r@ == session_file_name(match session_name {
                Some(n) => Some(n@),
                None => None,
            }),
    {
        match session_name {
            Some(name) => concat3("session_", name, ".json"),
            None => String::from_str("session.json"),
        }
    }

    /// The session a file name stands for, if any.
    pub fn session_name_from_file(file_name: &str) -> (r: Option<String>)
        ensures
            match session_name_of_file(file_name@) {
                Some(n) => r matches Some(s) && s@ == n,
                None => r is None,
            },
    {
        proof {
            reveal_strlit("session_");
            reveal_strlit(".json");
        }
        match strip_prefix(file_name, "session_") {
            None => None,
            Some(rest) => {
                if ends_with(rest, ".json") {
                    let n = rest.unicode_len();
                    let name = rest.substring_char(0, n - 5);
                    assert(name@ =~= file_name@.subrange(8, file_name@.len() - 5));
                    Some(to_owned_string(name))
                } else {
                    None
                }
            },
        }
    }

    /// The sessions listed in a directory: "default" first when the
    /// default session file exists, then one per session file, in the
    /// order given.
    pub fn sessions_from_listing(default_exists: bool, file_names: &Vec<String>) -> (r: Vec<String>)
        ensures
            r@.map_values(|s: String| s@) == (if default_exists {
                seq!["default"@]
            } else {
                Seq::<Seq<char>>::empty()
            }) + sessions_of_files(file_names@.map_values(|s: String| s@)),
    {
        let mut r: Vec<String> = Vec::new();
        if default_exists {
            r.push(String::from_str("default"));
        }
        let ghost head = if default_exists {
            seq!["default"@]
        } else {
            Seq::<Seq<char>>::empty()
        };
        assert(r@.map_values(|s: String| s@) =~= head);
        let ghost files = file_names@.map_values(|s: String| s@);
        let mut i: usize = 0;
        while i < file_names.len()
            invariant
                i <= file_names@.len(),
                files == file_names@.map_values(|s: String| s@),
                r@.map_values(|s: String| s@) == head + sessions_of_files(files.subrange(0, i as int)),
            decreases file_names@.len() - i,
        {
            assert(files.subrange(0, i + 1).drop_last() =~= files.subrange(0, i as int));
            let ghost before = r@.map_values(|s: String| s@);
            match Self::session_name_from_file(file_names[i].as_str()) {
                Some(name) => {
                    r.push(name);
                    assert(r@.map_values(|s: String| s@) =~= before.push(r@[r@.len() - 1]@));
                },
                None => {},
            }
            i = i + 1;
        }
        assert(files.subrange(0, i as int) =~= files);
        r
    }
}

/// The session named in a session file name is found again in that name.
pub proof fn lemma_session_file_round_trip(name: Seq<char>)
    ensures
        session_name_of_file(session_file_name(Some(name))) == Some(name),
{
    reveal_strlit("session_");
    reveal_strlit(".json");
    let f = "session_"@ + name + ".json"@;
    assert(f.subrange(0, 8) =~= "session_"@);
    let rest = f.subrange(8, f.len() as int);
    assert(rest =~= name + ".json"@);
    assert(rest.subrange(rest.len() - 5, rest.len() as int) =~= ".json"@);
    assert(f.subrange(8, f.len() - 5) =~= name);
}

} // verus!

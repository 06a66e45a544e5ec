//! Tools allowed globally, across all sessions.

use vstd::prelude::*;
use crate::json::{items_at, json_items_at, json_pretty_string_list, pretty_string_list, json_parse_error, json_str_at, parse_error, str_at};
use crate::text::{all_ws, is_blank, is_ws, str_eq};

verus! {

/// The names of tools that are always allowed. No name is held twice.
#[derive(Debug)]
pub struct GlobalToolPermissions {
    allowed_tools: Vec<String>,
}

/// The names held by a list of strings.
pub open spec fn names_of(v: Seq<String>) -> Seq<Seq<char>> {
    v.map_values(|t: String| t@)
}

impl View for GlobalToolPermissions {
    type V = Set<Seq<char>>;

    closed spec fn view(&self) -> Set<Seq<char>> {
        names_of(self.allowed_tools@).to_set()
    }
}

proof fn lemma_push_contains(s: Seq<Seq<char>>, e: Seq<char>)
    ensures
        forall|x: Seq<char>| #[trigger] s.push(e).contains(x) == (s.contains(x) || x == e),
{
    assert forall|x: Seq<char>| #[trigger] s.push(e).contains(x) == (s.contains(x) || x == e) by {
        if s.push(e).contains(x) {
            let k = choose|k: int| 0 <= k < s.push(e).len() && s.push(e)[k] == x;
            if k < s.len() {
                assert(s[k] == x);
            }
        }
        if s.contains(x) {
            let k = choose|k: int| 0 <= k < s.len() && s[k] == x;
            assert(s.push(e)[k] == x);
        }
        if x == e {
            assert(s.push(e)[s.len() as int] == x);
        }
    }
}

impl GlobalToolPermissions {
    #[verifier::type_invariant]
    spec fn names_are_unique(&self) -> bool {
        names_of(self.allowed_tools@).no_duplicates()
    }

    fn position(&self, tool_name: &str) -> (r: Option<usize>)
        ensures
            r matches Some(i) ==> i < self.allowed_tools@.len() && self.allowed_tools@[i as int]@
                == tool_name@,
            r is None ==> !names_of(self.allowed_tools@).contains(tool_name@),
    {
        let mut i: usize = 0;
        while i < self.allowed_tools.len()
            invariant
                i <= self.allowed_tools@.len(),
                forall|k: int| 0 <= k < i ==> names_of(self.allowed_tools@)[k] != tool_name@,
            decreases self.allowed_tools@.len() - i,
        {
            if str_eq(self.allowed_tools[i].as_str(), tool_name) {
                return Some(i);
            }
            i = i + 1;
        }
        None
    }

    /// No tool is allowed.
    pub fn new() -> (r: Self)
        ensures
            r@ == Set::<Seq<char>>::empty(),
    {
        let r = GlobalToolPermissions { allowed_tools: Vec::new() };
        assert(r@ =~= Set::<Seq<char>>::empty());
        r
    }

    /// The permissions that allow exactly the given tools (a name given
    /// twice is kept once).
    pub fn from_tools(tools: Vec<String>) -> (r: Self)
        ensures
            r@ == names_of(tools@).to_set(),
    {
        let mut r = Self::new();
        let mut i: usize = 0;
        while i < tools.len()
            invariant
                i <= tools@.len(),
                r@ == names_of(tools@.subrange(0, i as int)).to_set(),
            decreases tools@.len() - i,
        {
            r.add_allowed(tools[i].as_str());
            assert(names_of(tools@.subrange(0, i + 1)) =~= names_of(tools@.subrange(0, i as int)).push(
                tools@[i as int]@,
            ));
            proof {
                lemma_push_contains(names_of(tools@.subrange(0, i as int)), tools@[i as int]@);
            }
            assert(r@ =~= names_of(tools@.subrange(0, i + 1)).to_set());
            i = i + 1;
        }
        assert(tools@.subrange(0, i as int) =~= tools@);
        r
    }

    /// Whether a tool is allowed globally.
    pub fn is_allowed(&self, tool_name: &str) -> (r: bool)
        ensures
            r == self@.contains(tool_name@),
    {
        match self.position(tool_name) {
            Some(i) => {
                assert(names_of(self.allowed_tools@)[i as int] == tool_name@);
                true
            },
            None => false,
        }
    }

    /// Allows a tool globally.
    pub fn add_allowed(&mut self, tool_name: &str)
        ensures
            final(self)@ == old(self)@.insert(tool_name@),
    {
        proof {
            use_type_invariant(&*self);
        }
        match self.position(tool_name) {
            Some(i) => {
                assert(names_of(self.allowed_tools@)[i as int] == tool_name@);
                assert(self@ =~= old(self)@.insert(tool_name@));
            },
            None => {
                let ghost before = names_of(self.allowed_tools@);
                let mut v: Vec<String> = Vec::new();
                std::mem::swap(&mut v, &mut self.allowed_tools);
                v.push(String::from_str(tool_name));
                assert(names_of(v@) =~= before.push(tool_name@));
                proof {
                    lemma_push_contains(before, tool_name@);
                    assert(before.push(tool_name@).no_duplicates()) by {
                        assert forall|a: int, b: int| 0 <= a < before.push(tool_name@).len() && 0 <= b < before.push(tool_name@).len() && a != b implies before.push(tool_name@)[a] != before.push(tool_name@)[b] by {
                            if a == before.len() {
                                assert(before[b] != tool_name@);
                            } else if b == before.len() {
                                assert(before[a] != tool_name@);
                            }
                        }
                    }
                }
                self.allowed_tools = v;
                assert(self@ =~= old(self)@.insert(tool_name@));
            },
        }
    }

    /// Withdraws a tool's global permission; tells whether it had one.
    pub fn remove_allowed(&mut self, tool_name: &str) -> (r: bool)
        ensures
            final(self)@ == old(self)@.remove(tool_name@),
            r == old(self)@.contains(tool_name@),
    {
        proof {
            use_type_invariant(&*self);
        }
        match self.position(tool_name) {
            Some(i) => {
                let ghost before = names_of(self.allowed_tools@);
                assert(before[i as int] == tool_name@);
                assert(old(self)@.contains(tool_name@));
                let mut v: Vec<String> = Vec::new();
                std::mem::swap(&mut v, &mut self.allowed_tools);
                v.remove(i);
                let ghost after = names_of(v@);
                assert(after =~= before.remove(i as int));
                assert(after.no_duplicates()) by {
                    assert forall|a: int, b: int| 0 <= a < after.len() && 0 <= b < after.len() && a != b implies after[a] != after[b] by {
                        let ia = if a < i { a } else { a + 1 };
                        let ib = if b < i { b } else { b + 1 };
                        assert(after[a] == before[ia]);
                        assert(after[b] == before[ib]);
                    }
                }
                self.allowed_tools = v;
                assert forall|x: Seq<char>| #[trigger] self@.contains(x) == old(self)@.remove(
                    tool_name@,
                ).contains(x) by {
                    if after.contains(x) {
                        let k = choose|k: int| 0 <= k < after.len() && after[k] == x;
                        if k < i {
                            assert(before[k] == x);
                        } else {
                            assert(before[k + 1] == x);
                        }
                    }
                    if after.contains(x) {
                        assert(x != tool_name@) by {
                            let k = choose|k: int| 0 <= k < after.len() && after[k] == x;
                            let ik = if k < i { k } else { k + 1 };
                            assert(before[ik] == x);
                            assert(ik != i);
                        }
                    }
                    if before.contains(x) && x != tool_name@ {
                        let k = choose|k: int| 0 <= k < before.len() && before[k] == x;
                        if k < i {
                            assert(after[k] == x);
                        } else {
                            assert(after[k - 1] == x);
                        }
                    }
                }
                assert(self@ =~= old(self)@.remove(tool_name@));
                true
            },
            None => {
                assert(self@ =~= old(self)@.remove(tool_name@));
                false
            },
        }
    }

    /// All globally allowed tools, each once.
    pub fn list_allowed(&self) -> (r: Vec<String>)
        ensures
            names_of(r@).to_set() == self@,
            names_of(r@).no_duplicates(),
    {
        proof {
            use_type_invariant(self);
        }
        let r = self.allowed_tools.clone();
        assert(names_of(r@) =~= names_of(self.allowed_tools@));
        r
    }
}

impl Default for GlobalToolPermissions {
    fn default() -> (r: Self)
        ensures
            r@ == Set::<Seq<char>>::empty(),
    {
        Self::new()
    }
}

/// The texts of a list of JSON items, if every item is a string.
pub open spec fn all_strings(items: Seq<Seq<char>>) -> Option<Seq<Seq<char>>>
    decreases items.len(),
{
    if items.len() == 0 {
        Some(Seq::empty())
    } else {
        match (all_strings(items.drop_last()), json_str_at(items.last(), Seq::empty())) {
            (Some(rest), Some(s)) => Some(rest.push(s)),
            _ => None,
        }
    }
}

/// The items of the tool list of a stored permissions document: the array
/// at `allowed_tools` of an object, or the array that an array of exactly
/// one element holds.
pub open spec fn stored_items(content: Seq<char>) -> Option<Seq<Seq<char>>> {
    match json_items_at(content, Seq::empty()) {
        Some(parts) => if parts.len() == 1 {
            json_items_at(parts[0], Seq::empty())
        } else {
            None
        },
        None => json_items_at(content, "/allowed_tools"@),
    }
}

/// The tool names a stored permissions file lists: the strings of its
/// `allowed_tools` array (or, written as an array, of its one element). A
/// blank file, a file that is not JSON, and one whose list is not an array
/// of strings list none; a missing list lists none too.
pub open spec fn stored_tool_names(content: Seq<char>) -> Seq<Seq<char>> {
    if all_ws(content) || json_parse_error(content) is Some {
        Seq::empty()
    } else {
        match stored_items(content) {
            Some(items) => match all_strings(items) {
                Some(names) => names,
                None => Seq::empty(),
            },
            None => Seq::empty(),
        }
    }
}

proof fn lemma_failed_string_fails(items: Seq<Seq<char>>, i: int)
    requires
        0 <= i < items.len(),
        json_str_at(items[i], Seq::empty()) is None,
    ensures
        all_strings(items) is None,
    decreases items.len(),
{
    if i < items.len() - 1 {
        assert(items.drop_last()[i] == items[i]);
        lemma_failed_string_fails(items.drop_last(), i);
    }
}

proof fn lemma_all_strings_read_back(texts: Seq<Seq<char>>, names: Seq<Seq<char>>)
    requires
        texts.len() == names.len(),
        forall|i: int| 0 <= i < texts.len() ==> json_str_at(#[trigger] texts[i], Seq::empty()) == Some(names[i]),
    ensures
        all_strings(texts) == Some(names),
    decreases texts.len(),
{
    if texts.len() > 0 {
        let t = texts.drop_last();
        let n = names.drop_last();
        assert forall|i: int| 0 <= i < t.len() implies json_str_at(#[trigger] t[i], Seq::empty()) == Some(n[i]) by {
            assert(t[i] == texts[i]);
        }
        lemma_all_strings_read_back(t, n);
        assert(json_str_at(texts[texts.len() - 1], Seq::empty()) == Some(names[names.len() - 1]));
        assert(n.push(names.last()) =~= names);
    }
}

/// Reads the items of the tool list of a stored permissions document.
fn stored_item_texts(content: &str) -> (r: Option<Vec<String>>)
    ensures
        r.deep_view() == stored_items(content@),
{
    proof {
        reveal_strlit("");
        assert(""@ =~= Seq::<char>::empty());
    }
    match items_at(content, "") {
        Some(parts) => {
            if parts.len() == 1 {
                items_at(parts[0].as_str(), "")
            } else {
                None
            }
        },
        None => items_at(content, "/allowed_tools"),
    }
}

/// Reads the tool names listed in the text of a permissions file.
fn stored_names(content: &str) -> (r: Vec<String>)
    ensures
        names_of(r@) == stored_tool_names(content@),
{
    let none: Vec<String> = Vec::new();
    assert(names_of(none@) =~= Seq::empty());
    if is_blank(content) {
        return none;
    }
    match parse_error(content) {
        Some(_) => return none,
        None => {},
    }
    let items = match stored_item_texts(content) {
        Some(items) => items,
        None => return none,
    };
    let ghost all = items.deep_view();
    let mut out: Vec<String> = Vec::new();
    let mut i: usize = 0;
    while i < items.len()
        invariant
            i <= items.len(),
            all == items.deep_view(),
            stored_items(content@) == Some(all),
            names_of(none@) == Seq::<Seq<char>>::empty(),
            all_strings(all.take(i as int)) == Some(names_of(out@)),
        decreases items.len() - i,
    {
        assert(all.take(i + 1).drop_last() =~= all.take(i as int));
        assert(all.take(i + 1).last() == items@[i as int]@);
        assert(""@ =~= Seq::<char>::empty()) by {
            reveal_strlit("");
        }
        match str_at(items[i].as_str(), "") {
            Some(s) => {
                let ghost prev = names_of(out@);
                out.push(s);
                assert(names_of(out@) =~= prev.push(out@[out@.len() - 1]@));
            },
            None => {
                proof {
                    lemma_failed_string_fails(all, i as int);
                }
                return none;
            },
        }
        i = i + 1;
    }
    assert(all.take(i as int) =~= all);
    out
}

impl GlobalToolPermissions {
    /// The permissions stored in the text of a permissions file; text that
    /// cannot be read as such gives no permissions.
    pub fn from_json_text(content: &str) -> (r: Self)
        ensures
            r@ == stored_tool_names(content@).to_set(),
    {
        Self::from_tools(stored_names(content))
    }

    /// The permissions stored in a permissions file, given its text; no file
    /// (`None`) gives no permissions.
    pub fn load(content: Option<&str>) -> (r: Self)
        ensures
            content is None ==> r@ == Set::<Seq<char>>::empty(),
            content matches Some(c) ==> r@ == stored_tool_names(c@).to_set(),
    {
        match content {
            None => Self::new(),
            Some(c) => Self::from_json_text(c),
        }
    }

    /// The permissions stored in a permissions file, given its text and
    /// whether a reader of the stored form accepted the text as a whole. A
    /// text it refuses (one that names `allowed_tools` twice, say) is
    /// malformed and gives no permissions; a blank text gives none either.
    pub fn load_accepted(content: Option<&str>, accepted: bool) -> (r: Self)
        ensures
            (content matches Some(c) && !all_ws(c@) && !accepted) ==> r@ == Set::<Seq<char>>::empty(),
            content is None ==> r@ == Set::<Seq<char>>::empty(),
            content matches Some(c) ==> ((all_ws(c@) || accepted) ==> r@ == stored_tool_names(c@).to_set()),
    {
        match content {
            Some(c) => {
                if !accepted && !is_blank(c) {
                    Self::new()
                } else {
                    Self::load(content)
                }
            },
            None => Self::load(content),
        }
    }

    /// The text to store: an object whose `allowed_tools` lists the allowed
    /// tools, pretty-printed. Read back, it lists exactly the tools allowed.
    pub fn save(&self) -> (r: String)
        ensures
            exists|names: Seq<Seq<char>>| {
                &&& names.to_set() == self@
                &&& names.no_duplicates()
                &&& r@ == json_pretty_string_list("allowed_tools"@, names)
                &&& stored_tool_names(r@) == names
            },
            stored_tool_names(r@).to_set() == self@,
    {
        let names = self.list_allowed();
        proof {
            reveal_strlit("allowed_tools");
            reveal_strlit("/allowed_tools");
            assert(seq!['/'] + "allowed_tools"@ =~= "/allowed_tools"@);
        }
        let r = pretty_string_list("allowed_tools", &names);
        assert(names.deep_view() =~= names_of(names@));
        proof {
            let texts = json_items_at(r@, "/allowed_tools"@)->0;
            assert(!all_ws(r@)) by {
                assert(!is_ws(r@[0]));
            }
            lemma_all_strings_read_back(texts, names_of(names@));
        }
        r
    }
}

} // verus!

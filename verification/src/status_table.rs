//! A table from names to texts, where setting a name replaces its text.

use vstd::prelude::*;
use crate::text::str_eq;

verus! {

/// Entries whose name is not `k`.
pub open spec fn not_named(k: Seq<char>) -> spec_fn((String, String)) -> bool {
    |e: (String, String)| e.0@ != k
}

/// The table that a list of entries stands for; a later entry for a name
/// replaces an earlier one.
pub open spec fn table_of(s: Seq<(String, String)>) -> Map<Seq<char>, Seq<char>>
    decreases s.len(),
{
    if s.len() == 0 {
        Map::empty()
    } else {
        table_of(s.drop_last()).insert(s.last().0@, s.last().1@)
    }
}

proof fn lemma_table_without(s: Seq<(String, String)>, k: Seq<char>)
    ensures
        table_of(s.filter(not_named(k))) == table_of(s).remove(k),
    decreases s.len(),
{
    if s.len() == 0 {
        assert(s.filter(not_named(k)) =~= Seq::<(String, String)>::empty());
        assert(table_of(s).remove(k) =~= Map::empty());
    } else {
        let rest = s.drop_last();
        lemma_table_without(rest, k);
        assert(s =~= rest.push(s.last()));
        rest.lemma_filter_push(s.last(), not_named(k));
        let fr = rest.filter(not_named(k));
        assert(fr.push(s.last()).drop_last() =~= fr);
        if s.last().0@ == k {
            assert(table_of(s).remove(k) =~= table_of(rest).remove(k));
        } else {
            assert(table_of(s).remove(k) =~= table_of(rest).remove(k).insert(s.last().0@, s.last().1@));
        }
    }
}

/// Names with their texts.
#[derive(Debug)]
pub struct StatusTable {
    entries: Vec<(String, String)>,
}

impl View for StatusTable {
    type V = Map<Seq<char>, Seq<char>>;

    closed spec fn view(&self) -> Map<Seq<char>, Seq<char>> {
        table_of(self.entries@)
    }
}

impl StatusTable {
    /// An empty table.
    pub fn new() -> (r: Self)
        ensures
            r@ == Map::<Seq<char>, Seq<char>>::empty(),
    {
        StatusTable { entries: Vec::new() }
    }

    /// Sets the text of a name.
    pub fn insert(&mut self, name: String, text: String)
        ensures
            final(self)@ == old(self)@.insert(name@, text@),
    {
        let ghost old_entries = self.entries@;
        let mut kept: Vec<(String, String)> = Vec::new();
        let mut i: usize = 0;
        while i < self.entries.len()
            invariant
                i <= self.entries@.len(),
                self.entries@ == old_entries,
                kept@ == old_entries.subrange(0, i as int).filter(not_named(name@)),
            decreases self.entries@.len() - i,
        {
            let ghost prefix = old_entries.subrange(0, i as int);
            assert(old_entries.subrange(0, i + 1) =~= prefix.push(old_entries[i as int]));
            proof {
                prefix.lemma_filter_push(old_entries[i as int], not_named(name@));
            }
            if !str_eq(self.entries[i].0.as_str(), name.as_str()) {
                let e = (self.entries[i].0.clone(), self.entries[i].1.clone());
                kept.push(e);
            }
            i = i + 1;
        }
        assert(old_entries.subrange(0, i as int) =~= old_entries);
        proof {
            lemma_table_without(old_entries, name@);
        }
        let ghost nv = name@;
        let ghost tv = text@;
        kept.push((name, text));
        assert(kept@.drop_last() =~= old_entries.filter(not_named(nv)));
        assert(self@.remove(nv).insert(nv, tv) =~= self@.insert(nv, tv));
        self.entries = kept;
    }

    /// The text of a name, if it has one.
    pub fn get(&self, name: &str) -> (r: Option<&String>)
        ensures
            self@.contains_key(name@) ==> (r matches Some(t) && t@ == self@[name@]),
            !self@.contains_key(name@) ==> r is None,
    {
        let mut i: usize = self.entries.len();
        while i > 0
            invariant
                i <= self.entries@.len(),
                forall|k: int| i <= k < self.entries@.len() ==> (#[trigger] self.entries@[k]).0@ != name@,
            decreases i,
        {
            if str_eq(self.entries[i - 1].0.as_str(), name) {
                proof {
                    lemma_table_suffix(self.entries@, i as int, name@);
                    assert(self.entries@.subrange(0, i as int).drop_last() =~= self.entries@.subrange(0, i - 1));
                }
                return Some(&self.entries[i - 1].1);
            }
            i = i - 1;
        }
        proof {
            lemma_table_suffix(self.entries@, 0, name@);
        }
        None
    }
}

proof fn lemma_table_suffix(s: Seq<(String, String)>, i: int, n: Seq<char>)
    requires
        0 <= i <= s.len(),
        forall|k: int| i <= k < s.len() ==> (#[trigger] s[k]).0@ != n,
    ensures
        table_of(s).contains_key(n) == table_of(s.subrange(0, i)).contains_key(n),
        table_of(s).contains_key(n) ==> table_of(s)[n] == table_of(s.subrange(0, i))[n],
    decreases s.len(),
{
    if i == s.len() {
        assert(s.subrange(0, i) =~= s);
    } else {
        let rest = s.drop_last();
        assert(s.last() == s[s.len() - 1]);
        lemma_table_suffix(rest, i, n);
        assert(rest.subrange(0, i) =~= s.subrange(0, i));
    }
}

} // verus!

//! Character-level string helpers with exact specifications.

use vstd::prelude::*;
use vstd::string::*;

verus! {

/// Unicode `White_Space` property, as used by `str::trim`.
pub open spec fn is_ws(c: char) -> bool {
    let u = c as u32;
    ||| u == 0x20
    ||| (0x09 <= u && u <= 0x0d)
    ||| u == 0x85
    ||| u == 0xa0
    ||| u == 0x1680
    ||| (0x2000 <= u && u <= 0x200a)
    ||| u == 0x2028
    ||| u == 0x2029
    ||| u == 0x202f
    ||| u == 0x205f
    ||| u == 0x3000
}

/// `p` is a prefix of `s`.
pub open spec fn has_prefix(s: Seq<char>, p: Seq<char>) -> bool {
    p.len() <= s.len() && s.subrange(0, p.len() as int) == p
}

/// `p` is a suffix of `s`.
pub open spec fn has_suffix(s: Seq<char>, p: Seq<char>) -> bool {
    p.len() <= s.len() && s.subrange(s.len() - p.len(), s.len() as int) == p
}

/// `p` occurs in `s` starting at position `i`.
pub open spec fn occurs_at(s: Seq<char>, p: Seq<char>, i: int) -> bool {
    0 <= i && i + p.len() <= s.len() && s.subrange(i, i + p.len()) == p
}

/// `p` occurs somewhere in `s`.
pub open spec fn occurs_in(s: Seq<char>, p: Seq<char>) -> bool {
    exists|i: int| occurs_at(s, p, i)
}

/// Position of the first occurrence of `p` in `s`, if any.
pub open spec fn is_first_occurrence(s: Seq<char>, p: Seq<char>, i: int) -> bool {
    occurs_at(s, p, i) && forall|j: int| 0 <= j < i ==> !occurs_at(s, p, j)
}

/// Every character of `s` is white space.
pub open spec fn all_ws(s: Seq<char>) -> bool {
    forall|i: int| 0 <= i < s.len() ==> is_ws(#[trigger] s[i])
}

/// Index of the first character at or after `i` that is not white space.
pub open spec fn skip_ws_from(s: Seq<char>, i: int) -> int
    decreases s.len() - i,
{
    if 0 <= i < s.len() && is_ws(s[i]) {
        skip_ws_from(s, i + 1)
    } else {
        i
    }
}

/// End index after dropping trailing white space from `s[lo..j]`.
pub open spec fn drop_ws_before(s: Seq<char>, lo: int, j: int) -> int
    decreases j - lo,
{
    if lo < j && j <= s.len() && is_ws(s[j - 1]) {
        drop_ws_before(s, lo, j - 1)
    } else {
        j
    }
}

/// `s` without leading white space.
pub open spec fn trim_start_seq(s: Seq<char>) -> Seq<char> {
    s.subrange(skip_ws_from(s, 0), s.len() as int)
}

/// `s` without leading and trailing white space.
pub open spec fn trim_seq(s: Seq<char>) -> Seq<char> {
    let a = skip_ws_from(s, 0);
    s.subrange(a, drop_ws_before(s, a, s.len() as int))
}

proof fn lemma_skip_ws_bounds(s: Seq<char>, i: int)
    requires
        0 <= i <= s.len(),
    ensures
        i <= skip_ws_from(s, i) <= s.len(),
        forall|k: int| i <= k < skip_ws_from(s, i) ==> is_ws(#[trigger] s[k]),
        skip_ws_from(s, i) < s.len() ==> !is_ws(s[skip_ws_from(s, i)]),
    decreases s.len() - i,
{
    if i < s.len() && is_ws(s[i]) {
        lemma_skip_ws_bounds(s, i + 1);
    }
}

proof fn lemma_drop_ws_bounds(s: Seq<char>, lo: int, j: int)
    requires
        0 <= lo <= j <= s.len(),
    ensures
        lo <= drop_ws_before(s, lo, j) <= j,
        forall|k: int| drop_ws_before(s, lo, j) <= k < j ==> is_ws(#[trigger] s[k]),
        lo < drop_ws_before(s, lo, j) ==> !is_ws(s[drop_ws_before(s, lo, j) - 1]),
    decreases j - lo,
{
    if lo < j && is_ws(s[j - 1]) {
        lemma_drop_ws_bounds(s, lo, j - 1);
    }
}

/// Whether a character is Unicode white space.
pub fn char_is_ws(c: char) -> (r: bool)
    ensures
        r == is_ws(c),
{
    let u = c as u32;
    u == 0x20 || (0x09 <= u && u <= 0x0d) || u == 0x85 || u == 0xa0 || u == 0x1680 || (0x2000
        <= u && u <= 0x200a) || u == 0x2028 || u == 0x2029 || u == 0x202f || u == 0x205f || u
        == 0x3000
}

/// The characters of a string.
pub fn chars_of(s: &str) -> (v: Vec<char>)
    ensures
        v@ == s@,
{
    let n = s.unicode_len();
    let mut v: Vec<char> = Vec::new();
    let mut i: usize = 0;
    while i < n
        invariant
            n == s@.len(),
            i <= n,
            v@ == s@.subrange(0, i as int),
        decreases n - i,
    {
        v.push(s.get_char(i));
        i = i + 1;
    }
    assert(v@ =~= s@);
    v
}

/// Character-wise equality of two strings.
pub fn str_eq(a: &str, b: &str) -> (r: bool)
    ensures
        r == (a@ == b@),
{
    let x = String::from_str(a);
    let y = String::from_str(b);
    x == y
}

/// An owned copy of a string slice.
pub fn to_owned_string(a: &str) -> (r: String)
    ensures
        r@ == a@,
{
    String::from_str(a)
}

/// The concatenation of two strings.
pub fn concat2(a: &str, b: &str) -> (r: String)
    ensures
        r@ == a@ + b@,
{
    let mut r = String::from_str(a);
    r.append(b);
    r
}

/// The concatenation of three strings.
pub fn concat3(a: &str, b: &str, c: &str) -> (r: String)
    ensures
        r@ == a@ + b@ + c@,
{
    let mut r = String::from_str(a);
    r.append(b);
    r.append(c);
    r
}

/// Whether `p` occurs in `s` at character position `i`.
pub fn occurs_at_exec(s: &Vec<char>, p: &Vec<char>, i: usize) -> (r: bool)
    ensures
        r == occurs_at(s@, p@, i as int),
{
    if i > s.len() || p.len() > s.len() - i {
        return false;
    }
    let mut k: usize = 0;
    while k < p.len()
        invariant
            i + p@.len() <= s.len(),
            k <= p@.len(),
            forall|m: int| 0 <= m < k ==> s@[i + m] == p@[m],
        decreases p@.len() - k,
    {
        if s[i + k] != p[k] {
            assert(s@.subrange(i as int, i + p@.len())[k as int] != p@[k as int]);
            return false;
        }
        k = k + 1;
    }
    assert(s@.subrange(i as int, i + p@.len()) =~= p@);
    true
}

/// Whether `s` begins with `p`.
pub fn starts_with(s: &str, p: &str) -> (r: bool)
    ensures
        r == has_prefix(s@, p@),
{
    let sv = chars_of(s);
    let pv = chars_of(p);
    occurs_at_exec(&sv, &pv, 0)
}

/// Whether `s` ends with `p`.
pub fn ends_with(s: &str, p: &str) -> (r: bool)
    ensures
        r == has_suffix(s@, p@),
{
    let sv = chars_of(s);
    let pv = chars_of(p);
    if pv.len() > sv.len() {
        return false;
    }
    occurs_at_exec(&sv, &pv, sv.len() - pv.len())
}

/// Position of the first occurrence of `p` in `s`.
pub fn find_chars(s: &Vec<char>, p: &Vec<char>) -> (r: Option<usize>)
    ensures
        r matches Some(i) ==> is_first_occurrence(s@, p@, i as int),
        r is None ==> !occurs_in(s@, p@),
{
    if p.len() > s.len() {
        assert forall|j: int| !occurs_at(s@, p@, j) by {}
        return None;
    }
    let last = s.len() - p.len();
    let mut i: usize = 0;
    while i < last
        invariant
            last == s@.len() - p@.len(),
            p@.len() <= s@.len(),
            i <= last,
            forall|j: int| 0 <= j < i ==> !occurs_at(s@, p@, j),
        decreases last - i,
    {
        if occurs_at_exec(s, p, i) {
            return Some(i);
        }
        i = i + 1;
    }
    if occurs_at_exec(s, p, last) {
        return Some(last);
    }
    assert forall|j: int| !occurs_at(s@, p@, j) by {}
    None
}

/// Position of the first occurrence of `p` in `s`.
pub fn find_str(s: &str, p: &str) -> (r: Option<usize>)
    ensures
        r matches Some(i) ==> is_first_occurrence(s@, p@, i as int),
        r is None ==> !occurs_in(s@, p@),
{
    let sv = chars_of(s);
    let pv = chars_of(p);
    find_chars(&sv, &pv)
}

/// Whether `p` occurs in `s`.
pub fn contains_str(s: &str, p: &str) -> (r: bool)
    ensures
        r == occurs_in(s@, p@),
{
    match find_str(s, p) {
        Some(_) => true,
        None => false,
    }
}

/// The part of `s` after its first `p`, when `s` begins with `p`.
pub fn strip_prefix<'a>(s: &'a str, p: &str) -> (r: Option<&'a str>)
    ensures
        has_prefix(s@, p@) ==> (r matches Some(t) && t@ == s@.subrange(p@.len() as int, s@.len() as int)),
        !has_prefix(s@, p@) ==> r is None,
{
    if starts_with(s, p) {
        let n = s.unicode_len();
        let m = p.unicode_len();
        Some(s.substring_char(m, n))
    } else {
        None
    }
}

/// Whether `s` holds only white space (or nothing).
pub fn is_blank(s: &str) -> (r: bool)
    ensures
        r == all_ws(s@),
{
    let v = chars_of(s);
    let mut i: usize = 0;
    while i < v.len()
        invariant
            v@ == s@,
            i <= v@.len(),
            forall|k: int| 0 <= k < i ==> is_ws(#[trigger] v@[k]),
        decreases v@.len() - i,
    {
        if !char_is_ws(v[i]) {
            return false;
        }
        i = i + 1;
    }
    true
}

fn skip_ws_exec(v: &Vec<char>) -> (a: usize)
    ensures
        a as int == skip_ws_from(v@, 0),
{
    let mut i: usize = 0;
    while i < v.len() && char_is_ws(v[i])
        invariant
            i <= v@.len(),
            skip_ws_from(v@, i as int) == skip_ws_from(v@, 0),
        decreases v@.len() - i,
    {
        i = i + 1;
    }
    i
}

/// `s` without leading white space.
pub fn trim_start<'a>(s: &'a str) -> (r: &'a str)
    ensures
        r@ == trim_start_seq(s@),
{
    let v = chars_of(s);
    let a = skip_ws_exec(&v);
    proof {
        lemma_skip_ws_bounds(v@, 0);
    }
    s.substring_char(a, v.len())
}

/// `s` without leading and trailing white space.
pub fn trim<'a>(s: &'a str) -> (r: &'a str)
    ensures
        r@ == trim_seq(s@),
{
    let v = chars_of(s);
    let a = skip_ws_exec(&v);
    proof {
        lemma_skip_ws_bounds(v@, 0);
    }
    let mut j: usize = v.len();
    while j > a && char_is_ws(v[j - 1])
        invariant
            a <= j <= v@.len(),
            drop_ws_before(v@, a as int, j as int) == drop_ws_before(v@, a as int, v@.len() as int),
        decreases j,
    {
        j = j - 1;
    }
    s.substring_char(a, j)
}

/// The trimmed text is empty exactly when the whole text is white space.
pub proof fn lemma_trim_empty_iff_blank(s: Seq<char>)
    ensures
        (trim_seq(s).len() == 0) == all_ws(s),
{
    lemma_skip_ws_bounds(s, 0);
    let a = skip_ws_from(s, 0);
    lemma_drop_ws_bounds(s, a, s.len() as int);
    if all_ws(s) {
        if a < s.len() {
            assert(is_ws(s[a]));
        }
    } else {
        let b = drop_ws_before(s, a, s.len() as int);
        if b == a {
            assert forall|k: int| 0 <= k < s.len() implies is_ws(#[trigger] s[k]) by {
                if k < a {
                } else {
                }
            }
        }
    }
}

/// The texts of `parts` joined with `sep` between neighbours.
pub open spec fn joined(parts: Seq<Seq<char>>, sep: Seq<char>) -> Seq<char>
    decreases parts.len(),
{
    if parts.len() == 0 {
        Seq::empty()
    } else if parts.len() == 1 {
        parts[0]
    } else {
        joined(parts.drop_last(), sep) + sep + parts.last()
    }
}

/// Joins texts with a separator between neighbours.
pub fn join_with(parts: &Vec<String>, sep: &str) -> (r: String)
    ensures
        r@ == joined(parts@.map_values(|p: String| p@), sep@),
{
    let ghost views = parts@.map_values(|p: String| p@);
    let mut r = String::new();
    let mut i: usize = 0;
    while i < parts.len()
        invariant
            i <= parts@.len(),
            views == parts@.map_values(|p: String| p@),
            r@ == joined(views.subrange(0, i as int), sep@),
        decreases parts@.len() - i,
    {
        assert(views.subrange(0, i + 1).drop_last() =~= views.subrange(0, i as int));
        if i == 0 {
            r.append(parts[i].as_str());
            assert(r@ =~= views.subrange(0, 1)[0]);
        } else {
            r.append(sep);
            r.append(parts[i].as_str());
        }
        i = i + 1;
    }
    assert(views.subrange(0, i as int) =~= views);
    r
}

/// Index of the first occurrence of `p` in `s` at or after `i`; -1 when
/// there is none.
pub open spec fn find_from(s: Seq<char>, p: Seq<char>, i: int) -> int
    decreases s.len() + 1 - i,
{
    if i < 0 || i + p.len() > s.len() {
        -1
    } else if occurs_at(s, p, i) {
        i
    } else {
        find_from(s, p, i + 1)
    }
}

/// The result of a search is -1 or an occurrence at or after where it
/// started.
pub proof fn lemma_find_from_range(s: Seq<char>, p: Seq<char>, i: int)
    requires
        0 <= i,
    ensures
        find_from(s, p, i) == -1 || (i <= find_from(s, p, i) && occurs_at(s, p, find_from(s, p, i))),
    decreases s.len() + 1 - i,
{
    if i + p.len() <= s.len() && !occurs_at(s, p, i) {
        lemma_find_from_range(s, p, i + 1);
    }
}

/// A search from before the first occurrence finds it.
pub proof fn lemma_find_from_first(s: Seq<char>, p: Seq<char>, k: int, i: int)
    requires
        0 <= k <= i,
        is_first_occurrence(s, p, i),
    ensures
        find_from(s, p, k) == i,
    decreases i - k,
{
    if k < i {
        lemma_find_from_first(s, p, k + 1, i);
    }
}

/// A search for what does not occur finds nothing.
pub proof fn lemma_find_from_absent(s: Seq<char>, p: Seq<char>, k: int)
    requires
        0 <= k,
        !occurs_in(s, p),
    ensures
        find_from(s, p, k) == -1,
    decreases s.len() + 1 - k,
{
    if k + p.len() <= s.len() {
        assert(!occurs_at(s, p, k));
        lemma_find_from_absent(s, p, k + 1);
    }
}

/// The first occurrence of `p` in `s`, -1 when there is none.
pub open spec fn first_index(s: Seq<char>, p: Seq<char>) -> int {
    find_from(s, p, 0)
}

/// Position of the first occurrence, stated with `first_index`.
pub fn find_first(s: &Vec<char>, p: &Vec<char>) -> (r: Option<usize>)
    ensures
        r matches Some(i) ==> i as int == first_index(s@, p@) && occurs_at(s@, p@, i as int),
        r is None ==> first_index(s@, p@) == -1 && !occurs_in(s@, p@),
{
    let r = find_chars(s, p);
    proof {
        match r {
            Some(i) => lemma_find_from_first(s@, p@, 0, i as int),
            None => lemma_find_from_absent(s@, p@, 0),
        }
    }
    r
}

/// The pieces of `s` between occurrences of a non-empty separator, as
/// `str::split` gives them.
pub open spec fn split_seq(s: Seq<char>, sep: Seq<char>) -> Seq<Seq<char>>
    decreases s.len(),
{
    let i = first_index(s, sep);
    if sep.len() > 0 && i >= 0 {
        proof {
            lemma_find_from_range(s, sep, 0);
        }
        seq![s.subrange(0, i)] + split_seq(s.subrange(i + sep.len(), s.len() as int), sep)
    } else {
        seq![s]
    }
}

/// Splits a text at each occurrence of a non-empty separator.
pub fn split_str(s: &str, sep: &str) -> (r: Vec<String>)
    requires
        sep@.len() > 0,
    ensures
        r@.map_values(|t: String| t@) == split_seq(s@, sep@),
{
    let sepv = chars_of(sep);
    let mut rest: String = to_owned_string(s);
    let mut out: Vec<String> = Vec::new();
    let ghost done: Seq<Seq<char>> = Seq::empty();
    loop
        invariant
            sepv@ == sep@,
            sep@.len() > 0,
            out@.map_values(|t: String| t@) + split_seq(rest@, sep@) == split_seq(s@, sep@),
        decreases rest@.len(),
    {
        let rv = chars_of(rest.as_str());
        match find_first(&rv, &sepv) {
            Some(i) => {
                let n = rest.as_str().unicode_len();
                let head = to_owned_string(rest.as_str().substring_char(0, i));
                let tail = to_owned_string(rest.as_str().substring_char(i + sepv.len(), n));
                proof {
                    assert(split_seq(rest@, sep@) == seq![rest@.subrange(0, i as int)] + split_seq(
                        rest@.subrange(i + sep@.len(), rest@.len() as int),
                        sep@,
                    ));
                }
                let ghost before = out@.map_values(|t: String| t@);
                out.push(head);
                assert(out@.map_values(|t: String| t@) =~= before.push(rest@.subrange(0, i as int)));
                assert(before.push(rest@.subrange(0, i as int)) + split_seq(tail@, sep@) =~= before
                    + (seq![rest@.subrange(0, i as int)] + split_seq(tail@, sep@)));
                rest = tail;
            },
            None => {
                let ghost before = out@.map_values(|t: String| t@);
                out.push(rest);
                assert(out@.map_values(|t: String| t@) =~= before + seq![out@[out@.len() - 1]@]);
                return out;
            },
        }
    }
}

/// The decimal digit for `d < 10`.
pub open spec fn digit_char(d: nat) -> char {
    (('0' as u32) + d) as char
}

/// The decimal digits of a natural number, most significant first.
pub open spec fn digits(n: nat) -> Seq<char>
    decreases n,
{
    if n < 10 {
        seq![digit_char(n)]
    } else {
        digits(n / 10).push(digit_char(n % 10))
    }
}

/// The decimal text of an integer, with a minus sign when negative, as
/// `{}` prints it.
pub open spec fn int_text(n: int) -> Seq<char> {
    if n < 0 {
        seq!['-'] + digits((-n) as nat)
    } else {
        digits(n as nat)
    }
}

fn digit_str(d: u64) -> (r: &'static str)
    requires
        d < 10,
    ensures
        r@ == seq![digit_char(d as nat)],
{
    proof {
        reveal_strlit("0");
        reveal_strlit("1");
        reveal_strlit("2");
        reveal_strlit("3");
        reveal_strlit("4");
        reveal_strlit("5");
        reveal_strlit("6");
        reveal_strlit("7");
        reveal_strlit("8");
        reveal_strlit("9");
    }
    if d == 0 {
        "0"
    } else if d == 1 {
        "1"
    } else if d == 2 {
        "2"
    } else if d == 3 {
        "3"
    } else if d == 4 {
        "4"
    } else if d == 5 {
        "5"
    } else if d == 6 {
        "6"
    } else if d == 7 {
        "7"
    } else if d == 8 {
        "8"
    } else {
        "9"
    }
}

/// The decimal digits of a `u64`.
pub fn u64_text(n: u64) -> (r: String)
    ensures
        r@ == digits(n as nat),
    decreases n,
{
    if n < 10 {
        to_owned_string(digit_str(n))
    } else {
        let mut r = u64_text(n / 10);
        r.append(digit_str(n % 10));
        r
    }
}

/// The decimal text of an `i64`.
pub fn i64_text(n: i64) -> (r: String)
    ensures
        r@ == int_text(n as int),
{
    if n < 0 {
        let m: u64 = (0i128 - (n as i128)) as u64;
        let r = concat2("-", u64_text(m).as_str());
        proof {
            reveal_strlit("-");
        }
        r
    } else {
        u64_text(n as u64)
    }
}

} // verus!

//! Character-level rules of the content validator: ASCII case folding,
//! case-insensitive pattern containment, whitespace trimming and
//! printability, all stated over `Seq<char>` and proved on `Vec<char>`.

use vstd::prelude::*;

verus! {

/// ASCII case folding: the code point of `c`, with upper-case letters
/// mapped to their lower-case counterpart.
pub open spec fn fold(c: char) -> int {
    if 65 <= c as u32 && c as u32 <= 90 {
        c as u32 + 32
    } else {
        c as u32 as int
    }
}

/// Whitespace as the trimming rule understands it.
pub open spec fn is_space(c: char) -> bool {
    c == ' ' || c == '\t' || c == '\n' || c == '\r'
}

/// A character a title may hold: no control characters.
pub open spec fn is_printable(c: char) -> bool {
    c as u32 >= 32 && c as u32 != 127
}

pub open spec fn all_printable(s: Seq<char>) -> bool {
    forall|i: int| 0 <= i < s.len() ==> is_printable(#[trigger] s[i])
}

/// The pattern `p` occurs in `t` at position `i`, compared case-insensitively.
pub open spec fn matches_at(t: Seq<char>, p: Seq<char>, i: int) -> bool {
    forall|j: int| 0 <= j < p.len() ==> fold(t[i + j]) == fold(#[trigger] p[j])
}

/// The pattern `p` occurs somewhere in `t`, compared case-insensitively.
pub open spec fn contains_ci(t: Seq<char>, p: Seq<char>) -> bool {
    exists|i: int| 0 <= i <= t.len() - p.len() && #[trigger] matches_at(t, p, i)
}

/// The text hits at least one pattern of the denylist.
pub open spec fn hits_denylist(t: Seq<char>, deny: Seq<Seq<char>>) -> bool {
    exists|k: int| 0 <= k < deny.len() && contains_ci(t, #[trigger] deny[k])
}

/// View of a denylist held as a vector of patterns.
pub open spec fn deny_view(deny: Vec<Vec<char>>) -> Seq<Seq<char>> {
    deny@.map_values(|p: Vec<char>| p@)
}

/// View of an optional text value.
pub open spec fn text_view(o: Option<Vec<char>>) -> Option<Seq<char>> {
    match o {
        Some(t) => Some(t@),
        None => None,
    }
}

/// Leading whitespace removed.
pub open spec fn trim_front(s: Seq<char>) -> Seq<char>
    decreases s.len(),
{
    if s.len() > 0 && is_space(s[0]) {
        trim_front(s.drop_first())
    } else {
        s
    }
}

/// Trailing whitespace removed.
pub open spec fn trim_back(s: Seq<char>) -> Seq<char>
    decreases s.len(),
{
    if s.len() > 0 && is_space(s.last()) {
        trim_back(s.drop_last())
    } else {
        s
    }
}

/// Leading and trailing whitespace removed.
pub open spec fn trim_spec(s: Seq<char>) -> Seq<char> {
    trim_back(trim_front(s))
}

fn fold_char(c: char) -> (r: u32)
    ensures
        r as int == fold(c),
{
    let u = c as u32;
    if 65 <= u && u <= 90 {
        u + 32
    } else {
        u
    }
}

fn is_space_char(c: char) -> (r: bool)
    ensures
        r == is_space(c),
{
    c == ' ' || c == '\t' || c == '\n' || c == '\r'
}

fn match_at(t: &Vec<char>, p: &Vec<char>, i: usize) -> (r: bool)
    requires
        i + p@.len() <= t@.len(),
    ensures
        r == matches_at(t@, p@, i as int),
{
    let tn = t.len();
    let mut j: usize = 0;
    while j < p.len()
        invariant
            tn == t@.len(),
            i + p@.len() <= t@.len(),
            0 <= j <= p@.len(),
            forall|k: int| 0 <= k < j ==> fold(t@[i + k]) == fold(#[trigger] p@[k]),
        decreases p@.len() - j,
    {
        if fold_char(t[i + j]) != fold_char(p[j]) {
            assert(!matches_at(t@, p@, i as int));
            return false;
        }
        j += 1;
    }
    true
}

/// Whether `p` occurs in `t`, compared case-insensitively.
pub fn contains_pattern(t: &Vec<char>, p: &Vec<char>) -> (r: bool)
    ensures
        r == contains_ci(t@, p@),
{
    if p.len() == 0 {
        assert(matches_at(t@, p@, 0));
        return true;
    }
    if p.len() > t.len() {
        return false;
    }
    let last = t.len() - p.len();
    let mut i: usize = 0;
    while i <= last
        invariant
            1 <= p@.len() <= t@.len(),
            last == t@.len() - p@.len(),
            last < usize::MAX,
            0 <= i <= last + 1,
            forall|k: int| 0 <= k < i ==> !(#[trigger] matches_at(t@, p@, k)),
        decreases last + 1 - i,
    {
        if match_at(t, p, i) {
            return true;
        }
        i += 1;
    }
    false
}

/// Whether the text hits any pattern of the denylist.
pub fn matches_denylist(t: &Vec<char>, deny: &Vec<Vec<char>>) -> (r: bool)
    ensures
        r == hits_denylist(t@, deny_view(*deny)),
{
    let mut k: usize = 0;
    while k < deny.len()
        invariant
            0 <= k <= deny@.len(),
            forall|m: int| 0 <= m < k ==> !contains_ci(t@, #[trigger] deny_view(*deny)[m]),
        decreases deny@.len() - k,
    {
        if contains_pattern(t, &deny[k]) {
            assert(deny_view(*deny)[k as int] == deny@[k as int]@);
            return true;
        }
        k += 1;
    }
    false
}

/// Whether every character of the text is printable.
pub fn check_printable(t: &Vec<char>) -> (r: bool)
    ensures
        r == all_printable(t@),
{
    let mut i: usize = 0;
    while i < t.len()
        invariant
            0 <= i <= t@.len(),
            forall|k: int| 0 <= k < i ==> is_printable(#[trigger] t@[k]),
        decreases t@.len() - i,
    {
        let u = t[i] as u32;
        if u < 32 || u == 127 {
            return false;
        }
        i += 1;
    }
    true
}

proof fn lemma_trim_front_skip(s: Seq<char>, i: int)
    requires
        0 <= i <= s.len(),
        forall|k: int| 0 <= k < i ==> is_space(#[trigger] s[k]),
        i == s.len() || !is_space(s[i]),
    ensures
        trim_front(s) == s.skip(i),
    decreases i,
{
    if i == 0 {
        assert(s.skip(0) =~= s);
    } else {
        assert(is_space(s[0]));
        let d = s.drop_first();
        assert(forall|k: int| 0 <= k < i - 1 ==> is_space(#[trigger] d[k]));
        lemma_trim_front_skip(d, i - 1);
        assert(d.skip(i - 1) =~= s.skip(i));
    }
}

proof fn lemma_trim_back_take(s: Seq<char>, j: int)
    requires
        0 <= j <= s.len(),
        forall|k: int| j <= k < s.len() ==> is_space(#[trigger] s[k]),
        j == 0 || !is_space(s[j - 1]),
    ensures
        trim_back(s) == s.take(j),
    decreases s.len() - j,
{
    if j == s.len() {
        assert(s.take(j) =~= s);
    } else {
        assert(is_space(s.last()));
        let d = s.drop_last();
        assert(forall|k: int| j <= k < d.len() ==> is_space(#[trigger] d[k]));
        lemma_trim_back_take(d, j);
        assert(d.take(j) =~= s.take(j));
    }
}

/// The text with leading and trailing whitespace removed.
pub fn trimmed(t: &Vec<char>) -> (r: Vec<char>)
    ensures
        r@ == trim_spec(t@),
{
    let n = t.len();
    let mut start: usize = 0;
    while start < n && is_space_char(t[start])
        invariant
            n == t@.len(),
            0 <= start <= n,
            forall|k: int| 0 <= k < start ==> is_space(#[trigger] t@[k]),
        decreases n - start,
    {
        start += 1;
    }
    let mut end: usize = n;
    while end > start && is_space_char(t[end - 1])
        invariant
            n == t@.len(),
            start <= end <= n,
            forall|k: int| end <= k < n ==> is_space(#[trigger] t@[k]),
        decreases end,
    {
        end -= 1;
    }
    proof {
        lemma_trim_front_skip(t@, start as int);
        let sk = t@.skip(start as int);
        assert(forall|k: int| end - start <= k < sk.len() ==> is_space(#[trigger] sk[k]));
        lemma_trim_back_take(sk, end - start);
        assert(sk.take(end - start) =~= t@.subrange(start as int, end as int));
    }
    let mut r: Vec<char> = Vec::new();
    let mut i: usize = start;
    while i < end
        invariant
            n == t@.len(),
            start <= i <= end <= n,
            r@ == t@.subrange(start as int, i as int),
        decreases end - i,
    {
        r.push(t[i]);
        assert(r@ =~= t@.subrange(start as int, i + 1 as int));
        i += 1;
    }
    r
}

/// A copy of the text, character for character.
pub fn clone_text(t: &Vec<char>) -> (r: Vec<char>)
    ensures
        r@ == t@,
{
    let r = t.clone();
    proof {
        assert(r@ =~= t@);
    }
    r
}

/// A copy of an optional text, character for character.
pub fn clone_text_opt(o: &Option<Vec<char>>) -> (r: Option<Vec<char>>)
    ensures
        text_view(r) == text_view(*o),
{
    match o {
        Some(t) => Some(clone_text(t)),
        None => None,
    }
}

} // verus!

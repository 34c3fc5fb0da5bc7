//! Verified character-sequence utilities: substring search, equality and
//! ASCII whitespace trimming, used by the output classifiers and the quota
//! gate's descriptor matching.

use vstd::prelude::*;
use vstd::string::StrSliceExecFns;

verus! {

/// `needle` occurs in `hay` starting exactly at position `i`.
pub open spec fn matches_at(hay: Seq<char>, needle: Seq<char>, i: int) -> bool {
    &&& 0 <= i
    &&& i + needle.len() <= hay.len()
    &&& forall|k: int| 0 <= k < needle.len() ==> hay[i + k] == needle[k]
}

/// `needle` occurs somewhere in `hay`.
pub open spec fn contains_seq(hay: Seq<char>, needle: Seq<char>) -> bool {
    exists|i: int| matches_at(hay, needle, i)
}

fn match_at(hay: &str, needle: &str, i: usize) -> (r: bool)
    requires
        i + needle@.len() <= hay@.len(),
    ensures
        r == matches_at(hay@, needle@, i as int),
{
    let hlen = hay.unicode_len();
    let nlen = needle.unicode_len();
    let mut j: usize = 0;
    while j < nlen
        invariant
            hlen == hay@.len(),
            nlen == needle@.len(),
            i + nlen <= hlen,
            j <= nlen,
            forall|k: int| 0 <= k < j ==> hay@[i + k] == needle@[k],
        decreases nlen - j,
    {
        if hay.get_char(i + j) != needle.get_char(j) {
            return false;
        }
        j += 1;
    }
    true
}

/// Substring search: whether `needle` occurs anywhere in `hay`.
pub fn contains_substr(hay: &str, needle: &str) -> (r: bool)
    ensures
        r == contains_seq(hay@, needle@),
{
    let hlen = hay.unicode_len();
    let nlen = needle.unicode_len();
    if nlen > hlen {
        return false;
    }
    let mut i: usize = 0;
    while i <= hlen - nlen
        invariant
            hlen == hay@.len(),
            nlen == needle@.len(),
            nlen <= hlen,
            i <= hlen - nlen + 1,
            forall|k: int| 0 <= k < i ==> !matches_at(hay@, needle@, k),
        decreases hlen - nlen + 1 - i,
    {
        if match_at(hay, needle, i) {
            return true;
        }
        i += 1;
    }
    assert(forall|k: int| k >= i ==> !matches_at(hay@, needle@, k));
    false
}

/// Whether `p` is a prefix of `s`.
pub fn starts_with(s: &str, p: &str) -> (r: bool)
    ensures
        r == matches_at(s@, p@, 0),
{
    let slen = s.unicode_len();
    let plen = p.unicode_len();
    if plen > slen {
        return false;
    }
    match_at(s, p, 0)
}

/// Character-for-character string equality, stated over the views.
pub fn str_eq(a: &str, b: &str) -> (r: bool)
    ensures
        r == (a@ == b@),
{
    let alen = a.unicode_len();
    let blen = b.unicode_len();
    if alen != blen {
        return false;
    }
    let m = match_at(a, b, 0);
    proof {
        if m {
            assert(a@ =~= b@);
        }
    }
    m
}

/// The four ASCII whitespace characters this library trims.
pub open spec fn is_ws_char(c: char) -> bool {
    c == ' ' || c == '\t' || c == '\n' || c == '\r'
}

/// Index of the first non-whitespace character at or after `from`
/// (`s.len()` when everything from `from` on is whitespace).
pub open spec fn first_non_ws(s: Seq<char>, from: int) -> int
    decreases s.len() - from,
{
    if from < 0 || from >= s.len() {
        s.len() as int
    } else if is_ws_char(s[from]) {
        first_non_ws(s, from + 1)
    } else {
        from
    }
}

/// One past the last non-whitespace character strictly before `upto`
/// (`0` when everything before `upto` is whitespace).
pub open spec fn last_non_ws(s: Seq<char>, upto: int) -> int
    decreases upto,
{
    if upto <= 0 || upto > s.len() {
        0
    } else if is_ws_char(s[upto - 1]) {
        last_non_ws(s, upto - 1)
    } else {
        upto
    }
}

/// `s` with leading and trailing ASCII whitespace removed.
pub open spec fn trim_spec(s: Seq<char>) -> Seq<char> {
    let a = first_non_ws(s, 0);
    if a == s.len() {
        Seq::empty()
    } else {
        s.subrange(a, last_non_ws(s, s.len() as int))
    }
}

proof fn lemma_last_non_ws_past(s: Seq<char>, a: int, upto: int)
    requires
        0 <= a < upto <= s.len(),
        !is_ws_char(s[a]),
    ensures
        last_non_ws(s, upto) > a,
    decreases upto,
{
    if upto - 1 > a && is_ws_char(s[upto - 1]) {
        lemma_last_non_ws_past(s, a, upto - 1);
    }
}

proof fn lemma_last_non_ws_le(s: Seq<char>, upto: int)
    ensures
        last_non_ws(s, upto) <= (if upto >= 0 { upto } else { 0 }),
        last_non_ws(s, upto) >= 0,
    decreases upto,
{
    if upto > 0 && upto <= s.len() && is_ws_char(s[upto - 1]) {
        lemma_last_non_ws_le(s, upto - 1);
    }
}

/// `s` with leading and trailing ASCII whitespace (space, tab, newline,
/// carriage return) removed.
pub fn trim_ws(s: &str) -> (r: &str)
    ensures
        r@ == trim_spec(s@),
{
    let len = s.unicode_len();
    let mut a: usize = 0;
    while a < len && is_ws_exec(s.get_char(a))
        invariant
            len == s@.len(),
            a <= len,
            first_non_ws(s@, 0) == first_non_ws(s@, a as int),
        decreases len - a,
    {
        a += 1;
    }
    if a == len {
        proof {
            reveal_strlit("");
            assert(first_non_ws(s@, 0) == s@.len());
            assert(""@ =~= Seq::<char>::empty());
        }
        return "";
    }
    assert(first_non_ws(s@, 0) == a as int);
    let mut b: usize = len;
    while b > a && is_ws_exec(s.get_char(b - 1))
        invariant
            len == s@.len(),
            a < len,
            a <= b <= len,
            !is_ws_char(s@[a as int]),
            last_non_ws(s@, len as int) == last_non_ws(s@, b as int),
        decreases b,
    {
        b -= 1;
    }
    proof {
        lemma_last_non_ws_past(s@, a as int, len as int);
        if b == a {
            lemma_last_non_ws_le(s@, a as int);
            assert(false);
        }
        assert(last_non_ws(s@, b as int) == b as int);
    }
    s.substring_char(a, b)
}

fn is_ws_exec(c: char) -> (r: bool)
    ensures
        r == is_ws_char(c),
{
    c == ' ' || c == '\t' || c == '\n' || c == '\r'
}

} // verus!

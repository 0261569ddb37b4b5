//! Small verified string helpers: prefix tests, ASCII case folding,
//! whitespace trimming, and taking the last `/`-separated segment.

use vstd::prelude::*;
use vstd::string::StrSliceExecFns;

verus! {

/// `p` is a prefix of `s`.
pub open spec fn starts_with_spec(s: Seq<char>, p: Seq<char>) -> bool {
    p.len() <= s.len() && s.subrange(0, p.len() as int) == p
}

/// Whether `s` begins with the prefix `p`.
pub fn str_starts_with(s: &str, p: &str) -> (r: bool)
    ensures
        r == starts_with_spec(s@, p@),
{
    let sl = s.unicode_len();
    let pl = p.unicode_len();
    if pl > sl {
        return false;
    }
    let mut i: usize = 0;
    while i < pl
        invariant
            i <= pl <= sl,
            sl == s@.len(),
            pl == p@.len(),
            forall|k: int| 0 <= k < i ==> s@[k] == p@[k],
        decreases pl - i,
    {
        if s.get_char(i) != p.get_char(i) {
            proof {
                let sub = s@.subrange(0, pl as int);
                assert(sub[i as int] == s@[i as int]);
            }
            return false;
        }
        i += 1;
    }
    proof {
        assert(s@.subrange(0, pl as int) =~= p@);
    }
    true
}

/// `c` equals the lowercase letter `k` up to ASCII case: either the same
/// character, or its uppercase counterpart when `k` is an ASCII letter.
pub open spec fn char_matches_lower(c: char, k: char) -> bool {
    c == k || (('a' as int) <= k as int <= ('z' as int) && c as int == k as int - 32)
}

/// `s` equals the keyword `k` up to ASCII case, position by position.
pub open spec fn matches_ignore_ascii_case(s: Seq<char>, k: Seq<char>) -> bool {
    s.len() == k.len() && forall|i: int| 0 <= i < s.len() ==> char_matches_lower(s[i], k[i])
}

/// Whether `s` equals the lowercase keyword `kw` ignoring ASCII case.
pub fn str_eq_ignore_ascii_lower(s: &str, kw: &str) -> (r: bool)
    ensures
        r == matches_ignore_ascii_case(s@, kw@),
{
    let sl = s.unicode_len();
    let kl = kw.unicode_len();
    if sl != kl {
        return false;
    }
    let mut i: usize = 0;
    while i < kl
        invariant
            i <= kl,
            sl == s@.len(),
            kl == kw@.len(),
            sl == kl,
            forall|j: int| 0 <= j < i ==> char_matches_lower(s@[j], kw@[j]),
        decreases kl - i,
    {
        let c = s.get_char(i);
        let k = kw.get_char(i);
        let hit = c == k || ((k as u32) >= ('a' as u32) && (k as u32) <= ('z' as u32) && (k
            as u32) - 32 == (c as u32));
        if !hit {
            return false;
        }
        i += 1;
    }
    true
}

/// `s` holds the character `c` somewhere.
pub open spec fn has_char(s: Seq<char>, c: char) -> bool {
    exists|i: int| 0 <= i < s.len() && s[i] == c
}

/// Whether `s` holds the character `c` somewhere.
pub fn str_has_char(s: &str, c: char) -> (r: bool)
    ensures
        r == has_char(s@, c),
{
    let n = s.unicode_len();
    let mut i: usize = 0;
    while i < n
        invariant
            i <= n,
            n == s@.len(),
            forall|k: int| 0 <= k < i ==> s@[k] != c,
        decreases n - i,
    {
        if s.get_char(i) == c {
            return true;
        }
        i += 1;
    }
    false
}

/// An ASCII whitespace character: space, tab, line feed or carriage return.
pub open spec fn is_space_char(c: char) -> bool {
    c == ' ' || c == '\t' || c == '\n' || c == '\r'
}

fn char_is_space(c: char) -> (r: bool)
    ensures
        r == is_space_char(c),
{
    c == ' ' || c == '\t' || c == '\n' || c == '\r'
}

pub open spec fn trim_start_spec(s: Seq<char>) -> Seq<char>
    decreases s.len(),
{
    if s.len() > 0 && is_space_char(s[0]) {
        trim_start_spec(s.subrange(1, s.len() as int))
    } else {
        s
    }
}

pub open spec fn trim_end_spec(s: Seq<char>) -> Seq<char>
    decreases s.len(),
{
    if s.len() > 0 && is_space_char(s[s.len() - 1]) {
        trim_end_spec(s.subrange(0, s.len() - 1))
    } else {
        s
    }
}

/// `s` with ASCII whitespace removed from both ends.
pub open spec fn trim_spec(s: Seq<char>) -> Seq<char> {
    trim_end_spec(trim_start_spec(s))
}

proof fn lemma_trim_start_window(s: Seq<char>, i: int)
    requires
        0 <= i <= s.len(),
        forall|k: int| 0 <= k < i ==> is_space_char(s[k]),
        i == s.len() || !is_space_char(s[i]),
    ensures
        trim_start_spec(s) =~= s.subrange(i, s.len() as int),
    decreases i,
{
    if i == 0 {
        assert(s.subrange(0, s.len() as int) =~= s);
    } else {
        let t = s.subrange(1, s.len() as int);
        lemma_trim_start_window(t, i - 1);
        assert(t.subrange(i - 1, t.len() as int) =~= s.subrange(i, s.len() as int));
    }
}

proof fn lemma_trim_end_window(s: Seq<char>, j: int)
    requires
        0 <= j <= s.len(),
        forall|k: int| j <= k < s.len() ==> is_space_char(s[k]),
        j == 0 || !is_space_char(s[j - 1]),
    ensures
        trim_end_spec(s) =~= s.subrange(0, j),
    decreases s.len() - j,
{
    if j == s.len() {
        if s.len() > 0 && is_space_char(s[s.len() - 1]) {
            let t = s.subrange(0, s.len() - 1);
            lemma_trim_end_window(t, j - 1);
        } else {
            assert(s.subrange(0, s.len() as int) =~= s);
        }
    } else {
        let t = s.subrange(0, s.len() - 1);
        if s.len() > 0 && is_space_char(s[s.len() - 1]) {
            lemma_trim_end_window(t, j);
            assert(t.subrange(0, j) =~= s.subrange(0, j));
        }
    }
}

/// `s` with ASCII whitespace removed from both ends.
pub fn trim(s: &str) -> (r: String)
    ensures
        r@ == trim_spec(s@),
{
    let n = s.unicode_len();
    let mut i: usize = 0;
    while i < n && char_is_space(s.get_char(i))
        invariant
            i <= n,
            n == s@.len(),
            forall|k: int| 0 <= k < i ==> is_space_char(s@[k]),
        decreases n - i,
    {
        i += 1;
    }
    let mut j: usize = n;
    while j > i && char_is_space(s.get_char(j - 1))
        invariant
            i <= j <= n,
            n == s@.len(),
            forall|k: int| 0 <= k < i ==> is_space_char(s@[k]),
            forall|k: int| j <= k < n ==> is_space_char(s@[k]),
        decreases j,
    {
        j -= 1;
    }
    let cut = s.substring_char(i, j);
    proof {
        let t = trim_start_spec(s@);
        if i == j {
            lemma_trim_start_window(s@, j as int);
            lemma_trim_end_window(t, 0);
        } else {
            lemma_trim_start_window(s@, i as int);
            lemma_trim_end_window(t, j - i);
            assert(t.subrange(0, j - i) =~= s@.subrange(i as int, j as int));
        }
    }
    String::from_str(cut)
}

/// The part of `s` after the last `/`, or all of `s` when it has none.
pub open spec fn short_id_spec(s: Seq<char>) -> Seq<char>
    decreases s.len(),
{
    if s.len() == 0 {
        s
    } else if s[s.len() - 1] == '/' {
        Seq::empty()
    } else {
        short_id_spec(s.subrange(0, s.len() - 1)).push(s[s.len() - 1])
    }
}

proof fn lemma_short_id_window(s: Seq<char>, j: int)
    requires
        0 <= j <= s.len(),
        forall|k: int| j <= k < s.len() ==> s[k] != '/',
        j == 0 || s[j - 1] == '/',
    ensures
        short_id_spec(s) =~= s.subrange(j, s.len() as int),
    decreases s.len() - j,
{
    if j == s.len() {
        if s.len() > 0 {
            assert(s[s.len() - 1] == '/');
        }
    } else {
        let t = s.subrange(0, s.len() - 1);
        assert(s[s.len() - 1] != '/');
        lemma_short_id_window(t, j);
        assert(t.subrange(j, t.len() as int) =~= s.subrange(j, s.len() - 1));
    }
}

/// The trailing `/`-separated segment of a device name.
pub fn short_id(s: &str) -> (r: String)
    ensures
        r@ == short_id_spec(s@),
{
    let n = s.unicode_len();
    let mut j: usize = n;
    while j > 0 && s.get_char(j - 1) != '/'
        invariant
            j <= n,
            n == s@.len(),
            forall|k: int| j <= k < n ==> s@[k] != '/',
        decreases j,
    {
        j -= 1;
    }
    let cut = s.substring_char(j, n);
    proof {
        lemma_short_id_window(s@, j as int);
    }
    String::from_str(cut)
}

} // verus!

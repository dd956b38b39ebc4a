//! Verified character-level string helpers: locator splitting, substring
//! search, ASCII case-insensitive comparison and digit parsing.

use vstd::prelude::*;
use vstd::string::StrSliceExecFns;

verus! {

/// Index of the first occurrence of `c` in `s`, if any.
pub open spec fn first_index_of(s: Seq<char>, c: char) -> Option<int>
    decreases s.len(),
{
    if s.len() == 0 {
        None
    } else if s[0] == c {
        Some(0int)
    } else {
        match first_index_of(s.skip(1), c) {
            Some(i) => Some(i + 1),
            None => None,
        }
    }
}

/// Index of the last occurrence of `c` in `s`, if any.
pub open spec fn last_index_of(s: Seq<char>, c: char) -> Option<int>
    decreases s.len(),
{
    if s.len() == 0 {
        None
    } else if s[s.len() - 1] == c {
        Some(s.len() - 1)
    } else {
        last_index_of(s.drop_last(), c)
    }
}

/// What `first_index_of` returns: the position of `c`, with nothing equal
/// to `c` before it; or `None` when `c` does not occur at all.
pub proof fn lemma_first_index_of(s: Seq<char>, c: char)
    ensures
        match first_index_of(s, c) {
            Some(i) => 0 <= i < s.len() && s[i] == c && (forall|j: int| 0 <= j < i ==> s[j] != c),
            None => forall|j: int| 0 <= j < s.len() ==> s[j] != c,
        },
    decreases s.len(),
{
    if s.len() != 0 && s[0] != c {
        lemma_first_index_of(s.skip(1), c);
        match first_index_of(s.skip(1), c) {
            Some(i) => {
                assert(s[i + 1] == s.skip(1)[i]);
                assert forall|j: int| 0 <= j < i + 1 implies s[j] != c by {
                    if j > 0 {
                        assert(s[j] == s.skip(1)[j - 1]);
                    }
                }
            },
            None => {
                assert forall|j: int| 0 <= j < s.len() implies s[j] != c by {
                    if j > 0 {
                        assert(s[j] == s.skip(1)[j - 1]);
                    }
                }
            },
        }
    }
}

/// What `last_index_of` returns: the position of `c`, with nothing equal
/// to `c` after it; or `None` when `c` does not occur at all.
pub proof fn lemma_last_index_of(s: Seq<char>, c: char)
    ensures
        match last_index_of(s, c) {
            Some(i) => 0 <= i < s.len() && s[i] == c && (forall|j: int|
                i < j < s.len() ==> s[j] != c),
            None => forall|j: int| 0 <= j < s.len() ==> s[j] != c,
        },
    decreases s.len(),
{
    if s.len() != 0 && s[s.len() - 1] != c {
        lemma_last_index_of(s.drop_last(), c);
        assert(forall|j: int| 0 <= j < s.len() - 1 ==> s.drop_last()[j] == s[j]);
    }
}

/// Find the first occurrence of `c` in `s`.
pub fn find_char(s: &str, c: char) -> (r: Option<usize>)
    ensures
        match r {
            Some(i) => first_index_of(s@, c) == Some(i as int),
            None => first_index_of(s@, c) is None,
        },
{
    let n = s.unicode_len();
    let mut i: usize = 0;
    while i < n
        invariant
            i <= n,
            n == s@.len(),
            forall|j: int| 0 <= j < i ==> s@[j] != c,
        decreases n - i,
    {
        if s.get_char(i) == c {
            proof {
                lemma_first_index_of(s@, c);
            }
            return Some(i);
        }
        i = i + 1;
    }
    proof {
        lemma_first_index_of(s@, c);
    }
    None
}

/// Find the last occurrence of `c` in `s`.
pub fn rfind_char(s: &str, c: char) -> (r: Option<usize>)
    ensures
        match r {
            Some(i) => last_index_of(s@, c) == Some(i as int),
            None => last_index_of(s@, c) is None,
        },
{
    let n = s.unicode_len();
    let mut i: usize = n;
    while i > 0
        invariant
            i <= n,
            n == s@.len(),
            forall|j: int| i <= j < n ==> s@[j] != c,
        decreases i,
    {
        i = i - 1;
        if s.get_char(i) == c {
            proof {
                lemma_last_index_of(s@, c);
            }
            return Some(i);
        }
    }
    proof {
        lemma_last_index_of(s@, c);
    }
    None
}

/// Character-for-character string equality.
pub fn str_eq(a: &str, b: &str) -> (r: bool)
    ensures
        r == (a@ == b@),
{
    let an = a.unicode_len();
    let bn = b.unicode_len();
    if an != bn {
        proof {
            assert(a@ != b@);
        }
        return false;
    }
    let mut i: usize = 0;
    while i < an
        invariant
            i <= an,
            an == a@.len(),
            bn == b@.len(),
            an == bn,
            forall|j: int| 0 <= j < i ==> a@[j] == b@[j],
        decreases an - i,
    {
        if a.get_char(i) != b.get_char(i) {
            return false;
        }
        i = i + 1;
    }
    proof {
        assert(a@ =~= b@);
    }
    true
}

/// Whether `rev` is a revision locator of the project with locator
/// `proj`: `proj` is a strict prefix of `rev`, immediately followed by the
/// reserved separator. A project whose locator merely happens to be a
/// string prefix of another project's does not match.
pub open spec fn spec_revision_of_project(rev: Seq<char>, proj: Seq<char>) -> bool {
    rev.len() > proj.len() && rev.subrange(0, proj.len() as int) == proj && rev[proj.len() as int]
        == '$'
}

/// Decide [`spec_revision_of_project`] on string slices.
pub fn revision_of_project(rev: &str, proj: &str) -> (r: bool)
    ensures
        r == spec_revision_of_project(rev@, proj@),
{
    let rn = rev.unicode_len();
    let pn = proj.unicode_len();
    if rn <= pn {
        return false;
    }
    let mut i: usize = 0;
    while i < pn
        invariant
            i <= pn,
            pn == proj@.len(),
            rn == rev@.len(),
            rn > pn,
            forall|j: int| 0 <= j < i ==> rev@[j] == proj@[j],
        decreases pn - i,
    {
        if rev.get_char(i) != proj.get_char(i) {
            proof {
                assert(rev@.subrange(0, pn as int)[i as int] != proj@[i as int]);
            }
            return false;
        }
        i = i + 1;
    }
    proof {
        assert(rev@.subrange(0, pn as int) =~= proj@);
    }
    rev.get_char(pn) == '$'
}

/// Whether `needle` occurs as a contiguous subsequence of `hay`. The
/// empty needle occurs in every string.
pub open spec fn spec_contains_sub(hay: Seq<char>, needle: Seq<char>) -> bool {
    exists|i: int|
        0 <= i <= hay.len() - needle.len() && #[trigger] hay.subrange(i, i + needle.len())
            == needle
}

/// Substring search deciding [`spec_contains_sub`].
pub fn contains_sub(hay: &str, needle: &str) -> (r: bool)
    ensures
        r == spec_contains_sub(hay@, needle@),
{
    let hn = hay.unicode_len();
    let nn = needle.unicode_len();
    if nn > hn {
        return false;
    }
    if nn == 0 {
        proof {
            assert(hay@.subrange(0, 0 + needle@.len() as int) =~= needle@);
        }
        return true;
    }
    let mut start: usize = 0;
    while start <= hn - nn
        invariant
            0 < nn <= hn,
            hn == hay@.len(),
            nn == needle@.len(),
            start <= hn - nn + 1,
            forall|s: int|
                0 <= s < start ==> #[trigger] hay@.subrange(s, s + needle@.len()) != needle@,
        decreases hn - start,
    {
        let mut j: usize = 0;
        let mut matches = true;
        while j < nn
            invariant
                j <= nn,
                hn == hay@.len(),
                nn == needle@.len(),
                start + nn <= hn,
                matches ==> forall|k: int| 0 <= k < j ==> hay@[start + k] == needle@[k],
                !matches ==> hay@.subrange(start as int, start + needle@.len()) != needle@,
            decreases nn - j,
        {
            if hay.get_char(start + j) != needle.get_char(j) {
                proof {
                    assert(hay@.subrange(start as int, start + needle@.len())[j as int]
                        != needle@[j as int]);
                }
                matches = false;
                j = nn;
            } else {
                j = j + 1;
            }
        }
        if matches {
            proof {
                assert(hay@.subrange(start as int, start + needle@.len()) =~= needle@);
            }
            return true;
        }
        start = start + 1;
    }
    return false;
}

/// The code point of `c` with an ASCII capital letter folded to its small
/// form; every other character is left as it is.
pub open spec fn lower_code(c: char) -> int {
    if 'A' <= c && c <= 'Z' {
        c as int + 32
    } else {
        c as int
    }
}

/// Whether `a` and `b` are equal when ASCII capital and small letters are
/// identified; characters outside the ASCII letters must match exactly.
pub open spec fn spec_eq_ignore_ascii_case(a: Seq<char>, b: Seq<char>) -> bool {
    a.len() == b.len() && forall|i: int| 0 <= i < a.len() ==> lower_code(a[i]) == lower_code(b[i])
}

/// Decide [`spec_eq_ignore_ascii_case`] on string slices.
pub fn eq_ignore_ascii_case(a: &str, b: &str) -> (r: bool)
    ensures
        r == spec_eq_ignore_ascii_case(a@, b@),
{
    let an = a.unicode_len();
    let bn = b.unicode_len();
    if an != bn {
        return false;
    }
    let mut i: usize = 0;
    while i < an
        invariant
            i <= an,
            an == a@.len(),
            bn == b@.len(),
            an == bn,
            forall|j: int| 0 <= j < i ==> lower_code(a@[j]) == lower_code(b@[j]),
        decreases an - i,
    {
        let ca = a.get_char(i);
        let cb = b.get_char(i);
        let fa = if 'A' <= ca && ca <= 'Z' {
            ca as u32 + 32
        } else {
            ca as u32
        };
        let fb = if 'A' <= cb && cb <= 'Z' {
            cb as u32 + 32
        } else {
            cb as u32
        };
        if fa != fb {
            return false;
        }
        i = i + 1;
    }
    true
}

/// How a sequence of decimal digits reads as a number, carrying the
/// accumulator `acc` over positions `i..`; `None` when a non-digit occurs
/// or the value exceeds `u64::MAX`.
pub open spec fn parse_u64_from(s: Seq<char>, i: int, acc: nat) -> Option<nat>
    decreases s.len() - i,
{
    if i < 0 || i > s.len() {
        None
    } else if i == s.len() {
        Some(acc)
    } else if '0' <= s[i] && s[i] <= '9' {
        let d = (s[i] as u32 - '0' as u32) as nat;
        if acc * 10 + d <= u64::MAX as nat {
            parse_u64_from(s, i + 1, acc * 10 + d)
        } else {
            None
        }
    } else {
        None
    }
}

/// The number that `s` denotes: one or more decimal digits whose value
/// fits in a `u64`, and nothing else.
pub open spec fn parse_u64_spec(s: Seq<char>) -> Option<u64> {
    if s.len() == 0 {
        None
    } else {
        match parse_u64_from(s, 0, 0) {
            Some(v) => Some(v as u64),
            None => None,
        }
    }
}

/// Parse `s` as an unsigned 64-bit decimal number per [`parse_u64_spec`].
pub fn parse_u64(s: &str) -> (r: Option<u64>)
    ensures
        r == parse_u64_spec(s@),
{
    let n = s.unicode_len();
    if n == 0 {
        return None;
    }
    let mut acc: u64 = 0;
    let mut i: usize = 0;
    while i < n
        invariant
            i <= n,
            n == s@.len(),
            n > 0,
            parse_u64_from(s@, 0, 0) == parse_u64_from(s@, i as int, acc as nat),
        decreases n - i,
    {
        let c = s.get_char(i);
        if c < '0' || c > '9' {
            return None;
        }
        let d = (c as u32 - '0' as u32) as u64;
        let wide = acc as u128 * 10 + d as u128;
        if wide > u64::MAX as u128 {
            return None;
        }
        acc = wide as u64;
        i = i + 1;
    }
    Some(acc)
}

/// The number that `s` denotes when it also fits in a `u32`.
pub open spec fn parse_u32_spec(s: Seq<char>) -> Option<u32> {
    match parse_u64_spec(s) {
        Some(v) => if v <= u32::MAX as u64 {
            Some(v as u32)
        } else {
            None
        },
        None => None,
    }
}

/// Parse `s` as an unsigned 32-bit decimal number: the value must denote
/// a number per [`parse_u64_spec`] that also fits in a `u32`.
pub fn parse_u32(s: &str) -> (r: Option<u32>)
    ensures
        r == parse_u32_spec(s@),
{
    match parse_u64(s) {
        Some(v) => {
            if v <= u32::MAX as u64 {
                Some(v as u32)
            } else {
                None
            }
        },
        None => None,
    }
}

} // verus!

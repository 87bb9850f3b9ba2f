//! Verified string utilities: comparison, affix tests, and trimming.
//!
//! Toolchain names and on-disk paths are plain strings; everything the
//! library states about them is phrased over `Seq<char>` views.

use vstd::prelude::*;
use vstd::string::StrSliceExecFns;
use vstd::string::StringExecFns;

verus! {

/// Lexicographic order on character sequences, by code point.
pub open spec fn lex_le(a: Seq<char>, b: Seq<char>) -> bool
    decreases a.len(),
{
    if a.len() == 0 {
        true
    } else if b.len() == 0 {
        false
    } else if a[0] != b[0] {
        (a[0] as u32) < (b[0] as u32)
    } else {
        lex_le(a.drop_first(), b.drop_first())
    }
}

/// `lex_le` is total: two sequences always compare one way or the other.
pub proof fn lemma_lex_le_total(a: Seq<char>, b: Seq<char>)
    ensures
        lex_le(a, b) || lex_le(b, a),
    decreases a.len(),
{
    if a.len() != 0 && b.len() != 0 {
        if a[0] == b[0] {
            lemma_lex_le_total(a.drop_first(), b.drop_first());
        } else {
            vstd::utf8::char_u32_cast(a[0], a[0] as u32);
            vstd::utf8::char_u32_cast(b[0], b[0] as u32);
            assert(a[0] as u32 != b[0] as u32);
        }
    }
}

/// `lex_le` is transitive.
pub proof fn lemma_lex_le_transitive(a: Seq<char>, b: Seq<char>, c: Seq<char>)
    requires
        lex_le(a, b),
        lex_le(b, c),
    ensures
        lex_le(a, c),
    decreases a.len(),
{
    if a.len() != 0 && b.len() != 0 && c.len() != 0 {
        if a[0] == b[0] && b[0] == c[0] {
            lemma_lex_le_transitive(a.drop_first(), b.drop_first(), c.drop_first());
        }
    }
}

/// Whether `c` is a hexadecimal digit, of either case.
pub open spec fn is_hex_digit(c: char) -> bool {
    ||| ('0' as u32) <= (c as u32) <= ('9' as u32)
    ||| ('a' as u32) <= (c as u32) <= ('f' as u32)
    ||| ('A' as u32) <= (c as u32) <= ('F' as u32)
}

/// Whether `c` is a lower-case hexadecimal digit.
pub open spec fn is_hex_lower_digit(c: char) -> bool {
    ||| ('0' as u32) <= (c as u32) <= ('9' as u32)
    ||| ('a' as u32) <= (c as u32) <= ('f' as u32)
}

/// Whether every character of `s` is a lower-case hexadecimal digit.
pub open spec fn is_hex_lower(s: Seq<char>) -> bool {
    forall|i: int| 0 <= i < s.len() ==> is_hex_lower_digit(#[trigger] s[i])
}

/// Whether two strings hold the same characters.
pub fn str_eq(a: &str, b: &str) -> (r: bool)
    ensures
        r == (a@ == b@),
{
    let an: usize = a.unicode_len();
    let bn: usize = b.unicode_len();
    if an != bn {
        return false;
    }
    let mut i: usize = 0;
    while i < an
        invariant
            an == a@.len(),
            an == b@.len(),
            i <= an,
            forall|j: int| 0 <= j < i ==> a@[j] == b@[j],
        decreases an - i,
    {
        if a.get_char(i) != b.get_char(i) {
            return false;
        }
        i = i + 1;
    }
    proof {
        assert(a@ =~= b@);
    }
    true
}

/// Whether `p` is a prefix of `s`.
pub fn str_starts_with(s: &str, p: &str) -> (r: bool)
    ensures
        r == p@.is_prefix_of(s@),
{
    let sn: usize = s.unicode_len();
    let pn: usize = p.unicode_len();
    if pn > sn {
        return false;
    }
    let mut i: usize = 0;
    while i < pn
        invariant
            sn == s@.len(),
            pn == p@.len(),
            pn <= sn,
            i <= pn,
            forall|j: int| 0 <= j < i ==> s@[j] == p@[j],
        decreases pn - i,
    {
        if s.get_char(i) != p.get_char(i) {
            return false;
        }
        i = i + 1;
    }
    proof {
        assert(s@.subrange(0, pn as int) =~= p@);
    }
    true
}

/// Whether `p` is a suffix of `s`.
pub fn str_ends_with(s: &str, p: &str) -> (r: bool)
    ensures
        r == p@.is_suffix_of(s@),
{
    let sn: usize = s.unicode_len();
    let pn: usize = p.unicode_len();
    if pn > sn {
        return false;
    }
    let off: usize = sn - pn;
    let mut i: usize = 0;
    while i < pn
        invariant
            sn == s@.len(),
            pn == p@.len(),
            off == sn - pn,
            i <= pn,
            forall|j: int| 0 <= j < i ==> s@[off + j] == p@[j],
        decreases pn - i,
    {
        if s.get_char(off + i) != p.get_char(i) {
            return false;
        }
        i = i + 1;
    }
    proof {
        assert(s@.subrange(off as int, sn as int) =~= p@);
    }
    true
}

/// Whether `a` sorts at or before `b`, lexicographically by code point.
pub fn str_le(a: &str, b: &str) -> (r: bool)
    ensures
        r == lex_le(a@, b@),
{
    let an: usize = a.unicode_len();
    let bn: usize = b.unicode_len();
    let n: usize = if an < bn {
        an
    } else {
        bn
    };
    let mut i: usize = 0;
    proof {
        assert(a@.skip(0) =~= a@);
        assert(b@.skip(0) =~= b@);
    }
    while i < n
        invariant
            an == a@.len(),
            bn == b@.len(),
            n == if an < bn {
                an as int
            } else {
                bn as int
            },
            i <= n,
            forall|j: int| 0 <= j < i ==> a@[j] == b@[j],
            lex_le(a@, b@) == lex_le(a@.skip(i as int), b@.skip(i as int)),
        decreases n - i,
    {
        let ca = a.get_char(i);
        let cb = b.get_char(i);
        if ca != cb {
            return (ca as u32) < (cb as u32);
        }
        proof {
            assert(a@.skip(i as int).drop_first() =~= a@.skip(i + 1));
            assert(b@.skip(i as int).drop_first() =~= b@.skip(i + 1));
        }
        i = i + 1;
    }
    proof {
        if an <= bn {
            assert(a@.skip(n as int).len() == 0);
        } else {
            assert(b@.skip(n as int).len() == 0);
            assert(a@.skip(n as int).len() > 0);
        }
    }
    an <= bn
}

/// Whether `sub` occurs contiguously somewhere in `s`.
pub open spec fn spec_contains_sub(s: Seq<char>, sub: Seq<char>) -> bool {
    exists|i: int| 0 <= i && i + sub.len() <= s.len() && #[trigger] s.subrange(i, i + sub.len()) == sub
}

/// Decides [`spec_contains_sub`].
pub fn str_contains(s: &str, sub: &str) -> (r: bool)
    ensures
        r == spec_contains_sub(s@, sub@),
{
    let sn: usize = s.unicode_len();
    let m: usize = sub.unicode_len();
    if m == 0 {
        proof {
            assert(s@.subrange(0, 0 + sub@.len() as int) =~= sub@);
        }
        return true;
    }
    if m > sn {
        proof {
            if spec_contains_sub(s@, sub@) {
                let w = choose|w: int|
                    0 <= w && w + sub@.len() <= s@.len() && #[trigger] s@.subrange(
                        w,
                        w + sub@.len(),
                    ) == sub@;
                assert(w + sub@.len() <= s@.len());
            }
        }
        return false;
    }
    let mut i: usize = 0;
    while i <= sn - m
        invariant
            sn == s@.len(),
            m == sub@.len(),
            1 <= m <= sn,
            i <= sn - m + 1,
            forall|j: int| 0 <= j < i ==> #[trigger] s@.subrange(j, j + sub@.len()) != sub@,
        decreases sn - i,
    {
        let piece: &str = s.substring_char(i, i + m);
        if str_eq(piece, sub) {
            return true;
        }
        i = i + 1;
    }
    proof {
        if spec_contains_sub(s@, sub@) {
            let w = choose|w: int|
                0 <= w && w + sub@.len() <= s@.len() && #[trigger] s@.subrange(
                    w,
                    w + sub@.len(),
                ) == sub@;
            assert(s@.subrange(w, w + sub@.len()) != sub@);
        }
    }
    false
}

/// The first `n` characters of `s`, as an owned string.
pub fn take_chars(s: &str, n: usize) -> (r: String)
    requires
        n <= s@.len(),
    ensures
        r@ == s@.take(n as int),
{
    let part: &str = s.substring_char(0, n);
    String::from_str(part)
}

/// What remains of `s` after every trailing copy of `pat` is removed.
pub open spec fn spec_trim_end(s: Seq<char>, pat: Seq<char>) -> Seq<char>
    decreases s.len(),
{
    if pat.len() == 0 || !pat.is_suffix_of(s) {
        s
    } else {
        spec_trim_end(s.take(s.len() - pat.len()), pat)
    }
}

/// Removes every trailing copy of `pat` from `s`.
pub fn trim_end_matches(s: &str, pat: &str) -> (r: String)
    ensures
        r@ == spec_trim_end(s@, pat@),
{
    let mut cur: String = String::from_str(s);
    let pn: usize = pat.unicode_len();
    if pn == 0 {
        return cur;
    }
    loop
        invariant
            pn == pat@.len(),
            pn > 0,
            spec_trim_end(s@, pat@) == spec_trim_end(cur@, pat@),
        decreases cur@.len(),
    {
        if !str_ends_with(cur.as_str(), pat) {
            return cur;
        }
        let cn: usize = cur.as_str().unicode_len();
        cur = take_chars(cur.as_str(), cn - pn);
    }
}

} // verus!

//! Character classification and small string utilities shared by the
//! callsign parser and the field coercion helpers.

use vstd::prelude::*;
use vstd::string::StrSliceExecFns;

verus! {

/// A character with the Unicode `White_Space` property, the set that
/// `str::trim` removes from both ends of a string.
pub open spec fn is_whitespace_char(c: char) -> bool {
    let u = c as u32;
    ||| (0x09 <= u && u <= 0x0D)
    ||| u == 0x20
    ||| u == 0x85
    ||| u == 0xA0
    ||| u == 0x1680
    ||| (0x2000 <= u && u <= 0x200A)
    ||| u == 0x2028
    ||| u == 0x2029
    ||| u == 0x202F
    ||| u == 0x205F
    ||| u == 0x3000
}

/// An ASCII letter or digit.
pub open spec fn is_alnum_char(c: char) -> bool {
    let u = c as u32;
    ||| (0x30 <= u && u <= 0x39)
    ||| (0x41 <= u && u <= 0x5A)
    ||| (0x61 <= u && u <= 0x7A)
}

/// ASCII uppercasing of a single character: `a`..=`z` map to `A`..=`Z`,
/// everything else is unchanged.
pub open spec fn upper_char(c: char) -> char {
    if 0x61 <= c as u32 && c as u32 <= 0x7A {
        (c as u32 - 0x20) as char
    } else {
        c
    }
}

/// ASCII uppercasing of a whole character sequence.
pub open spec fn upper_seq(s: Seq<char>) -> Seq<char> {
    s.map_values(|c: char| upper_char(c))
}

/// Index of the first character at or after `i` that is not whitespace,
/// or the length of `s` when none is.
pub open spec fn first_non_ws(s: Seq<char>, i: int) -> int
    decreases s.len() - i,
{
    if i < 0 || i >= s.len() {
        s.len() as int
    } else if !is_whitespace_char(s[i]) {
        i
    } else {
        first_non_ws(s, i + 1)
    }
}

/// One past the index of the last non-whitespace character strictly before
/// `i`, or `0` when every character before `i` is whitespace.
pub open spec fn scan_back_non_ws(s: Seq<char>, i: int) -> int
    decreases i,
{
    if i <= 0 || i > s.len() {
        0
    } else if !is_whitespace_char(s[i - 1]) {
        i
    } else {
        scan_back_non_ws(s, i - 1)
    }
}

/// The string with leading and trailing whitespace removed.
pub open spec fn trim_spec(s: Seq<char>) -> Seq<char> {
    let f = first_non_ws(s, 0);
    if f == s.len() {
        Seq::empty()
    } else {
        s.subrange(f, scan_back_non_ws(s, s.len() as int))
    }
}

pub fn is_whitespace_exec(c: char) -> (r: bool)
    ensures
        r == is_whitespace_char(c),
{
    let u = c as u32;
    (0x09 <= u && u <= 0x0D) || u == 0x20 || u == 0x85 || u == 0xA0 || u == 0x1680 || (0x2000 <= u
        && u <= 0x200A) || u == 0x2028 || u == 0x2029 || u == 0x202F || u == 0x205F || u == 0x3000
}

pub fn is_alnum_exec(c: char) -> (r: bool)
    ensures
        r == is_alnum_char(c),
{
    let u = c as u32;
    (0x30 <= u && u <= 0x39) || (0x41 <= u && u <= 0x5A) || (0x61 <= u && u <= 0x7A)
}

pub fn upper_exec(c: char) -> (r: char)
    ensures
        r == upper_char(c),
{
    let u = c as u32;
    if 0x61 <= u && u <= 0x7A {
        ((u - 0x20) as u8) as char
    } else {
        c
    }
}

/// Relies on `String::push`: appends one character at the end.
#[verifier::external_body]
pub fn push_char(s: &mut String, c: char)
    ensures
        final(s)@ == old(s)@.push(c),
{
    s.push(c);
}

/// When every character before `f` is whitespace and `s[f]` is not, the
/// backward whitespace scan from any point beyond `f` stays beyond `f`.
proof fn lemma_scan_back_above(s: Seq<char>, i: int, f: int)
    requires
        0 <= f < s.len(),
        !is_whitespace_char(s[f]),
        f < i <= s.len(),
    ensures
        f < scan_back_non_ws(s, i) <= i,
    decreases i,
{
    if is_whitespace_char(s[i - 1]) {
        if i - 1 == f {
            assert(false);
        } else {
            lemma_scan_back_above(s, i - 1, f);
        }
    }
}

/// Removes leading and trailing whitespace, exactly as [`trim_spec`] states.
pub fn trim_str<'a>(s: &'a str) -> (t: &'a str)
    ensures
        t@ == trim_spec(s@),
{
    let n = s.unicode_len();
    let mut i: usize = 0;
    while i < n && is_whitespace_exec(s.get_char(i))
        invariant
            n == s@.len(),
            i <= n,
            first_non_ws(s@, 0) == first_non_ws(s@, i as int),
        decreases n - i,
    {
        i = i + 1;
    }
    if i == n {
        proof {
            reveal_strlit("");
            assert(""@ =~= trim_spec(s@));
        }
        return "";
    }
    assert(first_non_ws(s@, 0) == i as int);
    let mut e: usize = n;
    while e > i && is_whitespace_exec(s.get_char(e - 1))
        invariant
            n == s@.len(),
            i < n,
            i < e <= n,
            !is_whitespace_char(s@[i as int]),
            scan_back_non_ws(s@, e as int) == scan_back_non_ws(s@, n as int),
        decreases e,
    {
        proof {
            if e - 1 == i {
                assert(false);
            }
        }
        e = e - 1;
    }
    assert(scan_back_non_ws(s@, n as int) == e as int);
    let t = s.substring_char(i, e);
    assert(t@ == trim_spec(s@));
    t
}

/// Character-for-character string equality, stated over the views.
pub fn str_eq(a: &str, b: &str) -> (r: bool)
    ensures
        r == (a@ == b@),
{
    let n = a.unicode_len();
    let m = b.unicode_len();
    if n != m {
        return false;
    }
    let mut i: usize = 0;
    while i < n
        invariant
            n == a@.len(),
            n == b@.len(),
            i <= n,
            forall|j: int| 0 <= j < i ==> a@[j] == b@[j],
        decreases n - i,
    {
        if a.get_char(i) != b.get_char(i) {
            return false;
        }
        i = i + 1;
    }
    proof {
        assert(a@ =~= b@);
    }
    true
}

} // verus!

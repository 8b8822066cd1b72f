//! Validation and normalization of raw callsign strings.
//!
//! A callsign consists of a base token and, after an optional `/`, a suffix
//! token.  Both tokens are uppercased and must contain only ASCII letters and
//! digits; the base must be 3 to 10 characters long.  [`parse_spec`] states
//! the whole algorithm over character sequences and [`parse_callsign`] is
//! proved to return exactly that result.

use vstd::prelude::*;
use vstd::string::StrSliceExecFns;

use crate::text::{
    first_non_ws, is_alnum_char, is_alnum_exec, is_whitespace_char, push_char, scan_back_non_ws,
    trim_spec, trim_str, upper_char, upper_exec, upper_seq,
};

verus! {

/// Parsed representation of a callsign.
///
/// The `base` portion contains only uppercase ASCII letters and digits. An
/// optional suffix (anything after `/`) is preserved if present.
#[derive(Debug, Clone, PartialEq, Eq)]
pub struct ParsedCallsign {
    pub base: String,
    pub suffix: Option<String>,
}

/// Why a callsign string was rejected.
///
/// `InvalidChar` and `InvalidLength` carry the original input; the index of
/// an invalid character counts positions in the trimmed input, exactly as it
/// was scanned.
#[derive(Debug, Clone, PartialEq, Eq)]
pub enum CallsignParseError {
    Empty,
    InvalidChar { input: String, ch: char, index: usize },
    InvalidLength { input: String, len: usize },
}

/// Mathematical value of a [`ParsedCallsign`].
#[verifier::ext_equal]
pub struct ParsedView {
    pub base: Seq<char>,
    pub suffix: Option<Seq<char>>,
}

/// Mathematical value of a [`CallsignParseError`].
#[verifier::ext_equal]
pub enum ParseErrorView {
    Empty,
    InvalidChar { input: Seq<char>, ch: char, index: int },
    InvalidLength { input: Seq<char>, len: int },
}

impl View for ParsedCallsign {
    type V = ParsedView;

    open spec fn view(&self) -> ParsedView {
        ParsedView {
            base: self.base@,
            suffix: match self.suffix {
                Some(s) => Some(s@),
                None => None,
            },
        }
    }
}

impl View for CallsignParseError {
    type V = ParseErrorView;

    open spec fn view(&self) -> ParseErrorView {
        match self {
            CallsignParseError::Empty => ParseErrorView::Empty,
            CallsignParseError::InvalidChar { input, ch, index } => ParseErrorView::InvalidChar {
                input: input@,
                ch: *ch,
                index: *index as int,
            },
            CallsignParseError::InvalidLength { input, len } => ParseErrorView::InvalidLength {
                input: input@,
                len: *len as int,
            },
        }
    }
}

/// Mathematical value of a whole parse result.
pub open spec fn parse_result_view(
    res: Result<ParsedCallsign, CallsignParseError>,
) -> Result<ParsedView, ParseErrorView> {
    match res {
        Ok(p) => Ok(p@),
        Err(e) => Err(e@),
    }
}

/// Shortest base token that is accepted.
pub const MIN_BASE_LEN: usize = 3;

/// Longest base token that is accepted.
pub const MAX_BASE_LEN: usize = 10;

/// Index of the first character at or after `i` that ends the base region:
/// a `/` or a character that is not ASCII alphanumeric.  Equals the length
/// of `t` when the whole remainder is alphanumeric.
pub open spec fn scan_base(t: Seq<char>, i: int) -> int
    decreases t.len() - i,
{
    if i < 0 || i >= t.len() {
        t.len() as int
    } else if t[i] == '/' || !is_alnum_char(t[i]) {
        i
    } else {
        scan_base(t, i + 1)
    }
}

/// Index of the first character at or after `i` that is not ASCII
/// alphanumeric, or the length of `t` when all of them are.
pub open spec fn scan_suffix(t: Seq<char>, i: int) -> int
    decreases t.len() - i,
{
    if i < 0 || i >= t.len() {
        t.len() as int
    } else if !is_alnum_char(t[i]) {
        i
    } else {
        scan_suffix(t, i + 1)
    }
}

/// The full parsing algorithm, stated over the view of the input.
///
/// The input is trimmed; an empty remainder is rejected.  The base region
/// runs up to the first `/`; a non-alphanumeric character in either region
/// is reported with its position in the trimmed input, the base region
/// first.  An all-whitespace suffix region cannot arise (whitespace is not
/// alphanumeric), and an empty one collapses to an absent suffix.  A base
/// that is empty is rejected as `Empty`, one whose length falls outside
/// `[MIN_BASE_LEN, MAX_BASE_LEN]` as `InvalidLength`.
pub open spec fn parse_spec(s: Seq<char>) -> Result<ParsedView, ParseErrorView> {
    let t = trim_spec(s);
    if t.len() == 0 {
        Err(ParseErrorView::Empty)
    } else {
        let stop = scan_base(t, 0);
        if stop < t.len() && t[stop] != '/' {
            Err(ParseErrorView::InvalidChar { input: s, ch: t[stop], index: stop })
        } else if stop == t.len() {
            if stop < MIN_BASE_LEN || stop > MAX_BASE_LEN {
                Err(ParseErrorView::InvalidLength { input: s, len: stop })
            } else {
                Ok(ParsedView { base: upper_seq(t), suffix: None })
            }
        } else {
            let bad = scan_suffix(t, stop + 1);
            if bad < t.len() {
                Err(ParseErrorView::InvalidChar { input: s, ch: t[bad], index: bad })
            } else if stop == 0 {
                Err(ParseErrorView::Empty)
            } else if stop < MIN_BASE_LEN || stop > MAX_BASE_LEN {
                Err(ParseErrorView::InvalidLength { input: s, len: stop })
            } else {
                Ok(
                    ParsedView {
                        base: upper_seq(t.subrange(0, stop)),
                        suffix: if stop + 1 == t.len() {
                            None
                        } else {
                            Some(upper_seq(t.subrange(stop + 1, t.len() as int)))
                        },
                    },
                )
            }
        }
    }
}

/// The scans stay between their starting point and the end of the string.
proof fn lemma_scan_bounds(t: Seq<char>, i: int)
    requires
        0 <= i <= t.len(),
    ensures
        i <= scan_base(t, i) <= t.len(),
        i <= scan_suffix(t, i) <= t.len(),
    decreases t.len() - i,
{
    if i < t.len() {
        lemma_scan_bounds(t, i + 1);
    }
}

/// Every character strictly before the stop of the base scan is
/// alphanumeric and not a slash.
proof fn lemma_scan_base_prefix(t: Seq<char>, i: int, j: int)
    requires
        0 <= i <= j < t.len(),
        j < scan_base(t, i),
    ensures
        is_alnum_char(t[j]) && t[j] != '/',
    decreases j - i,
{
    if i < j {
        lemma_scan_base_prefix(t, i + 1, j);
    }
}

/// Every character strictly before the stop of the suffix scan is
/// alphanumeric.
proof fn lemma_scan_suffix_prefix(t: Seq<char>, i: int, j: int)
    requires
        0 <= i <= j < t.len(),
        j < scan_suffix(t, i),
    ensures
        is_alnum_char(t[j]),
    decreases j - i,
{
    if i < j {
        lemma_scan_suffix_prefix(t, i + 1, j);
    }
}

/// When everything from `i` on is alphanumeric, the base scan runs to the
/// end.
proof fn lemma_scan_base_all_alnum(t: Seq<char>, i: int)
    requires
        0 <= i <= t.len(),
        forall|j: int| i <= j < t.len() ==> is_alnum_char(t[j]),
    ensures
        scan_base(t, i) == t.len(),
    decreases t.len() - i,
{
    if i < t.len() {
        assert(is_alnum_char(t[i]));
        assert(t[i] != '/');
        lemma_scan_base_all_alnum(t, i + 1);
    }
}

/// A token made of uppercase ASCII letters and digits only.
pub open spec fn upper_alnum(s: Seq<char>) -> bool {
    forall|i: int| 0 <= i < s.len() ==> is_alnum_char(s[i]) && upper_char(s[i]) == s[i]
}

/// ASCII uppercasing keeps a character alphanumeric and is idempotent.
proof fn lemma_upper_alnum(x: Seq<char>)
    requires
        forall|i: int| 0 <= i < x.len() ==> is_alnum_char(x[i]),
    ensures
        upper_alnum(upper_seq(x)),
{
    assert forall|i: int| 0 <= i < upper_seq(x).len() implies is_alnum_char(upper_seq(x)[i])
        && upper_char(upper_seq(x)[i]) == upper_seq(x)[i] by {
        assert(is_alnum_char(x[i]));
    }
}

/// Invariant of every accepted callsign: the base is 3 to 10 uppercase
/// alphanumeric characters, and a suffix, when present, is non-empty and
/// uppercase alphanumeric as well.
pub proof fn lemma_parse_well_formed(s: Seq<char>)
    ensures
        parse_spec(s) matches Ok(p) ==> {
            &&& MIN_BASE_LEN <= p.base.len() <= MAX_BASE_LEN
            &&& upper_alnum(p.base)
            &&& (p.suffix matches Some(x) ==> x.len() > 0 && upper_alnum(x))
        },
{
    let t = trim_spec(s);
    if parse_spec(s) is Ok {
        let stop = scan_base(t, 0);
        lemma_scan_bounds(t, 0);
        if stop < t.len() {
            lemma_scan_bounds(t, stop + 1);
        }
        if stop == t.len() {
            assert forall|j: int| 0 <= j < t.len() implies is_alnum_char(t[j]) by {
                lemma_scan_base_prefix(t, 0, j);
            }
            lemma_upper_alnum(t);
        } else {
            let base_region = t.subrange(0, stop);
            assert forall|j: int| 0 <= j < base_region.len() implies is_alnum_char(
                base_region[j],
            ) by {
                lemma_scan_base_prefix(t, 0, j);
            }
            lemma_upper_alnum(base_region);
            if stop + 1 < t.len() {
                let suffix_region = t.subrange(stop + 1, t.len() as int);
                assert forall|j: int| 0 <= j < suffix_region.len() implies is_alnum_char(
                    suffix_region[j],
                ) by {
                    lemma_scan_suffix_prefix(t, stop + 1, stop + 1 + j);
                }
                lemma_upper_alnum(suffix_region);
            }
        }
    }
}

/// A plain callsign parses to its own uppercasing: a string of 3 to 10
/// ASCII alphanumeric characters, with no `/`, yields that string
/// uppercased as the base and no suffix.
pub proof fn lemma_plain_alnum_parses(s: Seq<char>)
    requires
        MIN_BASE_LEN <= s.len() <= MAX_BASE_LEN,
        forall|i: int| 0 <= i < s.len() ==> is_alnum_char(s[i]),
    ensures
        parse_spec(s) == Ok::<ParsedView, ParseErrorView>(
            ParsedView { base: upper_seq(s), suffix: None },
        ),
{
    assert(!is_whitespace_char(s[0]));
    assert(first_non_ws(s, 0) == 0);
    assert(!is_whitespace_char(s[s.len() - 1]));
    assert(scan_back_non_ws(s, s.len() as int) == s.len() as int);
    assert(trim_spec(s) =~= s);
    lemma_scan_base_all_alnum(s, 0);
}

/// Parsing is a pure function of the input: any two results that the
/// parser's contract allows for the same input are the same.
pub proof fn lemma_parse_deterministic(
    s: Seq<char>,
    r1: Result<ParsedView, ParseErrorView>,
    r2: Result<ParsedView, ParseErrorView>,
)
    requires
        r1 == parse_spec(s),
        r2 == parse_spec(s),
    ensures
        r1 == r2,
{
}

fn scan_base_exec(t: &str, i: usize, n: usize) -> (r: usize)
    requires
        n == t@.len(),
        i <= n,
    ensures
        r == scan_base(t@, i as int),
        i <= r <= n,
    decreases n - i,
{
    if i >= n {
        i
    } else {
        let c = t.get_char(i);
        if c == '/' || !is_alnum_exec(c) {
            i
        } else {
            scan_base_exec(t, i + 1, n)
        }
    }
}

fn scan_suffix_exec(t: &str, i: usize, n: usize) -> (r: usize)
    requires
        n == t@.len(),
        i <= n,
    ensures
        r == scan_suffix(t@, i as int),
        i <= r <= n,
    decreases n - i,
{
    if i >= n {
        i
    } else {
        let c = t.get_char(i);
        if !is_alnum_exec(c) {
            i
        } else {
            scan_suffix_exec(t, i + 1, n)
        }
    }
}

/// Uppercased copy of the characters of `t` between `from` and `to`.
fn upper_substring(t: &str, from: usize, to: usize) -> (r: String)
    requires
        from <= to <= t@.len(),
    ensures
        r@ == upper_seq(t@.subrange(from as int, to as int)),
{
    let mut r = String::new();
    let mut j = from;
    while j < to
        invariant
            from <= j <= to <= t@.len(),
            r@ == upper_seq(t@.subrange(from as int, j as int)),
        decreases to - j,
    {
        let c = t.get_char(j);
        push_char(&mut r, upper_exec(c));
        proof {
            assert(r@ =~= upper_seq(t@.subrange(from as int, j + 1 as int)));
        }
        j = j + 1;
    }
    r
}

/// Parse a string into a [`ParsedCallsign`], validating general formatting.
///
/// The parser trims whitespace, uppercases ASCII letters, enforces a global
/// length bound on the base and only allows alphanumeric characters.  Any
/// suffix (text after `/`) is also uppercased and returned separately.  The
/// result is exactly [`parse_spec`] of the input.
pub fn parse_callsign(input: &str) -> (res: Result<ParsedCallsign, CallsignParseError>)
    ensures
        parse_result_view(res) == parse_spec(input@),
{
    let t = trim_str(input);
    let n = t.unicode_len();
    if n == 0 {
        return Err(CallsignParseError::Empty);
    }
    let stop = scan_base_exec(t, 0, n);
    if stop < n {
        let c = t.get_char(stop);
        if c != '/' {
            return Err(
                CallsignParseError::InvalidChar { input: input.to_owned(), ch: c, index: stop },
            );
        }
    }
    if stop == n {
        if stop < MIN_BASE_LEN || stop > MAX_BASE_LEN {
            return Err(CallsignParseError::InvalidLength { input: input.to_owned(), len: stop });
        }
        let base = upper_substring(t, 0, n);
        proof {
            assert(t@.subrange(0, n as int) =~= t@);
        }
        return Ok(ParsedCallsign { base, suffix: None });
    }
    let bad = scan_suffix_exec(t, stop + 1, n);
    if bad < n {
        let c = t.get_char(bad);
        return Err(CallsignParseError::InvalidChar { input: input.to_owned(), ch: c, index: bad });
    }
    if stop == 0 {
        return Err(CallsignParseError::Empty);
    }
    if stop < MIN_BASE_LEN || stop > MAX_BASE_LEN {
        return Err(CallsignParseError::InvalidLength { input: input.to_owned(), len: stop });
    }
    let base = upper_substring(t, 0, stop);
    let suffix = if stop + 1 == n {
        None
    } else {
        Some(upper_substring(t, stop + 1, n))
    };
    Ok(ParsedCallsign { base, suffix })
}

} // verus!

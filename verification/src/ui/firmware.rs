use vstd::prelude::*;

use crate::text::{chars_of, is_digit, parse_unsigned, parse_unsigned_spec, string_from_chars};

verus! {

/// The oldest firmware major version with every feature the client uses
/// (per-node DM encryption, key-based remote administration).
pub const MIN_PARITY_MAJOR: u32 = 2;
/// The oldest firmware minor version with every feature the client uses.
pub const MIN_PARITY_MINOR: u32 = 5;

/// Index of the first digit at or after `i` in `s` (or its length).
pub open spec fn next_digit(s: Seq<char>, i: int) -> int
    decreases s.len() - i,
{
    if i < 0 || i >= s.len() {
        s.len() as int
    } else if is_digit(s[i]) {
        i
    } else {
        next_digit(s, i + 1)
    }
}

/// Index of the first non-digit at or after `i` in `s` (or its length).
pub open spec fn run_end(s: Seq<char>, i: int) -> int
    decreases s.len() - i,
{
    if i < 0 || i >= s.len() {
        s.len() as int
    } else if !is_digit(s[i]) {
        i
    } else {
        run_end(s, i + 1)
    }
}

/// The (major, minor) version a firmware version text gives: its first two
/// runs of ASCII digits (a missing second run reads as 0); `None` when there
/// is no digit at all or a run does not fit 32 bits.
pub open spec fn version_spec(raw: Seq<char>) -> Option<(u32, u32)> {
    let a1 = next_digit(raw, 0);
    if a1 >= raw.len() {
        None
    } else {
        let b1 = run_end(raw, a1);
        let a2 = next_digit(raw, b1);
        let minor_text = if a2 >= raw.len() {
            seq!['0']
        } else {
            raw.subrange(a2, run_end(raw, a2))
        };
        match (
            parse_unsigned_spec(raw.subrange(a1, b1), u32::MAX as nat),
            parse_unsigned_spec(minor_text, u32::MAX as nat),
        ) {
            (Some(major), Some(minor)) => Some((major as u32, minor as u32)),
            _ => None,
        }
    }
}

proof fn lemma_next_digit(s: Seq<char>, i: int)
    requires
        0 <= i,
    ensures
        i <= next_digit(s, i) <= s.len() || (i > s.len() && next_digit(s, i) == s.len()),
        next_digit(s, i) < s.len() ==> is_digit(s[next_digit(s, i)]),
    decreases s.len() - i,
{
    if i < s.len() && !is_digit(s[i]) {
        lemma_next_digit(s, i + 1);
    }
}

proof fn lemma_run_end(s: Seq<char>, i: int)
    requires
        0 <= i <= s.len(),
    ensures
        i <= run_end(s, i) <= s.len(),
        forall|k: int| i <= k < run_end(s, i) ==> is_digit(#[trigger] s[k]),
    decreases s.len() - i,
{
    if i < s.len() && is_digit(s[i]) {
        lemma_run_end(s, i + 1);
    }
}

fn skip_non_digits(v: &Vec<char>, i: usize) -> (r: usize)
    requires
        i <= v@.len(),
    ensures
        r == next_digit(v@, i as int),
{
    let mut k = i;
    while k < v.len() && !('0' <= v[k] && v[k] <= '9')
        invariant
            i <= k <= v@.len(),
            next_digit(v@, i as int) == next_digit(v@, k as int),
        decreases v@.len() - k,
    {
        k = k + 1;
    }
    k
}

fn skip_digits(v: &Vec<char>, i: usize) -> (r: usize)
    requires
        i <= v@.len(),
    ensures
        r == run_end(v@, i as int),
{
    let mut k = i;
    while k < v.len() && '0' <= v[k] && v[k] <= '9'
        invariant
            i <= k <= v@.len(),
            run_end(v@, i as int) == run_end(v@, k as int),
        decreases v@.len() - k,
    {
        k = k + 1;
    }
    k
}

fn sub_chars(v: &Vec<char>, a: usize, b: usize) -> (r: Vec<char>)
    requires
        a <= b <= v@.len(),
    ensures
        r@ == v@.subrange(a as int, b as int),
{
    let mut out: Vec<char> = Vec::new();
    let mut k = a;
    while k < b
        invariant
            a <= k <= b <= v@.len(),
            out@ == v@.subrange(a as int, k as int),
        decreases b - k,
    {
        out.push(v[k]);
        k = k + 1;
        assert(out@ =~= v@.subrange(a as int, k as int));
    }
    out
}

/// Reads the (major, minor) version from a firmware version text such as
/// "2.5.4.abcdef", "2.4.0-beta" or "1.3.7".
pub fn parse_version(raw: &str) -> (r: Option<(u32, u32)>)
    ensures
        r == version_spec(raw@),
{
    let v = chars_of(raw);
    let a1 = skip_non_digits(&v, 0);
    if a1 >= v.len() {
        return None;
    }
    proof {
        lemma_next_digit(v@, 0);
    }
    let b1 = skip_digits(&v, a1);
    proof {
        lemma_run_end(v@, a1 as int);
    }
    let major_text = string_from_chars(&sub_chars(&v, a1, b1));
    let major = parse_unsigned(major_text.as_str(), u32::MAX as u64);
    let a2 = skip_non_digits(&v, b1);
    proof {
        lemma_next_digit(v@, b1 as int);
    }
    let minor_chars: Vec<char> = if a2 >= v.len() {
        let mut z: Vec<char> = Vec::new();
        z.push('0');
        assert(z@ =~= seq!['0']);
        z
    } else {
        let b2 = skip_digits(&v, a2);
        proof {
            lemma_run_end(v@, a2 as int);
        }
        sub_chars(&v, a2, b2)
    };
    let minor_text = string_from_chars(&minor_chars);
    let minor = parse_unsigned(minor_text.as_str(), u32::MAX as u64);
    match (major, minor) {
        (Some(m), Some(n)) => Some((m as u32, n as u32)),
        _ => None,
    }
}

/// Whether a firmware version text names a version older than the one the
/// client needs; an unreadable version is not flagged.
pub open spec fn below_parity_spec(raw: Seq<char>) -> bool {
    match version_spec(raw) {
        Some((major, minor)) => major < MIN_PARITY_MAJOR || (major == MIN_PARITY_MAJOR && minor
            < MIN_PARITY_MINOR),
        None => false,
    }
}

/// Whether the firmware `raw` is older than the client needs.
pub fn is_below_parity(raw: &str) -> (r: bool)
    ensures
        r == below_parity_spec(raw@),
{
    match parse_version(raw) {
        Some((major, minor)) => major < MIN_PARITY_MAJOR || (major == MIN_PARITY_MAJOR && minor
            < MIN_PARITY_MINOR),
        None => false,
    }
}

} // verus!

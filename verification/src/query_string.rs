//! The query part of a request target, read as a list of `name=value` pairs
//! that `&` separates, each side percent-encoded with `+` for a space.

use crate::text::bytes_eq;
use vstd::prelude::*;
use vstd::slice::slice_subrange;

verus! {

/// `%`, which opens an escape.
pub const PERCENT: u8 = 0x25;

/// `+`, which stands for a space.
pub const PLUS: u8 = 0x2B;

/// The space that `+` stands for.
pub const SPACE: u8 = 0x20;

/// `&`, which separates two pairs.
pub const AMPERSAND: u8 = 0x26;

/// `=`, which separates a name from its value.
pub const EQUALS: u8 = 0x3D;

/// Whether `b` is one of `0`-`9`, `a`-`f`, `A`-`F`.
pub open spec fn is_hex_digit(b: u8) -> bool {
    (0x30 <= b <= 0x39) || (0x61 <= b <= 0x66) || (0x41 <= b <= 0x46)
}

/// The number that a hexadecimal digit stands for.
pub open spec fn hex_value(b: u8) -> int {
    if 0x30 <= b <= 0x39 {
        b - 0x30
    } else if 0x61 <= b <= 0x66 {
        b - 0x61 + 10
    } else {
        b - 0x41 + 10
    }
}

/// Whether an escape, `%` and two hexadecimal digits, starts at `i`.
pub open spec fn escape_at(s: Seq<u8>, i: int) -> bool {
    0 <= i && i + 2 < s.len() && s[i] == PERCENT && is_hex_digit(s[i + 1]) && is_hex_digit(
        s[i + 2],
    )
}

/// The byte that the escape at `i` stands for.
pub open spec fn escaped_byte(s: Seq<u8>, i: int) -> u8 {
    (16 * hex_value(s[i + 1]) + hex_value(s[i + 2])) as u8
}

/// The decoding of `s` from position `i` on: an escape gives its byte, `+`
/// gives a space, and every other byte, a `%` that opens no escape too, stands
/// for itself.
pub open spec fn decoded_from(s: Seq<u8>, i: int) -> Seq<u8>
    decreases s.len() - i,
{
    if i < 0 || i >= s.len() {
        Seq::empty()
    } else if escape_at(s, i) {
        seq![escaped_byte(s, i)] + decoded_from(s, i + 3)
    } else if s[i] == PLUS {
        seq![SPACE] + decoded_from(s, i + 1)
    } else {
        seq![s[i]] + decoded_from(s, i + 1)
    }
}

/// The decoding of the whole of `s`.
pub open spec fn decoded(s: Seq<u8>) -> Seq<u8> {
    decoded_from(s, 0)
}

/// How many bytes other than `stop` stand in a row from position `from` on.
pub open spec fn run_len(s: Seq<u8>, from: int, stop: u8) -> nat
    decreases s.len() - from,
{
    if from < 0 || from >= s.len() || s[from] == stop {
        0
    } else {
        1 + run_len(s, from + 1, stop)
    }
}

/// The length of the name of the pair that starts at `from`: it ends before
/// the first `=` of the pair, or with the pair.
pub open spec fn name_len(s: Seq<u8>, from: int) -> nat {
    if run_len(s, from, EQUALS) < run_len(s, from, AMPERSAND) {
        run_len(s, from, EQUALS)
    } else {
        run_len(s, from, AMPERSAND)
    }
}

/// The decoded value of the first pair at or after `from` whose decoded name
/// is `name`. A pair without `=` has the empty value; an empty pair, as
/// between two `&`, is passed over. The search ends with the text.
pub open spec fn param_from(s: Seq<u8>, name: Seq<u8>, from: int) -> Option<Seq<u8>>
    decreases s.len() - from,
{
    if from < 0 || from >= s.len() {
        None
    } else {
        let pair = run_len(s, from, AMPERSAND) as int;
        let key = name_len(s, from) as int;
        if pair > 0 && decoded(s.subrange(from, from + key)) == name {
            Some(
                if key < pair {
                    decoded(s.subrange(from + key + 1, from + pair))
                } else {
                    Seq::empty()
                },
            )
        } else if from + pair < s.len() {
            param_from(s, name, from + pair + 1)
        } else {
            None
        }
    }
}

/// The decoded value of the first pair of `s` whose decoded name is `name`.
pub open spec fn param(s: Seq<u8>, name: Seq<u8>) -> Option<Seq<u8>> {
    param_from(s, name, 0)
}

/// The number that a hexadecimal digit stands for, or `None` for any other
/// byte.
pub fn hex_digit(b: u8) -> (value: Option<u8>)
    ensures
        match value {
            Some(v) => is_hex_digit(b) && v == hex_value(b),
            None => !is_hex_digit(b),
        },
{
    if 0x30 <= b && b <= 0x39 {
        Some(b - 0x30)
    } else if 0x61 <= b && b <= 0x66 {
        Some(b - 0x61 + 10)
    } else if 0x41 <= b && b <= 0x46 {
        Some(b - 0x41 + 10)
    } else {
        None
    }
}

/// The byte that the escape at `i` stands for, or `None` when no escape
/// starts there.
fn escape(s: &[u8], i: usize) -> (byte: Option<u8>)
    requires
        i < s@.len(),
    ensures
        match byte {
            Some(b) => escape_at(s@, i as int) && b == escaped_byte(s@, i as int),
            None => !escape_at(s@, i as int),
        },
{
    if s[i] != PERCENT || s.len() - i < 3 {
        return None;
    }
    match (hex_digit(s[i + 1]), hex_digit(s[i + 2])) {
        (Some(high), Some(low)) => Some(16 * high + low),
        _ => None,
    }
}

/// Decodes a percent-encoded byte string.
pub fn percent_decode(s: &[u8]) -> (out: Vec<u8>)
    ensures
        out@ == decoded(s@),
{
    let mut out: Vec<u8> = Vec::new();
    let mut i: usize = 0;
    while i < s.len()
        invariant
            i <= s@.len(),
            decoded(s@) == out@ + decoded_from(s@, i as int),
        decreases s@.len() - i,
    {
        let ghost before = out@;
        let ghost at = i as int;
        match escape(s, i) {
            Some(byte) => {
                out.push(byte);
                i += 3;
                assert(before + (seq![byte] + decoded_from(s@, at + 3)) =~= out@ + decoded_from(
                    s@,
                    at + 3,
                ));
            },
            None => {
                let byte: u8 = if s[i] == PLUS {
                    SPACE
                } else {
                    s[i]
                };
                out.push(byte);
                i += 1;
                assert(before + (seq![byte] + decoded_from(s@, at + 1)) =~= out@ + decoded_from(
                    s@,
                    at + 1,
                ));
            },
        }
    }
    assert(out@ + Seq::<u8>::empty() =~= out@);
    out
}

/// The position at which the run of bytes other than `stop` that starts at
/// `from` ends.
fn run_end(s: &[u8], from: usize, stop: u8) -> (end: usize)
    requires
        from <= s@.len(),
    ensures
        end == from + run_len(s@, from as int, stop),
        end <= s@.len(),
{
    let mut i: usize = from;
    while i < s.len() && s[i] != stop
        invariant
            from <= i <= s@.len(),
            run_len(s@, from as int, stop) == (i - from) + run_len(s@, i as int, stop),
        decreases s@.len() - i,
    {
        i += 1;
    }
    i
}

/// Looks up a parameter of a query string: the decoded value of the first
/// pair whose decoded name is `name`, or `None` when no pair has that name.
pub fn query_param(s: &[u8], name: &[u8]) -> (value: Option<Vec<u8>>)
    ensures
        match value {
            Some(v) => param(s@, name@) == Some(v@),
            None => param(s@, name@).is_none(),
        },
{
    let mut from: usize = 0;
    while from < s.len()
        invariant
            from <= s@.len(),
            param(s@, name@) == param_from(s@, name@, from as int),
        decreases s@.len() - from,
    {
        let pair_end = run_end(s, from, AMPERSAND);
        let equals_at = run_end(s, from, EQUALS);
        let name_end = if equals_at < pair_end {
            equals_at
        } else {
            pair_end
        };
        if from < pair_end {
            let key = percent_decode(slice_subrange(s, from, name_end));
            if bytes_eq(key.as_slice(), name) {
                if name_end < pair_end {
                    return Some(percent_decode(slice_subrange(s, name_end + 1, pair_end)));
                } else {
                    return Some(Vec::new());
                }
            }
        }
        if pair_end == s.len() {
            return None;
        }
        from = pair_end + 1;
    }
    None
}

} // verus!

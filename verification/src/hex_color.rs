//! Hex colour strings such as `"#4A90E2"` or `"#4A90E2CC"`, as nodes carry
//! them in their optional `color` field.
//!
//! The parser yields the colour channels as bytes; turning them into the
//! renderer's floating-point colour type happens where the drawing happens.

use vstd::prelude::*;
use vstd::string::*;

verus! {

/// The byte value of `#`.
pub const HASH: u8 = 0x23;

/// The four channels of a parsed colour; a six-digit colour is opaque (`a == 255`).
#[derive(Clone, Copy, Debug, PartialEq, Eq, Structural)]
pub struct HexColor {
    pub r: u8,
    pub g: u8,
    pub b: u8,
    pub a: u8,
}

/// An ASCII hexadecimal digit, in either case.
pub open spec fn is_hex_digit(c: u8) -> bool {
    (0x30 <= c <= 0x39) || (0x41 <= c <= 0x46) || (0x61 <= c <= 0x66)
}

/// The value of a hexadecimal digit.
pub open spec fn hex_value(c: u8) -> int {
    if c <= 0x39 {
        c - 0x30
    } else if c <= 0x46 {
        c - 0x41 + 10
    } else {
        c - 0x61 + 10
    }
}

/// The value of a pair of hexadecimal digits, high digit first; `None`
/// when either byte is not a hexadecimal digit.
pub open spec fn pair_value(hi: u8, lo: u8) -> Option<u8> {
    if is_hex_digit(hi) && is_hex_digit(lo) {
        Some((16 * hex_value(hi) + hex_value(lo)) as u8)
    } else {
        None
    }
}

/// The number of `#` bytes at the start of `b`.
pub open spec fn hash_count(b: Seq<u8>) -> nat
    decreases b.len(),
{
    if b.len() > 0 && b[0] == HASH {
        1 + hash_count(b.drop_first())
    } else {
        0
    }
}

/// `b` with its leading `#` bytes removed.
pub open spec fn strip_hashes(b: Seq<u8>) -> Seq<u8> {
    b.skip(hash_count(b) as int)
}

/// The colour that a string with the UTF-8 bytes `b` denotes: after its leading
/// `#`s, six digits `RRGGBB` (opaque) or eight digits `RRGGBBAA`.
pub open spec fn hex_color_of(b: Seq<u8>) -> Option<HexColor> {
    let t = strip_hashes(b);
    if t.len() == 6 {
        match (pair_value(t[0], t[1]), pair_value(t[2], t[3]), pair_value(t[4], t[5])) {
            (Some(r), Some(g), Some(bl)) => Some(HexColor { r, g, b: bl, a: 255 }),
            _ => None,
        }
    } else if t.len() == 8 {
        match (
            pair_value(t[0], t[1]),
            pair_value(t[2], t[3]),
            pair_value(t[4], t[5]),
            pair_value(t[6], t[7]),
        ) {
            (Some(r), Some(g), Some(bl), Some(a)) => Some(HexColor { r, g, b: bl, a }),
            _ => None,
        }
    } else {
        None
    }
}

/// All bytes of `t` are hexadecimal digits.
pub open spec fn all_hex_digits(t: Seq<u8>) -> bool {
    forall|i: int| 0 <= i < t.len() ==> is_hex_digit(#[trigger] t[i])
}

/// A string denotes a colour exactly when, after its leading `#`s, it is six
/// or eight hexadecimal digits; anything else (a sign, a space, a non-ASCII
/// character, another length) gives no colour.
pub proof fn law_colour_iff_hex_digits(b: Seq<u8>)
    ensures
        hex_color_of(b) is Some <==> ((strip_hashes(b).len() == 6 || strip_hashes(b).len() == 8)
            && all_hex_digits(strip_hashes(b))),
{
    let t = strip_hashes(b);
    if (t.len() == 6 || t.len() == 8) && !all_hex_digits(t) {
        let i = choose|i: int| 0 <= i < t.len() && !is_hex_digit(#[trigger] t[i]);
        assert(!is_hex_digit(t[i]));
    }
}

/// Any number of leading `#`s may precede the digits: one more `#` does not
/// change the colour.
pub proof fn law_leading_hashes_ignored(b: Seq<u8>)
    ensures
        hex_color_of(seq![HASH] + b) == hex_color_of(b),
{
    let hb = seq![HASH] + b;
    assert(hb.drop_first() =~= b);
    assert(hash_count(hb) == 1 + hash_count(b));
    let k = hash_count(b) as int;
    assert(hash_count(b) <= b.len()) by {
        lemma_hash_count_bound(b);
    }
    assert(hb.skip(k + 1) =~= b.skip(k));
    assert(strip_hashes(hb) =~= strip_hashes(b));
}

/// Upper- and lower-case digits denote the same value.
pub proof fn law_digit_case_irrelevant(hi: u8, lo: u8)
    requires
        0x41 <= hi <= 0x46,
        0x41 <= lo <= 0x46,
    ensures
        pair_value(hi, lo) == pair_value((hi + 0x20) as u8, (lo + 0x20) as u8),
        pair_value(hi, lo) == pair_value(hi, (lo + 0x20) as u8),
{
}

proof fn lemma_hash_count_bound(b: Seq<u8>)
    ensures
        hash_count(b) <= b.len(),
    decreases b.len(),
{
    if b.len() > 0 && b[0] == HASH {
        lemma_hash_count_bound(b.drop_first());
    }
}

fn hex_digit_value(c: u8) -> (v: Option<u8>)
    ensures
        is_hex_digit(c) ==> v == Some(hex_value(c) as u8),
        !is_hex_digit(c) ==> v is None,
{
    if 0x30 <= c && c <= 0x39 {
        Some(c - 0x30)
    } else if 0x41 <= c && c <= 0x46 {
        Some(c - 0x41 + 10)
    } else if 0x61 <= c && c <= 0x66 {
        Some(c - 0x61 + 10)
    } else {
        None
    }
}

fn parse_pair(hi: u8, lo: u8) -> (v: Option<u8>)
    ensures
        v == pair_value(hi, lo),
{
    let low = match hex_digit_value(lo) {
        Some(x) => x,
        None => {
            return None;
        },
    };
    match hex_digit_value(hi) {
        Some(high) => Some(high * 16 + low),
        None => None,
    }
}

proof fn lemma_hash_count_step(b: Seq<u8>, i: int)
    requires
        0 <= i < b.len(),
        b[i] == HASH,
    ensures
        hash_count(b.skip(i)) == 1 + hash_count(b.skip(i + 1)),
{
    assert(b.skip(i).drop_first() =~= b.skip(i + 1));
}

fn leading_hashes(bytes: &[u8]) -> (k: usize)
    ensures
        k == hash_count(bytes@),
        k <= bytes@.len(),
        strip_hashes(bytes@) =~= bytes@.skip(k as int),
{
    let ghost b = bytes@;
    let n = bytes.len();
    let mut i: usize = 0;
    assert(b.skip(0) =~= b);
    while i < n && bytes[i] == HASH
        invariant
            b == bytes@,
            n == b.len(),
            i <= n,
            hash_count(b) == i + hash_count(b.skip(i as int)),
        decreases n - i,
    {
        proof {
            lemma_hash_count_step(b, i as int);
        }
        i = i + 1;
    }
    assert(hash_count(b.skip(i as int)) == 0);
    i
}

/// Parses a colour written as hex digits after any number of `#`s:
/// `RRGGBB` gives an opaque colour, `RRGGBBAA` one with alpha; any other
/// length, or a byte that is not a hexadecimal digit, gives `None`.
pub fn parse_hex_color(hex: &str) -> (c: Option<HexColor>)
    ensures
        c == hex_color_of(hex.spec_bytes()),
{
    let bytes = hex.as_bytes();
    let i = leading_hashes(bytes);
    let len = bytes.len() - i;
    if len != 6 && len != 8 {
        return None;
    }
    let r = match parse_pair(bytes[i], bytes[i + 1]) {
        Some(x) => x,
        None => {
            return None;
        },
    };
    let g = match parse_pair(bytes[i + 2], bytes[i + 3]) {
        Some(x) => x,
        None => {
            return None;
        },
    };
    let bl = match parse_pair(bytes[i + 4], bytes[i + 5]) {
        Some(x) => x,
        None => {
            return None;
        },
    };
    if len == 6 {
        return Some(HexColor { r, g, b: bl, a: 255 });
    }
    let a = match parse_pair(bytes[i + 6], bytes[i + 7]) {
        Some(x) => x,
        None => {
            return None;
        },
    };
    Some(HexColor { r, g, b: bl, a })
}

} // verus!

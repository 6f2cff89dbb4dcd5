//! CSS hex color notation: `"#5c7cfa"` (RGB) and `"#5c7cfaff"` (RGBA).
//!
//! Parsing works on the UTF-8 bytes of the text; the result is the four
//! 8-bit components. Invalid text (any other length, or a character that is
//! not a hexadecimal digit) reads as opaque black.
use vstd::prelude::*;
use vstd::string::StringSliceAdditionalSpecFns;

verus! {

/// `s` without its leading `#` characters.
pub open spec fn strip_hashes(s: Seq<u8>) -> Seq<u8>
    decreases s.len(),
{
    if s.len() > 0 && s[0] == 0x23u8 {
        strip_hashes(s.drop_first())
    } else {
        s
    }
}

/// The value of a hexadecimal digit (either case).
pub open spec fn hex_digit(b: u8) -> Option<u8> {
    if 0x30 <= b <= 0x39 {
        Some((b - 0x30) as u8)
    } else if 0x61 <= b <= 0x66 {
        Some((b - 0x61 + 10) as u8)
    } else if 0x41 <= b <= 0x46 {
        Some((b - 0x41 + 10) as u8)
    } else {
        None
    }
}

/// Every byte of `t` is a hexadecimal digit.
pub open spec fn all_hex(t: Seq<u8>) -> bool {
    forall|i: int| 0 <= i < t.len() ==> #[trigger] hex_digit(t[i]) is Some
}

/// The value of two hexadecimal digits.
pub open spec fn pair_value(a: u8, b: u8) -> u8 {
    (16 * hex_digit(a)->0 + hex_digit(b)->0) as u8
}

/// The `[r, g, b, a]` components that the text with bytes `s` denotes:
/// six or eight hexadecimal digits after any leading `#`, opaque black for
/// anything else.
pub open spec fn hex_components(s: Seq<u8>) -> Seq<u8> {
    let t = strip_hashes(s);
    if t.len() == 6 && all_hex(t) {
        seq![pair_value(t[0], t[1]), pair_value(t[2], t[3]), pair_value(t[4], t[5]), 255u8]
    } else if t.len() == 8 && all_hex(t) {
        seq![pair_value(t[0], t[1]), pair_value(t[2], t[3]), pair_value(t[4], t[5]), pair_value(t[6], t[7])]
    } else {
        seq![0u8, 0u8, 0u8, 255u8]
    }
}

fn skip_hashes(b: &[u8]) -> (r: usize)
    ensures
        r <= b@.len(),
        strip_hashes(b@) == b@.skip(r as int),
{
    let mut i: usize = 0;
    proof {
        assert(b@.skip(0) =~= b@);
    }
    while i < b.len() && b[i] == 0x23u8
        invariant
            i <= b@.len(),
            strip_hashes(b@) == strip_hashes(b@.skip(i as int)),
        decreases b@.len() - i,
    {
        proof {
            assert(b@.skip(i as int).drop_first() =~= b@.skip(i + 1));
        }
        i += 1;
    }
    i
}

fn hex_digit_of(b: u8) -> (r: Option<u8>)
    ensures
        r == hex_digit(b),
{
    if 0x30 <= b && b <= 0x39 {
        Some(b - 0x30)
    } else if 0x61 <= b && b <= 0x66 {
        Some(b - 0x61 + 10)
    } else if 0x41 <= b && b <= 0x46 {
        Some(b - 0x41 + 10)
    } else {
        None
    }
}

fn pair_value_of(a: u8, b: u8) -> (r: u8)
    requires
        hex_digit(a) is Some,
        hex_digit(b) is Some,
    ensures
        r == pair_value(a, b),
{
    let x = hex_digit_of(a).unwrap();
    let y = hex_digit_of(b).unwrap();
    16 * x + y
}

/// Whether `b[start..]` holds only hexadecimal digits.
fn all_hex_from(b: &[u8], start: usize) -> (r: bool)
    requires
        start <= b@.len(),
    ensures
        r == all_hex(b@.skip(start as int)),
{
    let mut i = start;
    while i < b.len()
        invariant
            start <= i <= b@.len(),
            forall|k: int| start <= k < i ==> #[trigger] hex_digit(b@[k]) is Some,
        decreases b@.len() - i,
    {
        if hex_digit_of(b[i]).is_none() {
            proof {
                assert(b@.skip(start as int)[i - start] == b@[i as int]);
            }
            return false;
        }
        i += 1;
    }
    proof {
        assert forall|k: int| 0 <= k < b@.skip(start as int).len() implies #[trigger] hex_digit(
            b@.skip(start as int)[k],
        ) is Some by {
            assert(b@.skip(start as int)[k] == b@[start + k]);
        }
    }
    true
}

/// The `[r, g, b, a]` components of a CSS hex color: 6 hex digits (opaque)
/// or 8 (with alpha), after any leading `#`; invalid text gives opaque
/// black.
pub fn hex_rgba(s: &str) -> (r: [u8; 4])
    ensures
        r@ == hex_components(s.spec_bytes()),
{
    let b = s.as_bytes();
    let start = skip_hashes(b);
    let n = b.len() - start;
    let ghost t = b@.skip(start as int);
    let digits = all_hex_from(b, start);
    proof {
        if digits {
            assert forall|k: int| start <= k < b@.len() implies #[trigger] hex_digit(b@[k]) is Some by {
                assert(t[k - start] == b@[k]);
            }
        }
    }
    if n == 6 && digits {
        let r = [
            pair_value_of(b[start], b[start + 1]),
            pair_value_of(b[start + 2], b[start + 3]),
            pair_value_of(b[start + 4], b[start + 5]),
            255u8,
        ];
        proof {
            assert(r@ =~= hex_components(b@));
        }
        r
    } else if n == 8 && digits {
        let r = [
            pair_value_of(b[start], b[start + 1]),
            pair_value_of(b[start + 2], b[start + 3]),
            pair_value_of(b[start + 4], b[start + 5]),
            pair_value_of(b[start + 6], b[start + 7]),
        ];
        proof {
            assert(r@ =~= hex_components(b@));
        }
        r
    } else {
        let r = [0u8, 0u8, 0u8, 255u8];
        proof {
            assert(r@ =~= hex_components(b@));
        }
        r
    }
}

} // verus!

//! Decoding of hex-typed command arguments into raw bytes: two hex digits
//! per byte, most significant digit first.

use vstd::prelude::*;
use vstd::string::*;

verus! {

/// `c` is a hex digit, in either case.
pub open spec fn is_hex_digit(c: char) -> bool {
    (48 <= c as u32 <= 57) || (65 <= c as u32 <= 70) || (97 <= c as u32 <= 102)
}

/// The value of a hex digit.
pub open spec fn hex_val(c: char) -> u8 {
    if 48 <= c as u32 <= 57 {
        (c as u32 - 48) as u8
    } else if 65 <= c as u32 <= 70 {
        (c as u32 - 55) as u8
    } else {
        (c as u32 - 87) as u8
    }
}

/// A string that decodes: even length, hex digits throughout.
pub open spec fn valid_hex(s: Seq<char>) -> bool {
    s.len() % 2 == 0 && (forall|i: int| 0 <= i < s.len() ==> is_hex_digit(#[trigger] s[i]))
}

/// The bytes a hex string denotes, one byte for each digit pair.
pub open spec fn spec_hex_bytes(s: Seq<char>) -> Seq<u8>
    decreases s.len(),
{
    if s.len() < 2 {
        Seq::empty()
    } else {
        seq![(hex_val(s[0]) * 16 + hex_val(s[1])) as u8] + spec_hex_bytes(s.skip(2))
    }
}

/// Decodes a hex string to bytes; `None` exactly on malformed hex (odd
/// length or a character that is no hex digit).
pub fn decode_hex(s: &str) -> (r: Option<Vec<u8>>)
    ensures
        match r {
            Some(v) => valid_hex(s@) && v@ == spec_hex_bytes(s@) && v@.len() == s@.len() / 2,
            None => !valid_hex(s@),
        },
{
    let len = s.unicode_len();
    if len % 2 != 0 {
        return None;
    }
    let mut out: Vec<u8> = Vec::new();
    let mut i: usize = 0;
    proof {
        assert(s@.skip(0) =~= s@);
        assert(out@ + spec_hex_bytes(s@) =~= spec_hex_bytes(s@));
    }
    while i < len
        invariant
            len == s@.len(),
            len % 2 == 0,
            i % 2 == 0,
            i <= len,
            forall|j: int| 0 <= j < i ==> is_hex_digit(#[trigger] s@[j]),
            out@.len() == i / 2,
            out@ + spec_hex_bytes(s@.skip(i as int)) == spec_hex_bytes(s@),
        decreases len - i,
    {
        let hi = s.get_char(i);
        let lo = s.get_char(i + 1);
        let hv = match hex_digit_value(hi) {
            Some(v) => v,
            None => {
                return None;
            },
        };
        let lv = match hex_digit_value(lo) {
            Some(v) => v,
            None => {
                return None;
            },
        };
        proof {
            let rest = s@.skip(i as int);
            assert(rest.len() >= 2);
            assert(rest[0] == s@[i as int]);
            assert(rest[1] == s@[i as int + 1]);
            assert(rest.skip(2) =~= s@.skip(i as int + 2));
            assert(spec_hex_bytes(rest) == seq![(hex_val(rest[0]) * 16 + hex_val(rest[1])) as u8]
                + spec_hex_bytes(s@.skip(i as int + 2)));
        }
        out.push(hv * 16 + lv);
        i += 2;
        proof {
            assert(out@ + spec_hex_bytes(s@.skip(i as int)) =~= spec_hex_bytes(s@));
        }
    }
    proof {
        assert(s@.skip(len as int) =~= Seq::<char>::empty());
        assert(out@ + spec_hex_bytes(s@.skip(len as int)) =~= out@);
    }
    Some(out)
}

/// The value of one hex digit; `None` exactly when `c` is no hex digit.
fn hex_digit_value(c: char) -> (r: Option<u8>)
    ensures
        match r {
            Some(v) => is_hex_digit(c) && v == hex_val(c) && v <= 15,
            None => !is_hex_digit(c),
        },
{
    let u = c as u32;
    if 48 <= u && u <= 57 {
        Some((u - 48) as u8)
    } else if 65 <= u && u <= 70 {
        Some((u - 55) as u8)
    } else if 97 <= u && u <= 102 {
        Some((u - 87) as u8)
    } else {
        None
    }
}

} // verus!

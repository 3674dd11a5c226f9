//! Uppercase hex dumps of payloads, for the publish log line.

use vstd::prelude::*;
use crate::digits::digit_char;

verus! {

/// The two uppercase hex characters of one byte.
pub open spec fn byte_hex(b: u8) -> Seq<char> {
    seq![digit_char(b as int / 16), digit_char(b as int % 16)]
}

/// The hex dump of a byte sequence: two uppercase digits per byte, in order,
/// with no separators.
pub open spec fn hex_rep(s: Seq<u8>) -> Seq<char>
    decreases s.len(),
{
    if s.len() == 0 {
        Seq::empty()
    } else {
        hex_rep(s.drop_last()) + byte_hex(s.last())
    }
}

/// The hex dump of a payload, as text.
pub fn hex_dump(bytes: &[u8]) -> (s: String)
    ensures
        s@ == hex_rep(bytes@),
{
    let mut s = String::new();
    let mut i: usize = 0;
    while i < bytes.len()
        invariant
            0 <= i <= bytes@.len(),
            s@ == hex_rep(bytes@.take(i as int)),
        decreases bytes@.len() - i,
    {
        let b = bytes[i];
        s.append(crate::digits::digit_str(b / 16));
        s.append(crate::digits::digit_str(b % 16));
        proof {
            let t = bytes@.take(i as int + 1);
            assert(t.drop_last() =~= bytes@.take(i as int));
            assert(t.last() == bytes@[i as int]);
        }
        i = i + 1;
    }
    proof {
        assert(bytes@.take(bytes@.len() as int) =~= bytes@);
    }
    s
}

} // verus!

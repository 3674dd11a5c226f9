//! Peer addresses, as the four octets the bridge reads from them.

use vstd::prelude::*;
use vstd::string::StringExecFns;
use crate::digits::dec_rep;
use crate::digits::u8_decimal;

verus! {

/// An IPv4 address, held as its four octets. The runtime converts the peer
/// address of an accepted connection into this form before handing it to the
/// library.
#[derive(Clone, Copy, PartialEq, Eq, Structural, Debug)]
pub struct Ipv4Address {
    pub o0: u8,
    pub o1: u8,
    pub o2: u8,
    pub o3: u8,
}

/// The dotted-decimal text of an address, octet by octet.
pub open spec fn ip_chars(ip: Ipv4Address) -> Seq<char> {
    dec_rep(ip.o0 as int) + seq!['.'] + dec_rep(ip.o1 as int) + seq!['.'] + dec_rep(
        ip.o2 as int,
    ) + seq!['.'] + dec_rep(ip.o3 as int)
}

impl Ipv4Address {
    /// The address in its usual dotted-decimal form.
    pub fn dotted(&self) -> (s: String)
        ensures
            s@ == ip_chars(*self),
    {
        let mut s = u8_decimal(self.o0);
        s.append(".");
        s.append(u8_decimal(self.o1).as_str());
        s.append(".");
        s.append(u8_decimal(self.o2).as_str());
        s.append(".");
        s.append(u8_decimal(self.o3).as_str());
        proof {
            reveal_strlit(".");
            assert("."@ =~= seq!['.']);
        }
        s
    }
}

} // verus!

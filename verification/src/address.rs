//! Network addresses as plain values.

use vstd::prelude::*;

verus! {

/// An IPv4 or IPv6 address, held as its four octets or its eight 16-bit
/// groups, most significant first. Every value of this type is a valid
/// address, so holding one shows that some text was accepted as an address.
#[derive(Clone, Copy, Debug, PartialEq, Eq, Hash, Structural)]
pub enum IpAddress {
    V4(u8, u8, u8, u8),
    V6(u16, u16, u16, u16, u16, u16, u16, u16),
}

} // verus!

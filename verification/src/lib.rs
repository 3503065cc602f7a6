//! A SOCKS-style circuit-relay proxy core: the wire codec and the
//! per-connection session state machine, verified.
//!
//! The library is pure: it decides, frame by frame, what a proxy session
//! replies and which state it enters next. All transport I/O (listening,
//! reading, writing, connecting, relaying) lives outside, in the program
//! that drives these functions.

pub mod codec;
pub mod session;
pub mod wire;

use vstd::prelude::*;

verus! {

/// Packs two bytes into a 16-bit word, high byte first, as every 2-byte
/// field of the wire protocol is laid out.
pub fn to_u16(a: u8, b: u8) -> (r: u16)
    ensures
        r == wire::be16(a, b),
{
    (a as u16) * 256 + (b as u16)
}

} // verus!

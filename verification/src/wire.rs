//! Wire-level values of the protocol: the tagged bytes (authentication
//! method, command, address type, reply status), the destination address,
//! and big-endian 16-bit packing.

use vstd::prelude::*;

verus! {

/// The big-endian reading of two bytes as a 16-bit word.
pub open spec fn be16(hi: u8, lo: u8) -> u16 {
    ((hi as u16) * 256 + (lo as u16)) as u16
}

/// High byte of a 16-bit word written big-endian.
pub open spec fn be_hi(w: u16) -> u8 {
    (w / 256) as u8
}

/// Low byte of a 16-bit word written big-endian.
pub open spec fn be_lo(w: u16) -> u8 {
    (w % 256) as u8
}

/// Splitting a word into its big-endian bytes and packing them again
/// gives the word back.
pub proof fn lemma_be16_roundtrip(w: u16)
    ensures
        be16(be_hi(w), be_lo(w)) == w,
{
    assert(be16(be_hi(w), be_lo(w)) == w) by (nonlinear_arith);
}

/// An authentication method selected during negotiation. `Error` is the
/// sentinel meaning "no acceptable method".
#[derive(Clone, Copy, Debug, PartialEq, Eq, Structural)]
pub enum Method {
    NoAuth,
    Passwd,
    Error,
}

/// The byte a method is announced as on the wire.
pub open spec fn spec_method_byte(m: Method) -> u8 {
    match m {
        Method::NoAuth => 0x00,
        Method::Passwd => 0x02,
        Method::Error => 0xff,
    }
}

impl Method {
    /// The wire byte of this method.
    pub fn byte(&self) -> (r: u8)
        ensures
            r == spec_method_byte(*self),
    {
        match self {
            Method::NoAuth => 0x00,
            Method::Passwd => 0x02,
            Method::Error => 0xff,
        }
    }
}

/// A protocol command. Only `Connect` is supported.
#[derive(Clone, Copy, Debug, PartialEq, Eq, Structural)]
pub enum Command {
    Connect,
    Unsupported,
}

impl Command {
    /// Reads a command byte; every byte other than 0x01 is unsupported.
    pub fn from_byte(c: u8) -> (r: Command)
        ensures
            r == Command::Connect <==> c == 0x01,
    {
        if c == 0x01 {
            Command::Connect
        } else {
            Command::Unsupported
        }
    }
}

/// An address-type tag of a command request.
#[derive(Clone, Copy, Debug, PartialEq, Eq, Structural)]
pub enum AddrType {
    V4,
    Domain,
    V6,
    Unsupported,
}

/// The address type a tag byte names.
pub open spec fn spec_addr_type(t: u8) -> AddrType {
    if t == 0x01 {
        AddrType::V4
    } else if t == 0x03 {
        AddrType::Domain
    } else if t == 0x04 {
        AddrType::V6
    } else {
        AddrType::Unsupported
    }
}

impl AddrType {
    /// Reads an address-type byte; 0x01 is IPv4, 0x03 a domain name,
    /// 0x04 IPv6, anything else unsupported.
    pub fn from_byte(t: u8) -> (r: AddrType)
        ensures
            r == spec_addr_type(t),
    {
        if t == 0x01 {
            AddrType::V4
        } else if t == 0x03 {
            AddrType::Domain
        } else if t == 0x04 {
            AddrType::V6
        } else {
            AddrType::Unsupported
        }
    }
}

/// The status byte of a command reply.
#[derive(Clone, Copy, Debug, PartialEq, Eq, Structural)]
pub enum ReplyStatus {
    Succeeded,
    RuleSetNotAllowed,
    ConnectionRefused,
    CommandUnsupported,
    AddrTypeUnsupported,
}

/// The byte a reply status is written as on the wire.
pub open spec fn spec_status_byte(s: ReplyStatus) -> u8 {
    match s {
        ReplyStatus::Succeeded => 0x00,
        ReplyStatus::RuleSetNotAllowed => 0x02,
        ReplyStatus::ConnectionRefused => 0x05,
        ReplyStatus::CommandUnsupported => 0x07,
        ReplyStatus::AddrTypeUnsupported => 0x08,
    }
}

impl ReplyStatus {
    /// The wire byte of this status.
    pub fn byte(&self) -> (r: u8)
        ensures
            r == spec_status_byte(*self),
    {
        match self {
            ReplyStatus::Succeeded => 0x00,
            ReplyStatus::RuleSetNotAllowed => 0x02,
            ReplyStatus::ConnectionRefused => 0x05,
            ReplyStatus::CommandUnsupported => 0x07,
            ReplyStatus::AddrTypeUnsupported => 0x08,
        }
    }
}

/// The destination a client asks to be connected to: a literal IPv4 or
/// IPv6 address, a domain name to be resolved outside, or an unsupported
/// address-type tag.
#[derive(Debug, Clone, PartialEq, Eq)]
pub enum AddressSpec {
    V4 { addr: Vec<u8>, port: u16 },
    V6 { addr: Vec<u8>, port: u16 },
    Domain { name: Vec<u8>, port: u16 },
    Unsupported,
}

/// The mathematical shape of an [`AddressSpec`]: byte sequences in place
/// of vectors.
pub ghost enum AddressView {
    V4 { addr: Seq<u8>, port: u16 },
    V6 { addr: Seq<u8>, port: u16 },
    Domain { name: Seq<u8>, port: u16 },
    Unsupported,
}

impl View for AddressSpec {
    type V = AddressView;

    open spec fn view(&self) -> AddressView {
        match self {
            AddressSpec::V4 { addr, port } => AddressView::V4 { addr: addr@, port: *port },
            AddressSpec::V6 { addr, port } => AddressView::V6 { addr: addr@, port: *port },
            AddressSpec::Domain { name, port } => AddressView::Domain {
                name: name@,
                port: *port,
            },
            AddressSpec::Unsupported => AddressView::Unsupported,
        }
    }
}

impl AddressView {
    /// A well-formed address: the literal forms carry exactly their four
    /// or sixteen bytes, and a domain name fits the one-byte length prefix
    /// that frames it on the wire, whose zero value is reserved for the
    /// framing violation.
    pub open spec fn wf(self) -> bool {
        match self {
            AddressView::V4 { addr, .. } => addr.len() == 4,
            AddressView::V6 { addr, .. } => addr.len() == 16,
            AddressView::Domain { name, .. } => 1 <= name.len() <= 255,
            AddressView::Unsupported => true,
        }
    }
}

} // verus!

//! The wire codec: length-prefixed byte strings, typed destination
//! addresses, and the fixed ten-byte command reply. Every operation is a
//! pure transform between bytes and values; reading the bytes off a
//! stream is the caller's business.

use vstd::prelude::*;

use crate::wire::{
    be16, be_hi, be_lo, lemma_be16_roundtrip, spec_status_byte, AddressSpec, AddressView,
    ReplyStatus,
};

verus! {

/// Why a decode did not produce a value: the buffer ends before the frame
/// does, or a length-prefixed field declares length zero, which the
/// protocol treats as a framing violation rather than an empty value.
#[derive(Clone, Copy, Debug, PartialEq, Eq, Structural)]
pub enum DecodeError {
    Truncated,
    EmptyField,
}

/// What decoding a length-prefixed field from a byte sequence yields.
pub ghost enum FieldDecode {
    Done { field: Seq<u8>, used: int },
    Truncated,
    EmptyField,
}

/// The meaning of a byte sequence read as one length-prefixed field: one
/// length byte `n`, then exactly `n` bytes of content; `n == 0` is a
/// framing violation.
pub open spec fn spec_decode_field(b: Seq<u8>) -> FieldDecode {
    if b.len() < 1 {
        FieldDecode::Truncated
    } else if b[0] == 0 {
        FieldDecode::EmptyField
    } else if b.len() < 1 + b[0] {
        FieldDecode::Truncated
    } else {
        FieldDecode::Done { field: b.subrange(1, 1 + b[0]), used: 1 + b[0] }
    }
}

/// What decoding a destination address from a byte sequence yields.
pub ghost enum AddrDecode {
    Done { addr: AddressView, used: int },
    Truncated,
    EmptyField,
}

/// The meaning of a byte sequence read as one typed address: an
/// address-type byte, then the form that type dictates. An unrecognized
/// type byte decodes to `Unsupported` after the one byte; the caller
/// rejects it with its own reply.
pub open spec fn spec_decode_address(b: Seq<u8>) -> AddrDecode {
    if b.len() < 1 {
        AddrDecode::Truncated
    } else if b[0] == 0x01 {
        if b.len() < 7 {
            AddrDecode::Truncated
        } else {
            AddrDecode::Done {
                addr: AddressView::V4 { addr: b.subrange(1, 5), port: be16(b[5], b[6]) },
                used: 7,
            }
        }
    } else if b[0] == 0x04 {
        if b.len() < 19 {
            AddrDecode::Truncated
        } else {
            AddrDecode::Done {
                addr: AddressView::V6 { addr: b.subrange(1, 17), port: be16(b[17], b[18]) },
                used: 19,
            }
        }
    } else if b[0] == 0x03 {
        if b.len() < 2 {
            AddrDecode::Truncated
        } else if b[1] == 0 {
            AddrDecode::EmptyField
        } else if b.len() < 4 + b[1] {
            AddrDecode::Truncated
        } else {
            AddrDecode::Done {
                addr: AddressView::Domain {
                    name: b.subrange(2, 2 + b[1]),
                    port: be16(b[2 + b[1]], b[3 + b[1]]),
                },
                used: 4 + b[1],
            }
        }
    } else {
        AddrDecode::Done { addr: AddressView::Unsupported, used: 1 }
    }
}

/// The bytes an address is written as on the wire: the type byte, the
/// address bytes (length-prefixed for a domain name), and the port in big
/// endian. An unsupported address has no wire form.
pub open spec fn spec_encode_address(a: AddressView) -> Seq<u8> {
    match a {
        AddressView::V4 { addr, port } => seq![0x01u8] + addr + seq![be_hi(port), be_lo(port)],
        AddressView::V6 { addr, port } => seq![0x04u8] + addr + seq![be_hi(port), be_lo(port)],
        AddressView::Domain { name, port } => seq![0x03u8, name.len() as u8] + name + seq![
            be_hi(port),
            be_lo(port),
        ],
        AddressView::Unsupported => seq![],
    }
}

/// The fixed ten-byte command reply: version, status, a reserved zero, an
/// IPv4 address type, and a zero-filled bound address and port — this
/// proxy never discloses a bound address.
pub open spec fn spec_command_reply(version: u8, s: ReplyStatus) -> Seq<u8> {
    seq![version, spec_status_byte(s), 0u8, 0x01u8, 0u8, 0u8, 0u8, 0u8, 0u8, 0u8]
}

/// Copies `len` bytes of `bytes` starting at `start` into a fresh vector.
fn copy_range(bytes: &Vec<u8>, start: usize, len: usize) -> (r: Vec<u8>)
    requires
        start + len <= bytes@.len(),
    ensures
        r@ == bytes@.subrange(start as int, start as int + len as int),
{
    let n = bytes.len();
    let mut out: Vec<u8> = Vec::new();
    let mut i: usize = 0;
    while i < len
        invariant
            i <= len,
            start + len <= n,
            n == bytes@.len(),
            out@ == bytes@.subrange(start as int, start as int + i as int),
        decreases len - i,
    {
        out.push(bytes[start + i]);
        assert(bytes@.subrange(start as int, start as int + (i + 1) as int) =~= bytes@.subrange(
            start as int,
            start as int + i as int,
        ).push(bytes@[start as int + i as int]));
        i = i + 1;
    }
    out
}

/// Reads one length-prefixed field from the front of `bytes`: a length
/// byte `n`, then `n` bytes. Returns the field and how many bytes it
/// took; a zero length is the `EmptyField` framing violation.
pub fn decode_length_prefixed(bytes: &Vec<u8>) -> (r: Result<(Vec<u8>, usize), DecodeError>)
    ensures
        ({
            let d = spec_decode_field(bytes@);
            match r {
                Ok(p) => d == (FieldDecode::Done { field: p.0@, used: p.1 as int }),
                Err(DecodeError::Truncated) => d is Truncated,
                Err(DecodeError::EmptyField) => d is EmptyField,
            }
        }),
{
    if bytes.len() < 1 {
        return Err(DecodeError::Truncated);
    }
    let n = bytes[0];
    if n == 0 {
        return Err(DecodeError::EmptyField);
    }
    if bytes.len() < 1 + n as usize {
        return Err(DecodeError::Truncated);
    }
    let field = copy_range(bytes, 1, n as usize);
    Ok((field, 1 + n as usize))
}

/// Reads one typed address from the front of `bytes` and returns it with
/// the number of bytes it took.
pub fn decode_address(bytes: &Vec<u8>) -> (r: Result<(AddressSpec, usize), DecodeError>)
    ensures
        ({
            let d = spec_decode_address(bytes@);
            match r {
                Ok(p) => d == (AddrDecode::Done { addr: p.0@, used: p.1 as int }),
                Err(DecodeError::Truncated) => d is Truncated,
                Err(DecodeError::EmptyField) => d is EmptyField,
            }
        }),
        r matches Ok(p) ==> p.0@.wf(),
{
    if bytes.len() < 1 {
        return Err(DecodeError::Truncated);
    }
    let tag = bytes[0];
    if tag == 0x01 {
        if bytes.len() < 7 {
            return Err(DecodeError::Truncated);
        }
        let addr = copy_range(bytes, 1, 4);
        let port = crate::to_u16(bytes[5], bytes[6]);
        Ok((AddressSpec::V4 { addr, port }, 7))
    } else if tag == 0x04 {
        if bytes.len() < 19 {
            return Err(DecodeError::Truncated);
        }
        let addr = copy_range(bytes, 1, 16);
        let port = crate::to_u16(bytes[17], bytes[18]);
        Ok((AddressSpec::V6 { addr, port }, 19))
    } else if tag == 0x03 {
        if bytes.len() < 2 {
            return Err(DecodeError::Truncated);
        }
        let n = bytes[1];
        if n == 0 {
            return Err(DecodeError::EmptyField);
        }
        if bytes.len() < 4 + n as usize {
            return Err(DecodeError::Truncated);
        }
        let name = copy_range(bytes, 2, n as usize);
        let port = crate::to_u16(bytes[2 + n as usize], bytes[3 + n as usize]);
        Ok((AddressSpec::Domain { name, port }, 4 + n as usize))
    } else {
        Ok((AddressSpec::Unsupported, 1))
    }
}

/// Writes an address in its wire form. Unsupported addresses have none,
/// so they are left out by precondition.
pub fn encode_address(a: &AddressSpec) -> (r: Vec<u8>)
    requires
        a@.wf(),
        !(a@ is Unsupported),
    ensures
        r@ == spec_encode_address(a@),
{
    let mut out: Vec<u8> = Vec::new();
    match a {
        AddressSpec::V4 { addr, port } => {
            out.push(0x01);
            append_bytes(&mut out, addr);
            push_be16(&mut out, *port);
            assert(out@ =~= spec_encode_address(a@));
        },
        AddressSpec::V6 { addr, port } => {
            out.push(0x04);
            append_bytes(&mut out, addr);
            push_be16(&mut out, *port);
            assert(out@ =~= spec_encode_address(a@));
        },
        AddressSpec::Domain { name, port } => {
            out.push(0x03);
            out.push(name.len() as u8);
            append_bytes(&mut out, name);
            push_be16(&mut out, *port);
            assert(out@ =~= spec_encode_address(a@));
        },
        AddressSpec::Unsupported => {
            assert(false);
        },
    }
    out
}

/// Appends all of `src` to `out`.
fn append_bytes(out: &mut Vec<u8>, src: &Vec<u8>)
    ensures
        final(out)@ == old(out)@ + src@,
{
    let mut i: usize = 0;
    while i < src.len()
        invariant
            i <= src@.len(),
            out@ == old(out)@ + src@.subrange(0, i as int),
        decreases src@.len() - i,
    {
        out.push(src[i]);
        assert(old(out)@ + src@.subrange(0, (i + 1) as int) =~= (old(out)@ + src@.subrange(
            0,
            i as int,
        )).push(src@[i as int]));
        i = i + 1;
    }
    assert(src@.subrange(0, src@.len() as int) =~= src@);
}

/// Appends a 16-bit word in big endian.
fn push_be16(out: &mut Vec<u8>, w: u16)
    ensures
        final(out)@ == old(out)@ + seq![be_hi(w), be_lo(w)],
{
    out.push((w / 256) as u8);
    out.push((w % 256) as u8);
    assert(out@ =~= old(out)@ + seq![be_hi(w), be_lo(w)]);
}

/// Writes the fixed ten-byte command reply frame.
pub fn encode_command_reply(version: u8, status: ReplyStatus) -> (r: Vec<u8>)
    ensures
        r@ == spec_command_reply(version, status),
{
    let mut out: Vec<u8> = Vec::new();
    out.push(version);
    out.push(status.byte());
    out.push(0);
    out.push(0x01);
    out.push(0);
    out.push(0);
    out.push(0);
    out.push(0);
    out.push(0);
    out.push(0);
    assert(out@ =~= spec_command_reply(version, status));
    out
}

/// Round trip of the address codec: decoding an encoded well-formed
/// address consumes the whole encoding and reproduces the address, byte
/// for byte and port for port.
pub proof fn lemma_address_round_trip(a: AddressView)
    requires
        a.wf(),
        !(a is Unsupported),
    ensures
        spec_decode_address(spec_encode_address(a)) == (AddrDecode::Done {
            addr: a,
            used: spec_encode_address(a).len() as int,
        }),
{
    let e = spec_encode_address(a);
    match a {
        AddressView::V4 { addr, port } => {
            assert(e.len() == 7);
            assert(e[0] == 0x01);
            assert(e.subrange(1, 5) =~= addr);
            assert(e[5] == be_hi(port) && e[6] == be_lo(port));
            lemma_be16_roundtrip(port);
        },
        AddressView::V6 { addr, port } => {
            assert(e.len() == 19);
            assert(e[0] == 0x04);
            assert(e.subrange(1, 17) =~= addr);
            assert(e[17] == be_hi(port) && e[18] == be_lo(port));
            lemma_be16_roundtrip(port);
        },
        AddressView::Domain { name, port } => {
            let n = name.len() as int;
            assert(e.len() == 4 + n);
            assert(e[0] == 0x03);
            assert(e[1] == n as u8);
            assert(e[1] as int == n);
            assert(e.subrange(2, 2 + n) =~= name);
            assert(e[2 + n] == be_hi(port) && e[3 + n] == be_lo(port));
            lemma_be16_roundtrip(port);
        },
        AddressView::Unsupported => {},
    }
}

} // verus!

use socks5_server::codec::{
    decode_address, decode_length_prefixed, encode_address, encode_command_reply, DecodeError,
};
use socks5_server::to_u16;
use socks5_server::wire::{AddrType, AddressSpec, Command, Method, ReplyStatus};

#[test]
fn to_u16_packs_big_endian() {
    assert_eq!(to_u16(0x1f, 0x90), 8080);
    assert_eq!(to_u16(0x00, 0x50), 80);
    assert_eq!(to_u16(0xff, 0xff), 0xffff);
    assert_eq!(to_u16(0x00, 0x00), 0);
}

#[test]
fn ipv4_round_trip() {
    let addr = AddressSpec::V4 {
        addr: vec![192, 0, 2, 1],
        port: 8080,
    };
    let encoded = encode_address(&addr);
    assert_eq!(encoded, vec![0x01, 0xc0, 0x00, 0x02, 0x01, 0x1f, 0x90]);
    let (decoded, used) = decode_address(&encoded).unwrap();
    assert_eq!(used, encoded.len());
    assert_eq!(decoded, addr);
}

#[test]
fn ipv6_round_trip() {
    let bytes: Vec<u8> = (1..=16).collect();
    let addr = AddressSpec::V6 {
        addr: bytes.clone(),
        port: 443,
    };
    let encoded = encode_address(&addr);
    assert_eq!(encoded[0], 0x04);
    assert_eq!(&encoded[1..17], bytes.as_slice());
    assert_eq!(&encoded[17..], &[0x01, 0xbb]);
    let (decoded, used) = decode_address(&encoded).unwrap();
    assert_eq!(used, 19);
    assert_eq!(decoded, addr);
}

#[test]
fn domain_round_trip() {
    let addr = AddressSpec::Domain {
        name: b"example.com".to_vec(),
        port: 80,
    };
    let encoded = encode_address(&addr);
    assert_eq!(encoded[0], 0x03);
    assert_eq!(encoded[1], 11);
    assert_eq!(&encoded[2..13], b"example.com");
    assert_eq!(&encoded[13..], &[0x00, 0x50]);
    let (decoded, used) = decode_address(&encoded).unwrap();
    assert_eq!(used, encoded.len());
    assert_eq!(decoded, addr);
}

#[test]
fn longest_domain_round_trip() {
    let addr = AddressSpec::Domain {
        name: vec![b'a'; 255],
        port: 65535,
    };
    let encoded = encode_address(&addr);
    assert_eq!(encoded.len(), 259);
    let (decoded, used) = decode_address(&encoded).unwrap();
    assert_eq!(used, 259);
    assert_eq!(decoded, addr);
}

#[test]
fn unknown_address_tag_decodes_unsupported() {
    let (decoded, used) = decode_address(&vec![0x05, 1, 2, 3]).unwrap();
    assert_eq!(decoded, AddressSpec::Unsupported);
    assert_eq!(used, 1);
}

#[test]
fn truncated_addresses_are_rejected() {
    assert_eq!(decode_address(&vec![]), Err(DecodeError::Truncated));
    assert_eq!(
        decode_address(&vec![0x01, 127, 0, 0, 1]),
        Err(DecodeError::Truncated)
    );
    assert_eq!(decode_address(&vec![0x04; 18]), Err(DecodeError::Truncated));
    assert_eq!(decode_address(&vec![0x03]), Err(DecodeError::Truncated));
    assert_eq!(
        decode_address(&vec![0x03, 4, b'a', b'b', b'c']),
        Err(DecodeError::Truncated)
    );
}

#[test]
fn zero_length_domain_is_a_framing_violation() {
    assert_eq!(
        decode_address(&vec![0x03, 0, 0x00, 0x50]),
        Err(DecodeError::EmptyField)
    );
}

#[test]
fn length_prefixed_field_reads_exactly_its_length() {
    let (field, used) = decode_length_prefixed(&vec![3, 49, 50, 51, 99]).unwrap();
    assert_eq!(field, vec![49, 50, 51]);
    assert_eq!(used, 4);
}

#[test]
fn length_prefixed_zero_is_a_framing_violation() {
    assert_eq!(
        decode_length_prefixed(&vec![0, 1, 2]),
        Err(DecodeError::EmptyField)
    );
}

#[test]
fn length_prefixed_truncated() {
    assert_eq!(decode_length_prefixed(&vec![]), Err(DecodeError::Truncated));
    assert_eq!(
        decode_length_prefixed(&vec![5, 1, 2]),
        Err(DecodeError::Truncated)
    );
}

#[test]
fn command_reply_is_ten_zero_bound_bytes() {
    assert_eq!(
        encode_command_reply(5, ReplyStatus::Succeeded),
        vec![0x05, 0x00, 0x00, 0x01, 0, 0, 0, 0, 0, 0]
    );
    assert_eq!(
        encode_command_reply(5, ReplyStatus::RuleSetNotAllowed),
        vec![0x05, 0x02, 0x00, 0x01, 0, 0, 0, 0, 0, 0]
    );
    assert_eq!(
        encode_command_reply(5, ReplyStatus::ConnectionRefused),
        vec![0x05, 0x05, 0x00, 0x01, 0, 0, 0, 0, 0, 0]
    );
    assert_eq!(
        encode_command_reply(5, ReplyStatus::CommandUnsupported),
        vec![0x05, 0x07, 0x00, 0x01, 0, 0, 0, 0, 0, 0]
    );
    assert_eq!(
        encode_command_reply(5, ReplyStatus::AddrTypeUnsupported),
        vec![0x05, 0x08, 0x00, 0x01, 0, 0, 0, 0, 0, 0]
    );
}

#[test]
fn wire_tags_map_to_their_bytes() {
    assert_eq!(Method::NoAuth.byte(), 0x00);
    assert_eq!(Method::Passwd.byte(), 0x02);
    assert_eq!(Method::Error.byte(), 0xff);
    assert_eq!(Command::from_byte(0x01), Command::Connect);
    assert_eq!(Command::from_byte(0x02), Command::Unsupported);
    assert_eq!(Command::from_byte(0x00), Command::Unsupported);
    assert_eq!(AddrType::from_byte(0x01), AddrType::V4);
    assert_eq!(AddrType::from_byte(0x03), AddrType::Domain);
    assert_eq!(AddrType::from_byte(0x04), AddrType::V6);
    assert_eq!(AddrType::from_byte(0x02), AddrType::Unsupported);
    assert_eq!(AddrType::from_byte(0xff), AddrType::Unsupported);
}

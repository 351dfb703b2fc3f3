use nat_probe::codec::{
    create_binding_request, create_binding_request_with_change, parse_address_attribute,
    parse_stun_response, AttributeError, DecodeError,
};
use nat_probe::endpoint::{Endpoint, IpAddress};

const TID: [u8; 12] = [1, 2, 3, 4, 5, 6, 7, 8, 9, 10, 11, 12];

/// A Binding Success Response with the given attributes, each padded to a
/// 4-byte boundary, and the declared message length covering them all.
fn response(tid: &[u8; 12], attrs: &[(u16, Vec<u8>)]) -> Vec<u8> {
    let mut body: Vec<u8> = Vec::new();
    for (attr_type, attr_body) in attrs {
        body.extend_from_slice(&attr_type.to_be_bytes());
        body.extend_from_slice(&(attr_body.len() as u16).to_be_bytes());
        body.extend_from_slice(attr_body);
        while body.len() % 4 != 0 {
            body.push(0);
        }
    }
    let mut m: Vec<u8> = vec![0x01, 0x01];
    m.extend_from_slice(&(body.len() as u16).to_be_bytes());
    m.extend_from_slice(&[0x21, 0x12, 0xA4, 0x42]);
    m.extend_from_slice(tid);
    m.extend_from_slice(&body);
    m
}

/// A plain (not XOR-obfuscated) IPv4 address attribute body.
fn addr_v4(ip: u32, port: u16) -> Vec<u8> {
    let mut b: Vec<u8> = vec![0x00, 0x01];
    b.extend_from_slice(&port.to_be_bytes());
    b.extend_from_slice(&ip.to_be_bytes());
    b
}

/// An XOR-obfuscated IPv4 address attribute body for a message with the
/// given transaction id.
fn xor_addr_v4(ip: u32, port: u16, _tid: &[u8; 12]) -> Vec<u8> {
    let mut b: Vec<u8> = vec![0x00, 0x01];
    b.extend_from_slice(&(port ^ 0x2112).to_be_bytes());
    b.extend_from_slice(&(ip ^ 0x2112A442).to_be_bytes());
    b
}

/// An XOR-obfuscated IPv6 address attribute body: the port masked with the
/// cookie's high half, the address bytes masked with cookie-then-id.
fn xor_addr_v6(ip: u128, port: u16, tid: &[u8; 12]) -> Vec<u8> {
    let mut key: Vec<u8> = vec![0x21, 0x12, 0xA4, 0x42];
    key.extend_from_slice(tid);
    let mut b: Vec<u8> = vec![0x00, 0x02];
    b.extend_from_slice(&(port ^ 0x2112).to_be_bytes());
    for (i, byte) in ip.to_be_bytes().iter().enumerate() {
        b.push(*byte ^ key[i]);
    }
    b
}

#[test]
fn binding_request_layout() {
    let r = create_binding_request(&TID);
    assert_eq!(r.len(), 20);
    assert_eq!(&r[0..2], &[0x00, 0x01]);
    assert_eq!(&r[2..4], &[0x00, 0x00]);
    assert_eq!(&r[4..8], &[0x21, 0x12, 0xA4, 0x42]);
    assert_eq!(&r[8..20], &TID);
}

#[test]
fn binding_request_decodes_back() {
    let r = create_binding_request(&TID);
    let message_type = u16::from_be_bytes([r[0], r[1]]);
    assert_eq!(message_type, 0x0001);
    assert_eq!(&r[8..20], &TID);
    let rc = create_binding_request_with_change(&TID, true, true);
    let message_type = u16::from_be_bytes([rc[0], rc[1]]);
    assert_eq!(message_type, 0x0001);
    assert_eq!(&rc[8..20], &TID);
}

#[test]
fn change_request_ip_only_flags() {
    let r = create_binding_request_with_change(&TID, true, false);
    assert_eq!(r.len(), 28);
    assert_eq!(&r[2..4], &[0x00, 0x08]);
    assert_eq!(&r[20..24], &[0x00, 0x03, 0x00, 0x04]);
    let flags = u32::from_be_bytes([r[24], r[25], r[26], r[27]]);
    assert_eq!(flags, 0x04);
}

#[test]
fn change_request_other_flags() {
    let port_only = create_binding_request_with_change(&TID, false, true);
    assert_eq!(port_only[27], 0x02);
    let both = create_binding_request_with_change(&TID, true, true);
    assert_eq!(both[27], 0x06);
    let neither = create_binding_request_with_change(&TID, false, false);
    assert_eq!(neither[27], 0x00);
}

#[test]
fn parse_plain_mapped_v4() {
    let m = response(&TID, &[(0x0001, addr_v4(0xC0A80102, 3478))]);
    let (mapped, changed) = parse_stun_response(&m).unwrap();
    assert_eq!(mapped, Endpoint { ip: IpAddress::V4(0xC0A80102), port: 3478 });
    assert!(changed.is_none());
}

#[test]
fn parse_xor_mapped_v4_round_trip() {
    let m = response(&TID, &[(0x0020, xor_addr_v4(0xC0A80102, 54321, &TID))]);
    let (mapped, _) = parse_stun_response(&m).unwrap();
    assert_eq!(mapped, Endpoint { ip: IpAddress::V4(0xC0A80102), port: 54321 });
}

#[test]
fn parse_xor_mapped_v6_round_trip() {
    let ip: u128 = 0x20010DB8000000000000000000000042;
    let m = response(&TID, &[(0x0020, xor_addr_v6(ip, 61000, &TID))]);
    let (mapped, _) = parse_stun_response(&m).unwrap();
    assert_eq!(mapped, Endpoint { ip: IpAddress::V6(ip), port: 61000 });
}

#[test]
fn xor_port_of_zero_is_mask() {
    let b = xor_addr_v4(0, 0, &TID);
    assert_eq!(&b[2..4], &[0x21, 0x12]);
    let m = response(&TID, &[(0x0020, b)]);
    let (mapped, _) = parse_stun_response(&m).unwrap();
    assert_eq!(mapped, Endpoint { ip: IpAddress::V4(0), port: 0 });
}

#[test]
fn parse_changed_address() {
    let m = response(
        &TID,
        &[
            (0x0001, addr_v4(0x01020304, 1000)),
            (0x0005, addr_v4(0x05060708, 2000)),
        ],
    );
    let (mapped, changed) = parse_stun_response(&m).unwrap();
    assert_eq!(mapped, Endpoint { ip: IpAddress::V4(0x01020304), port: 1000 });
    assert_eq!(changed, Some(Endpoint { ip: IpAddress::V4(0x05060708), port: 2000 }));
}

#[test]
fn later_mapped_address_wins() {
    let m = response(
        &TID,
        &[
            (0x0001, addr_v4(0x01020304, 1000)),
            (0x0020, xor_addr_v4(0x0A000001, 4242, &TID)),
        ],
    );
    let (mapped, _) = parse_stun_response(&m).unwrap();
    assert_eq!(mapped, Endpoint { ip: IpAddress::V4(0x0A000001), port: 4242 });
}

#[test]
fn short_datagram_is_malformed() {
    for n in 0..20 {
        let m: Vec<u8> = vec![0x01; n];
        assert_eq!(parse_stun_response(&m), Err(DecodeError::MalformedResponse));
    }
}

#[test]
fn declared_length_past_buffer_is_malformed() {
    // One attribute whose declared length runs past the end of the buffer:
    // the walk stops, no mapped address is found.
    let mut m = response(&TID, &[]);
    m[3] = 8;
    m.extend_from_slice(&[0x00, 0x01, 0xFF, 0xFF]);
    assert_eq!(parse_stun_response(&m), Err(DecodeError::MalformedResponse));
}

#[test]
fn no_mapped_address_is_malformed() {
    let m = response(&TID, &[(0x0005, addr_v4(0x05060708, 2000))]);
    assert_eq!(parse_stun_response(&m), Err(DecodeError::MalformedResponse));
}

#[test]
fn unsupported_family_does_not_abort_decode() {
    let mut odd = addr_v4(0, 7);
    odd[1] = 0x03;
    let m = response(&TID, &[(0x0020, odd), (0x0001, addr_v4(0x7F000001, 80))]);
    let (mapped, _) = parse_stun_response(&m).unwrap();
    assert_eq!(mapped, Endpoint { ip: IpAddress::V4(0x7F000001), port: 80 });
}

#[test]
fn odd_attribute_length_is_padded_in_walk() {
    // An unknown attribute of length 5 advances the walk by 5 rounded up
    // to 8; the mapped address after it is still found.
    let m = response(
        &TID,
        &[(0x7777, vec![1, 2, 3, 4, 5]), (0x0001, addr_v4(0x7F000001, 80))],
    );
    let (mapped, _) = parse_stun_response(&m).unwrap();
    assert_eq!(mapped, Endpoint { ip: IpAddress::V4(0x7F000001), port: 80 });
}

#[test]
fn attribute_walk_respects_declared_length() {
    // The mapped address sits past the declared message length: the walk
    // never reaches it.
    let mut m = response(&TID, &[(0x0001, addr_v4(0x7F000001, 80))]);
    m[3] = 0;
    assert_eq!(parse_stun_response(&m), Err(DecodeError::MalformedResponse));
}

#[test]
fn address_attribute_too_short() {
    let m = response(&TID, &[(0x0001, vec![0x00, 0x01, 0x00])]);
    assert_eq!(parse_stun_response(&m), Err(DecodeError::MalformedResponse));
    let m2 = response(&TID, &[]);
    assert_eq!(
        parse_address_attribute(&m2, 0, 7, false),
        Err(AttributeError::TruncatedAttribute)
    );
}

#[test]
fn ipv6_attribute_shorter_than_twenty_is_truncated() {
    let mut b = addr_v4(0x01020304, 9);
    b[1] = 0x02;
    let m = response(&TID, &[(0x0001, b)]);
    assert_eq!(parse_stun_response(&m), Err(DecodeError::MalformedResponse));
}

#[test]
fn unknown_family_attribute_error() {
    let mut b = addr_v4(0x01020304, 9);
    b[1] = 0x07;
    let m = response(&TID, &[(0x0001, b.clone()), (0x0001, addr_v4(1, 1))]);
    let (mapped, _) = parse_stun_response(&m).unwrap();
    assert_eq!(mapped, Endpoint { ip: IpAddress::V4(1), port: 1 });
    let mut raw = vec![0u8; 20];
    raw.extend_from_slice(&b);
    assert_eq!(
        parse_address_attribute(&raw, 20, 8, false),
        Err(AttributeError::UnsupportedFamily)
    );
}

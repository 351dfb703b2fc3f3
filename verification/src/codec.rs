//! The STUN message codec: encoding of Binding Requests (optionally with a
//! CHANGE-REQUEST attribute) and decoding of Binding Responses, including
//! XOR-obfuscated address attributes.
//!
//! A message is a 20-byte header (2 bytes message type, 2 bytes message
//! length, the 4-byte magic cookie `0x2112A442`, a 12-byte transaction id)
//! followed by attributes, each a 4-byte header (type, length) and a body
//! padded to a 4-byte boundary.

use vstd::prelude::*;
use crate::endpoint::{Endpoint, IpAddress};

verus! {

/// Attribute type of MAPPED-ADDRESS.
pub const ATTR_MAPPED_ADDRESS: u16 = 0x0001;

/// Attribute type of CHANGE-REQUEST.
pub const ATTR_CHANGE_REQUEST: u16 = 0x0003;

/// Attribute type of CHANGED-ADDRESS.
pub const ATTR_CHANGED_ADDRESS: u16 = 0x0005;

/// Attribute type of XOR-MAPPED-ADDRESS.
pub const ATTR_XOR_MAPPED_ADDRESS: u16 = 0x0020;

/// The CHANGE-REQUEST flag asking the server to reply from another IP.
pub const CHANGE_IP_FLAG: u8 = 0x04;

/// The CHANGE-REQUEST flag asking the server to reply from another port.
pub const CHANGE_PORT_FLAG: u8 = 0x02;

/// The high 16 bits of the magic cookie, the XOR mask of an obfuscated port.
pub const PORT_XOR_MASK: u16 = 0x2112;

/// The bytes of a Binding Request with the given transaction id and no
/// attributes: message type `0x0001`, length `0`, the magic cookie, the id.
pub open spec fn spec_binding_request(tid: Seq<u8>) -> Seq<u8> {
    seq![0x00u8, 0x01u8, 0x00u8, 0x00u8, 0x21u8, 0x12u8, 0xA4u8, 0x42u8] + tid
}

/// The flags byte of a CHANGE-REQUEST attribute.
pub open spec fn spec_change_flags(change_ip: bool, change_port: bool) -> u8 {
    ((if change_ip { CHANGE_IP_FLAG as int } else { 0 })
        + (if change_port { CHANGE_PORT_FLAG as int } else { 0 })) as u8
}

/// The bytes of a Binding Request carrying one CHANGE-REQUEST attribute:
/// message length `8`, attribute type `0x0003`, attribute length `4`, and a
/// 4-byte big-endian flags field whose low byte holds the two flags.
pub open spec fn spec_binding_request_with_change(
    tid: Seq<u8>,
    change_ip: bool,
    change_port: bool,
) -> Seq<u8> {
    seq![0x00u8, 0x01u8, 0x00u8, 0x08u8, 0x21u8, 0x12u8, 0xA4u8, 0x42u8] + tid
        + seq![
        0x00u8,
        0x03u8,
        0x00u8,
        0x04u8,
        0x00u8,
        0x00u8,
        0x00u8,
        spec_change_flags(change_ip, change_port),
    ]
}

/// The message type encoded in the first two bytes of a message.
pub open spec fn spec_message_type(m: Seq<u8>) -> int
    recommends
        m.len() >= 2,
{
    m[0] * 256 + m[1]
}

/// The transaction id carried in bytes 8..20 of a message.
pub open spec fn spec_message_transaction_id(m: Seq<u8>) -> Seq<u8>
    recommends
        m.len() >= 20,
{
    m.subrange(8, 20)
}

/// Why decoding an address attribute ignores it: the body is shorter than
/// its family requires, or the family is neither IPv4 nor IPv6.
#[derive(Clone, Copy, Debug, PartialEq, Eq, Structural)]
pub enum AttributeError {
    TruncatedAttribute,
    UnsupportedFamily,
}

/// Why a datagram is not a usable Binding Response: it is shorter than a
/// header, or no mapped-address attribute was found.
#[derive(Clone, Copy, Debug, PartialEq, Eq, Structural)]
pub enum DecodeError {
    MalformedResponse,
}

/// The big-endian value of a byte string.
pub open spec fn spec_be_value(b: Seq<u8>) -> nat
    decreases b.len(),
{
    if b.len() == 0 {
        0
    } else {
        (spec_be_value(b.drop_last()) * 256 + b.last()) as nat
    }
}

/// 256 to the n-th power: the number of values of an n-byte string.
pub open spec fn pow256(n: nat) -> nat
    decreases n,
{
    if n == 0 {
        1
    } else {
        256 * pow256((n - 1) as nat)
    }
}

/// The big-endian value of an n-byte string is below 256^n.
pub proof fn lemma_be_value_bound(b: Seq<u8>)
    ensures
        spec_be_value(b) < pow256(b.len()),
    decreases b.len(),
{
    if b.len() > 0 {
        lemma_be_value_bound(b.drop_last());
    }
}

/// 256^n does not shrink as n grows.
pub proof fn lemma_pow256_increases(m: nat, n: nat)
    requires
        m <= n,
    ensures
        pow256(m) <= pow256(n),
    decreases n,
{
    if m < n {
        lemma_pow256_increases(m, (n - 1) as nat);
        assert(pow256(n) == 256 * pow256((n - 1) as nat));
    }
}

/// The big-endian value of a two-byte string, written out.
pub proof fn lemma_be_value_pair(b: Seq<u8>)
    requires
        b.len() == 2,
    ensures
        spec_be_value(b) == b[0] * 256 + b[1],
{
    reveal_with_fuel(spec_be_value, 4);
    assert(b.drop_last() =~= seq![b[0]]);
    assert(seq![b[0]].drop_last() =~= Seq::<u8>::empty());
}

/// Byte-wise XOR of a string with the leading bytes of a key.
pub open spec fn spec_xor_bytes(a: Seq<u8>, key: Seq<u8>) -> Seq<u8>
    recommends
        a.len() <= key.len(),
{
    Seq::new(a.len(), |i: int| a[i] ^ key[i])
}

/// The address bytes that an address attribute denotes: the n bytes at
/// `start`, XOR-unmasked with the key at bytes 4..20 (the magic cookie
/// followed by the transaction id) when the attribute is XOR-obfuscated.
pub open spec fn spec_masked_bytes(data: Seq<u8>, start: int, n: int, is_xor: bool) -> Seq<u8>
    recommends
        0 <= start,
        0 <= n,
        start + n <= data.len(),
        4 + n <= data.len(),
{
    Seq::new(n as nat, |i: int| if is_xor {
        data[start + i] ^ data[4 + i]
    } else {
        data[start + i]
    })
}

/// Decoding of one address attribute body against the key at bytes 4..20 of
/// the enclosing message: byte 1 is the family, bytes 2..3 the port, the
/// rest the address; an XOR-obfuscated port is unmasked with the high half
/// of the magic cookie, XOR-obfuscated address bytes with cookie-and-id.
pub open spec fn spec_parse_address(body: Seq<u8>, is_xor: bool, key: Seq<u8>) -> Result<
    Endpoint,
    AttributeError,
> {
    if body.len() < 8 {
        Err(AttributeError::TruncatedAttribute)
    } else {
        let raw_port = spec_be_value(body.subrange(2, 4)) as u16;
        let port = if is_xor {
            raw_port ^ PORT_XOR_MASK
        } else {
            raw_port
        };
        if body[1] == 0x01 {
            let ip_bytes = if is_xor {
                spec_xor_bytes(body.subrange(4, 8), key)
            } else {
                body.subrange(4, 8)
            };
            Ok(Endpoint { ip: IpAddress::V4(spec_be_value(ip_bytes) as u32), port })
        } else if body[1] == 0x02 {
            if body.len() < 20 {
                Err(AttributeError::TruncatedAttribute)
            } else {
                let ip_bytes = if is_xor {
                    spec_xor_bytes(body.subrange(4, 20), key)
                } else {
                    body.subrange(4, 20)
                };
                Ok(Endpoint { ip: IpAddress::V6(spec_be_value(ip_bytes) as u128), port })
            }
        } else {
            Err(AttributeError::UnsupportedFamily)
        }
    }
}

/// The padding that follows an attribute body: bodies are aligned to
/// 4-byte boundaries.
pub open spec fn spec_pad(len: int) -> int {
    if len % 4 == 0 {
        0
    } else {
        4 - (len % 4)
    }
}

/// The attribute walk of a Binding Response, from byte offset `pos`, with
/// the mapped and changed addresses found so far. `end` is where the
/// declared message length says the attributes stop. The walk stops when
/// the next attribute header would cross `end` or the buffer, or when a
/// declared body would cross the buffer; a mapped-address (plain or XOR)
/// or changed-address attribute that decodes replaces the one found so
/// far, and any other attribute — or one that fails to decode — is
/// skipped.
pub open spec fn spec_attribute_walk(
    data: Seq<u8>,
    end: int,
    pos: int,
    mapped: Option<Endpoint>,
    changed: Option<Endpoint>,
) -> (Option<Endpoint>, Option<Endpoint>)
    decreases data.len() + 4 - pos,
{
    if pos < 20 || pos + 4 > data.len() || pos >= end {
        (mapped, changed)
    } else {
        let attr_type = spec_be_value(data.subrange(pos, pos + 2));
        let attr_len = spec_be_value(data.subrange(pos + 2, pos + 4)) as int;
        if pos + 4 + attr_len > data.len() {
            (mapped, changed)
        } else {
            let body = data.subrange(pos + 4, pos + 4 + attr_len);
            let key = data.subrange(4, 20);
            let mapped2 = if attr_type == ATTR_MAPPED_ADDRESS || attr_type
                == ATTR_XOR_MAPPED_ADDRESS {
                match spec_parse_address(body, attr_type == ATTR_XOR_MAPPED_ADDRESS, key) {
                    Ok(a) => Some(a),
                    Err(_) => mapped,
                }
            } else {
                mapped
            };
            let changed2 = if attr_type == ATTR_CHANGED_ADDRESS {
                match spec_parse_address(body, false, key) {
                    Ok(a) => Some(a),
                    Err(_) => changed,
                }
            } else {
                changed
            };
            spec_attribute_walk(data, end, pos + 4 + attr_len + spec_pad(attr_len), mapped2, changed2)
        }
    }
}

/// Decoding of a whole Binding Response: a malformed response is one
/// shorter than the 20-byte header or one in which the attribute walk
/// finds no mapped address; otherwise the mapped address and, when
/// present, the changed address are returned.
pub open spec fn spec_parse_response(data: Seq<u8>) -> Result<
    (Endpoint, Option<Endpoint>),
    DecodeError,
> {
    if data.len() < 20 {
        Err(DecodeError::MalformedResponse)
    } else {
        let end = 20 + spec_be_value(data.subrange(2, 4));
        let found = spec_attribute_walk(data, end as int, 20, None, None);
        match found.0 {
            Some(m) => Ok((m, found.1)),
            None => Err(DecodeError::MalformedResponse),
        }
    }
}

/// Encodes a Binding Request with no attributes.
pub fn create_binding_request(transaction_id: &[u8; 12]) -> (r: Vec<u8>)
    ensures
        r@ == spec_binding_request(transaction_id@),
{
    let mut request: Vec<u8> = Vec::new();
    request.push(0x00);
    request.push(0x01);
    request.push(0x00);
    request.push(0x00);
    request.push(0x21);
    request.push(0x12);
    request.push(0xA4);
    request.push(0x42);
    for i in 0..12
        invariant
            request@ == spec_binding_request(transaction_id@).subrange(0, 8 + i),
    {
        request.push(transaction_id[i]);
        proof {
            assert(request@ =~= spec_binding_request(transaction_id@).subrange(0, 8 + i + 1));
        }
    }
    proof {
        assert(request@ =~= spec_binding_request(transaction_id@));
    }
    request
}

/// Encodes a Binding Request carrying one CHANGE-REQUEST attribute with the
/// given flags.
pub fn create_binding_request_with_change(
    transaction_id: &[u8; 12],
    change_ip: bool,
    change_port: bool,
) -> (r: Vec<u8>)
    ensures
        r@ == spec_binding_request_with_change(transaction_id@, change_ip, change_port),
{
    let mut request: Vec<u8> = Vec::new();
    request.push(0x00);
    request.push(0x01);
    request.push(0x00);
    request.push(0x08);
    request.push(0x21);
    request.push(0x12);
    request.push(0xA4);
    request.push(0x42);
    for i in 0..12
        invariant
            request@ == spec_binding_request_with_change(
                transaction_id@,
                change_ip,
                change_port,
            ).subrange(0, 8 + i),
    {
        request.push(transaction_id[i]);
        proof {
            assert(request@ =~= spec_binding_request_with_change(
                transaction_id@,
                change_ip,
                change_port,
            ).subrange(0, 8 + i + 1));
        }
    }
    request.push(0x00);
    request.push(0x03);
    request.push(0x00);
    request.push(0x04);
    let flags: u8 = (if change_ip { CHANGE_IP_FLAG } else { 0 })
        + (if change_port { CHANGE_PORT_FLAG } else { 0 });
    request.push(0x00);
    request.push(0x00);
    request.push(0x00);
    request.push(flags);
    proof {
        assert(request@ =~= spec_binding_request_with_change(
            transaction_id@,
            change_ip,
            change_port,
        ));
    }
    request
}

/// Reads the big-endian 16-bit value at byte offset `i`.
fn read_u16(data: &Vec<u8>, i: usize) -> (r: u16)
    requires
        i + 2 <= data@.len(),
    ensures
        r == spec_be_value(data@.subrange(i as int, i + 2)),
{
    proof {
        vstd::std_specs::vec::axiom_spec_len(data);
    }
    let r: u16 = (data[i] as u16) * 256 + (data[i + 1] as u16);
    proof {
        lemma_be_value_pair(data@.subrange(i as int, i + 2));
    }
    r
}

/// Reads the big-endian value of the `n` address bytes at `start`,
/// XOR-unmasking each with the key byte at offset `4 + i` when asked to.
fn read_address_value(data: &Vec<u8>, start: usize, n: usize, is_xor: bool) -> (r: u128)
    requires
        start + n <= data@.len(),
        4 + n <= data@.len(),
        n <= 16,
    ensures
        r == spec_be_value(spec_masked_bytes(data@, start as int, n as int, is_xor)),
{
    proof {
        vstd::std_specs::vec::axiom_spec_len(data);
    }
    let mut acc: u128 = 0;
    for i in 0..n
        invariant
            start + n <= data@.len(),
            4 + n <= data@.len(),
            n <= 16,
            data@.len() <= usize::MAX,
            acc == spec_be_value(spec_masked_bytes(data@, start as int, i as int, is_xor)),
    {
        let mut byte = data[start + i];
        if is_xor {
            byte = byte ^ data[4 + i];
        }
        proof {
            let q = spec_masked_bytes(data@, start as int, i as int, is_xor);
            let q2 = spec_masked_bytes(data@, start as int, i + 1, is_xor);
            assert(q2.drop_last() =~= q);
            assert(q2.last() == byte);
            lemma_be_value_bound(q);
            lemma_pow256_increases(q.len(), 15);
            assert(pow256(15) == 0x1000000000000000000000000000000) by {
                reveal_with_fuel(pow256, 16);
            }
        }
        acc = acc * 256 + (byte as u128);
    }
    acc
}

/// Decodes the address attribute whose body is the `attr_len` bytes at
/// `attr_start` of the message, unmasking XOR obfuscation against the
/// message's own cookie-and-transaction-id bytes.
pub fn parse_address_attribute(data: &Vec<u8>, attr_start: usize, attr_len: usize, is_xor: bool)
    -> (r: Result<Endpoint, AttributeError>)
    requires
        20 <= data@.len(),
        attr_start + attr_len <= data@.len(),
    ensures
        r == spec_parse_address(
            data@.subrange(attr_start as int, attr_start + attr_len),
            is_xor,
            data@.subrange(4, 20),
        ),
{
    let ghost body = data@.subrange(attr_start as int, attr_start + attr_len);
    let ghost key = data@.subrange(4, 20);
    proof {
        vstd::std_specs::vec::axiom_spec_len(data);
    }
    if attr_len < 8 {
        return Err(AttributeError::TruncatedAttribute);
    }
    let raw_port = read_u16(data, attr_start + 2);
    proof {
        assert(data@.subrange(attr_start + 2, attr_start + 4) =~= body.subrange(2, 4));
    }
    let port: u16 = if is_xor {
        raw_port ^ PORT_XOR_MASK
    } else {
        raw_port
    };
    let family = data[attr_start + 1];
    if family == 0x01 {
        let value = read_address_value(data, attr_start + 4, 4, is_xor);
        proof {
            let masked = spec_masked_bytes(data@, attr_start + 4, 4, is_xor);
            if is_xor {
                assert(masked =~= spec_xor_bytes(body.subrange(4, 8), key));
            } else {
                assert(masked =~= body.subrange(4, 8));
            }
            lemma_be_value_bound(masked);
            assert(pow256(4) == 0x100000000) by {
                reveal_with_fuel(pow256, 5);
            }
        }
        Ok(Endpoint { ip: IpAddress::V4(value as u32), port })
    } else if family == 0x02 {
        if attr_len < 20 {
            return Err(AttributeError::TruncatedAttribute);
        }
        let value = read_address_value(data, attr_start + 4, 16, is_xor);
        proof {
            let masked = spec_masked_bytes(data@, attr_start + 4, 16, is_xor);
            if is_xor {
                assert(masked =~= spec_xor_bytes(body.subrange(4, 20), key));
            } else {
                assert(masked =~= body.subrange(4, 20));
            }
        }
        Ok(Endpoint { ip: IpAddress::V6(value), port })
    } else {
        Err(AttributeError::UnsupportedFamily)
    }
}

/// Decodes a Binding Response, extracting the mapped address and, when the
/// server sent one, the changed address.
pub fn parse_stun_response(data: &Vec<u8>) -> (r: Result<
    (Endpoint, Option<Endpoint>),
    DecodeError,
>)
    ensures
        r == spec_parse_response(data@),
{
    let total = data.len();
    if total < 20 {
        return Err(DecodeError::MalformedResponse);
    }
    let msg_length = read_u16(data, 2);
    let end: usize = 20 + (msg_length as usize);
    let mut pos: usize = 20;
    let mut mapped: Option<Endpoint> = None;
    let mut changed: Option<Endpoint> = None;
    loop
        invariant_except_break
            20 <= data@.len() <= usize::MAX,
            20 <= pos <= data@.len() + 3,
            end == 20 + spec_be_value(data@.subrange(2, 4)),
            spec_attribute_walk(data@, end as int, 20, None::<Endpoint>, None::<Endpoint>)
                == spec_attribute_walk(data@, end as int, pos as int, mapped, changed),
        ensures
            spec_attribute_walk(data@, end as int, 20, None::<Endpoint>, None::<Endpoint>) == (
                mapped,
                changed,
            ),
        decreases data@.len() + 4 - pos,
    {
        let total = data.len();
        if pos > total - 4 || pos >= end {
            break;
        }
        let attr_type = read_u16(data, pos);
        let attr_len16 = read_u16(data, pos + 2);
        let attr_len = attr_len16 as usize;
        if attr_len > total - 4 - pos {
            // The declared body would cross the end of the buffer.
            break;
        }
        if attr_type == ATTR_MAPPED_ADDRESS || attr_type == ATTR_XOR_MAPPED_ADDRESS {
            match parse_address_attribute(
                data,
                pos + 4,
                attr_len,
                attr_type == ATTR_XOR_MAPPED_ADDRESS,
            ) {
                Ok(a) => {
                    mapped = Some(a);
                },
                Err(_) => {},
            }
        } else if attr_type == ATTR_CHANGED_ADDRESS {
            match parse_address_attribute(data, pos + 4, attr_len, false) {
                Ok(a) => {
                    changed = Some(a);
                },
                Err(_) => {},
            }
        }
        let ghost prev_pos = pos as int;
        pos = pos + 4 + attr_len;
        let rem = attr_len % 4;
        if rem != 0 {
            let pad = 4 - rem;
            if pad <= total - pos {
                pos = pos + pad;
            } else {
                // Padding would cross the end of the buffer: the next
                // header cannot be read, so the walk is over.
                proof {
                    assert(spec_attribute_walk(
                        data@,
                        end as int,
                        prev_pos + 4 + attr_len + spec_pad(attr_len as int),
                        mapped,
                        changed,
                    ) == (mapped, changed));
                }
                break;
            }
        }
        proof {
            assert(pos == prev_pos + 4 + attr_len + spec_pad(attr_len as int));
        }
    }
    match mapped {
        Some(m) => Ok((m, changed)),
        None => Err(DecodeError::MalformedResponse),
    }
}

/// A datagram shorter than the 20-byte header never decodes: it is
/// reported malformed, whatever its bytes.
pub proof fn lemma_short_datagram_is_malformed(data: Seq<u8>)
    requires
        data.len() < 20,
    ensures
        spec_parse_response(data) == Err::<(Endpoint, Option<Endpoint>), DecodeError>(
            DecodeError::MalformedResponse,
        ),
{
}

/// The n-byte big-endian encoding of a value.
pub open spec fn spec_be_bytes(value: nat, n: nat) -> Seq<u8>
    decreases n,
{
    if n == 0 {
        Seq::empty()
    } else {
        spec_be_bytes(value / 256, (n - 1) as nat).push((value % 256) as u8)
    }
}

/// Reading back the n-byte big-endian encoding of a value below 256^n
/// yields the value again.
pub proof fn lemma_be_bytes_inverse(value: nat, n: nat)
    requires
        value < pow256(n),
    ensures
        spec_be_bytes(value, n).len() == n,
        spec_be_value(spec_be_bytes(value, n)) == value,
    decreases n,
{
    if n > 0 {
        vstd::arithmetic::div_mod::lemma_multiply_divide_lt(
            value as int,
            256,
            pow256((n - 1) as nat) as int,
        );
        vstd::arithmetic::div_mod::lemma_mod_division_less_than_divisor(value as int, 256);
        lemma_be_bytes_inverse(value / 256, (n - 1) as nat);
        let q = spec_be_bytes(value / 256, (n - 1) as nat);
        let b = (value % 256) as u8;
        assert(q.push(b).drop_last() =~= q);
        vstd::arithmetic::div_mod::lemma_fundamental_div_mod(value as int, 256);
    }
}

/// The body of an address attribute for the given endpoint: family byte,
/// two port bytes, then the address bytes, the port XORed with the high
/// half of the magic cookie and the address bytes XORed with the leading
/// key bytes when the attribute is to be XOR-obfuscated.
pub open spec fn spec_encode_address(ep: Endpoint, is_xor: bool, key: Seq<u8>) -> Seq<u8>
    recommends
        key.len() == 16,
{
    let port = if is_xor {
        ep.port ^ PORT_XOR_MASK
    } else {
        ep.port
    };
    let family: u8 = match ep.ip {
        IpAddress::V4(_) => 0x01,
        IpAddress::V6(_) => 0x02,
    };
    let addr_bytes = match ep.ip {
        IpAddress::V4(v) => spec_be_bytes(v as nat, 4),
        IpAddress::V6(v) => spec_be_bytes(v as nat, 16),
    };
    let masked = if is_xor {
        spec_xor_bytes(addr_bytes, key)
    } else {
        addr_bytes
    };
    seq![0u8, family] + spec_be_bytes(port as nat, 2) + masked
}

/// Both Binding Request encodings decode back to the message type of a
/// Binding Request and to the transaction id they were built from.
pub proof fn lemma_binding_request_round_trip(tid: Seq<u8>, change_ip: bool, change_port: bool)
    requires
        tid.len() == 12,
    ensures
        spec_message_type(spec_binding_request(tid)) == 0x0001,
        spec_message_transaction_id(spec_binding_request(tid)) == tid,
        spec_message_type(spec_binding_request_with_change(tid, change_ip, change_port)) == 0x0001,
        spec_message_transaction_id(spec_binding_request_with_change(tid, change_ip, change_port))
            == tid,
{
    assert(spec_message_transaction_id(spec_binding_request(tid)) =~= tid);
    assert(spec_message_transaction_id(spec_binding_request_with_change(tid, change_ip, change_port))
        =~= tid);
}

/// The flags field of an encoded CHANGE-REQUEST decodes to the flag bits
/// it was built from; with only the change-IP flag set it is `0x04`.
pub proof fn lemma_change_request_flags(tid: Seq<u8>, change_ip: bool, change_port: bool)
    requires
        tid.len() == 12,
    ensures
        spec_be_value(
            spec_binding_request_with_change(tid, change_ip, change_port).subrange(24, 28),
        ) == spec_change_flags(change_ip, change_port),
{
    let m = spec_binding_request_with_change(tid, change_ip, change_port);
    let flags = spec_change_flags(change_ip, change_port);
    assert(m.subrange(24, 28) =~= seq![0u8, 0u8, 0u8, flags]);
    reveal_with_fuel(spec_be_value, 6);
    assert(seq![0u8, 0u8, 0u8, flags].drop_last() =~= seq![0u8, 0u8, 0u8]);
    assert(seq![0u8, 0u8, 0u8].drop_last() =~= seq![0u8, 0u8]);
    assert(seq![0u8, 0u8].drop_last() =~= seq![0u8]);
    assert(seq![0u8].drop_last() =~= Seq::<u8>::empty());
}

/// XOR obfuscation is invertible: an address attribute encoded against a
/// 16-byte cookie-and-transaction-id key decodes back to the endpoint it
/// was built from, for the IPv4 and the IPv6 form, with or without XOR.
pub proof fn lemma_xor_address_round_trip(ep: Endpoint, is_xor: bool, key: Seq<u8>)
    requires
        key.len() == 16,
    ensures
        spec_parse_address(spec_encode_address(ep, is_xor, key), is_xor, key)
            == Ok::<Endpoint, AttributeError>(ep),
{
    let body = spec_encode_address(ep, is_xor, key);
    let port = if is_xor {
        ep.port ^ PORT_XOR_MASK
    } else {
        ep.port
    };
    lemma_be_bytes_inverse(port as nat, 2);
    assert(pow256(2) == 0x10000) by {
        reveal_with_fuel(pow256, 3);
    }
    assert(body.subrange(2, 4) =~= spec_be_bytes(port as nat, 2));
    assert(forall|p: u16| #[trigger] ((p ^ PORT_XOR_MASK) ^ PORT_XOR_MASK) == p) by (bit_vector);
    assert(forall|x: u8, k: u8| #[trigger] ((x ^ k) ^ k) == x) by (bit_vector);
    match ep.ip {
        IpAddress::V4(v) => {
            assert(pow256(4) == 0x100000000) by {
                reveal_with_fuel(pow256, 5);
            }
            lemma_be_bytes_inverse(v as nat, 4);
            let addr_bytes = spec_be_bytes(v as nat, 4);
            if is_xor {
                assert(body.subrange(4, 8) =~= spec_xor_bytes(addr_bytes, key));
                assert(spec_xor_bytes(spec_xor_bytes(addr_bytes, key), key) =~= addr_bytes);
            } else {
                assert(body.subrange(4, 8) =~= addr_bytes);
            }
        },
        IpAddress::V6(v) => {
            assert(pow256(16) == 0x100000000000000000000000000000000) by {
                reveal_with_fuel(pow256, 17);
            }
            lemma_be_bytes_inverse(v as nat, 16);
            let addr_bytes = spec_be_bytes(v as nat, 16);
            if is_xor {
                assert(body.subrange(4, 20) =~= spec_xor_bytes(addr_bytes, key));
                assert(spec_xor_bytes(spec_xor_bytes(addr_bytes, key), key) =~= addr_bytes);
            } else {
                assert(body.subrange(4, 20) =~= addr_bytes);
            }
        },
    }
}

} // verus!

//! The transaction identifier generator: a 96-bit value, intended to be
//! unique per outstanding request, built from a high-resolution clock
//! reading and a fixed tag.

use vstd::prelude::*;

verus! {

/// The 12-byte transaction id for one clock reading: the reading's eight
/// big-endian bytes followed by the fixed four-byte tag.
pub open spec fn spec_transaction_id(nanos: u64) -> Seq<u8> {
    seq![
        (nanos >> 56) as u8,
        (nanos >> 48) as u8,
        (nanos >> 40) as u8,
        (nanos >> 32) as u8,
        (nanos >> 24) as u8,
        (nanos >> 16) as u8,
        (nanos >> 8) as u8,
        nanos as u8,
        0x11u8,
        0x22u8,
        0x33u8,
        0x44u8,
    ]
}

/// Relies on std::time::SystemTime: now(), placed relative to the Unix
/// epoch by duration_since, read as nanoseconds and truncated to 64 bits;
/// 0 when the clock stands before the epoch. The value depends on the
/// moment of the call, so nothing is promised of it.
#[verifier::external_body]
fn unix_nanos() -> u64 {
    match std::time::SystemTime::now().duration_since(std::time::SystemTime::UNIX_EPOCH) {
        Ok(d) => d.as_nanos() as u64,
        Err(_) => 0,
    }
}

/// Builds the transaction id that stands for the given clock reading.
pub fn make_transaction_id(nanos: u64) -> (r: [u8; 12])
    ensures
        r@ == spec_transaction_id(nanos),
{
    let r: [u8; 12] = [
        (nanos >> 56) as u8,
        (nanos >> 48) as u8,
        (nanos >> 40) as u8,
        (nanos >> 32) as u8,
        (nanos >> 24) as u8,
        (nanos >> 16) as u8,
        (nanos >> 8) as u8,
        nanos as u8,
        0x11,
        0x22,
        0x33,
        0x44,
    ];
    proof {
        assert(r@ =~= spec_transaction_id(nanos));
    }
    r
}

/// A fresh transaction id: the clock reading of this very call, followed
/// by the fixed tag. Whatever the clock returned, the id is the
/// deterministic image of one 64-bit reading under `make_transaction_id`.
pub fn generate_transaction_id() -> (r: [u8; 12])
    ensures
        r@.len() == 12,
        r@.subrange(8, 12) == seq![0x11u8, 0x22u8, 0x33u8, 0x44u8],
        exists|nanos: u64| r@ == spec_transaction_id(nanos),
{
    let nanos = unix_nanos();
    let r = make_transaction_id(nanos);
    proof {
        assert(r@.subrange(8, 12) =~= seq![0x11u8, 0x22u8, 0x33u8, 0x44u8]);
        assert(r@ == spec_transaction_id(nanos));
    }
    r
}

} // verus!

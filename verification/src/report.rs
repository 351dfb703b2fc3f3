//! The result record of a dual-stack run: one classification description
//! and one latency per address family.

use vstd::prelude::*;
use crate::nat_type::{NatType, spec_description};

verus! {

/// The latency reported for a family whose probe failed before completing
/// Test I, or never ran: "no response / not attempted".
pub const UNATTEMPTED_LATENCY: i64 = -1;

/// What one invocation of the classifier hands back: per address family,
/// the human-readable classification and the round-trip latency in
/// milliseconds, `-1` meaning "no response / not attempted".
#[derive(Clone, Debug)]
pub struct NetworkTestResult {
    pub nat_type_v4: String,
    pub nat_type_v6: String,
    pub ipv4_latency: i64,
    pub ipv6_latency: i64,
}

/// Aggregates the two independent family outcomes into the result record.
/// A family that completed hands its classification and its measured
/// latency; a family that failed before completing Test I (resolution or
/// bind failure) hands nothing and is reported as `Blocked` with the
/// sentinel latency.
pub fn build_result(v4: Option<(NatType, i64)>, v6: Option<(NatType, i64)>) -> (r:
    NetworkTestResult)
    ensures
        (match v4 {
            Some(o) => r.nat_type_v4@ == spec_description(o.0) && r.ipv4_latency == o.1,
            None => r.nat_type_v4@ == spec_description(NatType::Blocked) && r.ipv4_latency
                == UNATTEMPTED_LATENCY,
        }),
        (match v6 {
            Some(o) => r.nat_type_v6@ == spec_description(o.0) && r.ipv6_latency == o.1,
            None => r.nat_type_v6@ == spec_description(NatType::Blocked) && r.ipv6_latency
                == UNATTEMPTED_LATENCY,
        }),
{
    let (nat_v4, latency_v4): (NatType, i64) = match v4 {
        Some(o) => o,
        None => (NatType::Blocked, UNATTEMPTED_LATENCY),
    };
    let (nat_v6, latency_v6): (NatType, i64) = match v6 {
        Some(o) => o,
        None => (NatType::Blocked, UNATTEMPTED_LATENCY),
    };
    NetworkTestResult {
        nat_type_v4: nat_v4.get_description(),
        nat_type_v6: nat_v6.get_description(),
        ipv4_latency: latency_v4,
        ipv6_latency: latency_v6,
    }
}

} // verus!

//! A NAT behavior classifier: a STUN message codec, a probe state machine
//! that classifies the NAT in front of a host, and the result record that
//! a dual-stack run of the classifier fills in.

pub mod codec;
pub mod digits;
pub mod endpoint;
pub mod forward;
pub mod multicast;
pub mod nat_type;
pub mod probe;
pub mod report;
pub mod txid;

pub use nat_type::NatType;
pub use report::NetworkTestResult;

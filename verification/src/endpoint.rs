//! A socket address as the classifier sees it: an IP address held as a
//! plain integer (big-endian value of its bytes) together with a UDP port.

use vstd::prelude::*;

verus! {

/// An IP address, version-tagged. The integer is the big-endian value of
/// the address bytes, so `V4(0x7F000001)` is `127.0.0.1`.
#[derive(Clone, Copy, Debug, PartialEq, Eq, Structural)]
pub enum IpAddress {
    V4(u32),
    V6(u128),
}

/// A resolved UDP endpoint: an IP address and a port.
#[derive(Clone, Copy, Debug, PartialEq, Eq, Structural)]
pub struct Endpoint {
    pub ip: IpAddress,
    pub port: u16,
}

} // verus!

//! The classification that a completed probe run produces.

use vstd::prelude::*;
use vstd::string::StringExecFns;

verus! {

/// The kind of NAT (if any) that sits between this host and the public
/// internet, as far as one probe run can tell.
#[derive(Clone, Copy, Debug, PartialEq, Eq, Structural)]
pub enum NatType {
    OpenInternet,
    FullCone,
    RestrictedCone,
    PortRestrictedCone,
    Symmetric,
    SymmetricUdpFirewall,
    Blocked,
    Unknown,
}

/// The fixed human-readable description of each classification.
pub open spec fn spec_description(t: NatType) -> Seq<char> {
    match t {
        NatType::OpenInternet => "开放互联网 (Open Internet)"@,
        NatType::FullCone => "完全锥形 NAT (Full Cone NAT)"@,
        NatType::RestrictedCone => "受限锥形 NAT (Restricted Cone NAT)"@,
        NatType::PortRestrictedCone => "端口受限锥形 NAT (Port Restricted Cone NAT)"@,
        NatType::Symmetric => "对称型 NAT (Symmetric NAT)"@,
        NatType::SymmetricUdpFirewall => "对称型 UDP 防火墙 (Symmetric UDP Firewall)"@,
        NatType::Blocked => "UDP 被阻止 (UDP Blocked)"@,
        NatType::Unknown => "未知类型 (Unknown)"@,
    }
}

impl NatType {
    /// The human-readable description of this classification.
    pub fn get_description(&self) -> (r: String)
        ensures
            r@ == spec_description(*self),
    {
        match self {
            NatType::OpenInternet => String::from_str("开放互联网 (Open Internet)"),
            NatType::FullCone => String::from_str("完全锥形 NAT (Full Cone NAT)"),
            NatType::RestrictedCone => String::from_str("受限锥形 NAT (Restricted Cone NAT)"),
            NatType::PortRestrictedCone => String::from_str("端口受限锥形 NAT (Port Restricted Cone NAT)"),
            NatType::Symmetric => String::from_str("对称型 NAT (Symmetric NAT)"),
            NatType::SymmetricUdpFirewall => String::from_str("对称型 UDP 防火墙 (Symmetric UDP Firewall)"),
            NatType::Blocked => String::from_str("UDP 被阻止 (UDP Blocked)"),
            NatType::Unknown => String::from_str("未知类型 (Unknown)"),
        }
    }
}

} // verus!

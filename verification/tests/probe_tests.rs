use nat_probe::endpoint::{Endpoint, IpAddress};
use nat_probe::nat_type::NatType;
use nat_probe::probe::{Probe, ProbeAction, ProbeInput, ProbeState};

const TID: [u8; 12] = [1, 2, 3, 4, 5, 6, 7, 8, 9, 10, 11, 12];

fn local() -> Endpoint {
    Endpoint { ip: IpAddress::V4(0xC0A80164), port: 50000 }
}

/// A plain address attribute body for an endpoint of either family.
fn addr_body(ep: Endpoint) -> Vec<u8> {
    let mut b: Vec<u8> = vec![0x00];
    match ep.ip {
        IpAddress::V4(v) => {
            b.push(0x01);
            b.extend_from_slice(&ep.port.to_be_bytes());
            b.extend_from_slice(&v.to_be_bytes());
        }
        IpAddress::V6(v) => {
            b.push(0x02);
            b.extend_from_slice(&ep.port.to_be_bytes());
            b.extend_from_slice(&v.to_be_bytes());
        }
    }
    b
}

/// A Binding Success Response carrying one plain MAPPED-ADDRESS and, when
/// asked, one CHANGED-ADDRESS.
fn response(mapped: Endpoint, changed: Option<Endpoint>) -> Vec<u8> {
    let mut body: Vec<u8> = Vec::new();
    let mapped_body = addr_body(mapped);
    body.extend_from_slice(&[0x00, 0x01]);
    body.extend_from_slice(&(mapped_body.len() as u16).to_be_bytes());
    body.extend_from_slice(&mapped_body);
    if let Some(c) = changed {
        let changed_body = addr_body(c);
        body.extend_from_slice(&[0x00, 0x05]);
        body.extend_from_slice(&(changed_body.len() as u16).to_be_bytes());
        body.extend_from_slice(&changed_body);
    }
    let mut m: Vec<u8> = vec![0x01, 0x01];
    m.extend_from_slice(&(body.len() as u16).to_be_bytes());
    m.extend_from_slice(&[0x21, 0x12, 0xA4, 0x42]);
    m.extend_from_slice(&TID);
    m.extend_from_slice(&body);
    m
}

fn mapped() -> Endpoint {
    Endpoint { ip: IpAddress::V4(0x08080808), port: 40000 }
}

fn changed_addr() -> Endpoint {
    Endpoint { ip: IpAddress::V4(0x08080404), port: 3479 }
}

#[test]
fn silent_server_is_blocked() {
    // The classification comes from the very first wait: no second socket
    // probe, no change request was ever asked for.
    let mut p = Probe::new(local());
    let action = p.step(ProbeInput::Timeout);
    assert_eq!(action, ProbeAction::Finished(NatType::Blocked));
    assert_eq!(p.state, ProbeState::Done { nat_type: NatType::Blocked });
}

#[test]
fn garbage_datagram_is_unknown() {
    let mut p = Probe::new(local());
    let action = p.step(ProbeInput::Datagram(vec![0xFF; 64]));
    assert_eq!(action, ProbeAction::Finished(NatType::Unknown));
}

#[test]
fn short_datagram_is_unknown() {
    let mut p = Probe::new(local());
    let action = p.step(ProbeInput::Datagram(vec![0x01, 0x01, 0x00]));
    assert_eq!(action, ProbeAction::Finished(NatType::Unknown));
}

#[test]
fn response_without_mapped_address_is_unknown() {
    let mut m = response(mapped(), None);
    // Break the mapped-address attribute's type so the walk finds nothing.
    m[21] = 0x77;
    let mut p = Probe::new(local());
    let action = p.step(ProbeInput::Datagram(m));
    assert_eq!(action, ProbeAction::Finished(NatType::Unknown));
}

#[test]
fn mapped_equals_local_is_open_internet() {
    let mut p = Probe::new(local());
    let action = p.step(ProbeInput::Datagram(response(local(), None)));
    assert_eq!(action, ProbeAction::Finished(NatType::OpenInternet));
}

#[test]
fn different_port_on_second_socket_is_symmetric() {
    // The changed address is present, so Tests II and III could have
    // classified FullCone or RestrictedCone later; Symmetric still wins.
    let mut p = Probe::new(local());
    let action = p.step(ProbeInput::Datagram(response(mapped(), Some(changed_addr()))));
    assert_eq!(action, ProbeAction::SecondSocketProbe);
    let second = Endpoint { ip: mapped().ip, port: mapped().port + 1 };
    let action = p.step(ProbeInput::Datagram(response(second, None)));
    assert_eq!(action, ProbeAction::Finished(NatType::Symmetric));
}

#[test]
fn full_cone_when_change_request_answered() {
    let mut p = Probe::new(local());
    p.step(ProbeInput::Datagram(response(mapped(), Some(changed_addr()))));
    let action = p.step(ProbeInput::Timeout);
    assert_eq!(action, ProbeAction::ChangeRequestBoth);
    let action = p.step(ProbeInput::Datagram(vec![0u8; 32]));
    assert_eq!(action, ProbeAction::Finished(NatType::FullCone));
}

#[test]
fn restricted_cone_when_only_changed_address_answers() {
    let mut p = Probe::new(local());
    p.step(ProbeInput::Datagram(response(mapped(), Some(changed_addr()))));
    p.step(ProbeInput::Timeout);
    let action = p.step(ProbeInput::Timeout);
    assert_eq!(action, ProbeAction::ChangeRequestPort(changed_addr()));
    let action = p.step(ProbeInput::Datagram(vec![0u8; 32]));
    assert_eq!(action, ProbeAction::Finished(NatType::RestrictedCone));
}

#[test]
fn port_restricted_cone_as_default() {
    let mut p = Probe::new(local());
    p.step(ProbeInput::Datagram(response(mapped(), Some(changed_addr()))));
    p.step(ProbeInput::Timeout);
    p.step(ProbeInput::Timeout);
    let action = p.step(ProbeInput::Timeout);
    assert_eq!(action, ProbeAction::Finished(NatType::PortRestrictedCone));
}

#[test]
fn same_port_on_second_socket_continues() {
    let mut p = Probe::new(local());
    p.step(ProbeInput::Datagram(response(mapped(), Some(changed_addr()))));
    let action = p.step(ProbeInput::Datagram(response(mapped(), None)));
    assert_eq!(action, ProbeAction::ChangeRequestBoth);
}

#[test]
fn no_changed_address_never_cone() {
    // Without a CHANGED-ADDRESS in the Test I response, Tests II and III
    // never run: whatever the second socket's wait brings (other than a
    // symmetric signature), the run falls through to PortRestrictedCone.
    let mut p = Probe::new(local());
    let action = p.step(ProbeInput::Datagram(response(mapped(), None)));
    assert_eq!(action, ProbeAction::SecondSocketProbe);
    let action = p.step(ProbeInput::Timeout);
    assert_eq!(action, ProbeAction::Finished(NatType::PortRestrictedCone));

    let mut q = Probe::new(local());
    q.step(ProbeInput::Datagram(response(mapped(), None)));
    let action = q.step(ProbeInput::Datagram(response(mapped(), None)));
    assert_eq!(action, ProbeAction::Finished(NatType::PortRestrictedCone));
}

#[test]
fn finished_probe_stays_finished() {
    let mut p = Probe::new(local());
    p.step(ProbeInput::Timeout);
    let action = p.step(ProbeInput::Datagram(response(local(), None)));
    assert_eq!(action, ProbeAction::Finished(NatType::Blocked));
    assert_eq!(p.state, ProbeState::Done { nat_type: NatType::Blocked });
}

#[test]
fn ipv6_probe_open_internet() {
    let local_v6 = Endpoint { ip: IpAddress::V6(0x20010DB8000000000000000000000001), port: 4000 };
    let mut p = Probe::new(local_v6);
    let action = p.step(ProbeInput::Datagram(response(local_v6, None)));
    assert_eq!(action, ProbeAction::Finished(NatType::OpenInternet));
}

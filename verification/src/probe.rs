//! The single-stack probe sequencer: a state machine that runs the ordered
//! STUN exchanges against one resolved server address and classifies the
//! NAT. Each wait for a datagram is one input — either the datagram or the
//! timeout — and each step answers with the next exchange to perform or
//! with the finished classification. The caller performs the sends and the
//! waits; the machine makes every decision.

use vstd::prelude::*;
use crate::codec::{spec_parse_response, parse_stun_response};
use crate::endpoint::Endpoint;
use crate::nat_type::NatType;

verus! {

/// What one wait for a datagram produced: a datagram, or nothing within
/// the fixed window.
#[derive(Debug)]
pub enum ProbeInput {
    Timeout,
    Datagram(Vec<u8>),
}

/// What the caller is to do next.
#[derive(Clone, Copy, Debug, PartialEq, Eq, Structural)]
pub enum ProbeAction {
    /// Bind a second local endpoint, send a fresh Binding Request to the
    /// server from it, and wait on it.
    SecondSocketProbe,
    /// Send a Binding Request asking for a changed IP and port to the
    /// server on the first endpoint, and wait on it.
    ChangeRequestBoth,
    /// Send a Binding Request asking for a changed port to the given
    /// (changed) address on the first endpoint, and wait on it.
    ChangeRequestPort(Endpoint),
    /// The run is over; no further exchange is needed.
    Finished(NatType),
}

/// Where the probe stands: which exchange it is waiting on, with what it
/// has learned so far, or the finished classification.
#[derive(Clone, Copy, Debug, PartialEq, Eq, Structural)]
pub enum ProbeState {
    /// Waiting on the plain Binding Request of Test I.
    AwaitTestOne,
    /// Waiting on the second socket's Binding Request, holding Test I's
    /// mapped address and optional changed address.
    AwaitSymmetry { mapped: Endpoint, changed: Option<Endpoint> },
    /// Waiting on the change-IP-and-port request of Test II.
    AwaitTestTwo { changed_addr: Endpoint },
    /// Waiting on the change-port request of Test III.
    AwaitTestThree,
    /// Classification complete.
    Done { nat_type: NatType },
}

/// One probe run: the local endpoint the first socket is bound to, and the
/// state of the exchange sequence.
#[derive(Clone, Copy, Debug, PartialEq, Eq, Structural)]
pub struct Probe {
    pub local: Endpoint,
    pub state: ProbeState,
}

/// A datagram that parses as far as a Binding Success Response header: at
/// least a header long, message type bytes `0x01 0x01`.
pub open spec fn spec_is_binding_success(d: Seq<u8>) -> bool {
    d.len() >= 20 && d[0] == 0x01 && d[1] == 0x01
}

/// A probe whose classification is the given one.
pub open spec fn spec_done(local: Endpoint, nat_type: NatType) -> Probe {
    Probe { local, state: ProbeState::Done { nat_type } }
}

/// The transition of the probe sequencer on one input.
///
/// - Test I: the timeout classifies `Blocked`; a datagram that is not a
///   Binding Success Response or does not decode classifies `Unknown`; a
///   mapped address equal to the local endpoint classifies `OpenInternet`;
///   anything else moves on to the second-socket probe.
/// - Second-socket probe: a decodable response whose mapped port differs
///   from Test I's classifies `Symmetric`; otherwise Test II follows when
///   Test I carried a changed address, else `PortRestrictedCone`.
/// - Test II: any datagram classifies `FullCone`; the timeout moves on to
///   Test III, addressed to the changed address.
/// - Test III: any datagram classifies `RestrictedCone`; the timeout
///   classifies `PortRestrictedCone`.
/// - A finished probe stays finished.
pub open spec fn spec_step(p: Probe, input: ProbeInput) -> (Probe, ProbeAction) {
    match p.state {
        ProbeState::AwaitTestOne => match input {
            ProbeInput::Timeout => (
                spec_done(p.local, NatType::Blocked),
                ProbeAction::Finished(NatType::Blocked),
            ),
            ProbeInput::Datagram(d) => if !spec_is_binding_success(d@) {
                (spec_done(p.local, NatType::Unknown), ProbeAction::Finished(NatType::Unknown))
            } else {
                match spec_parse_response(d@) {
                    Err(_) => (
                        spec_done(p.local, NatType::Unknown),
                        ProbeAction::Finished(NatType::Unknown),
                    ),
                    Ok((mapped, changed)) => if mapped == p.local {
                        (
                            spec_done(p.local, NatType::OpenInternet),
                            ProbeAction::Finished(NatType::OpenInternet),
                        )
                    } else {
                        (
                            Probe { local: p.local, state: ProbeState::AwaitSymmetry { mapped, changed } },
                            ProbeAction::SecondSocketProbe,
                        )
                    },
                }
            },
        },
        ProbeState::AwaitSymmetry { mapped, changed } => {
            let symmetric = match input {
                ProbeInput::Timeout => false,
                ProbeInput::Datagram(d) => match spec_parse_response(d@) {
                    Ok((mapped2, _)) => mapped2.port != mapped.port,
                    Err(_) => false,
                },
            };
            if symmetric {
                (spec_done(p.local, NatType::Symmetric), ProbeAction::Finished(NatType::Symmetric))
            } else {
                match changed {
                    Some(c) => (
                        Probe { local: p.local, state: ProbeState::AwaitTestTwo { changed_addr: c } },
                        ProbeAction::ChangeRequestBoth,
                    ),
                    None => (
                        spec_done(p.local, NatType::PortRestrictedCone),
                        ProbeAction::Finished(NatType::PortRestrictedCone),
                    ),
                }
            }
        },
        ProbeState::AwaitTestTwo { changed_addr } => match input {
            ProbeInput::Datagram(_) => (
                spec_done(p.local, NatType::FullCone),
                ProbeAction::Finished(NatType::FullCone),
            ),
            ProbeInput::Timeout => (
                Probe { local: p.local, state: ProbeState::AwaitTestThree },
                ProbeAction::ChangeRequestPort(changed_addr),
            ),
        },
        ProbeState::AwaitTestThree => match input {
            ProbeInput::Datagram(_) => (
                spec_done(p.local, NatType::RestrictedCone),
                ProbeAction::Finished(NatType::RestrictedCone),
            ),
            ProbeInput::Timeout => (
                spec_done(p.local, NatType::PortRestrictedCone),
                ProbeAction::Finished(NatType::PortRestrictedCone),
            ),
        },
        ProbeState::Done { nat_type } => (p, ProbeAction::Finished(nat_type)),
    }
}

/// The probe after a whole sequence of wait outcomes, each fed to one
/// step.
pub open spec fn spec_run(p: Probe, inputs: Seq<ProbeInput>) -> Probe
    decreases inputs.len(),
{
    if inputs.len() == 0 {
        p
    } else {
        spec_run(spec_step(p, inputs[0]).0, inputs.drop_first())
    }
}

/// A server that never answers classifies `Blocked` at the very first
/// wait, and the machine requests no further exchange: the run's whole
/// duration is the single Test I wait.
pub proof fn lemma_silent_server_is_blocked(local: Endpoint)
    ensures
        spec_step(Probe { local, state: ProbeState::AwaitTestOne }, ProbeInput::Timeout) == (
            spec_done(local, NatType::Blocked),
            ProbeAction::Finished(NatType::Blocked),
        ),
{
}

/// A finished probe stays as it is and asks for nothing more, whatever
/// else arrives.
pub proof fn lemma_finished_requests_nothing(p: Probe, input: ProbeInput, nat_type: NatType)
    requires
        p.state == (ProbeState::Done { nat_type }),
    ensures
        spec_step(p, input) == (p, ProbeAction::Finished(nat_type)),
{
}

/// A Test I datagram that is no usable Binding Success Response — too
/// short, the wrong message type, or without a decodable mapped address —
/// classifies `Unknown`; it is absorbed, never an error.
pub proof fn lemma_malformed_response_is_unknown(local: Endpoint, d: Vec<u8>)
    requires
        !(spec_is_binding_success(d@) && spec_parse_response(d@) is Ok),
    ensures
        spec_step(Probe { local, state: ProbeState::AwaitTestOne }, ProbeInput::Datagram(d)) == (
            spec_done(local, NatType::Unknown),
            ProbeAction::Finished(NatType::Unknown),
        ),
{
}

/// A Test I response whose mapped address and port equal the local bound
/// endpoint exactly classifies `OpenInternet`.
pub proof fn lemma_matching_mapped_address_is_open_internet(local: Endpoint, d: Vec<u8>)
    requires
        spec_is_binding_success(d@),
        spec_parse_response(d@) matches Ok(pair) && pair.0 == local,
    ensures
        spec_step(Probe { local, state: ProbeState::AwaitTestOne }, ProbeInput::Datagram(d)).0
            == spec_done(local, NatType::OpenInternet),
{
}

/// A second-socket response with a different mapped port classifies
/// `Symmetric` at once, whether or not a changed address is known — the
/// exchanges that could classify `FullCone` or `RestrictedCone` never
/// run.
pub proof fn lemma_symmetric_takes_precedence(
    p: Probe,
    mapped: Endpoint,
    changed: Option<Endpoint>,
    d: Vec<u8>,
)
    requires
        p.state == (ProbeState::AwaitSymmetry { mapped, changed }),
        spec_parse_response(d@) matches Ok(pair) && pair.0.port != mapped.port,
    ensures
        spec_step(p, ProbeInput::Datagram(d)) == (
            spec_done(p.local, NatType::Symmetric),
            ProbeAction::Finished(NatType::Symmetric),
        ),
{
}

/// A probe that learned no changed address from Test I: it is past Test I
/// without one, or already finished with a classification that does not
/// need one.
pub open spec fn spec_no_changed_address(p: Probe) -> bool {
    match p.state {
        ProbeState::AwaitSymmetry { changed, .. } => changed is None,
        ProbeState::Done { nat_type } => nat_type != NatType::FullCone && nat_type
            != NatType::RestrictedCone,
        _ => false,
    }
}

/// One step preserves the no-changed-address character of a run.
pub proof fn lemma_no_changed_address_step(p: Probe, input: ProbeInput)
    requires
        spec_no_changed_address(p),
    ensures
        spec_no_changed_address(spec_step(p, input).0),
{
}

/// Any number of steps preserves the no-changed-address character of a
/// run.
pub proof fn lemma_no_changed_address_run(p: Probe, inputs: Seq<ProbeInput>)
    requires
        spec_no_changed_address(p),
    ensures
        spec_no_changed_address(spec_run(p, inputs)),
    decreases inputs.len(),
{
    if inputs.len() > 0 {
        lemma_no_changed_address_step(p, inputs[0]);
        lemma_no_changed_address_run(spec_step(p, inputs[0]).0, inputs.drop_first());
    }
}

/// When the Test I response carries no CHANGED-ADDRESS, no continuation of
/// the run can classify `FullCone` or `RestrictedCone`: absent a symmetric
/// signature the run falls through to `PortRestrictedCone`.
pub proof fn lemma_without_changed_address_no_cone(
    local: Endpoint,
    d: Vec<u8>,
    rest: Seq<ProbeInput>,
    nat_type: NatType,
)
    requires
        spec_parse_response(d@) matches Ok(pair) && pair.1 is None,
        spec_run(
            spec_step(Probe { local, state: ProbeState::AwaitTestOne }, ProbeInput::Datagram(d)).0,
            rest,
        ).state == (ProbeState::Done { nat_type }),
    ensures
        nat_type != NatType::FullCone,
        nat_type != NatType::RestrictedCone,
{
    let p1 = spec_step(
        Probe { local, state: ProbeState::AwaitTestOne },
        ProbeInput::Datagram(d),
    ).0;
    assert(spec_no_changed_address(p1));
    lemma_no_changed_address_run(p1, rest);
}

/// How many more waits a run can need before it is finished: one per
/// exchange still ahead of it.
pub open spec fn spec_waits_remaining(p: Probe) -> nat {
    match p.state {
        ProbeState::AwaitTestOne => 4,
        ProbeState::AwaitSymmetry { .. } => 3,
        ProbeState::AwaitTestTwo { .. } => 2,
        ProbeState::AwaitTestThree => 1,
        ProbeState::Done { .. } => 0,
    }
}

/// Every step of an unfinished run brings it strictly closer to being
/// finished.
pub proof fn lemma_step_progress(p: Probe, input: ProbeInput)
    requires
        !(p.state is Done),
    ensures
        spec_waits_remaining(spec_step(p, input).0) < spec_waits_remaining(p),
{
}

/// A run is finished after at most as many waits as it has exchanges
/// ahead — four from the start. With one fixed window per wait, the total
/// duration of a run is bounded.
pub proof fn lemma_run_completes(p: Probe, inputs: Seq<ProbeInput>)
    requires
        inputs.len() >= spec_waits_remaining(p),
    ensures
        spec_run(p, inputs).state is Done,
    decreases inputs.len(),
{
    if inputs.len() > 0 {
        if !(p.state is Done) {
            lemma_step_progress(p, inputs[0]);
        }
        lemma_run_completes(spec_step(p, inputs[0]).0, inputs.drop_first());
    }
}

impl Probe {
    /// Starts a probe run for a socket bound to the given local endpoint.
    /// The caller's first move is Test I: send a plain Binding Request to
    /// the server and wait.
    pub fn new(local: Endpoint) -> (p: Probe)
        ensures
            p == (Probe { local, state: ProbeState::AwaitTestOne }),
    {
        Probe { local, state: ProbeState::AwaitTestOne }
    }

    /// Feeds the outcome of the pending wait to the machine and returns
    /// what to do next.
    pub fn step(&mut self, input: ProbeInput) -> (action: ProbeAction)
        ensures
            *final(self) == spec_step(*old(self), input).0,
            action == spec_step(*old(self), input).1,
    {
        match self.state {
            ProbeState::AwaitTestOne => match input {
                ProbeInput::Timeout => {
                    self.state = ProbeState::Done { nat_type: NatType::Blocked };
                    ProbeAction::Finished(NatType::Blocked)
                },
                ProbeInput::Datagram(d) => {
                    if !(d.len() >= 20 && d[0] == 0x01 && d[1] == 0x01) {
                        self.state = ProbeState::Done { nat_type: NatType::Unknown };
                        return ProbeAction::Finished(NatType::Unknown);
                    }
                    match parse_stun_response(&d) {
                        Err(_) => {
                            self.state = ProbeState::Done { nat_type: NatType::Unknown };
                            ProbeAction::Finished(NatType::Unknown)
                        },
                        Ok((mapped, changed)) => {
                            if mapped == self.local {
                                self.state = ProbeState::Done { nat_type: NatType::OpenInternet };
                                ProbeAction::Finished(NatType::OpenInternet)
                            } else {
                                self.state = ProbeState::AwaitSymmetry { mapped, changed };
                                ProbeAction::SecondSocketProbe
                            }
                        },
                    }
                },
            },
            ProbeState::AwaitSymmetry { mapped, changed } => {
                let symmetric = match input {
                    ProbeInput::Timeout => false,
                    ProbeInput::Datagram(d) => match parse_stun_response(&d) {
                        Ok((mapped2, _)) => mapped2.port != mapped.port,
                        Err(_) => false,
                    },
                };
                if symmetric {
                    self.state = ProbeState::Done { nat_type: NatType::Symmetric };
                    ProbeAction::Finished(NatType::Symmetric)
                } else {
                    match changed {
                        Some(c) => {
                            self.state = ProbeState::AwaitTestTwo { changed_addr: c };
                            ProbeAction::ChangeRequestBoth
                        },
                        None => {
                            self.state = ProbeState::Done { nat_type: NatType::PortRestrictedCone };
                            ProbeAction::Finished(NatType::PortRestrictedCone)
                        },
                    }
                }
            },
            ProbeState::AwaitTestTwo { changed_addr } => match input {
                ProbeInput::Datagram(_) => {
                    self.state = ProbeState::Done { nat_type: NatType::FullCone };
                    ProbeAction::Finished(NatType::FullCone)
                },
                ProbeInput::Timeout => {
                    self.state = ProbeState::AwaitTestThree;
                    ProbeAction::ChangeRequestPort(changed_addr)
                },
            },
            ProbeState::AwaitTestThree => match input {
                ProbeInput::Datagram(_) => {
                    self.state = ProbeState::Done { nat_type: NatType::RestrictedCone };
                    ProbeAction::Finished(NatType::RestrictedCone)
                },
                ProbeInput::Timeout => {
                    self.state = ProbeState::Done { nat_type: NatType::PortRestrictedCone };
                    ProbeAction::Finished(NatType::PortRestrictedCone)
                },
            },
            ProbeState::Done { nat_type } => ProbeAction::Finished(nat_type),
        }
    }
}

} // verus!

//! The signaling session: one relay connection's state machine.
//!
//! The machine is the decision half of the session loop. The caller owns
//! the transport and the opaque peer session: it feeds the machine each
//! relay message and the outcome of each step the machine asked for, and
//! performs the returned steps — receive, close, create, apply descriptions,
//! send the answer, add a candidate. All ordering decisions live here and
//! are verified: in particular, a new peer session is only ever created
//! after the close of the previous one has been observed, so at most one
//! peer session is ever live per relay connection.

use vstd::prelude::*;
use webrtc::peer_connection::{RTCIceCandidateInit, RTCSessionDescription};

verus! {

/// What one relay message carries, as the machine reads it: whether the
/// text parsed at all, an offer description if one was attached and well
/// formed, and a candidate likewise. An attached value that does not parse
/// as what its key promises counts as absent, not as an error.
pub struct Classified {
    /// The message parsed as a relay document at all.
    pub well_formed: bool,
    /// The offer attached to the message, re-serialized, if well formed.
    pub offer: Option<String>,
    /// The candidate attached to the message, re-serialized, if well formed.
    pub ice: Option<String>,
}

/// What `classify_message` returns for given message bytes. Classification
/// is a pure function of the bytes: the same message always classifies the
/// same way.
pub uninterp spec fn classify_relay(m: Seq<u8>) -> Classified;

/// Relies on `serde_json::from_slice` to parse the message, `Value::get`
/// to look up the `offer` and `ice` keys, serde deserialization of
/// `webrtc::peer_connection::RTCSessionDescription` and
/// `webrtc::peer_connection::RTCIceCandidateInit` to check each attached
/// value's shape, and `serde_json::to_string` to carry the value on; all
/// of these are deterministic in the bytes alone.
#[verifier::external_body]
fn classify_message(m: &Vec<u8>) -> (r: Classified)
    ensures
        r == classify_relay(m@),
{
    let v: serde_json::Value = match serde_json::from_slice(m.as_slice()) {
        Ok(v) => v,
        Err(_) => return Classified { well_formed: false, offer: None, ice: None },
    };
    let offer = match v.get("offer") {
        Some(o) if serde_json::from_value::<RTCSessionDescription>(o.clone()).is_ok() => serde_json::to_string(o).ok(),
        _ => None,
    };
    let ice = match v.get("ice") {
        Some(c) if serde_json::from_value::<RTCIceCandidateInit>(c.clone()).is_ok() => serde_json::to_string(c).ok(),
        _ => None,
    };
    Classified { well_formed: true, offer, ice }
}

/// Where the machine stands between two inputs.
#[derive(Clone, Copy, PartialEq, Eq, Structural, Debug)]
pub enum Phase {
    /// Waiting for the next relay message.
    Receiving,
    /// An offer arrived while a peer session was live: its close was
    /// requested and must complete before anything else.
    ClosingOld,
    /// Creating the replacement peer session.
    CreatingPeer,
    /// Applying the received offer as the remote description.
    SettingRemote,
    /// Creating the local answer.
    CreatingAnswer,
    /// Applying the answer as the local description.
    SettingLocal,
    /// Sending the serialized answer on the relay stream.
    SendingAnswer,
    /// Feeding a received candidate to the live peer session.
    AddingIce,
    /// The connection is ending; the live peer session's close was
    /// requested.
    ClosingFinal,
    /// Terminal: the connection is done.
    Stopped,
}

/// The next thing the caller must do for the machine.
#[derive(Debug)]
pub enum Step {
    /// Await the next relay message and feed it to `handle_message`.
    Recv,
    /// Close the current peer session; report the outcome.
    ClosePeer,
    /// Create a new peer session from the machine's server list, wiring
    /// its candidate and data-channel callbacks; report the outcome.
    CreatePeer,
    /// Apply this offer to the new peer session as the remote description.
    SetRemote(String),
    /// Create the local answer on the new peer session.
    CreateAnswer,
    /// Apply the created answer as the local description.
    SetLocal,
    /// Serialize the local description and send it as an answer message.
    SendAnswer,
    /// Feed this candidate to the current peer session.
    AddIce(String),
    /// Close the current peer session, best effort, and then stop.
    ClosePeerFinal,
    /// Tear the connection down; the machine is done.
    Stop,
}

/// How a requested step went.
#[derive(Clone, Copy, PartialEq, Eq, Structural, Debug)]
pub enum Outcome {
    /// The step completed.
    Done,
    /// The step failed.
    Failed,
}

/// One relay connection's signaling state machine.
pub struct SignalMachine {
    /// Where the machine stands.
    pub phase: Phase,
    /// A peer session is live and current.
    pub has_peer: bool,
    /// A replacement peer session exists but is not yet current.
    pub building: bool,
    /// The offer being applied by the running renegotiation.
    pub pending_offer: Option<String>,
    /// A candidate that arrived in the same message as the offer, to be
    /// added once the renegotiation completes.
    pub pending_ice: Option<String>,
    /// The relay-assist server list this connection was created with: a
    /// snapshot taken at creation, unaffected by later configuration
    /// changes.
    pub servers: Vec<String>,
}

/// The transition for one incoming relay message, from the receiving
/// phase: the machine after it, and the step the caller must take.
pub open spec fn spec_on_message(m: SignalMachine, c: Classified) -> (SignalMachine, Step) {
    if !c.well_formed {
        if m.has_peer {
            (SignalMachine { phase: Phase::ClosingFinal, ..m }, Step::ClosePeerFinal)
        } else {
            (SignalMachine { phase: Phase::Stopped, ..m }, Step::Stop)
        }
    } else {
        match c.offer {
            Some(o) => {
                if m.has_peer {
                    (
                        SignalMachine {
                            phase: Phase::ClosingOld,
                            pending_offer: Some(o),
                            pending_ice: c.ice,
                            ..m
                        },
                        Step::ClosePeer,
                    )
                } else {
                    (
                        SignalMachine {
                            phase: Phase::CreatingPeer,
                            pending_offer: Some(o),
                            pending_ice: c.ice,
                            ..m
                        },
                        Step::CreatePeer,
                    )
                }
            },
            None => match c.ice {
                Some(i) => {
                    if m.has_peer {
                        (SignalMachine { phase: Phase::AddingIce, ..m }, Step::AddIce(i))
                    } else {
                        (m, Step::Recv)
                    }
                },
                None => (m, Step::Recv),
            },
        }
    }
}

/// The transition for the outcome of a step, from any phase that awaits
/// one.
pub open spec fn spec_on_outcome(m: SignalMachine, oc: Outcome) -> (SignalMachine, Step) {
    match m.phase {
        Phase::ClosingOld => match oc {
            Outcome::Done => (
                SignalMachine { phase: Phase::CreatingPeer, has_peer: false, ..m },
                Step::CreatePeer,
            ),
            Outcome::Failed => (
                SignalMachine { phase: Phase::Stopped, has_peer: false, ..m },
                Step::Stop,
            ),
        },
        Phase::CreatingPeer => match oc {
            Outcome::Done => match m.pending_offer {
                Some(o) => (
                    SignalMachine {
                        phase: Phase::SettingRemote,
                        building: true,
                        pending_offer: None,
                        ..m
                    },
                    Step::SetRemote(o),
                ),
                None => (SignalMachine { phase: Phase::Stopped, ..m }, Step::Stop),
            },
            Outcome::Failed => (SignalMachine { phase: Phase::Stopped, ..m }, Step::Stop),
        },
        Phase::SettingRemote => match oc {
            Outcome::Done => (SignalMachine { phase: Phase::CreatingAnswer, ..m }, Step::CreateAnswer),
            Outcome::Failed => (
                SignalMachine { phase: Phase::Stopped, building: false, ..m },
                Step::Stop,
            ),
        },
        Phase::CreatingAnswer => match oc {
            Outcome::Done => (SignalMachine { phase: Phase::SettingLocal, ..m }, Step::SetLocal),
            Outcome::Failed => (
                SignalMachine { phase: Phase::Stopped, building: false, ..m },
                Step::Stop,
            ),
        },
        Phase::SettingLocal => match oc {
            Outcome::Done => (SignalMachine { phase: Phase::SendingAnswer, ..m }, Step::SendAnswer),
            Outcome::Failed => (
                SignalMachine { phase: Phase::Stopped, building: false, ..m },
                Step::Stop,
            ),
        },
        Phase::SendingAnswer => match oc {
            Outcome::Done => match m.pending_ice {
                Some(i) => (
                    SignalMachine {
                        phase: Phase::AddingIce,
                        has_peer: true,
                        building: false,
                        pending_ice: None,
                        ..m
                    },
                    Step::AddIce(i),
                ),
                None => (
                    SignalMachine {
                        phase: Phase::Receiving,
                        has_peer: true,
                        building: false,
                        ..m
                    },
                    Step::Recv,
                ),
            },
            Outcome::Failed => (
                SignalMachine { phase: Phase::Stopped, building: false, ..m },
                Step::Stop,
            ),
        },
        Phase::AddingIce => match oc {
            Outcome::Done => (SignalMachine { phase: Phase::Receiving, ..m }, Step::Recv),
            Outcome::Failed => (
                SignalMachine { phase: Phase::ClosingFinal, ..m },
                Step::ClosePeerFinal,
            ),
        },
        Phase::ClosingFinal => (
            SignalMachine { phase: Phase::Stopped, has_peer: false, ..m },
            Step::Stop,
        ),
        _ => (m, Step::Stop),
    }
}

/// The transition for the relay stream ending, from the receiving phase.
pub open spec fn spec_on_stream_end(m: SignalMachine) -> (SignalMachine, Step) {
    if m.has_peer {
        (SignalMachine { phase: Phase::ClosingFinal, ..m }, Step::ClosePeerFinal)
    } else {
        (SignalMachine { phase: Phase::Stopped, ..m }, Step::Stop)
    }
}

/// Well-formedness the machine keeps between inputs: at most one peer
/// session is ever live — current or under construction — and every
/// renegotiation phase holds what it needs.
pub open spec fn machine_inv(m: SignalMachine) -> bool {
    &&& !(m.has_peer && m.building)
    &&& (m.phase == Phase::Receiving ==> !m.building)
    &&& (m.phase == Phase::ClosingOld ==> m.has_peer && !m.building && m.pending_offer is Some)
    &&& (m.phase == Phase::CreatingPeer ==> !m.has_peer && !m.building && m.pending_offer is Some)
    &&& ((m.phase == Phase::SettingRemote || m.phase == Phase::CreatingAnswer || m.phase
        == Phase::SettingLocal || m.phase == Phase::SendingAnswer) ==> !m.has_peer && m.building)
    &&& (m.phase == Phase::AddingIce ==> m.has_peer && !m.building)
    &&& (m.phase == Phase::ClosingFinal ==> m.has_peer && !m.building)
}

/// How many peer sessions exist for the connection: the current one and
/// the one under construction.
pub open spec fn live_sessions(m: SignalMachine) -> nat {
    (if m.has_peer {
        1nat
    } else {
        0nat
    }) + (if m.building {
        1nat
    } else {
        0nat
    })
}

/// A fresh machine satisfies the invariant.
pub proof fn lemma_new_machine_inv(m: SignalMachine)
    requires
        m.phase == Phase::Receiving,
        !m.has_peer,
        !m.building,
    ensures
        machine_inv(m),
{
}

/// Every message transition preserves the invariant.
pub proof fn lemma_message_preserves_inv(m: SignalMachine, c: Classified)
    requires
        machine_inv(m),
        m.phase == Phase::Receiving,
    ensures
        machine_inv(spec_on_message(m, c).0),
{
}

/// Every outcome transition preserves the invariant, and so does the
/// stream's end.
pub proof fn lemma_outcome_preserves_inv(m: SignalMachine, oc: Outcome)
    requires
        machine_inv(m),
        m.phase != Phase::Receiving,
        m.phase != Phase::Stopped,
    ensures
        machine_inv(spec_on_outcome(m, oc).0),
        machine_inv(spec_on_stream_end(m).0),
{
}

/// Offer replacement discipline: under the invariant there is never more
/// than one live peer session; an offer that arrives while one is live
/// first requests its close and waits; and the machine only ever asks for
/// a new peer session when none is live — on a message, only with no
/// current session; on an outcome, only right after the old session's
/// close was observed to complete.
pub proof fn lemma_offer_replaces_session(m: SignalMachine, c: Classified, oc: Outcome)
    requires
        machine_inv(m),
    ensures
        live_sessions(m) <= 1,
        m.phase == Phase::Receiving && spec_on_message(m, c).1 is ClosePeer ==> m.has_peer
            && spec_on_message(m, c).0.phase == Phase::ClosingOld,
        m.phase == Phase::Receiving && spec_on_message(m, c).1 is CreatePeer ==> !m.has_peer
            && !m.building,
        m.phase != Phase::Receiving && m.phase != Phase::Stopped && spec_on_outcome(m, oc).1
            is CreatePeer ==> m.phase == Phase::ClosingOld && oc == Outcome::Done && live_sessions(
            spec_on_outcome(m, oc).0,
        ) == 0,
{
}

impl SignalMachine {
    /// A machine for a fresh relay connection, with the server-list
    /// snapshot it will build every peer session from.
    pub fn new(servers: Vec<String>) -> (r: SignalMachine)
        ensures
            r.phase == Phase::Receiving,
            !r.has_peer,
            !r.building,
            r.pending_offer is None,
            r.pending_ice is None,
            r.servers == servers,
    {
        SignalMachine {
            phase: Phase::Receiving,
            has_peer: false,
            building: false,
            pending_offer: None,
            pending_ice: None,
            servers,
        }
    }

    /// Feeds one received relay message to the machine: classifies it and
    /// takes the `on_message` transition on the classification.
    pub fn handle_message(&mut self, msg: &Vec<u8>) -> (r: Step)
        requires
            old(self).phase == Phase::Receiving,
        ensures
            (*final(self), r) == spec_on_message(*old(self), classify_relay(msg@)),
    {
        let c = classify_message(msg);
        self.on_message(c)
    }

    /// Takes the transition for one classified relay message. A message
    /// that is not a relay document at all ends the connection; one
    /// carrying a well-formed offer starts the renegotiation; a candidate
    /// with no live peer session is ignored and the loop goes on; anything
    /// else is ignored.
    pub fn on_message(&mut self, c: Classified) -> (r: Step)
        requires
            old(self).phase == Phase::Receiving,
        ensures
            (*final(self), r) == spec_on_message(*old(self), c),
    {
        if !c.well_formed {
            if self.has_peer {
                self.phase = Phase::ClosingFinal;
                Step::ClosePeerFinal
            } else {
                self.phase = Phase::Stopped;
                Step::Stop
            }
        } else {
            match c.offer {
                Some(o) => {
                    self.pending_offer = Some(o);
                    self.pending_ice = c.ice;
                    if self.has_peer {
                        self.phase = Phase::ClosingOld;
                        Step::ClosePeer
                    } else {
                        self.phase = Phase::CreatingPeer;
                        Step::CreatePeer
                    }
                },
                None => match c.ice {
                    Some(i) => {
                        if self.has_peer {
                            self.phase = Phase::AddingIce;
                            Step::AddIce(i)
                        } else {
                            Step::Recv
                        }
                    },
                    None => Step::Recv,
                },
            }
        }
    }

    /// Feeds the machine the outcome of the step it last asked for.
    /// Failures follow the connection's error discipline: a failed close
    /// of the old session, a failed creation, or a failed negotiation step
    /// aborts the connection; a failed candidate add closes the live
    /// session first; teardown failures only stop.
    pub fn on_outcome(&mut self, oc: Outcome) -> (r: Step)
        requires
            old(self).phase != Phase::Receiving,
            old(self).phase != Phase::Stopped,
        ensures
            (*final(self), r) == spec_on_outcome(*old(self), oc),
    {
        match self.phase {
            Phase::ClosingOld => match oc {
                Outcome::Done => {
                    self.has_peer = false;
                    self.phase = Phase::CreatingPeer;
                    Step::CreatePeer
                },
                Outcome::Failed => {
                    self.has_peer = false;
                    self.phase = Phase::Stopped;
                    Step::Stop
                },
            },
            Phase::CreatingPeer => match oc {
                Outcome::Done => {
                    let mut po: Option<String> = None;
                    core::mem::swap(&mut po, &mut self.pending_offer);
                    match po {
                        Some(o) => {
                            self.phase = Phase::SettingRemote;
                            self.building = true;
                            Step::SetRemote(o)
                        },
                        None => {
                            self.phase = Phase::Stopped;
                            Step::Stop
                        },
                    }
                },
                Outcome::Failed => {
                    self.phase = Phase::Stopped;
                    Step::Stop
                },
            },
            Phase::SettingRemote => match oc {
                Outcome::Done => {
                    self.phase = Phase::CreatingAnswer;
                    Step::CreateAnswer
                },
                Outcome::Failed => {
                    self.building = false;
                    self.phase = Phase::Stopped;
                    Step::Stop
                },
            },
            Phase::CreatingAnswer => match oc {
                Outcome::Done => {
                    self.phase = Phase::SettingLocal;
                    Step::SetLocal
                },
                Outcome::Failed => {
                    self.building = false;
                    self.phase = Phase::Stopped;
                    Step::Stop
                },
            },
            Phase::SettingLocal => match oc {
                Outcome::Done => {
                    self.phase = Phase::SendingAnswer;
                    Step::SendAnswer
                },
                Outcome::Failed => {
                    self.building = false;
                    self.phase = Phase::Stopped;
                    Step::Stop
                },
            },
            Phase::SendingAnswer => match oc {
                Outcome::Done => {
                    self.has_peer = true;
                    self.building = false;
                    let mut pi: Option<String> = None;
                    core::mem::swap(&mut pi, &mut self.pending_ice);
                    match pi {
                        Some(i) => {
                            self.phase = Phase::AddingIce;
                            Step::AddIce(i)
                        },
                        None => {
                            self.phase = Phase::Receiving;
                            Step::Recv
                        },
                    }
                },
                Outcome::Failed => {
                    self.building = false;
                    self.phase = Phase::Stopped;
                    Step::Stop
                },
            },
            Phase::AddingIce => match oc {
                Outcome::Done => {
                    self.phase = Phase::Receiving;
                    Step::Recv
                },
                Outcome::Failed => {
                    self.phase = Phase::ClosingFinal;
                    Step::ClosePeerFinal
                },
            },
            _ => {
                self.has_peer = false;
                self.phase = Phase::Stopped;
                Step::Stop
            },
        }
    }

    /// Tells the machine the relay stream ended: the loop is over, and a
    /// live peer session, if any, is closed best-effort.
    pub fn on_stream_end(&mut self) -> (r: Step)
        requires
            old(self).phase == Phase::Receiving,
        ensures
            (*final(self), r) == spec_on_stream_end(*old(self)),
    {
        if self.has_peer {
            self.phase = Phase::ClosingFinal;
            Step::ClosePeerFinal
        } else {
            self.phase = Phase::Stopped;
            Step::Stop
        }
    }
}

} // verus!

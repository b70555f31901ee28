use webmote::signal::{Classified, Outcome, Phase, SignalMachine, Step};

fn offer_msg() -> Vec<u8> {
    br#"{"offer":{"type":"offer","sdp":"v=0"}}"#.to_vec()
}

fn ice_msg() -> Vec<u8> {
    br#"{"ice":{"candidate":"candidate:1 1 udp 1 127.0.0.1 40000 typ host"}}"#.to_vec()
}

fn machine() -> SignalMachine {
    SignalMachine::new(vec!["stun:stun.example.org:3478".to_string()])
}

/// Drives one successful renegotiation from the point where the machine
/// asked for the peer session to be created.
fn complete_negotiation(m: &mut SignalMachine) {
    assert!(matches!(m.on_outcome(Outcome::Done), Step::SetRemote(_)));
    assert!(matches!(m.on_outcome(Outcome::Done), Step::CreateAnswer));
    assert!(matches!(m.on_outcome(Outcome::Done), Step::SetLocal));
    assert!(matches!(m.on_outcome(Outcome::Done), Step::SendAnswer));
}

#[test]
fn first_offer_creates_a_peer_session() {
    let mut m = machine();
    let s = m.handle_message(&offer_msg());
    assert!(matches!(s, Step::CreatePeer));
    assert_eq!(m.phase, Phase::CreatingPeer);
    complete_negotiation(&mut m);
    assert!(matches!(m.on_outcome(Outcome::Done), Step::Recv));
    assert!(m.has_peer);
    assert_eq!(m.phase, Phase::Receiving);
}

#[test]
fn second_offer_closes_the_old_session_first() {
    let mut m = machine();
    m.handle_message(&offer_msg());
    complete_negotiation(&mut m);
    m.on_outcome(Outcome::Done);
    // the replacement: the close must be requested, and only its observed
    // completion lets the new session be created
    let s = m.handle_message(&offer_msg());
    assert!(matches!(s, Step::ClosePeer));
    assert_eq!(m.phase, Phase::ClosingOld);
    assert!(m.has_peer);
    let s = m.on_outcome(Outcome::Done);
    assert!(matches!(s, Step::CreatePeer));
    assert!(!m.has_peer);
}

#[test]
fn the_set_remote_step_carries_the_offer() {
    let mut m = machine();
    m.handle_message(&offer_msg());
    match m.on_outcome(Outcome::Done) {
        Step::SetRemote(o) => {
            let v: serde_json::Value = serde_json::from_str(&o).unwrap();
            assert_eq!(v.get("sdp").and_then(|s| s.as_str()), Some("v=0"));
        }
        other => panic!("expected the offer, got {:?}", other),
    }
}

#[test]
fn ice_before_any_offer_is_ignored() {
    let mut m = machine();
    let s = m.handle_message(&ice_msg());
    assert!(matches!(s, Step::Recv));
    assert_eq!(m.phase, Phase::Receiving);
    assert!(!m.has_peer);
}

#[test]
fn ice_with_a_live_session_is_fed_to_it() {
    let mut m = machine();
    m.handle_message(&offer_msg());
    complete_negotiation(&mut m);
    m.on_outcome(Outcome::Done);
    let s = m.handle_message(&ice_msg());
    match s {
        Step::AddIce(c) => {
            let v: serde_json::Value = serde_json::from_str(&c).unwrap();
            assert!(v.get("candidate").is_some());
        }
        other => panic!("expected a candidate, got {:?}", other),
    }
    assert!(matches!(m.on_outcome(Outcome::Done), Step::Recv));
}

#[test]
fn an_ice_add_failure_closes_the_connection() {
    let mut m = machine();
    m.handle_message(&offer_msg());
    complete_negotiation(&mut m);
    m.on_outcome(Outcome::Done);
    m.handle_message(&ice_msg());
    let s = m.on_outcome(Outcome::Failed);
    assert!(matches!(s, Step::ClosePeerFinal));
    assert!(matches!(m.on_outcome(Outcome::Done), Step::Stop));
    assert_eq!(m.phase, Phase::Stopped);
    assert!(!m.has_peer);
}

#[test]
fn an_offer_and_candidate_in_one_message_apply_in_order() {
    let mut m = machine();
    let both =
        br#"{"offer":{"type":"offer","sdp":"v=0"},"ice":{"candidate":"candidate:1"}}"#.to_vec();
    assert!(matches!(m.handle_message(&both), Step::CreatePeer));
    complete_negotiation(&mut m);
    // after the answer is sent, the candidate from the same message
    assert!(matches!(m.on_outcome(Outcome::Done), Step::AddIce(_)));
    assert!(m.has_peer);
}

#[test]
fn unknown_message_shapes_are_ignored() {
    let mut m = machine();
    let s = m.handle_message(&br#"{"hello":1}"#.to_vec());
    assert!(matches!(s, Step::Recv));
    assert_eq!(m.phase, Phase::Receiving);
}

#[test]
fn an_offer_of_the_wrong_shape_is_ignored() {
    let mut m = machine();
    let s = m.handle_message(&br#"{"offer":42}"#.to_vec());
    assert!(matches!(s, Step::Recv));
    assert_eq!(m.phase, Phase::Receiving);
}

#[test]
fn unparsable_text_ends_the_connection() {
    let mut m = machine();
    let s = m.handle_message(&b"not json at all".to_vec());
    assert!(matches!(s, Step::Stop));
    assert_eq!(m.phase, Phase::Stopped);
}

#[test]
fn unparsable_text_with_a_live_session_closes_it_first() {
    let mut m = machine();
    m.handle_message(&offer_msg());
    complete_negotiation(&mut m);
    m.on_outcome(Outcome::Done);
    let s = m.handle_message(&b"garbage".to_vec());
    assert!(matches!(s, Step::ClosePeerFinal));
    assert!(matches!(m.on_outcome(Outcome::Failed), Step::Stop));
}

#[test]
fn stream_end_closes_a_live_session() {
    let mut m = machine();
    m.handle_message(&offer_msg());
    complete_negotiation(&mut m);
    m.on_outcome(Outcome::Done);
    let s = m.on_stream_end();
    assert!(matches!(s, Step::ClosePeerFinal));
}

#[test]
fn a_classification_drives_the_machine_directly() {
    let mut m = machine();
    let c = Classified { well_formed: true, offer: Some("{}".to_string()), ice: None };
    assert!(matches!(m.on_message(c), Step::CreatePeer));
    assert_eq!(m.phase, Phase::CreatingPeer);
}

#[test]
fn a_failed_negotiation_step_aborts_the_connection() {
    let mut m = machine();
    m.handle_message(&offer_msg());
    assert!(matches!(m.on_outcome(Outcome::Done), Step::SetRemote(_)));
    let s = m.on_outcome(Outcome::Failed);
    assert!(matches!(s, Step::Stop));
    assert_eq!(m.phase, Phase::Stopped);
    assert!(!m.has_peer);
    assert!(!m.building);
}

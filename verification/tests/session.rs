use veritynet::p2p::session::{
    failure_text, EngineError, PeerSession, Phase, SdpKind, SessionAction, SessionEvent,
    TransportState,
};
use veritynet::p2p::signaling_types::{IceCandidateData, SdpData, SignalingMessage};

fn cand(name: &str) -> IceCandidateData {
    IceCandidateData { candidate: name.to_string(), sdp_mid: Some("0".to_string()), sdp_mline_index: Some(0) }
}

fn offer(sdp: &str) -> SessionEvent {
    SessionEvent::Message(SignalingMessage::Offer(SdpData { sdp: sdp.to_string() }))
}

fn answer(sdp: &str) -> SessionEvent {
    SessionEvent::Message(SignalingMessage::Answer(SdpData { sdp: sdp.to_string() }))
}

fn ice(name: &str) -> SessionEvent {
    SessionEvent::Message(SignalingMessage::IceCandidate(cand(name)))
}

fn session() -> PeerSession {
    PeerSession::new("bob".to_string())
}

fn in_phase(phase: Phase) -> PeerSession {
    let mut s = session();
    match phase {
        Phase::Idle => {}
        Phase::Offered => {
            s.handle(SessionEvent::Initiate);
        }
        Phase::AnswerPending => {
            s.handle(offer("o"));
        }
        Phase::Negotiating => {
            s.handle(offer("o"));
            s.handle(SessionEvent::LocalDescription("a".to_string()));
        }
        Phase::Connected => {
            s.handle(offer("o"));
            s.handle(SessionEvent::LocalDescription("a".to_string()));
            s.handle(SessionEvent::Transport(TransportState::Connected));
        }
        Phase::Closed => {
            s.handle(SessionEvent::Teardown);
        }
        Phase::Errored => {
            s.handle(SessionEvent::EngineFailed(EngineError::InvalidDescription));
        }
    }
    assert_eq!(s.phase(), phase);
    s
}

const ALL: [Phase; 7] = [
    Phase::Idle,
    Phase::Offered,
    Phase::AnswerPending,
    Phase::Negotiating,
    Phase::Connected,
    Phase::Closed,
    Phase::Errored,
];

fn has_transport(phase: Phase) -> bool {
    matches!(phase, Phase::Offered | Phase::AnswerPending | Phase::Negotiating | Phase::Connected)
}

#[test]
fn a_new_session_is_idle() {
    let s = session();
    assert_eq!(s.peer_id(), "bob");
    assert_eq!(s.phase(), Phase::Idle);
    assert!(s.pending().is_empty());
    assert!(!s.is_terminal());
}

#[test]
fn candidates_wait_for_the_offer() {
    let mut s = session();
    assert_eq!(s.handle(ice("c1")), vec![]);
    assert_eq!(s.handle(ice("c2")), vec![]);
    assert_eq!(s.phase(), Phase::Idle);
    assert_eq!(s.pending(), &vec![cand("c1"), cand("c2")]);
    assert_eq!(
        s.handle(offer("v=0")),
        vec![
            SessionAction::CreateTransport,
            SessionAction::SetRemoteDescription(SdpKind::Offer, "v=0".to_string()),
            SessionAction::AddRemoteCandidate(cand("c1")),
            SessionAction::AddRemoteCandidate(cand("c2")),
            SessionAction::CreateLocalDescription(SdpKind::Answer),
        ]
    );
    assert_eq!(s.phase(), Phase::AnswerPending);
    assert!(s.pending().is_empty());
    assert_eq!(s.handle(ice("c3")), vec![SessionAction::AddRemoteCandidate(cand("c3"))]);
    assert!(s.pending().is_empty());
    assert_eq!(
        s.handle(SessionEvent::LocalDescription("answer".to_string())),
        vec![SessionAction::Send(SignalingMessage::Answer(SdpData { sdp: "answer".to_string() }))]
    );
    assert_eq!(s.phase(), Phase::Negotiating);
    assert_eq!(s.handle(ice("c4")), vec![SessionAction::AddRemoteCandidate(cand("c4"))]);
}

#[test]
fn candidates_wait_for_the_answer() {
    let mut s = session();
    assert_eq!(s.handle(ice("c1")), vec![]);
    assert_eq!(
        s.handle(SessionEvent::Initiate),
        vec![SessionAction::CreateTransport, SessionAction::CreateLocalDescription(SdpKind::Offer)]
    );
    assert_eq!(s.handle(ice("c2")), vec![]);
    assert_eq!(
        s.handle(SessionEvent::LocalDescription("offer".to_string())),
        vec![SessionAction::Send(SignalingMessage::Offer(SdpData { sdp: "offer".to_string() }))]
    );
    assert_eq!(s.handle(ice("c3")), vec![]);
    assert_eq!(s.pending(), &vec![cand("c1"), cand("c2"), cand("c3")]);
    assert_eq!(
        s.handle(answer("v=0")),
        vec![
            SessionAction::SetRemoteDescription(SdpKind::Answer, "v=0".to_string()),
            SessionAction::AddRemoteCandidate(cand("c1")),
            SessionAction::AddRemoteCandidate(cand("c2")),
            SessionAction::AddRemoteCandidate(cand("c3")),
        ]
    );
    assert_eq!(s.phase(), Phase::Negotiating);
    assert!(s.pending().is_empty());
}

#[test]
fn a_session_that_is_over_ignores_everything() {
    for phase in [Phase::Closed, Phase::Errored] {
        let events = || {
            vec![
                SessionEvent::Transport(TransportState::Disconnected),
                SessionEvent::Initiate,
                offer("o"),
                answer("a"),
                ice("c"),
                SessionEvent::Message(SignalingMessage::Error("e".to_string())),
                SessionEvent::LocalDescription("l".to_string()),
                SessionEvent::Transport(TransportState::Connected),
                SessionEvent::Transport(TransportState::Failed),
                SessionEvent::Transport(TransportState::Closed),
                SessionEvent::EngineFailed(EngineError::CandidateRejected),
                SessionEvent::DisconnectTimeout,
                SessionEvent::Teardown,
            ]
        };
        for event in events() {
            let mut s = in_phase(phase);
            assert_eq!(s.handle(event), vec![]);
            assert_eq!(s.phase(), phase);
            assert!(s.pending().is_empty());
            assert_eq!(s.peer_id(), "bob");
            assert!(!s.is_disconnected());
            assert!(s.is_terminal());
        }
    }
}

#[test]
fn the_second_answer_is_discarded() {
    let mut s = in_phase(Phase::Offered);
    assert_eq!(s.handle(answer("first")), vec![SessionAction::SetRemoteDescription(SdpKind::Answer, "first".to_string())]);
    assert_eq!(s.phase(), Phase::Negotiating);
    assert_eq!(s.handle(answer("second")), vec![]);
    assert_eq!(s.phase(), Phase::Negotiating);
}

#[test]
fn an_answer_needs_an_offer() {
    for phase in ALL {
        if phase == Phase::Offered {
            continue;
        }
        let mut s = in_phase(phase);
        assert_eq!(s.handle(answer("a")), vec![]);
        assert_eq!(s.phase(), phase);
    }
}

#[test]
fn an_offer_is_taken_only_when_idle() {
    for phase in ALL {
        if phase == Phase::Idle {
            continue;
        }
        let mut s = in_phase(phase);
        assert_eq!(s.handle(offer("o2")), vec![]);
        assert_eq!(s.phase(), phase);
    }
}

#[test]
fn the_initiator_reaches_connected() {
    let mut s = session();
    assert_eq!(
        s.handle(SessionEvent::Initiate),
        vec![SessionAction::CreateTransport, SessionAction::CreateLocalDescription(SdpKind::Offer)]
    );
    assert_eq!(s.phase(), Phase::Offered);
    assert_eq!(
        s.handle(SessionEvent::LocalDescription("v=0...".to_string())),
        vec![SessionAction::Send(SignalingMessage::Offer(SdpData { sdp: "v=0...".to_string() }))]
    );
    assert_eq!(s.phase(), Phase::Offered);
    assert_eq!(
        s.handle(answer("v=0...")),
        vec![SessionAction::SetRemoteDescription(SdpKind::Answer, "v=0...".to_string())]
    );
    assert_eq!(s.phase(), Phase::Negotiating);
    assert_eq!(s.handle(SessionEvent::Transport(TransportState::Connected)), vec![]);
    assert_eq!(s.phase(), Phase::Connected);
}

#[test]
fn initiating_twice_does_nothing_more() {
    for phase in ALL {
        if phase == Phase::Idle {
            continue;
        }
        let mut s = in_phase(phase);
        assert_eq!(s.handle(SessionEvent::Initiate), vec![]);
        assert_eq!(s.phase(), phase);
    }
}

#[test]
fn connected_counts_only_while_negotiating() {
    for phase in ALL {
        let mut s = in_phase(phase);
        assert_eq!(s.handle(SessionEvent::Transport(TransportState::Connected)), vec![]);
        let expected = if phase == Phase::Negotiating { Phase::Connected } else { phase };
        assert_eq!(s.phase(), expected);
    }
}

#[test]
fn a_failed_transport_closes_the_session() {
    for phase in ALL {
        if matches!(phase, Phase::Closed | Phase::Errored) {
            continue;
        }
        let mut s = in_phase(phase);
        s.handle(ice("late"));
        let sent = SessionAction::Send(SignalingMessage::Error("Peer connection failed".to_string()));
        let expected = if has_transport(phase) {
            vec![SessionAction::CloseTransport, sent]
        } else {
            vec![sent]
        };
        assert_eq!(s.handle(SessionEvent::Transport(TransportState::Failed)), expected);
        assert_eq!(s.phase(), Phase::Closed);
        assert!(s.pending().is_empty());
    }
}

#[test]
fn the_failure_text() {
    assert_eq!(failure_text(), "Peer connection failed");
}

#[test]
fn a_closed_transport_closes_the_session() {
    for phase in [Phase::Offered, Phase::AnswerPending, Phase::Negotiating, Phase::Connected] {
        let mut s = in_phase(phase);
        assert_eq!(
            s.handle(SessionEvent::Transport(TransportState::Closed)),
            vec![SessionAction::CloseTransport]
        );
        assert_eq!(s.phase(), Phase::Closed);
    }
    let mut s = session();
    assert_eq!(s.handle(SessionEvent::Transport(TransportState::Closed)), vec![]);
    assert_eq!(s.phase(), Phase::Closed);
}

#[test]
fn passing_states_change_nothing() {
    for phase in ALL {
        for state in [TransportState::New, TransportState::Connecting, TransportState::Disconnected] {
            let mut s = in_phase(phase);
            assert_eq!(s.handle(SessionEvent::Transport(state)), vec![]);
            assert_eq!(s.phase(), phase);
            assert_eq!(s.is_disconnected(), state == TransportState::Disconnected && has_transport(phase));
        }
    }
}

#[test]
fn a_long_disconnect_closes_a_session_with_a_transport() {
    for phase in [Phase::Offered, Phase::AnswerPending, Phase::Negotiating, Phase::Connected] {
        let mut s = in_phase(phase);
        assert!(s.has_transport());
        assert_eq!(s.handle(SessionEvent::Transport(TransportState::Disconnected)), vec![]);
        assert!(s.is_disconnected());
        assert_eq!(s.phase(), phase);
        assert_eq!(s.handle(SessionEvent::DisconnectTimeout), vec![SessionAction::CloseTransport]);
        assert_eq!(s.phase(), Phase::Closed);
        assert!(!s.is_disconnected());
    }
    let mut s = session();
    s.handle(ice("c"));
    assert!(!s.has_transport());
    assert_eq!(s.handle(SessionEvent::Transport(TransportState::Disconnected)), vec![]);
    assert!(!s.is_disconnected());
    assert_eq!(s.handle(SessionEvent::DisconnectTimeout), vec![]);
    assert_eq!(s.phase(), Phase::Idle);
    assert_eq!(s.pending(), &vec![cand("c")]);
}

#[test]
fn a_time_out_after_reconnecting_changes_nothing() {
    for phase in [Phase::Offered, Phase::AnswerPending, Phase::Negotiating, Phase::Connected] {
        let mut s = in_phase(phase);
        assert_eq!(s.handle(SessionEvent::DisconnectTimeout), vec![]);
        assert_eq!(s.phase(), phase);
        s.handle(SessionEvent::Transport(TransportState::Disconnected));
        s.handle(SessionEvent::Transport(TransportState::Connecting));
        assert!(s.is_disconnected());
        s.handle(SessionEvent::Transport(TransportState::Connected));
        assert!(!s.is_disconnected());
        let after = if phase == Phase::Negotiating { Phase::Connected } else { phase };
        assert_eq!(s.phase(), after);
        assert_eq!(s.handle(SessionEvent::DisconnectTimeout), vec![]);
        assert_eq!(s.phase(), after);
    }
}

#[test]
fn teardown_closes_the_session() {
    for phase in [Phase::Offered, Phase::AnswerPending, Phase::Negotiating, Phase::Connected] {
        let mut s = in_phase(phase);
        assert_eq!(s.handle(SessionEvent::Teardown), vec![SessionAction::CloseTransport]);
        assert_eq!(s.phase(), Phase::Closed);
    }
    let mut s = session();
    s.handle(ice("c"));
    assert_eq!(s.handle(SessionEvent::Teardown), vec![]);
    assert_eq!(s.phase(), Phase::Closed);
    assert!(s.pending().is_empty());
}

#[test]
fn an_engine_failure_ends_the_session_in_error() {
    for error in [EngineError::EngineInitError, EngineError::InvalidDescription, EngineError::CandidateRejected] {
        for phase in [Phase::Offered, Phase::AnswerPending, Phase::Negotiating, Phase::Connected] {
            let mut s = in_phase(phase);
            assert_eq!(s.handle(SessionEvent::EngineFailed(error)), vec![SessionAction::CloseTransport]);
            assert_eq!(s.phase(), Phase::Errored);
            assert!(s.is_terminal());
        }
        let mut s = session();
        assert_eq!(s.handle(SessionEvent::EngineFailed(error)), vec![]);
        assert_eq!(s.phase(), Phase::Errored);
    }
}

#[test]
fn an_error_message_changes_nothing() {
    for phase in ALL {
        let mut s = in_phase(phase);
        assert_eq!(s.handle(SessionEvent::Message(SignalingMessage::Error("x".to_string()))), vec![]);
        assert_eq!(s.phase(), phase);
    }
}

#[test]
fn a_local_description_goes_out_as_offer_or_answer() {
    let mut s = in_phase(Phase::AnswerPending);
    assert_eq!(
        s.handle(SessionEvent::LocalDescription("l".to_string())),
        vec![SessionAction::Send(SignalingMessage::Answer(SdpData { sdp: "l".to_string() }))]
    );
    assert_eq!(s.phase(), Phase::Negotiating);
    for phase in [Phase::Idle, Phase::Negotiating, Phase::Connected] {
        let mut s = in_phase(phase);
        assert_eq!(s.handle(SessionEvent::LocalDescription("l".to_string())), vec![]);
        assert_eq!(s.phase(), phase);
    }
}

#[test]
fn candidates_go_straight_through_once_described() {
    for phase in [Phase::AnswerPending, Phase::Negotiating, Phase::Connected] {
        let mut s = in_phase(phase);
        assert_eq!(s.handle(ice("c")), vec![SessionAction::AddRemoteCandidate(cand("c"))]);
        assert!(s.pending().is_empty());
        assert_eq!(s.phase(), phase);
    }
}

#[test]
fn forwarded_candidates_are_the_received_ones_in_order() {
    let mut s = session();
    let mut forwarded = Vec::new();
    let mut events = vec![ice("1"), ice("2"), SessionEvent::Initiate, ice("3")];
    events.push(SessionEvent::LocalDescription("o".to_string()));
    events.push(ice("4"));
    events.push(answer("a"));
    events.push(ice("5"));
    events.push(SessionEvent::Transport(TransportState::Connected));
    events.push(ice("6"));
    let mut described = false;
    for event in events {
        for action in s.handle(event) {
            match action {
                SessionAction::SetRemoteDescription(_, _) => described = true,
                SessionAction::AddRemoteCandidate(c) => {
                    assert!(described);
                    forwarded.push(c.candidate);
                }
                _ => {}
            }
        }
    }
    assert_eq!(forwarded, vec!["1", "2", "3", "4", "5", "6"]);
    assert!(s.pending().is_empty());
}

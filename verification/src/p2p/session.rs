//! The negotiation with one remote peer, as a state machine.
//!
//! A session never touches the transport engine or the signaling channel. It
//! is told what happened, as a [`SessionEvent`], and answers with what is to be
//! done, as a list of [`SessionAction`]s that its owner carries out in order.
//! Should the engine refuse one of them, the owner drops the rest of the list
//! and reports [`SessionEvent::EngineFailed`].

use vstd::prelude::*;
use crate::p2p::signaling_types::{
    CandidateView, IceCandidateData, MessageView, SdpData, SignalingMessage,
};

verus! {

/// How far the negotiation with a peer has come.
#[derive(Debug, Clone, Copy, PartialEq, Eq, Structural)]
pub enum Phase {
    /// Nothing has happened yet; there is no transport.
    Idle,
    /// This side has offered and waits for the answer.
    Offered,
    /// The peer has offered; this side's answer is not out yet.
    AnswerPending,
    /// Both descriptions are exchanged; the transport is connecting.
    Negotiating,
    /// The transport is connected.
    Connected,
    /// The session is over.
    Closed,
    /// The session has failed for good.
    Errored,
}

/// What the transport engine reports of a connection.
#[derive(Debug, Clone, Copy, PartialEq, Eq, Structural)]
pub enum TransportState {
    New,
    Connecting,
    Connected,
    Disconnected,
    Failed,
    Closed,
}

/// How the transport engine can refuse an operation.
#[derive(Debug, Clone, Copy, PartialEq, Eq, Structural)]
pub enum EngineError {
    /// The engine could not set up a connection.
    EngineInitError,
    /// A description came out of order or is malformed.
    InvalidDescription,
    /// A candidate came before the remote description.
    CandidateRejected,
}

/// Which of the two descriptions of a negotiation one is.
#[derive(Debug, Clone, Copy, PartialEq, Eq, Structural)]
pub enum SdpKind {
    Offer,
    Answer,
}

/// Something that happened and that a session has to know of.
#[derive(Debug)]
pub enum SessionEvent {
    /// This side wants to connect to the peer.
    Initiate,
    /// A message from the peer has arrived.
    Message(SignalingMessage),
    /// The engine has made the local description that was asked for.
    LocalDescription(String),
    /// The engine reports the state of the connection.
    Transport(TransportState),
    /// The engine has refused an operation.
    EngineFailed(EngineError),
    /// Some time has passed since the engine reported the connection
    /// disconnected.
    DisconnectTimeout,
    /// The session is to end now.
    Teardown,
}

/// Something that the owner of a session has to do for it.
#[derive(Debug)]
pub enum SessionAction {
    /// Create the connection and subscribe to its state.
    CreateTransport,
    /// Apply the peer's description, which is of the given kind.
    SetRemoteDescription(SdpKind, String),
    /// Make the local description of the given kind, apply it, and report it
    /// back.
    CreateLocalDescription(SdpKind),
    /// Hand a candidate of the peer to the engine.
    AddRemoteCandidate(IceCandidateData),
    /// Close the connection.
    CloseTransport,
    /// Send a message to the peer.
    Send(SignalingMessage),
}

/// The mathematical value of a [`SessionEvent`].
pub enum EventView {
    Initiate,
    Message(MessageView),
    LocalDescription(Seq<char>),
    Transport(TransportState),
    EngineFailed(EngineError),
    DisconnectTimeout,
    Teardown,
}

/// The mathematical value of a [`SessionAction`].
pub enum ActionView {
    CreateTransport,
    SetRemoteDescription(SdpKind, Seq<char>),
    CreateLocalDescription(SdpKind),
    AddRemoteCandidate(CandidateView),
    CloseTransport,
    Send(MessageView),
}

impl View for SessionEvent {
    type V = EventView;

    open spec fn view(&self) -> EventView {
        match *self {
            SessionEvent::Initiate => EventView::Initiate,
            SessionEvent::Message(m) => EventView::Message(m@),
            SessionEvent::LocalDescription(sdp) => EventView::LocalDescription(sdp@),
            SessionEvent::Transport(t) => EventView::Transport(t),
            SessionEvent::EngineFailed(e) => EventView::EngineFailed(e),
            SessionEvent::DisconnectTimeout => EventView::DisconnectTimeout,
            SessionEvent::Teardown => EventView::Teardown,
        }
    }
}

impl View for SessionAction {
    type V = ActionView;

    open spec fn view(&self) -> ActionView {
        match *self {
            SessionAction::CreateTransport => ActionView::CreateTransport,
            SessionAction::SetRemoteDescription(k, sdp) => ActionView::SetRemoteDescription(
                k,
                sdp@,
            ),
            SessionAction::CreateLocalDescription(k) => ActionView::CreateLocalDescription(k),
            SessionAction::AddRemoteCandidate(c) => ActionView::AddRemoteCandidate(c@),
            SessionAction::CloseTransport => ActionView::CloseTransport,
            SessionAction::Send(m) => ActionView::Send(m@),
        }
    }
}

impl Clone for SessionAction {
    fn clone(&self) -> (r: Self)
        ensures
            r@ == self@,
    {
        match self {
            SessionAction::CreateTransport => SessionAction::CreateTransport,
            SessionAction::SetRemoteDescription(k, sdp) => SessionAction::SetRemoteDescription(
                *k,
                sdp.clone(),
            ),
            SessionAction::CreateLocalDescription(k) => SessionAction::CreateLocalDescription(*k),
            SessionAction::AddRemoteCandidate(c) => SessionAction::AddRemoteCandidate(c.clone()),
            SessionAction::CloseTransport => SessionAction::CloseTransport,
            SessionAction::Send(m) => SessionAction::Send(m.clone()),
        }
    }
}

impl PartialEq for SessionAction {
    fn eq(&self, other: &Self) -> (r: bool) {
        match (self, other) {
            (SessionAction::CreateTransport, SessionAction::CreateTransport) => true,
            (
                SessionAction::SetRemoteDescription(j, a),
                SessionAction::SetRemoteDescription(k, b),
            ) => *j == *k && *a == *b,
            (SessionAction::CreateLocalDescription(j), SessionAction::CreateLocalDescription(k)) => *j
                == *k,
            (SessionAction::AddRemoteCandidate(a), SessionAction::AddRemoteCandidate(b)) => *a
                == *b,
            (SessionAction::CloseTransport, SessionAction::CloseTransport) => true,
            (SessionAction::Send(a), SessionAction::Send(b)) => *a == *b,
            _ => false,
        }
    }
}

impl vstd::std_specs::cmp::PartialEqSpecImpl for SessionAction {
    open spec fn obeys_eq_spec() -> bool {
        true
    }

    open spec fn eq_spec(&self, other: &Self) -> bool {
        self@ == other@
    }
}

/// The values of a list of candidates.
pub open spec fn candidate_views(cs: Seq<IceCandidateData>) -> Seq<CandidateView> {
    cs.map_values(|c: IceCandidateData| c@)
}

/// The values of a list of actions.
pub open spec fn action_views(acts: Seq<SessionAction>) -> Seq<ActionView> {
    acts.map_values(|a: SessionAction| a@)
}

/// The mathematical value of a [`PeerSession`].
pub struct SessionView {
    pub peer_id: Seq<char>,
    pub phase: Phase,
    /// The candidates that arrived before the peer's description, oldest first.
    pub pending: Seq<CandidateView>,
    /// Whether the engine's last word on the connection was that it is
    /// disconnected.
    pub disconnected: bool,
}

/// A state together with what is to be done on entering it.
pub struct Step {
    pub state: SessionView,
    pub actions: Seq<ActionView>,
}

/// Whether a session in this phase is over.
pub open spec fn is_terminal(p: Phase) -> bool {
    p is Closed || p is Errored
}

/// Whether a session in this phase has a transport.
pub open spec fn has_transport(p: Phase) -> bool {
    p is Offered || p is AnswerPending || p is Negotiating || p is Connected
}

/// Whether in this phase the peer's description has been handed to the engine.
pub open spec fn remote_applied(p: Phase) -> bool {
    p is AnswerPending || p is Negotiating || p is Connected
}

/// The session that a peer starts with.
pub open spec fn fresh(peer_id: Seq<char>) -> SessionView {
    SessionView { peer_id, phase: Phase::Idle, pending: Seq::empty(), disconnected: false }
}

/// One `AddRemoteCandidate` for each candidate, in their order.
pub open spec fn add_all(cs: Seq<CandidateView>) -> Seq<ActionView> {
    cs.map_values(|c: CandidateView| ActionView::AddRemoteCandidate(c))
}

/// Closing the transport, where there is one.
pub open spec fn closing(p: Phase) -> Seq<ActionView> {
    if has_transport(p) {
        seq![ActionView::CloseTransport]
    } else {
        Seq::empty()
    }
}

/// The text of the error message that a session sends when its transport fails.
pub open spec fn failure_notice() -> Seq<char> {
    "Peer connection failed"@
}

/// Nothing changes and nothing is to be done.
pub open spec fn stay(s: SessionView) -> Step {
    Step { state: s, actions: Seq::empty() }
}

/// The phase changes; what is buffered stays buffered.
pub open spec fn advance(s: SessionView, phase: Phase, actions: Seq<ActionView>) -> Step {
    Step { state: SessionView { phase, ..s }, actions }
}

/// The phase changes and the buffer is emptied.
pub open spec fn flush(s: SessionView, phase: Phase, actions: Seq<ActionView>) -> Step {
    Step { state: SessionView { phase, pending: Seq::empty(), ..s }, actions }
}

/// The phase changes, the buffer is emptied, and a disconnection is forgotten.
pub open spec fn settle(s: SessionView, phase: Phase, actions: Seq<ActionView>) -> Step {
    Step { state: SessionView { phase, pending: Seq::empty(), disconnected: false, ..s }, actions }
}

/// What a message from the peer does to a session that is not over.
///
/// An offer is taken only by an idle session, an answer only by one that has
/// offered; both bring the peer's description, after which the buffered
/// candidates go to the engine in the order in which they came. A candidate
/// goes to the engine at once if the description is there, and into the
/// buffer if not. Everything else is discarded.
pub open spec fn on_message(s: SessionView, m: MessageView) -> Step {
    match m {
        MessageView::Offer(sdp) => if s.phase is Idle {
            flush(
                s,
                Phase::AnswerPending,
                seq![
                    ActionView::CreateTransport,
                    ActionView::SetRemoteDescription(SdpKind::Offer, sdp),
                ] + add_all(s.pending) + seq![ActionView::CreateLocalDescription(SdpKind::Answer)],
            )
        } else {
            stay(s)
        },
        MessageView::Answer(sdp) => if s.phase is Offered {
            flush(
                s,
                Phase::Negotiating,
                seq![ActionView::SetRemoteDescription(SdpKind::Answer, sdp)] + add_all(s.pending),
            )
        } else {
            stay(s)
        },
        MessageView::IceCandidate(c) => if remote_applied(s.phase) {
            advance(s, s.phase, seq![ActionView::AddRemoteCandidate(c)])
        } else {
            Step { state: SessionView { pending: s.pending.push(c), ..s }, actions: Seq::empty() }
        },
        MessageView::Error(_) => stay(s),
    }
}

/// What a report of the engine does to a session that is not over.
///
/// That the connection stands takes a negotiating session to connected, and
/// ends a disconnection in any phase. That it is disconnected is remembered
/// where there is a transport. That it has failed or is closed ends the
/// session. The other reports change nothing.
pub open spec fn on_transport(s: SessionView, t: TransportState) -> Step {
    match t {
        TransportState::Connected => Step {
            state: SessionView {
                phase: if s.phase is Negotiating {
                    Phase::Connected
                } else {
                    s.phase
                },
                disconnected: false,
                ..s
            },
            actions: Seq::empty(),
        },
        TransportState::Disconnected => if has_transport(s.phase) {
            Step { state: SessionView { disconnected: true, ..s }, actions: Seq::empty() }
        } else {
            stay(s)
        },
        TransportState::Failed => settle(
            s,
            Phase::Closed,
            closing(s.phase) + seq![ActionView::Send(MessageView::Error(failure_notice()))],
        ),
        TransportState::Closed => settle(s, Phase::Closed, closing(s.phase)),
        _ => stay(s),
    }
}

/// The session after an event, and what is to be done.
///
/// A session that is over stays as it is, whatever happens. A time-out ends
/// a session only if its connection is still disconnected when it comes.
pub open spec fn step(s: SessionView, e: EventView) -> Step {
    if is_terminal(s.phase) {
        stay(s)
    } else {
        match e {
            EventView::Initiate => if s.phase is Idle {
                advance(
                    s,
                    Phase::Offered,
                    seq![
                        ActionView::CreateTransport,
                        ActionView::CreateLocalDescription(SdpKind::Offer),
                    ],
                )
            } else {
                stay(s)
            },
            EventView::Message(m) => on_message(s, m),
            EventView::LocalDescription(sdp) => if s.phase is Offered {
                advance(s, Phase::Offered, seq![ActionView::Send(MessageView::Offer(sdp))])
            } else if s.phase is AnswerPending {
                advance(s, Phase::Negotiating, seq![ActionView::Send(MessageView::Answer(sdp))])
            } else {
                stay(s)
            },
            EventView::Transport(t) => on_transport(s, t),
            EventView::EngineFailed(_) => settle(s, Phase::Errored, closing(s.phase)),
            EventView::DisconnectTimeout => if s.disconnected && has_transport(s.phase) {
                settle(s, Phase::Closed, closing(s.phase))
            } else {
                stay(s)
            },
            EventView::Teardown => settle(s, Phase::Closed, closing(s.phase)),
        }
    }
}

/// The negotiation with one remote peer.
#[derive(Debug)]
pub struct PeerSession {
    peer_id: String,
    phase: Phase,
    pending: Vec<IceCandidateData>,
    disconnected: bool,
}

impl View for PeerSession {
    type V = SessionView;

    closed spec fn view(&self) -> SessionView {
        SessionView {
            peer_id: self.peer_id@,
            phase: self.phase,
            pending: candidate_views(self.pending@),
            disconnected: self.disconnected,
        }
    }
}

/// Appends one `AddRemoteCandidate` for each candidate, in their order.
fn forward_all(pending: &Vec<IceCandidateData>, out: &mut Vec<SessionAction>)
    ensures
        action_views(final(out)@) == action_views(old(out)@) + add_all(candidate_views(pending@)),
{
    let ghost before = action_views(out@);
    let mut i: usize = 0;
    assert(add_all(candidate_views(pending@).subrange(0, 0)) =~= Seq::empty());
    assert(action_views(out@) =~= before + Seq::empty());
    while i < pending.len()
        invariant
            i <= pending.len(),
            action_views(out@) == before + add_all(candidate_views(pending@).subrange(0, i as int)),
        decreases pending.len() - i,
    {
        let ghost prev = out@;
        out.push(SessionAction::AddRemoteCandidate(pending[i].clone()));
        i += 1;
        proof {
            let all = candidate_views(pending@);
            let sent = all.subrange(0, i - 1);
            assert(action_views(out@) =~= action_views(prev).push(
                ActionView::AddRemoteCandidate(all[i - 1]),
            ));
            assert(all.subrange(0, i as int) =~= sent.push(all[i - 1]));
            assert(add_all(sent.push(all[i - 1])) =~= add_all(sent).push(
                ActionView::AddRemoteCandidate(all[i - 1]),
            ));
            assert(action_views(out@) =~= before + add_all(all.subrange(0, i as int)));
        }
    }
    assert(candidate_views(pending@).subrange(0, i as int) =~= candidate_views(pending@));
}

/// The actions that close the transport of a session in the given phase.
fn close_actions(phase: Phase) -> (out: Vec<SessionAction>)
    ensures
        action_views(out@) == closing(phase),
{
    let mut out: Vec<SessionAction> = Vec::new();
    match phase {
        Phase::Offered | Phase::AnswerPending | Phase::Negotiating | Phase::Connected => {
            out.push(SessionAction::CloseTransport);
        },
        _ => {},
    }
    assert(action_views(out@) =~= closing(phase));
    out
}

impl PeerSession {
    /// A session with a peer with which nothing has happened yet.
    pub fn new(peer_id: String) -> (s: Self)
        ensures
            s@ == fresh(peer_id@),
    {
        let s = PeerSession {
            peer_id,
            phase: Phase::Idle,
            pending: Vec::new(),
            disconnected: false,
        };
        assert(s@.pending =~= Seq::empty());
        s
    }

    /// The peer that this session is with.
    pub fn peer_id(&self) -> (id: &String)
        ensures
            id@ == self@.peer_id,
    {
        &self.peer_id
    }

    /// How far the negotiation has come.
    pub fn phase(&self) -> (p: Phase)
        ensures
            p == self@.phase,
    {
        self.phase
    }

    /// The candidates that wait for the peer's description, oldest first.
    pub fn pending(&self) -> (cs: &Vec<IceCandidateData>)
        ensures
            candidate_views(cs@) == self@.pending,
    {
        &self.pending
    }

    /// Whether the engine's last word on the connection was that it is
    /// disconnected.
    pub fn is_disconnected(&self) -> (b: bool)
        ensures
            b == self@.disconnected,
    {
        self.disconnected
    }

    /// Whether the session has a transport.
    pub fn has_transport(&self) -> (b: bool)
        ensures
            b == has_transport(self@.phase),
    {
        match self.phase {
            Phase::Offered | Phase::AnswerPending | Phase::Negotiating | Phase::Connected => true,
            _ => false,
        }
    }

    /// Whether the session is over.
    pub fn is_terminal(&self) -> (b: bool)
        ensures
            b == is_terminal(self@.phase),
    {
        match self.phase {
            Phase::Closed | Phase::Errored => true,
            _ => false,
        }
    }

    /// Ends the session in the given phase and closes its transport.
    fn finish(&mut self, phase: Phase) -> (out: Vec<SessionAction>)
        ensures
            final(self)@ == settle(old(self)@, phase, closing(old(self)@.phase)).state,
            action_views(out@) == closing(old(self)@.phase),
    {
        let out = close_actions(self.phase);
        self.phase = phase;
        self.pending = Vec::new();
        self.disconnected = false;
        assert(self@.pending =~= Seq::empty());
        out
    }

    /// Takes a message from the peer; the session is not over.
    fn receive(&mut self, message: SignalingMessage) -> (out: Vec<SessionAction>)
        requires
            !is_terminal(old(self)@.phase),
        ensures
            final(self)@ == on_message(old(self)@, message@).state,
            action_views(out@) == on_message(old(self)@, message@).actions,
    {
        let mut out: Vec<SessionAction> = Vec::new();
        match message {
            SignalingMessage::Offer(SdpData { sdp }) => {
                if self.phase == Phase::Idle {
                    out.push(SessionAction::CreateTransport);
                    out.push(SessionAction::SetRemoteDescription(SdpKind::Offer, sdp));
                    assert(action_views(out@) =~= seq![
                        ActionView::CreateTransport,
                        ActionView::SetRemoteDescription(SdpKind::Offer, sdp@),
                    ]);
                    forward_all(&self.pending, &mut out);
                    out.push(SessionAction::CreateLocalDescription(SdpKind::Answer));
                    self.phase = Phase::AnswerPending;
                    self.pending = Vec::new();
                    assert(self@.pending =~= Seq::empty());
                    assert(action_views(out@) =~= on_message(old(self)@, message@).actions);
                }
            },
            SignalingMessage::Answer(SdpData { sdp }) => {
                if self.phase == Phase::Offered {
                    out.push(SessionAction::SetRemoteDescription(SdpKind::Answer, sdp));
                    assert(action_views(out@) =~= seq![
                        ActionView::SetRemoteDescription(SdpKind::Answer, sdp@),
                    ]);
                    forward_all(&self.pending, &mut out);
                    self.phase = Phase::Negotiating;
                    self.pending = Vec::new();
                    assert(self@.pending =~= Seq::empty());
                }
            },
            SignalingMessage::IceCandidate(c) => {
                match self.phase {
                    Phase::AnswerPending | Phase::Negotiating | Phase::Connected => {
                        out.push(SessionAction::AddRemoteCandidate(c));
                        assert(action_views(out@) =~= seq![ActionView::AddRemoteCandidate(c@)]);
                    },
                    _ => {
                        self.pending.push(c);
                        assert(self@.pending =~= old(self)@.pending.push(c@));
                    },
                }
            },
            SignalingMessage::Error(_) => {},
        }
        assert(out@.len() == 0 ==> action_views(out@) =~= Seq::empty());
        out
    }

    /// Takes a report of the engine; the session is not over.
    fn observe(&mut self, state: TransportState) -> (out: Vec<SessionAction>)
        requires
            !is_terminal(old(self)@.phase),
        ensures
            final(self)@ == on_transport(old(self)@, state).state,
            action_views(out@) == on_transport(old(self)@, state).actions,
    {
        match state {
            TransportState::Connected => {
                if self.phase == Phase::Negotiating {
                    self.phase = Phase::Connected;
                }
                self.disconnected = false;
                let out: Vec<SessionAction> = Vec::new();
                assert(action_views(out@) =~= Seq::empty());
                out
            },
            TransportState::Disconnected => {
                if self.has_transport() {
                    self.disconnected = true;
                }
                let out: Vec<SessionAction> = Vec::new();
                assert(action_views(out@) =~= Seq::empty());
                out
            },
            TransportState::Failed => {
                let mut out = self.finish(Phase::Closed);
                out.push(SessionAction::Send(SignalingMessage::Error(failure_text())));
                assert(action_views(out@) =~= on_transport(old(self)@, state).actions);
                out
            },
            TransportState::Closed => self.finish(Phase::Closed),
            _ => {
                let out: Vec<SessionAction> = Vec::new();
                assert(action_views(out@) =~= Seq::empty());
                out
            },
        }
    }

    /// Tells the session what happened, and returns what is to be done, in the
    /// order in which it is to be done.
    pub fn handle(&mut self, event: SessionEvent) -> (out: Vec<SessionAction>)
        ensures
            final(self)@ == step(old(self)@, event@).state,
            action_views(out@) == step(old(self)@, event@).actions,
            is_terminal(old(self)@.phase) ==> final(self)@ == old(self)@ && out@.len() == 0,
    {
        if self.is_terminal() {
            let out: Vec<SessionAction> = Vec::new();
            assert(action_views(out@) =~= Seq::empty());
            return out;
        }
        match event {
            SessionEvent::Initiate => {
                let mut out: Vec<SessionAction> = Vec::new();
                if self.phase == Phase::Idle {
                    out.push(SessionAction::CreateTransport);
                    out.push(SessionAction::CreateLocalDescription(SdpKind::Offer));
                    self.phase = Phase::Offered;
                }
                assert(action_views(out@) =~= step(old(self)@, event@).actions);
                out
            },
            SessionEvent::Message(m) => self.receive(m),
            SessionEvent::LocalDescription(sdp) => {
                let mut out: Vec<SessionAction> = Vec::new();
                if self.phase == Phase::Offered {
                    out.push(SessionAction::Send(SignalingMessage::Offer(SdpData { sdp })));
                } else if self.phase == Phase::AnswerPending {
                    out.push(SessionAction::Send(SignalingMessage::Answer(SdpData { sdp })));
                    self.phase = Phase::Negotiating;
                }
                assert(action_views(out@) =~= step(old(self)@, event@).actions);
                out
            },
            SessionEvent::Transport(t) => self.observe(t),
            SessionEvent::EngineFailed(_) => self.finish(Phase::Errored),
            SessionEvent::DisconnectTimeout => {
                if self.disconnected && self.has_transport() {
                    self.finish(Phase::Closed)
                } else {
                    let out: Vec<SessionAction> = Vec::new();
                    assert(action_views(out@) =~= Seq::empty());
                    out
                }
            },
            SessionEvent::Teardown => self.finish(Phase::Closed),
        }
    }
}

/// The text of the error message that a session sends when its transport fails.
pub fn failure_text() -> (text: String)
    ensures
        text@ == failure_notice(),
{
    "Peer connection failed".to_string()
}

} // verus!

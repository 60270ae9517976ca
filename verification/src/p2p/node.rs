//! The node: one signaling channel, and a session for every peer it talks to.
//!
//! The node does no input or output. Its owner reads the channel and watches
//! the transport engine, tells the node what happened as a [`NodeEvent`], and
//! carries out the [`NodeAction`]s that the node answers with, in order.

use vstd::prelude::*;
use vstd::string::StringExecFns;
use crate::p2p::decimal::{decimal, render_decimal};
use crate::p2p::session::{
    action_views, fresh, is_terminal, step, ActionView, EventView, PeerSession, Phase,
    SessionAction, SessionEvent, SessionView,
};
use crate::p2p::signaling_types::{MessageView, SignalingMessage};
use crate::p2p::wire::{
    addressed_frame, decode_envelope, decoded_envelope, encode_envelope, Envelope, EnvelopeView,
};

verus! {

/// One frame of the signaling channel.
#[derive(Debug)]
pub enum Frame {
    Text(String),
    Binary,
    Ping,
    Pong,
    Close,
    Raw,
}

/// Why a node has stopped.
#[derive(Debug)]
pub enum StopReason {
    /// The channel ended without a word.
    StreamEnded,
    /// The relay closed the channel.
    ClosedByPeer,
    /// Reading from the channel failed; the text says how.
    StreamError(String),
    /// Sending found the channel closed.
    SendFailed,
}

/// Something that happened and that the node has to know of.
#[derive(Debug)]
pub enum NodeEvent {
    /// A frame has arrived on the channel.
    Frame(Frame),
    /// Reading from the channel failed; the text says how.
    StreamFailed(String),
    /// The channel has ended.
    StreamEnded,
    /// A frame could not be sent because the channel is closed.
    SendFailed,
    /// Something happened that concerns the session with one peer.
    Peer(String, SessionEvent),
}

/// Something that the owner of the node has to do for it.
#[derive(Debug)]
pub enum NodeAction {
    /// Do this for the session with that peer. Never a `Send`.
    Peer { peer_id: String, action: SessionAction },
    /// Send this text as one frame.
    Transmit(String),
}

/// The mathematical value of a [`Frame`].
pub enum FrameView {
    Text(Seq<char>),
    Binary,
    Ping,
    Pong,
    Close,
    Raw,
}

/// The mathematical value of a [`StopReason`].
pub enum StopView {
    StreamEnded,
    ClosedByPeer,
    StreamError(Seq<char>),
    SendFailed,
}

/// The mathematical value of a [`NodeEvent`].
pub enum NodeEventView {
    Frame(FrameView),
    StreamFailed(Seq<char>),
    StreamEnded,
    SendFailed,
    Peer(Seq<char>, EventView),
}

/// The mathematical value of a [`NodeAction`].
pub enum NodeActionView {
    Peer { peer_id: Seq<char>, action: ActionView },
    Transmit(Seq<char>),
}

impl View for Frame {
    type V = FrameView;

    open spec fn view(&self) -> FrameView {
        match *self {
            Frame::Text(t) => FrameView::Text(t@),
            Frame::Binary => FrameView::Binary,
            Frame::Ping => FrameView::Ping,
            Frame::Pong => FrameView::Pong,
            Frame::Close => FrameView::Close,
            Frame::Raw => FrameView::Raw,
        }
    }
}

impl View for StopReason {
    type V = StopView;

    open spec fn view(&self) -> StopView {
        match *self {
            StopReason::StreamEnded => StopView::StreamEnded,
            StopReason::ClosedByPeer => StopView::ClosedByPeer,
            StopReason::StreamError(why) => StopView::StreamError(why@),
            StopReason::SendFailed => StopView::SendFailed,
        }
    }
}

impl View for NodeEvent {
    type V = NodeEventView;

    open spec fn view(&self) -> NodeEventView {
        match *self {
            NodeEvent::Frame(f) => NodeEventView::Frame(f@),
            NodeEvent::StreamFailed(why) => NodeEventView::StreamFailed(why@),
            NodeEvent::StreamEnded => NodeEventView::StreamEnded,
            NodeEvent::SendFailed => NodeEventView::SendFailed,
            NodeEvent::Peer(peer_id, e) => NodeEventView::Peer(peer_id@, e@),
        }
    }
}

impl View for NodeAction {
    type V = NodeActionView;

    open spec fn view(&self) -> NodeActionView {
        match *self {
            NodeAction::Peer { peer_id, action } => NodeActionView::Peer {
                peer_id: peer_id@,
                action: action@,
            },
            NodeAction::Transmit(text) => NodeActionView::Transmit(text@),
        }
    }
}

impl PartialEq for NodeAction {
    fn eq(&self, other: &Self) -> (r: bool) {
        match (self, other) {
            (
                NodeAction::Peer { peer_id: p, action: a },
                NodeAction::Peer { peer_id: q, action: b },
            ) => *p == *q && *a == *b,
            (NodeAction::Transmit(a), NodeAction::Transmit(b)) => *a == *b,
            _ => false,
        }
    }
}

impl vstd::std_specs::cmp::PartialEqSpecImpl for NodeAction {
    open spec fn obeys_eq_spec() -> bool {
        true
    }

    open spec fn eq_spec(&self, other: &Self) -> bool {
        self@ == other@
    }
}

/// The values of a list of sessions.
pub open spec fn session_views(ss: Seq<PeerSession>) -> Seq<SessionView> {
    ss.map_values(|s: PeerSession| s@)
}

/// The values of a list of actions of a node.
pub open spec fn node_action_views(acts: Seq<NodeAction>) -> Seq<NodeActionView> {
    acts.map_values(|a: NodeAction| a@)
}

/// The value of an optional reason.
pub open spec fn stop_view(r: Option<StopReason>) -> Option<StopView> {
    match r {
        Some(r) => Some(r@),
        None => None,
    }
}

/// The mathematical value of a [`P2PNode`].
pub struct NodeView {
    pub node_id: Seq<char>,
    /// The sessions that live, oldest first.
    pub sessions: Seq<SessionView>,
    /// Why the node has stopped, if it has.
    pub stopped: Option<StopView>,
}

/// A state of the node together with what is to be done on entering it.
pub struct NodeStep {
    pub state: NodeView,
    pub actions: Seq<NodeActionView>,
}

/// The name of the node that drew the number `n`.
pub open spec fn node_name(n: u32) -> Seq<char> {
    "node_"@ + decimal(n as nat)
}

/// The node as it starts: running, with no session.
pub open spec fn starting(node_id: Seq<char>) -> NodeView {
    NodeView { node_id, sessions: Seq::empty(), stopped: None }
}

/// Whether there is a session with this peer.
pub open spec fn known(ss: Seq<SessionView>, peer_id: Seq<char>) -> bool {
    exists|i: int| 0 <= i < ss.len() && (#[trigger] ss[i]).peer_id == peer_id
}

/// Whether `i` is the place of the oldest session with this peer.
pub open spec fn is_position(ss: Seq<SessionView>, peer_id: Seq<char>, i: int) -> bool {
    &&& 0 <= i < ss.len()
    &&& ss[i].peer_id == peer_id
    &&& forall|j: int| 0 <= j < i ==> (#[trigger] ss[j]).peer_id != peer_id
}

/// The place of the oldest session with this peer, where there is one.
pub open spec fn position(ss: Seq<SessionView>, peer_id: Seq<char>) -> int {
    choose|i: int| is_position(ss, peer_id, i)
}

/// Whether an event calls a session into being where there is none: a message
/// from the peer does, and so does this side's wish to connect.
pub open spec fn creates(e: EventView) -> bool {
    e is Initiate || e is Message
}

/// What the node makes of one action of a session: a message to send becomes
/// the text of its frame, addressed to the peer; anything else is passed on
/// under the peer's name.
pub open spec fn lift_one(peer_id: Seq<char>, a: ActionView) -> NodeActionView {
    match a {
        ActionView::Send(message) => NodeActionView::Transmit(
            addressed_frame(EnvelopeView { peer_id, message }),
        ),
        _ => NodeActionView::Peer { peer_id, action: a },
    }
}

/// What the node makes of the actions of a session.
pub open spec fn lift(peer_id: Seq<char>, acts: Seq<ActionView>) -> Seq<NodeActionView> {
    acts.map_values(|a: ActionView| lift_one(peer_id, a))
}

/// Nothing changes and nothing is to be done.
pub open spec fn unchanged(n: NodeView) -> NodeStep {
    NodeStep { state: n, actions: Seq::empty() }
}

/// The node after an event that concerns one peer.
///
/// The event goes to the oldest session with that peer. Where there is none,
/// one is made if the event calls for it, and the event is dropped if not. A
/// session that the event has ended leaves the node.
pub open spec fn deliver(n: NodeView, peer_id: Seq<char>, e: EventView) -> NodeStep {
    if n.stopped is Some {
        unchanged(n)
    } else if known(n.sessions, peer_id) {
        let i = position(n.sessions, peer_id);
        let st = step(n.sessions[i], e);
        NodeStep {
            state: NodeView {
                sessions: if is_terminal(st.state.phase) {
                    n.sessions.remove(i)
                } else {
                    n.sessions.update(i, st.state)
                },
                ..n
            },
            actions: lift(peer_id, st.actions),
        }
    } else if creates(e) {
        let st = step(fresh(peer_id), e);
        NodeStep {
            state: NodeView { sessions: n.sessions.push(st.state), ..n },
            actions: lift(peer_id, st.actions),
        }
    } else {
        unchanged(n)
    }
}

/// What is to be done to end all sessions, oldest first.
pub open spec fn close_all(ss: Seq<SessionView>) -> Seq<NodeActionView>
    decreases ss.len(),
{
    if ss.len() == 0 {
        Seq::empty()
    } else {
        close_all(ss.drop_last()) + lift(
            ss.last().peer_id,
            step(ss.last(), EventView::Teardown).actions,
        )
    }
}

/// The node stops: every session ends, and the reason is kept.
pub open spec fn shut_down(n: NodeView, reason: StopView) -> NodeStep {
    NodeStep {
        state: NodeView { sessions: Seq::empty(), stopped: Some(reason), ..n },
        actions: close_all(n.sessions),
    }
}

/// The node after a frame has arrived.
///
/// A text frame that holds an addressed message goes to the session with that
/// peer; one that does not is dropped. A close frame stops the node. Frames of
/// the other kinds are passed over.
pub open spec fn on_frame(n: NodeView, f: FrameView) -> NodeStep {
    match f {
        FrameView::Text(text) => match decoded_envelope(text) {
            Ok(envelope) => deliver(n, envelope.peer_id, EventView::Message(envelope.message)),
            Err(_) => unchanged(n),
        },
        FrameView::Close => shut_down(n, StopView::ClosedByPeer),
        _ => unchanged(n),
    }
}

/// The node after an event, and what is to be done.
///
/// A node that has stopped stays as it is, whatever happens.
pub open spec fn node_step(n: NodeView, e: NodeEventView) -> NodeStep {
    if n.stopped is Some {
        unchanged(n)
    } else {
        match e {
            NodeEventView::Frame(f) => on_frame(n, f),
            NodeEventView::StreamFailed(why) => shut_down(n, StopView::StreamError(why)),
            NodeEventView::StreamEnded => shut_down(n, StopView::StreamEnded),
            NodeEventView::SendFailed => shut_down(n, StopView::SendFailed),
            NodeEventView::Peer(peer_id, event) => deliver(n, peer_id, event),
        }
    }
}

/// How a run of the node ends, given why it stopped: well if the channel just
/// ended, and with a description of what went wrong otherwise.
pub open spec fn exit_of(reason: StopView) -> Result<(), Seq<char>> {
    match reason {
        StopView::StreamEnded => Ok(()),
        StopView::ClosedByPeer => Err("Signaling connection closed by peer."@),
        StopView::StreamError(why) => Err("Signaling connection error: "@ + why),
        StopView::SendFailed => Err("Signaling channel closed."@),
    }
}

/// How the run of a node ends; `None` while it runs.
pub open spec fn exit_status_of(n: NodeView) -> Option<Result<(), Seq<char>>> {
    match n.stopped {
        Some(reason) => Some(exit_of(reason)),
        None => None,
    }
}

/// The mathematical value of what [`P2PNode::exit_status`] gives.
pub open spec fn exit_view(r: Option<Result<(), String>>) -> Option<Result<(), Seq<char>>> {
    match r {
        Some(Ok(_)) => Some(Ok(())),
        Some(Err(why)) => Some(Err(why@)),
        None => None,
    }
}

/// The node of a peer-to-peer network: its name, and the sessions with the
/// peers that it is negotiating with or connected to.
#[derive(Debug)]
pub struct P2PNode {
    node_id: String,
    sessions: Vec<PeerSession>,
    stopped: Option<StopReason>,
}

impl View for P2PNode {
    type V = NodeView;

    closed spec fn view(&self) -> NodeView {
        NodeView {
            node_id: self.node_id@,
            sessions: session_views(self.sessions@),
            stopped: stop_view(self.stopped),
        }
    }
}

/// Calls `rand::random` for a `u32`. Nothing is known of the number.
#[verifier::external_body]
fn random_number() -> (n: u32) {
    rand::random::<u32>()
}

/// The place of the oldest session with a peer is the only such place.
proof fn position_is_unique(ss: Seq<SessionView>, peer_id: Seq<char>, i: int)
    requires
        is_position(ss, peer_id, i),
    ensures
        known(ss, peer_id),
        position(ss, peer_id) == i,
{
    let p = position(ss, peer_id);
    assert(is_position(ss, peer_id, p));
    if p < i {
        assert(ss[p].peer_id != peer_id);
    }
    if i < p {
        assert(ss[i].peer_id != peer_id);
    }
}

/// Where a session with a peer stands at place `k`, there is an oldest one.
proof fn oldest_before(ss: Seq<SessionView>, peer_id: Seq<char>, k: int)
    requires
        0 <= k < ss.len(),
        ss[k].peer_id == peer_id,
    ensures
        is_position(ss, peer_id, position(ss, peer_id)),
    decreases k,
{
    if exists|j: int| 0 <= j < k && (#[trigger] ss[j]).peer_id == peer_id {
        let j = choose|j: int| 0 <= j < k && (#[trigger] ss[j]).peer_id == peer_id;
        oldest_before(ss, peer_id, j);
    } else {
        assert(is_position(ss, peer_id, k));
    }
}

/// Where there is a session with a peer, there is an oldest one.
proof fn oldest_exists(ss: Seq<SessionView>, peer_id: Seq<char>)
    requires
        known(ss, peer_id),
    ensures
        is_position(ss, peer_id, position(ss, peer_id)),
{
    let k = choose|k: int| 0 <= k < ss.len() && (#[trigger] ss[k]).peer_id == peer_id;
    oldest_before(ss, peer_id, k);
}

/// Makes of the actions of a session the actions of the node.
fn lift_actions(peer_id: &String, acts: &Vec<SessionAction>) -> (out: Vec<NodeAction>)
    ensures
        node_action_views(out@) == lift(peer_id@, action_views(acts@)),
{
    let mut out: Vec<NodeAction> = Vec::new();
    let mut i: usize = 0;
    assert(node_action_views(out@) =~= lift(peer_id@, action_views(acts@).subrange(0, 0)));
    while i < acts.len()
        invariant
            i <= acts.len(),
            node_action_views(out@) == lift(peer_id@, action_views(acts@).subrange(0, i as int)),
        decreases acts.len() - i,
    {
        let ghost prev = out@;
        let lifted = match &acts[i] {
            SessionAction::Send(message) => {
                let envelope = Envelope { peer_id: peer_id.clone(), message: message.clone() };
                NodeAction::Transmit(encode_envelope(&envelope))
            },
            other => NodeAction::Peer { peer_id: peer_id.clone(), action: other.clone() },
        };
        assert(lifted@ == lift_one(peer_id@, acts@[i as int]@));
        out.push(lifted);
        i += 1;
        proof {
            let all = action_views(acts@);
            assert(all.subrange(0, i as int) =~= all.subrange(0, i - 1).push(all[i - 1]));
            assert(node_action_views(out@) =~= node_action_views(prev).push(
                lift_one(peer_id@, all[i - 1]),
            ));
            assert(node_action_views(out@) =~= lift(peer_id@, all.subrange(0, i as int)));
        }
    }
    assert(action_views(acts@).subrange(0, i as int) =~= action_views(acts@));
    out
}

impl P2PNode {
    /// A node under a name drawn at random, with no session.
    pub fn new() -> (node: Self)
        ensures
            exists|n: u32| node@ == starting(node_name(n)),
    {
        let n = random_number();
        let node = P2PNode::with_number(n);
        assert(node@ == starting(node_name(n)));
        node
    }

    /// The node that drew the number `n`: its name is `node_` and the number
    /// in decimal notation.
    pub fn with_number(n: u32) -> (node: Self)
        ensures
            node@ == starting(node_name(n)),
    {
        let mut node_id = String::from_str("node_");
        let digits = render_decimal(n as u64);
        node_id.append(digits.as_str());
        let node = P2PNode { node_id, sessions: Vec::new(), stopped: None };
        assert(node@.sessions =~= Seq::empty());
        node
    }

    /// The name of the node.
    pub fn node_id(&self) -> (id: &String)
        ensures
            id@ == self@.node_id,
    {
        &self.node_id
    }

    /// Whether the node is still running.
    pub fn is_running(&self) -> (b: bool)
        ensures
            b == (self@.stopped is None),
    {
        self.stopped.is_none()
    }

    /// How many sessions live.
    pub fn session_count(&self) -> (n: usize)
        ensures
            n == self@.sessions.len(),
    {
        self.sessions.len()
    }

    /// The place of the oldest session with a peer.
    fn find(&self, peer_id: &String) -> (r: Option<usize>)
        ensures
            match r {
                Some(i) => is_position(self@.sessions, peer_id@, i as int),
                None => !known(self@.sessions, peer_id@),
            },
    {
        let mut i: usize = 0;
        while i < self.sessions.len()
            invariant
                i <= self.sessions.len(),
                forall|j: int| 0 <= j < i ==> (#[trigger] self@.sessions[j]).peer_id != peer_id@,
            decreases self.sessions.len() - i,
        {
            if *self.sessions[i].peer_id() == *peer_id {
                return Some(i);
            }
            i += 1;
        }
        None
    }

    /// How far the negotiation with a peer has come; `None` where there is no
    /// session with it.
    pub fn phase_of(&self, peer_id: &String) -> (p: Option<Phase>)
        ensures
            p is Some <==> known(self@.sessions, peer_id@),
            p matches Some(phase) ==> phase == self@.sessions[position(
                self@.sessions,
                peer_id@,
            )].phase,
    {
        match self.find(peer_id) {
            Some(i) => {
                proof {
                    position_is_unique(self@.sessions, peer_id@, i as int);
                }
                Some(self.sessions[i].phase())
            },
            None => None,
        }
    }

    /// How the run of the node ends: `None` while it runs, and after that well
    /// if the channel just ended, and with a description of what went wrong
    /// otherwise.
    pub fn exit_status(&self) -> (r: Option<Result<(), String>>)
        ensures
            exit_view(r) == exit_status_of(self@),
    {
        match &self.stopped {
            None => None,
            Some(StopReason::StreamEnded) => Some(Ok(())),
            Some(StopReason::ClosedByPeer) => Some(
                Err(String::from_str("Signaling connection closed by peer.")),
            ),
            Some(StopReason::StreamError(why)) => {
                let mut text = String::from_str("Signaling connection error: ");
                text.append(why.as_str());
                Some(Err(text))
            },
            Some(StopReason::SendFailed) => Some(Err(String::from_str("Signaling channel closed."))),
        }
    }

    /// Tells the session with a peer what happened, and returns what is to be
    /// done.
    pub fn deliver(&mut self, peer_id: String, event: SessionEvent) -> (out: Vec<NodeAction>)
        ensures
            final(self)@ == deliver(old(self)@, peer_id@, event@).state,
            node_action_views(out@) == deliver(old(self)@, peer_id@, event@).actions,
    {
        if self.stopped.is_some() {
            let out: Vec<NodeAction> = Vec::new();
            assert(node_action_views(out@) =~= Seq::empty());
            return out;
        }
        match self.find(&peer_id) {
            Some(i) => {
                proof {
                    position_is_unique(self@.sessions, peer_id@, i as int);
                }
                let mut session = self.sessions.remove(i);
                let acts = session.handle(event);
                let out = lift_actions(&peer_id, &acts);
                if session.is_terminal() {
                    assert(self@.sessions =~= old(self)@.sessions.remove(i as int));
                } else {
                    self.sessions.insert(i, session);
                    assert(self@.sessions =~= old(self)@.sessions.update(i as int, session@));
                }
                out
            },
            None => {
                let creating = match &event {
                    SessionEvent::Initiate => true,
                    SessionEvent::Message(_) => true,
                    _ => false,
                };
                if creating {
                    let mut session = PeerSession::new(peer_id.clone());
                    let acts = session.handle(event);
                    let out = lift_actions(&peer_id, &acts);
                    self.sessions.push(session);
                    assert(self@.sessions =~= old(self)@.sessions.push(session@));
                    out
                } else {
                    let out: Vec<NodeAction> = Vec::new();
                    assert(node_action_views(out@) =~= Seq::empty());
                    out
                }
            },
        }
    }

    /// Takes a message that the channel brought to the session with the peer
    /// that it names, making the session where there is none.
    pub fn handle_signaling_message(&mut self, envelope: Envelope) -> (out: Vec<NodeAction>)
        ensures
            final(self)@ == deliver(
                old(self)@,
                envelope@.peer_id,
                EventView::Message(envelope@.message),
            ).state,
            node_action_views(out@) == deliver(
                old(self)@,
                envelope@.peer_id,
                EventView::Message(envelope@.message),
            ).actions,
    {
        let Envelope { peer_id, message } = envelope;
        self.deliver(peer_id, SessionEvent::Message(message))
    }

    /// Ends every session and stops the node.
    fn stop(&mut self, reason: StopReason) -> (out: Vec<NodeAction>)
        ensures
            final(self)@ == shut_down(old(self)@, reason@).state,
            node_action_views(out@) == shut_down(old(self)@, reason@).actions,
    {
        let ghost all = self@.sessions;
        let mut out: Vec<NodeAction> = Vec::new();
        let mut done: usize = 0;
        assert(all.len() == self.sessions.len());
        assert(all.subrange(0, 0) =~= Seq::empty());
        assert(node_action_views(out@) =~= close_all(all.subrange(0, 0)));
        assert(session_views(self.sessions@) =~= all.subrange(0, all.len() as int));
        while self.sessions.len() > 0
            invariant
                done + self.sessions.len() == all.len(),
                all.len() <= usize::MAX,
                session_views(self.sessions@) == all.subrange(done as int, all.len() as int),
                node_action_views(out@) == close_all(all.subrange(0, done as int)),
                self.node_id@ == old(self).node_id@,
            decreases self.sessions.len(),
        {
            let ghost prev = out@;
            let ghost rest = self.sessions@;
            assert(session_views(rest)[0] == all[done as int]);
            let mut session = self.sessions.remove(0);
            assert(session_views(self.sessions@) =~= session_views(rest).remove(0));
            let peer_id = session.peer_id().clone();
            let acts = session.handle(SessionEvent::Teardown);
            let mut lifted = lift_actions(&peer_id, &acts);
            out.append(&mut lifted);
            done += 1;
            proof {
                assert(all.subrange(0, done as int).drop_last() =~= all.subrange(0, done - 1));
                assert(all.subrange(0, done as int).last() == all[done - 1]);
                assert(node_action_views(out@) =~= node_action_views(prev) + lift(
                    all[done - 1].peer_id,
                    step(all[done - 1], EventView::Teardown).actions,
                ));
                assert(session_views(self.sessions@) =~= all.subrange(
                    done as int,
                    all.len() as int,
                ));
            }
        }
        assert(all.subrange(0, done as int) =~= all);
        self.stopped = Some(reason);
        assert(self@.sessions =~= Seq::empty());
        out
    }

    /// Tells the node what happened, and returns what is to be done, in the
    /// order in which it is to be done.
    pub fn handle_event(&mut self, event: NodeEvent) -> (out: Vec<NodeAction>)
        ensures
            final(self)@ == node_step(old(self)@, event@).state,
            node_action_views(out@) == node_step(old(self)@, event@).actions,
            old(self)@.stopped is Some ==> final(self)@ == old(self)@ && out@.len() == 0,
    {
        if self.stopped.is_some() {
            let out: Vec<NodeAction> = Vec::new();
            assert(node_action_views(out@) =~= Seq::empty());
            return out;
        }
        match event {
            NodeEvent::Frame(Frame::Text(text)) => {
                match decode_envelope(text.as_str()) {
                    Ok(envelope) => self.handle_signaling_message(envelope),
                    Err(_) => {
                        let out: Vec<NodeAction> = Vec::new();
                        assert(node_action_views(out@) =~= Seq::empty());
                        out
                    },
                }
            },
            NodeEvent::Frame(Frame::Close) => self.stop(StopReason::ClosedByPeer),
            NodeEvent::Frame(_) => {
                let out: Vec<NodeAction> = Vec::new();
                assert(node_action_views(out@) =~= Seq::empty());
                out
            },
            NodeEvent::StreamFailed(why) => self.stop(StopReason::StreamError(why)),
            NodeEvent::StreamEnded => self.stop(StopReason::StreamEnded),
            NodeEvent::SendFailed => self.stop(StopReason::SendFailed),
            NodeEvent::Peer(peer_id, e) => self.deliver(peer_id, e),
        }
    }
}

/// Why `url::Url::parse` turns a text down, in the words of its error; `None`
/// for a text that it takes.
pub uninterp spec fn url_fault(text: Seq<char>) -> Option<Seq<char>>;

/// Calls `url::Url::parse`, which takes a text or turns it down with an error
/// that says why, and keeps of the outcome only the words of the error.
#[verifier::external_body]
fn parse_url(text: &str) -> (r: Result<(), String>)
    ensures
        r is Ok <==> url_fault(text@) is None,
        r matches Err(why) ==> url_fault(text@) == Some(why@),
{
    match url::Url::parse(text) {
        Ok(_) => Ok(()),
        Err(e) => Err(e.to_string()),
    }
}

/// What is said of an address of the signaling relay that is no URL.
pub open spec fn url_complaint(fault: Seq<char>) -> Seq<char> {
    "Failed to parse signaling server URL: "@ + fault
}

/// Checks the address of the signaling relay before anything connects to it.
///
/// The address is taken if and only if it is a URL, and turned down otherwise
/// with a text that says why.
pub fn check_signaling_url(server_url: &str) -> (r: Result<(), String>)
    ensures
        r is Ok <==> url_fault(server_url@) is None,
        r matches Err(why) ==> url_fault(server_url@) matches Some(fault) && why@ == url_complaint(
            fault,
        ),
{
    match parse_url(server_url) {
        Ok(()) => Ok(()),
        Err(fault) => {
            let mut why = String::from_str("Failed to parse signaling server URL: ");
            why.append(fault.as_str());
            Err(why)
        },
    }
}

/// Whether no two sessions are with the same peer and none of them is over.
pub open spec fn sound(ss: Seq<SessionView>) -> bool {
    &&& forall|i: int, j: int|
        0 <= i < j < ss.len() ==> (#[trigger] ss[i]).peer_id != (#[trigger] ss[j]).peer_id
    &&& forall|i: int| 0 <= i < ss.len() ==> !is_terminal((#[trigger] ss[i]).phase)
}

/// The node never holds two sessions with one peer, nor a session that is
/// over: what holds of its sessions before an event holds after it.
pub proof fn registry_stays_sound(n: NodeView, e: NodeEventView)
    requires
        sound(n.sessions),
    ensures
        sound(node_step(n, e).state.sessions),
        sound(starting(n.node_id).sessions),
{
    if n.stopped is None {
        match e {
            NodeEventView::Frame(FrameView::Text(text)) => {
                match decoded_envelope(text) {
                    Ok(envelope) => {
                        delivery_keeps_sound(
                            n,
                            envelope.peer_id,
                            EventView::Message(envelope.message),
                        );
                    },
                    Err(_) => {},
                }
            },
            NodeEventView::Peer(peer_id, event) => {
                delivery_keeps_sound(n, peer_id, event);
            },
            _ => {},
        }
    }
}

proof fn delivery_keeps_sound(n: NodeView, peer_id: Seq<char>, e: EventView)
    requires
        sound(n.sessions),
    ensures
        sound(deliver(n, peer_id, e).state.sessions),
{
    let ss = n.sessions;
    let after = deliver(n, peer_id, e).state.sessions;
    if n.stopped is Some {
    } else if known(ss, peer_id) {
        let i = position(ss, peer_id);
        oldest_exists(ss, peer_id);
        let st = step(ss[i], e);
        assert(st.state.peer_id == ss[i].peer_id);
        if is_terminal(st.state.phase) {
            assert forall|a: int, b: int| 0 <= a < b < after.len() implies (#[trigger] after[a]).peer_id
                != (#[trigger] after[b]).peer_id by {
                let a0 = if a < i { a } else { a + 1 };
                let b0 = if b < i { b } else { b + 1 };
                assert(after[a] == ss[a0] && after[b] == ss[b0]);
            }
            assert forall|a: int| 0 <= a < after.len() implies !is_terminal(
                (#[trigger] after[a]).phase,
            ) by {
                let a0 = if a < i { a } else { a + 1 };
                assert(after[a] == ss[a0]);
            }
        } else {
            assert forall|a: int, b: int| 0 <= a < b < after.len() implies (#[trigger] after[a]).peer_id
                != (#[trigger] after[b]).peer_id by {
                assert(after[a].peer_id == ss[a].peer_id && after[b].peer_id == ss[b].peer_id);
            }
            assert forall|a: int| 0 <= a < after.len() implies !is_terminal(
                (#[trigger] after[a]).phase,
            ) by {
                if a != i {
                    assert(after[a] == ss[a]);
                }
            }
        }
    } else if creates(e) {
        let st = step(fresh(peer_id), e);
        assert(!is_terminal(st.state.phase));
        assert forall|a: int, b: int| 0 <= a < b < after.len() implies (#[trigger] after[a]).peer_id
            != (#[trigger] after[b]).peer_id by {
            assert(after[a] == ss[a]);
            if b < ss.len() {
                assert(after[b] == ss[b]);
            }
        }
        assert forall|a: int| 0 <= a < after.len() implies !is_terminal(
            (#[trigger] after[a]).phase,
        ) by {
            if a < ss.len() {
                assert(after[a] == ss[a]);
            }
        }
    }
}

/// One `CloseTransport` for each session, under its peer's name, oldest first.
pub open spec fn closes(ss: Seq<SessionView>) -> Seq<NodeActionView> {
    ss.map_values(
        |s: SessionView|
            NodeActionView::Peer { peer_id: s.peer_id, action: ActionView::CloseTransport },
    )
}

proof fn close_all_closes(ss: Seq<SessionView>)
    requires
        forall|i: int| 0 <= i < ss.len() ==> crate::p2p::session::has_transport((#[trigger] ss[i]).phase),
    ensures
        close_all(ss) == closes(ss),
    decreases ss.len(),
{
    if ss.len() == 0 {
        assert(close_all(ss) =~= closes(ss));
    } else {
        let head = ss.drop_last();
        assert forall|i: int| 0 <= i < head.len() implies crate::p2p::session::has_transport(
            (#[trigger] head[i]).phase,
        ) by {
            assert(head[i] == ss[i]);
        }
        close_all_closes(head);
        let s = ss.last();
        assert(crate::p2p::session::has_transport(s.phase));
        assert(lift(s.peer_id, step(s, EventView::Teardown).actions) =~= seq![
            NodeActionView::Peer { peer_id: s.peer_id, action: ActionView::CloseTransport },
        ]);
        assert(close_all(ss) =~= closes(ss));
    }
}

/// When the channel is gone, however that came about, the node stops, no
/// session is left, and the transport of every session is closed, the oldest
/// session's first. Here every session has a transport, as every session does
/// that has offered or was offered to.
pub proof fn shutdown_closes_every_transport(n: NodeView, e: NodeEventView)
    requires
        n.stopped is None,
        e is StreamEnded || e is SendFailed || e is StreamFailed || e == NodeEventView::Frame(
            FrameView::Close,
        ),
        forall|i: int|
            0 <= i < n.sessions.len() ==> crate::p2p::session::has_transport(
                (#[trigger] n.sessions[i]).phase,
            ),
    ensures
        node_step(n, e).state.stopped is Some,
        node_step(n, e).state.sessions.len() == 0,
        node_step(n, e).actions == closes(n.sessions),
        node_step(n, e).actions.len() == n.sessions.len(),
{
    close_all_closes(n.sessions);
}

/// A node that has stopped stays as it is and asks for nothing, whatever
/// happens.
pub proof fn stopped_node_ignores_everything(n: NodeView, e: NodeEventView)
    requires
        n.stopped is Some,
    ensures
        node_step(n, e) == unchanged(n),
{
}

/// A candidate from a peer with which there is no session opens one: the new
/// session is idle, holds the candidate in its buffer, and asks for nothing
/// yet. The sessions that were there stay as they were.
pub proof fn stray_candidate_opens_a_session(
    n: NodeView,
    peer_id: Seq<char>,
    c: crate::p2p::signaling_types::CandidateView,
)
    requires
        n.stopped is None,
        !known(n.sessions, peer_id),
    ensures
        deliver(n, peer_id, EventView::Message(MessageView::IceCandidate(c))).state == (NodeView {
            sessions: n.sessions.push(
                SessionView { peer_id, phase: Phase::Idle, pending: seq![c], disconnected: false },
            ),
            ..n
        }),
        deliver(n, peer_id, EventView::Message(MessageView::IceCandidate(c))).actions.len() == 0,
{
    let st = step(fresh(peer_id), EventView::Message(MessageView::IceCandidate(c)));
    assert(st.state.pending =~= seq![c]);
    assert(lift(peer_id, st.actions) =~= Seq::empty());
}

/// What goes to one peer leaves the sessions with all others as they were.
pub proof fn delivery_touches_one_session(n: NodeView, peer_id: Seq<char>, e: EventView, i: int)
    requires
        sound(n.sessions),
        0 <= i < n.sessions.len(),
        n.sessions[i].peer_id != peer_id,
    ensures
        exists|j: int|
            0 <= j < deliver(n, peer_id, e).state.sessions.len() && (#[trigger] deliver(
                n,
                peer_id,
                e,
            ).state.sessions[j]) == n.sessions[i],
{
    let ss = n.sessions;
    let after = deliver(n, peer_id, e).state.sessions;
    if n.stopped is Some {
        assert(after[i] == ss[i]);
    } else if known(ss, peer_id) {
        let p = position(ss, peer_id);
        oldest_exists(ss, peer_id);
        let st = step(ss[p], e);
        if is_terminal(st.state.phase) {
            let j = if i < p { i } else { i - 1 };
            assert(after[j] == ss[i]);
        } else {
            assert(after[i] == ss[i]);
        }
    } else if creates(e) {
        assert(after[i] == ss[i]);
    } else {
        assert(after[i] == ss[i]);
    }
}

} // verus!

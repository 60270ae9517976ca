//! What holds of a session over a whole run of events.

use vstd::prelude::*;
use crate::p2p::session::{
    add_all, failure_notice, fresh, is_terminal, remote_applied, stay, step, ActionView, EventView,
    SdpKind, SessionView, Step, TransportState,
};
use crate::p2p::signaling_types::{CandidateView, MessageView};

verus! {

/// The session after a run of events, with everything that was to be done on
/// the way, in order.
pub open spec fn run(s: SessionView, events: Seq<EventView>) -> Step
    decreases events.len(),
{
    if events.len() == 0 {
        stay(s)
    } else {
        let before = run(s, events.drop_last());
        let now = step(before.state, events.last());
        Step { state: now.state, actions: before.actions + now.actions }
    }
}

/// The candidates that the peer sent during a run of events, in order.
pub open spec fn received(events: Seq<EventView>) -> Seq<CandidateView>
    decreases events.len(),
{
    if events.len() == 0 {
        Seq::empty()
    } else {
        let earlier = received(events.drop_last());
        match events.last() {
            EventView::Message(MessageView::IceCandidate(c)) => earlier.push(c),
            _ => earlier,
        }
    }
}

/// The candidates that a list of actions hands to the engine, in order.
pub open spec fn forwarded(actions: Seq<ActionView>) -> Seq<CandidateView>
    decreases actions.len(),
{
    if actions.len() == 0 {
        Seq::empty()
    } else {
        let earlier = forwarded(actions.drop_last());
        match actions.last() {
            ActionView::AddRemoteCandidate(c) => earlier.push(c),
            _ => earlier,
        }
    }
}

/// Whether a list of actions hands a description of the peer to the engine.
pub open spec fn describes(actions: Seq<ActionView>) -> bool {
    exists|j: int| 0 <= j < actions.len() && (#[trigger] actions[j]) is SetRemoteDescription
}

/// Whether every candidate in a list of actions comes after a description of
/// the peer.
pub open spec fn described_first(actions: Seq<ActionView>) -> bool {
    forall|i: int|
        0 <= i < actions.len() && (#[trigger] actions[i]) is AddRemoteCandidate ==> describes(
            actions.subrange(0, i),
        )
}

/// Whether a session buffers only while it may: a session that has the peer's
/// description, or is over, has nothing buffered.
pub open spec fn disciplined(s: SessionView) -> bool {
    remote_applied(s.phase) || is_terminal(s.phase) ==> s.pending.len() == 0
}

proof fn forwarded_of_one(a: ActionView)
    ensures
        forwarded(seq![a]) == match a {
            ActionView::AddRemoteCandidate(c) => seq![c],
            _ => Seq::empty(),
        },
{
    reveal_with_fuel(forwarded, 2);
    assert(seq![a].drop_last() =~= Seq::empty());
    assert(Seq::<CandidateView>::empty().push(seq![a].last()->AddRemoteCandidate_0) =~= seq![
        seq![a].last()->AddRemoteCandidate_0,
    ]);
}

proof fn forwarded_of_both(a: Seq<ActionView>, b: Seq<ActionView>)
    ensures
        forwarded(a + b) == forwarded(a) + forwarded(b),
    decreases b.len(),
{
    if b.len() == 0 {
        assert(a + b =~= a);
        assert(forwarded(a) + forwarded(b) =~= forwarded(a));
    } else {
        assert((a + b).drop_last() =~= a + b.drop_last());
        assert((a + b).last() == b.last());
        forwarded_of_both(a, b.drop_last());
        assert(forwarded(a + b) =~= forwarded(a) + forwarded(b));
    }
}

proof fn forwarded_of_add_all(cs: Seq<CandidateView>)
    ensures
        forwarded(add_all(cs)) == cs,
    decreases cs.len(),
{
    if cs.len() == 0 {
        assert(forwarded(add_all(cs)) =~= cs);
    } else {
        assert(add_all(cs).drop_last() =~= add_all(cs.drop_last()));
        forwarded_of_add_all(cs.drop_last());
        assert(forwarded(add_all(cs)) =~= cs);
    }
}

/// What one event hands to the engine and what it leaves in the buffer is
/// what was in the buffer and what the event brought.
proof fn step_accounts_for_candidates(s: SessionView, e: EventView)
    requires
        disciplined(s),
        !is_terminal(s.phase),
    ensures
        disciplined(step(s, e).state),
        !is_terminal(step(s, e).state.phase) ==> forwarded(step(s, e).actions) + step(
            s,
            e,
        ).state.pending == s.pending + received(seq![e]),
        is_terminal(step(s, e).state.phase) ==> forwarded(step(s, e).actions).len() == 0,
{
    let st = step(s, e);
    reveal_with_fuel(received, 2);
    assert(seq![e].drop_last() =~= Seq::empty());
    let none = Seq::<ActionView>::empty();
    let close = seq![ActionView::CloseTransport];
    forwarded_of_one(ActionView::CloseTransport);
    forwarded_of_one(ActionView::CreateTransport);
    forwarded_of_one(ActionView::CreateLocalDescription(SdpKind::Offer));
    forwarded_of_one(ActionView::CreateLocalDescription(SdpKind::Answer));
    match e {
        EventView::Initiate => {
            let make = ActionView::CreateLocalDescription(SdpKind::Offer);
            assert(seq![ActionView::CreateTransport, make] =~= seq![ActionView::CreateTransport]
                + seq![make]);
            forwarded_of_both(seq![ActionView::CreateTransport], seq![make]);
        },
        EventView::Message(m) => {
            match m {
                MessageView::Offer(sdp) => {
                    if s.phase is Idle {
                        let set = ActionView::SetRemoteDescription(SdpKind::Offer, sdp);
                        let head = seq![ActionView::CreateTransport, set];
                        assert(head =~= seq![ActionView::CreateTransport] + seq![set]);
                        forwarded_of_one(set);
                        forwarded_of_both(seq![ActionView::CreateTransport], seq![set]);
                        forwarded_of_add_all(s.pending);
                        forwarded_of_both(head, add_all(s.pending));
                        forwarded_of_both(
                            head + add_all(s.pending),
                            seq![ActionView::CreateLocalDescription(SdpKind::Answer)],
                        );
                    }
                },
                MessageView::Answer(sdp) => {
                    if s.phase is Offered {
                        let set = ActionView::SetRemoteDescription(SdpKind::Answer, sdp);
                        forwarded_of_one(set);
                        forwarded_of_add_all(s.pending);
                        forwarded_of_both(seq![set], add_all(s.pending));
                    }
                },
                MessageView::IceCandidate(c) => {
                    forwarded_of_one(ActionView::AddRemoteCandidate(c));
                    assert(Seq::<CandidateView>::empty().push(c) =~= seq![c]);
                    assert(s.pending.push(c) =~= s.pending + seq![c]);
                },
                MessageView::Error(_) => {},
            }
        },
        EventView::LocalDescription(sdp) => {
            forwarded_of_one(ActionView::Send(MessageView::Offer(sdp)));
            forwarded_of_one(ActionView::Send(MessageView::Answer(sdp)));
        },
        EventView::Transport(_) => {
            let notice = seq![
                ActionView::Send(MessageView::Error(failure_notice())),
            ];
            forwarded_of_one(notice[0]);
            forwarded_of_both(close, notice);
            forwarded_of_both(none, notice);
        },
        EventView::EngineFailed(_) => {},
        EventView::DisconnectTimeout => {},
        EventView::Teardown => {},
    }
    assert(forwarded(none).len() == 0);
    if !is_terminal(st.state.phase) {
        assert(forwarded(st.actions) + st.state.pending =~= s.pending + received(seq![e]));
    }
}

/// What one event asks of the engine keeps candidates behind a description.
proof fn step_describes_first(s: SessionView, e: EventView)
    requires
        !is_terminal(s.phase),
    ensures
        remote_applied(s.phase) || described_first(step(s, e).actions),
        remote_applied(step(s, e).state.phase) ==> remote_applied(s.phase) || describes(
            step(s, e).actions,
        ),
{
    let acts = step(s, e).actions;
    match e {
        EventView::Message(MessageView::Offer(_)) => {
            if s.phase is Idle {
                assert(acts[1] is SetRemoteDescription);
                assert forall|i: int|
                    0 <= i < acts.len() && (#[trigger] acts[i]) is AddRemoteCandidate implies describes(
                    acts.subrange(0, i),
                ) by {
                    assert(i >= 2);
                    assert(acts.subrange(0, i)[1] is SetRemoteDescription);
                }
            }
        },
        EventView::Message(MessageView::Answer(_)) => {
            if s.phase is Offered {
                assert(acts[0] is SetRemoteDescription);
                assert forall|i: int|
                    0 <= i < acts.len() && (#[trigger] acts[i]) is AddRemoteCandidate implies describes(
                    acts.subrange(0, i),
                ) by {
                    assert(i >= 1);
                    assert(acts.subrange(0, i)[0] is SetRemoteDescription);
                }
            }
        },
        _ => {},
    }
}

/// Candidates stay behind a description when more actions follow.
proof fn described_first_of_both(a: Seq<ActionView>, b: Seq<ActionView>)
    requires
        described_first(a),
        describes(a) || described_first(b),
    ensures
        described_first(a + b),
        describes(a) ==> describes(a + b),
        describes(b) ==> describes(a + b),
{
    let ab = a + b;
    assert forall|i: int|
        0 <= i < ab.len() && (#[trigger] ab[i]) is AddRemoteCandidate implies describes(
        ab.subrange(0, i),
    ) by {
        if i < a.len() {
            assert(ab[i] == a[i]);
            let j = choose|j: int|
                0 <= j < a.subrange(0, i).len() && (#[trigger] a.subrange(
                    0,
                    i,
                )[j]) is SetRemoteDescription;
            assert(ab.subrange(0, i)[j] is SetRemoteDescription);
        } else if describes(a) {
            let j = choose|j: int| 0 <= j < a.len() && (#[trigger] a[j]) is SetRemoteDescription;
            assert(ab.subrange(0, i)[j] is SetRemoteDescription);
        } else {
            let k = i - a.len();
            assert(ab[i] == b[k]);
            let j = choose|j: int|
                0 <= j < b.subrange(0, k).len() && (#[trigger] b.subrange(
                    0,
                    k,
                )[j]) is SetRemoteDescription;
            assert(ab.subrange(0, i)[a.len() + j] is SetRemoteDescription);
        }
    }
    if describes(a) {
        let j = choose|j: int| 0 <= j < a.len() && (#[trigger] a[j]) is SetRemoteDescription;
        assert(ab[j] is SetRemoteDescription);
    }
    if describes(b) {
        let j = choose|j: int| 0 <= j < b.len() && (#[trigger] b[j]) is SetRemoteDescription;
        assert(ab[a.len() + j] is SetRemoteDescription);
    }
}

proof fn received_grows(events: Seq<EventView>)
    requires
        events.len() > 0,
    ensures
        received(events) == received(events.drop_last()) + received(seq![events.last()]),
{
    reveal_with_fuel(received, 2);
    let e = events.last();
    assert(seq![e].drop_last() =~= Seq::empty());
    assert(seq![e].last() == e);
    match e {
        EventView::Message(MessageView::IceCandidate(c)) => {
            assert(Seq::<CandidateView>::empty().push(c) =~= seq![c]);
            assert(received(events.drop_last()).push(c) =~= received(events.drop_last()) + seq![c]);
        },
        _ => {
            assert(received(events.drop_last()) + Seq::<CandidateView>::empty() =~= received(
                events.drop_last(),
            ));
        },
    }
}

/// Candidates reach the engine in the order in which the peer sent them, and
/// none before a description of the peer.
///
/// Take any run of events from a fresh session. The candidates handed to the
/// engine are the first of those received, in the same order. While the session
/// lives, the others are all in its buffer, in order too, so none is lost and
/// none is handed over twice. Every candidate handed over comes after a
/// description of the peer in the list of actions. And the session buffers
/// only while it has no such description.
pub proof fn candidates_keep_their_order(peer_id: Seq<char>, events: Seq<EventView>)
    ensures
        forwarded(run(fresh(peer_id), events).actions).is_prefix_of(received(events)),
        !is_terminal(run(fresh(peer_id), events).state.phase) ==> forwarded(
            run(fresh(peer_id), events).actions,
        ) + run(fresh(peer_id), events).state.pending == received(events),
        described_first(run(fresh(peer_id), events).actions),
        remote_applied(run(fresh(peer_id), events).state.phase) ==> describes(
            run(fresh(peer_id), events).actions,
        ),
        disciplined(run(fresh(peer_id), events).state),
    decreases events.len(),
{
    let r = run(fresh(peer_id), events);
    if events.len() == 0 {
        assert(forwarded(r.actions) + r.state.pending =~= received(events));
        assert(forwarded(r.actions) =~= received(events).subrange(0, 0));
    } else {
        let earlier = events.drop_last();
        let e = events.last();
        let before = run(fresh(peer_id), earlier);
        let now = step(before.state, e);
        candidates_keep_their_order(peer_id, earlier);
        received_grows(events);
        forwarded_of_both(before.actions, now.actions);
        let sent = forwarded(before.actions);
        assert(sent =~= received(earlier).subrange(0, sent.len() as int));
        if is_terminal(before.state.phase) {
            assert(before.actions + now.actions =~= before.actions);
            assert(forwarded(now.actions) =~= Seq::empty());
        } else {
            step_accounts_for_candidates(before.state, e);
            step_describes_first(before.state, e);
            described_first_of_both(before.actions, now.actions);
            if !is_terminal(now.state.phase) {
                assert(forwarded(r.actions) + r.state.pending =~= received(events));
            } else {
                assert(forwarded(now.actions) =~= Seq::empty());
            }
        }
        assert(forwarded(r.actions) =~= received(events).subrange(
            0,
            forwarded(r.actions).len() as int,
        ));
    }
}

/// A session that is over stays as it is and asks for nothing, whatever
/// happens and however often.
pub proof fn terminal_sessions_ignore_everything(s: SessionView, events: Seq<EventView>)
    requires
        is_terminal(s.phase),
    ensures
        run(s, events) == stay(s),
        forall|e: EventView| step(s, e) == stay(s),
    decreases events.len(),
{
    if events.len() > 0 {
        terminal_sessions_ignore_everything(s, events.drop_last());
        assert(Seq::<ActionView>::empty() + Seq::<ActionView>::empty() =~= Seq::<
            ActionView,
        >::empty());
    }
}

/// Of two answers, the first is taken and the second discarded: a session that
/// has offered goes on to negotiating with the first answer's description, and
/// a further answer changes nothing and asks for nothing.
pub proof fn second_answer_is_discarded(s: SessionView, first: Seq<char>, second: Seq<char>)
    requires
        s.phase is Offered,
    ensures
        step(s, EventView::Message(MessageView::Answer(first))).state.phase is Negotiating,
        step(s, EventView::Message(MessageView::Answer(first))).actions == seq![
            ActionView::SetRemoteDescription(SdpKind::Answer, first),
        ] + add_all(s.pending),
        step(
            step(s, EventView::Message(MessageView::Answer(first))).state,
            EventView::Message(MessageView::Answer(second)),
        ) == stay(step(s, EventView::Message(MessageView::Answer(first))).state),
{
}

/// An answer is taken by a session that has offered and by no other.
pub proof fn answers_need_an_offer(s: SessionView, sdp: Seq<char>)
    requires
        !(s.phase is Offered),
    ensures
        step(s, EventView::Message(MessageView::Answer(sdp))) == stay(s),
{
}

/// The way of the side that starts: asked to connect, a fresh session has the
/// transport created and a local description made; it sends that description
/// as its offer; the peer's answer takes it to negotiating; the engine's
/// report that the connection stands takes it to connected.
pub proof fn initiator_reaches_connected(peer_id: Seq<char>, offer: Seq<char>, answer: Seq<char>)
    ensures
        ({
            let s1 = step(fresh(peer_id), EventView::Initiate);
            let s2 = step(s1.state, EventView::LocalDescription(offer));
            let s3 = step(s2.state, EventView::Message(MessageView::Answer(answer)));
            let s4 = step(s3.state, EventView::Transport(TransportState::Connected));
            &&& s1.state.phase is Offered
            &&& s1.actions == seq![
                ActionView::CreateTransport,
                ActionView::CreateLocalDescription(SdpKind::Offer),
            ]
            &&& s2.state.phase is Offered
            &&& s2.actions == seq![ActionView::Send(MessageView::Offer(offer))]
            &&& s3.state.phase is Negotiating
            &&& s3.actions == seq![ActionView::SetRemoteDescription(SdpKind::Answer, answer)]
            &&& s4.state.phase is Connected
            &&& s4.actions.len() == 0
        }),
{
    let s2 = step(
        step(fresh(peer_id), EventView::Initiate).state,
        EventView::LocalDescription(offer),
    );
    assert(add_all(s2.state.pending) =~= Seq::empty());
    assert(seq![ActionView::SetRemoteDescription(SdpKind::Answer, answer)] + Seq::<
        ActionView,
    >::empty() =~= seq![ActionView::SetRemoteDescription(SdpKind::Answer, answer)]);
}

} // verus!

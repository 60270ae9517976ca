//! The negotiation messages that travel over the signaling channel.

use vstd::prelude::*;

verus! {

/// A session description, as carried by an offer or an answer.
#[derive(Debug)]
pub struct SdpData {
    pub sdp: String,
}

/// A network-reachability candidate discovered by a peer.
#[derive(Debug)]
pub struct IceCandidateData {
    pub candidate: String,
    pub sdp_mid: Option<String>,
    pub sdp_mline_index: Option<u16>,
}

/// Everything that can be sent or received over the signaling channel.
#[derive(Debug)]
pub enum SignalingMessage {
    Offer(SdpData),
    Answer(SdpData),
    IceCandidate(IceCandidateData),
    Error(String),
}

/// The mathematical value of an [`IceCandidateData`].
pub struct CandidateView {
    pub candidate: Seq<char>,
    pub sdp_mid: Option<Seq<char>>,
    pub sdp_mline_index: Option<u16>,
}

/// The mathematical value of a [`SignalingMessage`].
pub enum MessageView {
    Offer(Seq<char>),
    Answer(Seq<char>),
    IceCandidate(CandidateView),
    Error(Seq<char>),
}

/// The characters of an optional string.
pub open spec fn text_of(s: Option<String>) -> Option<Seq<char>> {
    match s {
        Some(t) => Some(t@),
        None => None,
    }
}

impl View for SdpData {
    type V = Seq<char>;

    open spec fn view(&self) -> Seq<char> {
        self.sdp@
    }
}

impl View for IceCandidateData {
    type V = CandidateView;

    open spec fn view(&self) -> CandidateView {
        CandidateView {
            candidate: self.candidate@,
            sdp_mid: text_of(self.sdp_mid),
            sdp_mline_index: self.sdp_mline_index,
        }
    }
}

impl View for SignalingMessage {
    type V = MessageView;

    open spec fn view(&self) -> MessageView {
        match *self {
            SignalingMessage::Offer(d) => MessageView::Offer(d@),
            SignalingMessage::Answer(d) => MessageView::Answer(d@),
            SignalingMessage::IceCandidate(c) => MessageView::IceCandidate(c@),
            SignalingMessage::Error(m) => MessageView::Error(m@),
        }
    }
}

/// Copies an optional string.
pub fn clone_text(s: &Option<String>) -> (r: Option<String>)
    ensures
        text_of(r) == text_of(*s),
{
    match s {
        Some(t) => Some(t.clone()),
        None => None,
    }
}

impl Clone for SdpData {
    fn clone(&self) -> (r: Self)
        ensures
            r@ == self@,
    {
        SdpData { sdp: self.sdp.clone() }
    }
}

impl Clone for IceCandidateData {
    fn clone(&self) -> (r: Self)
        ensures
            r@ == self@,
    {
        IceCandidateData {
            candidate: self.candidate.clone(),
            sdp_mid: clone_text(&self.sdp_mid),
            sdp_mline_index: self.sdp_mline_index,
        }
    }
}

impl Clone for SignalingMessage {
    fn clone(&self) -> (r: Self)
        ensures
            r@ == self@,
    {
        match self {
            SignalingMessage::Offer(d) => SignalingMessage::Offer(d.clone()),
            SignalingMessage::Answer(d) => SignalingMessage::Answer(d.clone()),
            SignalingMessage::IceCandidate(c) => SignalingMessage::IceCandidate(c.clone()),
            SignalingMessage::Error(m) => SignalingMessage::Error(m.clone()),
        }
    }
}

/// Whether two optional strings hold the same characters.
pub fn same_text(a: &Option<String>, b: &Option<String>) -> (r: bool)
    ensures
        r == (text_of(*a) == text_of(*b)),
{
    match (a, b) {
        (Some(x), Some(y)) => *x == *y,
        (None, None) => true,
        _ => false,
    }
}

impl PartialEq for SdpData {
    fn eq(&self, other: &Self) -> (r: bool) {
        self.sdp == other.sdp
    }
}

impl vstd::std_specs::cmp::PartialEqSpecImpl for SdpData {
    open spec fn obeys_eq_spec() -> bool {
        true
    }

    open spec fn eq_spec(&self, other: &Self) -> bool {
        self@ == other@
    }
}

impl PartialEq for IceCandidateData {
    fn eq(&self, other: &Self) -> (r: bool) {
        self.candidate == other.candidate && same_text(&self.sdp_mid, &other.sdp_mid)
            && self.sdp_mline_index == other.sdp_mline_index
    }
}

impl vstd::std_specs::cmp::PartialEqSpecImpl for IceCandidateData {
    open spec fn obeys_eq_spec() -> bool {
        true
    }

    open spec fn eq_spec(&self, other: &Self) -> bool {
        self@ == other@
    }
}

impl PartialEq for SignalingMessage {
    fn eq(&self, other: &Self) -> (r: bool) {
        match (self, other) {
            (SignalingMessage::Offer(a), SignalingMessage::Offer(b)) => *a == *b,
            (SignalingMessage::Answer(a), SignalingMessage::Answer(b)) => *a == *b,
            (SignalingMessage::IceCandidate(a), SignalingMessage::IceCandidate(b)) => *a == *b,
            (SignalingMessage::Error(a), SignalingMessage::Error(b)) => *a == *b,
            _ => false,
        }
    }
}

impl vstd::std_specs::cmp::PartialEqSpecImpl for SignalingMessage {
    open spec fn obeys_eq_spec() -> bool {
        true
    }

    open spec fn eq_spec(&self, other: &Self) -> bool {
        self@ == other@
    }
}

} // verus!

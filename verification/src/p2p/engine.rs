//! Where the messages of this crate meet the types of the transport engine.

use vstd::prelude::*;
use webrtc::ice_transport::ice_candidate::RTCIceCandidateInit;
use webrtc::peer_connection::peer_connection_state::RTCPeerConnectionState;
use crate::p2p::session::TransportState;
use crate::p2p::signaling_types::IceCandidateData;

verus! {

/// The engine's `RTCIceCandidateInit`, with its four public fields: the
/// candidate, the two that say which media line it belongs to, and the
/// username fragment.
#[verifier::external_type_specification]
pub struct ExRTCIceCandidateInit(RTCIceCandidateInit);

/// The engine's `RTCPeerConnectionState`, with its seven variants.
#[verifier::external_type_specification]
pub struct ExRTCPeerConnectionState(RTCPeerConnectionState);

impl From<RTCIceCandidateInit> for IceCandidateData {
    /// The candidate as it goes over the signaling channel: the engine's
    /// candidate without its username fragment.
    fn from(candidate_init: RTCIceCandidateInit) -> (data: Self) {
        IceCandidateData {
            candidate: candidate_init.candidate,
            sdp_mid: candidate_init.sdp_mid,
            sdp_mline_index: candidate_init.sdp_mline_index,
        }
    }
}

impl vstd::std_specs::convert::FromSpecImpl<RTCIceCandidateInit> for IceCandidateData {
    open spec fn obeys_from_spec() -> bool {
        true
    }

    open spec fn from_spec(candidate_init: RTCIceCandidateInit) -> Self {
        IceCandidateData {
            candidate: candidate_init.candidate,
            sdp_mid: candidate_init.sdp_mid,
            sdp_mline_index: candidate_init.sdp_mline_index,
        }
    }
}

impl TryFrom<IceCandidateData> for RTCIceCandidateInit {
    type Error = String;

    /// The candidate as the engine takes it: what came over the signaling
    /// channel, with no username fragment. This never fails.
    fn try_from(data: IceCandidateData) -> (r: Result<Self, String>) {
        Ok(
            RTCIceCandidateInit {
                candidate: data.candidate,
                sdp_mid: data.sdp_mid,
                sdp_mline_index: data.sdp_mline_index,
                username_fragment: None,
            },
        )
    }
}

impl vstd::std_specs::convert::TryFromSpecImpl<IceCandidateData> for RTCIceCandidateInit {
    open spec fn obeys_try_from_spec() -> bool {
        true
    }

    open spec fn try_from_spec(data: IceCandidateData) -> Result<Self, String> {
        Ok(
            RTCIceCandidateInit {
                candidate: data.candidate,
                sdp_mid: data.sdp_mid,
                sdp_mline_index: data.sdp_mline_index,
                username_fragment: None,
            },
        )
    }
}

/// What the engine's report of a connection's state means to a session; `None`
/// for the state that the engine gives to a connection it knows nothing of.
pub fn transport_state(state: RTCPeerConnectionState) -> (r: Option<TransportState>)
    ensures
        r == match state {
            RTCPeerConnectionState::Unspecified => None,
            RTCPeerConnectionState::New => Some(TransportState::New),
            RTCPeerConnectionState::Connecting => Some(TransportState::Connecting),
            RTCPeerConnectionState::Connected => Some(TransportState::Connected),
            RTCPeerConnectionState::Disconnected => Some(TransportState::Disconnected),
            RTCPeerConnectionState::Failed => Some(TransportState::Failed),
            RTCPeerConnectionState::Closed => Some(TransportState::Closed),
        },
{
    match state {
        RTCPeerConnectionState::Unspecified => None,
        RTCPeerConnectionState::New => Some(TransportState::New),
        RTCPeerConnectionState::Connecting => Some(TransportState::Connecting),
        RTCPeerConnectionState::Connected => Some(TransportState::Connected),
        RTCPeerConnectionState::Disconnected => Some(TransportState::Disconnected),
        RTCPeerConnectionState::Failed => Some(TransportState::Failed),
        RTCPeerConnectionState::Closed => Some(TransportState::Closed),
    }
}

} // verus!

use veritynet::p2p::signaling_types::{IceCandidateData, SdpData, SignalingMessage};
use veritynet::p2p::wire::{
    decode, decode_envelope, encode, encode_envelope, envelope_from_fields, message_from_fields,
    DecodeError, Envelope, Fields, Member,
};

fn offer(sdp: &str) -> SignalingMessage {
    SignalingMessage::Offer(SdpData { sdp: sdp.to_string() })
}

fn answer(sdp: &str) -> SignalingMessage {
    SignalingMessage::Answer(SdpData { sdp: sdp.to_string() })
}

fn candidate(c: &str, mid: Option<&str>, index: Option<u16>) -> SignalingMessage {
    SignalingMessage::IceCandidate(IceCandidateData {
        candidate: c.to_string(),
        sdp_mid: mid.map(|m| m.to_string()),
        sdp_mline_index: index,
    })
}

fn blank() -> Fields {
    Fields {
        tag: Member::Absent,
        sdp: Member::Absent,
        candidate: Member::Absent,
        sdp_mid: Member::Absent,
        sdp_mline_index: Member::Absent,
        message: Member::Absent,
        peer_id: Member::Absent,
    }
}

fn text(t: &str) -> Member {
    Member::Text(t.to_string())
}

#[test]
fn encode_offer() {
    assert_eq!(encode(&offer("v=0")), r#"{"type":"Offer","sdp":"v=0"}"#);
}

#[test]
fn encode_answer() {
    assert_eq!(encode(&answer("v=0")), r#"{"type":"Answer","sdp":"v=0"}"#);
}

#[test]
fn encode_candidate_with_everything() {
    assert_eq!(
        encode(&candidate("candidate:1 1 UDP 1 10.0.0.1 5000 typ host", Some("0"), Some(3))),
        r#"{"type":"IceCandidate","candidate":"candidate:1 1 UDP 1 10.0.0.1 5000 typ host","sdpMid":"0","sdpMLineIndex":3}"#
    );
}

#[test]
fn encode_candidate_with_nulls() {
    assert_eq!(
        encode(&candidate("c", None, None)),
        r#"{"type":"IceCandidate","candidate":"c","sdpMid":null,"sdpMLineIndex":null}"#
    );
}

#[test]
fn encode_candidate_with_the_largest_index() {
    assert_eq!(
        encode(&candidate("c", None, Some(65535))),
        r#"{"type":"IceCandidate","candidate":"c","sdpMid":null,"sdpMLineIndex":65535}"#
    );
    assert_eq!(
        encode(&candidate("c", Some(""), Some(0))),
        r#"{"type":"IceCandidate","candidate":"c","sdpMid":"","sdpMLineIndex":0}"#
    );
}

#[test]
fn encode_error() {
    assert_eq!(
        encode(&SignalingMessage::Error("boom".to_string())),
        r#"{"type":"Error","message":"boom"}"#
    );
}

#[test]
fn encode_escapes_what_json_must_escape() {
    assert_eq!(
        encode(&offer("v=0\r\na=\"x\"\\")),
        "{\"type\":\"Offer\",\"sdp\":\"v=0\\r\\na=\\\"x\\\"\\\\\"}"
    );
    assert_eq!(encode(&offer("\u{1}\t")), "{\"type\":\"Offer\",\"sdp\":\"\\u0001\\t\"}");
    assert_eq!(encode(&offer("é☃")), "{\"type\":\"Offer\",\"sdp\":\"é☃\"}");
}

#[test]
fn encode_agrees_with_the_json_writer() {
    let sdp = "v=0\r\no=- 1 2 IN IP4 127.0.0.1\r\n\"quoted\" \\ /";
    let text = encode(&offer(sdp));
    let value: serde_json::Value = serde_json::from_str(&text).unwrap();
    assert_eq!(value.get("type").and_then(|v| v.as_str()), Some("Offer"));
    assert_eq!(value.get("sdp").and_then(|v| v.as_str()), Some(sdp));
    assert_eq!(value.as_object().map(|o| o.len()), Some(2));
}

#[test]
fn decode_offer() {
    assert_eq!(decode(r#"{"type":"Offer","sdp":"v=0..."}"#), Ok(offer("v=0...")));
}

#[test]
fn decode_answer() {
    assert_eq!(decode(r#"{"type":"Answer","sdp":"v=0..."}"#), Ok(answer("v=0...")));
}

#[test]
fn decode_candidate() {
    assert_eq!(
        decode(r#"{"type":"IceCandidate","candidate":"c1","sdpMid":"audio","sdpMLineIndex":1}"#),
        Ok(candidate("c1", Some("audio"), Some(1)))
    );
}

#[test]
fn decode_candidate_with_nulls_or_nothing() {
    assert_eq!(
        decode(r#"{"type":"IceCandidate","candidate":"c1","sdpMid":null,"sdpMLineIndex":null}"#),
        Ok(candidate("c1", None, None))
    );
    assert_eq!(decode(r#"{"type":"IceCandidate","candidate":"c1"}"#), Ok(candidate("c1", None, None)));
}

#[test]
fn decode_error_message() {
    assert_eq!(
        decode(r#"{"type":"Error","message":"no such peer"}"#),
        Ok(SignalingMessage::Error("no such peer".to_string()))
    );
}

#[test]
fn decode_takes_any_order_white_space_and_escapes() {
    assert_eq!(
        decode(" {\n \"sdp\" : \"v=0\\r\\n\\u00e9\" ,\t\"type\" : \"Offer\" } "),
        Ok(offer("v=0\r\né"))
    );
}

#[test]
fn decode_passes_over_members_it_does_not_know() {
    assert_eq!(
        decode(r#"{"type":"Answer","sdp":"x","extra":[1,{"a":null}],"candidate":7}"#),
        Ok(answer("x"))
    );
}

#[test]
fn decode_rejects_what_is_not_json() {
    assert_eq!(decode(""), Err(DecodeError::MalformedMessage));
    assert_eq!(decode("hello"), Err(DecodeError::MalformedMessage));
    assert_eq!(decode(r#"{"type":"Offer","sdp":"x""#), Err(DecodeError::MalformedMessage));
    assert_eq!(decode(r#"{"type":"Offer","sdp":"x"} trailing"#), Err(DecodeError::MalformedMessage));
}

#[test]
fn decode_rejects_what_is_no_object() {
    assert_eq!(decode("null"), Err(DecodeError::MalformedMessage));
    assert_eq!(decode("42"), Err(DecodeError::MalformedMessage));
    assert_eq!(decode(r#""Offer""#), Err(DecodeError::MalformedMessage));
    assert_eq!(decode(r#"["Offer","x"]"#), Err(DecodeError::MalformedMessage));
}

#[test]
fn decode_rejects_a_missing_or_unknown_type() {
    assert_eq!(decode("{}"), Err(DecodeError::MalformedMessage));
    assert_eq!(decode(r#"{"sdp":"x"}"#), Err(DecodeError::MalformedMessage));
    assert_eq!(decode(r#"{"type":"Hello","sdp":"x"}"#), Err(DecodeError::MalformedMessage));
    assert_eq!(decode(r#"{"type":"offer","sdp":"x"}"#), Err(DecodeError::MalformedMessage));
    assert_eq!(decode(r#"{"type":"","sdp":"x"}"#), Err(DecodeError::MalformedMessage));
    assert_eq!(decode(r#"{"type":null,"sdp":"x"}"#), Err(DecodeError::MalformedMessage));
    assert_eq!(decode(r#"{"type":1,"sdp":"x"}"#), Err(DecodeError::MalformedMessage));
    assert_eq!(decode(r#"{"Type":"Offer","sdp":"x"}"#), Err(DecodeError::MalformedMessage));
}

#[test]
fn decode_rejects_missing_members() {
    assert_eq!(decode(r#"{"type":"Offer"}"#), Err(DecodeError::MalformedMessage));
    assert_eq!(decode(r#"{"type":"Answer","message":"x"}"#), Err(DecodeError::MalformedMessage));
    assert_eq!(decode(r#"{"type":"IceCandidate","sdpMid":"0"}"#), Err(DecodeError::MalformedMessage));
    assert_eq!(decode(r#"{"type":"Error","sdp":"x"}"#), Err(DecodeError::MalformedMessage));
}

#[test]
fn decode_rejects_members_of_the_wrong_kind() {
    assert_eq!(decode(r#"{"type":"Offer","sdp":null}"#), Err(DecodeError::MalformedMessage));
    assert_eq!(decode(r#"{"type":"Offer","sdp":5}"#), Err(DecodeError::MalformedMessage));
    assert_eq!(decode(r#"{"type":"Error","message":["x"]}"#), Err(DecodeError::MalformedMessage));
    assert_eq!(
        decode(r#"{"type":"IceCandidate","candidate":"c","sdpMid":3}"#),
        Err(DecodeError::MalformedMessage)
    );
    assert_eq!(
        decode(r#"{"type":"IceCandidate","candidate":"c","sdpMLineIndex":"3"}"#),
        Err(DecodeError::MalformedMessage)
    );
    assert_eq!(
        decode(r#"{"type":"IceCandidate","candidate":"c","sdpMLineIndex":true}"#),
        Err(DecodeError::MalformedMessage)
    );
}

#[test]
fn decode_holds_the_index_to_sixteen_bits() {
    assert_eq!(
        decode(r#"{"type":"IceCandidate","candidate":"c","sdpMLineIndex":65535}"#),
        Ok(candidate("c", None, Some(65535)))
    );
    assert_eq!(
        decode(r#"{"type":"IceCandidate","candidate":"c","sdpMLineIndex":65536}"#),
        Err(DecodeError::MalformedMessage)
    );
    assert_eq!(
        decode(r#"{"type":"IceCandidate","candidate":"c","sdpMLineIndex":-1}"#),
        Err(DecodeError::MalformedMessage)
    );
    assert_eq!(
        decode(r#"{"type":"IceCandidate","candidate":"c","sdpMLineIndex":1.5}"#),
        Err(DecodeError::MalformedMessage)
    );
    assert_eq!(
        decode(r#"{"type":"IceCandidate","candidate":"c","sdpMLineIndex":18446744073709551616}"#),
        Err(DecodeError::MalformedMessage)
    );
}

fn round_trip(m: SignalingMessage) {
    assert_eq!(decode(&encode(&m)), Ok(m));
}

#[test]
fn decode_undoes_encode() {
    round_trip(offer("v=0..."));
    round_trip(offer(""));
    round_trip(answer("v=0\r\ns=-\r\n"));
    round_trip(answer("quotes \" and \\ and \u{0} and \u{7f} and \u{2028} and 🦀"));
    round_trip(candidate("candidate:842163049 1 udp 1677729535 1.2.3.4 1 typ srflx", Some("0"), Some(0)));
    round_trip(candidate("", None, None));
    round_trip(candidate("c", Some(""), None));
    round_trip(candidate("c", None, Some(65535)));
    round_trip(candidate("c", Some("null"), Some(1)));
    round_trip(SignalingMessage::Error(String::new()));
    round_trip(SignalingMessage::Error("{\"type\":\"Offer\"}".to_string()));
}

#[test]
fn fields_of_an_offer() {
    let fields = Fields { tag: text("Offer"), sdp: text("v=0"), ..blank() };
    assert_eq!(message_from_fields(fields), Ok(offer("v=0")));
}

#[test]
fn fields_of_a_candidate() {
    let fields = Fields {
        tag: text("IceCandidate"),
        candidate: text("c"),
        sdp_mid: Member::Null,
        sdp_mline_index: Member::Number(Some(2)),
        sdp: Member::Other,
        ..blank()
    };
    assert_eq!(message_from_fields(fields), Ok(candidate("c", None, Some(2))));
}

#[test]
fn fields_of_an_error() {
    let fields = Fields { tag: text("Error"), message: text("m"), ..blank() };
    assert_eq!(message_from_fields(fields), Ok(SignalingMessage::Error("m".to_string())));
}

#[test]
fn fields_with_no_known_type() {
    assert_eq!(message_from_fields(blank()), Err(DecodeError::MalformedMessage));
    for tag in [Member::Null, Member::Other, Member::Number(Some(1)), text("Bye"), text("Offer ")] {
        let fields = Fields { tag, sdp: text("x"), candidate: text("c"), message: text("m"), ..blank() };
        assert_eq!(message_from_fields(fields), Err(DecodeError::MalformedMessage));
    }
}

#[test]
fn fields_with_a_member_of_the_wrong_kind() {
    for sdp in [Member::Absent, Member::Null, Member::Other, Member::Number(Some(0))] {
        let fields = Fields { tag: text("Answer"), sdp, ..blank() };
        assert_eq!(message_from_fields(fields), Err(DecodeError::MalformedMessage));
    }
    let fields = Fields {
        tag: text("IceCandidate"),
        candidate: text("c"),
        sdp_mline_index: Member::Number(Some(65536)),
        ..blank()
    };
    assert_eq!(message_from_fields(fields), Err(DecodeError::MalformedMessage));
    let fields = Fields {
        tag: text("IceCandidate"),
        candidate: text("c"),
        sdp_mid: Member::Number(Some(1)),
        ..blank()
    };
    assert_eq!(message_from_fields(fields), Err(DecodeError::MalformedMessage));
    for index in [Member::Number(None), Member::Other, text("1")] {
        let fields = Fields {
            tag: text("IceCandidate"),
            candidate: text("c"),
            sdp_mline_index: index,
            ..blank()
        };
        assert_eq!(message_from_fields(fields), Err(DecodeError::MalformedMessage));
    }
}

#[test]
fn encode_envelope_adds_the_peer() {
    let envelope = Envelope { peer_id: "bob".to_string(), message: offer("v=0") };
    assert_eq!(encode_envelope(&envelope), r#"{"type":"Offer","sdp":"v=0","peerId":"bob"}"#);
    let envelope = Envelope { peer_id: "a\"b".to_string(), message: candidate("c", None, Some(1)) };
    assert_eq!(
        encode_envelope(&envelope),
        r#"{"type":"IceCandidate","candidate":"c","sdpMid":null,"sdpMLineIndex":1,"peerId":"a\"b"}"#
    );
}

#[test]
fn decode_envelope_needs_the_peer() {
    assert_eq!(
        decode_envelope(r#"{"peerId":"bob","type":"Answer","sdp":"x"}"#),
        Ok(Envelope { peer_id: "bob".to_string(), message: answer("x") })
    );
    assert_eq!(decode_envelope(r#"{"type":"Answer","sdp":"x"}"#), Err(DecodeError::MalformedMessage));
    assert_eq!(
        decode_envelope(r#"{"peerId":null,"type":"Answer","sdp":"x"}"#),
        Err(DecodeError::MalformedMessage)
    );
    assert_eq!(
        decode_envelope(r#"{"peerId":7,"type":"Answer","sdp":"x"}"#),
        Err(DecodeError::MalformedMessage)
    );
    assert_eq!(decode_envelope(r#"{"peerId":"bob","type":"Nope"}"#), Err(DecodeError::MalformedMessage));
    assert_eq!(decode_envelope("]"), Err(DecodeError::MalformedMessage));
}

#[test]
fn decode_envelope_undoes_encode_envelope() {
    for message in [
        offer("v=0"),
        answer("a"),
        candidate("c", Some("m"), Some(9)),
        candidate("c", None, None),
        SignalingMessage::Error("e".to_string()),
    ] {
        for peer in ["", "bob", "node_4294967295", "\"}{"] {
            let envelope = Envelope { peer_id: peer.to_string(), message: message.clone() };
            assert_eq!(decode_envelope(&encode_envelope(&envelope)), Ok(envelope));
        }
    }
}

#[test]
fn envelope_fields() {
    let fields = Fields { tag: text("Offer"), sdp: text("v=0"), peer_id: text("bob"), ..blank() };
    assert_eq!(
        envelope_from_fields(fields),
        Ok(Envelope { peer_id: "bob".to_string(), message: offer("v=0") })
    );
    let fields = Fields { tag: text("Offer"), sdp: text("v=0"), ..blank() };
    assert_eq!(envelope_from_fields(fields), Err(DecodeError::MalformedMessage));
    let fields = Fields { tag: text("Offer"), peer_id: text("bob"), ..blank() };
    assert_eq!(envelope_from_fields(fields), Err(DecodeError::MalformedMessage));
}

#[test]
fn a_bare_message_may_name_a_peer() {
    assert_eq!(decode(r#"{"type":"Offer","sdp":"x","peerId":"bob"}"#), Ok(offer("x")));
}

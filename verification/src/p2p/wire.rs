//! The wire form of negotiation messages: one JSON object per text frame.
//!
//! JSON itself is read and written by `serde_json`. This module decides which
//! members a frame has and what each of them must hold.

use vstd::prelude::*;
use vstd::string::StringExecFns;
use crate::p2p::decimal::{decimal, render_decimal};
use crate::p2p::signaling_types::{
    text_of, CandidateView, IceCandidateData, MessageView, SdpData, SignalingMessage,
};

verus! {

/// `serde_json::Value`, a parsed JSON document. Nothing is known of what is
/// inside one but through [`members`].
#[verifier::external_type_specification]
#[verifier::external_body]
pub struct ExJsonValue(serde_json::Value);

/// `serde_json::Error`, of which nothing is read.
#[verifier::external_type_specification]
#[verifier::external_body]
pub struct ExJsonError(serde_json::Error);

/// Why a frame could not be read as a negotiation message.
#[derive(Debug, Clone, Copy, PartialEq, Eq, Structural)]
pub enum DecodeError {
    /// The frame is not JSON, its `type` is not a known one, or a member that
    /// the type needs is missing or holds the wrong kind of value.
    MalformedMessage,
}

/// What a JSON object holds under one key, as far as this protocol cares.
#[derive(Debug)]
pub enum Member {
    /// No such member.
    Absent,
    /// The member is `null`.
    Null,
    /// The member is a string.
    Text(String),
    /// The member is a number; with its value, if it is an integer from 0 to
    /// 2^64 - 1.
    Number(Option<u64>),
    /// The member is anything else: a boolean, an array or an object.
    Other,
}

/// The mathematical value of a [`Member`] that is there.
pub enum MemberView {
    Null,
    Text(Seq<char>),
    Number(Option<u64>),
    Other,
}

impl Member {
    /// The members of an object are a map from keys to these; `None` stands for
    /// a key that the object does not have.
    pub open spec fn present(&self) -> Option<MemberView> {
        match *self {
            Member::Absent => None,
            Member::Null => Some(MemberView::Null),
            Member::Text(t) => Some(MemberView::Text(t@)),
            Member::Number(n) => Some(MemberView::Number(n)),
            Member::Other => Some(MemberView::Other),
        }
    }
}

/// The members of a JSON value: for an object each key with what it holds, for
/// any other value nothing. A number is held with its value where it is an
/// integer from 0 to 2^64 - 1, and without it otherwise.
pub uninterp spec fn members(doc: serde_json::Value) -> Map<Seq<char>, MemberView>;

/// The members of the JSON value that a text parses to; `None` for a text that
/// is not one JSON value.
pub uninterp spec fn parsed(text: Seq<char>) -> Option<Map<Seq<char>, MemberView>>;

/// The JSON string literal for a text: quoted, with escapes where JSON needs them.
pub uninterp spec fn quoted(text: Seq<char>) -> Seq<char>;

/// What a map of members holds under `key`.
pub open spec fn member_at(all: Map<Seq<char>, MemberView>, key: Seq<char>) -> Option<MemberView> {
    if all.contains_key(key) {
        Some(all[key])
    } else {
        None
    }
}

/// Calls `serde_json::from_str` for a `serde_json::Value`. The call succeeds
/// exactly on the texts that are one JSON value, and the same text always
/// gives the same value.
#[verifier::external_body]
fn parse_document(text: &str) -> (r: Result<serde_json::Value, serde_json::Error>)
    ensures
        r is Ok <==> parsed(text@) is Some,
        r matches Ok(doc) ==> parsed(text@) == Some(members(doc)),
{
    serde_json::from_str::<serde_json::Value>(text)
}

/// Calls `serde_json::Value::get` with a string key, which finds a member only
/// in an object, and hands over what it found, variant by variant: a string
/// with its text, a number with what `serde_json::Number::as_u64` gives for it.
#[verifier::external_body]
fn lookup(doc: &serde_json::Value, key: &str) -> (m: Member)
    ensures
        m.present() == member_at(members(*doc), key@),
{
    match doc.get(key) {
        None => Member::Absent,
        Some(serde_json::Value::Null) => Member::Null,
        Some(serde_json::Value::String(s)) => Member::Text(s.clone()),
        Some(serde_json::Value::Number(n)) => Member::Number(n.as_u64()),
        Some(_) => Member::Other,
    }
}

/// Calls `serde_json::to_string` on a string, which writes it as a JSON string
/// literal. Serialising a string into memory has no way to fail.
#[verifier::external_body]
fn quote(text: &str) -> (r: Result<String, serde_json::Error>)
    ensures
        r is Ok,
        r matches Ok(q) ==> q@ == quoted(text@),
{
    serde_json::to_string(text)
}

/// The JSON string literal for `text`.
fn quote_text(text: &str) -> (q: String)
    ensures
        q@ == quoted(text@),
{
    match quote(text) {
        Ok(q) => q,
        Err(_) => String::new(),
    }
}

/// The JSON for an optional string: its literal, or `null`.
pub open spec fn quoted_or_null(text: Option<Seq<char>>) -> Seq<char> {
    match text {
        Some(t) => quoted(t),
        None => "null"@,
    }
}

/// The JSON for an optional index: its decimal notation, or `null`.
pub open spec fn decimal_or_null(index: Option<u16>) -> Seq<char> {
    match index {
        Some(n) => decimal(n as nat),
        None => "null"@,
    }
}

/// The frame of a message without its closing brace.
pub open spec fn open_frame(m: MessageView) -> Seq<char> {
    match m {
        MessageView::Offer(sdp) => "{\"type\":\"Offer\",\"sdp\":"@ + quoted(sdp),
        MessageView::Answer(sdp) => "{\"type\":\"Answer\",\"sdp\":"@ + quoted(sdp),
        MessageView::IceCandidate(c) => "{\"type\":\"IceCandidate\",\"candidate\":"@ + quoted(
            c.candidate,
        ) + ",\"sdpMid\":"@ + quoted_or_null(c.sdp_mid) + ",\"sdpMLineIndex\":"@ + decimal_or_null(
            c.sdp_mline_index,
        ),
        MessageView::Error(text) => "{\"type\":\"Error\",\"message\":"@ + quoted(text),
    }
}

/// The frame of a message: `type` first, then the members of that type in their
/// fixed order, with no white space.
pub open spec fn frame(m: MessageView) -> Seq<char> {
    open_frame(m) + "}"@
}

fn write_quoted_or_null(out: &mut String, text: &Option<String>)
    ensures
        final(out)@ == old(out)@ + quoted_or_null(text_of(*text)),
{
    match text {
        Some(t) => {
            let q = quote_text(t.as_str());
            out.append(q.as_str());
        },
        None => {
            out.append("null");
        },
    }
}

fn write_decimal_or_null(out: &mut String, index: Option<u16>)
    ensures
        final(out)@ == old(out)@ + decimal_or_null(index),
{
    match index {
        Some(n) => {
            let d = render_decimal(n as u64);
            out.append(d.as_str());
        },
        None => {
            out.append("null");
        },
    }
}

fn write_open_frame(message: &SignalingMessage) -> (out: String)
    ensures
        out@ == open_frame(message@),
{
    match message {
        SignalingMessage::Offer(d) => {
            let mut out = String::from_str("{\"type\":\"Offer\",\"sdp\":");
            let q = quote_text(d.sdp.as_str());
            out.append(q.as_str());
            out
        },
        SignalingMessage::Answer(d) => {
            let mut out = String::from_str("{\"type\":\"Answer\",\"sdp\":");
            let q = quote_text(d.sdp.as_str());
            out.append(q.as_str());
            out
        },
        SignalingMessage::IceCandidate(c) => {
            let mut out = String::from_str("{\"type\":\"IceCandidate\",\"candidate\":");
            let q = quote_text(c.candidate.as_str());
            out.append(q.as_str());
            out.append(",\"sdpMid\":");
            write_quoted_or_null(&mut out, &c.sdp_mid);
            out.append(",\"sdpMLineIndex\":");
            write_decimal_or_null(&mut out, c.sdp_mline_index);
            out
        },
        SignalingMessage::Error(text) => {
            let mut out = String::from_str("{\"type\":\"Error\",\"message\":");
            let q = quote_text(text.as_str());
            out.append(q.as_str());
            out
        },
    }
}

/// Writes a message as the text of one frame. There is no message that cannot
/// be written.
pub fn encode(message: &SignalingMessage) -> (text: String)
    ensures
        text@ == frame(message@),
{
    let mut out = write_open_frame(message);
    out.append("}");
    out
}

/// The members of a frame that this protocol reads.
#[derive(Debug)]
pub struct Fields {
    /// `type`
    pub tag: Member,
    /// `sdp`
    pub sdp: Member,
    /// `candidate`
    pub candidate: Member,
    /// `sdpMid`
    pub sdp_mid: Member,
    /// `sdpMLineIndex`
    pub sdp_mline_index: Member,
    /// `message`
    pub message: Member,
    /// `peerId`
    pub peer_id: Member,
}

/// The mathematical value of [`Fields`].
pub struct FieldsView {
    pub tag: Option<MemberView>,
    pub sdp: Option<MemberView>,
    pub candidate: Option<MemberView>,
    pub sdp_mid: Option<MemberView>,
    pub sdp_mline_index: Option<MemberView>,
    pub message: Option<MemberView>,
    pub peer_id: Option<MemberView>,
}

impl View for Fields {
    type V = FieldsView;

    open spec fn view(&self) -> FieldsView {
        FieldsView {
            tag: self.tag.present(),
            sdp: self.sdp.present(),
            candidate: self.candidate.present(),
            sdp_mid: self.sdp_mid.present(),
            sdp_mline_index: self.sdp_mline_index.present(),
            message: self.message.present(),
            peer_id: self.peer_id.present(),
        }
    }
}

/// The fields that a map of members gives.
pub open spec fn fields_of(all: Map<Seq<char>, MemberView>) -> FieldsView {
    FieldsView {
        tag: member_at(all, "type"@),
        sdp: member_at(all, "sdp"@),
        candidate: member_at(all, "candidate"@),
        sdp_mid: member_at(all, "sdpMid"@),
        sdp_mline_index: member_at(all, "sdpMLineIndex"@),
        message: member_at(all, "message"@),
        peer_id: member_at(all, "peerId"@),
    }
}

/// A member that must be a string.
pub open spec fn required_text(m: Option<MemberView>) -> Result<Seq<char>, DecodeError> {
    match m {
        Some(MemberView::Text(t)) => Ok(t),
        _ => Err(DecodeError::MalformedMessage),
    }
}

/// A member that may be missing or `null`, and is a string otherwise.
pub open spec fn optional_text(m: Option<MemberView>) -> Result<Option<Seq<char>>, DecodeError> {
    match m {
        None => Ok(None),
        Some(MemberView::Null) => Ok(None),
        Some(MemberView::Text(t)) => Ok(Some(t)),
        _ => Err(DecodeError::MalformedMessage),
    }
}

/// A member that may be missing or `null`, and is an integer of 16 bits otherwise.
pub open spec fn optional_index(m: Option<MemberView>) -> Result<Option<u16>, DecodeError> {
    match m {
        None => Ok(None),
        Some(MemberView::Null) => Ok(None),
        Some(MemberView::Number(Some(n))) => if n <= 0xffff {
            Ok(Some(n as u16))
        } else {
            Err(DecodeError::MalformedMessage)
        },
        _ => Err(DecodeError::MalformedMessage),
    }
}

/// The candidate that the fields of an `IceCandidate` frame describe.
pub open spec fn candidate_of(f: FieldsView) -> Result<CandidateView, DecodeError> {
    match (required_text(f.candidate), optional_text(f.sdp_mid), optional_index(f.sdp_mline_index)) {
        (Ok(candidate), Ok(sdp_mid), Ok(sdp_mline_index)) => Ok(
            CandidateView { candidate, sdp_mid, sdp_mline_index },
        ),
        _ => Err(DecodeError::MalformedMessage),
    }
}

/// Whether a `type` member names one of the four kinds of message.
pub open spec fn recognized(tag: Option<MemberView>) -> bool {
    tag matches Some(MemberView::Text(t)) && (t == "Offer"@ || t == "Answer"@ || t
        == "IceCandidate"@ || t == "Error"@)
}

/// The message that the fields of a frame describe. Members that the frame's
/// type does not need are not looked at.
pub open spec fn message_of(f: FieldsView) -> Result<MessageView, DecodeError> {
    match f.tag {
        Some(MemberView::Text(t)) => {
            if t == "Offer"@ {
                match required_text(f.sdp) {
                    Ok(sdp) => Ok(MessageView::Offer(sdp)),
                    Err(e) => Err(e),
                }
            } else if t == "Answer"@ {
                match required_text(f.sdp) {
                    Ok(sdp) => Ok(MessageView::Answer(sdp)),
                    Err(e) => Err(e),
                }
            } else if t == "IceCandidate"@ {
                match candidate_of(f) {
                    Ok(c) => Ok(MessageView::IceCandidate(c)),
                    Err(e) => Err(e),
                }
            } else if t == "Error"@ {
                match required_text(f.message) {
                    Ok(text) => Ok(MessageView::Error(text)),
                    Err(e) => Err(e),
                }
            } else {
                Err(DecodeError::MalformedMessage)
            }
        },
        _ => Err(DecodeError::MalformedMessage),
    }
}

/// The message that a frame's text stands for.
pub open spec fn decoded(text: Seq<char>) -> Result<MessageView, DecodeError> {
    match parsed(text) {
        Some(all) => message_of(fields_of(all)),
        None => Err(DecodeError::MalformedMessage),
    }
}

/// The mathematical value of what decoding gives.
pub open spec fn outcome(r: Result<SignalingMessage, DecodeError>) -> Result<
    MessageView,
    DecodeError,
> {
    match r {
        Ok(m) => Ok(m@),
        Err(e) => Err(e),
    }
}

fn take_required_text(m: Member) -> (r: Result<String, DecodeError>)
    ensures
        match r {
            Ok(t) => required_text(m.present()) == Ok::<Seq<char>, DecodeError>(t@),
            Err(e) => required_text(m.present()) == Err::<Seq<char>, DecodeError>(e),
        },
{
    match m {
        Member::Text(t) => Ok(t),
        _ => Err(DecodeError::MalformedMessage),
    }
}

fn take_optional_text(m: Member) -> (r: Result<Option<String>, DecodeError>)
    ensures
        match r {
            Ok(t) => optional_text(m.present()) == Ok::<Option<Seq<char>>, DecodeError>(text_of(t)),
            Err(e) => optional_text(m.present()) == Err::<Option<Seq<char>>, DecodeError>(e),
        },
{
    match m {
        Member::Absent => Ok(None),
        Member::Null => Ok(None),
        Member::Text(t) => Ok(Some(t)),
        _ => Err(DecodeError::MalformedMessage),
    }
}

fn take_optional_index(m: Member) -> (r: Result<Option<u16>, DecodeError>)
    ensures
        r == optional_index(m.present()),
{
    match m {
        Member::Absent => Ok(None),
        Member::Null => Ok(None),
        Member::Number(Some(n)) => {
            if n <= 0xffff {
                Ok(Some(n as u16))
            } else {
                Err(DecodeError::MalformedMessage)
            }
        },
        _ => Err(DecodeError::MalformedMessage),
    }
}

fn text_is(t: &String, name: &str) -> (r: bool)
    ensures
        r == (t@ == name@),
{
    *t == String::from_str(name)
}

/// Builds the message that the fields of a frame describe.
///
/// Fails exactly when `type` is not a string naming one of the four kinds, or
/// a member that the kind needs is missing or holds the wrong kind of value:
/// `sdp` for an offer or an answer, `message` for an error, `candidate` for a
/// candidate, whose `sdpMid` and `sdpMLineIndex` may each be missing or `null`.
pub fn message_from_fields(fields: Fields) -> (r: Result<SignalingMessage, DecodeError>)
    ensures
        outcome(r) == message_of(fields@),
{
    let Fields { tag, sdp, candidate, sdp_mid, sdp_mline_index, message, peer_id: _ } = fields;
    let kind = match tag {
        Member::Text(t) => t,
        _ => { return Err(DecodeError::MalformedMessage); },
    };
    if text_is(&kind, "Offer") {
        match take_required_text(sdp) {
            Ok(sdp) => Ok(SignalingMessage::Offer(SdpData { sdp })),
            Err(e) => Err(e),
        }
    } else if text_is(&kind, "Answer") {
        match take_required_text(sdp) {
            Ok(sdp) => Ok(SignalingMessage::Answer(SdpData { sdp })),
            Err(e) => Err(e),
        }
    } else if text_is(&kind, "IceCandidate") {
        let candidate = match take_required_text(candidate) {
            Ok(c) => c,
            Err(e) => { return Err(e); },
        };
        let sdp_mid = match take_optional_text(sdp_mid) {
            Ok(m) => m,
            Err(e) => { return Err(e); },
        };
        let sdp_mline_index = match take_optional_index(sdp_mline_index) {
            Ok(i) => i,
            Err(e) => { return Err(e); },
        };
        Ok(SignalingMessage::IceCandidate(IceCandidateData { candidate, sdp_mid, sdp_mline_index }))
    } else if text_is(&kind, "Error") {
        match take_required_text(message) {
            Ok(text) => Ok(SignalingMessage::Error(text)),
            Err(e) => Err(e),
        }
    } else {
        Err(DecodeError::MalformedMessage)
    }
}

/// Reads from a parsed document the members that this protocol knows.
fn read_fields(doc: &serde_json::Value) -> (fields: Fields)
    ensures
        fields@ == fields_of(members(*doc)),
{
    Fields {
        tag: lookup(doc, "type"),
        sdp: lookup(doc, "sdp"),
        candidate: lookup(doc, "candidate"),
        sdp_mid: lookup(doc, "sdpMid"),
        sdp_mline_index: lookup(doc, "sdpMLineIndex"),
        message: lookup(doc, "message"),
        peer_id: lookup(doc, "peerId"),
    }
}

/// Reads the text of one frame as a message.
///
/// Fails on a text that is not JSON, and otherwise exactly where
/// [`message_from_fields`] fails on the members of the JSON value. A value
/// that is no object has no members, so it fails too.
pub fn decode(text: &str) -> (r: Result<SignalingMessage, DecodeError>)
    ensures
        outcome(r) == decoded(text@),
        parsed(text@) is None ==> r is Err,
        parsed(text@) matches Some(all) ==> (!recognized(member_at(all, "type"@)) ==> r is Err),
{
    match parse_document(text) {
        Ok(doc) => message_from_fields(read_fields(&doc)),
        Err(_) => Err(DecodeError::MalformedMessage),
    }
}

/// A message together with the peer that it concerns: the peer it came from
/// when it arrives, the peer it is meant for when it leaves.
#[derive(Debug)]
pub struct Envelope {
    pub peer_id: String,
    pub message: SignalingMessage,
}

/// The mathematical value of an [`Envelope`].
pub struct EnvelopeView {
    pub peer_id: Seq<char>,
    pub message: MessageView,
}

impl View for Envelope {
    type V = EnvelopeView;

    open spec fn view(&self) -> EnvelopeView {
        EnvelopeView { peer_id: self.peer_id@, message: self.message@ }
    }
}

impl PartialEq for Envelope {
    fn eq(&self, other: &Self) -> (r: bool) {
        self.peer_id == other.peer_id && self.message == other.message
    }
}

impl vstd::std_specs::cmp::PartialEqSpecImpl for Envelope {
    open spec fn obeys_eq_spec() -> bool {
        true
    }

    open spec fn eq_spec(&self, other: &Self) -> bool {
        self@ == other@
    }
}

/// The frame of an addressed message: the message's own frame with a `peerId`
/// member added at its end.
pub open spec fn addressed_frame(e: EnvelopeView) -> Seq<char> {
    open_frame(e.message) + ",\"peerId\":"@ + quoted(e.peer_id) + "}"@
}

/// Writes an addressed message as the text of one frame.
pub fn encode_envelope(envelope: &Envelope) -> (text: String)
    ensures
        text@ == addressed_frame(envelope@),
{
    let mut out = write_open_frame(&envelope.message);
    out.append(",\"peerId\":");
    let q = quote_text(envelope.peer_id.as_str());
    out.append(q.as_str());
    out.append("}");
    out
}

/// The addressed message that the fields of a frame describe.
pub open spec fn envelope_of(f: FieldsView) -> Result<EnvelopeView, DecodeError> {
    match (required_text(f.peer_id), message_of(f)) {
        (Ok(peer_id), Ok(message)) => Ok(EnvelopeView { peer_id, message }),
        _ => Err(DecodeError::MalformedMessage),
    }
}

/// The addressed message that a frame's text stands for.
pub open spec fn decoded_envelope(text: Seq<char>) -> Result<EnvelopeView, DecodeError> {
    match parsed(text) {
        Some(all) => envelope_of(fields_of(all)),
        None => Err(DecodeError::MalformedMessage),
    }
}

/// The mathematical value of what decoding an addressed message gives.
pub open spec fn envelope_outcome(r: Result<Envelope, DecodeError>) -> Result<
    EnvelopeView,
    DecodeError,
> {
    match r {
        Ok(e) => Ok(e@),
        Err(e) => Err(e),
    }
}

/// Builds the addressed message that the fields of a frame describe.
///
/// Fails exactly when `peerId` is not a string or [`message_from_fields`]
/// fails.
pub fn envelope_from_fields(fields: Fields) -> (r: Result<Envelope, DecodeError>)
    ensures
        envelope_outcome(r) == envelope_of(fields@),
{
    let Fields { tag, sdp, candidate, sdp_mid, sdp_mline_index, message, peer_id } = fields;
    let peer = match take_required_text(peer_id) {
        Ok(p) => p,
        Err(e) => { return Err(e); },
    };
    let rest = Fields {
        tag,
        sdp,
        candidate,
        sdp_mid,
        sdp_mline_index,
        message,
        peer_id: Member::Absent,
    };
    match message_from_fields(rest) {
        Ok(message) => Ok(Envelope { peer_id: peer, message }),
        Err(e) => Err(e),
    }
}

/// Reads the text of one frame as an addressed message.
///
/// Fails on a text that is not JSON, and otherwise exactly where
/// [`envelope_from_fields`] fails on the members of the JSON value.
pub fn decode_envelope(text: &str) -> (r: Result<Envelope, DecodeError>)
    ensures
        envelope_outcome(r) == decoded_envelope(text@),
{
    match parse_document(text) {
        Ok(doc) => envelope_from_fields(read_fields(&doc)),
        Err(_) => Err(DecodeError::MalformedMessage),
    }
}

/// The `type` member that a message is written with.
pub open spec fn tag_of(m: MessageView) -> Seq<char> {
    match m {
        MessageView::Offer(_) => "Offer"@,
        MessageView::Answer(_) => "Answer"@,
        MessageView::IceCandidate(_) => "IceCandidate"@,
        MessageView::Error(_) => "Error"@,
    }
}

/// An optional string as a member: `null` where there is none.
pub open spec fn text_member(t: Option<Seq<char>>) -> Option<MemberView> {
    match t {
        Some(t) => Some(MemberView::Text(t)),
        None => Some(MemberView::Null),
    }
}

/// An optional index as a member: `null` where there is none.
pub open spec fn index_member(i: Option<u16>) -> Option<MemberView> {
    match i {
        Some(n) => Some(MemberView::Number(Some(n as u64))),
        None => Some(MemberView::Null),
    }
}

/// The fields that the frame of a message holds, `peerId` left out.
pub open spec fn fields_for(m: MessageView) -> FieldsView {
    let blank = FieldsView {
        tag: Some(MemberView::Text(tag_of(m))),
        sdp: None,
        candidate: None,
        sdp_mid: None,
        sdp_mline_index: None,
        message: None,
        peer_id: None,
    };
    match m {
        MessageView::Offer(sdp) => FieldsView { sdp: Some(MemberView::Text(sdp)), ..blank },
        MessageView::Answer(sdp) => FieldsView { sdp: Some(MemberView::Text(sdp)), ..blank },
        MessageView::IceCandidate(c) => FieldsView {
            candidate: Some(MemberView::Text(c.candidate)),
            sdp_mid: text_member(c.sdp_mid),
            sdp_mline_index: index_member(c.sdp_mline_index),
            ..blank
        },
        MessageView::Error(text) => FieldsView { message: Some(MemberView::Text(text)), ..blank },
    }
}

/// The fields that the frame of an addressed message holds.
pub open spec fn fields_for_envelope(e: EnvelopeView) -> FieldsView {
    FieldsView { peer_id: Some(MemberView::Text(e.peer_id)), ..fields_for(e.message) }
}

/// The four names of `type` are four different texts.
proof fn tags_differ()
    ensures
        "Offer"@ != "Answer"@,
        "Offer"@ != "IceCandidate"@,
        "Offer"@ != "Error"@,
        "Answer"@ != "IceCandidate"@,
        "Answer"@ != "Error"@,
        "IceCandidate"@ != "Error"@,
{
    reveal_strlit("Offer");
    reveal_strlit("Answer");
    reveal_strlit("IceCandidate");
    reveal_strlit("Error");
    assert("Offer"@.len() == 5 && "Answer"@.len() == 6 && "IceCandidate"@.len() == 12);
    assert("Offer"@[0] == 'O' && "Error"@[0] == 'E');
}

/// Reading back the members that a message is written with gives the message:
/// the members that the writer puts in a frame are enough to tell every message
/// from every other.
pub proof fn fields_round_trip(m: MessageView)
    ensures
        message_of(fields_for(m)) == Ok::<MessageView, DecodeError>(m),
{
    tags_differ();
}

/// The same for an addressed message.
pub proof fn envelope_fields_round_trip(e: EnvelopeView)
    ensures
        envelope_of(fields_for_envelope(e)) == Ok::<EnvelopeView, DecodeError>(e),
{
    tags_differ();
    fields_round_trip(e.message);
    assert(message_of(fields_for_envelope(e)) == message_of(fields_for(e.message)));
}

/// Decoding undoes encoding, wherever the JSON reader gives back the members
/// that the frame was written with. Whether it does is a matter between the
/// reader and the writer of JSON, which this crate calls and does not look
/// into; what is shown here is that nothing else can go wrong.
pub proof fn decode_inverts_encode(m: MessageView)
    requires
        parsed(frame(m)) matches Some(all) && fields_of(all) == fields_for(m),
    ensures
        decoded(frame(m)) == Ok::<MessageView, DecodeError>(m),
{
    fields_round_trip(m);
}

/// Fields whose `type` is missing, is no string, or names no known kind of
/// message describe no message, whatever else they hold.
pub proof fn unrecognized_type_is_rejected(f: FieldsView)
    requires
        !recognized(f.tag),
    ensures
        message_of(f) is Err,
        envelope_of(f) is Err,
{
}

/// A frame is accepted only if its `type` is one of the four known names.
pub proof fn accepted_type_is_recognized(f: FieldsView)
    requires
        message_of(f) is Ok,
    ensures
        recognized(f.tag),
        f.tag == Some(MemberView::Text(tag_of(message_of(f)->Ok_0))),
{
}

} // verus!

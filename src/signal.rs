//! Signaling messages on the text transport: JSON objects
//! `{"event": ..., "data": ...}` whose event is `offer`, `answer` or `candidate`.
use vstd::prelude::*;
use vstd::string::*;
use crate::text::same_text;
use webrtc::peer_connection::sdp::session_description::RTCSessionDescription;

verus! {

/// The discriminant of a signaling message.
pub enum SignalKind {
    Offer,
    Answer,
    Candidate,
    Unknown,
}

/// The kind that an `event` field names.
pub open spec fn kind_of(event: Seq<char>) -> SignalKind {
    if event == "offer"@ {
        SignalKind::Offer
    } else if event == "answer"@ {
        SignalKind::Answer
    } else if event == "candidate"@ {
        SignalKind::Candidate
    } else {
        SignalKind::Unknown
    }
}

/// Classifies the `event` field of a signaling message.
pub fn signal_kind(event: &str) -> (r: SignalKind)
    ensures
        r == kind_of(event@),
{
    if same_text(event, "offer") {
        SignalKind::Offer
    } else if same_text(event, "answer") {
        SignalKind::Answer
    } else if same_text(event, "candidate") {
        SignalKind::Candidate
    } else {
        SignalKind::Unknown
    }
}

/// A hexadecimal digit in lower case.
pub open spec fn hex_digit(n: nat) -> char {
    seq!['0', '1', '2', '3', '4', '5', '6', '7', '8', '9', 'a', 'b', 'c', 'd', 'e', 'f'][n as int]
}

/// How one character stands inside a JSON string literal: the quote and the
/// backslash escaped, the control characters below U+0020 written as their
/// short escape or as `\u00XX`, every other character as it is.
pub open spec fn json_escape_char(c: char) -> Seq<char> {
    let u = c as u32;
    if c == '"' {
        seq!['\\', '"']
    } else if c == '\\' {
        seq!['\\', '\\']
    } else if u == 8 {
        seq!['\\', 'b']
    } else if u == 9 {
        seq!['\\', 't']
    } else if u == 10 {
        seq!['\\', 'n']
    } else if u == 12 {
        seq!['\\', 'f']
    } else if u == 13 {
        seq!['\\', 'r']
    } else if u < 32 {
        seq!['\\', 'u', '0', '0', hex_digit((u / 16) as nat), hex_digit((u % 16) as nat)]
    } else {
        seq![c]
    }
}

/// The characters of `s`, each escaped for a JSON string literal.
pub open spec fn json_escaped(s: Seq<char>) -> Seq<char>
    decreases s.len(),
{
    if s.len() == 0 {
        Seq::empty()
    } else {
        json_escaped(s.drop_last()) + json_escape_char(s.last())
    }
}

/// The JSON string literal that encodes `s`: its escaped characters in quotes.
pub open spec fn json_string_literal(s: Seq<char>) -> Seq<char> {
    seq!['"'] + json_escaped(s) + seq!['"']
}

/// Relies on `serde_json::to_string` on a `str`: it writes the text as a
/// JSON string literal into a `Vec`, which cannot fail.
#[verifier::external_body]
fn quote_json(s: &str) -> (r: Option<String>)
    ensures
        r is Some,
        r matches Some(q) ==> q@ == json_string_literal(s@),
{
    serde_json::to_string(s).ok()
}

/// The text of an offer message around the encoded SDP.
pub open spec fn offer_frame(quoted_sdp: Seq<char>) -> Seq<char> {
    "{\"event\":\"offer\",\"data\":{\"sdp\":"@ + quoted_sdp + ",\"type\":\"offer\"}}"@
}

/// The text of a candidate message around the candidate's JSON object.
pub open spec fn candidate_frame(candidate_json: Seq<char>) -> Seq<char> {
    "{\"event\":\"candidate\",\"data\":"@ + candidate_json + "}"@
}

/// An offer message, given the SDP already encoded as a JSON string literal.
pub fn frame_offer(quoted_sdp: &str) -> (r: String)
    ensures
        r@ == offer_frame(quoted_sdp@),
{
    let mut r = String::from_str("{\"event\":\"offer\",\"data\":{\"sdp\":");
    r.append(quoted_sdp);
    r.append(",\"type\":\"offer\"}}");
    r
}

/// The offer message that carries `sdp`.
pub fn offer_message(sdp: &str) -> (r: String)
    ensures
        r@ == offer_frame(json_string_literal(sdp@)),
{
    match quote_json(sdp) {
        Some(q) => frame_offer(q.as_str()),
        None => String::new(),
    }
}

/// A candidate message around a locally gathered candidate in its JSON form.
pub fn candidate_message(candidate_json: &str) -> (r: String)
    ensures
        r@ == candidate_frame(candidate_json@),
{
    let mut r = String::from_str("{\"event\":\"candidate\",\"data\":");
    r.append(candidate_json);
    r.append("}");
    r
}

/// The SDP of an answer: the `sdp` field's text, or empty where the field is
/// missing or not a string.
pub fn answer_sdp(sdp_field: Option<&str>) -> (r: String)
    ensures
        sdp_field matches Some(s) ==> r@ == s@,
        sdp_field is None ==> r@ == Seq::<char>::empty(),
{
    match sdp_field {
        Some(s) => String::from_str(s),
        None => String::new(),
    }
}

/// A session description of the transport library.
#[verifier::external_type_specification]
#[verifier::external_body]
pub struct ExSessionDescription(RTCSessionDescription);

/// Whether SDP text parses as a session description.
pub uninterp spec fn sdp_well_formed(sdp: Seq<char>) -> bool;

/// Relies on `RTCSessionDescription::answer`: it parses the SDP text, and
/// fails exactly where the text is not a well-formed description.
#[verifier::external_body]
pub(crate) fn parse_answer(sdp: String) -> (r: Option<RTCSessionDescription>)
    ensures
        r is Some <==> sdp_well_formed(sdp@),
{
    RTCSessionDescription::answer(sdp).ok()
}

} // verus!

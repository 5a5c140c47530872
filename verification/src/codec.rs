//! The text codec of the signaling channel: UTF-8 text carried as standard,
//! padded base64, and session descriptions carried as JSON inside it.

use base64::prelude::BASE64_STANDARD;
use base64::Engine;
use vstd::prelude::*;
use vstd::string::StringSliceAdditionalSpecFns;
use vstd::utf8::{decode_utf8, encode_utf8, valid_utf8};
use webrtc::peer_connection::sdp::sdp_type::RTCSdpType;
use webrtc::peer_connection::sdp::session_description::RTCSessionDescription;

verus! {

/// base64's `DecodeError`, carried from the decoder to where it is mapped to `CodecError`.
#[verifier::external_type_specification]
#[verifier::external_body]
pub struct ExDecodeError(base64::DecodeError);

/// serde_json's `Error`, carried from the JSON calls to where it is mapped to `CodecError`.
#[verifier::external_type_specification]
#[verifier::external_body]
pub struct ExJsonError(serde_json::Error);

/// The standard base64 text, with padding, that stands for `bytes`.
pub uninterp spec fn base64_text(bytes: Seq<u8>) -> Seq<char>;

/// The bytes that `text` stands for in standard base64, where it stands for any.
pub uninterp spec fn base64_bytes(text: Seq<char>) -> Option<Seq<u8>>;

/// The session description that `json` spells out, with its kind and its SDP
/// text, where it spells one out.
pub uninterp spec fn description_in_json(json: Seq<char>) -> Option<(SdpKind, Seq<char>)>;

/// The JSON text of a session description of that kind and SDP text, where it has one.
pub uninterp spec fn json_of_description(kind: SdpKind, sdp: Seq<char>) -> Option<Seq<char>>;

/// What a session description is in an offer/answer exchange.
#[derive(Clone, Copy, Debug, PartialEq, Eq, Structural)]
pub enum SdpKind {
    Unspecified,
    Offer,
    Pranswer,
    Answer,
    Rollback,
}

/// An offer or an answer: its kind and its SDP text.
#[derive(Clone, Debug)]
pub struct SessionDescription {
    pub kind: SdpKind,
    pub sdp: String,
}

/// A session description as a plain value.
pub struct SessionDescriptionView {
    pub kind: SdpKind,
    pub sdp: Seq<char>,
}

impl View for SessionDescription {
    type V = SessionDescriptionView;

    open spec fn view(&self) -> SessionDescriptionView {
        SessionDescriptionView { kind: self.kind, sdp: self.sdp@ }
    }
}

/// The text in `r` as characters, or its error unchanged.
pub open spec fn text_of(r: Result<String, CodecError>) -> Result<Seq<char>, CodecError> {
    match r {
        Ok(text) => Ok(text@),
        Err(e) => Err(e),
    }
}

/// The description in `r` as a plain value, or its error unchanged.
pub open spec fn description_of(r: Result<SessionDescription, CodecError>) -> Result<
    SessionDescriptionView,
    CodecError,
> {
    match r {
        Ok(description) => Ok(description@),
        Err(e) => Err(e),
    }
}

/// Why a piece of signaling text was turned down.
#[derive(Clone, Copy, Debug, PartialEq, Eq, Structural)]
pub enum CodecError {
    /// The text is not canonical standard base64.
    Base64,
    /// The bytes under the base64 are not UTF-8.
    Utf8,
    /// The decoded text is not the JSON of the value asked for.
    Json,
    /// The text is too long for its base64 form to be held in memory.
    TooLong,
}

/// Longest input, in bytes, whose base64 form is certain to fit in memory.
pub open spec fn max_plain_len() -> int {
    (usize::MAX / 4) as int
}

/// What `text` looks like on the wire: the base64 of its UTF-8 bytes.
pub open spec fn encoded(text: Seq<char>) -> Seq<char> {
    base64_text(encode_utf8(text))
}

/// What wire text `text` carries: the text under the base64, or the layer
/// that turned it down.
pub open spec fn decoded(text: Seq<char>) -> Result<Seq<char>, CodecError> {
    match base64_bytes(text) {
        None => Err(CodecError::Base64),
        Some(bytes) => if valid_utf8(bytes) {
            Ok(decode_utf8(bytes))
        } else {
            Err(CodecError::Utf8)
        },
    }
}

/// Calls `Engine::encode` on base64's `STANDARD` engine. Trusted: the result
/// is the standard padded base64 of the input, and decodes back to it. The
/// length bound keeps the engine's buffer size computation from overflowing.
#[verifier::external_body]
fn base64_encode(input: &[u8]) -> (out: String)
    requires
        input@.len() <= max_plain_len(),
    ensures
        out@ == base64_text(input@),
        base64_bytes(out@) == Some(input@),
{
    BASE64_STANDARD.encode(input)
}

/// Calls `Engine::decode` on base64's `STANDARD` engine. Trusted: the engine
/// accepts canonical encodings only (full padding, no stray bits in the last
/// symbol), so what it accepts is the base64 text of what it returns.
#[verifier::external_body]
fn base64_decode(input: &str) -> (r: Result<Vec<u8>, base64::DecodeError>)
    ensures
        match r {
            Ok(bytes) => base64_bytes(input@) == Some(bytes@) && base64_text(bytes@) == input@,
            Err(_) => base64_bytes(input@) is None,
        },
{
    BASE64_STANDARD.decode(input)
}

/// Calls `String::from_utf8`. Trusted: it succeeds exactly on valid UTF-8 and
/// then holds the characters that the bytes encode.
#[verifier::external_body]
fn string_from_utf8(bytes: Vec<u8>) -> (r: Option<String>)
    ensures
        match r {
            Some(text) => valid_utf8(bytes@) && text@ == decode_utf8(bytes@),
            None => !valid_utf8(bytes@),
        },
{
    match String::from_utf8(bytes) {
        Ok(text) => Some(text),
        Err(_) => None,
    }
}

/// The text that `bytes` hold as UTF-8.
pub fn text_from_bytes(bytes: Vec<u8>) -> (r: Result<String, CodecError>)
    ensures
        match r {
            Ok(text) => valid_utf8(bytes@) && text@ == decode_utf8(bytes@),
            Err(e) => e == CodecError::Utf8 && !valid_utf8(bytes@),
        },
{
    match string_from_utf8(bytes) {
        Some(text) => Ok(text),
        None => Err(CodecError::Utf8),
    }
}

/// Puts `text` on the wire. What comes out decodes back to `text`.
pub fn encode(text: &str) -> (out: String)
    requires
        text.spec_bytes().len() <= max_plain_len(),
    ensures
        out@ == encoded(text@),
        decoded(out@) == Ok::<Seq<char>, CodecError>(text@),
{
    let out = base64_encode(text.as_bytes());
    proof {
        vstd::utf8::encode_utf8_valid_utf8(text@);
        vstd::utf8::encode_utf8_decode_utf8(text@);
    }
    out
}

/// Takes text off the wire. Only the wire form of the result is accepted, so
/// encoding the result gives the input back.
pub fn decode(wire: &str) -> (r: Result<String, CodecError>)
    ensures
        match r {
            Ok(text) => decoded(wire@) == Ok::<Seq<char>, CodecError>(text@) && encoded(text@)
                == wire@,
            Err(e) => decoded(wire@) == Err::<Seq<char>, CodecError>(e),
        },
{
    match base64_decode(wire) {
        Err(_) => Err(CodecError::Base64),
        Ok(bytes) => {
            let ghost raw = bytes@;
            let r = text_from_bytes(bytes);
            proof {
                if r is Ok {
                    vstd::utf8::decode_utf8_encode_utf8(raw);
                }
            }
            r
        },
    }
}

/// Calls `serde_json::from_str` for webrtc's `RTCSessionDescription` and hands
/// its kind and SDP text over. Trusted: which description a JSON text spells
/// out, or that it spells none, depends on the text alone.
#[verifier::external_body]
fn description_from_json(json: &str) -> (r: Result<SessionDescription, serde_json::Error>)
    ensures
        match r {
            Ok(d) => description_in_json(json@) == Some((d.kind, d.sdp@)),
            Err(_) => description_in_json(json@) is None,
        },
{
    let parsed: RTCSessionDescription = serde_json::from_str(json)?;
    let kind = match parsed.sdp_type {
        RTCSdpType::Unspecified => SdpKind::Unspecified,
        RTCSdpType::Offer => SdpKind::Offer,
        RTCSdpType::Pranswer => SdpKind::Pranswer,
        RTCSdpType::Answer => SdpKind::Answer,
        RTCSdpType::Rollback => SdpKind::Rollback,
    };
    Ok(SessionDescription { kind, sdp: parsed.sdp })
}

/// Calls `serde_json::to_string` on the webrtc `RTCSessionDescription` of the
/// same kind and SDP text. Trusted: the JSON text, or that there is none,
/// depends on the kind and the SDP text alone.
#[verifier::external_body]
fn description_to_json(description: &SessionDescription) -> (r: Result<String, serde_json::Error>)
    ensures
        match r {
            Ok(json) => json_of_description(description.kind, description.sdp@) == Some(json@),
            Err(_) => json_of_description(description.kind, description.sdp@) is None,
        },
{
    let mut outside = RTCSessionDescription::default();
    outside.sdp_type = match description.kind {
        SdpKind::Unspecified => RTCSdpType::Unspecified,
        SdpKind::Offer => RTCSdpType::Offer,
        SdpKind::Pranswer => RTCSdpType::Pranswer,
        SdpKind::Answer => RTCSdpType::Answer,
        SdpKind::Rollback => RTCSdpType::Rollback,
    };
    outside.sdp = description.sdp.clone();
    serde_json::to_string(&outside)
}

/// What `description` looks like on the wire, given the JSON text it has.
pub open spec fn encoded_description(json: Option<Seq<char>>) -> Result<Seq<char>, CodecError> {
    match json {
        None => Err(CodecError::Json),
        Some(text) => if encode_utf8(text).len() <= max_plain_len() {
            Ok(encoded(text))
        } else {
            Err(CodecError::TooLong)
        },
    }
}

/// Which description wire text carries, given what its decoded text spells out.
pub open spec fn decoded_description(
    text: Result<Seq<char>, CodecError>,
    spelled: Option<(SdpKind, Seq<char>)>,
) -> Result<SessionDescriptionView, CodecError> {
    match text {
        Err(e) => Err(e),
        Ok(_) => match spelled {
            None => Err(CodecError::Json),
            Some((kind, sdp)) => Ok(SessionDescriptionView { kind, sdp }),
        },
    }
}

/// Which description wire text carries: what the text under the base64
/// spells out as JSON, or the layer that turned the wire text down.
pub open spec fn decoded_sdp(wire: Seq<char>) -> Result<SessionDescriptionView, CodecError> {
    match decoded(wire) {
        Err(e) => Err(e),
        Ok(json) => decoded_description(Ok(json), description_in_json(json)),
    }
}

/// What a description looks like on the wire: the base64 of its JSON text.
pub open spec fn encoded_sdp(description: SessionDescriptionView) -> Result<Seq<char>, CodecError> {
    encoded_description(json_of_description(description.kind, description.sdp))
}

/// Puts JSON text that was made of a description on the wire; `json` is what
/// the serializer gave.
pub fn wire_from_json(json: Option<String>) -> (r: Result<String, CodecError>)
    ensures
        text_of(r) == encoded_description(
            match json {
                Some(text) => Some(text@),
                None => None,
            },
        ),
{
    match json {
        None => Err(CodecError::Json),
        Some(text) => {
            if text.as_str().as_bytes().len() <= usize::MAX / 4 {
                Ok(encode(text.as_str()))
            } else {
                Err(CodecError::TooLong)
            }
        },
    }
}

/// Tells what came of reading a description out of decoded wire text; `parsed`
/// is what the parser gave for that text.
pub fn description_from_parse(
    text: Result<String, CodecError>,
    parsed: Option<SessionDescription>,
) -> (r: Result<SessionDescription, CodecError>)
    ensures
        description_of(r) == decoded_description(
            text_of(text),
            match parsed {
                Some(description) => Some((description.kind, description.sdp@)),
                None => None,
            },
        ),
{
    match text {
        Err(e) => Err(e),
        Ok(_) => match parsed {
            None => Err(CodecError::Json),
            Some(description) => Ok(description),
        },
    }
}

/// The wire form of a session description: the base64 of its JSON text.
pub fn encode_sdp(sdp: &SessionDescription) -> (r: Result<String, CodecError>)
    ensures
        text_of(r) == encoded_sdp(sdp@),
{
    match description_to_json(sdp) {
        Ok(json) => wire_from_json(Some(json)),
        Err(_) => wire_from_json(None),
    }
}

/// The session description that wire text carries: base64, then UTF-8, then JSON.
pub fn decode_sdp(encoded_sdp: &str) -> (r: Result<SessionDescription, CodecError>)
    ensures
        description_of(r) == decoded_sdp(encoded_sdp@),
{
    match decode(encoded_sdp) {
        Err(e) => description_from_parse(Err(e), None),
        Ok(json) => {
            let parsed = match description_from_json(json.as_str()) {
                Ok(description) => Some(description),
                Err(_) => None,
            };
            description_from_parse(Ok(json), parsed)
        },
    }
}

} // verus!

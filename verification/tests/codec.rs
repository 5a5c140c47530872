use base64::prelude::BASE64_STANDARD;
use base64::Engine;
use united_cinemas::codec::{
    decode, decode_sdp, description_from_parse, encode, encode_sdp, text_from_bytes,
    wire_from_json, CodecError, SdpKind, SessionDescription,
};
use webrtc::peer_connection::sdp::sdp_type::RTCSdpType;
use webrtc::peer_connection::sdp::session_description::RTCSessionDescription;

#[test]
fn encode_gives_padded_standard_base64() {
    assert_eq!(encode(""), "");
    assert_eq!(encode("f"), "Zg==");
    assert_eq!(encode("fo"), "Zm8=");
    assert_eq!(encode("foo"), "Zm9v");
    assert_eq!(encode("hello"), "aGVsbG8=");
    assert_eq!(encode("{\"a\":1}"), "eyJhIjoxfQ==");
}

#[test]
fn encode_works_on_utf8_bytes() {
    // U+00E9 is two bytes in UTF-8: c3 a9.
    assert_eq!(encode("\u{e9}"), "w6k=");
    assert_eq!(encode("\u{1F600}"), "8J+YgA==");
}

#[test]
fn decode_gives_the_text_under_the_base64() {
    assert_eq!(decode(""), Ok(String::new()));
    assert_eq!(decode("Zg=="), Ok("f".to_owned()));
    assert_eq!(decode("aGVsbG8="), Ok("hello".to_owned()));
    assert_eq!(decode("w6k="), Ok("\u{e9}".to_owned()));
}

#[test]
fn decode_turns_down_what_is_not_base64() {
    assert_eq!(decode("!!!!"), Err(CodecError::Base64));
    assert_eq!(decode("aGVsbG8"), Err(CodecError::Base64));
    assert_eq!(decode("aGVsbG8=="), Err(CodecError::Base64));
    assert_eq!(decode("aGVs bG8="), Err(CodecError::Base64));
    assert_eq!(decode("aGVsbG8=\n"), Err(CodecError::Base64));
    assert_eq!(decode("a"), Err(CodecError::Base64));
    // URL-safe alphabet is not the standard one.
    assert_eq!(decode("8J-YgA=="), Err(CodecError::Base64));
}

#[test]
fn decode_turns_down_stray_bits_in_the_last_symbol() {
    // "Zg==" is canonical for "f"; "Zh==" decodes to the same byte with bits left over.
    assert_eq!(decode("Zh=="), Err(CodecError::Base64));
    assert_eq!(decode("Zm9="), Err(CodecError::Base64));
}

#[test]
fn decode_turns_down_bytes_that_are_not_utf8() {
    let wire = BASE64_STANDARD.encode([0xffu8, 0xfe]);
    assert_eq!(wire, "//4=");
    assert_eq!(decode(&wire), Err(CodecError::Utf8));
    // A lone continuation byte, and a truncated two-byte sequence.
    assert_eq!(decode(&BASE64_STANDARD.encode([0x80u8])), Err(CodecError::Utf8));
    assert_eq!(decode(&BASE64_STANDARD.encode([0xc3u8])), Err(CodecError::Utf8));
}

#[test]
fn decode_undoes_encode() {
    let texts = [
        "",
        "a",
        "ab",
        "abc",
        "abcd",
        "v=0\r\no=- 0 0 IN IP4 127.0.0.1\r\n",
        "{\"type\":\"offer\",\"sdp\":\"v=0\"}",
        "\u{e9}\u{4e2d}\u{1F600}",
    ];
    for text in texts {
        assert_eq!(decode(&encode(text)), Ok(text.to_owned()));
    }
}

#[test]
fn encode_undoes_decode() {
    let wires = ["", "Zg==", "Zm8=", "Zm9v", "aGVsbG8=", "8J+YgA==", "eyJhIjoxfQ=="];
    for wire in wires {
        let text = decode(wire).unwrap();
        assert_eq!(encode(&text), wire);
    }
}

#[test]
fn text_from_bytes_reads_utf8() {
    assert_eq!(text_from_bytes(vec![]), Ok(String::new()));
    assert_eq!(text_from_bytes(vec![0x68, 0x69]), Ok("hi".to_owned()));
    assert_eq!(text_from_bytes(vec![0xc3, 0xa9]), Ok("\u{e9}".to_owned()));
    assert_eq!(text_from_bytes(vec![0xff]), Err(CodecError::Utf8));
    assert_eq!(text_from_bytes(vec![0x68, 0xc3]), Err(CodecError::Utf8));
    // An overlong encoding of '/' and a UTF-16 surrogate are not UTF-8.
    assert_eq!(text_from_bytes(vec![0xc0, 0xaf]), Err(CodecError::Utf8));
    assert_eq!(text_from_bytes(vec![0xed, 0xa0, 0x80]), Err(CodecError::Utf8));
}

#[test]
fn decode_sdp_reads_an_offer() {
    let wire = BASE64_STANDARD.encode("{\"type\":\"offer\",\"sdp\":\"v=0\\r\\n\"}");
    let offer = decode_sdp(&wire).unwrap();
    assert_eq!(offer.kind, SdpKind::Offer);
    assert_eq!(offer.sdp, "v=0\r\n");
}

#[test]
fn decode_sdp_reads_every_kind() {
    let kinds = [
        ("offer", SdpKind::Offer),
        ("pranswer", SdpKind::Pranswer),
        ("answer", SdpKind::Answer),
        ("rollback", SdpKind::Rollback),
        ("Unspecified", SdpKind::Unspecified),
    ];
    for (word, kind) in kinds {
        let json = format!("{{\"sdp\":\"x\",\"type\":\"{}\"}}", word);
        let description = decode_sdp(&encode(&json)).unwrap();
        assert_eq!(description.kind, kind);
        assert_eq!(description.sdp, "x");
    }
}

#[test]
fn decode_sdp_names_the_layer_that_failed() {
    assert_eq!(decode_sdp("???").unwrap_err(), CodecError::Base64);
    assert_eq!(decode_sdp("//4=").unwrap_err(), CodecError::Utf8);
    assert_eq!(decode_sdp(&encode("not json")).unwrap_err(), CodecError::Json);
    assert_eq!(decode_sdp(&encode("{\"type\":\"offer\"}")).unwrap_err(), CodecError::Json);
    assert_eq!(
        decode_sdp(&encode("{\"type\":\"bogus\",\"sdp\":\"\"}")).unwrap_err(),
        CodecError::Json
    );
    assert_eq!(decode_sdp("").unwrap_err(), CodecError::Json);
}

#[test]
fn encode_sdp_writes_json_under_base64() {
    let answer = SessionDescription { kind: SdpKind::Answer, sdp: "v=0\r\n".to_owned() };
    let wire = encode_sdp(&answer).unwrap();
    let json = String::from_utf8(BASE64_STANDARD.decode(&wire).unwrap()).unwrap();
    assert_eq!(json, "{\"type\":\"answer\",\"sdp\":\"v=0\\r\\n\"}");
}

#[test]
fn encode_sdp_agrees_with_the_webrtc_type() {
    let mut outside = RTCSessionDescription::default();
    outside.sdp_type = RTCSdpType::Offer;
    outside.sdp = "v=0\r\ns=-\r\n".to_owned();
    let expected = BASE64_STANDARD.encode(serde_json::to_string(&outside).unwrap());
    let ours = SessionDescription { kind: SdpKind::Offer, sdp: "v=0\r\ns=-\r\n".to_owned() };
    assert_eq!(encode_sdp(&ours), Ok(expected));
}

#[test]
fn sdp_survives_the_wire() {
    let kinds =
        [SdpKind::Unspecified, SdpKind::Offer, SdpKind::Pranswer, SdpKind::Answer, SdpKind::Rollback];
    for kind in kinds {
        let description = SessionDescription { kind, sdp: "v=0\r\na=\"quoted\"\r\n".to_owned() };
        let back = decode_sdp(&encode_sdp(&description).unwrap()).unwrap();
        assert_eq!(back.kind, kind);
        assert_eq!(back.sdp, description.sdp);
    }
}

#[test]
fn wire_from_json_encodes_what_the_serializer_gave() {
    assert_eq!(wire_from_json(Some("{}".to_owned())), Ok("e30=".to_owned()));
    assert_eq!(wire_from_json(None), Err(CodecError::Json));
}

#[test]
fn description_from_parse_keeps_the_first_failure() {
    let offer = SessionDescription { kind: SdpKind::Offer, sdp: "v=0".to_owned() };
    let read = description_from_parse(Ok("{}".to_owned()), Some(offer.clone())).unwrap();
    assert_eq!(read.kind, SdpKind::Offer);
    assert_eq!(read.sdp, "v=0");
    assert_eq!(
        description_from_parse(Ok("{}".to_owned()), None).unwrap_err(),
        CodecError::Json
    );
    assert_eq!(
        description_from_parse(Err(CodecError::Utf8), None).unwrap_err(),
        CodecError::Utf8
    );
    assert_eq!(
        description_from_parse(Err(CodecError::Base64), Some(offer)).unwrap_err(),
        CodecError::Base64
    );
}

#[test]
fn a_megabyte_of_sdp_goes_through() {
    let mut sdp = String::with_capacity(1 << 20);
    while sdp.len() < (1 << 20) - 64 {
        sdp.push_str("a=candidate:1 1 udp 2130706431 192.0.2.1 54321 typ host\r\n");
    }
    let offer = SessionDescription { kind: SdpKind::Offer, sdp };
    let wire = encode_sdp(&offer).unwrap();
    assert!(wire.len() > 1 << 20);
    let back = decode_sdp(&wire).unwrap();
    assert_eq!(back.kind, SdpKind::Offer);
    assert_eq!(back.sdp, offer.sdp);
}

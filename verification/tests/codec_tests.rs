//! The frame codec from outside: canonical encoding, tolerant decoding,
//! the round trip on the typed form, and the decode error taxonomy.
use discord_gateway::codec::{decode, encode, heartbeat_frame, hello_interval, identify_frame,
    obj_string_field, payload_bool, resume_frame, DecodeError, Frame};
use discord_gateway::events::GatewayEvents;

fn chars(s: &str) -> Vec<char> {
    s.chars().collect()
}

#[test]
fn encode_hello_is_canonical() {
    let f = Frame {
        op: GatewayEvents::Hello,
        s: None,
        t: None,
        d: chars("{\"heartbeat_interval\":41250}"),
    };
    let out = encode(&f);
    assert_eq!(out, chars("{\"op\":10,\"d\":{\"heartbeat_interval\":41250}}"));
}

#[test]
fn encode_dispatch_is_canonical() {
    let f = Frame {
        op: GatewayEvents::Dispatch,
        s: Some(57),
        t: Some(chars("MESSAGE_CREATE")),
        d: chars("{\"id\":\"5\"}"),
    };
    let out = encode(&f);
    assert_eq!(
        out,
        chars("{\"op\":0,\"s\":57,\"t\":\"MESSAGE_CREATE\",\"d\":{\"id\":\"5\"}}")
    );
}

#[test]
fn round_trip_plain_frame() {
    let f = Frame {
        op: GatewayEvents::Hello,
        s: None,
        t: None,
        d: chars("{\"heartbeat_interval\":41250}"),
    };
    let out = encode(&f);
    let back = decode(out.as_slice()).expect("canonical encoding must decode");
    assert_eq!(back.op, GatewayEvents::Hello);
    assert_eq!(back.s, None);
    assert!(back.t.is_none());
    assert_eq!(back.d, f.d);
}

#[test]
fn round_trip_dispatch_frame() {
    let f = Frame {
        op: GatewayEvents::Dispatch,
        s: Some(u64::MAX),
        t: Some(chars("GUILD_MEMBER_ADD")),
        d: chars("{\"a\":[1,2,{\"b\":\"x,}y\"}],\"c\":\"\\\"esc\\\"\"}"),
    };
    let out = encode(&f);
    let back = decode(out.as_slice()).expect("canonical encoding must decode");
    assert_eq!(back.op, GatewayEvents::Dispatch);
    assert_eq!(back.s, Some(u64::MAX));
    assert_eq!(back.t.unwrap(), chars("GUILD_MEMBER_ADD"));
    assert_eq!(back.d, f.d);
}

#[test]
fn decode_accepts_any_key_order_and_whitespace() {
    let raw = chars(" { \"d\" : null , \"op\" : 11 } ");
    let f = decode(raw.as_slice()).expect("reordered envelope must decode");
    assert_eq!(f.op, GatewayEvents::HeartbeatACK);
    assert_eq!(f.s, None);
    assert!(f.t.is_none());
    assert_eq!(f.d, chars("null"));
}

#[test]
fn decode_defaults_missing_payload_to_null() {
    let raw = chars("{\"op\":11}");
    let f = decode(raw.as_slice()).unwrap();
    assert_eq!(f.op, GatewayEvents::HeartbeatACK);
    assert_eq!(f.d, chars("null"));
}

#[test]
fn decode_skips_unknown_keys() {
    let raw = chars("{\"op\":11,\"extra\":{\"deep\":[1,\"]\"]},\"d\":null}");
    let f = decode(raw.as_slice()).unwrap();
    assert_eq!(f.op, GatewayEvents::HeartbeatACK);
    assert_eq!(f.d, chars("null"));
}

#[test]
fn decode_unknown_opcode_is_its_own_error() {
    let raw = chars("{\"op\": 99, \"d\": null}");
    assert_eq!(decode(raw.as_slice()).unwrap_err(), DecodeError::UnknownOpcode);
}

#[test]
fn decode_reserved_opcode_is_unknown() {
    let raw = chars("{\"op\":5,\"d\":null}");
    assert_eq!(decode(raw.as_slice()).unwrap_err(), DecodeError::UnknownOpcode);
}

#[test]
fn decode_rejects_malformed_text() {
    assert_eq!(decode(chars("").as_slice()).unwrap_err(), DecodeError::MalformedFrame);
    assert_eq!(decode(chars("{").as_slice()).unwrap_err(), DecodeError::MalformedFrame);
    assert_eq!(decode(chars("[]").as_slice()).unwrap_err(), DecodeError::MalformedFrame);
    assert_eq!(decode(chars("{}").as_slice()).unwrap_err(), DecodeError::MalformedFrame);
    assert_eq!(decode(chars("{\"op\":11,\"d\":null} trailing").as_slice()).unwrap_err(), DecodeError::MalformedFrame);
    assert_eq!(decode(chars("{\"op\":11,\"op\":11,\"d\":null}").as_slice()).unwrap_err(), DecodeError::MalformedFrame);
}

#[test]
fn decode_enforces_dispatch_field_invariant() {
    // Dispatch requires both s and t.
    assert_eq!(decode(chars("{\"op\":0,\"d\":null}").as_slice()).unwrap_err(), DecodeError::MalformedFrame);
    assert_eq!(decode(chars("{\"op\":0,\"s\":1,\"d\":null}").as_slice()).unwrap_err(), DecodeError::MalformedFrame);
    // Other opcodes must not carry them.
    assert_eq!(decode(chars("{\"op\":11,\"s\":3,\"d\":null}").as_slice()).unwrap_err(), DecodeError::MalformedFrame);
    // Null s and t count as absent.
    let f = decode(chars("{\"op\":11,\"s\":null,\"t\":null,\"d\":null}").as_slice()).unwrap();
    assert_eq!(f.op, GatewayEvents::HeartbeatACK);
    assert_eq!(f.s, None);
    assert!(f.t.is_none());
}

#[test]
fn decode_rejects_escapes_in_tag() {
    assert_eq!(decode(chars("{\"op\":0,\"s\":1,\"t\":\"A\\\\B\",\"d\":null}").as_slice()).unwrap_err(), DecodeError::MalformedFrame);
}

#[test]
fn decode_rejects_sequence_overflow() {
    let raw = chars("{\"op\":0,\"s\":18446744073709551616,\"t\":\"X\",\"d\":null}");
    assert_eq!(decode(raw.as_slice()).unwrap_err(), DecodeError::MalformedFrame);
}

#[test]
fn decode_rejects_mismatched_brackets() {
    // A `{` closed by `]`, and the reverse, is not valid structured text.
    assert_eq!(
        decode(chars("{\"op\":11,\"d\":[1,2}}").as_slice()).unwrap_err(),
        DecodeError::MalformedFrame
    );
    assert_eq!(
        decode(chars("{\"op\":11,\"d\":{\"a\":1]}").as_slice()).unwrap_err(),
        DecodeError::MalformedFrame
    );
    assert_eq!(
        decode(chars("{\"op\":11,\"d\":[[1],{\"a\":[2}]]}").as_slice()).unwrap_err(),
        DecodeError::MalformedFrame
    );
    // Properly nested mixed brackets still pass.
    let f = decode(chars("{\"op\":11,\"d\":[[1],{\"a\":[2]}]}").as_slice()).unwrap();
    assert_eq!(f.d, chars("[[1],{\"a\":[2]}]"));
}

#[test]
fn heartbeat_frame_carries_the_sequence() {
    assert_eq!(heartbeat_frame(Some(57)), chars("{\"op\":1,\"d\":57}"));
    assert_eq!(heartbeat_frame(None), chars("{\"op\":1,\"d\":null}"));
}

#[test]
fn identify_frame_carries_the_token() {
    let out = identify_frame(chars("example-token").as_slice(), 0).unwrap();
    assert_eq!(
        out,
        chars(
            "{\"op\":2,\"d\":{\"token\":\"example-token\",\"intents\":0,\"properties\":{\"os\":\"linux\",\"browser\":\"discord_gateway\",\"device\":\"discord_gateway\"}}}"
        )
    );
    // A token that cannot stand between quotes unescaped is refused.
    assert!(identify_frame(chars("bad\"token").as_slice(), 0).is_none());
}

#[test]
fn resume_frame_carries_the_stored_session() {
    let out = resume_frame(
        chars("example-token").as_slice(),
        chars("abc").as_slice(),
        57,
    )
    .unwrap();
    assert_eq!(
        out,
        chars("{\"op\":6,\"d\":{\"token\":\"example-token\",\"session_id\":\"abc\",\"seq\":57}}")
    );
    assert!(resume_frame(chars("t").as_slice(), chars("a\\b").as_slice(), 1).is_none());
}

#[test]
fn built_frames_decode_back() {
    let f = decode(heartbeat_frame(Some(57)).as_slice()).unwrap();
    assert_eq!(f.op, GatewayEvents::Heartbeat);
    assert_eq!(f.d, chars("57"));
    let out = resume_frame(chars("tok").as_slice(), chars("abc").as_slice(), 9).unwrap();
    let f = decode(out.as_slice()).unwrap();
    assert_eq!(f.op, GatewayEvents::Resume);
    assert_eq!(f.d, chars("{\"token\":\"tok\",\"session_id\":\"abc\",\"seq\":9}"));
}

#[test]
fn hello_interval_reads_the_payload_field() {
    let d = chars("{\"_trace\":[\"gw\"],\"heartbeat_interval\":41250}");
    assert_eq!(hello_interval(d.as_slice()), Some(41250));
    assert_eq!(hello_interval(chars("null").as_slice()), None);
    assert_eq!(hello_interval(chars("{\"other\":1}").as_slice()), None);
}

#[test]
fn obj_string_field_reads_ready_payload() {
    let d = chars("{\"v\":9,\"session_id\":\"abc\",\"resume_gateway_url\":\"wss://r\"}");
    assert_eq!(obj_string_field(d.as_slice(), "session_id"), Some(chars("abc")));
    assert_eq!(
        obj_string_field(d.as_slice(), "resume_gateway_url"),
        Some(chars("wss://r"))
    );
    assert_eq!(obj_string_field(d.as_slice(), "missing"), None);
}

#[test]
fn payload_bool_reads_exact_literals() {
    assert_eq!(payload_bool(chars("true").as_slice()), Some(true));
    assert_eq!(payload_bool(chars("false").as_slice()), Some(false));
    assert_eq!(payload_bool(chars("null").as_slice()), None);
    assert_eq!(payload_bool(chars("truee").as_slice()), None);
}

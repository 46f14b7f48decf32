use mcping::address::{choose_java_endpoint, parse_address};
use mcping::java::{decode_java_status, decode_packet, JavaPhase, JavaSession, Packet};
use mcping::{Chat, Error};

fn varint(mut v: u32) -> Vec<u8> {
    let mut out = Vec::new();
    loop {
        if v < 0x80 {
            out.push(v as u8);
            return out;
        }
        out.push((v % 0x80 + 0x80) as u8);
        v /= 0x80;
    }
}

/// The bytes of a `Response` packet as read off the wire, after the
/// frame length prefix has been consumed.
fn response_packet(json: &str) -> Vec<u8> {
    let mut body = vec![0x00];
    body.extend_from_slice(&varint(json.len() as u32));
    body.extend_from_slice(json.as_bytes());
    body
}

/// The bytes of a `Pong` packet as read off the wire.
fn pong_packet(payload: u64) -> Vec<u8> {
    let mut body = vec![0x01];
    body.extend_from_slice(&payload.to_be_bytes());
    body
}

const STATUS: &str = "{\"version\":{\"name\":\"1.8.9\",\"protocol\":47},\
    \"players\":{\"max\":20,\"online\":2,\"sample\":\
    [{\"name\":\"alice\",\"id\":\"u-1\"},{\"name\":\"bob\",\"id\":\"u-2\"}]},\
    \"description\":{\"text\":\"A Minecraft Server\"},\
    \"favicon\":\"data:image/png;base64,AAAA\"}";

#[test]
fn handshake_frame_is_byte_exact() {
    let mut s = JavaSession::new(String::from("a.b.c"), 25599, 7);
    let frame = s.handshake_frame();
    let expected = vec![
        11, 0x00, 47, 5, b'a', b'.', b'b', b'.', b'c', 0x63, 0xff, 0x01,
    ];
    assert_eq!(frame, expected);
    assert_eq!(s.phase, JavaPhase::HandshakeSent);
}

#[test]
fn status_request_frame_is_byte_exact() {
    let mut s = JavaSession::new(String::from("h"), 25565, 7);
    s.handshake_frame();
    assert_eq!(s.status_request_frame(), vec![1, 0x00]);
    assert_eq!(s.phase, JavaPhase::StatusRequested);
}

#[test]
fn ping_frame_is_byte_exact() {
    let mut s = JavaSession::new(String::from("h"), 25565, 0x0102030405060708);
    s.handshake_frame();
    s.status_request_frame();
    // Any well-formed response text reaches the next phase; decoding it
    // is a separate step.
    s.accept_status(&response_packet("{}")).unwrap();
    assert_eq!(s.ping_frame(), vec![9, 0x01, 1, 2, 3, 4, 5, 6, 7, 8]);
    assert_eq!(s.phase, JavaPhase::PingSent);
}

#[test]
fn happy_path_matches_ping_and_pong() {
    let mut s = JavaSession::new(String::from("mc.example.org"), 25565, 0xfeedbeefcafe0123);
    s.handshake_frame();
    s.status_request_frame();
    let text = s.accept_status(&response_packet(STATUS)).unwrap();
    let resp = decode_java_status(&text).unwrap();
    assert_eq!(resp.players.online, 2);
    assert_eq!(resp.players.max, 20);
    s.ping_frame();
    let token = s.ping_payload;
    assert_eq!(s.accept_pong(&pong_packet(token)), Ok(()));
    assert_eq!(s.phase, JavaPhase::Done);
}

#[test]
fn mismatched_pong_payload_is_an_invalid_packet() {
    let mut s = JavaSession::new(String::from("h"), 25565, 41);
    s.handshake_frame();
    s.status_request_frame();
    s.accept_status(&response_packet(STATUS)).unwrap();
    s.ping_frame();
    assert_eq!(s.accept_pong(&pong_packet(42)), Err(Error::InvalidPacket));
    assert_eq!(s.phase, JavaPhase::PingSent);
}

#[test]
fn wrong_packet_in_the_pong_slot_is_invalid() {
    let mut s = JavaSession::new(String::from("h"), 25565, 41);
    s.handshake_frame();
    s.status_request_frame();
    s.accept_status(&response_packet(STATUS)).unwrap();
    s.ping_frame();
    assert_eq!(
        s.accept_pong(&response_packet(STATUS)),
        Err(Error::InvalidPacket)
    );
}

#[test]
fn wrong_packet_in_the_status_slot_is_invalid() {
    let mut s = JavaSession::new(String::from("h"), 25565, 41);
    s.handshake_frame();
    s.status_request_frame();
    assert_eq!(
        s.accept_status(&pong_packet(41)),
        Err(Error::InvalidPacket)
    );
    assert_eq!(s.phase, JavaPhase::StatusRequested);
}

#[test]
fn unknown_packet_id_is_invalid() {
    let body = vec![0x7e, 0x00];
    assert_eq!(decode_packet(&body), Err(Error::InvalidPacket));
}

#[test]
fn response_packet_decodes_to_its_text() {
    match decode_packet(&response_packet("hi")).unwrap() {
        Packet::Response { response } => assert_eq!(response, "hi"),
        p => panic!("unexpected packet {:?}", p),
    }
}

#[test]
fn fresh_sessions_draw_distinct_ping_tokens() {
    let a = JavaSession::start(String::from("h"), 25565);
    let b = JavaSession::start(String::from("h"), 25565);
    assert_ne!(a.ping_payload, b.ping_payload);
}

#[test]
fn srv_supplied_port_reaches_the_handshake() {
    let (host, port) = parse_address("mc.example.org", 25565).unwrap();
    let (_ip, port) = choose_java_endpoint(Some((Some("10.0.0.9"), 25599)), None, port).unwrap();
    let mut s = JavaSession::new(host, port, 1);
    let frame = s.handshake_frame();
    // The two port bytes sit just before the trailing next-state byte.
    let n = frame.len();
    assert_eq!(&frame[n - 3..n - 1], &[0x63, 0xff]);
    assert_ne!(&frame[n - 3..n - 1], &25565u16.to_be_bytes());
}

#[test]
fn malformed_json_is_a_json_error() {
    match decode_java_status("not json") {
        Err(Error::JsonErr(_)) => {}
        r => panic!("unexpected result {:?}", r),
    }
}

#[test]
fn object_and_string_chat_both_expose_their_text() {
    let with_object = "{\"version\":{\"name\":\"v\",\"protocol\":1},\
        \"players\":{\"max\":1,\"online\":0},\"description\":{\"text\":\"hi\"}}";
    let with_string = "{\"version\":{\"name\":\"v\",\"protocol\":1},\
        \"players\":{\"max\":1,\"online\":0},\"description\":\"hi\"}";
    let a = decode_java_status(with_object).unwrap();
    let b = decode_java_status(with_string).unwrap();
    assert_eq!(a.description.text(), "hi");
    assert_eq!(b.description.text(), "hi");
    assert!(matches!(a.description, Chat::Structured(_)));
    assert!(matches!(b.description, Chat::Plain(_)));
}

#[test]
fn full_status_document_decodes_field_by_field() {
    let r = decode_java_status(STATUS).unwrap();
    assert_eq!(r.version.name, "1.8.9");
    assert_eq!(r.version.protocol, 47);
    assert_eq!(r.players.max, 20);
    assert_eq!(r.players.online, 2);
    let sample = r.players.sample.unwrap();
    assert_eq!(sample.len(), 2);
    assert_eq!(sample[0].name, "alice");
    assert_eq!(sample[0].id, "u-1");
    assert_eq!(sample[1].name, "bob");
    assert_eq!(r.description.text(), "A Minecraft Server");
    assert_eq!(r.favicon, Some(String::from("data:image/png;base64,AAAA")));
}

#[test]
fn unknown_fields_are_ignored() {
    let doc = "{\"version\":{\"name\":\"v\",\"protocol\":1,\"extra\":true},\
        \"players\":{\"max\":1,\"online\":0,\"more\":[]},\
        \"description\":\"hi\",\"modinfo\":{\"type\":\"FML\"}}";
    let r = decode_java_status(doc).unwrap();
    assert_eq!(r.version.protocol, 1);
    assert_eq!(r.favicon, None);
}

#[test]
fn null_or_missing_sample_is_absent() {
    let missing = "{\"version\":{\"name\":\"v\",\"protocol\":1},\
        \"players\":{\"max\":1,\"online\":0},\"description\":\"hi\"}";
    let null = "{\"version\":{\"name\":\"v\",\"protocol\":1},\
        \"players\":{\"max\":1,\"online\":0,\"sample\":null},\"description\":\"hi\"}";
    assert_eq!(decode_java_status(missing).unwrap().players.sample, None);
    assert_eq!(decode_java_status(null).unwrap().players.sample, None);
}

#[test]
fn wrong_shapes_are_json_errors() {
    let cases = [
        // No description at all.
        "{\"version\":{\"name\":\"v\",\"protocol\":1},\"players\":{\"max\":1,\"online\":0}}",
        // A numeric description fits neither chat shape.
        "{\"version\":{\"name\":\"v\",\"protocol\":1},\"players\":{\"max\":1,\"online\":0},\"description\":7}",
        // A fractional protocol is not an integer.
        "{\"version\":{\"name\":\"v\",\"protocol\":1.5},\"players\":{\"max\":1,\"online\":0},\"description\":\"hi\"}",
        // A player count beyond a signed 64-bit value.
        "{\"version\":{\"name\":\"v\",\"protocol\":1},\"players\":{\"max\":99999999999999999999,\"online\":0},\"description\":\"hi\"}",
        // A sample that is not an array.
        "{\"version\":{\"name\":\"v\",\"protocol\":1},\"players\":{\"max\":1,\"online\":0,\"sample\":3},\"description\":\"hi\"}",
        // The document itself is not an object.
        "[1,2,3]",
    ];
    for doc in cases {
        match decode_java_status(doc) {
            Err(Error::JsonErr(_)) => {}
            r => panic!("unexpected result {:?} for {}", r, doc),
        }
    }
}

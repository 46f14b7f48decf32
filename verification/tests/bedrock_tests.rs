use mcping::bedrock::{
    parse_unconnected_pong, unconnected_ping_bytes, Bedrock, BedrockEdition, BedrockResponse,
    Packet,
};
use mcping::Error;

const MAGIC: [u8; 16] = [
    0x00, 0xff, 0xff, 0x00, 0xfe, 0xfe, 0xfe, 0xfe, 0xfd, 0xfd, 0xfd, 0xfd, 0x12, 0x34, 0x56,
    0x78,
];

fn pong_datagram(time: u64, server_id: u64, payload: &str) -> Vec<u8> {
    let mut d = vec![0x1c];
    d.extend_from_slice(&time.to_be_bytes());
    d.extend_from_slice(&server_id.to_be_bytes());
    d.extend_from_slice(&MAGIC);
    d.extend_from_slice(&(payload.len() as u16).to_be_bytes());
    d.extend_from_slice(payload.as_bytes());
    d
}

#[test]
fn ping_datagram_is_byte_exact() {
    let ping = unconnected_ping_bytes();
    let mut expected = vec![0x01];
    expected.extend_from_slice(&[0; 8]);
    expected.extend_from_slice(&MAGIC);
    expected.extend_from_slice(&[0; 8]);
    assert_eq!(ping, expected);
    assert_eq!(ping.len(), 33);
}

#[test]
fn pong_happy_path_parses() {
    let d = pong_datagram(7, 99, "MCPE;A server");
    match parse_unconnected_pong(&d).unwrap() {
        Packet::UnconnectedPong { time, server_id, payload } => {
            assert_eq!(time, 7);
            assert_eq!(server_id, 99);
            assert_eq!(payload, "MCPE;A server");
        }
        p => panic!("unexpected packet {:?}", p),
    }
}

#[test]
fn pong_with_perturbed_magic_is_invalid() {
    let mut d = pong_datagram(7, 99, "MCPE;A server");
    d[20] ^= 0x01;
    assert_eq!(parse_unconnected_pong(&d), Err(Error::InvalidPacket));
}

#[test]
fn pong_with_wrong_packet_id_is_invalid() {
    let mut d = pong_datagram(7, 99, "MCPE;A server");
    d[0] = 0x1d;
    assert_eq!(parse_unconnected_pong(&d), Err(Error::InvalidPacket));
}

#[test]
fn short_datagram_is_invalid() {
    assert_eq!(parse_unconnected_pong(&vec![]), Err(Error::InvalidPacket));
    assert_eq!(parse_unconnected_pong(&vec![0x1c, 0, 0]), Err(Error::InvalidPacket));
}

#[test]
fn pong_parses_from_a_zero_padded_receive_buffer() {
    // The receiver hands over its whole buffer; a zero u16 length after
    // the magic reads as an empty payload.
    let mut d = pong_datagram(1, 2, "");
    d.resize(1024, 0);
    match parse_unconnected_pong(&d).unwrap() {
        Packet::UnconnectedPong { payload, .. } => assert_eq!(payload, ""),
        p => panic!("unexpected packet {:?}", p),
    }
}

#[test]
fn payload_with_every_field_extracts() {
    let r = BedrockResponse::extract(
        "MCPE;Dedicated Server;390;1.16.200;0;10;13253860892328930776;Bedrock level;Survival;1;19132;19133",
    )
    .unwrap();
    assert_eq!(r.edition, BedrockEdition::PocketEdition);
    assert_eq!(r.motd_1, "Dedicated Server");
    assert_eq!(r.protocol_version, Some(390));
    assert_eq!(r.version_name, "1.16.200");
    assert_eq!(r.players_online, Some(0));
    assert_eq!(r.players_max, Some(10));
    // The ID in this payload overflows a signed 64-bit value, so it is
    // reported as absent.
    assert_eq!(r.server_id, None);
    assert_eq!(r.motd_2, Some(String::from("Bedrock level")));
    assert_eq!(r.game_mode, Some(String::from("Survival")));
    assert_eq!(r.game_mode_id, Some(1));
    assert_eq!(r.port_v4, Some(19132));
    assert_eq!(r.port_v6, Some(19133));
}

#[test]
fn payload_with_only_the_edition_is_rejected() {
    assert!(BedrockResponse::extract("MCPE").is_none());
    assert!(BedrockResponse::extract("").is_none());
}

#[test]
fn payload_with_edition_and_motd_alone_is_accepted() {
    let r = BedrockResponse::extract("MCPE;MOTD").unwrap();
    assert_eq!(r.edition, BedrockEdition::PocketEdition);
    assert_eq!(r.motd_1, "MOTD");
    assert_eq!(r.protocol_version, None);
    assert_eq!(r.version_name, "");
    assert_eq!(r.players_online, None);
    assert_eq!(r.players_max, None);
    assert_eq!(r.server_id, None);
    assert_eq!(r.motd_2, None);
    assert_eq!(r.game_mode, None);
    assert_eq!(r.game_mode_id, None);
    assert_eq!(r.port_v4, None);
    assert_eq!(r.port_v6, None);
}

#[test]
fn unparseable_numeric_field_becomes_absent_but_later_fields_survive() {
    let r = BedrockResponse::extract("MCPE;M;390;1.0;abc;10").unwrap();
    assert_eq!(r.players_online, None);
    assert_eq!(r.players_max, Some(10));
}

#[test]
fn edition_tokens_match_case_insensitively() {
    assert_eq!(
        BedrockEdition::from(String::from("mcpe")),
        BedrockEdition::PocketEdition
    );
    assert_eq!(
        BedrockEdition::from(String::from("McPe")),
        BedrockEdition::PocketEdition
    );
    assert_eq!(
        BedrockEdition::from(String::from("MCEE")),
        BedrockEdition::EducationEdition
    );
    assert_eq!(
        BedrockEdition::from(String::from("mcee")),
        BedrockEdition::EducationEdition
    );
    assert_eq!(
        BedrockEdition::from(String::from("Paper")),
        BedrockEdition::Other(String::from("Paper"))
    );
    assert_eq!(
        BedrockEdition::from(String::from("")),
        BedrockEdition::Other(String::from(""))
    );
}

#[test]
fn edition_labels_render_the_tokens() {
    assert_eq!(BedrockEdition::PocketEdition.label(), "MCPE");
    assert_eq!(BedrockEdition::EducationEdition.label(), "MCEE");
    assert_eq!(BedrockEdition::Other(String::from("x")).label(), "x");
}

#[test]
fn bedrock_defaults_match_the_contract() {
    let b = Bedrock::default();
    assert_eq!(b.server_address, "");
    assert_eq!(b.timeout, None);
    assert_eq!(b.tries, 5);
    assert_eq!(b.wait_to_try, Some(std::time::Duration::from_millis(10)));
    assert_eq!(b.socket_addresses.len(), 3);
    for (i, a) in b.socket_addresses.iter().enumerate() {
        assert_eq!(a.ip, "0.0.0.0");
        assert_eq!(a.port, 25567 + i as u16);
    }
}

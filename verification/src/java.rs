//! The Java-edition Server List Ping: packet framing, the strictly
//! sequential session (handshake, status request, status response,
//! ping, pong), and the decoding of the status document.
//!
//! The session produces the exact bytes to put on the wire and judges
//! the frames that come back; the TCP work itself stays with the
//! caller. A pong only closes the session when its payload bit-matches
//! the ping's.

use vstd::prelude::*;

verus! {

use vstd::utf8::*;
use vstd::string::StringExecFns;
use crate::Error;
use crate::codec::{
    spec_varint,
    spec_read_varint,
    spec_be_bytes,
    spec_read_be,
    spec_write_string,
    spec_read_string,
    lemma_varint_at_most_five_bytes,
    lemma_be_bytes_len,
    write_varint_u32,
    write_string,
    write_u16_be,
    write_u64_be,
    write_payload,
    read_varint_u32,
    read_u64_be,
    read_string,
};
use crate::json::{JsonValue, spec_json_parse, parse_json, spec_obj_get, obj_get};

/// Configuration for pinging a Java server: the `host[:port]` text and
/// an optional timeout for the TCP connect.
#[derive(Debug, Clone, PartialEq, Eq, Hash)]
pub struct Java {
    /// The server address: an IP or a hostname, optionally with a port.
    pub server_address: String,
    /// The connection timeout if a connection cannot be made.
    pub timeout: Option<core::time::Duration>,
}

// ---------------------------------------------------------------------
// The status document and its spec-level model
// ---------------------------------------------------------------------

/// Information about the server's version.
#[derive(Debug, Clone, PartialEq)]
pub struct Version {
    /// The name of the version the server is running.
    pub name: String,
    /// The protocol version number.
    pub protocol: i64,
}

/// An online player of the server.
#[derive(Debug, Clone, PartialEq)]
pub struct Player {
    /// The name of the player.
    pub name: String,
    /// The player's UUID.
    pub id: String,
}

/// The stats for players on the server.
#[derive(Debug, Clone, PartialEq)]
pub struct Players {
    /// The max amount of players.
    pub max: i64,
    /// The amount of players online.
    pub online: i64,
    /// A preview of which players are online, if the server sent one.
    pub sample: Option<Vec<Player>>,
}

/// The object form of a chat component: just its text.
#[derive(Debug, Clone, PartialEq)]
pub struct Text {
    /// The text of the component.
    pub text: String,
}

/// A chat component limited to its text: either the object form
/// `{"text": ...}` or a bare string.
#[derive(Debug, Clone, PartialEq)]
pub enum Chat {
    Structured(Text),
    Plain(String),
}

/// The server status response.
#[derive(Debug, Clone, PartialEq)]
pub struct JavaResponse {
    /// The version of the server.
    pub version: Version,
    /// Information about online players.
    pub players: Players,
    /// The description of the server (MOTD).
    pub description: Chat,
    /// The server icon, a Base64-encoded PNG image in a data URL.
    pub favicon: Option<String>,
}

pub struct VersionModel {
    pub name: Seq<char>,
    pub protocol: i64,
}

pub struct PlayerModel {
    pub name: Seq<char>,
    pub id: Seq<char>,
}

pub struct PlayersModel {
    pub max: i64,
    pub online: i64,
    pub sample: Option<Seq<PlayerModel>>,
}

pub enum ChatModel {
    Structured(Seq<char>),
    Plain(Seq<char>),
}

pub struct JavaResponseModel {
    pub version: VersionModel,
    pub players: PlayersModel,
    pub description: ChatModel,
    pub favicon: Option<Seq<char>>,
}

impl View for Version {
    type V = VersionModel;

    open spec fn view(&self) -> VersionModel {
        VersionModel { name: self.name@, protocol: self.protocol }
    }
}

impl View for Player {
    type V = PlayerModel;

    open spec fn view(&self) -> PlayerModel {
        PlayerModel { name: self.name@, id: self.id@ }
    }
}

impl View for Players {
    type V = PlayersModel;

    open spec fn view(&self) -> PlayersModel {
        PlayersModel {
            max: self.max,
            online: self.online,
            sample: match self.sample {
                None => None,
                Some(v) => Some(v@.map_values(|p: Player| p@)),
            },
        }
    }
}

impl View for Chat {
    type V = ChatModel;

    open spec fn view(&self) -> ChatModel {
        match self {
            Chat::Structured(t) => ChatModel::Structured(t.text@),
            Chat::Plain(s) => ChatModel::Plain(s@),
        }
    }
}

impl View for JavaResponse {
    type V = JavaResponseModel;

    open spec fn view(&self) -> JavaResponseModel {
        JavaResponseModel {
            version: self.version@,
            players: self.players@,
            description: self.description@,
            favicon: match self.favicon {
                None => None,
                Some(f) => Some(f@),
            },
        }
    }
}

impl ChatModel {
    /// The text either form of a chat component carries.
    pub open spec fn spec_text(self) -> Seq<char> {
        match self {
            ChatModel::Structured(t) => t,
            ChatModel::Plain(s) => s,
        }
    }
}

impl Chat {
    /// The text of the component, whichever shape it came in.
    pub fn text(&self) -> (r: &str)
        ensures
            r@ == self@.spec_text(),
    {
        match self {
            Chat::Structured(t) => t.text.as_str(),
            Chat::Plain(s) => s.as_str(),
        }
    }
}

// ---------------------------------------------------------------------
// Packets and frames
// ---------------------------------------------------------------------

/// A packet of the Server List Ping exchange.
#[derive(Debug, PartialEq)]
pub enum Packet {
    Handshake { version: i32, host: String, port: u16, next_state: i32 },
    Response { response: String },
    Pong { payload: u64 },
    Request {},
    Ping { payload: u64 },
}

/// The two packets a server may answer with, at spec level.
pub enum PacketModel {
    Response(Seq<char>),
    Pong(u64),
}

/// A frame is the body prefixed with its length as a VarInt; the length
/// covers packet ID and body only.
pub open spec fn spec_frame(body: Seq<u8>) -> Seq<u8> {
    spec_varint(body.len() as int) + body
}

/// The handshake body the library sends: packet ID `0x00`, protocol
/// version 47, the host as a length-prefixed string, the port
/// big-endian, and next state 1 (status).
pub open spec fn spec_handshake_body(host: Seq<char>, port: u16) -> Seq<u8> {
    spec_varint(0) + spec_varint(47) + spec_write_string(host) + spec_be_bytes(port as int, 2)
        + spec_varint(1)
}

/// The handshake packet on the wire.
pub open spec fn spec_handshake_frame(host: Seq<char>, port: u16) -> Seq<u8> {
    spec_frame(spec_handshake_body(host, port))
}

/// The status request on the wire: an empty body under packet ID `0x00`.
pub open spec fn spec_status_request_frame() -> Seq<u8> {
    spec_frame(spec_varint(0))
}

/// The ping on the wire: packet ID `0x01` and the payload big-endian.
pub open spec fn spec_ping_frame(payload: u64) -> Seq<u8> {
    spec_frame(spec_varint(1) + spec_be_bytes(payload as int, 8))
}

/// What a received frame (without its length prefix) means: packet ID
/// `0x00` carries the status text, `0x01` a pong payload; anything
/// else, or a body that does not parse, is an invalid packet.
pub open spec fn spec_decode_packet(bytes: Seq<u8>) -> Result<PacketModel, Error> {
    match spec_read_varint(bytes, 0) {
        Err(_) => Err(Error::InvalidPacket),
        Ok((id, n)) => {
            if id == 0 {
                match spec_read_string(bytes, n) {
                    Ok((s, _)) => Ok(PacketModel::Response(s)),
                    Err(_) => Err(Error::InvalidPacket),
                }
            } else if id == 1 {
                match spec_read_be(bytes, n, 8) {
                    Ok((v, _)) => Ok(PacketModel::Pong(v as u64)),
                    Err(_) => Err(Error::InvalidPacket),
                }
            } else {
                Err(Error::InvalidPacket)
            }
        },
    }
}

/// Decodes a received frame into the packet it carries.
pub fn decode_packet(frame: &Vec<u8>) -> (r: Result<Packet, Error>)
    ensures
        match spec_decode_packet(frame@) {
            Ok(PacketModel::Response(s)) => r matches Ok(Packet::Response { response })
                && response@ == s,
            Ok(PacketModel::Pong(v)) => r matches Ok(Packet::Pong { payload }) && payload == v,
            Err(e) => r == Err::<Packet, Error>(e),
        },
{
    let (id, n) = match read_varint_u32(frame, 0) {
        Ok(p) => p,
        Err(_) => {
            return Err(Error::InvalidPacket);
        },
    };
    if id == 0 {
        match read_string(frame, n) {
            Ok((s, _)) => Ok(Packet::Response { response: s }),
            Err(_) => Err(Error::InvalidPacket),
        }
    } else if id == 1 {
        match read_u64_be(frame, n) {
            Ok((v, _)) => Ok(Packet::Pong { payload: v }),
            Err(_) => Err(Error::InvalidPacket),
        }
    } else {
        Err(Error::InvalidPacket)
    }
}

// ---------------------------------------------------------------------
// The session state machine
// ---------------------------------------------------------------------

/// The strictly sequential phases of one Server List Ping call.
#[derive(Debug, Clone, Copy, PartialEq, Eq, Structural)]
pub enum JavaPhase {
    Fresh,
    HandshakeSent,
    StatusRequested,
    StatusReceived,
    PingSent,
    Done,
}

/// One Server List Ping session over one connection. Each method moves
/// the phase exactly one step forward; the frames it returns are the
/// byte-exact wire form, and the frames it accepts are judged against
/// the decoder above.
pub struct JavaSession {
    /// Where in the exchange the session stands.
    pub phase: JavaPhase,
    /// The host text sent in the handshake (the configured host, not
    /// the resolved IP).
    pub host: String,
    /// The port sent in the handshake (the resolved port).
    pub port: u16,
    /// The ping token; the pong must echo it bit for bit.
    pub ping_payload: u64,
}

impl JavaSession {
    /// What a step must not change: everything but the phase.
    pub open spec fn config(&self) -> (Seq<char>, u16, u64) {
        (self.host@, self.port, self.ping_payload)
    }

    /// A fresh session with the given ping token.
    pub fn new(host: String, port: u16, ping_payload: u64) -> (s: Self)
        ensures
            s.phase is Fresh,
            s.host == host,
            s.port == port,
            s.ping_payload == ping_payload,
    {
        JavaSession { phase: JavaPhase::Fresh, host, port, ping_payload }
    }

    /// A fresh session whose ping token comes from the process random
    /// source.
    pub fn start(host: String, port: u16) -> (s: Self)
        ensures
            s.phase is Fresh,
            s.host == host,
            s.port == port,
    {
        let payload = random_ping_payload();
        JavaSession::new(host, port, payload)
    }

    /// The first frame to send: the handshake.
    pub fn handshake_frame(&mut self) -> (r: Vec<u8>)
        requires
            old(self).phase is Fresh,
            encode_utf8(old(self).host@).len() <= 0x7FFF_FF00,
        ensures
            final(self).phase is HandshakeSent,
            final(self).config() == old(self).config(),
            r@ == spec_handshake_frame(old(self).host@, old(self).port),
    {
        let mut body: Vec<u8> = Vec::new();
        write_varint_u32(&mut body, 0);
        write_varint_u32(&mut body, 47);
        write_string(&mut body, self.host.as_str());
        write_u16_be(&mut body, self.port);
        write_varint_u32(&mut body, 1);
        proof {
            lemma_varint_at_most_five_bytes(encode_utf8(self.host@).len() as int);
            lemma_be_bytes_len(self.port as int, 2);
            assert(body@ =~= spec_handshake_body(self.host@, self.port));
            assert(spec_varint(0).len() == 1);
            assert(spec_varint(47).len() == 1);
            assert(spec_varint(1).len() == 1);
        }
        let mut frame: Vec<u8> = Vec::new();
        write_payload(&mut frame, &body);
        self.phase = JavaPhase::HandshakeSent;
        frame
    }

    /// The second frame to send: the status request, written
    /// back-to-back with the handshake.
    pub fn status_request_frame(&mut self) -> (r: Vec<u8>)
        requires
            old(self).phase is HandshakeSent,
        ensures
            final(self).phase is StatusRequested,
            final(self).config() == old(self).config(),
            r@ == spec_status_request_frame(),
    {
        let mut body: Vec<u8> = Vec::new();
        write_varint_u32(&mut body, 0);
        let mut frame: Vec<u8> = Vec::new();
        write_payload(&mut frame, &body);
        self.phase = JavaPhase::StatusRequested;
        frame
    }

    /// Judges the frame read in the status slot: a `Response` packet
    /// hands its text back and advances the session; anything else is
    /// an invalid packet and leaves the session as it was.
    pub fn accept_status(&mut self, frame: &Vec<u8>) -> (r: Result<String, Error>)
        requires
            old(self).phase is StatusRequested,
        ensures
            match spec_decode_packet(frame@) {
                Ok(PacketModel::Response(s)) => r is Ok && r.unwrap()@ == s
                    && final(self).phase is StatusReceived
                    && final(self).config() == old(self).config(),
                _ => r == Err::<String, Error>(Error::InvalidPacket) && *final(self) == *old(self),
            },
    {
        match decode_packet(frame) {
            Ok(Packet::Response { response }) => {
                self.phase = JavaPhase::StatusReceived;
                Ok(response)
            },
            Ok(_) => Err(Error::InvalidPacket),
            Err(_) => Err(Error::InvalidPacket),
        }
    }

    /// The third frame to send: the ping carrying the session's token.
    pub fn ping_frame(&mut self) -> (r: Vec<u8>)
        requires
            old(self).phase is StatusReceived,
        ensures
            final(self).phase is PingSent,
            final(self).config() == old(self).config(),
            r@ == spec_ping_frame(old(self).ping_payload),
    {
        let mut body: Vec<u8> = Vec::new();
        write_varint_u32(&mut body, 1);
        write_u64_be(&mut body, self.ping_payload);
        proof {
            lemma_be_bytes_len(self.ping_payload as int, 8);
            assert(spec_varint(1).len() == 1);
        }
        let mut frame: Vec<u8> = Vec::new();
        write_payload(&mut frame, &body);
        self.phase = JavaPhase::PingSent;
        frame
    }

    /// Judges the frame read in the pong slot: only a `Pong` whose
    /// payload bit-matches the ping token completes the session;
    /// anything else is an invalid packet and leaves the session as it
    /// was.
    pub fn accept_pong(&mut self, frame: &Vec<u8>) -> (r: Result<(), Error>)
        requires
            old(self).phase is PingSent,
        ensures
            match spec_decode_packet(frame@) {
                Ok(PacketModel::Pong(p)) => if p == old(self).ping_payload {
                    r is Ok && final(self).phase is Done
                        && final(self).config() == old(self).config()
                } else {
                    r == Err::<(), Error>(Error::InvalidPacket) && *final(self) == *old(self)
                },
                _ => r == Err::<(), Error>(Error::InvalidPacket) && *final(self) == *old(self),
            },
    {
        match decode_packet(frame) {
            Ok(Packet::Pong { payload }) => {
                if payload == self.ping_payload {
                    self.phase = JavaPhase::Done;
                    Ok(())
                } else {
                    Err(Error::InvalidPacket)
                }
            },
            Ok(_) => Err(Error::InvalidPacket),
            Err(_) => Err(Error::InvalidPacket),
        }
    }
}

/// Relies on `rand::random::<u64>`: a fresh pseudo-random ping token;
/// nothing is promised of its value.
#[verifier::external_body]
fn random_ping_payload() -> u64 {
    rand::random()
}

// ---------------------------------------------------------------------
// Decoding the status document
// ---------------------------------------------------------------------

/// What the untagged chat decoding accepts: an object whose `text`
/// field is a string (other fields ignored), or a bare string.
pub open spec fn spec_decode_chat(v: JsonValue) -> Option<ChatModel> {
    match v {
        JsonValue::Obj(entries) => match spec_obj_get(entries@, "text"@) {
            Some(JsonValue::Text(t)) => Some(ChatModel::Structured(t@)),
            _ => None,
        },
        JsonValue::Text(s) => Some(ChatModel::Plain(s@)),
        _ => None,
    }
}

/// What the version object must hold: a string `name` and an integer
/// `protocol`; other fields are ignored.
pub open spec fn spec_decode_version(v: JsonValue) -> Option<VersionModel> {
    match v {
        JsonValue::Obj(entries) => match (spec_obj_get(entries@, "name"@), spec_obj_get(
            entries@,
            "protocol"@,
        )) {
            (Some(JsonValue::Text(n)), Some(JsonValue::Int(p))) => Some(
                VersionModel { name: n@, protocol: p },
            ),
            _ => None,
        },
        _ => None,
    }
}

/// What a sample entry must hold: a string `name` and a string `id`.
pub open spec fn spec_decode_player(v: JsonValue) -> Option<PlayerModel> {
    match v {
        JsonValue::Obj(entries) => match (spec_obj_get(entries@, "name"@), spec_obj_get(
            entries@,
            "id"@,
        )) {
            (Some(JsonValue::Text(n)), Some(JsonValue::Text(i))) => Some(
                PlayerModel { name: n@, id: i@ },
            ),
            _ => None,
        },
        _ => None,
    }
}

/// The sample decodes when every entry does, in order.
pub open spec fn spec_decode_sample(items: Seq<JsonValue>) -> Option<Seq<PlayerModel>> {
    if forall|i: int|
        0 <= i < items.len() ==> #[trigger] spec_decode_player(items[i]) is Some {
        Some(Seq::new(items.len(), |i: int| spec_decode_player(items[i]).unwrap()))
    } else {
        None
    }
}

/// What the players object must hold: integer `max` and `online`, and
/// an optional `sample` (absent or null both mean none).
pub open spec fn spec_decode_players(v: JsonValue) -> Option<PlayersModel> {
    match v {
        JsonValue::Obj(entries) => match (spec_obj_get(entries@, "max"@), spec_obj_get(
            entries@,
            "online"@,
        )) {
            (Some(JsonValue::Int(max)), Some(JsonValue::Int(online))) => match spec_obj_get(
                entries@,
                "sample"@,
            ) {
                None => Some(PlayersModel { max, online, sample: None }),
                Some(JsonValue::Null) => Some(PlayersModel { max, online, sample: None }),
                Some(JsonValue::Arr(items)) => match spec_decode_sample(items@) {
                    Some(ps) => Some(PlayersModel { max, online, sample: Some(ps) }),
                    None => None,
                },
                Some(_) => None,
            },
            _ => None,
        },
        _ => None,
    }
}

/// What the whole status document must hold: `version`, `players` and
/// `description` as above, and an optional string `favicon` (absent or
/// null both mean none). Unknown fields are ignored throughout.
pub open spec fn spec_decode_status(doc: JsonValue) -> Option<JavaResponseModel> {
    match doc {
        JsonValue::Obj(entries) => match (
            spec_obj_get(entries@, "version"@),
            spec_obj_get(entries@, "players"@),
            spec_obj_get(entries@, "description"@),
        ) {
            (Some(vv), Some(pv), Some(dv)) => match (
                spec_decode_version(vv),
                spec_decode_players(pv),
                spec_decode_chat(dv),
            ) {
                (Some(vm), Some(pm), Some(dm)) => match spec_obj_get(entries@, "favicon"@) {
                    None => Some(
                        JavaResponseModel {
                            version: vm,
                            players: pm,
                            description: dm,
                            favicon: None,
                        },
                    ),
                    Some(JsonValue::Null) => Some(
                        JavaResponseModel {
                            version: vm,
                            players: pm,
                            description: dm,
                            favicon: None,
                        },
                    ),
                    Some(JsonValue::Text(f)) => Some(
                        JavaResponseModel {
                            version: vm,
                            players: pm,
                            description: dm,
                            favicon: Some(f@),
                        },
                    ),
                    Some(_) => None,
                },
                _ => None,
            },
            _ => None,
        },
        _ => None,
    }
}

/// A shape failure in the status document, with the field that broke.
fn shape_error(what: &str) -> (r: Error)
    ensures
        r matches Error::JsonErr(_),
{
    Error::JsonErr(String::from_str(what))
}

/// Decodes the version object.
fn decode_version(v: &JsonValue) -> (r: Result<Version, Error>)
    ensures
        match spec_decode_version(*v) {
            Some(m) => r is Ok && r.unwrap()@ == m,
            None => r matches Err(Error::JsonErr(_)),
        },
{
    match v {
        JsonValue::Obj(entries) => {
            let name = match obj_get(entries, "name") {
                Some(JsonValue::Text(n)) => n.clone(),
                _ => {
                    return Err(shape_error("version.name is not a string"));
                },
            };
            let protocol = match obj_get(entries, "protocol") {
                Some(JsonValue::Int(p)) => *p,
                _ => {
                    return Err(shape_error("version.protocol is not an integer"));
                },
            };
            Ok(Version { name, protocol })
        },
        _ => Err(shape_error("version is not an object")),
    }
}

/// Decodes one sample entry.
fn decode_player(v: &JsonValue) -> (r: Result<Player, Error>)
    ensures
        match spec_decode_player(*v) {
            Some(m) => r is Ok && r.unwrap()@ == m,
            None => r matches Err(Error::JsonErr(_)),
        },
{
    match v {
        JsonValue::Obj(entries) => {
            let name = match obj_get(entries, "name") {
                Some(JsonValue::Text(n)) => n.clone(),
                _ => {
                    return Err(shape_error("sample entry name is not a string"));
                },
            };
            let id = match obj_get(entries, "id") {
                Some(JsonValue::Text(i)) => i.clone(),
                _ => {
                    return Err(shape_error("sample entry id is not a string"));
                },
            };
            Ok(Player { name, id })
        },
        _ => Err(shape_error("sample entry is not an object")),
    }
}

/// Decodes the sample array.
fn decode_sample(items: &Vec<JsonValue>) -> (r: Result<Vec<Player>, Error>)
    ensures
        match spec_decode_sample(items@) {
            Some(ps) => r is Ok && r.unwrap()@.map_values(|p: Player| p@) == ps,
            None => r matches Err(Error::JsonErr(_)),
        },
{
    let n = items.len();
    let mut out: Vec<Player> = Vec::new();
    let mut i: usize = 0;
    loop
        invariant
            i <= n,
            n == items@.len(),
            out@.len() == i,
            forall|k: int|
                0 <= k < i ==> #[trigger] spec_decode_player(items@[k]) is Some && out@[k]@
                    == spec_decode_player(items@[k]).unwrap(),
        decreases n - i,
    {
        if i == n {
            proof {
                if spec_decode_sample(items@) is Some {
                    assert(out@.map_values(|p: Player| p@) =~= spec_decode_sample(
                        items@,
                    ).unwrap());
                }
            }
            return Ok(out);
        }
        match decode_player(&items[i]) {
            Ok(p) => {
                out.push(p);
            },
            Err(e) => {
                proof {
                    assert(spec_decode_player(items@[i as int]) is None);
                }
                return Err(e);
            },
        }
        i = i + 1;
    }
}

/// Decodes the players object.
fn decode_players(v: &JsonValue) -> (r: Result<Players, Error>)
    ensures
        match spec_decode_players(*v) {
            Some(m) => r is Ok && r.unwrap()@ == m,
            None => r matches Err(Error::JsonErr(_)),
        },
{
    match v {
        JsonValue::Obj(entries) => {
            let max = match obj_get(entries, "max") {
                Some(JsonValue::Int(m)) => *m,
                _ => {
                    return Err(shape_error("players.max is not an integer"));
                },
            };
            let online = match obj_get(entries, "online") {
                Some(JsonValue::Int(o)) => *o,
                _ => {
                    return Err(shape_error("players.online is not an integer"));
                },
            };
            let sample = match obj_get(entries, "sample") {
                None => None,
                Some(JsonValue::Null) => None,
                Some(JsonValue::Arr(items)) => match decode_sample(items) {
                    Ok(ps) => Some(ps),
                    Err(e) => {
                        return Err(e);
                    },
                },
                Some(_) => {
                    return Err(shape_error("players.sample is not an array"));
                },
            };
            Ok(Players { max, online, sample })
        },
        _ => Err(shape_error("players is not an object")),
    }
}

/// Decodes the description, in either of its two shapes.
fn decode_chat(v: &JsonValue) -> (r: Result<Chat, Error>)
    ensures
        match spec_decode_chat(*v) {
            Some(m) => r is Ok && r.unwrap()@ == m,
            None => r matches Err(Error::JsonErr(_)),
        },
{
    match v {
        JsonValue::Obj(entries) => match obj_get(entries, "text") {
            Some(JsonValue::Text(t)) => Ok(Chat::Structured(Text { text: t.clone() })),
            _ => Err(shape_error("description has no text field")),
        },
        JsonValue::Text(s) => Ok(Chat::Plain(s.clone())),
        _ => Err(shape_error("description is neither object nor string")),
    }
}

/// Decodes a parsed status document; verified for every tree the parse
/// could produce.
pub fn decode_status(doc: &JsonValue) -> (r: Result<JavaResponse, Error>)
    ensures
        match spec_decode_status(*doc) {
            Some(m) => r is Ok && r.unwrap()@ == m,
            None => r matches Err(Error::JsonErr(_)),
        },
{
    match doc {
        JsonValue::Obj(entries) => {
            let version = match obj_get(entries, "version") {
                Some(vv) => match decode_version(vv) {
                    Ok(v) => v,
                    Err(e) => {
                        return Err(e);
                    },
                },
                None => {
                    return Err(shape_error("status document has no version"));
                },
            };
            let players = match obj_get(entries, "players") {
                Some(pv) => match decode_players(pv) {
                    Ok(p) => p,
                    Err(e) => {
                        return Err(e);
                    },
                },
                None => {
                    return Err(shape_error("status document has no players"));
                },
            };
            let description = match obj_get(entries, "description") {
                Some(dv) => match decode_chat(dv) {
                    Ok(d) => d,
                    Err(e) => {
                        return Err(e);
                    },
                },
                None => {
                    return Err(shape_error("status document has no description"));
                },
            };
            let favicon = match obj_get(entries, "favicon") {
                None => None,
                Some(JsonValue::Null) => None,
                Some(JsonValue::Text(f)) => Some(f.clone()),
                Some(_) => {
                    return Err(shape_error("favicon is not a string"));
                },
            };
            Ok(JavaResponse { version, players, description, favicon })
        },
        _ => Err(shape_error("status document is not an object")),
    }
}

/// Parses and decodes the status text a server sent: text that is not
/// JSON, or a document of the wrong shape, is a JSON error.
pub fn decode_java_status(text: &str) -> (r: Result<JavaResponse, Error>)
    ensures
        spec_json_parse(text@) is None ==> r matches Err(Error::JsonErr(_)),
        spec_json_parse(text@) matches Some(doc) ==> match spec_decode_status(doc) {
            Some(m) => r is Ok && r.unwrap()@ == m,
            None => r matches Err(Error::JsonErr(_)),
        },
{
    match parse_json(text) {
        Ok(doc) => decode_status(&doc),
        Err(msg) => Err(Error::JsonErr(msg)),
    }
}

} // verus!

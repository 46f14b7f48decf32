//! The RakNet unconnected ping/pong used by Bedrock servers: the exact
//! ping datagram, the judgment of a received pong (packet ID `0x1C` and
//! the 16-byte offline-message magic, else the datagram is invalid),
//! and the semicolon-separated payload parser.
//!
//! The UDP work — binding, the bounded resend loop, the single receive
//! — stays with the caller, who hands the received datagram here.

use vstd::prelude::*;

verus! {

use vstd::string::StrSliceExecFns;
use vstd::string::StringExecFns;
use crate::Error;
use crate::address::{spec_find, find_char};
use crate::codec::{
    spec_be_bytes,
    spec_read_be,
    spec_read_raknet_string,
    lemma_be_bytes_len,
    write_i64_be,
    read_u64_be,
    read_raknet_string,
};
use crate::numbers::{spec_parse_i64, spec_parse_u16, parse_i64, parse_u16};

/// A local socket address to try binding the UDP socket to, as plain
/// values: the IP in its textual form and the port.
#[derive(Debug, Clone, PartialEq, Eq, Hash)]
pub struct BindAddr {
    /// The IP to bind, in its textual form (`"0.0.0.0"` for any).
    pub ip: String,
    /// The port to bind.
    pub port: u16,
}

/// Configuration for pinging a Bedrock server.
#[derive(Debug, Clone, PartialEq, Eq, Hash)]
pub struct Bedrock {
    /// The server address: an IP or a hostname, optionally with a port.
    pub server_address: String,
    /// The read and write timeouts for the socket.
    pub timeout: Option<core::time::Duration>,
    /// How many times to send the ping packet: in case of packet loss
    /// more than a single ping can be sent.
    pub tries: usize,
    /// How long to wait between pings.
    pub wait_to_try: Option<core::time::Duration>,
    /// The local addresses to try binding to, in order; the first
    /// successful bind wins.
    pub socket_addresses: Vec<BindAddr>,
}

/// Relies on `Duration::from_millis` of std, for the default wait
/// between pings.
#[verifier::external_body]
fn duration_from_millis(ms: u64) -> core::time::Duration {
    core::time::Duration::from_millis(ms)
}

impl Default for Bedrock {
    /// The defaults: an empty address, no timeout, five tries ten
    /// milliseconds apart, and three wildcard-IPv4 bind candidates on
    /// ports 25567, 25568 and 25569.
    fn default() -> (s: Self)
        ensures
            s.server_address@ == Seq::<char>::empty(),
            s.timeout is None,
            s.tries == 5,
            s.wait_to_try is Some,
            s.socket_addresses@.len() == 3,
            forall|i: int|
                0 <= i < 3 ==> (#[trigger] s.socket_addresses@[i]).ip@ == "0.0.0.0"@,
            s.socket_addresses@[0].port == 25567,
            s.socket_addresses@[1].port == 25568,
            s.socket_addresses@[2].port == 25569,
    {
        let mut addrs: Vec<BindAddr> = Vec::new();
        addrs.push(BindAddr { ip: String::from_str("0.0.0.0"), port: 25567 });
        addrs.push(BindAddr { ip: String::from_str("0.0.0.0"), port: 25568 });
        addrs.push(BindAddr { ip: String::from_str("0.0.0.0"), port: 25569 });
        Bedrock {
            server_address: String::new(),
            timeout: None,
            tries: 5,
            wait_to_try: Some(duration_from_millis(10)),
            socket_addresses: addrs,
        }
    }
}

// ---------------------------------------------------------------------
// Edition
// ---------------------------------------------------------------------

/// The edition a Bedrock server reports.
#[derive(Debug, Clone, PartialEq, Eq, Hash)]
pub enum BedrockEdition {
    PocketEdition,
    EducationEdition,
    /// An unknown edition token, kept as it came.
    Other(String),
}

/// The edition at spec level.
pub enum EditionModel {
    Pocket,
    Education,
    Other(Seq<char>),
}

impl View for BedrockEdition {
    type V = EditionModel;

    open spec fn view(&self) -> EditionModel {
        match self {
            BedrockEdition::PocketEdition => EditionModel::Pocket,
            BedrockEdition::EducationEdition => EditionModel::Education,
            BedrockEdition::Other(s) => EditionModel::Other(s@),
        }
    }
}

/// Whether `a` is `l` (a lowercase ASCII letter) up to ASCII case.
pub open spec fn char_eq_ic(a: char, l: char) -> bool {
    a == l || a as int + 32 == l as int
}

/// The token `MCPE`, case-insensitively.
pub open spec fn spec_is_mcpe(s: Seq<char>) -> bool {
    s.len() == 4 && char_eq_ic(s[0], 'm') && char_eq_ic(s[1], 'c') && char_eq_ic(s[2], 'p')
        && char_eq_ic(s[3], 'e')
}

/// The token `MCEE`, case-insensitively.
pub open spec fn spec_is_mcee(s: Seq<char>) -> bool {
    s.len() == 4 && char_eq_ic(s[0], 'm') && char_eq_ic(s[1], 'c') && char_eq_ic(s[2], 'e')
        && char_eq_ic(s[3], 'e')
}

/// What an edition token decodes to: `MCPE` and `MCEE` up to case, any
/// other token preserved.
pub open spec fn spec_edition_of(s: Seq<char>) -> EditionModel {
    if spec_is_mcpe(s) {
        EditionModel::Pocket
    } else if spec_is_mcee(s) {
        EditionModel::Education
    } else {
        EditionModel::Other(s)
    }
}

/// Whether the character at `i` is `l` up to ASCII case.
fn char_at_eq_ic(s: &str, i: usize, l: char, u: char) -> (r: bool)
    requires
        i < s@.len(),
        char_eq_ic(u, l),
        u != l,
    ensures
        r == char_eq_ic(s@[i as int], l),
{
    let c = s.get_char(i);
    c == l || c == u
}

impl vstd::std_specs::convert::FromSpecImpl<String> for BedrockEdition {
    open spec fn obeys_from_spec() -> bool {
        true
    }

    open spec fn from_spec(token: String) -> BedrockEdition {
        if spec_is_mcpe(token@) {
            BedrockEdition::PocketEdition
        } else if spec_is_mcee(token@) {
            BedrockEdition::EducationEdition
        } else {
            BedrockEdition::Other(token)
        }
    }
}

impl From<String> for BedrockEdition {
    /// Decodes the edition token, matching `MCPE` and `MCEE` without
    /// regard to ASCII case and preserving any other token.
    fn from(token: String) -> (r: BedrockEdition)
        ensures
            r@ == spec_edition_of(token@),
    {
        let n = token.as_str().unicode_len();
        if n == 4 {
            let s = token.as_str();
            let m = char_at_eq_ic(s, 0, 'm', 'M') && char_at_eq_ic(s, 1, 'c', 'C');
            if m && char_at_eq_ic(s, 2, 'p', 'P') && char_at_eq_ic(s, 3, 'e', 'E') {
                return BedrockEdition::PocketEdition;
            }
            if m && char_at_eq_ic(s, 2, 'e', 'E') && char_at_eq_ic(s, 3, 'e', 'E') {
                return BedrockEdition::EducationEdition;
            }
        }
        BedrockEdition::Other(token)
    }
}

impl BedrockEdition {
    /// The token this edition is shown as: `MCPE`, `MCEE`, or the
    /// unknown token as it came.
    pub fn label(&self) -> (r: &str)
        ensures
            self is PocketEdition ==> r@ == "MCPE"@,
            self is EducationEdition ==> r@ == "MCEE"@,
            self matches BedrockEdition::Other(s) ==> r@ == s@,
    {
        match self {
            BedrockEdition::PocketEdition => "MCPE",
            BedrockEdition::EducationEdition => "MCEE",
            BedrockEdition::Other(s) => s.as_str(),
        }
    }
}

// ---------------------------------------------------------------------
// The pong payload
// ---------------------------------------------------------------------

/// What an unconnected pong's payload decodes to.
#[derive(Debug, Clone, PartialEq, Eq, Hash)]
pub struct BedrockResponse {
    /// The server's edition.
    pub edition: BedrockEdition,
    /// The first line of the server's message of the day; required.
    pub motd_1: String,
    /// The server's protocol version.
    pub protocol_version: Option<i64>,
    /// The name of the server's version; empty when the field is
    /// missing.
    pub version_name: String,
    /// The number of players online.
    pub players_online: Option<i64>,
    /// The maximum number of players.
    pub players_max: Option<i64>,
    /// The server's unique ID. Stored as a signed 64-bit value, so an
    /// ID beyond that range is reported as absent.
    pub server_id: Option<i64>,
    /// The second line of the message of the day.
    pub motd_2: Option<String>,
    /// The default game mode (for example `Survival`).
    pub game_mode: Option<String>,
    /// The numeric form of the game mode.
    pub game_mode_id: Option<i64>,
    /// The port to connect to over IPv4.
    pub port_v4: Option<u16>,
    /// The port to connect to over IPv6.
    pub port_v6: Option<u16>,
}

/// The pong payload at spec level.
pub struct BedrockResponseModel {
    pub edition: EditionModel,
    pub motd_1: Seq<char>,
    pub protocol_version: Option<i64>,
    pub version_name: Seq<char>,
    pub players_online: Option<i64>,
    pub players_max: Option<i64>,
    pub server_id: Option<i64>,
    pub motd_2: Option<Seq<char>>,
    pub game_mode: Option<Seq<char>>,
    pub game_mode_id: Option<i64>,
    pub port_v4: Option<u16>,
    pub port_v6: Option<u16>,
}

impl View for BedrockResponse {
    type V = BedrockResponseModel;

    open spec fn view(&self) -> BedrockResponseModel {
        BedrockResponseModel {
            edition: self.edition@,
            motd_1: self.motd_1@,
            protocol_version: self.protocol_version,
            version_name: self.version_name@,
            players_online: self.players_online,
            players_max: self.players_max,
            server_id: self.server_id,
            motd_2: match self.motd_2 {
                None => None,
                Some(s) => Some(s@),
            },
            game_mode: match self.game_mode {
                None => None,
                Some(s) => Some(s@),
            },
            game_mode_id: self.game_mode_id,
            port_v4: self.port_v4,
            port_v6: self.port_v6,
        }
    }
}

/// The fields of `s` split on every semicolon, from `start` on; a
/// semicolon is a hard delimiter, never escaped.
pub open spec fn spec_split_from(s: Seq<char>, start: int) -> Seq<Seq<char>>
    decreases s.len() - start,
{
    match spec_find(s, ';', start) {
        None => seq![s.subrange(start, s.len() as int)],
        Some(i) => if start <= i < s.len() {
            seq![s.subrange(start, i)] + spec_split_from(s, i + 1)
        } else {
            seq![s.subrange(start, s.len() as int)]
        },
    }
}

/// The fields of `s` split on every semicolon: always at least one
/// field, the empty text splitting to one empty field.
pub open spec fn spec_split_semi(s: Seq<char>) -> Seq<Seq<char>> {
    spec_split_from(s, 0)
}

/// Splits a payload on its semicolons.
pub fn split_semicolons(s: &str) -> (r: Vec<String>)
    ensures
        r@.map_values(|f: String| f@) == spec_split_semi(s@),
{
    let n = s.unicode_len();
    let mut out: Vec<String> = Vec::new();
    let mut start: usize = 0;
    proof {
        assert(out@.map_values(|f: String| f@) + spec_split_from(s@, 0) =~= spec_split_from(
            s@,
            0,
        ));
    }
    loop
        invariant
            start <= n,
            n == s@.len(),
            spec_split_semi(s@) == out@.map_values(|f: String| f@) + spec_split_from(
                s@,
                start as int,
            ),
        decreases n - start,
    {
        let ghost prev = out@;
        match find_char(s, ';', start) {
            None => {
                out.push(s.substring_char(start, n).to_owned());
                proof {
                    assert(out@.map_values(|f: String| f@) =~= prev.map_values(|f: String| f@)
                        + spec_split_from(s@, start as int));
                }
                return out;
            },
            Some(i) => {
                proof {
                    crate::address::lemma_spec_find_bounds(s@, ';', start as int);
                }
                out.push(s.substring_char(start, i).to_owned());
                proof {
                    assert(out@.map_values(|f: String| f@) =~= prev.map_values(|f: String| f@)
                        + seq![s@.subrange(start as int, i as int)]);
                    assert(prev.map_values(|f: String| f@) + spec_split_from(s@, start as int)
                        =~= out@.map_values(|f: String| f@) + spec_split_from(s@, i + 1));
                }
                start = i + 1;
            },
        }
    }
}

/// What the semicolon-separated payload means: `edition` and `motd_1`
/// are required; later fields are positional and optional; a numeric
/// field that does not parse is absent; extra fields are ignored.
pub open spec fn spec_extract(payload: Seq<char>) -> Option<BedrockResponseModel> {
    let parts = spec_split_semi(payload);
    if parts.len() < 2 {
        None
    } else {
        Some(
            BedrockResponseModel {
                edition: spec_edition_of(parts[0]),
                motd_1: parts[1],
                protocol_version: if parts.len() > 2 {
                    spec_parse_i64(parts[2])
                } else {
                    None
                },
                version_name: if parts.len() > 3 {
                    parts[3]
                } else {
                    Seq::empty()
                },
                players_online: if parts.len() > 4 {
                    spec_parse_i64(parts[4])
                } else {
                    None
                },
                players_max: if parts.len() > 5 {
                    spec_parse_i64(parts[5])
                } else {
                    None
                },
                server_id: if parts.len() > 6 {
                    spec_parse_i64(parts[6])
                } else {
                    None
                },
                motd_2: if parts.len() > 7 {
                    Some(parts[7])
                } else {
                    None
                },
                game_mode: if parts.len() > 8 {
                    Some(parts[8])
                } else {
                    None
                },
                game_mode_id: if parts.len() > 9 {
                    spec_parse_i64(parts[9])
                } else {
                    None
                },
                port_v4: if parts.len() > 10 {
                    spec_parse_u16(parts[10])
                } else {
                    None
                },
                port_v6: if parts.len() > 11 {
                    spec_parse_u16(parts[11])
                } else {
                    None
                },
            },
        )
    }
}

impl BedrockResponse {
    /// Extracts the typed record from a pong payload; a payload without
    /// at least `edition` and `motd_1` is rejected.
    pub fn extract(payload: &str) -> (r: Option<BedrockResponse>)
        ensures
            match spec_extract(payload@) {
                Some(m) => r is Some && r.unwrap()@ == m,
                None => r is None,
            },
    {
        let parts = split_semicolons(payload);
        if parts.len() < 2 {
            return None;
        }
        let edition = BedrockEdition::from(parts[0].clone());
        let motd_1 = parts[1].clone();
        let protocol_version = if parts.len() > 2 {
            parse_i64(parts[2].as_str())
        } else {
            None
        };
        let version_name = if parts.len() > 3 {
            parts[3].clone()
        } else {
            String::new()
        };
        let players_online = if parts.len() > 4 {
            parse_i64(parts[4].as_str())
        } else {
            None
        };
        let players_max = if parts.len() > 5 {
            parse_i64(parts[5].as_str())
        } else {
            None
        };
        let server_id = if parts.len() > 6 {
            parse_i64(parts[6].as_str())
        } else {
            None
        };
        let motd_2 = if parts.len() > 7 {
            Some(parts[7].clone())
        } else {
            None
        };
        let game_mode = if parts.len() > 8 {
            Some(parts[8].clone())
        } else {
            None
        };
        let game_mode_id = if parts.len() > 9 {
            parse_i64(parts[9].as_str())
        } else {
            None
        };
        let port_v4 = if parts.len() > 10 {
            parse_u16(parts[10].as_str())
        } else {
            None
        };
        let port_v6 = if parts.len() > 11 {
            parse_u16(parts[11].as_str())
        } else {
            None
        };
        Some(
            BedrockResponse {
                edition,
                motd_1,
                protocol_version,
                version_name,
                players_online,
                players_max,
                server_id,
                motd_2,
                game_mode,
                game_mode_id,
                port_v4,
                port_v6,
            },
        )
    }
}

// ---------------------------------------------------------------------
// The datagrams
// ---------------------------------------------------------------------

/// A packet of the unconnected ping/pong exchange.
#[derive(Debug, PartialEq)]
pub enum Packet {
    UnconnectedPing,
    UnconnectedPong { time: u64, server_id: u64, payload: String },
}

/// RakNet's 16-byte offline-message magic.
pub open spec fn spec_offline_magic() -> Seq<u8> {
    seq![
        0x00u8,
        0xffu8,
        0xffu8,
        0x00u8,
        0xfeu8,
        0xfeu8,
        0xfeu8,
        0xfeu8,
        0xfdu8,
        0xfdu8,
        0xfdu8,
        0xfdu8,
        0x12u8,
        0x34u8,
        0x56u8,
        0x78u8,
    ]
}

/// The offline-message magic as bytes.
pub fn offline_magic() -> (r: Vec<u8>)
    ensures
        r@ == spec_offline_magic(),
{
    let mut v: Vec<u8> = Vec::new();
    v.push(0x00);
    v.push(0xff);
    v.push(0xff);
    v.push(0x00);
    v.push(0xfe);
    v.push(0xfe);
    v.push(0xfe);
    v.push(0xfe);
    v.push(0xfd);
    v.push(0xfd);
    v.push(0xfd);
    v.push(0xfd);
    v.push(0x12);
    v.push(0x34);
    v.push(0x56);
    v.push(0x78);
    proof {
        assert(v@ =~= spec_offline_magic());
    }
    v
}

/// The unconnected ping on the wire: packet ID `0x01`, a zero
/// timestamp, the magic, and a zero client GUID — 33 bytes.
pub open spec fn spec_unconnected_ping() -> Seq<u8> {
    seq![0x01u8] + spec_be_bytes(0, 8) + spec_offline_magic() + spec_be_bytes(0, 8)
}

/// Builds the unconnected ping datagram.
pub fn unconnected_ping_bytes() -> (r: Vec<u8>)
    ensures
        r@ == spec_unconnected_ping(),
        r@.len() == 33,
{
    let mut out: Vec<u8> = Vec::new();
    out.push(0x01);
    write_i64_be(&mut out, 0);
    let magic = offline_magic();
    out.extend_from_slice(magic.as_slice());
    write_i64_be(&mut out, 0);
    proof {
        lemma_be_bytes_len(0, 8);
        assert(out@ =~= spec_unconnected_ping());
    }
    out
}

/// What a received datagram means: packet ID `0x1C`, a big-endian
/// timestamp and server GUID, the magic in bytes 17..33, and a RakNet
/// string payload; any other shape is an invalid packet.
pub open spec fn spec_parse_pong(bytes: Seq<u8>) -> Result<(u64, u64, Seq<char>), Error> {
    if bytes.len() < 1 || bytes[0] != 0x1c {
        Err(Error::InvalidPacket)
    } else if bytes.len() < 33 {
        Err(Error::InvalidPacket)
    } else if bytes.subrange(17, 33) != spec_offline_magic() {
        Err(Error::InvalidPacket)
    } else {
        match (spec_read_be(bytes, 1, 8), spec_read_be(bytes, 9, 8)) {
            (Ok((time, _)), Ok((guid, _))) => match spec_read_raknet_string(bytes, 33) {
                Ok((s, _)) => Ok((time as u64, guid as u64, s)),
                Err(_) => Err(Error::InvalidPacket),
            },
            _ => Err(Error::InvalidPacket),
        }
    }
}

/// Parses a received datagram as an unconnected pong.
pub fn parse_unconnected_pong(datagram: &Vec<u8>) -> (r: Result<Packet, Error>)
    ensures
        match spec_parse_pong(datagram@) {
            Ok((t, g, s)) => r matches Ok(Packet::UnconnectedPong { time, server_id, payload })
                && time == t && server_id == g && payload@ == s,
            Err(e) => r == Err::<Packet, Error>(e),
        },
{
    if datagram.len() < 1 {
        return Err(Error::InvalidPacket);
    }
    if datagram[0] != 0x1c {
        return Err(Error::InvalidPacket);
    }
    if datagram.len() < 33 {
        return Err(Error::InvalidPacket);
    }
    let magic = offline_magic();
    let mut j: usize = 0;
    while j < 16
        invariant
            j <= 16,
            magic@ == spec_offline_magic(),
            datagram@.len() >= 33,
            forall|k: int| 0 <= k < j ==> datagram@[17 + k] == spec_offline_magic()[k],
        decreases 16 - j,
    {
        if datagram[17 + j] != magic[j] {
            proof {
                assert(datagram@.subrange(17, 33)[j as int] != spec_offline_magic()[j as int]);
            }
            return Err(Error::InvalidPacket);
        }
        j = j + 1;
    }
    proof {
        assert(datagram@.subrange(17, 33) =~= spec_offline_magic());
    }
    let time = match read_u64_be(datagram, 1) {
        Ok((v, _)) => v,
        Err(_) => {
            return Err(Error::InvalidPacket);
        },
    };
    let server_id = match read_u64_be(datagram, 9) {
        Ok((v, _)) => v,
        Err(_) => {
            return Err(Error::InvalidPacket);
        },
    };
    match read_raknet_string(datagram, 33) {
        Ok((payload, _)) => Ok(Packet::UnconnectedPong { time, server_id, payload }),
        Err(_) => Err(Error::InvalidPacket),
    }
}

} // verus!

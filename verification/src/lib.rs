//! A client library for querying the status of Minecraft game servers.
//!
//! The protocol layer is verified: the VarInt and length-prefixed string
//! codec, the address-resolution policy, the Java Server List Ping state
//! machine, and the RakNet unconnected ping/pong framing and payload
//! parser. Socket work is left to the caller, who feeds received bytes to
//! the state machines and writes out the frames they produce.

use vstd::prelude::*;

pub mod codec;
pub mod numbers;
pub mod address;
pub mod json;
pub mod java;
pub mod bedrock;

pub use bedrock::{Bedrock, BedrockEdition, BedrockResponse};
pub use java::{Chat, Java, JavaResponse, Player, Players, Text, Version};

verus! {

use vstd::string::StringExecFns;

/// Errors that can occur when pinging a server.
#[derive(Debug, Clone, PartialEq, Eq)]
pub enum Error {
    /// A packet did not have the expected shape: wrong packet ID for the
    /// current state, an oversize VarInt, a missing or mismatched magic,
    /// a ping/pong payload mismatch, or an unparseable pong payload.
    InvalidPacket,
    /// An underlying socket, connect, read, write or bind failure,
    /// including timeouts. The string carries the underlying cause.
    IoError(String),
    /// The Java status document failed to parse or had the wrong shape.
    /// The string carries the underlying cause.
    JsonErr(String),
    /// The configured `host[:port]` did not parse.
    InvalidAddress,
    /// No IP address could be produced for the host.
    DnsLookupFailed,
}

impl Error {
    /// A short description of the error, with the underlying cause
    /// where one is carried.
    pub fn message(&self) -> (r: String)
        ensures
            self is InvalidPacket ==> r@ == "an invalid packet configuration was sent"@,
            self matches Error::IoError(c) ==> r@ == "an I/O error occurred: "@ + c@,
            self matches Error::JsonErr(c) ==> r@ == "a JSON error occurred: "@ + c@,
            self is InvalidAddress ==> r@ == "an invalid address was provided"@,
            self is DnsLookupFailed ==> r@ == "DNS lookup for the host provided failed"@,
    {
        match self {
            Error::InvalidPacket => String::from_str("an invalid packet configuration was sent"),
            Error::IoError(c) => {
                let mut s = String::from_str("an I/O error occurred: ");
                s.append(c.as_str());
                s
            },
            Error::JsonErr(c) => {
                let mut s = String::from_str("a JSON error occurred: ");
                s.append(c.as_str());
                s
            },
            Error::InvalidAddress => String::from_str("an invalid address was provided"),
            Error::DnsLookupFailed => String::from_str("DNS lookup for the host provided failed"),
        }
    }
}

} // verus!


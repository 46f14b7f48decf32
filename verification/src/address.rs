//! The address-resolution policy: splitting `host[:port]`, the name the
//! Minecraft SRV record is looked up under, and the choice between an
//! SRV answer and a plain A/AAAA answer. The lookups themselves are
//! network work and stay with the caller, who hands their outcome back
//! in plain values; the policy here decides what they mean.

use vstd::prelude::*;

verus! {

use vstd::string::StrSliceExecFns;
use vstd::string::StringExecFns;
use crate::Error;
use crate::numbers::{parse_u16, spec_parse_u16};

/// The first occurrence of `c` in `s` at or after `from`.
pub open spec fn spec_find(s: Seq<char>, c: char, from: int) -> Option<int>
    decreases s.len() - from,
{
    if from < 0 || from >= s.len() {
        None
    } else if s[from] == c {
        Some(from)
    } else {
        spec_find(s, c, from + 1)
    }
}

/// Finds the first occurrence of `c` in `s` at or after `from`.
pub fn find_char(s: &str, c: char, from: usize) -> (r: Option<usize>)
    requires
        from <= s@.len(),
    ensures
        match spec_find(s@, c, from as int) {
            Some(j) => r is Some && r.unwrap() == j,
            None => r is None,
        },
{
    let n = s.unicode_len();
    let mut i: usize = from;
    loop
        invariant
            from <= i <= n,
            n == s@.len(),
            spec_find(s@, c, i as int) == spec_find(s@, c, from as int),
        decreases n - i,
    {
        if i == n {
            return None;
        }
        if s.get_char(i) == c {
            return Some(i);
        }
        i = i + 1;
    }
}

/// What `host[:port]` means: the host is everything before the first
/// `:`; the text between the first and second `:` (or the end) is the
/// port, in base 10; anything after a second `:` is ignored; a missing
/// `:` means the default port; a port that does not parse makes the
/// whole address invalid.
pub open spec fn spec_parse_address(s: Seq<char>, default_port: u16) -> Result<
    (Seq<char>, u16),
    Error,
> {
    match spec_find(s, ':', 0) {
        None => Ok((s, default_port)),
        Some(i) => {
            let end = match spec_find(s, ':', i + 1) {
                None => s.len() as int,
                Some(j) => j,
            };
            match spec_parse_u16(s.subrange(i + 1, end)) {
                Some(p) => Ok((s.subrange(0, i), p)),
                None => Err(Error::InvalidAddress),
            }
        },
    }
}

/// Splits `host[:port]` into the host and the port, with `default_port`
/// standing in when no `:` is present.
pub fn parse_address(addr: &str, default_port: u16) -> (r: Result<(String, u16), Error>)
    ensures
        match spec_parse_address(addr@, default_port) {
            Ok((h, p)) => r is Ok && r.unwrap().0@ == h && r.unwrap().1 == p,
            Err(e) => r == Err::<(String, u16), Error>(e),
        },
{
    let n = s_len(addr);
    match find_char(addr, ':', 0) {
        None => {
            proof {
                assert(addr@.subrange(0, addr@.len() as int) =~= addr@);
            }
            Ok((addr.substring_char(0, n).to_owned(), default_port))
        },
        Some(i) => {
            proof {
                lemma_spec_find_bounds(addr@, ':', 0);
            }
            let end = match find_char(addr, ':', i + 1) {
                None => n,
                Some(j) => j,
            };
            proof {
                lemma_spec_find_bounds(addr@, ':', i + 1);
            }
            let port_text = addr.substring_char(i + 1, end);
            match parse_u16(port_text) {
                Some(p) => Ok((addr.substring_char(0, i).to_owned(), p)),
                None => Err(Error::InvalidAddress),
            }
        },
    }
}

/// The length of `s` in characters.
fn s_len(s: &str) -> (n: usize)
    ensures
        n == s@.len(),
{
    s.unicode_len()
}

/// A found index lies inside the string, at or after `from`.
pub proof fn lemma_spec_find_bounds(s: Seq<char>, c: char, from: int)
    requires
        0 <= from,
    ensures
        spec_find(s, c, from) matches Some(j) ==> from <= j < s.len(),
    decreases s.len() - from,
{
    if from < s.len() && s[from] != c {
        lemma_spec_find_bounds(s, c, from + 1);
    }
}

/// The name the Minecraft SRV record for `host` is looked up under.
pub fn srv_service_name(host: &str) -> (r: String)
    ensures
        r@ == "_minecraft._tcp."@ + host@ + "."@,
{
    let mut out = String::from_str("_minecraft._tcp.");
    out.append(host);
    out.append(".");
    out
}

/// The Java resolution policy: an SRV record whose target resolved
/// overrides both host and port; otherwise the plain lookup of the host
/// is used with the port from the address; no address at all is a DNS
/// failure. The address parameter is opaque here, so the choice is
/// proved for every value the lookups can hand back.
pub fn choose_java_endpoint<A>(
    srv: Option<(Option<A>, u16)>,
    fallback: Option<A>,
    port: u16,
) -> (r: Result<(A, u16), Error>)
    ensures
        r == (match srv {
            Some((Some(ip), p)) => Ok::<(A, u16), Error>((ip, p)),
            _ => match fallback {
                Some(ip) => Ok::<(A, u16), Error>((ip, port)),
                None => Err::<(A, u16), Error>(Error::DnsLookupFailed),
            },
        }),
{
    match srv {
        Some((Some(ip), p)) => Ok((ip, p)),
        _ => match fallback {
            Some(ip) => Ok((ip, port)),
            None => Err(Error::DnsLookupFailed),
        },
    }
}

/// The plain resolution policy used for Bedrock: the first address the
/// lookup produced, with the port from the address; none at all is a
/// DNS failure.
pub fn endpoint_from_lookup<A>(ip: Option<A>, port: u16) -> (r: Result<(A, u16), Error>)
    ensures
        r == (match ip {
            Some(a) => Ok::<(A, u16), Error>((a, port)),
            None => Err::<(A, u16), Error>(Error::DnsLookupFailed),
        }),
{
    match ip {
        Some(a) => Ok((a, port)),
        None => Err(Error::DnsLookupFailed),
    }
}

} // verus!

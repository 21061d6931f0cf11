//! Where the bridge listens: the address it binds to, and the ports it
//! tries when the configured one is taken.

use crate::text::{decimal, decimal_text};
use vstd::prelude::*;
use vstd::string::StringExecFns;

verus! {

/// The port the bridge listens on unless it is configured otherwise.
pub const DEFAULT_PORT: u16 = 9223;

/// The address the bridge binds to unless it is configured otherwise.
pub const DEFAULT_BIND_ADDRESS: &'static str = "0.0.0.0";

/// How many ports are tried, counting the configured one.
pub const PORT_ATTEMPTS: u16 = 100;

/// The port of the given attempt: the base port for attempt 0, and one
/// higher with each further attempt. There is none after the last attempt,
/// nor beyond the highest port number.
pub open spec fn candidate_port(base: u16, attempt: u16) -> Option<u16> {
    if attempt < PORT_ATTEMPTS && base + attempt <= u16::MAX {
        Some((base + attempt) as u16)
    } else {
        None
    }
}

/// The port to try at the given attempt, after all earlier attempts found
/// their port taken.
pub fn port_candidate(base: u16, attempt: u16) -> (r: Option<u16>)
    ensures
        r == candidate_port(base, attempt),
{
    if attempt < PORT_ATTEMPTS && attempt <= u16::MAX - base {
        Some(base + attempt)
    } else {
        None
    }
}

/// The text of a socket address: the bind address, a colon, the port.
pub open spec fn socket_address_text(bind_address: Seq<char>, port: u16) -> Seq<char> {
    bind_address + ":"@ + decimal(port as nat)
}

/// Writes the socket address that the server binds to.
pub fn socket_address(bind_address: &str, port: u16) -> (r: String)
    ensures
        r@ == socket_address_text(bind_address@, port),
{
    let mut s = String::from_str(bind_address);
    s.append(":");
    s.append(decimal_text(port as u64).as_str());
    s
}

} // verus!

//! The local-socket probe: validating the path text and encoding the
//! outcome of a connect-and-close attempt as the status code the boundary
//! promises.

use vstd::prelude::*;
use vstd::utf8::{decode_utf8, valid_utf8};
use crate::text::decode_utf8_bytes;

verus! {

/// Validates the probe's path bytes: the decoded path when they are
/// well-formed text, nothing otherwise.
pub fn plan_unix_probe(path: &Vec<u8>) -> (r: Option<String>)
    ensures
        r is Some <==> valid_utf8(path@),
        r matches Some(s) ==> s@ == decode_utf8(path@),
{
    decode_utf8_bytes(path)
}

/// What came of the probe: the path was not well-formed text, the connect
/// succeeded, the connect failed, or the platform does not offer local
/// sockets at all.
#[derive(Debug)]
pub enum ProbeEvent {
    PathInvalid,
    Connected,
    ConnectFailed,
    Unsupported,
}

/// Encodes the probe's outcome as its status code: zero for a successful
/// connect, minus one for any failure (a bad path counts as one), and minus
/// two — a distinct sentinel — where the platform offers no local sockets.
pub fn probe_status(event: ProbeEvent) -> (r: i32)
    ensures
        match event {
            ProbeEvent::PathInvalid => r == -1,
            ProbeEvent::Connected => r == 0,
            ProbeEvent::ConnectFailed => r == -1,
            ProbeEvent::Unsupported => r == -2,
        },
{
    match event {
        ProbeEvent::PathInvalid => -1,
        ProbeEvent::Connected => 0,
        ProbeEvent::ConnectFailed => -1,
        ProbeEvent::Unsupported => -2,
    }
}

} // verus!

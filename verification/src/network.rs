//! Heuristic private-LAN detection.
//!
//! The transport layer obtains the machine's local IPv4 address by
//! associating an unbound UDP socket with a well-known multicast address;
//! the classification of that address against the private ranges
//! 10.0.0.0/8, 172.16.0.0/12 and 192.168.0.0/16 is decided here.

use vstd::prelude::*;

verus! {

/// Whether an IPv4 address with leading octets `a.b` lies in one of the
/// private ranges 10.0.0.0/8, 172.16.0.0/12 or 192.168.0.0/16.
pub open spec fn private_ipv4(a: u8, b: u8) -> bool {
    ||| a == 10
    ||| (a == 172 && 16 <= b && b <= 31)
    ||| (a == 192 && b == 168)
}

/// Classifies an IPv4 address, given by its four octets, as private
/// (local-network) or not.
pub fn is_private_ipv4(a: u8, b: u8, c: u8, d: u8) -> (r: bool)
    ensures
        r == private_ipv4(a, b),
{
    if a == 10 {
        return true;
    }
    if a == 172 && 16 <= b && b <= 31 {
        return true;
    }
    if a == 192 && b == 168 {
        return true;
    }
    false
}

/// Decides the local-network verdict from the local address the socket
/// association yielded, if any. When the address could not be determined
/// (no IPv4 local address, or the association failed), the verdict is
/// `false`: failure leans toward "assume not local", never toward `true`.
pub fn local_network_verdict(addr: Option<(u8, u8, u8, u8)>) -> (r: bool)
    ensures
        match addr {
            Some((a, b, c, d)) => r == private_ipv4(a, b),
            None => r == false,
        },
{
    match addr {
        Some((a, b, c, d)) => is_private_ipv4(a, b, c, d),
        None => false,
    }
}

} // verus!

//! The network guard: which addresses a target may resolve to.
//!
//! A host name can resolve to several addresses, and a connection may go to any of them.
//! The guard therefore refuses a target if a single one of its addresses lies in private
//! or reserved space. It judges the addresses it is given; the lookup itself, and the
//! later connection, belong to the program around the library.
use vstd::prelude::*;
use crate::error::{CamoError, Failure};

verus! {

broadcast use vstd::string::group_string_axioms;

/// An address that a host name resolved to.
#[derive(Debug, Clone, Copy, PartialEq, Eq, Structural)]
pub enum IpAddress {
    /// An IPv4 address, by its four octets.
    V4(u8, u8, u8, u8),
    /// An IPv6 address, as a 128-bit number in network order.
    V6(u128),
}

/// Whether an IPv4 address lies in private or reserved space: the private ranges
/// `10.0.0.0/8`, `172.16.0.0/12` and `192.168.0.0/16`, loopback `127.0.0.0/8`, link-local
/// `169.254.0.0/16`, the broadcast address, the documentation ranges `192.0.2.0/24`,
/// `198.51.100.0/24` and `203.0.113.0/24`, the unspecified address `0.0.0.0`, and the
/// carrier-grade NAT range `100.64.0.0/10`.
pub open spec fn is_private_v4(a: u8, b: u8, c: u8, d: u8) -> bool {
    ||| a == 10
    ||| (a == 172 && 16 <= b <= 31)
    ||| (a == 192 && b == 168)
    ||| a == 127
    ||| (a == 169 && b == 254)
    ||| (a == 255 && b == 255 && c == 255 && d == 255)
    ||| (a == 192 && b == 0 && c == 2)
    ||| (a == 198 && b == 51 && c == 100)
    ||| (a == 203 && b == 0 && c == 113)
    ||| (a == 0 && b == 0 && c == 0 && d == 0)
    ||| (a == 100 && 64 <= b <= 127)
}

/// Whether an address lies in private or reserved space. Of IPv6, only the loopback
/// address `::1` and the unspecified address `::` count.
pub open spec fn is_private_address(address: IpAddress) -> bool {
    match address {
        IpAddress::V4(a, b, c, d) => is_private_v4(a, b, c, d),
        IpAddress::V6(bits) => bits == 1 || bits == 0,
    }
}

/// Whether one of the addresses lies in private or reserved space.
pub open spec fn any_private(addresses: Seq<IpAddress>) -> bool {
    exists|i: int| 0 <= i < addresses.len() && is_private_address(#[trigger] addresses[i])
}

/// Whether an address lies in private or reserved space.
pub fn is_private_ip(address: &IpAddress) -> (private: bool)
    ensures
        private == is_private_address(*address),
{
    match address {
        IpAddress::V4(a, b, c, d) => {
            let a: u8 = *a;
            let b: u8 = *b;
            let c: u8 = *c;
            let d: u8 = *d;
            a == 10
                || (a == 172 && 16 <= b && b <= 31)
                || (a == 192 && b == 168)
                || a == 127
                || (a == 169 && b == 254)
                || (a == 255 && b == 255 && c == 255 && d == 255)
                || (a == 192 && b == 0 && c == 2)
                || (a == 198 && b == 51 && c == 100)
                || (a == 203 && b == 0 && c == 113)
                || (a == 0 && b == 0 && c == 0 && d == 0)
                || (a == 100 && 64 <= b && b <= 127)
        },
        IpAddress::V6(bits) => *bits == 1 || *bits == 0,
    }
}

/// Whether one of the addresses lies in private or reserved space.
pub fn has_private_address(addresses: &Vec<IpAddress>) -> (found: bool)
    ensures
        found == any_private(addresses@),
{
    let mut i: usize = 0;
    while i < addresses.len()
        invariant
            i <= addresses.len(),
            forall|j: int| 0 <= j < i ==> !is_private_address(#[trigger] addresses@[j]),
        decreases addresses.len() - i,
    {
        if is_private_ip(&addresses[i]) {
            assert(is_private_address(addresses@[i as int]));
            return true;
        }
        i += 1;
    }
    false
}

/// Guards the network: checks every address that the target's host resolved to, before
/// any connection is made.
pub fn check_private_network(
    lookup: &Result<Vec<IpAddress>, String>,
) -> (verdict: Result<(), CamoError>)
    ensures
        match (verdict, lookup) {
            (Ok(_), Ok(addresses)) => !any_private(addresses@),
            (Err(error), Ok(addresses)) => any_private(addresses@) && error@
                == Failure::PrivateNetworkNotAllowed,
            (Err(error), Err(reason)) => error@ == Failure::InvalidUrl(reason@),
            (Ok(_), Err(_)) => false,
        },
{
    match lookup {
        Err(reason) => Err(CamoError::InvalidUrl(reason.clone())),
        Ok(addresses) => {
            if has_private_address(addresses) {
                Err(CamoError::PrivateNetworkNotAllowed)
            } else {
                Ok(())
            }
        },
    }
}

} // verus!

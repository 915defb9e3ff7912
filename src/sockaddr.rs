use vstd::prelude::*;

use crate::completion::IoError;

verus! {

/// `sa_family_t` value of an IPv4 socket address on Linux.
pub const AF_INET: u16 = 2;

/// `sa_family_t` value of an IPv6 socket address on Linux.
pub const AF_INET6: u16 = 10;

/// Size in bytes of `struct sockaddr_in`.
pub const SOCKADDR_IN_LEN: usize = 16;

/// Size in bytes of `struct sockaddr_in6`.
pub const SOCKADDR_IN6_LEN: usize = 28;

/// A peer address in portable form.
///
/// Ports are in host order. `flowinfo` and `scope_id` keep the values of the
/// kernel's fields as they are stored, as the standard library does.
#[derive(Clone, Copy, Debug)]
#[allow(inconsistent_fields)]
pub enum SocketAddr {
    V4 { ip: [u8; 4], port: u16 },
    V6 { ip: [u8; 16], port: u16, flowinfo: u32, scope_id: u32 },
}

/// A 16-bit field stored in host order (little-endian on the targets served).
pub open spec fn le16(b: Seq<u8>, i: int) -> int {
    b[i] as int + 256 * b[i + 1] as int
}

/// A 16-bit field stored in network order.
pub open spec fn be16(b: Seq<u8>, i: int) -> int {
    256 * b[i] as int + b[i + 1] as int
}

/// A 32-bit field stored in host order (little-endian on the targets served).
pub open spec fn le32(b: Seq<u8>, i: int) -> int {
    b[i] as int + 256 * b[i + 1] as int + 65536 * b[i + 2] as int + 16777216 * b[i + 3] as int
}

/// The address family at the head of a socket address, if it is long enough to hold one.
pub open spec fn family_of(b: Seq<u8>) -> int {
    if b.len() >= 2 {
        le16(b, 0)
    } else {
        -1
    }
}

/// The bytes form a complete IPv4 or IPv6 socket address.
pub open spec fn is_inet(b: Seq<u8>) -> bool {
    ||| family_of(b) == AF_INET as int && b.len() >= SOCKADDR_IN_LEN
    ||| family_of(b) == AF_INET6 as int && b.len() >= SOCKADDR_IN6_LEN
}

/// `a` is the address that the bytes `b` of a `sockaddr_in` / `sockaddr_in6` describe.
pub open spec fn decodes_to(b: Seq<u8>, a: SocketAddr) -> bool {
    match a {
        SocketAddr::V4 { ip, port } => {
            &&& family_of(b) == AF_INET as int
            &&& b.len() >= SOCKADDR_IN_LEN
            &&& port as int == be16(b, 2)
            &&& ip@ == b.subrange(4, 8)
        },
        SocketAddr::V6 { ip, port, flowinfo, scope_id } => {
            &&& family_of(b) == AF_INET6 as int
            &&& b.len() >= SOCKADDR_IN6_LEN
            &&& port as int == be16(b, 2)
            &&& flowinfo as int == le32(b, 4)
            &&& ip@ == b.subrange(8, 24)
            &&& scope_id as int == le32(b, 24)
        },
    }
}

fn read_le16(b: &[u8], i: usize) -> (r: u16)
    requires
        i + 2 <= b@.len(),
    ensures
        r as int == le16(b@, i as int),
{
    b[i] as u16 + 256 * (b[i + 1] as u16)
}

fn read_be16(b: &[u8], i: usize) -> (r: u16)
    requires
        i + 2 <= b@.len(),
    ensures
        r as int == be16(b@, i as int),
{
    256 * (b[i] as u16) + b[i + 1] as u16
}

fn read_le32(b: &[u8], i: usize) -> (r: u32)
    requires
        i + 4 <= b@.len(),
    ensures
        r as int == le32(b@, i as int),
{
    b[i] as u32 + 256 * (b[i + 1] as u32) + 65536 * (b[i + 2] as u32) + 16777216 * (b[i + 3] as u32)
}

/// Translates the socket address that the kernel wrote for an accepted
/// connection (`addr` holds exactly the bytes it reported) into a [`SocketAddr`].
///
/// Any family but IPv4 and IPv6, or an address shorter than its family's
/// structure, is an invalid argument.
pub fn sockaddr_to_addr(addr: &[u8]) -> (r: Result<SocketAddr, IoError>)
    ensures
        r is Ok <==> is_inet(addr@),
        r matches Ok(a) ==> decodes_to(addr@, a),
        r is Err ==> r == Err::<SocketAddr, IoError>(IoError::InvalidInput),
{
    if addr.len() < 2 {
        return Err(IoError::InvalidInput);
    }
    let family = read_le16(addr, 0);
    if family == AF_INET && addr.len() >= SOCKADDR_IN_LEN {
        let ip: [u8; 4] = [addr[4], addr[5], addr[6], addr[7]];
        let port = read_be16(addr, 2);
        proof {
            assert(ip@ =~= addr@.subrange(4, 8));
        }
        Ok(SocketAddr::V4 { ip, port })
    } else if family == AF_INET6 && addr.len() >= SOCKADDR_IN6_LEN {
        let ip: [u8; 16] = [
            addr[8], addr[9], addr[10], addr[11], addr[12], addr[13], addr[14], addr[15],
            addr[16], addr[17], addr[18], addr[19], addr[20], addr[21], addr[22], addr[23],
        ];
        let port = read_be16(addr, 2);
        let flowinfo = read_le32(addr, 4);
        let scope_id = read_le32(addr, 24);
        proof {
            assert(ip@ =~= addr@.subrange(8, 24));
        }
        Ok(SocketAddr::V6 { ip, port, flowinfo, scope_id })
    } else {
        Err(IoError::InvalidInput)
    }
}

} // verus!

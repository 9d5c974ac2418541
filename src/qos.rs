//! The QoS echo: the game sends a few opaque bytes over UDP and expects
//! them back followed by its apparent public IPv4 address and port.

use vstd::prelude::*;

use crate::packet::be16;

verus! {

/// Largest number of request bytes read from one datagram.
pub const MAX_REQUEST: usize = 64;

/// Whether `ip` is a loopback address (127.0.0.0/8) or a private one
/// (10.0.0.0/8, 172.16.0.0/12, 192.168.0.0/16).
pub open spec fn spec_is_local(ip: [u8; 4]) -> bool {
    ip[0] == 127 || ip[0] == 10 || (ip[0] == 172 && 16 <= ip[1] && ip[1] < 32) || (ip[0] == 192
        && ip[1] == 168)
}

/// Whether the peer at `ip` must be told this machine's public address
/// rather than its own.
pub fn is_local(ip: [u8; 4]) -> (r: bool)
    ensures
        r == spec_is_local(ip),
{
    ip[0] == 127 || ip[0] == 10 || (ip[0] == 172 && 16 <= ip[1] && ip[1] < 32) || (ip[0] == 192
        && ip[1] == 168)
}

/// The address advertised to a peer: its own when it is public; this
/// machine's public address (`None` when that could not be found) when the
/// peer is on loopback or a private network.
pub fn advertised_address(peer: [u8; 4], public: Option<[u8; 4]>) -> (r: Option<[u8; 4]>)
    ensures
        spec_is_local(peer) ==> r == public,
        !spec_is_local(peer) ==> r == Some(peer),
{
    if is_local(peer) {
        public
    } else {
        Some(peer)
    }
}

/// The reply to a QoS request: the request bytes, the advertised address,
/// the peer's port in network order, then four zero bytes.
pub open spec fn spec_reply(request: Seq<u8>, address: [u8; 4], port: u16) -> Seq<u8> {
    request + address@ + be16(port as nat) + seq![0u8, 0u8, 0u8, 0u8]
}

/// Builds the reply to a QoS request.
pub fn qos_reply(request: &[u8], address: [u8; 4], port: u16) -> (r: Vec<u8>)
    ensures
        r@ == spec_reply(request@, address, port),
{
    let mut out = vstd::slice::slice_to_vec(request);
    out.extend_from_slice(&address);
    out.push((port / 256) as u8);
    out.push((port % 256) as u8);
    out.extend_from_slice(&[0u8, 0u8, 0u8, 0u8]);
    assert(out@ =~= spec_reply(request@, address, port));
    out
}

/// A reply is the request, ten bytes longer: the request comes back byte
/// for byte, then the advertised address, the port in big-endian order and
/// four zero bytes.
pub proof fn lemma_reply_shape(request: Seq<u8>, address: [u8; 4], port: u16)
    ensures
        spec_reply(request, address, port).len() == request.len() + 10,
        spec_reply(request, address, port).subrange(0, request.len() as int) == request,
        spec_reply(request, address, port).subrange(
            request.len() as int,
            request.len() + 4int,
        ) == address@,
        spec_reply(request, address, port)[request.len() + 4int] == (port / 256) as u8,
        spec_reply(request, address, port)[request.len() + 5int] == (port % 256) as u8,
        forall|i: int|
            request.len() + 6 <= i < request.len() + 10 ==> #[trigger] spec_reply(
                request,
                address,
                port,
            )[i] == 0,
{
    let r = spec_reply(request, address, port);
    let n = request.len() as int;
    assert(r.subrange(0, n) =~= request);
    assert(r.subrange(n, n + 4) =~= address@);
}

} // verus!

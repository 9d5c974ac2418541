//! The redirector: it answers the game's request for the main server with
//! an address record that points at the local main listener.

use vstd::prelude::*;

use tdf::TdfSerializer;

use crate::constants::MAIN_PORT;
use crate::packet::{Packet, PacketHeader, PacketType};

verus! {

/// Component of the redirector's requests.
pub const REDIRECTOR_COMPONENT: u16 = 0x5;

/// Command that asks for the main server instance.
pub const GET_SERVER_INSTANCE: u16 = 0x1;

/// Loopback address 127.0.0.1 as a big-endian integer.
pub const LOOPBACK_IP: u32 = 0x7F00_0001;

/// Tag of the address union ("ADDR").
pub const TAG_ADDR: [u8; 4] = [65, 68, 68, 82];

/// Tag of the address value group ("VALU").
pub const TAG_VALU: [u8; 4] = [86, 65, 76, 85];

/// Tag of the IPv4 address ("IP").
pub const TAG_IP: [u8; 2] = [73, 80];

/// Tag of the port ("PORT").
pub const TAG_PORT: [u8; 4] = [80, 79, 82, 84];

/// Tag of the secure flag ("SECU").
pub const TAG_SECU: [u8; 4] = [83, 69, 67, 85];

/// Tag of the DNS flag ("XDNS").
pub const TAG_XDNS: [u8; 4] = [88, 68, 78, 83];

/// Union key of a server address.
pub const ADDRESS_KEY: u8 = 0;

/// Bytes that tdf writes for the start of union `tag` with member `key`.
pub uninterp spec fn tdf_union_start(tag: Seq<u8>, key: u8) -> Seq<u8>;

/// Bytes that tdf writes for the start of group `tag`.
pub uninterp spec fn tdf_group_start(tag: Seq<u8>) -> Seq<u8>;

/// Bytes that tdf writes for `value` tagged `tag`.
pub uninterp spec fn tdf_u32(tag: Seq<u8>, value: u32) -> Seq<u8>;

/// Bytes that tdf writes for `value` tagged `tag`.
pub uninterp spec fn tdf_u16(tag: Seq<u8>, value: u16) -> Seq<u8>;

/// Bytes that tdf writes for `value` tagged `tag`.
pub uninterp spec fn tdf_bool(tag: Seq<u8>, value: bool) -> Seq<u8>;

/// Whether `tag` is a tag that tdf accepts: one to four bytes.
pub open spec fn valid_tag(tag: Seq<u8>) -> bool {
    1 <= tag.len() <= 4
}

/// Relies on tdf's `TdfSerializer::tag_union_start` for `Vec<u8>`: it
/// appends bytes that depend on the tag and key alone.
#[verifier::external_body]
fn put_union_start(w: &mut Vec<u8>, tag: &[u8], key: u8)
    requires
        valid_tag(tag@),
    ensures
        final(w)@ == old(w)@ + tdf_union_start(tag@, key),
{
    w.tag_union_start(tag, key);
}

/// Relies on tdf's `TdfSerializer::tag_group` for `Vec<u8>`: it appends
/// bytes that depend on the tag alone.
#[verifier::external_body]
fn put_group_start(w: &mut Vec<u8>, tag: &[u8])
    requires
        valid_tag(tag@),
    ensures
        final(w)@ == old(w)@ + tdf_group_start(tag@),
{
    w.tag_group(tag);
}

/// Relies on tdf's `TdfSerializer::tag_group_end` for `Vec<u8>`: it appends
/// one zero byte.
#[verifier::external_body]
fn put_group_end(w: &mut Vec<u8>)
    ensures
        final(w)@ == old(w)@.push(0u8),
{
    w.tag_group_end();
}

/// Relies on tdf's `TdfSerializer::tag_u32` for `Vec<u8>`: it appends bytes
/// that depend on the tag and value alone.
#[verifier::external_body]
fn put_u32(w: &mut Vec<u8>, tag: &[u8], value: u32)
    requires
        valid_tag(tag@),
    ensures
        final(w)@ == old(w)@ + tdf_u32(tag@, value),
{
    w.tag_u32(tag, value);
}

/// Relies on tdf's `TdfSerializer::tag_u16` for `Vec<u8>`: it appends bytes
/// that depend on the tag and value alone.
#[verifier::external_body]
fn put_u16(w: &mut Vec<u8>, tag: &[u8], value: u16)
    requires
        valid_tag(tag@),
    ensures
        final(w)@ == old(w)@ + tdf_u16(tag@, value),
{
    w.tag_u16(tag, value);
}

/// Relies on tdf's `TdfSerializer::tag_bool` for `Vec<u8>`: it appends bytes
/// that depend on the tag and value alone.
#[verifier::external_body]
fn put_bool(w: &mut Vec<u8>, tag: &[u8], value: bool)
    requires
        valid_tag(tag@),
    ensures
        final(w)@ == old(w)@ + tdf_bool(tag@, value),
{
    w.tag_bool(tag, value);
}

/// The address record that sends the game to 127.0.0.1 at `port`, without
/// TLS and without DNS.
pub open spec fn spec_address_record(port: u16) -> Seq<u8> {
    tdf_union_start(TAG_ADDR@, ADDRESS_KEY) + tdf_group_start(TAG_VALU@) + tdf_u32(
        TAG_IP@,
        LOOPBACK_IP,
    ) + tdf_u16(TAG_PORT@, port) + seq![0u8] + tdf_bool(TAG_SECU@, false) + tdf_bool(
        TAG_XDNS@,
        false,
    )
}

/// Contents of the redirector's answer: the local main listener.
pub struct LocalInstance;

impl LocalInstance {
    /// Appends the address record of the local main listener.
    pub fn serialize(&self, w: &mut Vec<u8>)
        ensures
            final(w)@ == old(w)@ + spec_address_record(MAIN_PORT),
    {
        let addr = TAG_ADDR;
        let valu = TAG_VALU;
        let ip = TAG_IP;
        let port = TAG_PORT;
        let secu = TAG_SECU;
        let xdns = TAG_XDNS;
        put_union_start(w, &addr, ADDRESS_KEY);
        put_group_start(w, &valu);
        put_u32(w, &ip, LOOPBACK_IP);
        put_u16(w, &port, MAIN_PORT);
        put_group_end(w);
        put_bool(w, &secu, false);
        put_bool(w, &xdns, false);
        assert(final(w)@ =~= old(w)@ + spec_address_record(MAIN_PORT));
    }

    /// The address record of the local main listener.
    pub fn to_bytes(&self) -> (r: Vec<u8>)
        ensures
            r@ == spec_address_record(MAIN_PORT),
    {
        let mut w: Vec<u8> = Vec::new();
        self.serialize(&mut w);
        assert(w@ =~= spec_address_record(MAIN_PORT));
        w
    }
}

/// Whether a packet with header `h` asks for the main server instance.
pub open spec fn spec_is_instance_request(h: PacketHeader) -> bool {
    h.component == REDIRECTOR_COMPONENT && h.command == GET_SERVER_INSTANCE
}

/// The redirector's answer to one packet.
#[derive(Debug)]
pub struct RedirectorReply {
    /// The response to send
    pub packet: Packet,
    /// Whether the connection closes after the response
    pub close: bool,
}

/// Answers one packet: the request for the main server instance gets the
/// address record and closes the connection; any other packet gets an
/// empty response and the connection waits for the next one.
pub fn handle_packet(packet: &Packet) -> (r: RedirectorReply)
    ensures
        r.packet.header == packet.header.spec_with_type(PacketType::Response),
        r.close == spec_is_instance_request(packet.header),
        spec_is_instance_request(packet.header) ==> r.packet.contents@ == spec_address_record(
            MAIN_PORT,
        ),
        !spec_is_instance_request(packet.header) ==> r.packet.contents@.len() == 0,
{
    let header = packet.header;
    if header.component != REDIRECTOR_COMPONENT || header.command != GET_SERVER_INSTANCE {
        return RedirectorReply { packet: Packet::response_empty(packet), close: false };
    }
    let contents = LocalInstance.to_bytes();
    RedirectorReply { packet: Packet::new_response(packet, contents), close: true }
}

} // verus!

//! Framing of the redirector's binary packets.
//!
//! A frame is a 12-byte big-endian header (14 bytes when the extended
//! length flag is set) followed by the payload.

use vstd::prelude::*;

verus! {

/// Value of the flag byte that marks a frame with an extended length.
pub const EXTENDED_FLAG: u8 = 0x10;

/// Largest payload length that fits in the low length field alone.
pub const MAX_SHORT_LENGTH: u64 = 0xFFFF;

/// The kind of a packet, carried in byte 8 of the header.
#[derive(Debug, Clone, Copy, PartialEq, Eq, Structural)]
pub enum PacketType {
    /// Request counted by id (0x00)
    Request,
    /// Reply to a request (0x10)
    Response,
    /// Unsolicited packet from the server (0x20)
    Notify,
    /// Error reply (0x30)
    Error,
}

impl PacketType {
    /// The byte that stands for this type on the wire.
    pub open spec fn spec_to_byte(self) -> u8 {
        match self {
            PacketType::Request => 0x00,
            PacketType::Response => 0x10,
            PacketType::Notify => 0x20,
            PacketType::Error => 0x30,
        }
    }

    /// The type that a wire byte stands for; an unknown byte reads as a request.
    pub open spec fn spec_from_byte(value: u8) -> PacketType {
        if value == 0x10 {
            PacketType::Response
        } else if value == 0x20 {
            PacketType::Notify
        } else if value == 0x30 {
            PacketType::Error
        } else {
            PacketType::Request
        }
    }

    /// The wire byte of this type.
    pub fn to_byte(&self) -> (r: u8)
        ensures
            r == self.spec_to_byte(),
    {
        match self {
            PacketType::Request => 0x00,
            PacketType::Response => 0x10,
            PacketType::Notify => 0x20,
            PacketType::Error => 0x30,
        }
    }

    /// The type that a wire byte stands for.
    pub fn from_byte(value: u8) -> (r: PacketType)
        ensures
            r == PacketType::spec_from_byte(value),
    {
        match value {
            0x10 => PacketType::Response,
            0x20 => PacketType::Notify,
            0x30 => PacketType::Error,
            _ => PacketType::Request,
        }
    }
}

impl From<u8> for PacketType {
    fn from(value: u8) -> (r: PacketType) {
        PacketType::from_byte(value)
    }
}

impl vstd::std_specs::convert::FromSpecImpl<u8> for PacketType {
    open spec fn obeys_from_spec() -> bool {
        true
    }

    open spec fn from_spec(v: u8) -> PacketType {
        PacketType::spec_from_byte(v)
    }
}

/// The header that comes before a packet's payload.
#[derive(Debug, Clone, Copy, PartialEq, Eq, Structural)]
pub struct PacketHeader {
    /// The component of this packet
    pub component: u16,
    /// The command of this packet
    pub command: u16,
    /// A possible error this packet carries (zero is none)
    pub error: u16,
    /// The type of this packet
    pub ty: PacketType,
    /// The id of this packet (zero for notify packets)
    pub id: u16,
}

impl PacketHeader {
    /// The same header with its type replaced by `ty`.
    pub open spec fn spec_with_type(self, ty: PacketType) -> PacketHeader {
        PacketHeader { ty, ..self }
    }

    /// Creates the header of a response to this header: the type becomes
    /// `Response`, every other field is kept.
    pub fn response(&self) -> (r: PacketHeader)
        ensures
            r == self.spec_with_type(PacketType::Response),
            r.ty == PacketType::Response,
            r.component == self.component,
            r.command == self.command,
            r.error == self.error,
            r.id == self.id,
    {
        self.with_type(PacketType::Response)
    }

    /// Copies the header with its type replaced by `ty`.
    pub fn with_type(&self, ty: PacketType) -> (r: PacketHeader)
        ensures
            r == self.spec_with_type(ty),
    {
        PacketHeader {
            component: self.component,
            command: self.command,
            error: self.error,
            ty,
            id: self.id,
        }
    }
}


/// Two big-endian bytes holding `v`, for `v` below 2^16.
pub open spec fn be16(v: nat) -> Seq<u8> {
    seq![(v / 256) as u8, (v % 256) as u8]
}

/// The big-endian 16-bit value that starts at index `i` of `b`.
pub open spec fn read_be16(b: Seq<u8>, i: int) -> nat {
    (b[i] as nat) * 256 + (b[i + 1] as nat)
}

/// Whether a payload of `len` bytes needs the extended length field.
pub open spec fn is_extended(len: nat) -> bool {
    len > 0xFFFF
}

/// The header bytes of a frame with header `h` and a payload of `len` bytes.
pub open spec fn header_bytes(h: PacketHeader, len: nat) -> Seq<u8> {
    be16(len % 0x10000) + be16(h.component as nat) + be16(h.command as nat) + be16(
        h.error as nat,
    ) + seq![h.ty.spec_to_byte(), if is_extended(len) { EXTENDED_FLAG } else { 0u8 }] + be16(
        h.id as nat,
    ) + if is_extended(len) {
        be16(len / 0x10000)
    } else {
        Seq::empty()
    }
}

/// The whole frame of a packet: its header followed by its payload.
pub open spec fn frame_bytes(h: PacketHeader, payload: Seq<u8>) -> Seq<u8> {
    header_bytes(h, payload.len()) + payload
}

/// Whether a frame can carry `len` payload bytes: the two length fields
/// together hold 32 bits.
pub open spec fn fits_frame(len: nat) -> bool {
    len <= u32::MAX
}

/// Length of the header that starts `b` (which holds at least 12 bytes).
pub open spec fn header_length(b: Seq<u8>) -> nat {
    if b[9] == EXTENDED_FLAG {
        14
    } else {
        12
    }
}

/// The header at the start of `b` and the payload length it announces, or
/// `None` while fewer bytes than the header needs are buffered.
pub open spec fn spec_read_header(b: Seq<u8>) -> Option<(PacketHeader, nat)> {
    if b.len() < 12 || b.len() < header_length(b) {
        None
    } else {
        let header = PacketHeader {
            component: read_be16(b, 2) as u16,
            command: read_be16(b, 4) as u16,
            error: read_be16(b, 6) as u16,
            ty: PacketType::spec_from_byte(b[8]),
            id: read_be16(b, 10) as u16,
        };
        let high = if b[9] == EXTENDED_FLAG {
            read_be16(b, 12) * 0x10000
        } else {
            0
        };
        Some((header, read_be16(b, 0) + high))
    }
}

/// The first frame of `b`: its header, its payload and how many bytes it
/// spans; `None` while the frame is not yet complete.
pub open spec fn spec_decode(b: Seq<u8>) -> Option<(PacketHeader, Seq<u8>, nat)> {
    match spec_read_header(b) {
        None => None,
        Some((h, len)) => {
            let start = header_length(b);
            if b.len() < start + len {
                None
            } else {
                Some((h, b.subrange(start as int, (start + len) as int), start + len))
            }
        },
    }
}

proof fn lemma_be16_read(v: nat, b: Seq<u8>, i: int)
    requires
        v < 0x10000,
        0 <= i,
        i + 2 <= b.len(),
        b.subrange(i, i + 2) == be16(v),
    ensures
        read_be16(b, i) == v,
{
    assert(b[i] == b.subrange(i, i + 2)[0]);
    assert(b[i + 1] == b.subrange(i, i + 2)[1]);
    assert((v / 256) * 256 + v % 256 == v) by (nonlinear_arith);
    assert(v / 256 < 256) by (nonlinear_arith)
        requires
            v < 0x10000,
    ;
}

/// Appends `v` as two big-endian bytes.
fn put_u16(dst: &mut Vec<u8>, v: u16)
    ensures
        final(dst)@ == old(dst)@ + be16(v as nat),
{
    dst.push((v / 256) as u8);
    dst.push((v % 256) as u8);
}

/// Reads the big-endian 16-bit value at index `i`.
fn get_u16(src: &[u8], i: usize) -> (r: u16)
    requires
        i + 2 <= src@.len(),
    ensures
        r as nat == read_be16(src@, i as int),
{
    let hi = src[i] as u16;
    let lo = src[i + 1] as u16;
    assert(hi * 256 + lo <= 0xFFFF) by (nonlinear_arith)
        requires
            hi <= 255,
            lo <= 255,
    ;
    hi * 256 + lo
}

impl PacketHeader {
    /// Appends the header of a frame whose payload is `length` bytes long.
    pub fn write(&self, dst: &mut Vec<u8>, length: usize)
        requires
            fits_frame(length as nat),
        ensures
            final(dst)@ == old(dst)@ + header_bytes(*self, length as nat),
    {
        let extended = length > 0xFFFF;
        put_u16(dst, (length % 0x10000) as u16);
        put_u16(dst, self.component);
        put_u16(dst, self.command);
        put_u16(dst, self.error);
        dst.push(self.ty.to_byte());
        dst.push(if extended { EXTENDED_FLAG } else { 0u8 });
        put_u16(dst, self.id);
        if extended {
            put_u16(dst, (length / 0x10000) as u16);
        }
        assert(final(dst)@ =~= old(dst)@ + header_bytes(*self, length as nat));
    }

    /// Reads the header at the start of `src` and the payload length it
    /// announces; `None` while fewer bytes than the header needs are there.
    pub fn read(src: &[u8]) -> (r: Option<(PacketHeader, usize)>)
        ensures
            match spec_read_header(src@) {
                None => r is None,
                Some((h, len)) => r == Some((h, len as usize)) && len <= u32::MAX,
            },
    {
        if src.len() < 12 {
            return None;
        }
        let extended = src[9] == EXTENDED_FLAG;
        if extended && src.len() < 14 {
            return None;
        }
        let low = get_u16(src, 0);
        let header = PacketHeader {
            component: get_u16(src, 2),
            command: get_u16(src, 4),
            error: get_u16(src, 6),
            ty: PacketType::from_byte(src[8]),
            id: get_u16(src, 10),
        };
        let length: u64 = if extended {
            low as u64 + get_u16(src, 12) as u64 * 0x10000
        } else {
            low as u64
        };
        Some((header, length as usize))
    }
}


/// A redirector packet: a header and its payload bytes.
#[derive(Debug, Clone)]
pub struct Packet {
    /// The packet header
    pub header: PacketHeader,
    /// The packet's encoded payload
    pub contents: Vec<u8>,
}

impl Packet {
    /// Creates a packet from a header and its payload.
    pub fn new(header: PacketHeader, contents: Vec<u8>) -> (r: Packet)
        ensures
            r.header == header,
            r.contents@ == contents@,
    {
        Packet { header, contents }
    }

    /// Creates a packet with an empty payload.
    pub fn new_empty(header: PacketHeader) -> (r: Packet)
        ensures
            r.header == header,
            r.contents@.len() == 0,
    {
        Packet::new(header, Vec::new())
    }

    /// Creates a response to `packet` that carries `contents`.
    pub fn new_response(packet: &Packet, contents: Vec<u8>) -> (r: Packet)
        ensures
            r.header == packet.header.spec_with_type(PacketType::Response),
            r.contents@ == contents@,
    {
        Packet::new(packet.header.response(), contents)
    }

    /// Creates a response to `packet` with an empty payload.
    pub fn response_empty(packet: &Packet) -> (r: Packet)
        ensures
            r.header == packet.header.spec_with_type(PacketType::Response),
            r.contents@.len() == 0,
    {
        Packet::new_empty(packet.header.response())
    }

    /// Reads the first frame of `src`, returning the packet and the number
    /// of bytes the frame spans; `None` while the frame is incomplete.
    pub fn read(src: &[u8]) -> (r: Option<(Packet, usize)>)
        ensures
            match spec_decode(src@) {
                None => r is None,
                Some((h, payload, n)) => r matches Some((p, m)) && p.header == h
                    && p.contents@ == payload && m == n,
            },
    {
        let (header, length) = match PacketHeader::read(src) {
            Some(value) => value,
            None => return None,
        };
        let start: usize = if src[9] == EXTENDED_FLAG {
            14
        } else {
            12
        };
        if src.len() - start < length {
            return None;
        }
        let end = start + length;
        let contents = vstd::slice::slice_to_vec(&src[start..end]);
        Some((Packet { header, contents }, end))
    }

    /// Appends the frame of this packet.
    pub fn write(&self, dst: &mut Vec<u8>)
        requires
            fits_frame(self.contents@.len()),
        ensures
            final(dst)@ == old(dst)@ + frame_bytes(self.header, self.contents@),
    {
        self.header.write(dst, self.contents.len());
        dst.extend_from_slice(self.contents.as_slice());
        assert(final(dst)@ =~= old(dst)@ + frame_bytes(self.header, self.contents@));
    }
}

/// Codec that splits a byte stream into packets and frames packets into it.
pub struct PacketCodec;

impl PacketCodec {
    /// Takes the first complete frame off the front of `src`. While the
    /// frame is incomplete, returns `None` and leaves `src` as it was.
    pub fn decode(&mut self, src: &mut Vec<u8>) -> (r: Option<Packet>)
        ensures
            match spec_decode(old(src)@) {
                None => r is None && final(src)@ == old(src)@,
                Some((h, payload, n)) => r matches Some(p) && p.header == h && p.contents@
                    == payload && final(src)@ == old(src)@.subrange(n as int, old(src)@.len() as int),
            },
    {
        match Packet::read(src.as_slice()) {
            None => None,
            Some((packet, consumed)) => {
                let mut rest = src.split_off(consumed);
                std::mem::swap(src, &mut rest);
                Some(packet)
            },
        }
    }

    /// Appends the frame of `item` to `dst`.
    pub fn encode(&mut self, item: Packet, dst: &mut Vec<u8>)
        requires
            fits_frame(item.contents@.len()),
        ensures
            final(dst)@ == old(dst)@ + frame_bytes(item.header, item.contents@),
    {
        item.write(dst);
    }
}

/// Decoding the frame of a packet, whatever bytes follow it, gives back the
/// packet's header and payload and consumes exactly the frame.
pub proof fn lemma_frame_round_trip(h: PacketHeader, payload: Seq<u8>, rest: Seq<u8>)
    requires
        fits_frame(payload.len()),
    ensures
        spec_decode(frame_bytes(h, payload) + rest) == Some(
            (h, payload, frame_bytes(h, payload).len()),
        ),
{
    let len = payload.len();
    let hb = header_bytes(h, len);
    let b = frame_bytes(h, payload) + rest;
    let ext = is_extended(len);
    assert(b.subrange(0, hb.len() as int) =~= hb);
    assert(hb.len() == if ext { 14nat } else { 12nat });
    assert(b[9] == hb[9]);
    assert(header_length(b) == hb.len());
    assert(len % 0x10000 < 0x10000);
    assert(b.subrange(0, 2) =~= be16(len % 0x10000));
    lemma_be16_read(len % 0x10000, b, 0);
    assert(b.subrange(2, 4) =~= be16(h.component as nat));
    lemma_be16_read(h.component as nat, b, 2);
    assert(b.subrange(4, 6) =~= be16(h.command as nat));
    lemma_be16_read(h.command as nat, b, 4);
    assert(b.subrange(6, 8) =~= be16(h.error as nat));
    lemma_be16_read(h.error as nat, b, 6);
    assert(b.subrange(10, 12) =~= be16(h.id as nat));
    lemma_be16_read(h.id as nat, b, 10);
    assert(PacketType::spec_from_byte(h.ty.spec_to_byte()) == h.ty);
    if ext {
        assert(len / 0x10000 < 0x10000);
        assert(b.subrange(12, 14) =~= be16(len / 0x10000));
        lemma_be16_read(len / 0x10000, b, 12);
        assert(len % 0x10000 + (len / 0x10000) * 0x10000 == len);
    } else {
        assert(len % 0x10000 == len);
    }
    assert(b.subrange(hb.len() as int, (hb.len() + len) as int) =~= payload);
}

/// The extended length flag is set exactly when the payload is longer than
/// 0xFFFF bytes; only then does the frame carry the high length field, so
/// the frame spans 12 header bytes, 2 more when extended, and the payload.
pub proof fn lemma_extended_threshold(h: PacketHeader, payload: Seq<u8>)
    ensures
        frame_bytes(h, payload)[9] == (if payload.len() > MAX_SHORT_LENGTH {
            EXTENDED_FLAG
        } else {
            0u8
        }),
        frame_bytes(h, payload).len() == 12 + (if payload.len() > MAX_SHORT_LENGTH {
            2nat
        } else {
            0nat
        }) + payload.len(),
        header_bytes(h, payload.len()).len() == (if payload.len() > MAX_SHORT_LENGTH {
            14nat
        } else {
            12nat
        }),
{
    let hb = header_bytes(h, payload.len());
    assert(frame_bytes(h, payload)[9] == hb[9]);
}

} // verus!

use pocket_relay_client::packet::{Packet, PacketCodec, PacketHeader, PacketType};

fn header(ty: PacketType) -> PacketHeader {
    PacketHeader { component: 0x1234, command: 0x5678, error: 0x9ABC, ty, id: 42 }
}

#[test]
fn header_bytes_layout() {
    let packet = Packet::new(header(PacketType::Notify), vec![7, 8, 9]);
    let mut out = Vec::new();
    packet.write(&mut out);
    assert_eq!(
        out,
        vec![0x00, 0x03, 0x12, 0x34, 0x56, 0x78, 0x9A, 0xBC, 0x20, 0x00, 0x00, 42, 7, 8, 9]
    );
}

#[test]
fn frame_round_trip() {
    for ty in [PacketType::Request, PacketType::Response, PacketType::Notify, PacketType::Error] {
        let packet = Packet::new(header(ty), vec![1, 2, 3, 4, 5]);
        let mut out = Vec::new();
        packet.write(&mut out);
        assert_eq!(out.len(), 12 + 5);
        let (read, consumed) = Packet::read(&out).unwrap();
        assert_eq!(consumed, out.len());
        assert_eq!(read.header, packet.header);
        assert_eq!(read.contents, packet.contents);
    }
}

#[test]
fn extended_frame() {
    let payload: Vec<u8> = (0..70_000u32).map(|i| (i % 251) as u8).collect();
    let packet = Packet::new(header(PacketType::Request), payload.clone());
    let mut out = Vec::new();
    packet.write(&mut out);
    assert_eq!(out[9], 0x10);
    assert_eq!(u16::from_be_bytes([out[0], out[1]]), (70_000u32 & 0xFFFF) as u16);
    assert_eq!(u16::from_be_bytes([out[12], out[13]]), (70_000u32 >> 16) as u16);
    assert_eq!(out.len(), 14 + 70_000);
    let (read, consumed) = Packet::read(&out).unwrap();
    assert_eq!(consumed, out.len());
    assert_eq!(read.contents, payload);
}

#[test]
fn threshold_is_0xffff() {
    let mut out = Vec::new();
    Packet::new(header(PacketType::Request), vec![0; 0xFFFF]).write(&mut out);
    assert_eq!(out[9], 0x00);
    assert_eq!(out.len(), 12 + 0xFFFF);
    let mut out = Vec::new();
    Packet::new(header(PacketType::Request), vec![0; 0x10000]).write(&mut out);
    assert_eq!(out[9], 0x10);
    assert_eq!(out.len(), 14 + 0x10000);
}

#[test]
fn response_header_keeps_fields() {
    let h = header(PacketType::Request);
    let r = h.response();
    assert_eq!(r.ty, PacketType::Response);
    assert_eq!((r.component, r.command, r.error, r.id), (0x1234, 0x5678, 0x9ABC, 42));
    assert_eq!(h.with_type(PacketType::Error).ty, PacketType::Error);
}

#[test]
fn packet_type_bytes() {
    assert_eq!(PacketType::from(0x10), PacketType::Response);
    assert_eq!(PacketType::from(0x20), PacketType::Notify);
    assert_eq!(PacketType::from(0x30), PacketType::Error);
    assert_eq!(PacketType::from(0x77), PacketType::Request);
    assert_eq!(PacketType::Error.to_byte(), 0x30);
}

#[test]
fn incomplete_frames_need_more() {
    let mut out = Vec::new();
    Packet::new(header(PacketType::Request), vec![1, 2, 3]).write(&mut out);
    for len in 0..out.len() {
        assert!(Packet::read(&out[..len]).is_none());
    }
    // An extended flag with only twelve bytes is incomplete too
    let mut short = out[..12].to_vec();
    short[9] = 0x10;
    assert!(PacketHeader::read(&short).is_none());
}

#[test]
fn codec_consumes_one_frame() {
    let mut codec = PacketCodec;
    let mut stream = Vec::new();
    codec.encode(Packet::new(header(PacketType::Request), vec![1]), &mut stream);
    codec.encode(Packet::new_empty(header(PacketType::Notify)), &mut stream);
    stream.push(0xAA);
    let first = codec.decode(&mut stream).unwrap();
    assert_eq!(first.contents, vec![1]);
    let second = codec.decode(&mut stream).unwrap();
    assert_eq!(second.header.ty, PacketType::Notify);
    assert!(second.contents.is_empty());
    assert_eq!(stream, vec![0xAA]);
    assert!(codec.decode(&mut stream).is_none());
    assert_eq!(stream, vec![0xAA]);
}

#[test]
fn responses_to_a_packet() {
    let packet = Packet::new(header(PacketType::Request), vec![5]);
    let empty = Packet::response_empty(&packet);
    assert_eq!(empty.header, header(PacketType::Response));
    assert!(empty.contents.is_empty());
    let full = Packet::new_response(&packet, vec![9, 9]);
    assert_eq!(full.header, header(PacketType::Response));
    assert_eq!(full.contents, vec![9, 9]);
}

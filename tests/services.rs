use pocket_relay_client::api::{LookupData, ServerVersion};
use pocket_relay_client::constants::{HTTP_PORT, MAIN_PORT};
use pocket_relay_client::http::{proxy_route, ProxyRoute};
use pocket_relay_client::net::{
    resolve_after_local, resolve_after_probe, resolve_start, AddrStep, PublicAddrCache,
};
use pocket_relay_client::packet::{Packet, PacketHeader, PacketType};
use pocket_relay_client::qos::{advertised_address, is_local, qos_reply};
use pocket_relay_client::redirector::{handle_packet, LocalInstance};
use pocket_relay_client::tunnel::{is_upgraded, upgrade_request};
use tdf::TdfSerializer;

fn target(association: Option<&str>) -> LookupData {
    LookupData {
        scheme: "http".to_string(),
        host: "ex.test".to_string(),
        version: ServerVersion { major: 0, minor: 5, patch: 0, pre_release: false },
        port: 80,
        association: association.map(|s| s.to_string()),
    }
}

fn expected_record() -> Vec<u8> {
    let mut w = Vec::new();
    w.tag_union_start(b"ADDR", 0);
    w.tag_group(b"VALU");
    w.tag_u32(b"IP", u32::from_be_bytes([127, 0, 0, 1]));
    w.tag_u16(b"PORT", 42128);
    w.tag_group_end();
    w.tag_bool(b"SECU", false);
    w.tag_bool(b"XDNS", false);
    w
}

#[test]
fn redirector_exchange() {
    let request = Packet::new(
        PacketHeader { component: 0x5, command: 0x1, error: 0, ty: PacketType::Request, id: 42 },
        Vec::new(),
    );
    let reply = handle_packet(&request);
    assert!(reply.close);
    assert_eq!(reply.packet.header.id, 42);
    assert_eq!(reply.packet.header.ty, PacketType::Response);
    assert_eq!(reply.packet.contents, expected_record());
    assert!(!reply.packet.contents.is_empty());
}

#[test]
fn redirector_other_request_gets_empty_response() {
    let request = Packet::new(
        PacketHeader { component: 0x5, command: 0x2, error: 0, ty: PacketType::Request, id: 7 },
        vec![1, 2],
    );
    let reply = handle_packet(&request);
    assert!(!reply.close);
    assert_eq!(reply.packet.header.id, 7);
    assert_eq!(reply.packet.header.command, 0x2);
    assert_eq!(reply.packet.header.ty, PacketType::Response);
    assert!(reply.packet.contents.is_empty());
}

#[test]
fn local_instance_record() {
    assert_eq!(MAIN_PORT, 42128);
    let mut w = vec![0xEE];
    LocalInstance.serialize(&mut w);
    assert_eq!(w[0], 0xEE);
    assert_eq!(&w[1..], &expected_record()[..]);
    assert_eq!(LocalInstance.to_bytes(), expected_record());
}

#[test]
fn qos_echo() {
    let request: Vec<u8> = (0u8..20).collect();
    let reply = qos_reply(&request, [203, 0, 113, 9], 55555);
    assert_eq!(reply.len(), 30);
    assert_eq!(&reply[..20], &request[..]);
    assert_eq!(&reply[20..24], &[203, 0, 113, 9]);
    assert_eq!(&reply[24..26], &[0xD9, 0x03]);
    assert_eq!(&reply[26..30], &[0, 0, 0, 0]);
}

#[test]
fn qos_reply_shape_for_every_length() {
    for n in 1..=64usize {
        let request: Vec<u8> = (0..n).map(|i| (i * 7) as u8).collect();
        let reply = qos_reply(&request, [1, 2, 3, 4], 0x0102);
        assert_eq!(reply.len(), n + 10);
        assert_eq!(&reply[..n], &request[..]);
        assert_eq!(&reply[n..n + 6], &[1, 2, 3, 4, 1, 2]);
        assert_eq!(&reply[n + 6..], &[0, 0, 0, 0]);
    }
}

#[test]
fn qos_advertised_address() {
    assert!(is_local([127, 0, 0, 1]));
    assert!(is_local([10, 1, 2, 3]));
    assert!(is_local([172, 16, 0, 1]));
    assert!(is_local([172, 31, 255, 255]));
    assert!(!is_local([172, 32, 0, 1]));
    assert!(is_local([192, 168, 1, 1]));
    assert!(!is_local([8, 8, 8, 8]));
    assert_eq!(advertised_address([192, 168, 1, 5], Some([1, 2, 3, 4])), Some([1, 2, 3, 4]));
    assert_eq!(advertised_address([192, 168, 1, 5], None), None);
    assert_eq!(advertised_address([8, 8, 4, 4], Some([1, 2, 3, 4])), Some([8, 8, 4, 4]));
}

#[test]
fn public_address_cache() {
    let mut cache = PublicAddrCache::new();
    assert!(matches!(resolve_start(&cache, 100), AddrStep::Probe(0)));
    cache.store([1, 2, 3, 4], 100);
    assert_eq!(cache.cached(100), Some([1, 2, 3, 4]));
    assert_eq!(cache.cached(100 + 7199), Some([1, 2, 3, 4]));
    assert!(matches!(resolve_start(&cache, 7299), AddrStep::Cached([1, 2, 3, 4])));
    assert_eq!(cache.cached(100 + 7200), None);
    assert!(matches!(resolve_start(&cache, 7300), AddrStep::Probe(0)));
    cache.store([5, 6, 7, 8], u64::MAX - 1);
    assert_eq!(cache.cached(u64::MAX - 1), Some([5, 6, 7, 8]));
}

#[test]
fn public_address_steps() {
    assert!(matches!(resolve_after_probe(0, Some([9, 9, 9, 9])), AddrStep::Store([9, 9, 9, 9])));
    assert!(matches!(resolve_after_probe(0, None), AddrStep::Probe(1)));
    assert!(matches!(resolve_after_probe(1, None), AddrStep::QueryLocal));
    assert!(matches!(resolve_after_local(Some([1, 1, 1, 1])), AddrStep::Store([1, 1, 1, 1])));
    assert!(matches!(resolve_after_local(None), AddrStep::GiveUp));
}

#[test]
fn tunnel_upgrade_request() {
    let request = upgrade_request(&target(None), HTTP_PORT);
    assert_eq!(request.url, "http://ex.test:80/api/server/upgrade");
    let expected: Vec<(String, String)> = [
        ("Connection", "Upgrade"),
        ("Upgrade", "blaze"),
        ("x-pocket-relay-scheme", "http"),
        ("x-pocket-relay-host", "127.0.0.1"),
        ("x-pocket-relay-port", "42131"),
        ("x-pocket-relay-local-http", "true"),
    ]
    .iter()
    .map(|(a, b)| (a.to_string(), b.to_string()))
    .collect();
    assert_eq!(request.headers, expected);
    let with_token = upgrade_request(&target(Some("abc")), HTTP_PORT);
    assert_eq!(with_token.headers.len(), 7);
    assert_eq!(
        with_token.headers[6],
        ("x-pocket-relay-association".to_string(), "abc".to_string())
    );
    assert!(is_upgraded(101));
    assert!(!is_upgraded(200));
}

#[test]
fn http_proxy_route() {
    assert!(matches!(proxy_route(None, "/a"), ProxyRoute::Unavailable));
    let t = target(None);
    match proxy_route(Some(&t), "/content/file.txt?x=1") {
        ProxyRoute::Forward(url) => assert_eq!(url, "http://ex.test:80/content/file.txt?x=1"),
        ProxyRoute::Unavailable => panic!("expected a forward"),
    }
    match proxy_route(Some(&t), "") {
        ProxyRoute::Forward(url) => assert_eq!(url, "http://ex.test:80/"),
        ProxyRoute::Unavailable => panic!("expected a forward"),
    }
}

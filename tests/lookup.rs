use pocket_relay_client::api::{
    check_lookup, lookup_url, meets_minimum, min_server_version, LookupError, LookupReply,
    ServerDetails, ServerVersion,
};
use pocket_relay_client::config::ClientConfig;

fn version(major: u64, minor: u64, patch: u64) -> ServerVersion {
    ServerVersion { major, minor, patch, pre_release: false }
}

fn reply(status: u16, host: Option<&str>, details: Option<ServerDetails>) -> LookupReply {
    LookupReply {
        status,
        scheme: "http".to_string(),
        host: host.map(|h| h.to_string()),
        port: None,
        details,
    }
}

fn details(v: ServerVersion, ident: Option<&str>) -> Option<ServerDetails> {
    Some(ServerDetails { version: v, ident: ident.map(|s| s.to_string()), association: None })
}

#[test]
fn lookup_url_normalisation() {
    assert_eq!(lookup_url("ex.test"), "http://ex.test/api/server");
    assert_eq!(lookup_url("ex.test/"), "http://ex.test/api/server");
    assert_eq!(lookup_url("https://ex.test:8443"), "https://ex.test:8443/api/server");
    assert_eq!(lookup_url("http://ex.test/base/"), "http://ex.test/base/api/server");
}

#[test]
fn lookup_success() {
    let data = check_lookup(reply(200, Some("ex.test"), details(version(0, 5, 0), Some("POCKET_RELAY_SERVER"))))
        .unwrap();
    assert_eq!(data.scheme, "http");
    assert_eq!(data.host, "ex.test");
    assert_eq!(data.port, 80);
    assert_eq!(data.version, version(0, 5, 0));
    assert_eq!(data.base_url(), "http://ex.test:80/");
    let mut with_port = reply(204, Some("ex.test"), details(version(1, 0, 0), Some("POCKET_RELAY_SERVER")));
    with_port.port = Some(8080);
    assert_eq!(check_lookup(with_port).unwrap().port, 8080);
}

#[test]
fn lookup_outdated_server() {
    let result = check_lookup(reply(200, Some("ex.test"), details(version(0, 4, 9), Some("POCKET_RELAY_SERVER"))));
    match result {
        Err(LookupError::ServerOutdated(got, min)) => {
            assert_eq!(got, version(0, 4, 9));
            assert_eq!(min, version(0, 5, 0));
        }
        other => panic!("unexpected {:?}", other),
    }
}

#[test]
fn lookup_wrong_identifier() {
    let result = check_lookup(reply(200, Some("ex.test"), details(version(1, 0, 0), Some("OTHER"))));
    assert!(matches!(result, Err(LookupError::NotPocketRelay)));
    let missing = check_lookup(reply(200, Some("ex.test"), details(version(1, 0, 0), None)));
    assert!(matches!(missing, Err(LookupError::NotPocketRelay)));
}

#[test]
fn lookup_other_errors() {
    assert!(matches!(check_lookup(reply(404, Some("ex.test"), None)), Err(LookupError::ErrorResponse(404))));
    assert!(matches!(check_lookup(reply(302, Some("ex.test"), None)), Err(LookupError::ErrorResponse(302))));
    assert!(matches!(check_lookup(reply(200, None, None)), Err(LookupError::InvalidHostTarget)));
    assert!(matches!(check_lookup(reply(200, Some("ex.test"), None)), Err(LookupError::InvalidResponse)));
    let _ = LookupError::ConnectionFailed;
}

#[test]
fn minimum_version() {
    assert_eq!(min_server_version(), version(0, 5, 0));
    assert!(meets_minimum(&version(0, 5, 0)));
    assert!(meets_minimum(&version(0, 5, 1)));
    assert!(meets_minimum(&version(1, 0, 0)));
    assert!(!meets_minimum(&version(0, 4, 99)));
    assert!(!meets_minimum(&ServerVersion { major: 0, minor: 5, patch: 0, pre_release: true }));
    assert!(meets_minimum(&ServerVersion { major: 0, minor: 6, patch: 0, pre_release: true }));
}

#[test]
fn config_holds_url() {
    assert_eq!(ClientConfig::new("ex.test".to_string()).connection_url, "ex.test");
}

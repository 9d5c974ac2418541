//! The main tunnel: each game connection is carried over an HTTP Upgrade
//! request to the server, after which bytes are copied both ways.

use vstd::prelude::*;

use crate::api::LookupData;
use crate::text::{ascii_chars, decimal, decimal_string};
use crate::telemetry::pairs_view;

verus! {

/// Path of the upgrade endpoint, relative to the server's base URL.
pub const UPGRADE_ENDPOINT: &'static str = "api/server/upgrade";

/// Status of a successful upgrade (101 Switching Protocols).
pub const SWITCHING_PROTOCOLS: u16 = 101;

/// Name of the header that asks for a connection upgrade.
pub const HEADER_CONNECTION: &'static str = "Connection";

/// Name of the header that names the protocol upgraded to.
pub const HEADER_UPGRADE: &'static str = "Upgrade";

/// Name of the header with the scheme of the local HTTP proxy.
pub const HEADER_SCHEME: &'static str = "x-pocket-relay-scheme";

/// Name of the header with the host of the local HTTP proxy.
pub const HEADER_HOST: &'static str = "x-pocket-relay-host";

/// Name of the header with the port of the local HTTP proxy.
pub const HEADER_PORT: &'static str = "x-pocket-relay-port";

/// Name of the header that asks the server to use the local HTTP proxy.
pub const HEADER_LOCAL_HTTP: &'static str = "x-pocket-relay-local-http";

/// Name of the header with the association token.
pub const HEADER_ASSOCIATION: &'static str = "x-pocket-relay-association";

/// Value of the connection header.
pub const VALUE_UPGRADE: &'static str = "Upgrade";

/// The protocol upgraded to.
pub const VALUE_PROTOCOL: &'static str = "blaze";

/// Scheme of the local HTTP proxy.
pub const VALUE_SCHEME: &'static str = "http";

/// Host of the local HTTP proxy (loopback).
pub const VALUE_HOST: &'static str = "127.0.0.1";

/// Value of the local HTTP header.
pub const VALUE_TRUE: &'static str = "true";

/// An HTTP GET to send to the server.
#[derive(Debug)]
pub struct UpgradeRequest {
    /// The URL to request
    pub url: String,
    /// Name and value of each header, in order
    pub headers: Vec<(String, String)>,
}

/// The headers of the upgrade request: the upgrade itself, then where the
/// server finds this machine's HTTP proxy, then the association token when
/// the target has one.
pub open spec fn spec_upgrade_headers(association: Option<Seq<char>>, http_port: u16) -> Seq<
    (Seq<char>, Seq<char>),
> {
    let fixed = seq![
        (HEADER_CONNECTION@, VALUE_UPGRADE@),
        (HEADER_UPGRADE@, VALUE_PROTOCOL@),
        (HEADER_SCHEME@, VALUE_SCHEME@),
        (HEADER_HOST@, VALUE_HOST@),
        (HEADER_PORT@, ascii_chars(decimal(http_port as nat))),
        (HEADER_LOCAL_HTTP@, VALUE_TRUE@),
    ];
    match association {
        Some(token) => fixed.push((HEADER_ASSOCIATION@, token)),
        None => fixed,
    }
}

fn pair(name: &str, value: &str) -> (r: (String, String))
    ensures
        r.0@ == name@,
        r.1@ == value@,
{
    (String::from_str(name), String::from_str(value))
}

/// The upgrade request for one game connection to `target`, telling the
/// server that this machine's HTTP proxy listens on `http_port`.
pub fn upgrade_request(target: &LookupData, http_port: u16) -> (r: UpgradeRequest)
    ensures
        r.url@ == target.spec_base_url() + UPGRADE_ENDPOINT@,
        pairs_view(r.headers@) == spec_upgrade_headers(
            match target.association {
                Some(t) => Some(t@),
                None => None,
            },
            http_port,
        ),
{
    let url = target.endpoint_url(UPGRADE_ENDPOINT);
    let mut headers: Vec<(String, String)> = Vec::new();
    headers.push(pair(HEADER_CONNECTION, VALUE_UPGRADE));
    headers.push(pair(HEADER_UPGRADE, VALUE_PROTOCOL));
    headers.push(pair(HEADER_SCHEME, VALUE_SCHEME));
    headers.push(pair(HEADER_HOST, VALUE_HOST));
    let port = decimal_string(http_port as u64);
    headers.push((String::from_str(HEADER_PORT), port));
    headers.push(pair(HEADER_LOCAL_HTTP, VALUE_TRUE));
    match &target.association {
        Some(token) => {
            headers.push((String::from_str(HEADER_ASSOCIATION), token.clone()));
        },
        None => {},
    }
    assert(pairs_view(headers@) =~= spec_upgrade_headers(
        match target.association {
            Some(t) => Some(t@),
            None => None,
        },
        http_port,
    ));
    UpgradeRequest { url, headers }
}

/// Whether the server's answer status completes the upgrade.
pub fn is_upgraded(status: u16) -> (r: bool)
    ensures
        r == (status == SWITCHING_PROTOCOLS),
{
    status == SWITCHING_PROTOCOLS
}

} // verus!

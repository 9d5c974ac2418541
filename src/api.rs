//! Looking up a replacement server: the probe URL, the checks on its reply,
//! and the target that a successful lookup yields.

use vstd::prelude::*;

use crate::text::{ascii_chars, decimal, decimal_string, ends_with_char, has_prefix, spec_has_prefix};

verus! {

/// Identifier that a replacement server reports.
pub const SERVER_IDENT: &'static str = "POCKET_RELAY_SERVER";

/// Path of the server details endpoint, relative to the base URL.
pub const DETAILS_ENDPOINT: &'static str = "api/server";

/// Scheme put in front of a connection URL that has none.
pub const DEFAULT_SCHEME_PREFIX: &'static str = "http://";

/// Prefix of a secure connection URL.
pub const SECURE_SCHEME_PREFIX: &'static str = "https://";

/// Port used when the reply's URL names none and its scheme has no default.
pub const DEFAULT_PORT: u16 = 80;

/// Major part of the oldest accepted version.
pub const MIN_MAJOR: u64 = 0;

/// Minor part of the oldest accepted version.
pub const MIN_MINOR: u64 = 5;

/// Patch part of the oldest accepted version.
pub const MIN_PATCH: u64 = 0;


/// A server's semantic version, as far as the lookup reads it.
#[derive(Debug, Clone, Copy, PartialEq, Eq, Structural)]
pub struct ServerVersion {
    pub major: u64,
    pub minor: u64,
    pub patch: u64,
    /// Whether the version carries a pre-release tag (`1.0.0-beta`)
    pub pre_release: bool,
}

/// The oldest version accepted, 0.5.0.
pub open spec fn spec_min_version() -> ServerVersion {
    ServerVersion { major: MIN_MAJOR, minor: MIN_MINOR, patch: MIN_PATCH, pre_release: false }
}

/// Whether `v` is at least the oldest accepted version in semantic version
/// precedence: a higher major, minor or patch wins; with equal numbers a
/// pre-release comes before the release.
pub open spec fn spec_meets_minimum(v: ServerVersion) -> bool {
    let m = spec_min_version();
    if v.major != m.major {
        v.major > m.major
    } else if v.minor != m.minor {
        v.minor > m.minor
    } else if v.patch != m.patch {
        v.patch > m.patch
    } else {
        !v.pre_release
    }
}

/// The oldest version accepted.
pub fn min_server_version() -> (r: ServerVersion)
    ensures
        r == spec_min_version(),
{
    ServerVersion { major: MIN_MAJOR, minor: MIN_MINOR, patch: MIN_PATCH, pre_release: false }
}

/// Whether `v` is at least the oldest accepted version.
pub fn meets_minimum(v: &ServerVersion) -> (r: bool)
    ensures
        r == spec_meets_minimum(*v),
{
    let m = min_server_version();
    if v.major != m.major {
        v.major > m.major
    } else if v.minor != m.minor {
        v.minor > m.minor
    } else if v.patch != m.patch {
        v.patch > m.patch
    } else {
        !v.pre_release
    }
}

/// The details a server gives about itself.
#[derive(Debug)]
pub struct ServerDetails {
    /// The server's version
    pub version: ServerVersion,
    /// The server's identifier, if it gave one
    pub ident: Option<String>,
    /// Token that the server wants back on the upgrade request, if any
    pub association: Option<String>,
}

/// What came back from the details request.
#[derive(Debug)]
pub struct LookupReply {
    /// The HTTP status code
    pub status: u16,
    /// Scheme of the URL that answered (after redirects)
    pub scheme: String,
    /// Host of the URL that answered, if it has one
    pub host: Option<String>,
    /// Port of the URL that answered, or its scheme's default port
    pub port: Option<u16>,
    /// The details from the body; `None` when the body was not valid
    pub details: Option<ServerDetails>,
}

/// Data from a completed lookup: where the server is and its version.
#[derive(Debug, Clone)]
pub struct LookupData {
    /// The scheme used to reach the server (http or https)
    pub scheme: String,
    /// The host of the server
    pub host: String,
    /// The server version
    pub version: ServerVersion,
    /// The server port
    pub port: u16,
    /// Token that the server wants back on the upgrade request, if any
    pub association: Option<String>,
}

/// Ways a lookup can fail.
#[derive(Debug, Clone)]
pub enum LookupError {
    /// The URL that answered has no host
    InvalidHostTarget,
    /// The server could not be reached
    ConnectionFailed,
    /// The server answered with a status outside 2xx
    ErrorResponse(u16),
    /// The body was not valid server details
    InvalidResponse,
    /// The server's identifier is missing or is not the expected one
    NotPocketRelay,
    /// The server is older than the oldest accepted version (its version,
    /// then the oldest accepted)
    ServerOutdated(ServerVersion, ServerVersion),
}

/// The URL of the details endpoint for a connection URL typed by a user:
/// `http://` in front unless it names http or https, a `/` at the end
/// unless it has one, then the endpoint path.
pub open spec fn spec_lookup_url(host: Seq<char>) -> Seq<char> {
    let with_scheme = if spec_has_prefix(host, DEFAULT_SCHEME_PREFIX@) || spec_has_prefix(
        host,
        SECURE_SCHEME_PREFIX@,
    ) {
        host
    } else {
        DEFAULT_SCHEME_PREFIX@ + host
    };
    let with_slash = if host.len() > 0 && host.last() == '/' {
        with_scheme
    } else {
        with_scheme + "/"@
    };
    with_slash + DETAILS_ENDPOINT@
}

/// Builds the URL of the details endpoint from a connection URL.
pub fn lookup_url(host: &str) -> (r: String)
    ensures
        r@ == spec_lookup_url(host@),
{
    let mut url = if !has_prefix(host, DEFAULT_SCHEME_PREFIX) && !has_prefix(
        host,
        SECURE_SCHEME_PREFIX,
    ) {
        let mut url = String::from_str(DEFAULT_SCHEME_PREFIX);
        url.append(host);
        url
    } else {
        String::from_str(host)
    };
    if !ends_with_char(host, '/') {
        url.append("/");
    }
    url.append(DETAILS_ENDPOINT);
    url
}

/// Whether `status` is a success status (2xx).
pub open spec fn spec_is_success(status: u16) -> bool {
    200 <= status < 300
}

/// Whether the details carry the expected identifier.
pub open spec fn spec_ident_ok(d: ServerDetails) -> bool {
    match d.ident {
        Some(i) => i@ == SERVER_IDENT@,
        None => false,
    }
}

/// The first check that a reply to the details request fails, in this
/// order: a success status, a host in the answering URL, valid details, the
/// expected identifier, a version no older than the oldest accepted.
pub open spec fn spec_lookup_error(reply: LookupReply) -> Option<LookupError> {
    if !spec_is_success(reply.status) {
        Some(LookupError::ErrorResponse(reply.status))
    } else if reply.host is None {
        Some(LookupError::InvalidHostTarget)
    } else {
        match reply.details {
            None => Some(LookupError::InvalidResponse),
            Some(d) => if !spec_ident_ok(d) {
                Some(LookupError::NotPocketRelay)
            } else if !spec_meets_minimum(d.version) {
                Some(LookupError::ServerOutdated(d.version, spec_min_version()))
            } else {
                None
            },
        }
    }
}

/// Checks the reply to the details request. On success the target is the
/// URL that answered, with its port (80 when it has none), and the server's
/// version and association token.
pub fn check_lookup(reply: LookupReply) -> (r: Result<LookupData, LookupError>)
    ensures
        spec_lookup_error(reply) matches Some(e) ==> r == Err::<LookupData, LookupError>(e),
        spec_lookup_error(reply) is None ==> r is Ok,
        r matches Ok(data) ==> {
            &&& data.scheme@ == reply.scheme@
            &&& data.host@ == reply.host->0@
            &&& data.port == match reply.port {
                Some(p) => p,
                None => DEFAULT_PORT,
            }
            &&& data.version == reply.details->0.version
            &&& data.association == reply.details->0.association
        },
{
    if reply.status < 200 || reply.status >= 300 {
        return Err(LookupError::ErrorResponse(reply.status));
    }
    let host = match reply.host {
        Some(value) => value,
        None => return Err(LookupError::InvalidHostTarget),
    };
    let details = match reply.details {
        Some(value) => value,
        None => return Err(LookupError::InvalidResponse),
    };
    let expected = String::from_str(SERVER_IDENT);
    let known = match &details.ident {
        Some(ident) => ident.eq(&expected),
        None => false,
    };
    if !known {
        return Err(LookupError::NotPocketRelay);
    }
    if !meets_minimum(&details.version) {
        return Err(LookupError::ServerOutdated(details.version, min_server_version()));
    }
    let port = match reply.port {
        Some(value) => value,
        None => DEFAULT_PORT,
    };
    Ok(
        LookupData {
            scheme: reply.scheme,
            host,
            version: details.version,
            port,
            association: details.association,
        },
    )
}

impl LookupData {
    /// The base URL of the server: `<scheme>://<host>:<port>/`.
    pub open spec fn spec_base_url(&self) -> Seq<char> {
        self.scheme@ + "://"@ + self.host@ + ":"@ + ascii_chars(decimal(self.port as nat)) + "/"@
    }

    /// Builds the base URL of the server.
    pub fn base_url(&self) -> (r: String)
        ensures
            r@ == self.spec_base_url(),
    {
        let mut url = self.scheme.clone();
        url.append("://");
        url.append(self.host.as_str());
        url.append(":");
        let port = decimal_string(self.port as u64);
        url.append(port.as_str());
        url.append("/");
        url
    }

    /// The URL of `path` on the server: the base URL followed by `path`.
    pub fn endpoint_url(&self, path: &str) -> (r: String)
        ensures
            r@ == self.spec_base_url() + path@,
    {
        let mut url = self.base_url();
        url.append(path);
        url
    }
}

} // verus!

//! The local HTTP proxy: requests the game makes on the local port are
//! sent on to the server.

use vstd::prelude::*;

use crate::api::LookupData;

verus! {

/// Status answered when no server is selected.
pub const SERVICE_UNAVAILABLE: u16 = 503;

/// Status answered when the request to the server fails.
pub const INTERNAL_SERVER_ERROR: u16 = 500;

/// Where a proxied request goes.
#[derive(Debug)]
pub enum ProxyRoute {
    /// No server is selected: answer 503
    Unavailable,
    /// Send a GET to this URL and copy its answer back
    Forward(String),
}

/// `path` without its leading `/`, if it has one.
pub open spec fn spec_relative(path: Seq<char>) -> Seq<char> {
    if path.len() > 0 && path[0] == '/' {
        path.subrange(1, path.len() as int)
    } else {
        path
    }
}

/// Routes a request for `path_and_query`: unavailable without a target,
/// else the target's base URL followed by the path (without its leading
/// `/`, which the base URL already ends with) and query.
pub fn proxy_route(target: Option<&LookupData>, path_and_query: &str) -> (r: ProxyRoute)
    ensures
        target is None ==> r is Unavailable,
        target matches Some(t) ==> r matches ProxyRoute::Forward(url) && url@
            == t.spec_base_url() + spec_relative(path_and_query@),
{
    let target = match target {
        Some(value) => value,
        None => return ProxyRoute::Unavailable,
    };
    let n = path_and_query.unicode_len();
    let relative = if n > 0 && path_and_query.get_char(0) == '/' {
        path_and_query.substring_char(1, n)
    } else {
        path_and_query
    };
    ProxyRoute::Forward(target.endpoint_url(relative))
}

} // verus!

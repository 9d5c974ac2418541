//! The cached public IPv4 address of this machine.
//!
//! The address is looked up through public HTTP probes, tried in order,
//! then through the local interfaces. A found address is kept for two hours.
//! The lookups themselves are made by the caller: the functions here decide
//! what to do next from what came back.

use vstd::prelude::*;

verus! {

/// How long a found public address is kept, in seconds.
pub const PUBLIC_ADDR_TTL_SECS: u64 = 7200;

/// Number of public probes tried before the local interfaces.
pub const PROBE_COUNT: usize = 2;

/// The first public probe.
pub const PROBE_IPIFY: &'static str = "https://api.ipify.org/";

/// The second public probe.
pub const PROBE_ICANHAZIP: &'static str = "https://ipv4.icanhazip.com/";

/// URL of the public probe with index `index`.
pub fn probe_url(index: usize) -> (r: &'static str)
    requires
        index < PROBE_COUNT,
    ensures
        index == 0 ==> r@ == PROBE_IPIFY@,
        index == 1 ==> r@ == PROBE_ICANHAZIP@,
{
    if index == 0 {
        PROBE_IPIFY
    } else {
        PROBE_ICANHAZIP
    }
}

/// Cache of the public address.
#[derive(Debug, Clone, Copy)]
pub enum PublicAddrCache {
    /// No address has been found yet
    Unset,
    /// An address was found; it is valid before `expires` (seconds)
    Known { value: [u8; 4], expires: u64 },
}

/// The time at which an address stored at `now` expires.
pub open spec fn expiry_after(now: u64) -> u64 {
    if now as int + PUBLIC_ADDR_TTL_SECS as int > u64::MAX as int {
        u64::MAX
    } else {
        (now + PUBLIC_ADDR_TTL_SECS) as u64
    }
}

impl PublicAddrCache {
    /// The cached address, if one is set and has not expired at `now`.
    pub open spec fn fresh_value(self, now: u64) -> Option<[u8; 4]> {
        match self {
            PublicAddrCache::Known { value, expires } => if now < expires {
                Some(value)
            } else {
                None
            },
            PublicAddrCache::Unset => None,
        }
    }

    /// An empty cache.
    pub fn new() -> (r: PublicAddrCache)
        ensures
            r == PublicAddrCache::Unset,
    {
        PublicAddrCache::Unset
    }

    /// The cached address, if one is set and has not expired at `now`.
    pub fn cached(&self, now: u64) -> (r: Option<[u8; 4]>)
        ensures
            r == self.fresh_value(now),
    {
        match self {
            PublicAddrCache::Known { value, expires } => if now < *expires {
                Some(*value)
            } else {
                None
            },
            PublicAddrCache::Unset => None,
        }
    }

    /// Stores `value`, found at `now`, for the cache's lifetime.
    pub fn store(&mut self, value: [u8; 4], now: u64)
        ensures
            *final(self) == (PublicAddrCache::Known { value, expires: expiry_after(now) }),
    {
        *self = PublicAddrCache::Known { value, expires: now.saturating_add(PUBLIC_ADDR_TTL_SECS) };
    }
}

/// What the resolver does next.
#[derive(Debug, Clone, Copy)]
pub enum AddrStep {
    /// Answer with the cached address; nothing is looked up
    Cached([u8; 4]),
    /// Ask the public probe with this index
    Probe(usize),
    /// Ask the local interfaces
    QueryLocal,
    /// Store this address in the cache and answer with it
    Store([u8; 4]),
    /// No address could be found; the cache is left as it is
    GiveUp,
}

/// First step of a lookup at `now`: the cached address while it is fresh,
/// else the first probe.
pub fn resolve_start(cache: &PublicAddrCache, now: u64) -> (r: AddrStep)
    ensures
        cache.fresh_value(now) matches Some(v) ==> r == AddrStep::Cached(v),
        cache.fresh_value(now) is None ==> r == AddrStep::Probe(0),
{
    match cache.cached(now) {
        Some(value) => AddrStep::Cached(value),
        None => AddrStep::Probe(0),
    }
}

/// Step after probe `index` answered `result`: keep a found address, else
/// try the next probe, and after the last one the local interfaces.
pub fn resolve_after_probe(index: usize, result: Option<[u8; 4]>) -> (r: AddrStep)
    requires
        index < PROBE_COUNT,
    ensures
        result matches Some(v) ==> r == AddrStep::Store(v),
        result is None && index + 1 < PROBE_COUNT ==> r == AddrStep::Probe((index + 1) as usize),
        result is None && index + 1 == PROBE_COUNT ==> r == AddrStep::QueryLocal,
{
    match result {
        Some(value) => AddrStep::Store(value),
        None => if index + 1 < PROBE_COUNT {
            AddrStep::Probe(index + 1)
        } else {
            AddrStep::QueryLocal
        },
    }
}

/// Step after the local interfaces answered `result`.
pub fn resolve_after_local(result: Option<[u8; 4]>) -> (r: AddrStep)
    ensures
        result matches Some(v) ==> r == AddrStep::Store(v),
        result is None ==> r == AddrStep::GiveUp,
{
    match result {
        Some(value) => AddrStep::Store(value),
        None => AddrStep::GiveUp,
    }
}

/// An address stored at `now` is answered from the cache, so that no probe
/// is asked, at every later time before two hours have passed; from then
/// on the cache holds nothing fresh and a lookup asks the first probe.
pub proof fn lemma_cache_freshness(value: [u8; 4], now: u64, later: u64)
    requires
        now <= later,
    ensures
        later < expiry_after(now) ==> (PublicAddrCache::Known {
            value,
            expires: expiry_after(now),
        }).fresh_value(later) == Some(value),
        later >= expiry_after(now) ==> (PublicAddrCache::Known {
            value,
            expires: expiry_after(now),
        }).fresh_value(later) is None,
        expiry_after(now) == now + PUBLIC_ADDR_TTL_SECS || expiry_after(now) == u64::MAX,
{
}

} // verus!

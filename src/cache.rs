use vstd::prelude::*;
use vstd::string::*;
use crate::model::Endpoint;

verus! {

/// Number of seconds in one hour.
pub const SECONDS_PER_HOUR: u64 = 3600;

/// How many completed hours a snapshot stays usable for.
pub const CACHE_DURATION_HOURS: u64 = 1;

/// Age of a snapshot in whole hours, when it was captured at `captured_at`
/// and the clock reads `now` (both in Unix seconds). A snapshot stamped in the
/// future has age zero.
pub open spec fn age_hours(captured_at: int, now: int) -> int {
    if now <= captured_at {
        0
    } else {
        (now - captured_at) / (SECONDS_PER_HOUR as int)
    }
}

/// A snapshot is fresh while fewer than one whole hour has elapsed.
pub open spec fn fresh(captured_at: int, now: int) -> bool {
    age_hours(captured_at, now) < CACHE_DURATION_HOURS as int
}

/// Whether a snapshot captured at `timestamp` is still usable at `now`.
pub fn is_fresh(timestamp: u64, now: u64) -> (r: bool)
    ensures
        r == fresh(timestamp as int, now as int),
        r == (3600 > now as int - timestamp as int),
{
    if now <= timestamp {
        true
    } else {
        let age: u64 = (now - timestamp) / SECONDS_PER_HOUR;
        age < CACHE_DURATION_HOURS
    }
}

/// The records of one fetch, when they were taken (Unix seconds) and for
/// which tenant.
#[derive(Debug)]
pub struct CacheSnapshot {
    pub endpoints: Vec<Endpoint>,
    pub timestamp: u64,
    pub tenant_id: String,
}

/// Whether `snapshot` may answer a request of tenant `tenant_id` when the
/// clock reads `now`: it belongs to that tenant and is fresh.
pub open spec fn cache_hit(snapshot: CacheSnapshot, tenant_id: Seq<char>, now: int) -> bool {
    snapshot.tenant_id@ == tenant_id && fresh(snapshot.timestamp as int, now)
}

/// Relies on `std::time::SystemTime::now` and `SystemTime::duration_since`
/// against `UNIX_EPOCH`: the clock in whole seconds since the Unix epoch, or
/// `None` when it reads earlier than the epoch. Nothing is known of the value.
#[verifier::external_body]
fn unix_now() -> (r: Option<u64>) {
    match std::time::SystemTime::now().duration_since(std::time::UNIX_EPOCH) {
        Ok(elapsed) => Some(elapsed.as_secs()),
        Err(_) => None,
    }
}

/// Whether a snapshot captured at `timestamp` is still fresh by the clock
/// now: `is_fresh` at the clock's reading. A clock that reads before the Unix
/// epoch makes every snapshot stale.
pub fn is_cache_valid(timestamp: u64) -> bool {
    match unix_now() {
        Some(now) => is_fresh(timestamp, now),
        None => false,
    }
}

/// The stored snapshot's records, if there is one that may answer tenant
/// `tenant_id` at `now`; `None` is a plain cache miss.
pub fn select_cached(stored: Option<CacheSnapshot>, tenant_id: &String, now: u64) -> (r: Option<
    Vec<Endpoint>,
>)
    ensures
        r == match stored {
            Some(snapshot) => if cache_hit(snapshot, tenant_id@, now as int) {
                Some(snapshot.endpoints)
            } else {
                None
            },
            None => None,
        },
{
    match stored {
        None => None,
        Some(snapshot) => {
            if snapshot.tenant_id != *tenant_id {
                None
            } else if is_fresh(snapshot.timestamp, now) {
                Some(snapshot.endpoints)
            } else {
                None
            }
        },
    }
}

/// The stored snapshot's records, if it belongs to tenant `tenant_id` and is
/// fresh by the clock now. A snapshot of another tenant is never returned.
pub fn load_cached_data(stored: Option<CacheSnapshot>, tenant_id: &String) -> (r: Option<
    Vec<Endpoint>,
>)
    ensures
        r is Some ==> (stored matches Some(snapshot) && snapshot.tenant_id@ == tenant_id@ && r
            == Some(snapshot.endpoints)),
        stored matches Some(snapshot) && snapshot.tenant_id@ != tenant_id@ ==> r is None,
        stored is None ==> r is None,
{
    match unix_now() {
        Some(now) => select_cached(stored, tenant_id, now),
        None => None,
    }
}

/// The snapshot of `endpoints` for tenant `tenant_id` taken at `now`.
pub fn make_snapshot(endpoints: Vec<Endpoint>, tenant_id: &String, now: u64) -> (r: CacheSnapshot)
    ensures
        r.endpoints == endpoints,
        r.tenant_id@ == tenant_id@,
        r.timestamp == now,
{
    CacheSnapshot { endpoints, timestamp: now, tenant_id: tenant_id.clone() }
}

/// The snapshot of `endpoints` for tenant `tenant_id`, stamped with the clock
/// now; the records back unchanged when the clock reads before the epoch.
pub fn snapshot_now(endpoints: Vec<Endpoint>, tenant_id: &String) -> (r: Result<
    CacheSnapshot,
    Vec<Endpoint>,
>)
    ensures
        r matches Ok(snapshot) ==> snapshot.endpoints == endpoints && snapshot.tenant_id@
            == tenant_id@,
        r matches Err(back) ==> back == endpoints,
{
    match unix_now() {
        Some(now) => Ok(make_snapshot(endpoints, tenant_id, now)),
        None => Err(endpoints),
    }
}

/// A snapshot answers a request exactly when it belongs to the requesting
/// tenant and fewer than 3600 seconds separate its capture from now (a
/// capture stamped later than now counts as fresh).
pub proof fn cache_freshness_window(snapshot: CacheSnapshot, tenant_id: Seq<char>, now: int)
    ensures
        cache_hit(snapshot, tenant_id, now) <==> (snapshot.tenant_id@ == tenant_id && now
            - snapshot.timestamp < 3600),
{
}

/// A snapshot of one tenant never answers a request of another, however
/// fresh it is.
pub proof fn tenant_isolation(snapshot: CacheSnapshot, tenant_id: Seq<char>, now: int)
    requires
        snapshot.tenant_id@ != tenant_id,
    ensures
        !cache_hit(snapshot, tenant_id, now),
{
}

/// What removing the cache file came to.
#[derive(Debug)]
pub enum Removal {
    Removed,
    NotFound,
    Failed(String),
}

/// How clearing the cache succeeded.
#[derive(Debug, PartialEq, Eq, Structural)]
pub enum ClearOutcome {
    Cleared,
    NothingToClear,
}

impl ClearOutcome {
    /// The message shown for this outcome.
    pub fn message(&self) -> (r: String)
        ensures
            *self is Cleared ==> r@ == "Cache cleared successfully"@,
            *self is NothingToClear ==> r@ == "No cache file to clear"@,
    {
        match self {
            ClearOutcome::Cleared => String::from_str("Cache cleared successfully"),
            ClearOutcome::NothingToClear => String::from_str("No cache file to clear"),
        }
    }
}

/// The result of clearing the cache: a file that is already absent is no
/// error; a removal that failed otherwise gives its reason.
pub fn clear_cache(removal: Removal) -> (r: Result<ClearOutcome, String>)
    ensures
        removal is Removed ==> r == Ok::<ClearOutcome, String>(ClearOutcome::Cleared),
        removal is NotFound ==> r == Ok::<ClearOutcome, String>(ClearOutcome::NothingToClear),
        removal matches Removal::Failed(reason) ==> r == Err::<ClearOutcome, String>(reason),
{
    match removal {
        Removal::Removed => Ok(ClearOutcome::Cleared),
        Removal::NotFound => Ok(ClearOutcome::NothingToClear),
        Removal::Failed(reason) => Err(reason),
    }
}

} // verus!

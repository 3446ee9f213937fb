use vstd::prelude::*;

verus! {

/// What a read of the first-hit cache key produced: the stored string,
/// or nothing (a miss and a failed read are handled alike).
pub enum CacheRead {
    Hit(String),
    Miss,
}

/// The resolver's decision: the value to show, and whether it is fresh
/// and must be written back to the cache.
pub struct FirstHit {
    pub value: String,
    pub must_store: bool,
}

/// Cache-aside resolution, as a value: a hit is returned unchanged and
/// not stored again; a miss yields the freshly formatted clock value,
/// to be persisted under the same key.
pub open spec fn resolved(read: CacheRead, now: String) -> FirstHit {
    match read {
        CacheRead::Hit(s) => FirstHit { value: s, must_store: false },
        CacheRead::Miss => FirstHit { value: now, must_store: true },
    }
}

/// Cache-aside resolution of the first-hit timestamp, as a decision on
/// the cache read and the freshly formatted clock value.
pub fn resolve_first_hit(read: CacheRead, now: String) -> (r: FirstHit)
    ensures
        r == resolved(read, now),
{
    match read {
        CacheRead::Hit(s) => FirstHit { value: s, must_store: false },
        CacheRead::Miss => FirstHit { value: now, must_store: true },
    }
}

/// Relies on time::OffsetDateTime::now_utc, formatted with
/// time::format_description::well_known::Iso8601: the current instant
/// as an ISO-8601 string. Nothing is promised of the clock's value; a
/// formatting failure yields the empty string.
#[verifier::external_body]
fn now_iso8601() -> (r: String) {
    match time::OffsetDateTime::now_utc().format(
        &time::format_description::well_known::Iso8601::DEFAULT,
    ) {
        Ok(s) => s,
        Err(_) => String::new(),
    }
}

/// The home handler's resolution step: reads the clock and answers the
/// cache read. A hit comes back unchanged and stores nothing; a miss
/// yields the clock's formatting, to be persisted.
pub fn home(read: CacheRead) -> (r: FirstHit)
    ensures
        read matches CacheRead::Hit(s) ==> r.value == s && !r.must_store,
        read is Miss ==> r.must_store,
{
    let now = now_iso8601();
    resolve_first_hit(read, now)
}

/// The first request with an empty cache yields the fresh timestamp
/// and persists it; a later request that reads that stored value back
/// returns it unchanged and stores nothing.
pub proof fn lemma_first_hit_idempotent(now: String, later: String)
    ensures
        resolved(CacheRead::Miss, now) == (FirstHit { value: now, must_store: true }),
        resolved(CacheRead::Hit(now), later) == (FirstHit { value: now, must_store: false }),
{
}

} // verus!

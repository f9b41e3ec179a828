use vstd::prelude::*;

use crate::jwk::{keyset_from_chars, spec_get_key, JsonWebKey, JsonWebKeySet, JwkView};

verus! {

/// What a cache lookup decides: serve from the cached set, or demand one
/// network fetch.
#[derive(Debug)]
pub enum CacheLookup {
    /// The cache is fresh; this is the key it holds for the identifier,
    /// or nothing where the fresh set has no such key.
    Hit(Option<JsonWebKey>),
    /// No fresh cached set exists: fetch, then apply `process_response`.
    Fetch,
}

/// The time-bounded cache of remote verification keys.
///
/// A cached set serves lookups only while `now < expiration_time`; a fetch
/// response replaces it wholesale, and only when the response carried a
/// cache-lifetime hint. A response without a hint leaves the cache exactly
/// as it was — deliberately, so lookups keep fetching until a hint
/// arrives.
pub struct GoogleKeyProvider {
    pub cached: Option<JsonWebKeySet>,
    pub expiration_time: u64,
}

/// What a lookup at time `now` decides, as a function of the cache state.
pub open spec fn spec_lookup(p: GoogleKeyProvider, key_id: Seq<char>, now: int) -> Option<
    Option<JwkView>,
> {
    match p.cached {
        Some(set) => if now < p.expiration_time {
            Some(spec_get_key(set@, key_id))
        } else {
            None
        },
        None => None,
    }
}

impl GoogleKeyProvider {
    /// A provider with nothing cached; its first lookup always fetches.
    pub fn empty() -> (r: GoogleKeyProvider)
        ensures
            r.cached is None,
            r.expiration_time == 0,
    {
        GoogleKeyProvider { cached: None, expiration_time: 0 }
    }

    /// Serves a lookup from the cache where it is fresh, and demands a
    /// fetch otherwise. No store or network is touched either way.
    pub fn lookup(&self, key_id: &str, now: u64) -> (r: CacheLookup)
        ensures
            match r {
                CacheLookup::Hit(found) => spec_lookup(*self, key_id@, now as int) == Some(
                    match found {
                        Some(k) => Some(k@),
                        None => None::<JwkView>,
                    },
                ),
                CacheLookup::Fetch => spec_lookup(*self, key_id@, now as int) is None,
            },
    {
        match &self.cached {
            Some(set) => {
                if now < self.expiration_time {
                    CacheLookup::Hit(set.get_key(key_id))
                } else {
                    CacheLookup::Fetch
                }
            },
            None => CacheLookup::Fetch,
        }
    }

    /// Applies one fetched response: parses the body as a key set, caches
    /// it with `expiry = now + max_age` exactly where the response carried
    /// a `max-age` hint, and hands the parsed set back for this call's
    /// lookup. A body that does not parse, or a response without a hint,
    /// leaves the cache untouched.
    pub fn process_response(&mut self, body: &str, max_age: Option<u64>, now: u64) -> (r: Result<
        JsonWebKeySet,
        (),
    >)
        ensures
            match keyset_from_chars(body@) {
                Some(ks) => {
                    &&& (r matches Ok(set) && set@ == ks)
                    &&& match max_age {
                        Some(age) => {
                            &&& (final(self).cached matches Some(cset) && cset@ == ks)
                            &&& final(self).expiration_time == (if now + age > u64::MAX {
                                u64::MAX as int
                            } else {
                                now + age
                            })
                        },
                        None => *final(self) == *old(self),
                    }
                },
                None => r is Err && *final(self) == *old(self),
            },
    {
        let set = match JsonWebKeySet::from_json_text(body) {
            Some(s) => s,
            None => {
                return Err(());
            },
        };
        match max_age {
            Some(age) => {
                self.cached = Some(set.clone_set());
                self.expiration_time = now.saturating_add(age);
            },
            None => {},
        }
        Ok(set)
    }
}

// ---------------------------------------------------------------------------
// Cache laws.
// ---------------------------------------------------------------------------

/// While a cached set is fresh, every lookup is a hit: between a caching
/// fetch and its expiry, no lookup demands a network fetch.
pub proof fn lemma_fresh_cache_serves(p: GoogleKeyProvider, key_id: Seq<char>, t: int)
    requires
        p.cached is Some,
        t < p.expiration_time,
    ensures
        spec_lookup(p, key_id, t) is Some,
{
}

/// With nothing cached, every lookup at every time demands a fetch: a
/// response without a cache-lifetime hint, which leaves the cache empty,
/// forces each subsequent lookup back to the network.
pub proof fn lemma_empty_cache_always_fetches(p: GoogleKeyProvider, key_id: Seq<char>, t: int)
    requires
        p.cached is None,
    ensures
        spec_lookup(p, key_id, t) is None,
{
}

/// Once the cached set's lifetime has passed, a lookup demands a fetch
/// again.
pub proof fn lemma_stale_cache_fetches(p: GoogleKeyProvider, key_id: Seq<char>, t: int)
    requires
        t >= p.expiration_time,
    ensures
        spec_lookup(p, key_id, t) is None,
{
}

} // verus!

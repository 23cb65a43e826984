//! The signing-key cache: lookup by key identifier, scheduled and forced
//! refresh with a rate limit, and a single-flight guard so that concurrent
//! misses collapse into one outstanding fetch.

use vstd::prelude::*;
use crate::bytesutil::{bytes_eq, clone_bytes};

verus! {

/// One signing key: identifier and secret material.
#[derive(Debug, Clone, PartialEq, Eq)]
pub struct KeyEntry {
    pub kid: Vec<u8>,
    pub secret: Vec<u8>,
}

/// The mathematical view of a key entry.
pub struct KeyEntryV {
    pub kid: Seq<u8>,
    pub secret: Seq<u8>,
}

impl View for KeyEntry {
    type V = KeyEntryV;

    open spec fn view(&self) -> KeyEntryV {
        KeyEntryV { kid: self.kid@, secret: self.secret@ }
    }
}

/// The views of a list of key entries.
pub open spec fn entry_views(l: Seq<KeyEntry>) -> Seq<KeyEntryV> {
    l.map_values(|e: KeyEntry| e@)
}

/// The secret of the first entry carrying `kid`, if any.
pub open spec fn spec_lookup(keys: Seq<KeyEntryV>, kid: Seq<u8>) -> Option<Seq<u8>>
    decreases keys.len(),
{
    if keys.len() == 0 {
        None
    } else if keys[0].kid == kid {
        Some(keys[0].secret)
    } else {
        spec_lookup(keys.skip(1), kid)
    }
}

/// The cache state, as mathematical values.
pub struct KeyCacheV {
    pub entries: Seq<KeyEntryV>,
    pub fetched_at: u64,
    pub ttl: u64,
    pub last_attempt: u64,
    pub min_interval: u64,
    pub in_flight: bool,
    pub has_fetched: bool,
}

/// Cached signing keys plus the refresh bookkeeping. The caller performs the
/// actual fetch; the cache decides when one may start and applies its result
/// atomically.
pub struct KeyCache {
    entries: Vec<KeyEntry>,
    fetched_at: u64,
    ttl: u64,
    last_attempt: u64,
    min_interval: u64,
    in_flight: bool,
    has_fetched: bool,
}

impl View for KeyCache {
    type V = KeyCacheV;

    closed spec fn view(&self) -> KeyCacheV {
        KeyCacheV {
            entries: entry_views(self.entries@),
            fetched_at: self.fetched_at,
            ttl: self.ttl,
            last_attempt: self.last_attempt,
            min_interval: self.min_interval,
            in_flight: self.in_flight,
            has_fetched: self.has_fetched,
        }
    }
}

/// Whether a fresh fetch is due: nothing was ever fetched, or the last
/// successful fetch is older than the time-to-live.
pub open spec fn spec_refresh_due(c: KeyCacheV, now: u64) -> bool {
    !c.has_fetched || now >= c.fetched_at + c.ttl
}

/// Whether a forced refresh may start now: none is under way, and the rate
/// limit since the last attempt has elapsed (the first attempt is free).
pub open spec fn spec_begin_allowed(c: KeyCacheV, now: u64) -> bool {
    &&& !c.in_flight
    &&& (c.last_attempt == 0 || now >= c.last_attempt + c.min_interval)
}

/// The cache after a refresh was granted: the single-flight guard is set and
/// the attempt time recorded.
pub open spec fn spec_after_begin(c: KeyCacheV, now: u64) -> KeyCacheV {
    KeyCacheV { in_flight: true, last_attempt: now, ..c }
}

/// Whether a fetch outcome counts as a success: a key-set document was
/// obtained and it is not empty.
pub open spec fn spec_fetch_ok(fetched: Option<Seq<KeyEntryV>>) -> bool {
    match fetched {
        Some(ks) => ks.len() > 0,
        None => false,
    }
}

/// The cache after a fetch completes. A successful fetch replaces the key
/// set atomically; a failed or empty one leaves the previous keys intact as
/// a stale fallback. Either way the single-flight guard is released.
pub open spec fn spec_after_complete(
    c: KeyCacheV,
    fetched: Option<Seq<KeyEntryV>>,
    now: u64,
) -> KeyCacheV {
    if spec_fetch_ok(fetched) {
        KeyCacheV {
            entries: fetched.unwrap(),
            fetched_at: now,
            has_fetched: true,
            in_flight: false,
            ..c
        }
    } else {
        KeyCacheV { in_flight: false, ..c }
    }
}

/// The views of an optional fetched key list.
pub open spec fn fetched_views(f: Option<Vec<KeyEntry>>) -> Option<Seq<KeyEntryV>> {
    match f {
        Some(v) => Some(entry_views(v@)),
        None => None,
    }
}

impl KeyCache {
    /// An empty cache: nothing fetched yet, no refresh under way.
    pub fn new(ttl: u64, min_interval: u64) -> (c: KeyCache)
        ensures
            c@ == (KeyCacheV {
                entries: Seq::<KeyEntryV>::empty(),
                fetched_at: 0,
                ttl: ttl,
                last_attempt: 0,
                min_interval: min_interval,
                in_flight: false,
                has_fetched: false,
            }),
    {
        let c = KeyCache {
            entries: Vec::new(),
            fetched_at: 0,
            ttl,
            last_attempt: 0,
            min_interval,
            in_flight: false,
            has_fetched: false,
        };
        proof {
            assert(entry_views(c.entries@) =~= Seq::<KeyEntryV>::empty());
        }
        c
    }

    /// The secret for `kid`, if the cache holds one.
    pub fn get_key(&self, kid: &[u8]) -> (r: Option<Vec<u8>>)
        ensures
            match r {
                Some(s) => spec_lookup(self@.entries, kid@) == Some(s@),
                None => spec_lookup(self@.entries, kid@) is None,
            },
    {
        let ghost ks = self@.entries;
        let mut i: usize = 0;
        proof {
            assert(ks.skip(0) =~= ks);
        }
        while i < self.entries.len()
            invariant
                i <= self.entries@.len(),
                ks == entry_views(self.entries@),
                spec_lookup(ks, kid@) == spec_lookup(ks.skip(i as int), kid@),
            decreases self.entries@.len() - i,
        {
            proof {
                assert(ks.skip(i as int)[0] == ks[i as int]);
            }
            if bytes_eq(self.entries[i].kid.as_slice(), kid) {
                return Some(clone_bytes(&self.entries[i].secret));
            }
            proof {
                assert(ks.skip(i as int).skip(1) =~= ks.skip(i + 1));
            }
            i += 1;
        }
        proof {
            assert(ks.skip(i as int) =~= Seq::<KeyEntryV>::empty());
        }
        None
    }

    /// Whether at least one fetch ever succeeded, so a cached (possibly
    /// stale) key set exists as a fallback.
    pub fn has_keys(&self) -> (r: bool)
        ensures
            r == self@.has_fetched,
    {
        self.has_fetched
    }

    /// Whether a scheduled refresh is due.
    pub fn refresh_due(&self, now: u64) -> (r: bool)
        ensures
            r == spec_refresh_due(self@, now),
    {
        !self.has_fetched || (now >= self.fetched_at && now - self.fetched_at >= self.ttl)
    }

    /// Asks to start a refresh. Grants it only when no fetch is under way
    /// and the rate limit has elapsed: concurrent misses collapse into one
    /// outstanding fetch.
    pub fn begin_refresh(&mut self, now: u64) -> (go: bool)
        ensures
            go == spec_begin_allowed(old(self)@, now),
            go ==> final(self)@ == spec_after_begin(old(self)@, now),
            !go ==> final(self)@ == old(self)@,
    {
        let rate_ok = self.last_attempt == 0 || (now >= self.last_attempt && now
            - self.last_attempt >= self.min_interval);
        if !self.in_flight && rate_ok {
            self.in_flight = true;
            self.last_attempt = now;
            true
        } else {
            false
        }
    }

    /// Applies the outcome of a fetch: swaps in a non-empty key set, or
    /// keeps the previous one; always releases the single-flight guard.
    pub fn complete_refresh(&mut self, fetched: Option<Vec<KeyEntry>>, now: u64) -> (ok: bool)
        ensures
            final(self)@ == spec_after_complete(old(self)@, fetched_views(fetched), now),
            ok == spec_fetch_ok(fetched_views(fetched)),
    {
        self.in_flight = false;
        match fetched {
            Some(v) => {
                if v.len() > 0 {
                    self.entries = v;
                    self.fetched_at = now;
                    self.has_fetched = true;
                    true
                } else {
                    false
                }
            },
            None => false,
        }
    }
}

} // verus!

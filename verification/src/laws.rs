//! The library's general guarantees, stated and proved once over the
//! specification functions that the executable contracts are pinned to.

use vstd::prelude::*;
use crate::errors::ReasonV;
use crate::flow::{spec_attempt, FlowV};
use crate::keys::{spec_after_begin, spec_begin_allowed, spec_lookup, KeyCacheV, KeyEntryV};
use crate::policy::{
    lemma_first_missing_props, spec_evaluate, spec_first_missing, DecisionV, RoutePolicyV,
};
use crate::token::{alg_hs256, spec_parse_token, spec_verify, ClaimSetV};
use crate::trusted::hmac_sha256_tag;

verus! {

/// A token that does not parse structurally is rejected as `Malformed`,
/// whatever the keys, the configuration and the clock say; the result is a
/// value, never an escape of the boundary.
pub proof fn lemma_malformed_rejected(
    raw: Seq<u8>,
    issuer: Seq<u8>,
    audiences: Seq<Seq<u8>>,
    skew: u64,
    keys: Seq<KeyEntryV>,
    now: u64,
)
    requires
        spec_parse_token(raw) is None,
    ensures
        spec_verify(raw, issuer, audiences, skew, keys, now) == Err::<ClaimSetV, ReasonV>(
            ReasonV::Malformed,
        ),
{
}

/// An unknown key identifier asks for a refresh exactly once: a first
/// attempt answers `NeedRefresh` precisely when verification fails with
/// `UnknownKey`, and a retried attempt always finishes.
pub proof fn lemma_single_retry(
    raw: Seq<u8>,
    issuer: Seq<u8>,
    audiences: Seq<Seq<u8>>,
    skew: u64,
    cache: KeyCacheV,
    now: u64,
)
    ensures
        spec_attempt(raw, issuer, audiences, skew, cache, now, true) is Done,
        (spec_attempt(raw, issuer, audiences, skew, cache, now, false) is NeedRefresh)
            == (spec_verify(raw, issuer, audiences, skew, cache.entries, now) == Err::<
            ClaimSetV,
            ReasonV,
        >(ReasonV::UnknownKey)),
{
}

/// Under the fixed check order, once a token is structurally sound, its key
/// known and its signature valid, an expiry beyond the skew tolerance is
/// reported as `Expired`: the later issuer and audience checks cannot mask
/// it, and signature validity itself cannot turn it into a success.
pub proof fn lemma_expired_wins(
    raw: Seq<u8>,
    issuer: Seq<u8>,
    audiences: Seq<Seq<u8>>,
    skew: u64,
    keys: Seq<KeyEntryV>,
    now: u64,
)
    requires
        spec_parse_token(raw) matches Some(t) && spec_lookup(keys, t.kid) matches Some(secret)
            && t.alg == alg_hs256() && hmac_sha256_tag(secret, t.signing_input) == t.sig && now
            > t.claims.exp + skew,
    ensures
        spec_verify(raw, issuer, audiences, skew, keys, now) == Err::<ClaimSetV, ReasonV>(
            ReasonV::Expired,
        ),
{
}

/// A verified claim set that lacks some required role is denied with a
/// missing role named: one that the policy requires and the claim set does
/// not hold.
pub proof fn lemma_missing_role_denies(cs: ClaimSetV, p: RoutePolicyV)
    requires
        p.req_auds.len() == 0 || crate::bytesutil::spec_intersects(cs.auds, p.req_auds),
        exists|i: int| 0 <= i < p.req_roles.len() && !cs.roles.contains(#[trigger] p.req_roles[i]),
    ensures
        spec_evaluate(Ok(cs), p) matches DecisionV::Deny(ReasonV::MissingRole(r))
            && p.req_roles.contains(r) && !cs.roles.contains(r),
{
    lemma_first_missing_props(p.req_roles, cs.roles);
    match spec_first_missing(p.req_roles, cs.roles) {
        Some(_) => {
        },
        None => {
            let i = choose|i: int|
                0 <= i < p.req_roles.len() && !cs.roles.contains(#[trigger] p.req_roles[i]);
            assert(cs.roles.contains(p.req_roles[i]));
        },
    }
}

/// With every required role present and the audiences acceptable, the same
/// claim set is allowed: adding the missing role flips the decision.
pub proof fn lemma_all_roles_allow(cs: ClaimSetV, p: RoutePolicyV)
    requires
        p.req_auds.len() == 0 || crate::bytesutil::spec_intersects(cs.auds, p.req_auds),
        forall|i: int| 0 <= i < p.req_roles.len() ==> cs.roles.contains(#[trigger] p.req_roles[i]),
    ensures
        spec_evaluate(Ok(cs), p) == DecisionV::Allow(cs),
{
    lemma_first_missing_props(p.req_roles, cs.roles);
    match spec_first_missing(p.req_roles, cs.roles) {
        Some(r) => {
            let i = choose|i: int| 0 <= i < p.req_roles.len() && p.req_roles[i] == r;
            assert(cs.roles.contains(p.req_roles[i]));
        },
        None => {
        },
    }
}

/// Verification is idempotent: two successful verifications of the same
/// token against the same configuration and key set yield identical claim
/// sets, whatever the two clock readings inside the validity window were.
pub proof fn lemma_verify_idempotent(
    raw: Seq<u8>,
    issuer: Seq<u8>,
    audiences: Seq<Seq<u8>>,
    skew: u64,
    keys: Seq<KeyEntryV>,
    now1: u64,
    now2: u64,
)
    requires
        spec_verify(raw, issuer, audiences, skew, keys, now1) is Ok,
        spec_verify(raw, issuer, audiences, skew, keys, now2) is Ok,
    ensures
        spec_verify(raw, issuer, audiences, skew, keys, now1) == spec_verify(
            raw,
            issuer,
            audiences,
            skew,
            keys,
            now2,
        ),
{
}

/// Refresh triggers collapse into a single flight: once one request is
/// granted a refresh, no further request is granted one until the first
/// completes, whatever the later clock reading says.
pub proof fn lemma_single_flight(c: KeyCacheV, now1: u64, now2: u64)
    requires
        spec_begin_allowed(c, now1),
    ensures
        !spec_begin_allowed(spec_after_begin(c, now1), now2),
{
}

} // verus!

//! The request interceptor's decision logic: bearer extraction from the
//! `Authorization` header, the refresh-and-retry step around verification,
//! and the mapping of decisions to HTTP statuses. The host server performs
//! the I/O; every decision taken here is a pure function of its inputs.

use vstd::prelude::*;
use crate::errors::{deny_status, spec_status, AuthError, ReasonV};
use crate::keys::{KeyCache, KeyCacheV};
use crate::policy::{AuthDecision, DecisionV, PassthroughMode};
use crate::token::{res_view, spec_verify, verify, ClaimSet, ClaimSetV, VerifierConfig};
use crate::bytesutil::{strip_prefix_bytes, views};

verus! {

/// The bytes of `"Bearer "`.
pub open spec fn bearer_prefix() -> Seq<u8> {
    seq![66u8, 101u8, 97u8, 114u8, 101u8, 114u8, 32u8]
}

/// The view of an optional header value.
pub open spec fn header_view(h: Option<&Vec<u8>>) -> Option<Seq<u8>> {
    match h {
        Some(v) => Some(v@),
        None => None,
    }
}

/// The raw token carried by an `Authorization` header: what follows the
/// bearer scheme, or `MissingToken` when the header is absent or carries
/// another scheme.
pub open spec fn spec_extract_bearer(h: Option<Seq<u8>>) -> Result<Seq<u8>, ReasonV> {
    match h {
        None => Err(ReasonV::MissingToken),
        Some(s) => if bearer_prefix().is_prefix_of(s) {
            Ok(s.skip(bearer_prefix().len() as int))
        } else {
            Err(ReasonV::MissingToken)
        },
    }
}

/// Extracts the raw bearer token from an `Authorization` header value.
pub fn extract_bearer(header: Option<&Vec<u8>>) -> (r: Result<Vec<u8>, AuthError>)
    ensures
        match r {
            Ok(t) => spec_extract_bearer(header_view(header)) == Ok::<Seq<u8>, ReasonV>(t@),
            Err(e) => spec_extract_bearer(header_view(header)) == Err::<Seq<u8>, ReasonV>(e@),
        },
{
    match header {
        None => Err(AuthError::MissingToken),
        Some(h) => {
            let p: [u8; 7] = [66, 101, 97, 114, 101, 114, 32];
            proof {
                assert(p@ =~= bearer_prefix());
            }
            match strip_prefix_bytes(h.as_slice(), p.as_slice()) {
                Some(t) => Ok(t),
                None => Err(AuthError::MissingToken),
            }
        },
    }
}

/// The next step of one request's verification: finished with a result, or
/// a key refresh is needed before one retry.
pub enum VerifyFlow {
    Done(Result<ClaimSet, AuthError>),
    NeedRefresh,
}

/// The mathematical view of a flow step.
pub enum FlowV {
    Done(Result<ClaimSetV, ReasonV>),
    NeedRefresh,
}

impl View for VerifyFlow {
    type V = FlowV;

    open spec fn view(&self) -> FlowV {
        match self {
            VerifyFlow::Done(r) => FlowV::Done(res_view(*r)),
            VerifyFlow::NeedRefresh => FlowV::NeedRefresh,
        }
    }
}

/// One verification attempt, mathematically. An unknown key identifier asks
/// for a refresh once; on the retry it becomes `UnknownKey`, or
/// `KeyFetchFailed` when no fetch has ever succeeded, so no usable key set
/// exists at all.
pub open spec fn spec_attempt(
    raw: Seq<u8>,
    issuer: Seq<u8>,
    audiences: Seq<Seq<u8>>,
    skew: u64,
    cache: KeyCacheV,
    now: u64,
    retried: bool,
) -> FlowV {
    let r = spec_verify(raw, issuer, audiences, skew, cache.entries, now);
    if r == Err::<ClaimSetV, ReasonV>(ReasonV::UnknownKey) {
        if !retried {
            FlowV::NeedRefresh
        } else if !cache.has_fetched {
            FlowV::Done(Err(ReasonV::KeyFetchFailed))
        } else {
            FlowV::Done(Err(ReasonV::UnknownKey))
        }
    } else {
        FlowV::Done(r)
    }
}

/// One verification attempt against the current cache. The caller performs
/// a refresh on `NeedRefresh` and calls again with `retried` set; the
/// contract guarantees that the retried attempt always finishes.
pub fn verify_attempt(
    raw: &[u8],
    cfg: &VerifierConfig,
    cache: &KeyCache,
    now: u64,
    retried: bool,
) -> (f: VerifyFlow)
    ensures
        f@ == spec_attempt(
            raw@,
            cfg.issuer@,
            views(cfg.audiences@),
            cfg.skew,
            cache@,
            now,
            retried,
        ),
{
    let r = verify(raw, cfg, cache, now);
    match r {
        Err(AuthError::UnknownKey) => {
            if !retried {
                VerifyFlow::NeedRefresh
            } else if !cache.has_keys() {
                VerifyFlow::Done(Err(AuthError::KeyFetchFailed))
            } else {
                VerifyFlow::Done(Err(AuthError::UnknownKey))
            }
        },
        _ => VerifyFlow::Done(r),
    }
}

/// Whether the downstream handler runs: always on `Allow`, and on a denial
/// only in `Pass` mode, where the handler inspects the reason itself.
pub open spec fn spec_should_invoke(d: DecisionV, mode: PassthroughMode) -> bool {
    d is Allow || mode is Pass
}

/// Whether the interceptor forwards the request to the handler.
pub fn should_invoke_handler(d: &AuthDecision, mode: PassthroughMode) -> (r: bool)
    ensures
        r == spec_should_invoke(d@, mode),
{
    match d {
        AuthDecision::Allow(_) => true,
        AuthDecision::Deny(_) => match mode {
            PassthroughMode::Pass => true,
            PassthroughMode::Block => false,
        },
    }
}

/// The terminal HTTP status for a decision in `Block` mode.
pub open spec fn spec_response_status(d: DecisionV) -> u16 {
    match d {
        DecisionV::Allow(_) => 200,
        DecisionV::Deny(e) => spec_status(e),
    }
}

/// The HTTP status the interceptor answers with in `Block` mode.
pub fn response_status(d: &AuthDecision) -> (s: u16)
    ensures
        s == spec_response_status(d@),
{
    match d {
        AuthDecision::Allow(_) => 200,
        AuthDecision::Deny(e) => deny_status(e),
    }
}

} // verus!

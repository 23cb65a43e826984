//! Declarative per-route authorization policy and its evaluator.

use vstd::prelude::*;
use crate::bytesutil::{clone_bytes, list_contains, lists_intersect, spec_intersects, views};
use crate::errors::{AuthError, ReasonV};
use crate::token::{res_view, ClaimSet, ClaimSetV};

verus! {

/// Whether a failed check blocks the request outright, or forwards it with
/// the failure attached for the handler to decide.
#[derive(Debug, Clone, Copy, PartialEq, Eq, Structural)]
pub enum PassthroughMode {
    Block,
    Pass,
}

/// Immutable per-route requirements, fixed at router construction.
pub struct RoutePolicy {
    pub required_audiences: Vec<Vec<u8>>,
    pub required_roles: Vec<Vec<u8>>,
    pub mode: PassthroughMode,
}

/// The mathematical view of a route policy.
pub struct RoutePolicyV {
    pub req_auds: Seq<Seq<u8>>,
    pub req_roles: Seq<Seq<u8>>,
    pub mode: PassthroughMode,
}

impl View for RoutePolicy {
    type V = RoutePolicyV;

    open spec fn view(&self) -> RoutePolicyV {
        RoutePolicyV {
            req_auds: views(self.required_audiences@),
            req_roles: views(self.required_roles@),
            mode: self.mode,
        }
    }
}

/// The outcome of policy evaluation.
#[derive(Debug, Clone, PartialEq, Eq)]
pub enum AuthDecision {
    Allow(ClaimSet),
    Deny(AuthError),
}

/// The mathematical view of a decision.
pub enum DecisionV {
    Allow(ClaimSetV),
    Deny(ReasonV),
}

impl View for AuthDecision {
    type V = DecisionV;

    open spec fn view(&self) -> DecisionV {
        match self {
            AuthDecision::Allow(c) => DecisionV::Allow(c@),
            AuthDecision::Deny(e) => DecisionV::Deny(e@),
        }
    }
}

/// The first required role that the claim set lacks, if any.
pub open spec fn spec_first_missing(req: Seq<Seq<u8>>, have: Seq<Seq<u8>>) -> Option<Seq<u8>>
    decreases req.len(),
{
    if req.len() == 0 {
        None
    } else if !have.contains(req[0]) {
        Some(req[0])
    } else {
        spec_first_missing(req.skip(1), have)
    }
}

/// `spec_first_missing` yields a required role absent from `have`, or `None`
/// exactly when every required role is present.
pub proof fn lemma_first_missing_props(req: Seq<Seq<u8>>, have: Seq<Seq<u8>>)
    ensures
        match spec_first_missing(req, have) {
            Some(r) => req.contains(r) && !have.contains(r),
            None => forall|i: int| 0 <= i < req.len() ==> have.contains(#[trigger] req[i]),
        },
    decreases req.len(),
{
    if req.len() == 0 {
    } else if !have.contains(req[0]) {
        assert(req.contains(req[0]));
    } else {
        lemma_first_missing_props(req.skip(1), have);
        match spec_first_missing(req.skip(1), have) {
            Some(r) => {
                let i = choose|i: int| 0 <= i < req.skip(1).len() && req.skip(1)[i] == r;
                assert(req[i + 1] == r);
            },
            None => {
                assert(forall|i: int|
                    1 <= i < req.len() ==> have.contains(#[trigger] req.skip(1)[i - 1]));
                assert(forall|i: int| 1 <= i < req.len() ==> req.skip(1)[i - 1] == req[i]);
            },
        }
    }
}

/// Policy evaluation, mathematically. A verification failure is passed on
/// as a denial. For a verified claim set, the route's audiences are
/// re-confirmed defensively, then every required role must be present: the
/// first missing one is named in the denial.
pub open spec fn spec_evaluate(o: Result<ClaimSetV, ReasonV>, p: RoutePolicyV) -> DecisionV {
    match o {
        Err(e) => DecisionV::Deny(e),
        Ok(cs) => if p.req_auds.len() > 0 && !spec_intersects(cs.auds, p.req_auds) {
            DecisionV::Deny(ReasonV::AudienceMismatch)
        } else {
            match spec_first_missing(p.req_roles, cs.roles) {
                Some(r) => DecisionV::Deny(ReasonV::MissingRole(r)),
                None => DecisionV::Allow(cs),
            }
        },
    }
}

/// The first entry of `req` that is not in `have`, if any.
pub fn first_missing_role(req: &Vec<Vec<u8>>, have: &Vec<Vec<u8>>) -> (r: Option<Vec<u8>>)
    ensures
        match r {
            Some(m) => spec_first_missing(views(req@), views(have@)) == Some(m@),
            None => spec_first_missing(views(req@), views(have@)) is None,
        },
{
    let ghost rv = views(req@);
    let mut i: usize = 0;
    proof {
        assert(rv.skip(0) =~= rv);
    }
    while i < req.len()
        invariant
            i <= req@.len(),
            rv == views(req@),
            spec_first_missing(rv, views(have@)) == spec_first_missing(
                rv.skip(i as int),
                views(have@),
            ),
        decreases req@.len() - i,
    {
        proof {
            assert(rv.skip(i as int)[0] == rv[i as int]);
        }
        if !list_contains(have, req[i].as_slice()) {
            return Some(clone_bytes(&req[i]));
        }
        proof {
            assert(rv.skip(i as int).skip(1) =~= rv.skip(i + 1));
        }
        i += 1;
    }
    proof {
        assert(rv.skip(i as int) =~= Seq::<Seq<u8>>::empty());
    }
    None
}

/// Evaluates a verification outcome against a route policy. Deterministic
/// and side-effect free: the result is exactly `spec_evaluate`.
pub fn evaluate(outcome: Result<ClaimSet, AuthError>, policy: &RoutePolicy) -> (d: AuthDecision)
    ensures
        d@ == spec_evaluate(res_view(outcome), policy@),
{
    match outcome {
        Err(e) => AuthDecision::Deny(e),
        Ok(cs) => {
            if policy.required_audiences.len() > 0 && !lists_intersect(
                cs.audiences(),
                &policy.required_audiences,
            ) {
                return AuthDecision::Deny(AuthError::AudienceMismatch);
            }
            match first_missing_role(&policy.required_roles, cs.roles()) {
                Some(m) => AuthDecision::Deny(AuthError::MissingRole(m)),
                None => AuthDecision::Allow(cs),
            }
        },
    }
}

} // verus!

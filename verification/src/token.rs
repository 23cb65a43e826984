//! The compact signed-token format and its verification.
//!
//! A token is `header.payload.signature`, each part URL-safe base64. The
//! decoded header is `alg:kid`; the decoded payload is seven fixed-order
//! fields `iss=…;sub=…;aud=…;exp=…;iat=…;roles=…;realm=…`, where `aud`,
//! `roles` and `realm` hold comma-separated lists and `exp`/`iat` decimal
//! seconds. The signature is the HMAC-SHA-256 tag of `header.payload`.
//! Checks run in a fixed order: structural, then signature, then expiry,
//! then issuer, then audience (intersection semantics).

use vstd::prelude::*;
use vstd::slice::slice_to_vec;
use crate::bytesutil::{
    bytes_eq, clone_bytes, lists_intersect, parse_u64_digits, spec_intersects, spec_parse_num,
    spec_split, split_bytes, strip_prefix_bytes, views,
};
use crate::errors::{AuthError, ReasonV};
use crate::keys::{spec_lookup, KeyCache, KeyEntryV};
use crate::trusted::{b64url_decode, b64url_decoded, hmac_sha256, hmac_sha256_tag};

verus! {

pub const DOT: u8 = 46;

pub const COLON: u8 = 58;

pub const SEMI: u8 = 59;

pub const COMMA: u8 = 44;

/// The bytes of `"iss="`.
pub open spec fn key_iss() -> Seq<u8> {
    seq![105u8, 115u8, 115u8, 61u8]
}

/// The bytes of `"sub="`.
pub open spec fn key_sub() -> Seq<u8> {
    seq![115u8, 117u8, 98u8, 61u8]
}

/// The bytes of `"aud="`.
pub open spec fn key_aud() -> Seq<u8> {
    seq![97u8, 117u8, 100u8, 61u8]
}

/// The bytes of `"exp="`.
pub open spec fn key_exp() -> Seq<u8> {
    seq![101u8, 120u8, 112u8, 61u8]
}

/// The bytes of `"iat="`.
pub open spec fn key_iat() -> Seq<u8> {
    seq![105u8, 97u8, 116u8, 61u8]
}

/// The bytes of `"roles="`.
pub open spec fn key_roles() -> Seq<u8> {
    seq![114u8, 111u8, 108u8, 101u8, 115u8, 61u8]
}

/// The bytes of `"realm="`.
pub open spec fn key_realm() -> Seq<u8> {
    seq![114u8, 101u8, 97u8, 108u8, 109u8, 61u8]
}

/// The bytes of `"realm:"`, the namespace added to realm-grouped roles.
pub open spec fn realm_prefix() -> Seq<u8> {
    seq![114u8, 101u8, 97u8, 108u8, 109u8, 58u8]
}

/// The bytes of `"HS256"`, the only algorithm on the allow-list.
pub open spec fn alg_hs256() -> Seq<u8> {
    seq![72u8, 83u8, 50u8, 53u8, 54u8]
}

/// The decoded claims of a token, as mathematical values.
pub struct ClaimsV {
    pub iss: Seq<u8>,
    pub sub: Seq<u8>,
    pub auds: Seq<Seq<u8>>,
    pub exp: u64,
    pub iat: u64,
    pub roles: Seq<Seq<u8>>,
}

/// The structural parts of a token, as mathematical values.
pub struct TokenV {
    pub alg: Seq<u8>,
    pub kid: Seq<u8>,
    pub signing_input: Seq<u8>,
    pub sig: Seq<u8>,
    pub claims: ClaimsV,
}

/// A comma-separated list; an empty value is the empty list.
pub open spec fn spec_list(v: Seq<u8>) -> Seq<Seq<u8>> {
    if v.len() == 0 {
        Seq::empty()
    } else {
        spec_split(v, COMMA)
    }
}

/// The value of a `key=value` field, or `None` when the key is absent.
pub open spec fn spec_field(f: Seq<u8>, key: Seq<u8>) -> Option<Seq<u8>> {
    if key.is_prefix_of(f) {
        Some(f.skip(key.len() as int))
    } else {
        None
    }
}

/// A realm-grouped role, namespaced.
pub open spec fn spec_realm_role(r: Seq<u8>) -> Seq<u8> {
    realm_prefix() + r
}

/// The normalized role set: the flat roles plus the namespaced realm roles.
pub open spec fn spec_norm_roles(flat: Seq<Seq<u8>>, realm: Seq<Seq<u8>>) -> Seq<Seq<u8>> {
    flat + realm.map_values(|r: Seq<u8>| spec_realm_role(r))
}

/// The algorithm and key identifier of a decoded header `alg:kid`.
pub open spec fn spec_parse_header(h: Seq<u8>) -> Option<(Seq<u8>, Seq<u8>)> {
    let ps = spec_split(h, COLON);
    if ps.len() == 2 {
        Some((ps[0], ps[1]))
    } else {
        None
    }
}

/// The claims of a decoded payload: seven fixed-order `key=value` fields.
pub open spec fn spec_parse_claims(p: Seq<u8>) -> Option<ClaimsV> {
    let fs = spec_split(p, SEMI);
    if fs.len() != 7 {
        None
    } else {
        match (spec_field(fs[0], key_iss()), spec_field(fs[1], key_sub()), spec_field(
            fs[2],
            key_aud(),
        )) {
            (Some(iss), Some(sub), Some(aud)) => match (
                spec_field(fs[3], key_exp()),
                spec_field(fs[4], key_iat()),
            ) {
                (Some(expv), Some(iatv)) => match (spec_parse_num(expv), spec_parse_num(iatv)) {
                    (Some(exp), Some(iat)) => match (
                        spec_field(fs[5], key_roles()),
                        spec_field(fs[6], key_realm()),
                    ) {
                        (Some(roles), Some(realm)) => Some(
                            ClaimsV {
                                iss,
                                sub,
                                auds: spec_list(aud),
                                exp,
                                iat,
                                roles: spec_norm_roles(spec_list(roles), spec_list(realm)),
                            },
                        ),
                        _ => None,
                    },
                    _ => None,
                },
                _ => None,
            },
            _ => None,
        }
    }
}

/// The structural parse of a raw token: three base64 segments, a well-formed
/// header and payload, and the signing input `header.payload`.
pub open spec fn spec_parse_token(raw: Seq<u8>) -> Option<TokenV> {
    let segs = spec_split(raw, DOT);
    if segs.len() != 3 {
        None
    } else {
        match (b64url_decoded(segs[0]), b64url_decoded(segs[1]), b64url_decoded(segs[2])) {
            (Some(h), Some(p), Some(sig)) => match spec_parse_header(h) {
                Some(hk) => match spec_parse_claims(p) {
                    Some(cl) => Some(
                        TokenV {
                            alg: hk.0,
                            kid: hk.1,
                            signing_input: segs[0] + seq![DOT] + segs[1],
                            sig: sig,
                            claims: cl,
                        },
                    ),
                    None => None,
                },
                None => None,
            },
            _ => None,
        }
    }
}

/// The structural parts of one token, as executable values.
pub struct Parsed {
    pub(crate) alg: Vec<u8>,
    pub(crate) kid: Vec<u8>,
    pub(crate) signing_input: Vec<u8>,
    pub(crate) sig: Vec<u8>,
    pub(crate) iss: Vec<u8>,
    pub(crate) sub: Vec<u8>,
    pub(crate) auds: Vec<Vec<u8>>,
    pub(crate) exp: u64,
    pub(crate) iat: u64,
    pub(crate) roles: Vec<Vec<u8>>,
}

impl View for Parsed {
    type V = TokenV;

    closed spec fn view(&self) -> TokenV {
        TokenV {
            alg: self.alg@,
            kid: self.kid@,
            signing_input: self.signing_input@,
            sig: self.sig@,
            claims: ClaimsV {
                iss: self.iss@,
                sub: self.sub@,
                auds: views(self.auds@),
                exp: self.exp,
                iat: self.iat,
                roles: views(self.roles@),
            },
        }
    }
}

/// A role with the realm namespace prepended.
fn prefixed_realm(r: &[u8]) -> (out: Vec<u8>)
    ensures
        out@ == spec_realm_role(r@),
{
    let p: [u8; 6] = [114, 101, 97, 108, 109, 58];
    let mut v = slice_to_vec(p.as_slice());
    proof {
        assert(v@ =~= realm_prefix());
        assert(v@ =~= realm_prefix() + r@.take(0));
    }
    let mut k: usize = 0;
    while k < r.len()
        invariant
            k <= r@.len(),
            v@ == realm_prefix() + r@.take(k as int),
        decreases r@.len() - k,
    {
        v.push(r[k]);
        proof {
            assert(realm_prefix() + r@.take(k + 1) =~= (realm_prefix() + r@.take(k as int)).push(
                r@[k as int],
            ));
        }
        k += 1;
    }
    proof {
        assert(r@.take(r@.len() as int) =~= r@);
    }
    v
}

/// A comma-separated list as a vector of byte strings.
fn parse_list(v: &Vec<u8>) -> (out: Vec<Vec<u8>>)
    ensures
        views(out@) == spec_list(v@),
{
    if v.len() == 0 {
        let out: Vec<Vec<u8>> = Vec::new();
        proof {
            assert(views(out@) =~~= spec_list(v@));
        }
        out
    } else {
        split_bytes(v.as_slice(), COMMA)
    }
}

/// Parses the structure of a raw token; yields exactly what
/// `spec_parse_token` describes, or `None` for a malformed token.
pub fn parse_token(raw: &[u8]) -> (r: Option<Parsed>)
    ensures
        match r {
            Some(p) => spec_parse_token(raw@) == Some(p@),
            None => spec_parse_token(raw@) is None,
        },
{
    let segs = split_bytes(raw, DOT);
    let ghost sv = views(segs@);
    if segs.len() != 3 {
        return None;
    }
    proof {
        assert(sv[0] == segs@[0]@);
        assert(sv[1] == segs@[1]@);
        assert(sv[2] == segs@[2]@);
    }
    let hd = match b64url_decode(segs[0].as_slice()) {
        Some(v) => v,
        None => {
            return None;
        },
    };
    let pd = match b64url_decode(segs[1].as_slice()) {
        Some(v) => v,
        None => {
            return None;
        },
    };
    let sig = match b64url_decode(segs[2].as_slice()) {
        Some(v) => v,
        None => {
            return None;
        },
    };
    let hparts = split_bytes(hd.as_slice(), COLON);
    if hparts.len() != 2 {
        return None;
    }
    proof {
        assert(views(hparts@)[0] == hparts@[0]@);
        assert(views(hparts@)[1] == hparts@[1]@);
    }
    let alg = clone_bytes(&hparts[0]);
    let kid = clone_bytes(&hparts[1]);
    let fs = split_bytes(pd.as_slice(), SEMI);
    if fs.len() != 7 {
        return None;
    }
    let ghost fv = views(fs@);
    proof {
        assert(fv[0] == fs@[0]@);
        assert(fv[1] == fs@[1]@);
        assert(fv[2] == fs@[2]@);
        assert(fv[3] == fs@[3]@);
        assert(fv[4] == fs@[4]@);
        assert(fv[5] == fs@[5]@);
        assert(fv[6] == fs@[6]@);
    }
    let k_iss: [u8; 4] = [105, 115, 115, 61];
    let k_sub: [u8; 4] = [115, 117, 98, 61];
    let k_aud: [u8; 4] = [97, 117, 100, 61];
    let k_exp: [u8; 4] = [101, 120, 112, 61];
    let k_iat: [u8; 4] = [105, 97, 116, 61];
    let k_roles: [u8; 6] = [114, 111, 108, 101, 115, 61];
    let k_realm: [u8; 6] = [114, 101, 97, 108, 109, 61];
    proof {
        assert(k_iss@ =~= key_iss());
        assert(k_sub@ =~= key_sub());
        assert(k_aud@ =~= key_aud());
        assert(k_exp@ =~= key_exp());
        assert(k_iat@ =~= key_iat());
        assert(k_roles@ =~= key_roles());
        assert(k_realm@ =~= key_realm());
    }
    let iss = match strip_prefix_bytes(fs[0].as_slice(), k_iss.as_slice()) {
        Some(v) => v,
        None => {
            return None;
        },
    };
    let sub = match strip_prefix_bytes(fs[1].as_slice(), k_sub.as_slice()) {
        Some(v) => v,
        None => {
            return None;
        },
    };
    let aud_v = match strip_prefix_bytes(fs[2].as_slice(), k_aud.as_slice()) {
        Some(v) => v,
        None => {
            return None;
        },
    };
    let exp_v = match strip_prefix_bytes(fs[3].as_slice(), k_exp.as_slice()) {
        Some(v) => v,
        None => {
            return None;
        },
    };
    let iat_v = match strip_prefix_bytes(fs[4].as_slice(), k_iat.as_slice()) {
        Some(v) => v,
        None => {
            return None;
        },
    };
    let roles_v = match strip_prefix_bytes(fs[5].as_slice(), k_roles.as_slice()) {
        Some(v) => v,
        None => {
            return None;
        },
    };
    let realm_v = match strip_prefix_bytes(fs[6].as_slice(), k_realm.as_slice()) {
        Some(v) => v,
        None => {
            return None;
        },
    };
    let exp = match parse_u64_digits(exp_v.as_slice()) {
        Some(n) => n,
        None => {
            return None;
        },
    };
    let iat = match parse_u64_digits(iat_v.as_slice()) {
        Some(n) => n,
        None => {
            return None;
        },
    };
    let auds = parse_list(&aud_v);
    let flat = parse_list(&roles_v);
    let realm_list = parse_list(&realm_v);
    let ghost flat_v = views(flat@);
    let ghost realm_vv = views(realm_list@);
    let mut roles = flat;
    let mut k: usize = 0;
    proof {
        assert(views(roles@) =~~= flat_v + realm_vv.take(0).map_values(
            |r: Seq<u8>| spec_realm_role(r),
        ));
    }
    while k < realm_list.len()
        invariant
            k <= realm_list@.len(),
            realm_vv == views(realm_list@),
            views(roles@) == flat_v + realm_vv.take(k as int).map_values(
                |r: Seq<u8>| spec_realm_role(r),
            ),
        decreases realm_list@.len() - k,
    {
        proof {
            assert(realm_vv[k as int] == realm_list@[k as int]@);
        }
        let pr = prefixed_realm(realm_list[k].as_slice());
        let ghost rv = views(roles@);
        let ghost prv = pr@;
        roles.push(pr);
        proof {
            assert(prv == spec_realm_role(realm_vv[k as int]));
            assert(views(roles@) =~~= rv + seq![prv]);
            assert(realm_vv.take(k + 1).map_values(|r: Seq<u8>| spec_realm_role(r)) =~~=
                realm_vv.take(k as int).map_values(|r: Seq<u8>| spec_realm_role(r)) + seq![
                    spec_realm_role(realm_vv[k as int]),
                ]);
            assert(views(roles@) =~~= flat_v + realm_vv.take(k + 1).map_values(
                |r: Seq<u8>| spec_realm_role(r),
            ));
        }
        k += 1;
    }
    proof {
        assert(realm_vv.take(realm_vv.len() as int) =~= realm_vv);
        assert(views(roles@) == spec_norm_roles(flat_v, realm_vv));
    }
    let mut si = clone_bytes(&segs[0]);
    si.push(DOT);
    let mut si_tail = clone_bytes(&segs[1]);
    si.append(&mut si_tail);
    proof {
        assert(si@ =~= sv[0] + seq![DOT] + sv[1]);
    }
    let p = Parsed { alg, kid, signing_input: si, sig, iss, sub, auds, exp, iat, roles };
    proof {
        assert(spec_parse_header(hd@) == Some((p@.alg, p@.kid)));
        assert(spec_parse_claims(pd@) == Some(p@.claims));
        assert(spec_parse_token(raw@) == Some(p@));
    }
    Some(p)
}

/// A verified claim set. Only `verify` constructs one: every value of this
/// type has passed the structural, signature, expiry, issuer and audience
/// checks.
#[derive(Debug, Clone, PartialEq, Eq)]
pub struct ClaimSet {
    subject: Vec<u8>,
    audiences: Vec<Vec<u8>>,
    roles: Vec<Vec<u8>>,
    issued_at: u64,
    expires_at: u64,
}

/// The mathematical view of a claim set.
pub struct ClaimSetV {
    pub sub: Seq<u8>,
    pub auds: Seq<Seq<u8>>,
    pub roles: Seq<Seq<u8>>,
    pub iat: u64,
    pub exp: u64,
}

impl View for ClaimSet {
    type V = ClaimSetV;

    closed spec fn view(&self) -> ClaimSetV {
        ClaimSetV {
            sub: self.subject@,
            auds: views(self.audiences@),
            roles: views(self.roles@),
            iat: self.issued_at,
            exp: self.expires_at,
        }
    }
}

impl ClaimSet {
    /// The subject identifier.
    pub fn subject(&self) -> (r: &Vec<u8>)
        ensures
            r@ == self@.sub,
    {
        &self.subject
    }

    /// The verified audience list.
    pub fn audiences(&self) -> (r: &Vec<Vec<u8>>)
        ensures
            views(r@) == self@.auds,
    {
        &self.audiences
    }

    /// The normalized, verified role list.
    pub fn roles(&self) -> (r: &Vec<Vec<u8>>)
        ensures
            views(r@) == self@.roles,
    {
        &self.roles
    }

    /// The issued-at timestamp, in seconds.
    pub fn issued_at(&self) -> (r: u64)
        ensures
            r == self@.iat,
    {
        self.issued_at
    }

    /// The expiry timestamp, in seconds.
    pub fn expires_at(&self) -> (r: u64)
        ensures
            r == self@.exp,
    {
        self.expires_at
    }
}

/// The claim set a well-formed token carries.
pub open spec fn spec_claimset(c: ClaimsV) -> ClaimSetV {
    ClaimSetV { sub: c.sub, auds: c.auds, roles: c.roles, iat: c.iat, exp: c.exp }
}

/// Verification-time expectations: the expected issuer, the audiences this
/// gateway accepts, and the clock-skew tolerance in seconds.
pub struct VerifierConfig {
    pub issuer: Vec<u8>,
    pub audiences: Vec<Vec<u8>>,
    pub skew: u64,
}

/// The view of a verification result.
pub open spec fn res_view(r: Result<ClaimSet, AuthError>) -> Result<ClaimSetV, ReasonV> {
    match r {
        Ok(c) => Ok(c@),
        Err(e) => Err(e@),
    }
}

/// The whole verification pipeline, mathematically: structural parse, key
/// lookup, algorithm allow-list and signature, expiry against `now` with
/// skew tolerance, issuer equality, audience intersection.
pub open spec fn spec_verify(
    raw: Seq<u8>,
    issuer: Seq<u8>,
    audiences: Seq<Seq<u8>>,
    skew: u64,
    keys: Seq<KeyEntryV>,
    now: u64,
) -> Result<ClaimSetV, ReasonV> {
    match spec_parse_token(raw) {
        None => Err(ReasonV::Malformed),
        Some(t) => match spec_lookup(keys, t.kid) {
            None => Err(ReasonV::UnknownKey),
            Some(secret) => if t.alg != alg_hs256() {
                Err(ReasonV::InvalidSignature)
            } else if hmac_sha256_tag(secret, t.signing_input) != t.sig {
                Err(ReasonV::InvalidSignature)
            } else if now > t.claims.exp + skew {
                Err(ReasonV::Expired)
            } else if t.claims.iss != issuer {
                Err(ReasonV::IssuerMismatch)
            } else if !spec_intersects(t.claims.auds, audiences) {
                Err(ReasonV::AudienceMismatch)
            } else {
                Ok(spec_claimset(t.claims))
            },
        },
    }
}

/// Verifies a raw token against the configuration and the given key-cache
/// snapshot. Pure in its inputs: the result is exactly `spec_verify`.
pub fn verify(raw: &[u8], cfg: &VerifierConfig, cache: &KeyCache, now: u64) -> (r: Result<
    ClaimSet,
    AuthError,
>)
    ensures
        res_view(r) == spec_verify(
            raw@,
            cfg.issuer@,
            views(cfg.audiences@),
            cfg.skew,
            cache@.entries,
            now,
        ),
{
    let p = match parse_token(raw) {
        Some(p) => p,
        None => {
            return Err(AuthError::Malformed);
        },
    };
    let ghost tv = p@;
    let secret = match cache.get_key(p.kid.as_slice()) {
        Some(s) => s,
        None => {
            return Err(AuthError::UnknownKey);
        },
    };
    let hs: [u8; 5] = [72, 83, 50, 53, 54];
    proof {
        assert(hs@ =~= alg_hs256());
    }
    if !bytes_eq(p.alg.as_slice(), hs.as_slice()) {
        return Err(AuthError::InvalidSignature);
    }
    let tag = hmac_sha256(secret.as_slice(), p.signing_input.as_slice());
    if !bytes_eq(tag.as_slice(), p.sig.as_slice()) {
        return Err(AuthError::InvalidSignature);
    }
    if now > p.exp && now - p.exp > cfg.skew {
        return Err(AuthError::Expired);
    }
    if !bytes_eq(p.iss.as_slice(), cfg.issuer.as_slice()) {
        return Err(AuthError::IssuerMismatch);
    }
    if !lists_intersect(&p.auds, &cfg.audiences) {
        return Err(AuthError::AudienceMismatch);
    }
    let cs = ClaimSet {
        subject: p.sub,
        audiences: p.auds,
        roles: p.roles,
        issued_at: p.iat,
        expires_at: p.exp,
    };
    proof {
        assert(cs@ == spec_claimset(tv.claims));
    }
    Ok(cs)
}

} // verus!

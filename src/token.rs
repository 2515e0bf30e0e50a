//! The token codec: signed, expiring claims.
//!
//! A token is an HS256 JSON Web Token whose payload is the canonical claims
//! text of `claims`. Expiry is checked here, against a caller-supplied
//! clock reading, so that the codec alone decides whether a token holds.
use vstd::prelude::*;
use crate::claims::{
    claims_json, parse_claims, render_claims, spec_parse, subject_ok, Claims, ClaimsView,
};
use crate::error::ApiError;
use crate::identity::CredentialKind;

verus! {

#[verifier::external_type_specification]
#[verifier::external_body]
pub struct ExJwtError(jsonwebtoken::errors::Error);

/// The payload that HS256 verification of `token` under `secret` yields,
/// `None` when the token does not verify.
pub uninterp spec fn jwt_payload(token: Seq<char>, secret: Seq<char>) -> Option<Seq<char>>;

/// Relies on `jsonwebtoken::encode` with the default (HS256) header and
/// `EncodingKey::from_secret`, the payload handed over verbatim as a
/// `serde_json::value::RawValue`: the token carries `payload` byte for byte
/// and `jsonwebtoken::decode` under the same secret (see `jwt_decode`) checks
/// its signature and hands the payload back. A canonical claims text is a
/// JSON object with no `aud` member, so `RawValue::from_string` accepts it,
/// the claim validation that `decode` runs accepts it, and signing with an
/// HMAC key does not fail.
#[verifier::external_body]
fn jwt_encode(payload: &str, secret: &str) -> (r: Result<String, jsonwebtoken::errors::Error>)
    requires
        spec_parse(payload@) is Some,
    ensures
        r is Ok,
        r matches Ok(t) ==> jwt_payload(t@, secret@) == Some(payload@),
{
    let raw = serde_json::value::RawValue::from_string(payload.to_string())?;
    let key = jsonwebtoken::EncodingKey::from_secret(secret.as_bytes());
    jsonwebtoken::encode(&jsonwebtoken::Header::default(), &raw, &key)
}

/// Relies on `jsonwebtoken::decode` with `DecodingKey::from_secret`, HS256,
/// no required claim and the expiry check off (so the clock is not read),
/// the payload kept verbatim as a `serde_json::value::RawValue`: the result
/// depends on the token and the secret alone.
#[verifier::external_body]
fn jwt_decode(token: &str, secret: &str) -> (r: Result<String, jsonwebtoken::errors::Error>)
    ensures
        r matches Ok(p) ==> jwt_payload(token@, secret@) == Some(p@),
        r is Err ==> jwt_payload(token@, secret@) is None,
{
    let mut validation = jsonwebtoken::Validation::new(jsonwebtoken::Algorithm::HS256);
    validation.validate_exp = false;
    validation.required_spec_claims.clear();
    let key = jsonwebtoken::DecodingKey::from_secret(secret.as_bytes());
    let data = jsonwebtoken::decode::<Box<serde_json::value::RawValue>>(token, &key, &validation)?;
    Ok(data.claims.get().to_string())
}

/// Lifetime of a token issued for an email login: 24 hours.
pub const EMAIL_TOKEN_TTL: u64 = 86400;

/// Lifetime of a token issued for a wallet login: 12 hours.
pub const WALLET_TOKEN_TTL: u64 = 43200;

/// The lifetime of a token issued for the credential kind.
pub open spec fn spec_ttl(kind: CredentialKind) -> u64 {
    match kind {
        CredentialKind::Email => EMAIL_TOKEN_TTL,
        CredentialKind::Wallet => WALLET_TOKEN_TTL,
    }
}

pub fn ttl(kind: CredentialKind) -> (r: u64)
    ensures
        r == spec_ttl(kind),
{
    match kind {
        CredentialKind::Email => EMAIL_TOKEN_TTL,
        CredentialKind::Wallet => WALLET_TOKEN_TTL,
    }
}

/// The claims a verified payload grants at time `now`: those it is the
/// canonical text of, while `now` is before their expiry.
pub open spec fn spec_claims_at(payload: Seq<char>, now: u64) -> Option<ClaimsView> {
    match spec_parse(payload) {
        Some(c) => if now < c.exp {
            Some(c)
        } else {
            None
        },
        None => None,
    }
}

/// The claims a token grants at time `now` under `secret`.
pub open spec fn spec_decode(token: Seq<char>, secret: Seq<char>, now: u64) -> Option<ClaimsView> {
    match jwt_payload(token, secret) {
        Some(p) => spec_claims_at(p, now),
        None => None,
    }
}

/// The claims of a verified payload at time `now`; `Unauthorized` when the
/// payload is not a canonical claims text or the claims have expired.
pub fn claims_at(payload: &str, now: u64) -> (r: Result<Claims, ApiError>)
    ensures
        match spec_claims_at(payload@, now) {
            Some(c) => r matches Ok(x) && x@ == c,
            None => r matches Err(ApiError::Unauthorized),
        },
{
    match parse_claims(payload) {
        Some(c) => {
            if now < c.exp {
                Ok(c)
            } else {
                Err(ApiError::Unauthorized)
            }
        },
        None => Err(ApiError::Unauthorized),
    }
}

/// Signs the claims into a token; signing a canonical claims text does not
/// fail.
pub fn issue_token(claims: &Claims, secret: &str) -> (r: Result<String, ApiError>)
    requires
        subject_ok(claims.sub@),
    ensures
        r matches Ok(t) && jwt_payload(t@, secret@) == Some(claims_json(claims@)),
{
    let payload = render_claims(claims);
    proof {
        crate::claims::lemma_parse_claims_json(claims@);
    }
    match jwt_encode(payload.as_str(), secret) {
        Ok(t) => Ok(t),
        Err(_) => {
            proof {
                assert(false);
            }
            Err(ApiError::Internal)
        },
    }
}

/// The claims a token grants at time `now`; `Unauthorized` on a bad
/// signature, a corrupt token or an expired one.
pub fn decode_token(token: &str, secret: &str, now: u64) -> (r: Result<Claims, ApiError>)
    ensures
        match spec_decode(token@, secret@, now) {
            Some(c) => r matches Ok(x) && x@ == c,
            None => r matches Err(ApiError::Unauthorized),
        },
{
    match jwt_decode(token, secret) {
        Ok(p) => claims_at(p.as_str(), now),
        Err(_) => Err(ApiError::Unauthorized),
    }
}

/// A token decodes to the claims it was issued with at every time before
/// their expiry, and to nothing from the expiry on.
pub proof fn lemma_token_expiry(token: Seq<char>, secret: Seq<char>, c: ClaimsView, now: u64)
    requires
        subject_ok(c.sub),
        jwt_payload(token, secret) == Some(claims_json(c)),
    ensures
        now < c.exp ==> spec_decode(token, secret, now) == Some(c),
        now >= c.exp ==> spec_decode(token, secret, now) is None,
{
    crate::claims::lemma_parse_claims_json(c);
}

/// The role a token grants is the one it was issued with, for as long as
/// it holds: decoding reads the token and the secret only, never the
/// approval registry or the admin allow-list, so a change of either after
/// issuance does not reach a live token.
pub proof fn lemma_role_fixed_in_token(token: Seq<char>, secret: Seq<char>, c: ClaimsView, now: u64)
    requires
        subject_ok(c.sub),
        jwt_payload(token, secret) == Some(claims_json(c)),
        now < c.exp,
    ensures
        spec_decode(token, secret, now) matches Some(d) && d.role == c.role && d.sub == c.sub
            && d.auth_type == c.auth_type,
{
    lemma_token_expiry(token, secret, c, now);
}

} // verus!

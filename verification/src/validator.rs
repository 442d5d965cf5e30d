//! Validation of one token under one key: the signature first, then the
//! claims against a policy.

use crate::claims::{claim_set_of, Claims};
use crate::error::AuthError;
use crate::jwt::{
    decode_segment, decoded_segment, family_of, verification, verify_signature, JwtFailure,
    KeyFamily,
};
use crate::keys::Key;
use crate::policy::ValidationPolicy;
use crate::json::text_member;
use crate::token::{
    claims_in, declared_algorithm, decode_header, header_of, segments, signature_segment,
};
use vstd::prelude::*;
use vstd::string::*;

verus! {

/// The outcome of a successful validation.
pub struct ValidatedToken {
    /// The claims, as the token carries them.
    pub claims: Claims,
    /// Whether the signature was verified.
    pub verified: bool,
}

/// The name of the signature algorithm that keys of a kind verify.
pub open spec fn algorithm_of(family: KeyFamily) -> Seq<char> {
    match family {
        KeyFamily::Rsa => "RS256"@,
        KeyFamily::EllipticCurve => "ES256"@,
    }
}

/// The name of the signature algorithm that keys of a kind verify.
pub fn algorithm_name(family: KeyFamily) -> (name: &'static str)
    ensures
        name@ == algorithm_of(family),
{
    match family {
        KeyFamily::Rsa => "RS256",
        KeyFamily::EllipticCurve => "ES256",
    }
}

/// The kind of error that stands for a failure of the signature check: a
/// key whose numbers do not decode, or a segment that does not decode, is a
/// parse error; a signature that does not verify, by the cryptographic
/// library's verdict or by its error, is a signature error.
pub open spec fn failure_kind(failure: JwtFailure) -> AuthError {
    match failure {
        JwtFailure::Components => AuthError::MalformedToken,
        JwtFailure::Encoding => AuthError::Parse,
        JwtFailure::KeyMaterial => AuthError::Parse,
        JwtFailure::Signature => AuthError::Signature,
        JwtFailure::Crypto => AuthError::Signature,
        JwtFailure::Json => AuthError::Parse,
        JwtFailure::Claims => AuthError::Claims,
    }
}

/// The kind of error that stands for a failure of the signature check.
pub fn classify(failure: JwtFailure) -> (kind: AuthError)
    ensures
        kind == failure_kind(failure),
{
    match failure {
        JwtFailure::Components => AuthError::MalformedToken,
        JwtFailure::Encoding => AuthError::Parse,
        JwtFailure::KeyMaterial => AuthError::Parse,
        JwtFailure::Signature => AuthError::Signature,
        JwtFailure::Crypto => AuthError::Signature,
        JwtFailure::Json => AuthError::Parse,
        JwtFailure::Claims => AuthError::Claims,
    }
}

/// What validation makes of `token` under `key` and `policy` at the instant
/// `now`: the claims document of the token, or the first gate that it does
/// not pass. The gates, in order: the token is well formed and its header
/// decodes; the algorithm that the header declares is the key's; the
/// signature segment decodes and the signature verifies; the claims decode;
/// the claims pass the policy.
pub open spec fn validation_of(
    token: Seq<char>,
    key: alcoholic_jwt::JWK,
    policy: ValidationPolicy,
    now: u64,
) -> Result<serde_json::Value, AuthError> {
    if header_of(token) is None {
        Err(AuthError::MalformedToken)
    } else if declared_algorithm(token) != Some(algorithm_of(family_of(key))) {
        Err(AuthError::Signature)
    } else if decoded_segment(signature_segment(token)) is None {
        Err(AuthError::Signature)
    } else {
        match verification(token, key) {
            Err(failure) => Err(failure_kind(failure)),
            Ok(content) => if policy.first_failure(claim_set_of(content.claims), now) is Some {
                Err(AuthError::Claims)
            } else {
                Ok(content.claims)
            },
        }
    }
}

/// Validates `token` under `key` and `policy` at the instant `now`, given
/// in seconds since the Unix epoch. Each gate is hard: the first that fails
/// is reported, and claims are returned only where all have passed. The
/// claims that are returned are those that the token carries, unchanged, and
/// the flag that comes with them is set.
pub fn validate(token: &str, key: &Key, policy: &ValidationPolicy, now: u64) -> (outcome: Result<
    ValidatedToken,
    AuthError,
>)
    ensures
        match outcome {
            Ok(valid) => {
                &&& validation_of(token@, key@, *policy, now) == Ok::<serde_json::Value, AuthError>(
                    valid.claims.document(),
                )
                &&& valid.verified
                &&& claims_in(token@) == Some(valid.claims.document())
            },
            Err(e) => validation_of(token@, key@, *policy, now) == Err::<
                serde_json::Value,
                AuthError,
            >(e),
        },
{
    let parts = match segments(token) {
        Some(parts) => parts,
        None => {
            return Err(AuthError::MalformedToken);
        },
    };
    let header = match decode_header(token) {
        Some(header) => header,
        None => {
            return Err(AuthError::MalformedToken);
        },
    };
    let expected = String::from_str(algorithm_name(key.family()));
    match text_member(&header, "alg") {
        Some(declared) => {
            if declared != expected {
                return Err(AuthError::Signature);
            }
        },
        None => {
            return Err(AuthError::Signature);
        },
    }
    if decode_segment(parts.signature.as_str()).is_none() {
        return Err(AuthError::Signature);
    }
    let content = match verify_signature(token, key.material()) {
        Ok(content) => content,
        Err(failure) => {
            return Err(classify(failure));
        },
    };
    let claims = Claims::new(content.claims);
    match policy.check(&claims, now) {
        Ok(_) => Ok(ValidatedToken { claims, verified: true }),
        Err(_) => Err(AuthError::Claims),
    }
}

/// A token that passes the gates before the claims, and whose claims name
/// the issuer that the policy names, a subject and an expiry instant after
/// `now`, is valid under a policy that asks for no audience; validation
/// returns its claims as they are.
pub proof fn lemma_good_token_is_accepted(
    token: Seq<char>,
    key: alcoholic_jwt::JWK,
    policy: ValidationPolicy,
    now: u64,
    claims: serde_json::Value,
)
    requires
        signed_by(token, key, claims),
        policy.audience is None,
        policy.issuer matches Some(issuer) ==> claim_set_of(claims).issuer == Some(issuer@),
        claim_set_of(claims).subject matches Some(subject) && subject.len() > 0,
        claim_set_of(claims).expiry matches Some(expiry) && expiry > now,
    ensures
        validation_of(token, key, policy, now) == Ok::<serde_json::Value, AuthError>(claims),
{
}

/// A token whose expiry instant is not after `now` is turned down for its
/// claims under a policy that requires an expiry, though its signature
/// verifies.
pub proof fn lemma_expired_token_is_rejected(
    token: Seq<char>,
    key: alcoholic_jwt::JWK,
    policy: ValidationPolicy,
    now: u64,
    claims: serde_json::Value,
)
    requires
        signed_by(token, key, claims),
        policy.expiry_required,
        claim_set_of(claims).expiry matches Some(expiry) ==> expiry <= now,
    ensures
        validation_of(token, key, policy, now) == Err::<serde_json::Value, AuthError>(
            AuthError::Claims,
        ),
{
}

/// `token` carries `claims` under a signature that verifies under `key`:
/// it passes every gate before the claims are checked.
pub open spec fn signed_by(
    token: Seq<char>,
    key: alcoholic_jwt::JWK,
    claims: serde_json::Value,
) -> bool {
    &&& header_of(token) is Some
    &&& declared_algorithm(token) == Some(algorithm_of(family_of(key)))
    &&& decoded_segment(signature_segment(token)) is Some
    &&& verification(token, key) matches Ok(content) && content.claims == claims
}

} // verus!

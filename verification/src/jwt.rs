//! What the library has from `alcoholic_jwt` and `base64`: keys as the
//! provider publishes them, the key identifier of a token, the decoding of a
//! token segment and the verification of a signature.
//!
//! A key is opaque to the verifier. What the rest of the library reads from
//! one is named here, and the functions below are believed to return what
//! those names stand for; nothing in this file is proved.

use crate::json::{longest_text, lookup, text_of};
use crate::token::{claims_in, well_formed};
use alcoholic_jwt::ValidationError;
use vstd::prelude::*;

verus! {

#[verifier::external_type_specification]
#[verifier::external_body]
pub struct ExJwk(alcoholic_jwt::JWK);

/// The kinds of key that a key set may hold. Each kind verifies one
/// signature algorithm.
#[derive(Clone, Copy, Debug, PartialEq, Eq, Structural)]
pub enum KeyFamily {
    /// An RSA key, for `RS256`.
    Rsa,
    /// A key on the curve P-256, for `ES256`.
    EllipticCurve,
}

/// Why `alcoholic_jwt` turned a token down.
#[derive(Clone, Copy, Debug, PartialEq, Eq, Structural)]
pub enum JwtFailure {
    /// The token has too few segments.
    Components,
    /// A segment is not base64.
    Encoding,
    /// The key's numbers cannot be decoded.
    KeyMaterial,
    /// The signature does not verify under the key.
    Signature,
    /// The cryptographic library reported an error.
    Crypto,
    /// A segment does not decode to the JSON that is expected of it.
    Json,
    /// A claim validation failed.
    Claims,
}

/// The header and the claims of a token whose signature has been verified.
pub struct SignedContent {
    /// The decoded header segment.
    pub header: serde_json::Value,
    /// The decoded claims segment.
    pub claims: serde_json::Value,
}

/// The identifier that a key carries, if it carries one.
pub uninterp spec fn key_id_of(key: alcoholic_jwt::JWK) -> Option<Seq<char>>;

/// The kind of a key.
pub uninterp spec fn family_of(key: alcoholic_jwt::JWK) -> KeyFamily;

/// The length in bytes of the longest of the numbers that a key is made
/// of, in the base64 text in which the key set spells them.
pub uninterp spec fn longest_number(key: alcoholic_jwt::JWK) -> nat;

/// The longest number of a key that the signature check takes. The
/// cryptographic library turns a number down, without returning, where its
/// bytes are more than the largest `i32`; a number has no more bytes than
/// its text.
pub const MAX_NUMBER_BYTES: usize = 0x7fff_ffff;

/// The members of an object whose value is an array of keys, by name.
pub uninterp spec fn key_list_members(doc: serde_json::Value) -> Map<
    Seq<char>,
    Seq<alcoholic_jwt::JWK>,
>;

/// The key identifier that `alcoholic_jwt::token_kid` reads from the header
/// of `token`; none where it fails or finds none.
pub uninterp spec fn token_kid_of(token: Seq<char>) -> Option<Seq<char>>;

/// The bytes that a token segment spells in URL-safe base64.
pub uninterp spec fn decoded_segment(segment: Seq<char>) -> Option<Seq<u8>>;

/// What `alcoholic_jwt::validate` makes of `token` under `key` when it is
/// asked for no claim validation.
pub uninterp spec fn verification(token: Seq<char>, key: alcoholic_jwt::JWK) -> Result<
    SignedContent,
    JwtFailure,
>;

/// The bytes of an optional vector.
pub open spec fn bytes_of(v: Option<Vec<u8>>) -> Option<Seq<u8>> {
    match v {
        Some(b) => Some(b@),
        None => None,
    }
}

/// The keys of an optional vector.
pub open spec fn keys_of(v: Option<Vec<alcoholic_jwt::JWK>>) -> Option<Seq<alcoholic_jwt::JWK>> {
    match v {
        Some(l) => Some(l@),
        None => None,
    }
}

/// Calls `JWK::kid`. Believed: the result is the key's identifier, the same
/// for the same key.
#[verifier::external_body]
pub(crate) fn key_id(key: &alcoholic_jwt::JWK) -> (id: Option<String>)
    ensures
        text_of(id) == key_id_of(*key),
{
    Some(key.kid()?.to_string())
}

/// Tells the variants of `JWK` apart.
#[verifier::external_body]
pub(crate) fn key_family(key: &alcoholic_jwt::JWK) -> (family: KeyFamily)
    ensures
        family == family_of(*key),
{
    match key {
        alcoholic_jwt::JWK::Rsa(_) => KeyFamily::Rsa,
        alcoholic_jwt::JWK::Ec(_) => KeyFamily::EllipticCurve,
    }
}

/// Calls `Value::get` and `serde_json::from_value` for a `Vec<JWK>`.
/// Believed: the result holds the keys of the array that the object holds
/// under `name`, in order, and there is none where that member is missing or
/// is anything but an array of keys that `alcoholic_jwt` accepts; the
/// numbers of each key are strings of the document.
#[verifier::external_body]
pub(crate) fn key_list_member(doc: &serde_json::Value, name: &str) -> (list: Option<
    Vec<alcoholic_jwt::JWK>,
>)
    ensures
        keys_of(list) == lookup(key_list_members(*doc), name@),
        list matches Some(l) ==> forall|i: int|
            0 <= i < l@.len() ==> longest_number(#[trigger] l@[i]) <= longest_text(*doc),
{
    serde_json::from_value::<Vec<alcoholic_jwt::JWK>>(doc.get(name)?.clone()).ok()
}

/// Calls `alcoholic_jwt::token_kid`. Believed: the result depends on the
/// token alone. Nothing is claimed of when there is one.
#[verifier::external_body]
pub(crate) fn token_key_id(token: &str) -> (id: Option<String>)
    ensures
        text_of(id) == token_kid_of(token@),
{
    alcoholic_jwt::token_kid(token).ok().flatten()
}

/// Calls `Engine::decode` of `base64`, on an engine set up as
/// `alcoholic_jwt` sets up its own: the URL-safe alphabet, padding present
/// or not, trailing bits allowed. Believed: the result depends on the
/// segment alone.
#[verifier::external_body]
pub(crate) fn decode_segment(segment: &str) -> (bytes: Option<Vec<u8>>)
    ensures
        bytes_of(bytes) == decoded_segment(segment@),
{
    let config =
        base64::engine::general_purpose::NO_PAD_INDIFFERENT.with_decode_allow_trailing_bits(true);
    let engine = base64::engine::GeneralPurpose::new(&base64::alphabet::URL_SAFE, config);
    base64::Engine::decode(&engine, segment).ok()
}

/// Calls `alcoholic_jwt::validate` with an empty list of validations, so
/// that it verifies the signature and decodes header and claims, and reads
/// no clock. A key with a number of more bytes than the largest `i32` is
/// left out: `BigNum::from_slice` of `openssl` panics on it. Believed: the
/// result depends on the token and the key alone, and the claims that come
/// with success are those that the claims segment of a well-formed token
/// decodes to. Nothing is claimed of when it succeeds.
#[verifier::external_body]
pub(crate) fn verify_signature(token: &str, key: &alcoholic_jwt::JWK) -> (outcome: Result<
    SignedContent,
    JwtFailure,
>)
    requires
        longest_number(*key) <= MAX_NUMBER_BYTES,
    ensures
        outcome == verification(token@, *key),
        outcome matches Ok(content) ==> well_formed(token@) ==> claims_in(token@) == Some(
            content.claims,
        ),
{
    match alcoholic_jwt::validate(token, key, Vec::new()) {
        Ok(valid) => Ok(SignedContent { header: valid.headers, claims: valid.claims }),
        Err(ValidationError::InvalidComponents) => Err(JwtFailure::Components),
        Err(ValidationError::InvalidBase64(_)) => Err(JwtFailure::Encoding),
        Err(ValidationError::InvalidJWK) => Err(JwtFailure::KeyMaterial),
        Err(ValidationError::InvalidSignature) => Err(JwtFailure::Signature),
        Err(ValidationError::OpenSSL(_)) => Err(JwtFailure::Crypto),
        Err(ValidationError::JSON(_)) => Err(JwtFailure::Json),
        Err(ValidationError::InvalidClaims(_)) => Err(JwtFailure::Claims),
    }
}

} // verus!

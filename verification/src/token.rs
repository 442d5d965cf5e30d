//! A token: three segments, the first of which names the signing key.

use crate::error::AuthError;
use crate::json::{lookup, parse_json, parsed_json, text_member, text_members, text_of};
use crate::jwt::{decode_segment, decoded_segment, token_key_id, token_kid_of};
use crate::text::{fields, lemma_fields_joined, lemma_fields_plain, split, texts, Separator};
use vstd::prelude::*;
use vstd::string::*;

verus! {

/// The three segments of a token, still encoded.
pub struct Segments {
    /// The header segment.
    pub header: String,
    /// The claims segment.
    pub claims: String,
    /// The signature segment.
    pub signature: String,
}

/// A token is well formed where full stops part it into exactly three
/// segments, none of them empty.
pub open spec fn well_formed(token: Seq<char>) -> bool {
    let parts = fields(token, Separator::Dot);
    &&& parts.len() == 3
    &&& parts[0].len() > 0
    &&& parts[1].len() > 0
    &&& parts[2].len() > 0
}

/// The header segment of a token.
pub open spec fn header_segment(token: Seq<char>) -> Seq<char> {
    fields(token, Separator::Dot)[0]
}

/// The claims segment of a token.
pub open spec fn claims_segment(token: Seq<char>) -> Seq<char> {
    fields(token, Separator::Dot)[1]
}

/// The signature segment of a token.
pub open spec fn signature_segment(token: Seq<char>) -> Seq<char> {
    fields(token, Separator::Dot)[2]
}

/// A text holds no full stop.
pub open spec fn dot_free(s: Seq<char>) -> bool {
    forall|i: int| 0 <= i < s.len() ==> #[trigger] s[i] != '.'
}

/// Three segments, none empty and none with a full stop in it, joined by
/// full stops make a well-formed token that parts into the same three.
pub proof fn lemma_joined_segments(header: Seq<char>, claims: Seq<char>, signature: Seq<char>)
    requires
        header.len() > 0 && dot_free(header),
        claims.len() > 0 && dot_free(claims),
        signature.len() > 0 && dot_free(signature),
    ensures
        well_formed(header.push('.') + claims.push('.') + signature),
        fields(header.push('.') + claims.push('.') + signature, Separator::Dot) == seq![
            header,
            claims,
            signature,
        ],
{
    let sep = Separator::Dot;
    let token = header.push('.') + claims.push('.') + signature;
    assert(token == header.push('.') + (claims.push('.') + signature));
    lemma_fields_joined(header, '.', claims.push('.') + signature, sep);
    lemma_fields_joined(claims, '.', signature, sep);
    assert forall|i: int| 0 <= i < header.len() implies !sep.separates(#[trigger] header[i]) by {}
    assert forall|i: int| 0 <= i < claims.len() implies !sep.separates(#[trigger] claims[i]) by {}
    assert forall|i: int| 0 <= i < signature.len() implies !sep.separates(
        #[trigger] signature[i],
    ) by {}
    lemma_fields_plain(header, sep);
    lemma_fields_plain(claims, sep);
    lemma_fields_plain(signature, sep);
    assert(seq![header] + (seq![claims] + seq![signature]) == seq![header, claims, signature]);
}

/// Parts a token into its segments; none where it is not well formed.
pub fn segments(token: &str) -> (parts: Option<Segments>)
    ensures
        match parts {
            Some(p) => {
                &&& well_formed(token@)
                &&& p.header@ == header_segment(token@)
                &&& p.claims@ == claims_segment(token@)
                &&& p.signature@ == signature_segment(token@)
            },
            None => !well_formed(token@),
        },
{
    let mut parts = split(token, Separator::Dot);
    if parts.len() != 3 {
        return None;
    }
    assert(texts(parts@)[0] == parts@[0]@);
    assert(texts(parts@)[1] == parts@[1]@);
    assert(texts(parts@)[2] == parts@[2]@);
    let signature = parts.pop().unwrap();
    let claims = parts.pop().unwrap();
    let header = parts.pop().unwrap();
    if header.as_str().unicode_len() == 0 || claims.as_str().unicode_len() == 0
        || signature.as_str().unicode_len() == 0 {
        return None;
    }
    Some(Segments { header, claims, signature })
}

/// The decoded header of a well-formed token.
pub open spec fn header_of(token: Seq<char>) -> Option<serde_json::Value> {
    if well_formed(token) {
        match decoded_segment(header_segment(token)) {
            Some(bytes) => parsed_json(bytes),
            None => None,
        }
    } else {
        None
    }
}

/// The decoded claims of a well-formed token: the JSON document that its
/// claims segment spells in base64.
pub open spec fn claims_in(token: Seq<char>) -> Option<serde_json::Value> {
    if well_formed(token) {
        match decoded_segment(claims_segment(token)) {
            Some(bytes) => parsed_json(bytes),
            None => None,
        }
    } else {
        None
    }
}

/// Decodes the header of a token; none where the token is not well formed
/// or its header segment is not the base64 of a JSON document.
pub(crate) fn decode_header(token: &str) -> (header: Option<serde_json::Value>)
    ensures
        header == header_of(token@),
{
    match segments(token) {
        Some(parts) => match decode_segment(parts.header.as_str()) {
            Some(bytes) => parse_json(bytes.as_slice()),
            None => None,
        },
        None => None,
    }
}

/// Whether the header of a token decodes: the token is well formed and its
/// header segment is the base64 of a JSON document.
pub fn header_decodes(token: &str) -> (decodes: bool)
    ensures
        decodes == header_of(token@) is Some,
{
    decode_header(token).is_some()
}

/// The algorithm that the header of a well-formed token declares.
pub open spec fn declared_algorithm(token: Seq<char>) -> Option<Seq<char>> {
    match header_of(token) {
        Some(header) => lookup(text_members(header), "alg"@),
        None => None,
    }
}

/// Reads the name of the signature algorithm from the header of a token;
/// none where the header cannot be decoded or declares none.
pub fn algorithm_in(token: &str) -> (algorithm: Option<String>)
    ensures
        text_of(algorithm) == declared_algorithm(token@),
{
    match decode_header(token) {
        Some(header) => text_member(&header, "alg"),
        None => None,
    }
}

/// The identifier of the key that a well-formed token names in its header.
pub open spec fn key_id_in(token: Seq<char>) -> Option<Seq<char>> {
    if well_formed(token) {
        token_kid_of(token)
    } else {
        None
    }
}

/// Reads the identifier of the signing key from the header of a token.
/// A token that is not well formed, whose header cannot be decoded or names
/// no key, is malformed.
pub fn extract_key_id(token: &str) -> (kid: Result<String, AuthError>)
    ensures
        match kid {
            Ok(id) => key_id_in(token@) == Some(id@),
            Err(e) => e == AuthError::MalformedToken && key_id_in(token@) is None,
        },
{
    if segments(token).is_none() {
        return Err(AuthError::MalformedToken);
    }
    match token_key_id(token) {
        Some(id) => Ok(id),
        None => Err(AuthError::MalformedToken),
    }
}

} // verus!

//! The claims of a token.

use crate::json::{
    lookup, number_member, number_members, parse_json, parsed_json, render, rendering,
    text_list_member, text_list_members, text_member, text_members, text_of,
};
use crate::text::texts;
use vstd::prelude::*;

verus! {

/// The claims that the validation policy reads, and the text of all of them.
pub struct ClaimSet {
    /// The `iss` claim, where it is a string.
    pub issuer: Option<Seq<char>>,
    /// The `sub` claim, where it is a string.
    pub subject: Option<Seq<char>>,
    /// The `aud` claim: one audience, or each member of a list of them.
    pub audience: Seq<Seq<char>>,
    /// The `exp` claim, in seconds since the Unix epoch.
    pub expiry: Option<u64>,
    /// The text that shows every claim.
    pub rendering: Seq<char>,
}

/// The audiences that a claims document names.
pub open spec fn audience_of(doc: serde_json::Value) -> Seq<Seq<char>> {
    match lookup(text_members(doc), "aud"@) {
        Some(one) => seq![one],
        None => match lookup(text_list_members(doc), "aud"@) {
            Some(list) => list,
            None => Seq::empty(),
        },
    }
}

/// What the policy reads from a claims document.
pub open spec fn claim_set_of(doc: serde_json::Value) -> ClaimSet {
    ClaimSet {
        issuer: lookup(text_members(doc), "iss"@),
        subject: lookup(text_members(doc), "sub"@),
        audience: audience_of(doc),
        expiry: lookup(number_members(doc), "exp"@),
        rendering: rendering(doc),
    }
}

/// A mapping from claim name to value, as decoded from a token.
pub struct Claims {
    document: serde_json::Value,
}

impl Claims {
    /// The decoded document.
    pub closed spec fn document(&self) -> serde_json::Value {
        self.document
    }

    /// The claims that the policy reads.
    pub open spec fn view(&self) -> ClaimSet {
        claim_set_of(self.document())
    }

    /// Holds a decoded document as claims.
    pub(crate) fn new(document: serde_json::Value) -> (claims: Claims)
        ensures
            claims.document() == document,
    {
        Claims { document }
    }

    /// Decodes claims from the text of a JSON document.
    pub fn decode(bytes: &[u8]) -> (claims: Option<Claims>)
        ensures
            match claims {
                Some(c) => parsed_json(bytes@) == Some(c.document()),
                None => parsed_json(bytes@) is None,
            },
    {
        match parse_json(bytes) {
            Some(document) => Some(Claims { document }),
            None => None,
        }
    }

    /// The issuer.
    pub fn issuer(&self) -> (issuer: Option<String>)
        ensures
            text_of(issuer) == self@.issuer,
    {
        text_member(&self.document, "iss")
    }

    /// The subject.
    pub fn subject(&self) -> (subject: Option<String>)
        ensures
            text_of(subject) == self@.subject,
    {
        text_member(&self.document, "sub")
    }

    /// The audiences; none where the token names none.
    pub fn audience(&self) -> (audience: Vec<String>)
        ensures
            texts(audience@) == self@.audience,
    {
        match text_member(&self.document, "aud") {
            Some(one) => {
                let mut audience: Vec<String> = Vec::new();
                audience.push(one);
                assert(texts(audience@) == seq![one@]);
                audience
            },
            None => match text_list_member(&self.document, "aud") {
                Some(list) => {
                    assert(texts(list@) == Seq::new(list@.len(), |i: int| list@[i]@));
                    list
                },
                None => {
                    let audience: Vec<String> = Vec::new();
                    assert(texts(audience@) == Seq::<Seq<char>>::empty());
                    audience
                },
            },
        }
    }

    /// The expiry instant, in seconds since the Unix epoch.
    pub fn expiry(&self) -> (expiry: Option<u64>)
        ensures
            expiry == self@.expiry,
    {
        number_member(&self.document, "exp")
    }

    /// A text that shows every claim.
    pub fn render(&self) -> (text: String)
        ensures
            text@ == self@.rendering,
    {
        render(&self.document)
    }
}

} // verus!

//! The `Authorization` header of a request that carries a bearer token.

use crate::text::{
    fields, lemma_fields_joined, lemma_fields_plain, lemma_non_empty_all, split_words, texts,
    words,
    Separator,
};
use vstd::prelude::*;
use vstd::string::*;

verus! {

/// The token that a header value carries: the second of its words, where
/// the value is made of exactly two words and the first is `Bearer`.
pub open spec fn bearer_token_of(header: Seq<char>) -> Option<Seq<char>> {
    let ws = words(header, Separator::Whitespace);
    if ws.len() == 2 && ws[0] == "Bearer"@ {
        Some(ws[1])
    } else {
        None
    }
}

/// Reads the token out of the value of an `Authorization` header. A value
/// of any other shape, the empty one too, carries no token.
pub fn bearer_token(header: &str) -> (token: Option<String>)
    ensures
        match token {
            Some(t) => bearer_token_of(header@) == Some(t@),
            None => bearer_token_of(header@) is None,
        },
{
    let mut ws = split_words(header, Separator::Whitespace);
    if ws.len() != 2 {
        return None;
    }
    assert(texts(ws@)[0] == ws@[0]@);
    assert(texts(ws@)[1] == ws@[1]@);
    let scheme = String::from_str("Bearer");
    if ws[0] != scheme {
        return None;
    }
    ws.pop()
}

/// The header value that presents `token` as a bearer token.
pub fn bearer_header(token: &str) -> (header: String)
    ensures
        header@ == "Bearer "@ + token@,
{
    String::from_str("Bearer ").concat(token)
}

/// A token that holds no white space, and at least one character, is read
/// back from the header value that presents it.
pub proof fn lemma_bearer_round_trip(token: Seq<char>)
    requires
        token.len() > 0,
        forall|i: int| 0 <= i < token.len() ==> !Separator::Whitespace.separates(#[trigger] token[i]),
    ensures
        bearer_token_of("Bearer "@ + token) == Some(token),
{
    reveal_strlit("Bearer ");
    reveal_strlit("Bearer");
    let sep = Separator::Whitespace;
    let scheme = "Bearer"@;
    assert("Bearer "@ + token == scheme.push(' ') + token);
    assert(sep.separates(' '));
    lemma_fields_joined(scheme, ' ', token, sep);
    lemma_fields_plain(scheme, sep);
    lemma_fields_plain(token, sep);
    let fs = fields(scheme.push(' ') + token, sep);
    assert(fs == seq![scheme, token]);
    lemma_non_empty_all(fs);
}

} // verus!

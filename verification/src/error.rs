//! Why an authentication attempt failed.

use vstd::prelude::*;

verus! {

/// The claim checks of a validation policy, in the order in which they run.
#[derive(Clone, Copy, Debug, PartialEq, Eq, Structural)]
pub enum ClaimCheck {
    /// The issuer differs from the one the policy names, or is missing.
    Issuer,
    /// The expiry instant is missing or has been reached.
    Expiry,
    /// The subject is missing or empty.
    Subject,
    /// The audience the policy names is not among the token's audiences.
    Audience,
}

/// The kinds of failure. The request gate never shows them to a remote
/// caller; they are for logs and for an operator who validates one token.
#[derive(Clone, Copy, Debug, PartialEq, Eq, Structural)]
pub enum AuthError {
    /// The key set could not be fetched, or the provider answered with a
    /// status outside 200 to 299.
    Network,
    /// The key set, or the claims of a token, are not well formed.
    Parse,
    /// The token does not have three segments, its header cannot be
    /// decoded, or its header names no key.
    MalformedToken,
    /// No key of the fetched key set has the identifier the token names.
    KeyNotFound,
    /// The signature does not verify under the key, or the algorithm the
    /// token declares is not the key's.
    Signature,
    /// A claim check of the policy failed.
    Claims,
}

impl AuthError {
    /// A short description for an operator.
    pub fn describe(&self) -> (text: &'static str)
        ensures
            text@ == self.description(),
    {
        match self {
            AuthError::Network => "key set fetch failed",
            AuthError::Parse => "malformed key set or claims",
            AuthError::MalformedToken => "malformed token",
            AuthError::KeyNotFound => "no key with the token's identifier",
            AuthError::Signature => "signature or algorithm mismatch",
            AuthError::Claims => "claims do not pass the policy",
        }
    }

    /// The text that `describe` returns.
    pub open spec fn description(&self) -> Seq<char> {
        match self {
            AuthError::Network => "key set fetch failed"@,
            AuthError::Parse => "malformed key set or claims"@,
            AuthError::MalformedToken => "malformed token"@,
            AuthError::KeyNotFound => "no key with the token's identifier"@,
            AuthError::Signature => "signature or algorithm mismatch"@,
            AuthError::Claims => "claims do not pass the policy"@,
        }
    }
}

} // verus!

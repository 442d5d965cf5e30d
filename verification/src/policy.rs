//! The checks that a token's claims must pass.

use crate::claims::{ClaimSet, Claims};
use crate::error::ClaimCheck;
use crate::json::text_of;
use crate::text::texts;
use vstd::prelude::*;
use vstd::string::*;

verus! {

/// Which claim checks are made, and against what.
pub struct ValidationPolicy {
    /// The issuer that a token must name, exactly.
    pub issuer: Option<String>,
    /// Whether a token must name a subject.
    pub subject_required: bool,
    /// Whether a token must name an expiry instant that lies ahead.
    pub expiry_required: bool,
    /// The audience that a token must name, exactly.
    pub audience: Option<String>,
}

/// Whether `member` is one of `list`.
fn holds(list: &Vec<String>, member: &String) -> (found: bool)
    ensures
        found == texts(list@).contains(member@),
{
    let mut i: usize = 0;
    while i < list.len()
        invariant
            i <= list@.len(),
            forall|j: int| 0 <= j < i ==> texts(list@)[j] != member@,
        decreases list@.len() - i,
    {
        if list[i] == *member {
            assert(texts(list@)[i as int] == member@);
            return true;
        }
        i = i + 1;
    }
    false
}

impl ValidationPolicy {
    /// The policy for tokens of one identity provider: the issuer is the
    /// provider's authority, a subject and an unexpired expiry are required,
    /// and no audience is asked for.
    pub fn for_authority(authority: &str) -> (policy: ValidationPolicy)
        ensures
            text_of(policy.issuer) == Some(authority@),
            policy.subject_required,
            policy.expiry_required,
            policy.audience is None,
    {
        ValidationPolicy {
            issuer: Some(String::from_str(authority)),
            subject_required: true,
            expiry_required: true,
            audience: None,
        }
    }

    /// The issuer check passes: the policy names no issuer, or the claims
    /// name the same one.
    pub open spec fn issuer_passes(&self, claims: ClaimSet) -> bool {
        self.issuer matches Some(expected) ==> claims.issuer == Some(expected@)
    }

    /// The expiry check passes: the policy asks for none, or the claims name
    /// an expiry instant strictly after `now`.
    pub open spec fn expiry_passes(&self, claims: ClaimSet, now: u64) -> bool {
        self.expiry_required ==> (claims.expiry matches Some(expiry) && expiry > now)
    }

    /// The subject check passes: the policy asks for none, or the claims name
    /// a subject of at least one character.
    pub open spec fn subject_passes(&self, claims: ClaimSet) -> bool {
        self.subject_required ==> (claims.subject matches Some(subject) && subject.len() > 0)
    }

    /// The audience check passes: the policy names no audience, or it names
    /// one of the claims' audiences.
    pub open spec fn audience_passes(&self, claims: ClaimSet) -> bool {
        self.audience matches Some(expected) ==> claims.audience.contains(expected@)
    }

    /// The first check that `claims` fail at the instant `now`, in the order
    /// issuer, expiry, subject, audience; none where they pass all.
    pub open spec fn first_failure(&self, claims: ClaimSet, now: u64) -> Option<ClaimCheck> {
        if !self.issuer_passes(claims) {
            Some(ClaimCheck::Issuer)
        } else if !self.expiry_passes(claims, now) {
            Some(ClaimCheck::Expiry)
        } else if !self.subject_passes(claims) {
            Some(ClaimCheck::Subject)
        } else if !self.audience_passes(claims) {
            Some(ClaimCheck::Audience)
        } else {
            None
        }
    }

    /// Runs the checks on `claims` at the instant `now`, given in seconds
    /// since the Unix epoch, and reports the first that fails.
    pub fn check(&self, claims: &Claims, now: u64) -> (verdict: Result<(), ClaimCheck>)
        ensures
            match verdict {
                Ok(_) => self.first_failure(claims@, now) is None,
                Err(failed) => self.first_failure(claims@, now) == Some(failed),
            },
    {
        if let Some(expected) = &self.issuer {
            match claims.issuer() {
                Some(found) => {
                    if found != *expected {
                        return Err(ClaimCheck::Issuer);
                    }
                },
                None => {
                    return Err(ClaimCheck::Issuer);
                },
            }
        }
        if self.expiry_required {
            match claims.expiry() {
                Some(expiry) => {
                    if expiry <= now {
                        return Err(ClaimCheck::Expiry);
                    }
                },
                None => {
                    return Err(ClaimCheck::Expiry);
                },
            }
        }
        if self.subject_required {
            match claims.subject() {
                Some(subject) => {
                    if subject.as_str().unicode_len() == 0 {
                        return Err(ClaimCheck::Subject);
                    }
                },
                None => {
                    return Err(ClaimCheck::Subject);
                },
            }
        }
        if let Some(expected) = &self.audience {
            let audience = claims.audience();
            if !holds(&audience, expected) {
                return Err(ClaimCheck::Audience);
            }
        }
        Ok(())
    }
}

} // verus!

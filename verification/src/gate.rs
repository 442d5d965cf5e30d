//! The request gate at the boundary of a request: from the `Authorization` header
//! to validated claims, or to none.
//!
//! The request gate decides; it neither fetches nor reads a clock. Its caller does
//! what `GateState::action` asks for and hands the result back as an event.

use crate::bearer::{bearer_token, bearer_token_of};
use crate::claims::{claim_set_of, Claims};
use crate::error::AuthError;
use crate::json::text_of;
use crate::jwt::key_id_of;
use crate::keys::{
    key_for, key_set_url, key_set_url_of, lemma_key_for, received, well_identified, FetchResponse,
    Key, KeySetDocument,
};
use crate::text::{fields, non_empty, Separator};
use crate::policy::ValidationPolicy;
use crate::token::{claims_in, extract_key_id, key_id_in};
use crate::validator::{
    lemma_good_token_is_accepted, signed_by, validate, validation_of, ValidatedToken,
};
use vstd::prelude::*;
use vstd::string::*;

verus! {

/// Where the request gate stands with one request.
pub enum GateState {
    /// Nothing has been read yet.
    NoHeader,
    /// The header carries a token that names a key.
    ParsedHeader {
        /// The token.
        token: String,
        /// The identifier of the key that the token names.
        kid: String,
    },
    /// The key that the token names has been found in the fetched key set.
    KeysFetched {
        /// The token.
        token: String,
        /// The key.
        key: Key,
    },
    /// The token is valid.
    Validated {
        /// The validated token.
        token: ValidatedToken,
    },
    /// Authentication failed.
    Rejected {
        /// Why; never shown to the remote caller.
        cause: AuthError,
    },
    /// The request presents no bearer token.
    Anonymous,
}

/// What a gate state holds.
pub ghost enum GateView {
    NoHeader,
    ParsedHeader { token: Seq<char>, kid: Seq<char> },
    KeysFetched { token: Seq<char>, key: alcoholic_jwt::JWK },
    Validated { claims: serde_json::Value, verified: bool },
    Rejected { cause: AuthError },
    Anonymous,
}

/// What the caller has done for the request gate.
pub enum GateEvent {
    /// The value of the `Authorization` header, if the request has one.
    Header(Option<String>),
    /// The answer to the fetch of the key set.
    KeySet(FetchResponse),
    /// The current time, in seconds since the Unix epoch.
    Clock(u64),
}

/// What the request gate asks its caller to do next.
#[derive(Clone, Copy, Debug, PartialEq, Eq, Structural)]
pub enum GateAction {
    /// Read the `Authorization` header.
    ReadHeader,
    /// Fetch the key set from the request gate's key-set address.
    FetchKeySet,
    /// Read the clock.
    ReadClock,
    /// Answer the request: the request gate is done.
    Respond,
}

/// The state after the header has been read.
pub open spec fn after_header(header: Option<Seq<char>>) -> GateView {
    match header {
        None => GateView::Anonymous,
        Some(value) => match bearer_token_of(value) {
            None => GateView::Anonymous,
            Some(token) => match key_id_in(token) {
                None => GateView::Rejected { cause: AuthError::MalformedToken },
                Some(kid) => GateView::ParsedHeader { token, kid },
            },
        },
    }
}

/// The state after the key set has been fetched for a token that names the
/// key `kid`.
pub open spec fn after_key_set(token: Seq<char>, kid: Seq<char>, response: FetchResponse) -> GateView {
    match received(response) {
        Err(cause) => GateView::Rejected { cause },
        Ok(keys) => match key_for(keys, kid) {
            None => GateView::Rejected { cause: AuthError::KeyNotFound },
            Some(key) => GateView::KeysFetched { token, key },
        },
    }
}

/// The state after the token has been validated under its key at `now`.
pub open spec fn after_clock(
    token: Seq<char>,
    key: alcoholic_jwt::JWK,
    policy: ValidationPolicy,
    now: u64,
) -> GateView {
    match validation_of(token, key, policy, now) {
        Ok(claims) => GateView::Validated { claims, verified: true },
        Err(cause) => GateView::Rejected { cause },
    }
}

/// The state that follows `state` on `event`. An event that the state does
/// not wait for leaves it as it is.
pub open spec fn next_state(policy: ValidationPolicy, state: GateView, event: GateEvent) -> GateView {
    match (state, event) {
        (GateView::NoHeader, GateEvent::Header(header)) => after_header(text_of(header)),
        (GateView::ParsedHeader { token, kid }, GateEvent::KeySet(response)) => after_key_set(
            token,
            kid,
            response,
        ),
        (GateView::KeysFetched { token, key }, GateEvent::Clock(now)) => after_clock(
            token,
            key,
            policy,
            now,
        ),
        _ => state,
    }
}

/// What the request gate asks for in a state.
pub open spec fn action_in(state: GateView) -> GateAction {
    match state {
        GateView::NoHeader => GateAction::ReadHeader,
        GateView::ParsedHeader { .. } => GateAction::FetchKeySet,
        GateView::KeysFetched { .. } => GateAction::ReadClock,
        _ => GateAction::Respond,
    }
}

/// What the whole pipeline makes of a token: the key identifier is read
/// from the token, the key is chosen from the fetched key set, and the token
/// is validated under it.
pub open spec fn authentication_of(
    policy: ValidationPolicy,
    token: Seq<char>,
    response: FetchResponse,
    now: u64,
) -> Result<serde_json::Value, AuthError> {
    match key_id_in(token) {
        None => Err(AuthError::MalformedToken),
        Some(kid) => match received(response) {
            Err(cause) => Err(cause),
            Ok(keys) => match key_for(keys, kid) {
                None => Err(AuthError::KeyNotFound),
                Some(key) => validation_of(token, key, policy, now),
            },
        },
    }
}

impl GateState {
    /// What the state holds.
    pub open spec fn view(&self) -> GateView {
        match self {
            GateState::NoHeader => GateView::NoHeader,
            GateState::ParsedHeader { token, kid } => GateView::ParsedHeader {
                token: token@,
                kid: kid@,
            },
            GateState::KeysFetched { token, key } => GateView::KeysFetched {
                token: token@,
                key: key@,
            },
            GateState::Validated { token } => GateView::Validated {
                claims: token.claims.document(),
                verified: token.verified,
            },
            GateState::Rejected { cause } => GateView::Rejected { cause: *cause },
            GateState::Anonymous => GateView::Anonymous,
        }
    }

    /// What the caller is to do next.
    pub fn action(&self) -> (action: GateAction)
        ensures
            action == action_in(self@),
    {
        match self {
            GateState::NoHeader => GateAction::ReadHeader,
            GateState::ParsedHeader { .. } => GateAction::FetchKeySet,
            GateState::KeysFetched { .. } => GateAction::ReadClock,
            _ => GateAction::Respond,
        }
    }

    /// The outcome for the downstream handler: the validated claims, or
    /// none. Why there are none is not told.
    pub fn claims(&self) -> (claims: Option<&Claims>)
        ensures
            match claims {
                Some(c) => self@ matches GateView::Validated { claims, .. } && claims
                    == c.document(),
                None => !(self@ is Validated),
            },
    {
        match self {
            GateState::Validated { token } => Some(&token.claims),
            _ => None,
        }
    }
}

/// The text that a handler answers with when it shows the request gate's outcome.
pub open spec fn response_text_of(claims: Option<serde_json::Value>) -> Seq<char> {
    match claims {
        Some(document) => claim_set_of(document).rendering,
        None => "Authorization Failed"@,
    }
}

/// The text that a handler answers with: the claims in text, or one fixed
/// message for every request without valid claims.
pub fn response_text(claims: Option<&Claims>) -> (text: String)
    ensures
        text@ == response_text_of(
            match claims {
                Some(c) => Some(c.document()),
                None => None,
            },
        ),
{
    match claims {
        Some(c) => c.render(),
        None => String::from_str("Authorization Failed"),
    }
}

/// The request gate of one identity provider.
pub struct AuthGate {
    authority: String,
    policy: ValidationPolicy,
}

impl AuthGate {
    /// The provider's authority.
    pub closed spec fn authority(&self) -> Seq<char> {
        self.authority@
    }

    /// The policy that tokens are held to.
    pub closed spec fn policy(&self) -> ValidationPolicy {
        self.policy
    }

    /// A gate for the provider at `authority`, with the policy for that
    /// authority.
    pub fn new(authority: &str) -> (gate: AuthGate)
        ensures
            gate.authority() == authority@,
            text_of(gate.policy().issuer) == Some(authority@),
            gate.policy().subject_required,
            gate.policy().expiry_required,
            gate.policy().audience is None,
    {
        AuthGate {
            authority: String::from_str(authority),
            policy: ValidationPolicy::for_authority(authority),
        }
    }

    /// A gate for the provider at `authority`, with a policy of the
    /// caller's.
    pub fn with_policy(authority: &str, policy: ValidationPolicy) -> (gate: AuthGate)
        ensures
            gate.authority() == authority@,
            gate.policy() == policy,
    {
        AuthGate { authority: String::from_str(authority), policy }
    }

    /// The address from which the key set is fetched.
    pub fn key_set_url(&self) -> (url: String)
        ensures
            url@ == key_set_url_of(self.authority()),
    {
        key_set_url(self.authority.as_str())
    }

    /// Reads the header. A request without the header, or with a header
    /// that is not `Bearer` and one token, is anonymous.
    pub fn on_header(&self, header: Option<&str>) -> (next: GateState)
        ensures
            next@ == after_header(
                match header {
                    Some(value) => Some(value@),
                    None => None,
                },
            ),
    {
        let value = match header {
            Some(value) => value,
            None => {
                return GateState::Anonymous;
            },
        };
        let token = match bearer_token(value) {
            Some(token) => token,
            None => {
                return GateState::Anonymous;
            },
        };
        match extract_key_id(token.as_str()) {
            Ok(kid) => GateState::ParsedHeader { token, kid },
            Err(cause) => GateState::Rejected { cause },
        }
    }

    /// Takes the answer to the fetch of the key set, and chooses the key
    /// that the token names.
    pub fn on_key_set(&self, token: String, kid: String, response: &FetchResponse) -> (next:
        GateState)
        ensures
            next@ == after_key_set(token@, kid@, *response),
    {
        let keys = match KeySetDocument::receive(response) {
            Ok(keys) => keys,
            Err(cause) => {
                return GateState::Rejected { cause };
            },
        };
        match keys.take(kid.as_str()) {
            Ok(key) => GateState::KeysFetched { token, key },
            Err(cause) => GateState::Rejected { cause },
        }
    }

    /// Validates the token under its key at the instant `now`. A token
    /// that is validated carries the flag of a verified signature, and its
    /// claims are those that `token` carries.
    pub fn on_clock(&self, token: String, key: Key, now: u64) -> (next: GateState)
        ensures
            next@ == after_clock(token@, key@, self.policy(), now),
            next matches GateState::Validated { token: valid } ==> valid.verified && claims_in(
                token@,
            ) == Some(valid.claims.document()),
    {
        match validate(token.as_str(), &key, &self.policy, now) {
            Ok(valid) => GateState::Validated { token: valid },
            Err(cause) => GateState::Rejected { cause },
        }
    }

    /// Moves the request gate from `state` on `event`, and says what to do next.
    pub fn step(&self, state: GateState, event: GateEvent) -> (moved: (GateState, GateAction))
        ensures
            moved.0@ == next_state(self.policy(), state@, event),
            moved.1 == action_in(moved.0@),
            state@ is KeysFetched ==> (moved.0 matches GateState::Validated { token }
                ==> token.verified),
    {
        let next = match (state, event) {
            (GateState::NoHeader, GateEvent::Header(Some(value))) => self.on_header(
                Some(value.as_str()),
            ),
            (GateState::NoHeader, GateEvent::Header(None)) => self.on_header(None),
            (GateState::ParsedHeader { token, kid }, GateEvent::KeySet(response)) => {
                self.on_key_set(token, kid, &response)
            },
            (GateState::KeysFetched { token, key }, GateEvent::Clock(now)) => self.on_clock(
                token,
                key,
                now,
            ),
            (state, _) => state,
        };
        let action = next.action();
        (next, action)
    }

    /// Validates one token against a fetched key set at the instant `now`,
    /// and tells why where it is not valid.
    pub fn validate_token(&self, token: &str, response: &FetchResponse, now: u64) -> (outcome:
        Result<ValidatedToken, AuthError>)
        ensures
            match outcome {
                Ok(valid) => {
                    &&& authentication_of(self.policy(), token@, *response, now) == Ok::<
                        serde_json::Value,
                        AuthError,
                    >(valid.claims.document())
                    &&& valid.verified
                    &&& claims_in(token@) == Some(valid.claims.document())
                },
                Err(e) => authentication_of(self.policy(), token@, *response, now) == Err::<
                    serde_json::Value,
                    AuthError,
                >(e),
            },
    {
        let kid = extract_key_id(token)?;
        let keys = KeySetDocument::receive(response)?;
        let key = keys.take(kid.as_str())?;
        validate(token, &key, &self.policy, now)
    }
}

/// A request whose header is missing, or is anything but `Bearer` and one
/// token, is anonymous: the request gate is done and asks for nothing more.
pub proof fn lemma_no_bearer_is_anonymous(policy: ValidationPolicy, header: Option<String>)
    requires
        text_of(header) matches Some(value) ==> bearer_token_of(value) is None,
    ensures
        next_state(policy, GateView::NoHeader, GateEvent::Header(header)) == GateView::Anonymous,
        action_in(GateView::Anonymous) == GateAction::Respond,
{
}

/// An empty header value carries no token.
pub proof fn lemma_empty_header_has_no_token()
    ensures
        bearer_token_of(Seq::<char>::empty()) is None,
{
    let parts = fields(Seq::<char>::empty(), Separator::Whitespace);
    assert(parts == seq![Seq::<char>::empty()]);
    assert(parts.drop_last() == Seq::<Seq<char>>::empty());
    assert(non_empty(parts.drop_last()) == Seq::<Seq<char>>::empty());
}

/// A token that names a key which the fetched key set does not hold fails
/// with `KeyNotFound`, whatever else is true of it.
pub proof fn lemma_unknown_key_is_not_found(
    policy: ValidationPolicy,
    token: Seq<char>,
    kid: Seq<char>,
    response: FetchResponse,
    keys: Seq<alcoholic_jwt::JWK>,
    now: u64,
)
    requires
        key_id_in(token) == Some(kid),
        received(response) == Ok::<Seq<alcoholic_jwt::JWK>, AuthError>(keys),
        forall|i: int| 0 <= i < keys.len() ==> key_id_of(#[trigger] keys[i]) != Some(kid),
    ensures
        authentication_of(policy, token, response, now) == Err::<serde_json::Value, AuthError>(
            AuthError::KeyNotFound,
        ),
        after_key_set(token, kid, response) == (GateView::Rejected {
            cause: AuthError::KeyNotFound,
        }),
{
    assert(well_identified(keys));
    lemma_key_for(keys, kid);
}

/// A token signed by a key of the fetched key set, whose claims name the
/// issuer that the policy names, a subject and an expiry instant after
/// `now`, is authenticated under a policy that asks for no audience, and
/// its claims come back as they are.
pub proof fn lemma_good_token_authenticates(
    policy: ValidationPolicy,
    token: Seq<char>,
    kid: Seq<char>,
    response: FetchResponse,
    keys: Seq<alcoholic_jwt::JWK>,
    key: alcoholic_jwt::JWK,
    claims: serde_json::Value,
    now: u64,
)
    requires
        key_id_in(token) == Some(kid),
        received(response) == Ok::<Seq<alcoholic_jwt::JWK>, AuthError>(keys),
        key_for(keys, kid) == Some(key),
        signed_by(token, key, claims),
        policy.audience is None,
        policy.issuer matches Some(issuer) ==> claim_set_of(claims).issuer == Some(issuer@),
        claim_set_of(claims).subject matches Some(subject) && subject.len() > 0,
        claim_set_of(claims).expiry matches Some(expiry) && expiry > now,
    ensures
        authentication_of(policy, token, response, now) == Ok::<serde_json::Value, AuthError>(
            claims,
        ),
{
    lemma_good_token_is_accepted(token, key, policy, now, claims);
}

/// Driven through the header, the key set and the clock, the request gate ends
/// where the pipeline ends: anonymous without a bearer token, validated with
/// the claims that authentication yields, rejected with its error otherwise.
pub proof fn lemma_gate_follows_pipeline(
    policy: ValidationPolicy,
    header: Option<String>,
    response: FetchResponse,
    now: u64,
)
    ensures
        ({
            let read = next_state(policy, GateView::NoHeader, GateEvent::Header(header));
            let fetched = next_state(policy, read, GateEvent::KeySet(response));
            let last = next_state(policy, fetched, GateEvent::Clock(now));
            let token = match text_of(header) {
                Some(value) => bearer_token_of(value),
                None => None,
            };
            &&& action_in(last) == GateAction::Respond
            &&& last == match token {
                None => GateView::Anonymous,
                Some(t) => match authentication_of(policy, t, response, now) {
                    Ok(claims) => GateView::Validated { claims, verified: true },
                    Err(cause) => GateView::Rejected { cause },
                },
            }
        }),
{
}

} // verus!

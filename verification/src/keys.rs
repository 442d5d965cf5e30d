//! The key set that an identity provider publishes, and the choice of the
//! key that a token names.

use crate::error::AuthError;
use crate::json::{lookup, parse_json, parsed_json};
use crate::jwt::{
    family_of, key_family, key_id, key_id_of, key_list_member, key_list_members, longest_number,
    KeyFamily, MAX_NUMBER_BYTES,
};
use crate::text::texts;
use vstd::prelude::*;
use vstd::string::*;

verus! {

/// The address of the key-set document of the provider at `authority`: the
/// well-known path behind the authority, with one slash between the two
/// where the authority does not end in one.
pub open spec fn key_set_url_of(authority: Seq<char>) -> Seq<char> {
    if authority.len() > 0 && authority.last() == '/' {
        authority + ".well-known/jwks.json"@
    } else {
        authority + "/.well-known/jwks.json"@
    }
}

/// The address from which the key set of the provider at `authority` is
/// fetched.
pub fn key_set_url(authority: &str) -> (url: String)
    ensures
        url@ == key_set_url_of(authority@),
{
    let n: usize = authority.unicode_len();
    if n > 0 && authority.get_char(n - 1) == '/' {
        String::from_str(authority).concat(".well-known/jwks.json")
    } else {
        String::from_str(authority).concat("/.well-known/jwks.json")
    }
}

/// How the fetch of a key-set document ended.
pub enum FetchResponse {
    /// No answer arrived.
    Failed,
    /// The provider answered.
    Answered {
        /// The status code of the answer.
        status: u16,
        /// The body of the answer.
        body: Vec<u8>,
    },
}

/// The keys that a fetch brought: a network error where no answer arrived
/// or its status is outside 200 to 299, a parse error where the body is no
/// key-set document.
pub open spec fn received(response: FetchResponse) -> Result<Seq<alcoholic_jwt::JWK>, AuthError> {
    match response {
        FetchResponse::Failed => Err(AuthError::Network),
        FetchResponse::Answered { status, body } => if 200 <= status <= 299 {
            match key_set_of(body@) {
                Some(keys) => Ok(keys),
                None => Err(AuthError::Parse),
            }
        } else {
            Err(AuthError::Network)
        },
    }
}

/// Every key carries an identifier, and no two carry the same.
pub open spec fn well_identified(keys: Seq<alcoholic_jwt::JWK>) -> bool {
    &&& forall|i: int| 0 <= i < keys.len() ==> key_id_of(#[trigger] keys[i]) is Some
    &&& forall|i: int, j: int|
        0 <= i < j < keys.len() ==> key_id_of(#[trigger] keys[i]) != key_id_of(#[trigger] keys[j])
}

/// The identifiers of `keys`, in order.
pub open spec fn ids_of(keys: Seq<alcoholic_jwt::JWK>) -> Seq<Seq<char>> {
    Seq::new(keys.len(), |i: int| key_id_of(keys[i]).unwrap())
}

/// The longest body that is taken for a key-set document. It keeps every
/// number of every key within what the signature check takes.
pub const MAX_KEY_SET_BYTES: usize = MAX_NUMBER_BYTES;

/// The keys that the body of a key-set document publishes: those of the
/// array that the JSON object holds under `keys`, where every key carries an
/// identifier of its own. No other body is a key-set document, and none of
/// more than `MAX_KEY_SET_BYTES` bytes.
pub open spec fn key_set_of(body: Seq<u8>) -> Option<Seq<alcoholic_jwt::JWK>> {
    if body.len() > MAX_KEY_SET_BYTES {
        None
    } else {
        match parsed_json(body) {
            Some(doc) => match lookup(key_list_members(doc), "keys"@) {
                Some(keys) => if well_identified(keys) {
                    Some(keys)
                } else {
                    None
                },
                None => None,
            },
            None => None,
        }
    }
}

/// The key among `keys` that carries the identifier `kid`.
pub open spec fn key_for(keys: Seq<alcoholic_jwt::JWK>, kid: Seq<char>) -> Option<
    alcoholic_jwt::JWK,
> {
    if ids_of(keys).contains(kid) {
        Some(keys[ids_of(keys).index_of(kid)])
    } else {
        None
    }
}

/// One key of a key set.
pub struct Key {
    id: String,
    family: KeyFamily,
    material: alcoholic_jwt::JWK,
}

impl Key {
    #[verifier::type_invariant]
    spec fn agrees(self) -> bool {
        &&& key_id_of(self.material) == Some(self.id@)
        &&& self.family == family_of(self.material)
        &&& longest_number(self.material) <= MAX_NUMBER_BYTES
    }

    /// The key as the provider published it.
    pub closed spec fn view(&self) -> alcoholic_jwt::JWK {
        self.material
    }

    /// The key's identifier.
    pub fn id(&self) -> (id: &String)
        ensures
            key_id_of(self@) == Some(id@),
    {
        proof {
            use_type_invariant(self);
        }
        &self.id
    }

    /// The kind of the key.
    pub fn family(&self) -> (family: KeyFamily)
        ensures
            family == family_of(self@),
    {
        proof {
            use_type_invariant(self);
        }
        self.family
    }

    /// The key as the provider published it; its numbers are within what
    /// the signature check takes.
    pub(crate) fn material(&self) -> (material: &alcoholic_jwt::JWK)
        ensures
            *material == self@,
            longest_number(*material) <= MAX_NUMBER_BYTES,
    {
        proof {
            use_type_invariant(self);
        }
        &self.material
    }
}

/// The keys of one fetched key-set document, in the order of the document.
/// Every key carries an identifier, and no two carry the same.
pub struct KeySetDocument {
    keys: Vec<Key>,
}

impl KeySetDocument {
    #[verifier::type_invariant]
    spec fn distinct(self) -> bool {
        &&& forall|i: int|
            0 <= i < self.keys@.len() ==> key_id_of((#[trigger] self.keys@[i]).material) == Some(
                self.keys@[i].id@,
            )
        &&& forall|i: int, j: int|
            0 <= i < j < self.keys@.len() ==> (#[trigger] self.keys@[i]).id@ != (
            #[trigger] self.keys@[j]).id@
    }

    /// The keys, in order.
    pub closed spec fn view(&self) -> Seq<alcoholic_jwt::JWK> {
        Seq::new(self.keys@.len(), |i: int| self.keys@[i]@)
    }

    /// The number of keys.
    pub fn len(&self) -> (n: usize)
        ensures
            n == self@.len(),
    {
        self.keys.len()
    }

    /// The identifiers of the keys, in order.
    pub fn ids(&self) -> (ids: Vec<String>)
        ensures
            texts(ids@) == ids_of(self@),
    {
        proof {
            use_type_invariant(self);
        }
        let mut ids: Vec<String> = Vec::new();
        let mut i: usize = 0;
        while i < self.keys.len()
            invariant
                i <= self.keys@.len(),
                self.distinct(),
                ids@.len() == i,
                forall|j: int| 0 <= j < i ==> (#[trigger] ids@[j])@ == ids_of(self@)[j],
            decreases self.keys@.len() - i,
        {
            ids.push(self.keys[i].id.clone());
            i = i + 1;
        }
        assert(texts(ids@) == ids_of(self@));
        ids
    }

    /// Decodes the body of a key-set document. A body of more than
    /// `MAX_KEY_SET_BYTES` bytes is turned down unread.
    #[verifier::loop_isolation(false)]
    pub fn parse(body: &[u8]) -> (parsed: Result<KeySetDocument, AuthError>)
        ensures
            match parsed {
                Ok(document) => key_set_of(body@) == Some(document@) && well_identified(document@),
                Err(e) => e == AuthError::Parse && key_set_of(body@) is None,
            },
    {
        if body.len() > MAX_KEY_SET_BYTES {
            return Err(AuthError::Parse);
        }
        let doc = match parse_json(body) {
            Some(doc) => doc,
            None => {
                return Err(AuthError::Parse);
            },
        };
        let mut rest = match key_list_member(&doc, "keys") {
            Some(list) => list,
            None => {
                return Err(AuthError::Parse);
            },
        };
        let ghost all = rest@;
        let mut keys: Vec<Key> = Vec::new();
        while rest.len() > 0
            invariant
                keys@.len() + rest@.len() == all.len(),
                rest@ == all.skip(keys@.len() as int),
                forall|i: int| 0 <= i < keys@.len() ==> (#[trigger] keys@[i]).material == all[i],
                forall|i: int|
                    0 <= i < keys@.len() ==> key_id_of(all[i]) == Some((#[trigger] keys@[i]).id@),
                forall|i: int, j: int|
                    0 <= i < j < keys@.len() ==> (#[trigger] keys@[i]).id@ != (
                    #[trigger] keys@[j]).id@,
            decreases rest@.len(),
        {
            let ghost at = keys@.len() as int;
            let material = rest.remove(0);
            assert(material == all[at]);
            let id = match key_id(&material) {
                Some(id) => id,
                None => {
                    assert(key_id_of(all[at]) is None);
                    return Err(AuthError::Parse);
                },
            };
            let mut j: usize = 0;
            while j < keys.len()
                invariant
                    j <= keys@.len(),
                    forall|i: int| 0 <= i < j ==> (#[trigger] keys@[i]).id@ != id@,
                decreases keys@.len() - j,
            {
                if keys[j].id == id {
                    assert(key_id_of(all[j as int]) == key_id_of(all[at]));
                    return Err(AuthError::Parse);
                }
                j = j + 1;
            }
            let family = key_family(&material);
            keys.push(Key { id, family, material });
        }
        let document = KeySetDocument { keys };
        assert(document@ == all);
        assert(well_identified(all)) by {
            assert forall|i: int, j: int| 0 <= i < j < all.len() implies key_id_of(
                #[trigger] all[i],
            ) != key_id_of(#[trigger] all[j]) by {
                assert(document.keys@[i].id@ != document.keys@[j].id@);
            }
        }
        Ok(document)
    }

    /// Takes the key set out of the answer to a fetch.
    pub fn receive(response: &FetchResponse) -> (keys: Result<KeySetDocument, AuthError>)
        ensures
            match keys {
                Ok(document) => received(*response) == Ok::<Seq<alcoholic_jwt::JWK>, AuthError>(
                    document@,
                ) && well_identified(document@),
                Err(e) => received(*response) == Err::<Seq<alcoholic_jwt::JWK>, AuthError>(e),
            },
    {
        match response {
            FetchResponse::Failed => Err(AuthError::Network),
            FetchResponse::Answered { status, body } => {
                if 200 <= *status && *status <= 299 {
                    KeySetDocument::parse(body.as_slice())
                } else {
                    Err(AuthError::Network)
                }
            },
        }
    }

    /// The place of the key whose identifier is exactly `kid`.
    fn position(&self, kid: &str) -> (place: Option<usize>)
        ensures
            match place {
                Some(i) => i < self.keys@.len() && key_for(self@, kid@) == Some(self@[i as int]),
                None => key_for(self@, kid@) is None,
            },
    {
        proof {
            use_type_invariant(self);
        }
        let wanted = String::from_str(kid);
        let mut i: usize = 0;
        while i < self.keys.len()
            invariant
                i <= self.keys@.len(),
                wanted@ == kid@,
                self.distinct(),
                forall|j: int| 0 <= j < i ==> ids_of(self@)[j] != kid@,
            decreases self.keys@.len() - i,
        {
            if self.keys[i].id == wanted {
                proof {
                    let ids = ids_of(self@);
                    assert(ids[i as int] == kid@);
                    let at = ids.index_of(kid@);
                    assert(ids[at] == kid@);
                    assert(self.keys@[at].id@ == self.keys@[i as int].id@);
                }
                return Some(i);
            }
            i = i + 1;
        }
        None
    }

    /// Chooses the key whose identifier is exactly `kid`, and gives up the
    /// rest of the document.
    pub fn take(self, kid: &str) -> (chosen: Result<Key, AuthError>)
        ensures
            match chosen {
                Ok(key) => key_for(self@, kid@) == Some(key@),
                Err(e) => e == AuthError::KeyNotFound && key_for(self@, kid@) is None,
            },
    {
        match self.position(kid) {
            Some(i) => {
                let mut keys = self.keys;
                Ok(keys.swap_remove(i))
            },
            None => Err(AuthError::KeyNotFound),
        }
    }

    /// Chooses the key whose identifier is exactly `kid`. There is no
    /// fallback: a key with another identifier is never chosen.
    pub fn select(&self, kid: &str) -> (chosen: Result<&Key, AuthError>)
        ensures
            match chosen {
                Ok(key) => key_for(self@, kid@) == Some(key@),
                Err(e) => e == AuthError::KeyNotFound && key_for(self@, kid@) is None,
            },
    {
        match self.position(kid) {
            Some(i) => Ok(&self.keys[i]),
            None => Err(AuthError::KeyNotFound),
        }
    }
}

/// A key set never yields a key for an identifier that none of its keys
/// carries, and yields the key that carries it otherwise.
pub proof fn lemma_key_for(keys: Seq<alcoholic_jwt::JWK>, kid: Seq<char>)
    requires
        well_identified(keys),
    ensures
        key_for(keys, kid) is None <==> forall|i: int|
            0 <= i < keys.len() ==> key_id_of(#[trigger] keys[i]) != Some(kid),
        key_for(keys, kid) matches Some(key) ==> keys.contains(key) && key_id_of(key) == Some(kid),
{
    let ids = ids_of(keys);
    if ids.contains(kid) {
        let at = ids.index_of(kid);
        assert(ids[at] == kid);
        assert(keys[at] == key_for(keys, kid).unwrap());
        assert(key_id_of(keys[at]) == Some(kid));
    } else {
        assert forall|i: int| 0 <= i < keys.len() implies key_id_of(#[trigger] keys[i]) != Some(
            kid,
        ) by {
            assert(ids[i] == key_id_of(keys[i]).unwrap());
            assert(ids.contains(ids[i]));
        }
    }
}

/// Decoding the same body twice yields the same keys.
pub proof fn lemma_parse_is_repeatable(body: Seq<u8>, first: KeySetDocument, second: KeySetDocument)
    requires
        key_set_of(body) == Some(first@),
        key_set_of(body) == Some(second@),
    ensures
        first@ == second@,
        ids_of(first@) == ids_of(second@),
{
}

} // verus!

//! The key set against which tokens are verified: public keys, each under its key id.

use vstd::prelude::*;

verus! {

/// The parameters of a published key: for an RSA key its modulus (`n`) and public exponent
/// (`e`), both big-endian bytes; any other kind of key cannot verify an RS256 token.
pub enum KeyParameters {
    Rsa { modulus: Vec<u8>, exponent: Vec<u8> },
    Other,
}

/// A public key of the key set, as a JWK publishes it: its key id (`kid`) and its parameters.
pub struct PublicKey {
    pub key_id: String,
    pub parameters: KeyParameters,
}

/// The key set (JWKS) of the token issuer: its keys that have a key id, in the order in which
/// it lists them.
pub struct KeySet {
    pub keys: Vec<PublicKey>,
}

/// The first key of `keys` whose id is `key_id`, if any.
pub open spec fn first_key_with_id(keys: Seq<PublicKey>, key_id: Seq<char>) -> Option<PublicKey>
    decreases keys.len(),
{
    if keys.len() == 0 {
        None
    } else if keys[0].key_id@ == key_id {
        Some(keys[0])
    } else {
        first_key_with_id(keys.drop_first(), key_id)
    }
}

/// Whether two strings hold the same characters.
pub fn same_text(a: &str, b: &str) -> (same: bool)
    ensures
        same == (a@ == b@),
{
    let n = a.unicode_len();
    if n != b.unicode_len() {
        return false;
    }
    let mut i: usize = 0;
    while i < n
        invariant
            n == a@.len(),
            n == b@.len(),
            i <= n,
            forall|j: int| 0 <= j < i ==> a@[j] == b@[j],
        decreases n - i,
    {
        if a.get_char(i) != b.get_char(i) {
            return false;
        }
        i += 1;
    }
    assert(a@ =~= b@);
    true
}

impl KeySet {
    /// The key that a token's header names by `key_id`: the first key of the set with that
    /// id, or `None` when the set has no such key.
    pub fn find(&self, key_id: &str) -> (found: Option<&PublicKey>)
        ensures
            match found {
                Some(key) => first_key_with_id(self.keys@, key_id@) == Some(*key),
                None => first_key_with_id(self.keys@, key_id@) is None,
            },
    {
        let mut i: usize = 0;
        assert(self.keys@.skip(0) =~= self.keys@);
        while i < self.keys.len()
            invariant
                i <= self.keys@.len(),
                first_key_with_id(self.keys@, key_id@) == first_key_with_id(self.keys@.skip(i as int), key_id@),
            decreases self.keys@.len() - i,
        {
            let key = &self.keys[i];
            assert(self.keys@.skip(i as int)[0] == self.keys@[i as int]);
            if same_text(key.key_id.as_str(), key_id) {
                return Some(key);
            }
            assert(self.keys@.skip(i as int).drop_first() =~= self.keys@.skip(i + 1));
            i += 1;
        }
        None
    }
}

/// The key found for an id is a key of the set, it has that id, and no key before it has.
pub proof fn lemma_first_key_with_id(keys: Seq<PublicKey>, key_id: Seq<char>)
    ensures
        match first_key_with_id(keys, key_id) {
            Some(key) => exists|i: int|
                0 <= i < keys.len() && keys[i] == key && key.key_id@ == key_id
                    && forall|j: int| 0 <= j < i ==> (#[trigger] keys[j]).key_id@ != key_id,
            None => forall|i: int| 0 <= i < keys.len() ==> (#[trigger] keys[i]).key_id@ != key_id,
        },
    decreases keys.len(),
{
    if keys.len() > 0 {
        let rest = keys.drop_first();
        lemma_first_key_with_id(rest, key_id);
        if keys[0].key_id@ != key_id {
            match first_key_with_id(rest, key_id) {
                Some(key) => {
                    let i = choose|i: int|
                        0 <= i < rest.len() && rest[i] == key && key.key_id@ == key_id
                            && forall|j: int| 0 <= j < i ==> (#[trigger] rest[j]).key_id@ != key_id;
                    assert(keys[i + 1] == key);
                    assert forall|j: int| 0 <= j < i + 1 implies (#[trigger] keys[j]).key_id@ != key_id by {
                        if j > 0 {
                            assert(keys[j] == rest[j - 1]);
                        }
                    }
                },
                None => {
                    assert forall|i: int| 0 <= i < keys.len() implies (#[trigger] keys[i]).key_id@ != key_id by {
                        if i > 0 {
                            assert(keys[i] == rest[i - 1]);
                        }
                    }
                },
            }
        }
    }
}

} // verus!

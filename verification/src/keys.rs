//! The provider's published signing-key set, held as plain values: each
//! key its identifier, its algorithm family, and its family-specific
//! material. Lookup by key identifier is verified; only the parsing of
//! the fetched key-set document is delegated to the JSON decoder.

use vstd::prelude::*;

verus! {

/// The algorithm-specific material of one published key, together with
/// its family.
#[derive(Debug, Clone)]
pub enum KeyMaterial {
    /// An RSA public key: base64url-encoded modulus and exponent, as
    /// published.
    Rsa { n: String, e: String },
    /// A shared secret for HMAC algorithms, as the bytes of the
    /// published value.
    Octet { secret: Vec<u8> },
    /// A key of any other family (such as an elliptic-curve key):
    /// present in the set but unsupported here.
    Unsupported,
}

/// One signing-key descriptor of the published set.
#[derive(Debug, Clone)]
pub struct KeyDescriptor {
    /// The published key identifier. A key without one can never be
    /// matched by a token.
    pub kid: Option<String>,
    /// The key's family and material.
    pub material: KeyMaterial,
}

/// A point-in-time snapshot of the provider's published key set.
#[derive(Debug, Clone)]
pub struct KeySet {
    pub keys: Vec<KeyDescriptor>,
}

/// Whether a key carries the given identifier.
pub open spec fn spec_key_matches(k: KeyDescriptor, kid: Seq<char>) -> bool {
    k.kid is Some && k.kid->0@ == kid
}

/// The first key of the sequence carrying the given identifier, if any.
pub open spec fn spec_lookup(keys: Seq<KeyDescriptor>, kid: Seq<char>) -> Option<KeyDescriptor>
    decreases keys.len(),
{
    if keys.len() == 0 {
        None
    } else if spec_key_matches(keys[0], kid) {
        Some(keys[0])
    } else {
        spec_lookup(keys.drop_first(), kid)
    }
}

/// Skipping past a non-matching key keeps the lookup result.
proof fn lemma_lookup_skip(keys: Seq<KeyDescriptor>, kid: Seq<char>, i: int)
    requires
        0 <= i < keys.len(),
        !spec_key_matches(keys[i], kid),
        spec_lookup(keys, kid) == spec_lookup(keys.skip(i), kid),
    ensures
        spec_lookup(keys, kid) == spec_lookup(keys.skip(i + 1), kid),
{
    assert(keys.skip(i)[0] == keys[i]);
    assert(keys.skip(i).drop_first() =~= keys.skip(i + 1));
}

impl KeySet {
    /// Locates the first key of the set whose identifier equals `kid`,
    /// if any.
    pub fn find(&self, kid: &String) -> (r: Option<&KeyDescriptor>)
        ensures
            match r {
                Some(k) => spec_lookup(self.keys@, kid@) == Some(*k),
                None => spec_lookup(self.keys@, kid@) is None,
            },
    {
        proof {
            assert(self.keys@.skip(0) =~= self.keys@);
        }
        let n = self.keys.len();
        let mut i: usize = 0;
        while i < n
            invariant
                n == self.keys@.len(),
                0 <= i <= n,
                spec_lookup(self.keys@, kid@) == spec_lookup(self.keys@.skip(i as int), kid@),
            decreases n - i,
        {
            let k = &self.keys[i];
            let matched = match &k.kid {
                Some(s) => *s == *kid,
                None => false,
            };
            proof {
                assert(self.keys@.skip(i as int)[0] == self.keys@[i as int]);
            }
            if matched {
                return Some(k);
            }
            proof {
                lemma_lookup_skip(self.keys@, kid@, i as int);
            }
            i = i + 1;
        }
        proof {
            assert(self.keys@.skip(n as int) =~= Seq::<KeyDescriptor>::empty());
        }
        None
    }
}

/// The list of key descriptors a key-set document parses to, when it is
/// a well-formed JWK-set document; the result depends on the document
/// alone.
pub uninterp spec fn spec_key_set_document(body: Seq<char>) -> Option<Seq<KeyDescriptor>>;

/// Relies on serde_json::from_str with jsonwebtoken's JWK-set types: a
/// well-formed key-set document yields its keys, in published order,
/// each reduced to identifier, family and material; any other text is
/// rejected.
#[verifier::external_body]
pub(crate) fn parse_key_set_document(body: &str) -> (r: Option<Vec<KeyDescriptor>>)
    ensures
        match r {
            Some(keys) => spec_key_set_document(body@) == Some(keys@),
            None => spec_key_set_document(body@) is None,
        },
{
    let set: jsonwebtoken::jwk::JwkSet = match serde_json::from_str(body) {
        Ok(s) => s,
        Err(_) => return None,
    };
    Some(set.keys.into_iter().map(|k| KeyDescriptor {
        kid: k.common.key_id,
        material: match k.algorithm {
            jsonwebtoken::jwk::AlgorithmParameters::RSA(p) => KeyMaterial::Rsa { n: p.n, e: p.e },
            jsonwebtoken::jwk::AlgorithmParameters::OctetKey(p) => KeyMaterial::Octet {
                secret: p.value.into_bytes(),
            },
            _ => KeyMaterial::Unsupported,
        },
    }).collect())
}

} // verus!

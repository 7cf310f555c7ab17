//! The key-set model: one record per published key, an unordered collection of
//! records replaced wholesale on refresh, lookup by key identifier, and
//! construction of RSA verification key material.

use vstd::prelude::*;

use crate::error::Error;

verus! {

/// The algorithm family of a published key, with its public parameters.
/// RSA is supported; every other family is an explicit, terminal rejection.
#[derive(Debug)]
pub enum KeyAlgorithm {
    /// Base64url-encoded modulus and exponent, opaque blobs as published.
    Rsa { n: String, e: String },
    Unsupported,
}

/// One published key of a JWKS document.
#[derive(Debug)]
pub struct KeyRecord {
    /// The key identifier; a record without one never matches a lookup.
    pub kid: Option<String>,
    pub algorithm: KeyAlgorithm,
}

/// The full JWKS document at a point in time. Immutable once fetched;
/// a refresh produces a new set, never a patch of the old one.
#[derive(Debug)]
pub struct KeySet {
    pub keys: Vec<KeyRecord>,
}

impl View for KeySet {
    type V = Seq<KeyRecord>;

    open spec fn view(&self) -> Seq<KeyRecord> {
        self.keys@
    }
}

impl Clone for KeyAlgorithm {
    fn clone(&self) -> (r: Self)
        ensures
            r == *self,
    {
        match self {
            KeyAlgorithm::Rsa { n, e } => KeyAlgorithm::Rsa { n: n.clone(), e: e.clone() },
            KeyAlgorithm::Unsupported => KeyAlgorithm::Unsupported,
        }
    }
}

impl Clone for KeyRecord {
    fn clone(&self) -> (r: Self)
        ensures
            r == *self,
    {
        let kid = match &self.kid {
            Some(k) => Some(k.clone()),
            None => None,
        };
        KeyRecord { kid, algorithm: self.algorithm.clone() }
    }
}

impl Clone for KeySet {
    fn clone(&self) -> (r: Self)
        ensures
            r@ == self@,
    {
        let mut keys: Vec<KeyRecord> = Vec::new();
        let mut i: usize = 0;
        while i < self.keys.len()
            invariant
                i <= self.keys.len(),
                keys@ =~= self.keys@.subrange(0, i as int),
            decreases self.keys.len() - i,
        {
            keys.push(self.keys[i].clone());
            i = i + 1;
        }
        proof {
            assert(keys@ =~= self.keys@);
        }
        KeySet { keys }
    }
}

/// Whether a record's identifier equals the requested one.
pub open spec fn key_matches(r: KeyRecord, kid: Seq<char>) -> bool {
    match r.kid {
        Some(k) => k@ == kid,
        None => false,
    }
}

/// The index of the first record matching `kid`, if any.
pub open spec fn find_index(keys: Seq<KeyRecord>, kid: Seq<char>) -> Option<int>
    decreases keys.len(),
{
    if keys.len() == 0 {
        None
    } else if key_matches(keys[0], kid) {
        Some(0)
    } else {
        match find_index(keys.drop_first(), kid) {
            Some(i) => Some(i + 1),
            None => None,
        }
    }
}

/// Whether some record of the set matches `kid`.
pub open spec fn has_key(keys: Seq<KeyRecord>, kid: Seq<char>) -> bool {
    exists|i: int| 0 <= i < keys.len() && key_matches(keys[i], kid)
}

/// `find_index` returns the first matching index, and `None` exactly when no
/// record matches.
pub proof fn lemma_find_index_props(keys: Seq<KeyRecord>, kid: Seq<char>)
    ensures
        match find_index(keys, kid) {
            Some(i) => 0 <= i < keys.len() && key_matches(keys[i], kid) && (forall|j: int|
                0 <= j < i ==> !key_matches(keys[j], kid)),
            None => forall|j: int| 0 <= j < keys.len() ==> !key_matches(keys[j], kid),
        },
    decreases keys.len(),
{
    if keys.len() > 0 && !key_matches(keys[0], kid) {
        let rest = keys.drop_first();
        lemma_find_index_props(rest, kid);
        assert(forall|j: int| 0 <= j < rest.len() ==> rest[j] == keys[j + 1]);
        match find_index(rest, kid) {
            Some(i) => {
                assert(key_matches(keys[i + 1], kid));
                assert forall|j: int| 0 <= j < i + 1 implies !key_matches(keys[j], kid) by {
                    if j >= 1 {
                        assert(keys[j] == rest[j - 1]);
                    }
                }
            },
            None => {
                assert forall|j: int| 0 <= j < keys.len() implies !key_matches(keys[j], kid) by {
                    if j >= 1 {
                        assert(keys[j] == rest[j - 1]);
                    }
                }
            },
        }
    }
}

/// `find_index` finds an index exactly when the set holds the key.
pub proof fn lemma_find_index_some_iff_has_key(keys: Seq<KeyRecord>, kid: Seq<char>)
    ensures
        find_index(keys, kid) is Some <==> has_key(keys, kid),
{
    lemma_find_index_props(keys, kid);
    match find_index(keys, kid) {
        Some(i) => {
            assert(key_matches(keys[i], kid));
        },
        None => {},
    }
}

fn kid_matches(record: &KeyRecord, kid: &String) -> (b: bool)
    ensures
        b == key_matches(*record, kid@),
{
    match &record.kid {
        Some(k) => *k == *kid,
        None => false,
    }
}

impl KeySet {
    /// The index of the first record whose `kid` equals the requested one.
    pub fn find(&self, kid: &String) -> (r: Option<usize>)
        ensures
            match r {
                Some(i) => find_index(self@, kid@) == Some(i as int),
                None => find_index(self@, kid@) is None,
            },
    {
        let mut i: usize = 0;
        while i < self.keys.len()
            invariant
                i <= self.keys.len(),
                forall|j: int| 0 <= j < i ==> !key_matches(self@[j], kid@),
            decreases self.keys.len() - i,
        {
            if kid_matches(&self.keys[i], kid) {
                proof {
                    lemma_find_index_props(self@, kid@);
                }
                return Some(i);
            }
            i = i + 1;
        }
        proof {
            lemma_find_index_props(self@, kid@);
        }
        None
    }
}

/// What the key-set parser yields on a body: `None` when the body is not a
/// well-formed key-set document, else the records in published order.
pub uninterp spec fn parsed_jwks(body: Seq<char>) -> Option<Seq<KeyRecord>>;

/// Relies on serde_json::from_str for jsonwebtoken's JwkSet: whether a body
/// parses as a key-set document, and the key records it carries, depend on the
/// body text alone. Each record keeps its `kid` and, for an RSA key, the
/// published `n` and `e`; every non-RSA family is tagged unsupported.
#[verifier::external_body]
fn parse_jwk_set_raw(body: &str) -> (r: Option<KeySet>)
    ensures
        match r {
            Some(ks) => parsed_jwks(body@) == Some(ks@),
            None => parsed_jwks(body@) is None,
        },
{
    let set: jsonwebtoken::jwk::JwkSet = match serde_json::from_str(body) {
        Ok(s) => s,
        Err(_) => return None,
    };
    let mut keys: Vec<KeyRecord> = Vec::new();
    for jwk in set.keys {
        let algorithm = match jwk.algorithm {
            jsonwebtoken::jwk::AlgorithmParameters::RSA(p) => KeyAlgorithm::Rsa { n: p.n, e: p.e },
            _ => KeyAlgorithm::Unsupported,
        };
        keys.push(KeyRecord { kid: jwk.common.key_id, algorithm });
    }
    Some(KeySet { keys })
}

/// Deserializes a response body as a key set, or reports it malformed.
pub fn parse_jwk_set(body: &str) -> (r: Result<KeySet, Error>)
    ensures
        match r {
            Ok(ks) => parsed_jwks(body@) == Some(ks@),
            Err(e) => e == Error::MalformedResponse && parsed_jwks(body@) is None,
        },
{
    match parse_jwk_set_raw(body) {
        Some(ks) => Ok(ks),
        None => Err(Error::MalformedResponse),
    }
}

/// Whether jsonwebtoken can build RSA key material from the published
/// components; a fixed function of the two strings.
pub uninterp spec fn rsa_components_valid(n: Seq<char>, e: Seq<char>) -> bool;

/// Relies on jsonwebtoken::DecodingKey::from_rsa_components: it succeeds
/// exactly when both components decode as base64url, which depends on the two
/// strings alone.
#[verifier::external_body]
fn check_rsa_components(n: &str, e: &str) -> (b: bool)
    ensures
        b == rsa_components_valid(n@, e@),
{
    jsonwebtoken::DecodingKey::from_rsa_components(n, e).is_ok()
}

/// Verification-ready RSA key material: components known to convert.
#[derive(Debug)]
pub struct VerificationKey {
    pub n: String,
    pub e: String,
}

impl VerificationKey {
    pub open spec fn wf(&self) -> bool {
        rsa_components_valid(self.n@, self.e@)
    }
}

/// Builds verification key material from a record: succeeds exactly on an RSA
/// record whose components convert; everything else is invalid key material,
/// whatever the record's `kid`.
pub fn build_verification_key(record: &KeyRecord) -> (r: Result<VerificationKey, Error>)
    ensures
        match r {
            Ok(k) => k.wf() && (record.algorithm matches KeyAlgorithm::Rsa { n, e } && k.n == n
                && k.e == e),
            Err(err) => err == Error::InvalidJwk,
        },
        r is Ok <==> (record.algorithm matches KeyAlgorithm::Rsa { n, e }
            && rsa_components_valid(n@, e@)),
{
    match &record.algorithm {
        KeyAlgorithm::Rsa { n, e } => {
            if check_rsa_components(n.as_str(), e.as_str()) {
                Ok(VerificationKey { n: n.clone(), e: e.clone() })
            } else {
                Err(Error::InvalidJwk)
            }
        },
        KeyAlgorithm::Unsupported => Err(Error::InvalidJwk),
    }
}

} // verus!

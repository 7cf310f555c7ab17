//! The caller-supplied validation policy, and the data a successful
//! verification returns.

use vstd::prelude::*;
use vstd::string::StringExecFns;

use crate::keys::KeySet;

verus! {

/// A signature algorithm the policy may allow. Only the RSA family is
/// supported; keys of any other family are rejected as invalid key material
/// before validation starts.
#[derive(Debug, Clone, Copy, PartialEq, Eq, Structural)]
pub enum TokenAlgorithm {
    Rs256,
    Rs384,
    Rs512,
}

/// Which checks to apply to a decoded token. Passed by value into each
/// verification call and never mutated by the library.
#[derive(Debug)]
pub struct ValidationPolicy {
    /// The signature algorithms the caller accepts; a token whose header
    /// declares any other is invalid.
    pub algorithms: Vec<TokenAlgorithm>,
    /// Whether an `exp` claim in the past rejects the token. The underlying
    /// validator allows a fixed 60-second leeway for clock skew.
    pub check_expiration: bool,
    /// Whether an `aud` claim is held against `audience`.
    pub check_audience: bool,
    /// The audience the caller accepts, when the audience check is on.
    pub audience: Option<String>,
    /// The issuer the caller accepts; `None` turns the issuer check off.
    pub issuer: Option<String>,
    /// Claim names that must be present for the token to be valid. The
    /// underlying validator enforces presence only for `exp`, `nbf`, `aud`,
    /// `iss` and `sub`; any other name here is silently ignored.
    pub required_claims: Vec<String>,
}

impl ValidationPolicy {
    /// The default policy: RS256 only, expiration and audience checks on,
    /// no expected audience or issuer, and `exp` required.
    pub fn new() -> (r: Self)
        ensures
            r.algorithms@ == seq![TokenAlgorithm::Rs256],
            r.check_expiration,
            r.check_audience,
            r.audience is None,
            r.issuer is None,
            r.required_claims@.len() == 1 && r.required_claims@[0]@ == "exp"@,
    {
        let mut algorithms: Vec<TokenAlgorithm> = Vec::new();
        algorithms.push(TokenAlgorithm::Rs256);
        let mut required_claims: Vec<String> = Vec::new();
        required_claims.push(String::from_str("exp"));
        proof {
            assert(algorithms@ =~= seq![TokenAlgorithm::Rs256]);
        }
        ValidationPolicy {
            algorithms,
            check_expiration: true,
            check_audience: true,
            audience: None,
            issuer: None,
            required_claims,
        }
    }
}

/// The decoded, verified payload of a token. Intentionally open: the library
/// enforces presence of claims per policy but does not interpret their values.
#[derive(Debug)]
pub struct Claims {}

/// Validated header and claims, returned only after signature and claims
/// validation passed.
#[derive(Debug)]
pub struct TokenData {
    pub claims: Claims,
}

/// A successful verification: the decoded token, and the key set actually
/// used, handed back so the caller can cache it for the next call.
#[derive(Debug)]
pub struct VerifiedToken {
    pub data: TokenData,
    pub key_set: KeySet,
}

} // verus!

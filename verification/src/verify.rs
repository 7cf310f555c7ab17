//! The token verifier: header inspection, key resolution with a single
//! refresh-on-miss, key material construction, and signature/claims
//! validation. The network fetch itself is the surrounding transport's work:
//! a verification runs as a bounded exchange of steps, each either final or a
//! request for one fetch, whose result the caller hands back.

use vstd::prelude::*;

use crate::error::{Error, JwtFailure};
use crate::keys::{
    build_verification_key, find_index, key_matches, lemma_find_index_props, rsa_components_valid,
    KeyAlgorithm, KeyRecord, KeySet, VerificationKey,
};
use crate::policy::{Claims, TokenAlgorithm, TokenData, ValidationPolicy, VerifiedToken};
use crate::urls::{jwks_well_known_url, jwks_well_known_url_spec};

verus! {

/// What the header parse yields on a token: `None` when the header segment is
/// unparsable, else the `kid` the header declares, if any.
pub uninterp spec fn parsed_header(token: Seq<char>) -> Option<Option<Seq<char>>>;

/// Relies on jsonwebtoken::decode_header: whether the token's header segment
/// parses, and the `kid` it carries, depend on the token text alone. No
/// signature is checked here; the result only selects which key to fetch.
#[verifier::external_body]
fn decode_header_kid(token: &str) -> (r: Result<Option<String>, ()>)
    ensures
        match r {
            Ok(kid) => parsed_header(token@) == Some(kid.deep_view()),
            Err(_) => parsed_header(token@) is None,
        },
{
    match jsonwebtoken::decode_header(token) {
        Ok(h) => Ok(h.kid),
        Err(_) => Err(()),
    }
}

/// Whether the token is a well-formed compact JWT whose signature verifies,
/// under the algorithm its own header declares, against the RSA key published
/// as (n, e). A fixed function of the three strings.
pub uninterp spec fn rsa_signature_ok(token: Seq<char>, n: Seq<char>, e: Seq<char>) -> bool;

/// The RSA-family algorithm the token's header declares, mapped into the
/// library's enum; `None` when the header does not parse or declares an
/// algorithm outside the RSA family. Relies on jsonwebtoken's header
/// decoding; a fixed function of the token text.
pub uninterp spec fn token_rsa_algorithm(token: Seq<char>) -> Option<TokenAlgorithm>;

/// The outcome of clock-free validation: what jsonwebtoken's decode returns
/// for the token under the RSA key (n, e) and these policy choices whenever
/// the expiration check is off — no clock is read then, and the reported
/// failure kind drops the claim names, so the outcome is a fixed function of
/// these arguments alone.
pub uninterp spec fn timeless_decode(
    token: Seq<char>,
    n: Seq<char>,
    e: Seq<char>,
    algs: Seq<TokenAlgorithm>,
    check_aud: bool,
    aud: Option<Seq<char>>,
    iss: Option<Seq<char>>,
    required: Seq<Seq<char>>,
) -> Result<(), JwtFailure>;

/// `timeless_decode` applied to a policy's own fields.
pub open spec fn timeless_outcome(
    token: Seq<char>,
    n: Seq<char>,
    e: Seq<char>,
    policy: ValidationPolicy,
) -> Result<(), JwtFailure> {
    timeless_decode(
        token,
        n,
        e,
        policy.algorithms@,
        policy.check_audience,
        policy.audience.deep_view(),
        policy.issuer.deep_view(),
        policy.required_claims.deep_view(),
    )
}

#[verifier::external_type_specification]
#[verifier::external_body]
pub struct ExErrorKind(jsonwebtoken::errors::ErrorKind);

#[verifier::external_type_specification]
#[verifier::external_body]
pub struct ExValidation(jsonwebtoken::Validation);

/// Builds jsonwebtoken's Validation from the policy; converts field for
/// field, feeding the trusted decode call below.
#[verifier::external_body]
fn validation_of_policy(policy: &ValidationPolicy) -> jsonwebtoken::Validation {
    let mut v = jsonwebtoken::Validation::new(jsonwebtoken::Algorithm::RS256);
    v.algorithms = policy.algorithms.iter().map(|a| match a {
        crate::policy::TokenAlgorithm::Rs256 => jsonwebtoken::Algorithm::RS256,
        crate::policy::TokenAlgorithm::Rs384 => jsonwebtoken::Algorithm::RS384,
        crate::policy::TokenAlgorithm::Rs512 => jsonwebtoken::Algorithm::RS512,
    }).collect();
    v.validate_exp = policy.check_expiration;
    v.validate_aud = policy.check_audience;
    v.aud = policy.audience.as_ref().map(|a| [a.clone()].into_iter().collect());
    v.iss = policy.issuer.as_ref().map(|i| [i.clone()].into_iter().collect());
    v.required_spec_claims = policy.required_claims.iter().cloned().collect();
    v
}

/// Maps jsonwebtoken's error kinds onto the library's failure reasons, one
/// arm each, feeding the trusted decode call below.
#[verifier::external_body]
fn jwt_failure_of(kind: jsonwebtoken::errors::ErrorKind) -> JwtFailure {
    match kind {
        jsonwebtoken::errors::ErrorKind::InvalidToken => JwtFailure::InvalidToken,
        jsonwebtoken::errors::ErrorKind::InvalidSignature => JwtFailure::InvalidSignature,
        jsonwebtoken::errors::ErrorKind::MissingRequiredClaim(_) => JwtFailure::MissingRequiredClaim,
        jsonwebtoken::errors::ErrorKind::ExpiredSignature => JwtFailure::ExpiredSignature,
        jsonwebtoken::errors::ErrorKind::InvalidIssuer => JwtFailure::InvalidIssuer,
        jsonwebtoken::errors::ErrorKind::InvalidAudience => JwtFailure::InvalidAudience,
        jsonwebtoken::errors::ErrorKind::InvalidSubject => JwtFailure::InvalidSubject,
        jsonwebtoken::errors::ErrorKind::ImmatureSignature => JwtFailure::ImmatureSignature,
        jsonwebtoken::errors::ErrorKind::InvalidAlgorithm => JwtFailure::InvalidAlgorithm,
        jsonwebtoken::errors::ErrorKind::MissingAlgorithm => JwtFailure::MissingAlgorithm,
        _ => JwtFailure::Other,
    }
}

/// Relies on jsonwebtoken::decode: it returns Ok only after the signature
/// verified under the key (n, e) with the header's algorithm in the policy's
/// allow-list; it reports InvalidSignature exactly when the cryptographic
/// check itself fails; an expiration, audience or issuer failure is only
/// reported when the policy asks for that check; a missing required claim is
/// only reported when the policy names one. When the expiration check is off
/// no clock is read, and the outcome — success owed included — is the named
/// function `timeless_decode` of the token, key and policy alone; with the
/// check on, the clock decides and no clause fixes the outcome.
#[verifier::external_body]
fn decode_with_key(token: &str, key: &VerificationKey, policy: &ValidationPolicy) -> (r: Result<TokenData, JwtFailure>)
    requires
        key.wf(),
    ensures
        r is Ok ==> rsa_signature_ok(token@, key.n@, key.e@),
        r is Ok ==> (token_rsa_algorithm(token@) matches Some(a) && policy.algorithms@.contains(
            a,
        )),
        (r matches Err(f) && f == JwtFailure::InvalidSignature) ==> !rsa_signature_ok(
            token@,
            key.n@,
            key.e@,
        ),
        (r matches Err(f) && f == JwtFailure::ExpiredSignature) ==> policy.check_expiration,
        (r matches Err(f) && f == JwtFailure::InvalidAudience) ==> policy.check_audience,
        (r matches Err(f) && f == JwtFailure::InvalidIssuer) ==> policy.issuer is Some,
        (r matches Err(f) && f == JwtFailure::MissingRequiredClaim)
            ==> policy.required_claims@.len() > 0,
        (r is Ok && !policy.check_expiration) ==> timeless_decode(
            token@,
            key.n@,
            key.e@,
            policy.algorithms@,
            policy.check_audience,
            policy.audience.deep_view(),
            policy.issuer.deep_view(),
            policy.required_claims.deep_view(),
        ) is Ok,
        r matches Err(f) ==> (policy.check_expiration || (timeless_decode(
            token@,
            key.n@,
            key.e@,
            policy.algorithms@,
            policy.check_audience,
            policy.audience.deep_view(),
            policy.issuer.deep_view(),
            policy.required_claims.deep_view(),
        ) matches Err(g) && g == f)),
{
    let dk = match jsonwebtoken::DecodingKey::from_rsa_components(key.n.as_str(), key.e.as_str()) {
        Ok(k) => k,
        Err(_) => return Err(JwtFailure::Other),
    };
    let v = validation_of_policy(policy);
    match jsonwebtoken::decode::<serde_json::Value>(token, &dk, &v) {
        Ok(_) => Ok(TokenData { claims: Claims {} }),
        Err(e) => Err(jwt_failure_of(e.into_kind())),
    }
}

/// What may be reported as the wrapped reason of a "token invalid" failure for
/// this token, key and policy.
pub open spec fn jwt_failure_plausible(
    f: JwtFailure,
    token: Seq<char>,
    n: Seq<char>,
    e: Seq<char>,
    policy: ValidationPolicy,
) -> bool {
    &&& (f == JwtFailure::InvalidSignature ==> !rsa_signature_ok(token, n, e))
    &&& (f == JwtFailure::ExpiredSignature ==> policy.check_expiration)
    &&& (f == JwtFailure::InvalidAudience ==> policy.check_audience)
    &&& (f == JwtFailure::InvalidIssuer ==> policy.issuer is Some)
    &&& (f == JwtFailure::MissingRequiredClaim ==> policy.required_claims@.len() > 0)
}

/// What a completed verification against a resolved record guarantees:
/// an unsupported family or unusable components is invalid key material; a
/// success carries a signature verified under that record's components, an
/// allow-listed algorithm, and the very set the record came from; any other
/// failure is a "token invalid" with a plausible reason; and with the
/// expiration check off the outcome equals clock-free validation's — success
/// owed, failure kind pinned.
pub open spec fn completion_post(
    res: Result<VerifiedToken, Error>,
    token: Seq<char>,
    record: KeyRecord,
    keys: Seq<KeyRecord>,
    policy: ValidationPolicy,
) -> bool {
    match record.algorithm {
        KeyAlgorithm::Unsupported => res == Err::<VerifiedToken, Error>(Error::InvalidJwk),
        KeyAlgorithm::Rsa { n, e } => {
            &&& (!rsa_components_valid(n@, e@) ==> res == Err::<VerifiedToken, Error>(
                Error::InvalidJwk,
            ))
            &&& (res matches Ok(v) ==> rsa_components_valid(n@, e@) && rsa_signature_ok(
                token,
                n@,
                e@,
            ) && (token_rsa_algorithm(token) matches Some(a) && policy.algorithms@.contains(a))
                && v.key_set@ == keys)
            &&& (rsa_components_valid(n@, e@) ==> match res {
                Ok(v) => v.key_set@ == keys,
                Err(err) => err matches Error::InvalidJwt(f) && jwt_failure_plausible(
                    f,
                    token,
                    n@,
                    e@,
                    policy,
                ),
            })
            &&& ((rsa_components_valid(n@, e@) && !policy.check_expiration) ==> match res {
                Ok(_) => timeless_outcome(token, n@, e@, policy) is Ok,
                Err(err) => (err matches Error::InvalidJwt(f) && timeless_outcome(token, n@, e@, policy)
                    == Err::<(), JwtFailure>(f)),
            })
        },
    }
}

/// Builds key material from the resolved record and validates the token
/// against it; no alternate key is ever tried.
pub fn complete_verification(
    token: &str,
    record: &KeyRecord,
    keys: KeySet,
    policy: &ValidationPolicy,
) -> (r: Result<VerifiedToken, Error>)
    ensures
        completion_post(r, token@, *record, keys@, *policy),
{
    match build_verification_key(record) {
        Err(e) => Err(e),
        Ok(key) => match decode_with_key(token, &key, policy) {
            Ok(data) => Ok(VerifiedToken { data, key_set: keys }),
            Err(f) => Err(Error::InvalidJwt(f)),
        },
    }
}

/// Which fetch a pending verification is waiting on.
#[derive(Debug, Clone, Copy, PartialEq, Eq, Structural)]
pub enum FetchStage {
    /// No key set was supplied: the first fetch of the well-known document.
    InitialSet,
    /// The single refresh after a lookup miss.
    RefreshOnMiss,
}

/// A request for one key-set fetch, handed to the surrounding transport; the
/// fetched set comes back through `resume_verification`.
#[derive(Debug)]
pub struct FetchRequest {
    pub url: String,
    pub kid: String,
    pub stage: FetchStage,
}

/// One step of a verification: final, or waiting on exactly one fetch.
#[derive(Debug)]
pub enum VerifyStep {
    Done(Result<VerifiedToken, Error>),
    Fetch(FetchRequest),
}

/// The decision a step takes, over the mathematical model of its inputs.
pub enum ResolutionStep {
    /// The header segment is unparsable: malformed token, no network work.
    Malformed,
    /// The header carries no `kid`: rejected before any network work.
    NoKid,
    /// The first matching record of `keys` is used; the set is unchanged.
    Hit { index: int, keys: Seq<KeyRecord> },
    /// No set in hand: fetch the well-known document first.
    FetchInitial { url: Seq<char>, kid: Seq<char> },
    /// Lookup missed: the single refresh fetch.
    FetchRefresh { url: Seq<char>, kid: Seq<char> },
    /// Still no match after the refresh: terminal, no further retry.
    NotFound,
}

pub open spec fn cached_view(cached: Option<&KeySet>) -> Option<Seq<KeyRecord>> {
    match cached {
        Some(s) => Some(s@),
        None => None,
    }
}

/// The decision of the opening step.
pub open spec fn begin_step(
    token: Seq<char>,
    authority: Seq<char>,
    cached: Option<Seq<KeyRecord>>,
) -> ResolutionStep {
    match parsed_header(token) {
        None => ResolutionStep::Malformed,
        Some(kid_opt) => match kid_opt {
            None => ResolutionStep::NoKid,
            Some(kid) => match cached {
                None => ResolutionStep::FetchInitial {
                    url: jwks_well_known_url_spec(authority),
                    kid,
                },
                Some(keys) => match find_index(keys, kid) {
                    Some(i) => ResolutionStep::Hit { index: i, keys },
                    None => ResolutionStep::FetchRefresh {
                        url: jwks_well_known_url_spec(authority),
                        kid,
                    },
                },
            },
        },
    }
}

/// The decision of a step resumed with a fetched set.
pub open spec fn resume_step(
    kid: Seq<char>,
    authority: Seq<char>,
    stage: FetchStage,
    fetched: Seq<KeyRecord>,
) -> ResolutionStep {
    match find_index(fetched, kid) {
        Some(i) => ResolutionStep::Hit { index: i, keys: fetched },
        None => match stage {
            FetchStage::InitialSet => ResolutionStep::FetchRefresh {
                url: jwks_well_known_url_spec(authority),
                kid,
            },
            FetchStage::RefreshOnMiss => ResolutionStep::NotFound,
        },
    }
}

/// How an executable step realizes its model's decision.
pub open spec fn step_matches(
    r: VerifyStep,
    model: ResolutionStep,
    token: Seq<char>,
    policy: ValidationPolicy,
) -> bool {
    match model {
        ResolutionStep::Malformed => r == VerifyStep::Done(
            Err::<VerifiedToken, Error>(Error::MalformedToken),
        ),
        ResolutionStep::NoKid => r == VerifyStep::Done(
            Err::<VerifiedToken, Error>(Error::JwtMissingKid),
        ),
        ResolutionStep::NotFound => r == VerifyStep::Done(
            Err::<VerifiedToken, Error>(Error::JwtMissingKid),
        ),
        ResolutionStep::Hit { index, keys } => r matches VerifyStep::Done(res) && completion_post(
            res,
            token,
            keys[index],
            keys,
            policy,
        ),
        ResolutionStep::FetchInitial { url, kid } => r matches VerifyStep::Fetch(q) && q.url@ == url
            && q.kid@ == kid && q.stage == FetchStage::InitialSet,
        ResolutionStep::FetchRefresh { url, kid } => r matches VerifyStep::Fetch(q) && q.url@ == url
            && q.kid@ == kid && q.stage == FetchStage::RefreshOnMiss,
    }
}

/// Opens a verification: parses the header, extracts the `kid`, and either
/// completes against the caller's cached set or requests the one fetch the
/// algorithm allows at this point.
pub fn begin_verification(
    token: &str,
    authority: &str,
    policy: &ValidationPolicy,
    cached: Option<&KeySet>,
) -> (r: VerifyStep)
    ensures
        step_matches(r, begin_step(token@, authority@, cached_view(cached)), token@, *policy),
{
    let kid_opt = match decode_header_kid(token) {
        Err(_) => {
            return VerifyStep::Done(Err(Error::MalformedToken));
        },
        Ok(k) => k,
    };
    let kid = match kid_opt {
        None => {
            return VerifyStep::Done(Err(Error::JwtMissingKid));
        },
        Some(k) => k,
    };
    match cached {
        None => VerifyStep::Fetch(
            FetchRequest { url: jwks_well_known_url(authority), kid, stage: FetchStage::InitialSet },
        ),
        Some(set) => match set.find(&kid) {
            Some(i) => {
                proof {
                    lemma_find_index_props(set@, kid@);
                }
                let record = set.keys[i].clone();
                let keys = set.clone();
                VerifyStep::Done(complete_verification(token, &record, keys, policy))
            },
            None => VerifyStep::Fetch(
                FetchRequest {
                    url: jwks_well_known_url(authority),
                    kid,
                    stage: FetchStage::RefreshOnMiss,
                },
            ),
        },
    }
}

/// Resumes a verification with the set a requested fetch produced: completes
/// on a match, requests the single refresh after an initial-set miss, and is
/// terminal after a refresh miss.
pub fn resume_verification(
    token: &str,
    authority: &str,
    policy: &ValidationPolicy,
    request: FetchRequest,
    fetched: KeySet,
) -> (r: VerifyStep)
    ensures
        step_matches(
            r,
            resume_step(request.kid@, authority@, request.stage, fetched@),
            token@,
            *policy,
        ),
{
    match fetched.find(&request.kid) {
        Some(i) => {
            proof {
                lemma_find_index_props(fetched@, request.kid@);
            }
            let record = fetched.keys[i].clone();
            VerifyStep::Done(complete_verification(token, &record, fetched, policy))
        },
        None => match request.stage {
            FetchStage::InitialSet => VerifyStep::Fetch(
                FetchRequest {
                    url: jwks_well_known_url(authority),
                    kid: request.kid,
                    stage: FetchStage::RefreshOnMiss,
                },
            ),
            FetchStage::RefreshOnMiss => VerifyStep::Done(Err(Error::JwtMissingKid)),
        },
    }
}

/// A token whose header carries no `kid` is rejected outright: the opening
/// step is final, with "missing key identifier", and requests no fetch.
pub proof fn lemma_no_kid_is_rejected_without_fetch(
    token: Seq<char>,
    authority: Seq<char>,
    cached: Option<Seq<KeyRecord>>,
)
    requires
        parsed_header(token) == Some(None::<Seq<char>>),
    ensures
        begin_step(token, authority, cached) == ResolutionStep::NoKid,
{
}

/// Resolving a `kid` present in the caller's set completes without any fetch:
/// the opening step uses the first matching record of that very set,
/// unchanged. Fetching a set and then resolving a `kid` known to be in it
/// therefore returns its record with no further network work.
pub proof fn lemma_cached_hit_resolves_without_fetch(
    token: Seq<char>,
    authority: Seq<char>,
    keys: Seq<KeyRecord>,
    kid: Seq<char>,
)
    requires
        parsed_header(token) == Some(Some(kid)),
        crate::keys::has_key(keys, kid),
    ensures
        begin_step(token, authority, Some(keys)) matches ResolutionStep::Hit {
            index,
            keys: used,
        } && used == keys && 0 <= index < keys.len() && key_matches(keys[index], kid) && (forall|
            j: int,
        |
            0 <= j < index ==> !key_matches(keys[j], kid)),
{
    crate::keys::lemma_find_index_some_iff_has_key(keys, kid);
    lemma_find_index_props(keys, kid);
}

/// A `kid` missing from the caller's set triggers exactly one refresh fetch,
/// of the authority's canonical well-known document; when the fresh set
/// carries the `kid`, the resumed step completes on that fetch's result,
/// with its first matching record.
pub proof fn lemma_refresh_on_miss_heals(
    token: Seq<char>,
    authority: Seq<char>,
    cached: Seq<KeyRecord>,
    fresh: Seq<KeyRecord>,
    kid: Seq<char>,
)
    requires
        parsed_header(token) == Some(Some(kid)),
        !crate::keys::has_key(cached, kid),
        crate::keys::has_key(fresh, kid),
    ensures
        begin_step(token, authority, Some(cached)) == (ResolutionStep::FetchRefresh {
            url: jwks_well_known_url_spec(authority),
            kid,
        }),
        resume_step(kid, authority, FetchStage::RefreshOnMiss, fresh)
            matches ResolutionStep::Hit { index, keys } && keys == fresh && 0 <= index
            < fresh.len() && key_matches(fresh[index], kid),
{
    crate::keys::lemma_find_index_some_iff_has_key(cached, kid);
    crate::keys::lemma_find_index_some_iff_has_key(fresh, kid);
    lemma_find_index_props(fresh, kid);
}

/// A `kid` absent from the caller's set and from the freshly fetched one is
/// terminal after that single refresh: the resumed step is final, with
/// "missing key identifier", and requests no further fetch.
pub proof fn lemma_refresh_miss_is_terminal(
    token: Seq<char>,
    authority: Seq<char>,
    cached: Seq<KeyRecord>,
    fresh: Seq<KeyRecord>,
    kid: Seq<char>,
)
    requires
        parsed_header(token) == Some(Some(kid)),
        !crate::keys::has_key(cached, kid),
        !crate::keys::has_key(fresh, kid),
    ensures
        begin_step(token, authority, Some(cached)) == (ResolutionStep::FetchRefresh {
            url: jwks_well_known_url_spec(authority),
            kid,
        }),
        resume_step(kid, authority, FetchStage::RefreshOnMiss, fresh) == ResolutionStep::NotFound,
{
    crate::keys::lemma_find_index_some_iff_has_key(cached, kid);
    crate::keys::lemma_find_index_some_iff_has_key(fresh, kid);
}

/// A key record of an unsupported algorithm family always completes as
/// "invalid key material", whatever its `kid` and whatever the policy.
pub proof fn lemma_unsupported_family_is_rejected(
    res: Result<VerifiedToken, Error>,
    token: Seq<char>,
    record: KeyRecord,
    keys: Seq<KeyRecord>,
    policy: ValidationPolicy,
)
    requires
        completion_post(res, token, record, keys, policy),
        record.algorithm is Unsupported,
    ensures
        res == Err::<VerifiedToken, Error>(Error::InvalidJwk),
{
}

/// The exchange is bounded: a step resumed with the refresh fetch's result is
/// final, whatever that fetch produced. One verification therefore performs
/// at most two fetches: the initial one when no set was supplied, and the
/// single refresh-on-miss.
pub proof fn lemma_refresh_resume_is_final(
    kid: Seq<char>,
    authority: Seq<char>,
    fetched: Seq<KeyRecord>,
)
    ensures
        !(resume_step(kid, authority, FetchStage::RefreshOnMiss, fetched)
            matches ResolutionStep::FetchInitial { .. }),
        !(resume_step(kid, authority, FetchStage::RefreshOnMiss, fetched)
            matches ResolutionStep::FetchRefresh { .. }),
{
}

/// With the expiration check off, verification against a resolved RSA record
/// with usable components succeeds exactly when clock-free validation accepts
/// the token: success is owed, not merely permitted, and the set handed back
/// is the one the record came from.
pub proof fn lemma_success_owed_without_expiration_check(
    res: Result<VerifiedToken, Error>,
    token: Seq<char>,
    record: KeyRecord,
    keys: Seq<KeyRecord>,
    policy: ValidationPolicy,
)
    requires
        completion_post(res, token, record, keys, policy),
        !policy.check_expiration,
        record.algorithm matches KeyAlgorithm::Rsa { n, e } && rsa_components_valid(n@, e@)
            && timeless_outcome(token, n@, e@, policy) is Ok,
    ensures
        res matches Ok(v) && v.key_set@ == keys,
{
}

/// The security invariant, on the resume path: a verification resumed with a
/// fetched set can only succeed when some record of that set carries the
/// requested `kid` with RSA components under which the token's signature
/// verifies, the token's declared algorithm is in the policy's allow-list,
/// and the set handed back is the fetched one.
pub proof fn lemma_resume_success_requires_matching_key(
    v: VerifiedToken,
    token: Seq<char>,
    kid: Seq<char>,
    authority: Seq<char>,
    stage: FetchStage,
    fetched: Seq<KeyRecord>,
    policy: ValidationPolicy,
)
    requires
        step_matches(
            VerifyStep::Done(Ok(v)),
            resume_step(kid, authority, stage, fetched),
            token,
            policy,
        ),
    ensures
        exists|i: int|
            0 <= i < fetched.len() && #[trigger] key_matches(fetched[i], kid)
                && match fetched[i].algorithm {
                KeyAlgorithm::Rsa { n, e } => rsa_signature_ok(token, n@, e@),
                KeyAlgorithm::Unsupported => false,
            },
        token_rsa_algorithm(token) matches Some(a) && policy.algorithms@.contains(a),
        v.key_set@ == fetched,
{
    match resume_step(kid, authority, stage, fetched) {
        ResolutionStep::Hit { index, keys } => {
            lemma_find_index_props(fetched, kid);
            assert(completion_post(Ok(v), token, fetched[index], fetched, policy));
            match fetched[index].algorithm {
                KeyAlgorithm::Rsa { n, e } => {
                    assert(rsa_signature_ok(token, n@, e@));
                },
                KeyAlgorithm::Unsupported => {
                    assert(false);
                },
            }
        },
        _ => {
            assert(false);
        },
    }
}

/// The security invariant: a verification that opened on the caller's set can
/// only succeed when the token's header declares a `kid`, some record of that
/// set carries the same `kid` with RSA components under which the token's
/// signature verifies, the token's declared algorithm is in the policy's
/// allow-list, and the returned set is the one that was searched.
pub proof fn lemma_success_requires_matching_key(
    v: VerifiedToken,
    token: Seq<char>,
    authority: Seq<char>,
    keys: Seq<KeyRecord>,
    policy: ValidationPolicy,
)
    requires
        step_matches(
            VerifyStep::Done(Ok(v)),
            begin_step(token, authority, Some(keys)),
            token,
            policy,
        ),
    ensures
        parsed_header(token) matches Some(kid_opt) && kid_opt matches Some(kid) && (exists|i: int|
            0 <= i < keys.len() && #[trigger] key_matches(keys[i], kid) && match keys[i].algorithm {
                KeyAlgorithm::Rsa { n, e } => rsa_signature_ok(token, n@, e@),
                KeyAlgorithm::Unsupported => false,
            }),
        token_rsa_algorithm(token) matches Some(a) && policy.algorithms@.contains(a),
        v.key_set@ == keys,
{
    match begin_step(token, authority, Some(keys)) {
        ResolutionStep::Hit { index, keys: used } => {
            lemma_find_index_props(keys, match parsed_header(token) {
                Some(Some(kid)) => kid,
                _ => Seq::empty(),
            });
            assert(completion_post(Ok(v), token, keys[index], keys, policy));
            match keys[index].algorithm {
                KeyAlgorithm::Rsa { n, e } => {
                    assert(rsa_signature_ok(token, n@, e@));
                },
                KeyAlgorithm::Unsupported => {
                    assert(false);
                },
            }
        },
        _ => {
            assert(false);
        },
    }
}

} // verus!

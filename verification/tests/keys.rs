use auth0_client::error::Error;
use auth0_client::keys::{
    build_verification_key, parse_jwk_set, KeyAlgorithm, KeyRecord, KeySet,
};
use auth0_client::urls::{jwks_well_known_url, normalize_url};

#[test]
fn normalize_collapses_doubled_slashes_after_the_scheme() {
    assert_eq!(normalize_url("https://a.example.com//path"), "https://a.example.com/path");
    assert_eq!(normalize_url("https://a.example.com/path"), "https://a.example.com/path");
    assert_eq!(normalize_url("http://host//x//y"), "http://host/x/y");
    assert_eq!(normalize_url(""), "");
}

#[test]
fn well_known_url_is_joined_and_normalized() {
    assert_eq!(
        jwks_well_known_url("https://a.example.com"),
        "https://a.example.com/.well-known/jwks.json"
    );
    assert_eq!(
        jwks_well_known_url("https://a.example.com/"),
        "https://a.example.com/.well-known/jwks.json"
    );
}

#[test]
fn jwk_set_parses_rsa_and_tags_other_families_unsupported() {
    let body = "{\"keys\":[\
        {\"kid\":\"rsa-key\",\"kty\":\"RSA\",\"n\":\"AQAB\",\"e\":\"AQAB\"},\
        {\"kid\":\"sym-key\",\"kty\":\"oct\",\"k\":\"c2VjcmV0\"}\
    ]}";
    let set = parse_jwk_set(body).unwrap();
    assert_eq!(set.keys.len(), 2);
    assert_eq!(set.keys[0].kid.as_deref(), Some("rsa-key"));
    assert!(matches!(&set.keys[0].algorithm, KeyAlgorithm::Rsa { .. }));
    assert_eq!(set.keys[1].kid.as_deref(), Some("sym-key"));
    assert!(matches!(&set.keys[1].algorithm, KeyAlgorithm::Unsupported));
}

#[test]
fn jwk_set_parse_rejects_garbage() {
    assert!(matches!(parse_jwk_set("not json"), Err(Error::MalformedResponse)));
    assert!(matches!(parse_jwk_set("{\"kys\":[]}"), Err(Error::MalformedResponse)));
}

#[test]
fn find_returns_first_match_and_skips_records_without_kid() {
    let set = KeySet {
        keys: vec![
            KeyRecord { kid: None, algorithm: KeyAlgorithm::Unsupported },
            KeyRecord { kid: Some(String::from("a")), algorithm: KeyAlgorithm::Unsupported },
            KeyRecord { kid: Some(String::from("a")), algorithm: KeyAlgorithm::Unsupported },
        ],
    };
    assert_eq!(set.find(&String::from("a")), Some(1));
    assert_eq!(set.find(&String::from("b")), None);
}

#[test]
fn verification_key_built_from_valid_rsa_components() {
    let record = KeyRecord {
        kid: Some(String::from("k")),
        algorithm: KeyAlgorithm::Rsa { n: String::from("AQAB"), e: String::from("AQAB") },
    };
    let key = build_verification_key(&record).unwrap();
    assert_eq!(key.n, "AQAB");
    assert_eq!(key.e, "AQAB");
}

#[test]
fn unsupported_family_yields_invalid_key_material() {
    let record = KeyRecord { kid: Some(String::from("k")), algorithm: KeyAlgorithm::Unsupported };
    assert!(matches!(build_verification_key(&record), Err(Error::InvalidJwk)));
}

#[test]
fn malformed_rsa_components_yield_invalid_key_material() {
    let record = KeyRecord {
        kid: Some(String::from("k")),
        algorithm: KeyAlgorithm::Rsa {
            n: String::from("not base64url!!"),
            e: String::from("AQAB"),
        },
    };
    assert!(matches!(build_verification_key(&record), Err(Error::InvalidJwk)));
}

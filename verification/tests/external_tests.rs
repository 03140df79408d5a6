use scrippt::errors::CoreError;
use scrippt::external::{
    extract_google_claims, external_decode_step, token_kid, validate_external_claims,
    ExternalDecodeStep, GoogleAuthClaims,
};
use scrippt::keyset::{
    apply_fetch, find_key, needs_refresh, parse_max_age, JwkKey, KeySetCache,
};

fn demo_claims() -> GoogleAuthClaims {
    GoogleAuthClaims {
        iss: "accounts.google.com".to_string(),
        nbf: 100,
        aud: "client-1234".to_string(),
        sub: "sub-1".to_string(),
        hd: None,
        email: "u@x.com".to_string(),
        email_verified: true,
        azp: "client-1234".to_string(),
        name: "U".to_string(),
        picture: String::new(),
        given_name: "U".to_string(),
        family_name: "X".to_string(),
        iat: 100,
        exp: 10_000,
        jti: "j1".to_string(),
    }
}

#[test]
fn external_wrong_audience_is_rejected_first() {
    let mut claims = demo_claims();
    claims.aud = "someone-else".to_string();
    // even with an otherwise perfect claim set the audience rules it out
    assert_eq!(
        validate_external_claims(&claims, "client-1234", 200),
        Err(CoreError::InvalidAudience)
    );
    // and the audience verdict comes before the issuer verdict
    claims.iss = "evil.example".to_string();
    assert_eq!(
        validate_external_claims(&claims, "client-1234", 200),
        Err(CoreError::InvalidAudience)
    );
}

#[test]
fn external_issuer_and_expiry_rules() {
    let mut claims = demo_claims();
    assert_eq!(validate_external_claims(&claims, "client-1234", 200), Ok(()));
    claims.iss = "https://accounts.google.com".to_string();
    assert_eq!(validate_external_claims(&claims, "client-1234", 200), Ok(()));
    claims.iss = "accounts.elsewhere.com".to_string();
    assert_eq!(
        validate_external_claims(&claims, "client-1234", 200),
        Err(CoreError::InvalidIssuer)
    );
    claims.iss = "accounts.google.com".to_string();
    assert_eq!(
        validate_external_claims(&claims, "client-1234", 10_000),
        Err(CoreError::Expired)
    );
}

#[test]
fn extract_reads_all_fields_and_rejects_missing_ones() {
    let text = r#"{
        "iss": "accounts.google.com", "nbf": 100, "aud": "client-1234",
        "sub": "sub-1", "hd": "x.com", "email": "u@x.com",
        "email_verified": true, "azp": "client-1234", "name": "U",
        "picture": "p", "given_name": "U", "family_name": "X",
        "iat": 100, "exp": 10000, "jti": "j1"
    }"#;
    let v: serde_json::Value = serde_json::from_str(text).unwrap();
    let claims = extract_google_claims(&v).unwrap();
    assert_eq!(claims.iss, "accounts.google.com");
    assert_eq!(claims.email, "u@x.com");
    assert_eq!(claims.hd.as_deref(), Some("x.com"));
    assert!(claims.email_verified);
    assert_eq!(claims.exp, 10000);

    let missing: serde_json::Value =
        serde_json::from_str(r#"{"iss": "accounts.google.com"}"#).unwrap();
    assert_eq!(extract_google_claims(&missing), Err(CoreError::Malformed));

    let wrong_type: serde_json::Value = serde_json::from_str(
        r#"{
        "iss": "accounts.google.com", "nbf": "not a number", "aud": "client-1234",
        "sub": "sub-1", "email": "u@x.com", "email_verified": true,
        "azp": "client-1234", "name": "U", "picture": "p", "given_name": "U",
        "family_name": "X", "iat": 100, "exp": 10000, "jti": "j1"
    }"#,
    )
    .unwrap();
    assert_eq!(extract_google_claims(&wrong_type), Err(CoreError::Malformed));
}

#[test]
fn cache_freshness_window_is_sharp() {
    let mut cache: Option<KeySetCache> = None;
    assert!(needs_refresh(cache.as_ref(), 0));
    let keys = vec![JwkKey {
        kid: "k1".to_string(),
        n: "abc".to_string(),
        e: "AQAB".to_string(),
    }];
    let t0: u64 = 1_000;
    apply_fetch(&mut cache, keys, 3600, t0);
    assert!(!needs_refresh(cache.as_ref(), t0 + 1800));
    assert!(!needs_refresh(cache.as_ref(), t0 + 3599));
    assert!(needs_refresh(cache.as_ref(), t0 + 3600));
    assert!(needs_refresh(cache.as_ref(), t0 + 3601));
}

#[test]
fn find_key_matches_by_kid() {
    let keys = vec![
        JwkKey { kid: "k1".to_string(), n: "n1".to_string(), e: "e1".to_string() },
        JwkKey { kid: "k2".to_string(), n: "n2".to_string(), e: "e2".to_string() },
    ];
    assert_eq!(find_key(&keys, "k2").map(|k| k.n.as_str()), Some("n2"));
    assert!(find_key(&keys, "k3").is_none());
}

fn token_with_kid(kid: &str) -> String {
    let mut header = jsonwebtoken::Header::default();
    header.kid = Some(kid.to_string());
    let mut payload = serde_json::Map::new();
    payload.insert("sub".to_string(), "x".to_string().into());
    jsonwebtoken::encode(
        &header,
        &serde_json::Value::Object(payload),
        &jsonwebtoken::EncodingKey::from_secret(b"k"),
    )
    .unwrap()
}

#[test]
fn token_kid_reads_the_header() {
    let token = token_with_kid("key-7");
    assert_eq!(token_kid(&token).as_deref(), Some("key-7"));
    assert_eq!(token_kid("garbage"), None);
}

#[test]
fn unknown_key_triggers_one_refresh_then_fails() {
    let token = token_with_kid("rotated-away");
    let cache = Some(KeySetCache {
        keys: vec![JwkKey { kid: "k1".to_string(), n: "n".to_string(), e: "e".to_string() }],
        max_age: 3600,
        fetched_at: 1_000,
    });
    // fresh cache, key absent, not yet refreshed: ask for one refresh
    let step = external_decode_step(cache.as_ref(), false, &token, "client-1234", 1_100);
    assert_eq!(step, ExternalDecodeStep::Refresh);
    // after the one refresh the missing key is final
    let step = external_decode_step(cache.as_ref(), true, &token, "client-1234", 1_100);
    assert_eq!(step, ExternalDecodeStep::Done(Err(CoreError::UnknownKey)));
}

#[test]
fn stale_cache_asks_for_a_fetch_first() {
    let token = token_with_kid("k1");
    let cache = Some(KeySetCache {
        keys: vec![JwkKey { kid: "k1".to_string(), n: "n".to_string(), e: "e".to_string() }],
        max_age: 60,
        fetched_at: 0,
    });
    let step = external_decode_step(cache.as_ref(), false, &token, "client-1234", 10_000);
    assert_eq!(step, ExternalDecodeStep::Refresh);
    // an empty cache that a refresh could not fill is upstream trouble
    let step = external_decode_step(None, true, &token, "client-1234", 10_000);
    assert_eq!(step, ExternalDecodeStep::Done(Err(CoreError::UpstreamFailure)));
}

#[test]
fn unusable_key_components_are_upstream_failure() {
    let token = token_with_kid("k1");
    let cache = Some(KeySetCache {
        keys: vec![JwkKey {
            kid: "k1".to_string(),
            n: "!!not base64url!!".to_string(),
            e: "??".to_string(),
        }],
        max_age: 3600,
        fetched_at: 1_000,
    });
    let step = external_decode_step(cache.as_ref(), false, &token, "client-1234", 1_100);
    assert_eq!(step, ExternalDecodeStep::Done(Err(CoreError::UpstreamFailure)));
}

#[test]
fn malformed_token_header_is_rejected() {
    let cache = Some(KeySetCache {
        keys: Vec::new(),
        max_age: 3600,
        fetched_at: 1_000,
    });
    let step = external_decode_step(cache.as_ref(), false, "???", "client-1234", 1_100);
    assert_eq!(step, ExternalDecodeStep::Done(Err(CoreError::Malformed)));
}

#[test]
fn parse_max_age_reads_the_directive() {
    assert_eq!(parse_max_age("max-age=3600"), Some(3600));
    assert_eq!(
        parse_max_age("public, max-age=22903, must-revalidate, no-transform"),
        Some(22903)
    );
    assert_eq!(parse_max_age("  max-age=5  , public"), Some(5));
    assert_eq!(parse_max_age("max-age=0"), Some(0));
    assert_eq!(parse_max_age("public, no-cache"), None);
    assert_eq!(parse_max_age("max-age=abc"), None);
    assert_eq!(parse_max_age("max-age="), None);
    assert_eq!(parse_max_age(""), None);
    // 2^64 does not fit
    assert_eq!(parse_max_age("max-age=18446744073709551616"), None);
    assert_eq!(parse_max_age("max-age=18446744073709551615"), Some(u64::MAX));
}

use scrippt::errors::CoreError;
use scrippt::token::{decode_jwt, encode_jwt, issue, verify, TOKEN_LIFETIME_SECONDS};

const SECRET: &str = "a-very-well-kept-demo-secret";

#[test]
fn token_round_trip_preserves_claims() {
    let now: u64 = 1_700_000_000;
    let (claims, token) = issue(
        "scrippt".to_string(),
        "42".to_string(),
        "example.com".to_string(),
        SECRET,
        now,
    );
    assert_eq!(claims.iss, "scrippt");
    assert_eq!(claims.sub, "42");
    assert_eq!(claims.aud, "example.com");
    assert_eq!(claims.iat, now);
    assert_eq!(claims.nbf, now);
    assert_eq!(claims.exp, now + TOKEN_LIFETIME_SECONDS);
    assert_eq!(claims.jti.len(), 36);

    let back = verify(&token, SECRET, now + 10).expect("fresh token must verify");
    assert_eq!(back, claims);
}

#[test]
fn token_round_trip_through_encode_decode() {
    let now: u64 = 1_700_000_000;
    let token = encode_jwt(
        "scrippt".to_string(),
        "7".to_string(),
        "example.com".to_string(),
        SECRET,
        now,
    );
    let claims = decode_jwt(token, SECRET, now).expect("fresh token must verify");
    assert_eq!(claims.sub, "7");
    assert_eq!(claims.jti.len(), 36);
}

#[test]
fn token_expiry_is_rejected() {
    let now: u64 = 1_700_000_000;
    let (_, token) = issue(
        "scrippt".to_string(),
        "42".to_string(),
        "example.com".to_string(),
        SECRET,
        now,
    );
    let late = now + TOKEN_LIFETIME_SECONDS + 1;
    assert_eq!(verify(&token, SECRET, late), Err(CoreError::Expired));
}

#[test]
fn token_wrong_secret_is_a_signature_error() {
    let now: u64 = 1_700_000_000;
    let (_, token) = issue(
        "scrippt".to_string(),
        "42".to_string(),
        "example.com".to_string(),
        SECRET,
        now,
    );
    assert_eq!(
        verify(&token, "another-secret-entirely-here", now),
        Err(CoreError::InvalidSignature)
    );
}

#[test]
fn token_tampering_any_byte_never_verifies() {
    let now: u64 = 1_700_000_000;
    let (_, token) = issue(
        "scrippt".to_string(),
        "42".to_string(),
        "example.com".to_string(),
        SECRET,
        now,
    );
    let bytes = token.as_bytes();
    for i in 0..bytes.len() {
        let mut flipped = bytes.to_vec();
        // stay inside the token alphabet so the text is still a string
        flipped[i] = if flipped[i] == b'A' { b'B' } else { b'A' };
        if flipped == bytes {
            continue;
        }
        let mutated = String::from_utf8(flipped).unwrap();
        let res = verify(&mutated, SECRET, now);
        assert!(res.is_err(), "flipping byte {} must not verify", i);
    }
}

#[test]
fn token_signature_flip_reports_invalid_signature() {
    let now: u64 = 1_700_000_000;
    let (_, token) = issue(
        "scrippt".to_string(),
        "42".to_string(),
        "example.com".to_string(),
        SECRET,
        now,
    );
    let dot = token.rfind('.').unwrap();
    let mut mutated: Vec<u8> = token.as_bytes().to_vec();
    let last = mutated.len() - 1;
    assert!(last > dot);
    mutated[last] = if mutated[last] == b'A' { b'B' } else { b'A' };
    let mutated = String::from_utf8(mutated).unwrap();
    assert_eq!(verify(&mutated, SECRET, now), Err(CoreError::InvalidSignature));
}

#[test]
fn token_garbage_is_malformed() {
    assert_eq!(
        verify("not-a-token-at-all", SECRET, 0),
        Err(CoreError::Malformed)
    );
}

#[test]
fn token_ids_differ_between_issues() {
    let now: u64 = 1_700_000_000;
    let (a, _) = issue(
        "scrippt".to_string(),
        "42".to_string(),
        "example.com".to_string(),
        SECRET,
        now,
    );
    let (b, _) = issue(
        "scrippt".to_string(),
        "42".to_string(),
        "example.com".to_string(),
        SECRET,
        now,
    );
    assert_ne!(a.jti, b.jti);
}

#[test]
fn token_encoding_is_deterministic() {
    let now: u64 = 1_700_000_000;
    let (claims, token) = issue(
        "scrippt".to_string(),
        "42".to_string(),
        "example.com".to_string(),
        SECRET,
        now,
    );
    // reconstructing the same claims gives the same token, signature and all
    let again = scrippt::token::encode_claims(&claims, SECRET);
    assert_eq!(again, token);
}

use scrippt::auth::{parse_bearer, AuthorizationService};
use scrippt::digits::u64_to_dec;
use scrippt::documents::{
    create_update_document, delete_document, document_exists, Document, DocumentRequest, Rating,
    MAX_DOCUMENTS,
};
use scrippt::errors::CoreError;
use scrippt::generate::{get_profile_data, GenerateResponse};
use scrippt::patch::FieldIdGen;
use scrippt::profile::{Profile, Skills};
use scrippt::token::issue;
use scrippt::types::ErrorResponse;
use scrippt::validate::{
    generate_hash, generate_otp_code, get_expiration_time, validate_signup, verify_hash,
};

#[test]
fn signup_validation_rules() {
    assert_eq!(validate_signup("a@b.com", "longenough"), Ok(()));
    assert_eq!(validate_signup("", "longenough"), Err(CoreError::Malformed));
    assert_eq!(validate_signup("a@b.com", ""), Err(CoreError::Malformed));
    assert_eq!(validate_signup("a@b.com", "short"), Err(CoreError::Malformed));
    assert_eq!(validate_signup("not-an-email", "longenough"), Err(CoreError::Malformed));
    assert_eq!(validate_signup("still@not an email", "longenough"), Err(CoreError::Malformed));
}

#[test]
fn password_hash_round_trip() {
    let hash = generate_hash("hunter2hunter2");
    assert!(hash.starts_with("$argon2"));
    assert!(verify_hash("hunter2hunter2", &hash));
    assert!(!verify_hash("not-the-password", &hash));
    assert!(!verify_hash("hunter2hunter2", "not a hash at all"));
}

#[test]
fn otp_codes_are_six_digits() {
    for _ in 0..50 {
        let code = generate_otp_code();
        assert!((100000..999999).contains(&code));
    }
}

#[test]
fn expiration_time_formula() {
    assert_eq!(get_expiration_time(100, 10), 700);
    assert_eq!(get_expiration_time(0, 0), 0);
}

#[test]
fn decimal_rendering_exact_values() {
    assert_eq!(u64_to_dec(0), "0");
    assert_eq!(u64_to_dec(7), "7");
    assert_eq!(u64_to_dec(10), "10");
    assert_eq!(u64_to_dec(1234567890), "1234567890");
    assert_eq!(u64_to_dec(u64::MAX), "18446744073709551615");
}

#[test]
fn bearer_parsing_and_authorization() {
    let secret = "a-very-well-kept-demo-secret";
    let now: u64 = 1_700_000_000;
    let (claims, token) = issue(
        "scrippt".to_string(),
        "9".to_string(),
        "example.com".to_string(),
        secret,
        now,
    );
    assert_eq!(parse_bearer(&format!("Bearer {}", token)).unwrap(), token);
    assert_eq!(parse_bearer(&format!("  Bearer   {}  ", token)).unwrap(), token);
    assert_eq!(parse_bearer("Token abc"), Err(CoreError::Unauthorized));
    assert_eq!(parse_bearer("Bearer"), Err(CoreError::Unauthorized));
    assert_eq!(parse_bearer(""), Err(CoreError::Unauthorized));

    let auth =
        AuthorizationService::from_request(&format!("Bearer {}", token), secret, now).unwrap();
    assert_eq!(auth.id, claims.sub);
    assert_eq!(
        AuthorizationService::from_request(&format!("Bearer {}", token), "wrong-secret-here", now),
        Err(CoreError::Unauthorized)
    );
    let stale = now + scrippt::token::TOKEN_LIFETIME_SECONDS + 1;
    assert_eq!(
        AuthorizationService::from_request(&format!("Bearer {}", token), secret, stale),
        Err(CoreError::Unauthorized)
    );
}

fn doc_request(field_id: Option<u64>, title: &str, content: &str) -> DocumentRequest {
    DocumentRequest {
        field_id,
        title: title.to_string(),
        prompt: "p".to_string(),
        content: content.to_string(),
        rating: Rating::Unrated,
    }
}

#[test]
fn documents_create_update_and_cap() {
    let mut docs: Vec<Document> = Vec::new();
    let mut gen = FieldIdGen::new();
    create_update_document(&mut docs, &mut gen, doc_request(None, "one", "c1"), 10).unwrap();
    assert_eq!(docs.len(), 1);
    let id = docs[0].field_id.unwrap();
    assert!(document_exists(&docs, id));
    assert_eq!(docs[0].date_created, Some(10));

    // a request naming the stored document updates it in place
    create_update_document(&mut docs, &mut gen, doc_request(Some(id), "one v2", "c2"), 20).unwrap();
    assert_eq!(docs.len(), 1);
    assert_eq!(docs[0].title, "one v2");
    assert_eq!(docs[0].content, "c2");
    assert_eq!(docs[0].prompt, "p");
    assert_eq!(docs[0].field_id, Some(id));
    assert_eq!(docs[0].date_created, Some(10));
    assert_eq!(docs[0].date_updated, Some(20));

    // an unknown field-id falls back to creation
    for i in 0..(MAX_DOCUMENTS - 1) {
        create_update_document(&mut docs, &mut gen, doc_request(None, &format!("d{}", i), "c"), 30)
            .unwrap();
    }
    assert_eq!(docs.len(), MAX_DOCUMENTS);
    let over = create_update_document(&mut docs, &mut gen, doc_request(None, "too many", "c"), 40);
    assert_eq!(over, Err(CoreError::LimitExceeded));
    assert_eq!(docs.len(), MAX_DOCUMENTS);

    assert_eq!(delete_document(&mut docs, id), Ok(()));
    assert!(!document_exists(&docs, id));
    assert_eq!(delete_document(&mut docs, id), Err(CoreError::NotFound));
}

#[test]
fn generate_data_selects_by_field_id() {
    let mut profile = Profile::empty(0);
    profile.skills.push(Skills { field_id: Some(1), skill: "keep".to_string() });
    profile.skills.push(Skills { field_id: Some(2), skill: "drop".to_string() });
    profile.skills.push(Skills { field_id: Some(3), skill: "keep too".to_string() });
    let picked = get_profile_data(profile, &vec![1, 3], &Vec::new());
    assert_eq!(picked.skills.len(), 2);
    assert_eq!(picked.skills[0].skill, "keep");
    assert_eq!(picked.skills[1].skill, "keep too");
    assert_eq!(picked.experience.len(), 0);

    let mut profile = Profile::empty(0);
    profile.skills.push(Skills { field_id: Some(1), skill: "a".to_string() });
    profile.skills.push(Skills { field_id: Some(2), skill: "b".to_string() });
    // an empty pick selects the whole collection
    let all = get_profile_data(profile, &Vec::new(), &Vec::new());
    assert_eq!(all.skills.len(), 2);
}

#[test]
fn response_constructors_keep_their_payload() {
    let e = ErrorResponse::new("went wrong".to_string());
    assert_eq!(e.message, "went wrong");
    let g = GenerateResponse::new("text".to_string());
    assert_eq!(g.response, "text");
}

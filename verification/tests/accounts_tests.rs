use scrippt::accounts::AccountStore;
use scrippt::codes::VerificationCodeStore;
use scrippt::errors::CoreError;
use scrippt::patch::{FieldIdGen, ProfilePatch};
use scrippt::profile::{ProfileValue, Skills};
use scrippt::service::{
    authenticate_external_account, create_account, get_verification_code, login_account,
    verify_email,
};
use scrippt::token::verify;
use scrippt::types::{AccountPatch, Config};

fn demo_config() -> Config {
    Config {
        app_name: "scrippt".to_string(),
        domain: "example.com".to_string(),
        jwt_secret: "a-very-well-kept-demo-secret".to_string(),
        google_client_id: "client-1234".to_string(),
    }
}

#[test]
fn end_to_end_signup_flow() {
    let config = demo_config();
    let mut store = AccountStore::new();
    let mut codes = VerificationCodeStore::new();
    let now: u64 = 1_700_000_000;
    let email = "jane@x.com";
    let password = Some("hunter2hunter2".to_string());

    // creation before any code was requested: nothing to verify against
    let r = create_account(
        &mut store,
        &mut codes,
        &config,
        "Jane".to_string(),
        email.to_string(),
        password.clone(),
        now,
    );
    assert_eq!(r, Err(CoreError::NotFound));

    // request a code, then try to create while it is still pending
    let code = get_verification_code(&store, &mut codes, email, now).unwrap();
    assert!((100000..999999).contains(&code));
    let r = create_account(
        &mut store,
        &mut codes,
        &config,
        "Jane".to_string(),
        email.to_string(),
        password.clone(),
        now + 1,
    );
    assert_eq!(r, Err(CoreError::NotVerified));

    // confirm the code, then creation succeeds
    verify_email(&mut codes, email, code, now + 2).unwrap();
    let resp = create_account(
        &mut store,
        &mut codes,
        &config,
        "Jane".to_string(),
        email.to_string(),
        password.clone(),
        now + 3,
    )
    .unwrap();
    let claims = verify(&resp.token, &config.jwt_secret, now + 4).unwrap();
    assert_eq!(claims.sub, resp.id);
    assert_eq!(claims.iss, "scrippt");
    assert_eq!(claims.aud, "example.com");

    // the verification record is gone: it cannot gate a second account
    assert_eq!(
        verify_email(&mut codes, email, code, now + 5),
        Err(CoreError::NotFound)
    );

    // a second creation with the same email conflicts
    let r = create_account(
        &mut store,
        &mut codes,
        &config,
        "Jane Again".to_string(),
        email.to_string(),
        password,
        now + 6,
    );
    assert_eq!(r, Err(CoreError::Conflict));
}

#[test]
fn signup_requires_password_and_valid_email() {
    let config = demo_config();
    let mut store = AccountStore::new();
    let mut codes = VerificationCodeStore::new();
    let now: u64 = 10;
    let code = get_verification_code(&store, &mut codes, "short@x.com", now).unwrap();
    verify_email(&mut codes, "short@x.com", code, now).unwrap();
    let r = create_account(
        &mut store,
        &mut codes,
        &config,
        "S".to_string(),
        "short@x.com".to_string(),
        None,
        now,
    );
    assert_eq!(r, Err(CoreError::Malformed));
    let r = create_account(
        &mut store,
        &mut codes,
        &config,
        "S".to_string(),
        "short@x.com".to_string(),
        Some("short".to_string()),
        now,
    );
    assert_eq!(r, Err(CoreError::Malformed));
}

#[test]
fn verification_code_for_taken_email_conflicts() {
    let config = demo_config();
    let mut store = AccountStore::new();
    let mut codes = VerificationCodeStore::new();
    let now: u64 = 10;
    let code = get_verification_code(&store, &mut codes, "a@b.com", now).unwrap();
    verify_email(&mut codes, "a@b.com", code, now).unwrap();
    create_account(
        &mut store,
        &mut codes,
        &config,
        "A".to_string(),
        "a@b.com".to_string(),
        Some("hunter2hunter2".to_string()),
        now,
    )
    .unwrap();
    assert_eq!(
        get_verification_code(&store, &mut codes, "a@b.com", now + 1),
        Err(CoreError::Conflict)
    );
}

fn create_verified(
    store: &mut AccountStore,
    codes: &mut VerificationCodeStore,
    config: &Config,
    email: &str,
    password: &str,
    now: u64,
) -> String {
    let code = get_verification_code(store, codes, email, now).unwrap();
    verify_email(codes, email, code, now).unwrap();
    create_account(
        store,
        codes,
        config,
        "Someone".to_string(),
        email.to_string(),
        Some(password.to_string()),
        now,
    )
    .unwrap()
    .id
}

#[test]
fn duplicate_email_detection_is_case_insensitive() {
    let config = demo_config();
    let mut store = AccountStore::new();
    let mut codes = VerificationCodeStore::new();
    create_verified(&mut store, &mut codes, &config, "Jane@X.com", "hunter2hunter2", 10);
    let code = get_verification_code(&store, &mut codes, "jane@x.com", 20);
    assert_eq!(code, Err(CoreError::Conflict));
}

#[test]
fn login_checks_password_against_its_hash() {
    let config = demo_config();
    let mut store = AccountStore::new();
    let mut codes = VerificationCodeStore::new();
    let now: u64 = 100;
    let id = create_verified(&mut store, &mut codes, &config, "log@in.com", "hunter2hunter2", now);

    let ok = login_account(&store, &config, "log@in.com", "hunter2hunter2", now + 1).unwrap();
    assert_eq!(ok.id, id);
    let claims = verify(&ok.token, &config.jwt_secret, now + 2).unwrap();
    assert_eq!(claims.sub, id);

    assert_eq!(
        login_account(&store, &config, "log@in.com", "wrong-password", now + 1),
        Err(CoreError::Unauthorized)
    );
    assert_eq!(
        login_account(&store, &config, "nobody@in.com", "hunter2hunter2", now + 1),
        Err(CoreError::Unauthorized)
    );
}

#[test]
fn external_account_is_created_then_reused() {
    let config = demo_config();
    let mut store = AccountStore::new();
    let now: u64 = 100;
    let claims = scrippt::external::GoogleAuthClaims {
        iss: "https://accounts.google.com".to_string(),
        nbf: now - 10,
        aud: "client-1234".to_string(),
        sub: "google-sub-1".to_string(),
        hd: None,
        email: "ext@x.com".to_string(),
        email_verified: true,
        azp: "client-1234".to_string(),
        name: "Ext User".to_string(),
        picture: String::new(),
        given_name: "Ext".to_string(),
        family_name: "User".to_string(),
        iat: now - 10,
        exp: now + 3600,
        jti: "j".to_string(),
    };
    let first = authenticate_external_account(&mut store, &config, &claims, now).unwrap();
    let second = authenticate_external_account(&mut store, &config, &claims, now + 1).unwrap();
    assert_eq!(first.id, second.id);
    let acc = store.get_account_by_email("ext@x.com").unwrap();
    assert_eq!(acc.password, None);
    assert_eq!(acc.external_id.as_deref(), Some("google-sub-1"));
    assert_eq!(acc.external_provider.as_deref(), Some("google"));
    // an external account has no password to log in with
    assert_eq!(
        login_account(&store, &config, "ext@x.com", "whatever-here", now),
        Err(CoreError::Unauthorized)
    );
}

#[test]
fn account_update_and_delete() {
    let config = demo_config();
    let mut store = AccountStore::new();
    let mut codes = VerificationCodeStore::new();
    let id_text = create_verified(&mut store, &mut codes, &config, "upd@x.com", "hunter2hunter2", 5);
    let id: u64 = id_text.parse().unwrap();

    store
        .update_account(id, AccountPatch { path: "name".to_string(), value: "Renamed".to_string() })
        .unwrap();
    assert_eq!(store.get_account(id).unwrap().name, "Renamed");

    let bad = store.update_account(
        id,
        AccountPatch { path: "shoe_size".to_string(), value: "44".to_string() },
    );
    assert_eq!(bad, Err(CoreError::Malformed));

    let missing = store.update_account(
        id + 1000,
        AccountPatch { path: "name".to_string(), value: "Ghost".to_string() },
    );
    assert_eq!(missing, Err(CoreError::NotFound));

    assert_eq!(store.delete_account(id), Ok(()));
    assert_eq!(store.delete_account(id), Err(CoreError::NotFound));
    assert!(store.get_account(id).is_err());
}

#[test]
fn email_update_cannot_steal_another_accounts_email() {
    let config = demo_config();
    let mut store = AccountStore::new();
    let mut codes = VerificationCodeStore::new();
    let a: u64 = create_verified(&mut store, &mut codes, &config, "a@x.com", "hunter2hunter2", 5)
        .parse()
        .unwrap();
    let _b = create_verified(&mut store, &mut codes, &config, "b@x.com", "hunter2hunter2", 6);
    let r = store.update_account(
        a,
        AccountPatch { path: "email".to_string(), value: "B@X.com".to_string() },
    );
    assert_eq!(r, Err(CoreError::Conflict));
    // changing the case of one's own email is allowed
    let r = store.update_account(
        a,
        AccountPatch { path: "email".to_string(), value: "A@X.com".to_string() },
    );
    assert_eq!(r, Ok(()));
}

#[test]
fn store_applies_patch_lists_per_account() {
    let config = demo_config();
    let mut store = AccountStore::new();
    let mut codes = VerificationCodeStore::new();
    let id: u64 = create_verified(&mut store, &mut codes, &config, "p@x.com", "hunter2hunter2", 5)
        .parse()
        .unwrap();
    let patches = vec![ProfilePatch {
        op: "add".to_string(),
        target: "skills".to_string(),
        value: ProfileValue::Skills(Skills { field_id: None, skill: "Rust".to_string() }),
    }];
    store.apply_patches(id, patches, 50).unwrap();
    let acc = store.get_account(id).unwrap();
    assert_eq!(acc.profile.skills.len(), 1);
    assert_eq!(acc.profile.skills[0].skill, "Rust");
    assert!(acc.profile.skills[0].field_id.is_some());
    assert_eq!(acc.profile.date_updated, Some(50));

    let missing = store.apply_patches(id + 99, Vec::new(), 51);
    assert_eq!(missing, Err(CoreError::NotFound));
}

#[test]
fn store_replaces_whole_profile_with_fresh_ids() {
    let config = demo_config();
    let mut store = AccountStore::new();
    let mut codes = VerificationCodeStore::new();
    let id: u64 = create_verified(&mut store, &mut codes, &config, "r@x.com", "hunter2hunter2", 5)
        .parse()
        .unwrap();
    let mut source = scrippt::profile::Profile::empty(0);
    source.skills.push(Skills { field_id: None, skill: "imported".to_string() });
    store.update_profile(id, source, 60).unwrap();
    let acc = store.get_account(id).unwrap();
    assert_eq!(acc.profile.skills.len(), 1);
    assert!(acc.profile.skills[0].field_id.is_some());
    assert_eq!(acc.profile.date_updated, Some(60));
}

#[test]
fn fresh_field_id_generators_start_alike() {
    // two generators hand out the same first id, but one generator never
    // hands the same id out twice
    let _g1 = FieldIdGen::new();
    let _g2 = FieldIdGen::new();
    let mut profile = scrippt::profile::Profile::empty(0);
    let mut gen = FieldIdGen::new();
    let p = |s: &str| ProfilePatch {
        op: "add".to_string(),
        target: "skills".to_string(),
        value: ProfileValue::Skills(Skills { field_id: None, skill: s.to_string() }),
    };
    scrippt::patch::apply_operation(&mut profile, &mut gen, p("a"), 1).unwrap();
    scrippt::patch::apply_operation(&mut profile, &mut gen, p("b"), 1).unwrap();
    assert_ne!(profile.skills[0].field_id, profile.skills[1].field_id);
}

#[test]
fn password_update_stores_a_hash_not_the_value() {
    let config = demo_config();
    let mut store = AccountStore::new();
    let mut codes = VerificationCodeStore::new();
    let id: u64 = create_verified(&mut store, &mut codes, &config, "pw@x.com", "hunter2hunter2", 5)
        .parse()
        .unwrap();
    scrippt::service::update_account(
        &mut store,
        id,
        AccountPatch { path: "password".to_string(), value: "newpassword9".to_string() },
    )
    .unwrap();
    let stored = store.get_account(id).unwrap().password.clone().unwrap();
    assert_ne!(stored, "newpassword9");
    assert!(
        login_account(&store, &config, "pw@x.com", "newpassword9", 10).is_ok()
    );
    assert_eq!(
        login_account(&store, &config, "pw@x.com", "hunter2hunter2", 10),
        Err(CoreError::Unauthorized)
    );
}

#[test]
fn update_account_many_applies_in_order_until_failure() {
    let config = demo_config();
    let mut store = AccountStore::new();
    let mut codes = VerificationCodeStore::new();
    let id: u64 = create_verified(&mut store, &mut codes, &config, "m@x.com", "hunter2hunter2", 5)
        .parse()
        .unwrap();
    let updates = vec![
        AccountPatch { path: "name".to_string(), value: "First".to_string() },
        AccountPatch { path: "name".to_string(), value: "Second".to_string() },
        AccountPatch { path: "email".to_string(), value: "m2@x.com".to_string() },
    ];
    store.update_account_many(id, updates).unwrap();
    let acc = store.get_account(id).unwrap();
    assert_eq!(acc.name, "Second");
    assert_eq!(acc.email, "m2@x.com");

    // a bad path midway stops the run, keeping what came before it
    let updates = vec![
        AccountPatch { path: "name".to_string(), value: "Third".to_string() },
        AccountPatch { path: "unknown".to_string(), value: "x".to_string() },
        AccountPatch { path: "name".to_string(), value: "Never".to_string() },
    ];
    assert_eq!(store.update_account_many(id, updates), Err(CoreError::Malformed));
    assert_eq!(store.get_account(id).unwrap().name, "Third");
}

#[test]
fn external_login_backfills_provider_on_password_account() {
    let config = demo_config();
    let mut store = AccountStore::new();
    let mut codes = VerificationCodeStore::new();
    let id = create_verified(&mut store, &mut codes, &config, "mix@x.com", "hunter2hunter2", 5);
    let acc = store.get_account_by_email("mix@x.com").unwrap();
    assert_eq!(acc.external_id, None);
    assert_eq!(acc.external_provider, None);

    let now: u64 = 50;
    let claims = scrippt::external::GoogleAuthClaims {
        iss: "accounts.google.com".to_string(),
        nbf: now - 10,
        aud: "client-1234".to_string(),
        sub: "google-sub-9".to_string(),
        hd: None,
        email: "mix@x.com".to_string(),
        email_verified: true,
        azp: "client-1234".to_string(),
        name: "Mixed".to_string(),
        picture: String::new(),
        given_name: "M".to_string(),
        family_name: "X".to_string(),
        iat: now - 10,
        exp: now + 3600,
        jti: "j9".to_string(),
    };
    let resp = authenticate_external_account(&mut store, &config, &claims, now).unwrap();
    assert_eq!(resp.id, id);

    // the provider identity is now recorded on the existing account
    let acc = store.get_account_by_email("mix@x.com").unwrap();
    assert_eq!(acc.external_id.as_deref(), Some("google-sub-9"));
    assert_eq!(acc.external_provider.as_deref(), Some("google"));
    // and the password login still works
    assert!(login_account(&store, &config, "mix@x.com", "hunter2hunter2", now).is_ok());
}

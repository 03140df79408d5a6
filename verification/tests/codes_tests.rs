use scrippt::codes::{VerificationCodeStore, CODE_TTL_SECONDS};
use scrippt::errors::CoreError;

#[test]
fn code_confirm_succeeds_exactly_once() {
    let mut store = VerificationCodeStore::new();
    let t0: u64 = 1_000;
    store.put_pending("a@b.com", 123456, t0);
    assert_eq!(store.confirm("a@b.com", 123456, t0 + 5), Ok(()));
    assert_eq!(
        store.confirm("a@b.com", 123456, t0 + 10),
        Err(CoreError::AlreadyConsumed)
    );
}

#[test]
fn code_second_confirm_fails_even_with_wrong_code() {
    let mut store = VerificationCodeStore::new();
    let t0: u64 = 1_000;
    store.put_pending("a@b.com", 123456, t0);
    assert_eq!(store.confirm("a@b.com", 123456, t0 + 5), Ok(()));
    assert_eq!(
        store.confirm("a@b.com", 999999, t0 + 10),
        Err(CoreError::AlreadyConsumed)
    );
}

#[test]
fn code_expiry_behaves_as_not_found() {
    let mut store = VerificationCodeStore::new();
    let t0: u64 = 1_000;
    store.put_pending("a@b.com", 123456, t0);
    let after_ttl = t0 + CODE_TTL_SECONDS;
    assert_eq!(
        store.confirm("a@b.com", 123456, after_ttl),
        Err(CoreError::NotFound)
    );
}

#[test]
fn code_just_before_expiry_still_works() {
    let mut store = VerificationCodeStore::new();
    let t0: u64 = 1_000;
    store.put_pending("a@b.com", 123456, t0);
    assert_eq!(store.confirm("a@b.com", 123456, t0 + CODE_TTL_SECONDS - 1), Ok(()));
}

#[test]
fn code_mismatch_is_unauthorized() {
    let mut store = VerificationCodeStore::new();
    store.put_pending("a@b.com", 123456, 0);
    assert_eq!(
        store.confirm("a@b.com", 654321, 1),
        Err(CoreError::Unauthorized)
    );
    // the pending code survives a bad guess
    assert_eq!(store.confirm("a@b.com", 123456, 2), Ok(()));
}

#[test]
fn code_never_requested_is_not_found() {
    let mut store = VerificationCodeStore::new();
    assert_eq!(
        store.confirm("nobody@b.com", 123456, 0),
        Err(CoreError::NotFound)
    );
}

#[test]
fn code_verified_state_and_removal() {
    let mut store = VerificationCodeStore::new();
    store.put_pending("a@b.com", 222222, 0);
    assert!(!store.is_verified("a@b.com", 1));
    store.confirm("a@b.com", 222222, 1).unwrap();
    assert!(store.is_verified("a@b.com", 2));
    // expiry also ends the verified state
    assert!(!store.is_verified("a@b.com", CODE_TTL_SECONDS));
    store.remove("a@b.com");
    assert!(!store.is_verified("a@b.com", 2));
}

#[test]
fn code_rerequest_overwrites_pending_record() {
    let mut store = VerificationCodeStore::new();
    store.put_pending("a@b.com", 111111, 0);
    store.put_pending("a@b.com", 333333, 10);
    assert_eq!(store.confirm("a@b.com", 111111, 11), Err(CoreError::Unauthorized));
    assert_eq!(store.confirm("a@b.com", 333333, 12), Ok(()));
}

//! Signup validation, password hashing and one-time-code generation: the
//! checks are the library's own, the cryptography and randomness come from
//! outside and are named, not restated.

use vstd::prelude::*;

use crate::errors::CoreError;

verus! {

use vstd::string::StringSliceAdditionalSpecFns;

/// Whether a string is a well-formed email address, as the address parser
/// judges it. A function of the text alone.
pub uninterp spec fn email_ok(s: Seq<char>) -> bool;

/// Relies on email-address-parser's `EmailAddress::is_valid` with default
/// options: a pure judgement of the address text.
#[verifier::external_body]
pub fn is_valid_email(email: &str) -> (r: bool)
    ensures
        r == email_ok(email@),
{
    email_address_parser::EmailAddress::is_valid(email, None)
}

/// What signup demands of its inputs: a nonempty email that the address
/// parser accepts, and a password of at least eight bytes.
pub open spec fn signup_ok(email: Seq<char>, password: Seq<char>) -> bool {
    &&& email.len() > 0
    &&& (vstd::utf8::encode_utf8(password).len() as usize) >= 8
    &&& email_ok(email)
}

/// Validate a signup request: empty email, a short password, and an
/// unparseable email are each refused as structurally invalid.
pub fn validate_signup(email: &str, password: &str) -> (r: Result<(), CoreError>)
    ensures
        r is Ok <==> signup_ok(email@, password@),
        r is Err ==> r == Err::<(), CoreError>(CoreError::Malformed),
{
    if email.is_empty() {
        return Err(CoreError::Malformed);
    }
    if password.len() < 8 {
        return Err(CoreError::Malformed);
    }
    if !is_valid_email(email) {
        return Err(CoreError::Malformed);
    }
    Ok(())
}

/// Whether a password matches an encoded argon2 hash: the judgement
/// `verify_encoded` passes on a well-formed hash, false for a hash it
/// cannot read. A function of the two texts alone.
pub uninterp spec fn argon2_matches(hash: Seq<char>, password: Seq<char>) -> bool;

/// Relies on rust-argon2's `hash_encoded` under a fresh random 32-byte
/// salt and the default configuration, which cannot fail: whatever hash
/// comes back verifies against the password it was made from.
#[verifier::external_body]
pub fn generate_hash(password: &str) -> (r: String)
    ensures
        argon2_matches(r@, password@),
{
    let salt: [u8; 32] = rand::random();
    argon2::hash_encoded(password.as_bytes(), &salt, &argon2::Config::default()).unwrap()
}

/// Relies on rust-argon2's `verify_encoded`: the matching judgement for an
/// encoded hash, with an unreadable hash counting as a mismatch.
#[verifier::external_body]
pub fn verify_hash(password: &str, hash: &str) -> (r: bool)
    ensures
        r == argon2_matches(hash@, password@),
{
    argon2::verify_encoded(hash, password.as_bytes()).unwrap_or(false)
}

/// Relies on rand's `random_range`: a code drawn from the six-digit range.
/// Randomness promises nothing beyond the bounds.
#[verifier::external_body]
pub fn generate_otp_code() -> (r: u32)
    ensures
        100000 <= r < 999999,
{
    rand::random_range(100000u32..999999u32)
}

/// The instant a code requested at `now` stops being honoured.
pub fn get_expiration_time(now: u64, minutes: u64) -> (r: u64)
    requires
        now + minutes * 60 <= u64::MAX,
    ensures
        r == now + minutes * 60,
{
    now + minutes * 60
}

} // verus!

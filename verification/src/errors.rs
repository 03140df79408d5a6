//! The failure taxonomy shared by every component of the library.
//!
//! Every fallible operation reports one of these variants; nothing in the
//! library panics on malformed external input.

use vstd::prelude::*;

verus! {

/// One error type for the whole core: trust failures, time-based
/// invalidation, absent entities, state-machine violations, quota rules and
/// upstream trouble each have their own variant, so callers can react to the
/// exact rule that failed.
#[derive(Clone, Copy, Debug, PartialEq, Eq, Structural)]
pub enum CoreError {
    /// Structurally invalid input: a token that does not parse, a patch
    /// payload of the wrong shape, an empty or ill-formed field.
    Malformed,
    /// A signature did not verify under the expected key or secret.
    InvalidSignature,
    /// A credential was present but wrong: bad password, bad code.
    Unauthorized,
    /// A time-based rule fired: token past its expiry, stale cache.
    Expired,
    /// The referenced entity is absent: account, field-id, verification
    /// record (a lapsed record counts as absent).
    NotFound,
    /// The entity already exists: duplicate account for an email.
    Conflict,
    /// A one-time verification code was presented a second time.
    AlreadyConsumed,
    /// A per-collection size limit would be exceeded.
    LimitExceeded,
    /// A third-party fetch failed or returned an unusable response.
    UpstreamFailure,
    /// A patch operation word outside add / update / remove.
    InvalidOperation,
    /// A patch target outside education / experience / skills.
    InvalidTarget,
    /// An external identity token carries the wrong audience.
    InvalidAudience,
    /// An external identity token carries an unaccepted issuer.
    InvalidIssuer,
    /// An external identity token references a key the key set lacks.
    UnknownKey,
    /// Account creation was attempted before the email was verified.
    NotVerified,
}

impl CoreError {
    /// A short stable description, for logging and HTTP bodies.
    pub fn message(&self) -> &'static str {
        match self {
            CoreError::Malformed => "malformed input",
            CoreError::InvalidSignature => "invalid signature",
            CoreError::Unauthorized => "unauthorized",
            CoreError::Expired => "expired",
            CoreError::NotFound => "not found",
            CoreError::Conflict => "already exists",
            CoreError::AlreadyConsumed => "code already used",
            CoreError::LimitExceeded => "limit exceeded",
            CoreError::UpstreamFailure => "upstream failure",
            CoreError::InvalidOperation => "invalid operation",
            CoreError::InvalidTarget => "invalid target",
            CoreError::InvalidAudience => "invalid audience",
            CoreError::InvalidIssuer => "invalid issuer",
            CoreError::UnknownKey => "unknown key",
            CoreError::NotVerified => "not verified",
        }
    }
}

} // verus!

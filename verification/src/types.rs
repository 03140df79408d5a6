//! Request, response and configuration shapes shared by the service
//! functions and their callers.

use vstd::prelude::*;

use crate::documents::Document;
use crate::profile::Profile;

verus! {

/// The service's configuration, read once at startup and passed by
/// reference: token issuer and audience, the shared signing secret, and
/// the client id external identity tokens must be addressed to.
#[derive(Debug)]
pub struct Config {
    pub app_name: String,
    pub domain: String,
    pub jwt_secret: String,
    pub google_client_id: String,
}

/// An error body for the wire.
#[derive(Debug, PartialEq)]
pub struct ErrorResponse {
    pub message: String,
}

impl ErrorResponse {
    pub fn new(message: String) -> (r: Self)
        ensures
            r.message == message,
    {
        Self { message }
    }
}

/// What a successful authentication hands back: the account id and a
/// bearer token for it.
#[derive(Debug, PartialEq)]
pub struct AuthResponse {
    pub id: String,
    pub token: String,
}

/// The same pair under the account routes' name.
#[derive(Debug, PartialEq)]
pub struct AccountResponse {
    pub id: String,
    pub token: String,
}

/// Login credentials.
#[derive(Debug, PartialEq)]
pub struct Credentials {
    pub email: String,
    pub password: String,
}

/// An external-authentication exchange: the provider-issued identity
/// token.
#[derive(Debug, PartialEq)]
pub struct ExternalAccountQuery {
    pub token_id: String,
}

/// A request for a verification code.
#[derive(Debug, PartialEq)]
pub struct VerificationCodeQuery {
    pub name: String,
    pub email: String,
}

/// A submitted verification code.
#[derive(Debug, PartialEq)]
pub struct VerificationQuery {
    pub email: String,
    pub code: String,
}

/// One account field to change: a path among name, email and password,
/// and the new value.
#[derive(Debug, PartialEq)]
pub struct AccountPatch {
    pub path: String,
    pub value: String,
}

/// An account as handed back to its owner.
#[derive(Debug, PartialEq)]
pub struct Account {
    pub id: String,
    pub name: String,
    pub email: String,
    pub profile: Profile,
    pub documents: Vec<Document>,
}

} // verus!

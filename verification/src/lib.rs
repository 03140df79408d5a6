//! Account identity and profile mutation, verified: first-party bearer
//! tokens issued and checked under one symmetric secret, third-party
//! identity tokens held to a cached, max-age-bounded key set, one-time
//! email-verification codes with a pending / used lifecycle, and a patch
//! protocol over a user's nested profile collections with server-assigned
//! field-ids and per-collection caps.
//!
//! Every public operation carries a contract stating exactly what it
//! returns and what it leaves behind; the signing, hashing and randomness
//! underneath come from outside crates through a small set of trusted
//! declarations, each documented where it stands.

pub mod accounts;
pub mod auth;
pub mod codes;
pub mod digits;
pub mod documents;
pub mod errors;
pub mod external;
pub mod generate;
pub mod jsonval;
pub mod keyset;
pub mod patch;
pub mod profile;
pub mod service;
pub mod token;
pub mod types;
pub mod util;
pub mod validate;

//! First-party bearer tokens: claims signed with a symmetric secret.
//! Issuing and verifying share one trust domain, so the same secret signs
//! and checks; a token is accepted only if its signature verifies and it
//! has not expired.

use vstd::prelude::*;

use crate::errors::CoreError;
use crate::jsonval::{claim_fields, get_str_field, get_u64_field, ClaimVal};

verus! {

/// How long an issued token stays valid, in seconds: 24 hours.
pub const TOKEN_LIFETIME_SECONDS: u64 = 86400;

/// The claims carried by a first-party token.
#[derive(Debug, PartialEq)]
pub struct Claims {
    /// Issuer: the application's name.
    pub iss: String,
    /// Subject: the account id the token speaks for.
    pub sub: String,
    /// Audience: the domain the token is meant for.
    pub aud: String,
    /// Issued-at, seconds since the epoch.
    pub iat: u64,
    /// Not-before, seconds since the epoch.
    pub nbf: u64,
    /// A fresh unique token id, for traceability.
    pub jti: String,
    /// Expiry, seconds since the epoch.
    pub exp: u64,
}

/// The mathematical image of a claims value.
#[verifier::ext_equal]
pub struct ClaimsView {
    pub iss: Seq<char>,
    pub sub: Seq<char>,
    pub aud: Seq<char>,
    pub iat: int,
    pub nbf: int,
    pub jti: Seq<char>,
    pub exp: int,
}

impl View for Claims {
    type V = ClaimsView;

    open spec fn view(&self) -> ClaimsView {
        ClaimsView {
            iss: self.iss@,
            sub: self.sub@,
            aud: self.aud@,
            iat: self.iat as int,
            nbf: self.nbf as int,
            jti: self.jti@,
            exp: self.exp as int,
        }
    }
}

/// Views whose numeric fields fit the machine type claims are carried in.
pub open spec fn claims_view_wf(c: ClaimsView) -> bool {
    &&& 0 <= c.iat <= u64::MAX
    &&& 0 <= c.nbf <= u64::MAX
    &&& 0 <= c.exp <= u64::MAX
}

/// The invariant issued claims satisfy: expiry after issue, issue not
/// before the not-before instant.
pub open spec fn claims_invariant(c: ClaimsView) -> bool {
    c.exp > c.iat >= c.nbf
}

/// The signed token that encodes `c` under `secret`. What the encoding
/// looks like is the signing library's business; that it is a function of
/// the claims and the secret alone is what this name stands for.
pub uninterp spec fn hs256_token(c: ClaimsView, secret: Seq<char>) -> Seq<char>;

/// A decoded claims object carries exactly the fields of `c`.
pub open spec fn claims_match(f: Map<Seq<char>, ClaimVal>, c: ClaimsView) -> bool {
    &&& f.contains_key("iss"@) && f["iss"@] == ClaimVal::Str(c.iss)
    &&& f.contains_key("sub"@) && f["sub"@] == ClaimVal::Str(c.sub)
    &&& f.contains_key("aud"@) && f["aud"@] == ClaimVal::Str(c.aud)
    &&& f.contains_key("jti"@) && f["jti"@] == ClaimVal::Str(c.jti)
    &&& f.contains_key("iat"@) && f["iat"@] == ClaimVal::Int(c.iat)
    &&& f.contains_key("nbf"@) && f["nbf"@] == ClaimVal::Int(c.nbf)
    &&& f.contains_key("exp"@) && f["exp"@] == ClaimVal::Int(c.exp)
}

/// Relies on `jsonwebtoken::encode` with the default (HS256) header: the
/// token is a deterministic function of the claims and the secret, and
/// symmetric signing of a plain claims object cannot fail.
#[verifier::external_body]
fn hs256_sign(c: &Claims, secret: &str) -> (r: String)
    ensures
        r@ == hs256_token(c@, secret@),
{
    let mut m = serde_json::Map::new();
    m.insert("iss".to_string(), c.iss.clone().into());
    m.insert("sub".to_string(), c.sub.clone().into());
    m.insert("aud".to_string(), c.aud.clone().into());
    m.insert("iat".to_string(), c.iat.into());
    m.insert("nbf".to_string(), c.nbf.into());
    m.insert("jti".to_string(), c.jti.clone().into());
    m.insert("exp".to_string(), c.exp.into());
    let key = jsonwebtoken::EncodingKey::from_secret(secret.as_bytes());
    jsonwebtoken::encode(&jsonwebtoken::Header::default(), &serde_json::Value::Object(m), &key)
        .unwrap()
}

/// Whether a text is accepted by the raw decode under a secret: it parses
/// as a signed token and its signature verifies. A function of the text
/// and the secret alone; every token the encoder produces under the secret
/// satisfies it, and nothing is ever accepted without it.
pub uninterp spec fn hs256_signed(token: Seq<char>, secret: Seq<char>) -> bool;

/// A text with fewer than two dots cannot be split into the three parts
/// of a signed token.
pub open spec fn lacks_token_shape(token: Seq<char>) -> bool {
    token.filter(|ch: char| ch == '.').len() < 2
}

/// What a raw decode yields: acceptance is exactly `hs256_signed`; a token
/// that encodes claims `c` under the secret decodes to an object carrying
/// exactly the fields of `c`; a well-formed token of the encoder's shape
/// that is not accepted fails on its signature; a text without the
/// three-part shape is structurally refused; and every failure is either
/// the signature error or the structural one.
pub open spec fn decode_post(
    token: Seq<char>,
    secret: Seq<char>,
    r: Result<serde_json::Value, CoreError>,
) -> bool {
    &&& (r is Ok <==> hs256_signed(token, secret))
    &&& (forall|c: ClaimsView|
        #![trigger hs256_token(c, secret)]
        claims_view_wf(c) && token == hs256_token(c, secret) ==> (r matches Ok(v) && claims_match(
            claim_fields(v),
            c,
        )))
    &&& (forall|c: ClaimsView, s2: Seq<char>|
        #![trigger hs256_token(c, s2)]
        claims_view_wf(c) && token == hs256_token(c, s2) && !hs256_signed(token, secret) ==> r
            == Err::<serde_json::Value, CoreError>(CoreError::InvalidSignature))
    &&& (lacks_token_shape(token) ==> r == Err::<serde_json::Value, CoreError>(
        CoreError::Malformed,
    ))
    &&& (r matches Err(e) ==> (e == CoreError::InvalidSignature || e == CoreError::Malformed))
}

/// Relies on `jsonwebtoken::decode` with HS256: the decode's outcome is a
/// deterministic function of the text and the secret (named
/// `hs256_signed`); the signature over the token's header and payload is
/// checked against the secret before the claims are deserialized; a token
/// produced by `jsonwebtoken::encode` under the same secret decodes back
/// to the claims object it was encoded from; a token of the encoder's
/// shape rejected under this secret fails precisely its signature check;
/// and a text that does not even split into three parts is refused before
/// any key is touched. Expiry is judged by the caller, not here.
#[verifier::external_body]
fn hs256_decode(token: &str, secret: &str) -> (r: Result<serde_json::Value, CoreError>)
    ensures
        r is Ok <==> hs256_signed(token@, secret@),
        decode_post(token@, secret@, r),
{
    let key = jsonwebtoken::DecodingKey::from_secret(secret.as_bytes());
    let mut val = jsonwebtoken::Validation::new(jsonwebtoken::Algorithm::HS256);
    val.validate_exp = false;
    val.validate_aud = false;
    val.required_spec_claims = std::collections::HashSet::new();
    match jsonwebtoken::decode::<serde_json::Value>(token, &key, &val) {
        Ok(d) => Ok(d.claims),
        Err(e) => match e.kind() {
            jsonwebtoken::errors::ErrorKind::InvalidSignature => Err(CoreError::InvalidSignature),
            _ => Err(CoreError::Malformed),
        },
    }
}

/// Relies on bson's `Uuid`: a freshly generated random UUID rendered in
/// its hyphenated form is 36 ASCII characters. The value is random;
/// nothing else is assumed about it.
#[verifier::external_body]
fn fresh_token_id() -> (r: String)
    ensures
        r@.len() == 36,
{
    bson::uuid::Uuid::new().to_string()
}

/// Everything `verify` promises, as one predicate over the token text, the
/// secret, the clock and the outcome: an unexpired token encoding some
/// claims is accepted as exactly those claims; the same token past its
/// expiry is `Expired`; nothing the raw decode does not accept under this
/// secret ever verifies, so in particular a token signed under a different
/// secret fails with the signature error and a text without the
/// three-part shape is structurally refused; whatever is accepted is
/// unexpired; and failures are one of signature mismatch, structural
/// breakage or expiry.
pub open spec fn verify_post(
    token: Seq<char>,
    secret: Seq<char>,
    now: u64,
    r: Result<Claims, CoreError>,
) -> bool {
    &&& (forall|c: ClaimsView|
        #![trigger hs256_token(c, secret)]
        claims_view_wf(c) && token == hs256_token(c, secret) ==> (if now <= c.exp {
            r matches Ok(cl) && cl@ == c
        } else {
            r == Err::<Claims, CoreError>(CoreError::Expired)
        }))
    &&& (r matches Ok(cl) ==> hs256_signed(token, secret))
    &&& (forall|c: ClaimsView, s2: Seq<char>|
        #![trigger hs256_token(c, s2)]
        claims_view_wf(c) && token == hs256_token(c, s2) && !hs256_signed(token, secret) ==> r
            == Err::<Claims, CoreError>(CoreError::InvalidSignature))
    &&& (lacks_token_shape(token) ==> r == Err::<Claims, CoreError>(CoreError::Malformed))
    &&& (r matches Ok(cl) ==> now <= cl@.exp)
    &&& (r matches Err(e) ==> (e == CoreError::InvalidSignature || e == CoreError::Malformed || e
        == CoreError::Expired))
}

/// Verify a token: signature first, then structure, then expiry. No claim
/// is trusted before the signature has been checked.
pub fn verify(token: &str, secret: &str, now: u64) -> (r: Result<Claims, CoreError>)
    ensures
        verify_post(token@, secret@, now, r),
{
    let v = match hs256_decode(token, secret) {
        Ok(v) => v,
        Err(e) => {
            return Err(e);
        },
    };
    let iss = match get_str_field(&v, "iss") {
        Some(s) => s,
        None => {
            return Err(CoreError::Malformed);
        },
    };
    let sub = match get_str_field(&v, "sub") {
        Some(s) => s,
        None => {
            return Err(CoreError::Malformed);
        },
    };
    let aud = match get_str_field(&v, "aud") {
        Some(s) => s,
        None => {
            return Err(CoreError::Malformed);
        },
    };
    let jti = match get_str_field(&v, "jti") {
        Some(s) => s,
        None => {
            return Err(CoreError::Malformed);
        },
    };
    let iat = match get_u64_field(&v, "iat") {
        Some(n) => n,
        None => {
            return Err(CoreError::Malformed);
        },
    };
    let nbf = match get_u64_field(&v, "nbf") {
        Some(n) => n,
        None => {
            return Err(CoreError::Malformed);
        },
    };
    let exp = match get_u64_field(&v, "exp") {
        Some(n) => n,
        None => {
            return Err(CoreError::Malformed);
        },
    };
    if now > exp {
        return Err(CoreError::Expired);
    }
    let cl = Claims { iss, sub, aud, iat, nbf, jti, exp };
    proof {
        assert forall|c: ClaimsView|
            #![trigger hs256_token(c, secret@)]
            claims_view_wf(c) && token@ == hs256_token(c, secret@) implies (cl@ =~= c) by {}
    }
    Ok(cl)
}

/// Issue a token for `sub`: claims stamped at `now`, valid for 24 hours,
/// carrying a fresh 36-character token id, signed with the secret. The
/// returned text is exactly the encoding of the returned claims.
pub fn issue(iss: String, sub: String, aud: String, secret: &str, now: u64) -> (r: (Claims, String))
    requires
        now + TOKEN_LIFETIME_SECONDS <= u64::MAX,
    ensures
        r.0.iss@ == iss@,
        r.0.sub@ == sub@,
        r.0.aud@ == aud@,
        r.0.iat == now,
        r.0.nbf == now,
        r.0.exp == now + TOKEN_LIFETIME_SECONDS,
        r.0.jti@.len() == 36,
        claims_invariant(r.0@),
        r.1@ == hs256_token(r.0@, secret@),
{
    let jti = fresh_token_id();
    let claims = Claims {
        iss,
        sub,
        aud,
        iat: now,
        nbf: now,
        jti,
        exp: now + TOKEN_LIFETIME_SECONDS,
    };
    let token = hs256_sign(&claims, secret);
    (claims, token)
}

/// Sign explicit claims. Signing is deterministic: the same claims under
/// the same secret give the same token text, signature included.
pub fn encode_claims(claims: &Claims, secret: &str) -> (r: String)
    ensures
        r@ == hs256_token(claims@, secret@),
{
    hs256_sign(claims, secret)
}

/// Encode a token and hand back only its text.
pub fn encode_jwt(iss: String, sub: String, aud: String, secret: &str, now: u64) -> (r: String)
    requires
        now + TOKEN_LIFETIME_SECONDS <= u64::MAX,
    ensures
        exists|c: ClaimsView|
            #![trigger hs256_token(c, secret@)]
            {
                &&& r@ == hs256_token(c, secret@)
                &&& claims_view_wf(c)
                &&& c.iss == iss@ && c.sub == sub@ && c.aud == aud@
                &&& c.iat == now && c.nbf == now && c.exp == now + TOKEN_LIFETIME_SECONDS
                &&& c.jti.len() == 36
            },
{
    let (claims, token) = issue(iss, sub, aud, secret, now);
    proof {
        assert(claims_view_wf(claims@));
    }
    token
}

/// Decode a token under the shared secret.
pub fn decode_jwt(token: String, secret: &str, now: u64) -> (r: Result<Claims, CoreError>)
    ensures
        verify_post(token@, secret@, now, r),
{
    verify(token.as_str(), secret, now)
}

/// Law: nothing the raw decode does not accept under the secret ever
/// verifies — tampering that breaks a token's signature, a token signed
/// under another secret, and plain garbage are all rejected. That one
/// changed byte does break the signature is the signing algorithm's own
/// promise, outside what these contracts state.
pub proof fn lemma_unsigned_token_rejected(
    token: Seq<char>,
    secret: Seq<char>,
    now: u64,
    r: Result<Claims, CoreError>,
)
    requires
        verify_post(token, secret, now, r),
        !hs256_signed(token, secret),
    ensures
        r is Err,
{
}

/// Law: round trip. Any verification outcome the `verify` contract allows
/// for a token that encodes claims `c`, judged before `c` expires, is
/// acceptance with exactly `c` — every claim comes back as issued, the
/// token id included.
pub proof fn lemma_token_round_trip(
    c: ClaimsView,
    secret: Seq<char>,
    now: u64,
    r: Result<Claims, CoreError>,
)
    requires
        claims_view_wf(c),
        now <= c.exp,
        verify_post(hs256_token(c, secret), secret, now, r),
    ensures
        r matches Ok(cl) && cl@ == c,
{
}

} // verus!

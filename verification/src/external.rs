//! Verification of third-party (Google) identity tokens: an asymmetric
//! signature checked against the provider's published key, then the claims
//! held to this service's own rules — audience, issuer, expiry — in that
//! order. The key set comes from the cache in `keyset`; a key id the set
//! lacks triggers one refresh before the token is rejected.

use vstd::prelude::*;

use crate::errors::CoreError;
use crate::jsonval::{claim_fields, get_bool_field, get_str_field, get_u64_field, ClaimVal};
use crate::keyset::{find_key, has_kid, needs_refresh, needs_refresh_spec, JwkKey, KeySetCache};

verus! {

/// The claims a Google identity token carries.
#[derive(Debug, PartialEq)]
pub struct GoogleAuthClaims {
    pub iss: String,
    pub nbf: u64,
    pub aud: String,
    pub sub: String,
    pub hd: Option<String>,
    pub email: String,
    pub email_verified: bool,
    pub azp: String,
    pub name: String,
    pub picture: String,
    pub given_name: String,
    pub family_name: String,
    pub iat: u64,
    pub exp: u64,
    pub jti: String,
}

/// The mathematical image of external claims.
#[verifier::ext_equal]
pub struct GoogleClaimsView {
    pub iss: Seq<char>,
    pub nbf: int,
    pub aud: Seq<char>,
    pub sub: Seq<char>,
    pub hd: Option<Seq<char>>,
    pub email: Seq<char>,
    pub email_verified: bool,
    pub azp: Seq<char>,
    pub name: Seq<char>,
    pub picture: Seq<char>,
    pub given_name: Seq<char>,
    pub family_name: Seq<char>,
    pub iat: int,
    pub exp: int,
    pub jti: Seq<char>,
}

impl View for GoogleAuthClaims {
    type V = GoogleClaimsView;

    open spec fn view(&self) -> GoogleClaimsView {
        GoogleClaimsView {
            iss: self.iss@,
            nbf: self.nbf as int,
            aud: self.aud@,
            sub: self.sub@,
            hd: match self.hd {
                Some(h) => Some(h@),
                None => None,
            },
            email: self.email@,
            email_verified: self.email_verified,
            azp: self.azp@,
            name: self.name@,
            picture: self.picture@,
            given_name: self.given_name@,
            family_name: self.family_name@,
            iat: self.iat as int,
            exp: self.exp as int,
            jti: self.jti@,
        }
    }
}

/// The key id named by a token's header, if the header parses and names
/// one. A function of the token text alone.
pub uninterp spec fn header_kid(token: Seq<char>) -> Option<Seq<char>>;

/// Relies on `jsonwebtoken::decode_header`: the token's unverified header
/// is parsed and its key id, if any, handed back. No claim of the token is
/// trusted here.
#[verifier::external_body]
pub fn token_kid(token: &str) -> (r: Option<String>)
    ensures
        match r {
            Some(s) => header_kid(token@) == Some(s@),
            None => header_kid(token@) is None,
        },
{
    match jsonwebtoken::decode_header(token) {
        Ok(h) => h.kid,
        Err(_) => None,
    }
}

/// What the asymmetric decode of a token under one key yields: the
/// token's claims object when the key components are usable, the token
/// parses, and its signature verifies under the key — nothing otherwise.
/// A function of the token text and the two key components alone.
pub uninterp spec fn rs256_payload(token: Seq<char>, n: Seq<char>, e: Seq<char>) -> Option<
    Map<Seq<char>, ClaimVal>,
>;

/// Relies on `jsonwebtoken::decode` with RS256 and
/// `DecodingKey::from_rsa_components`: the decode's outcome is a
/// deterministic function of the token and the key, named
/// `rs256_payload`, and the signature is verified against the provider's
/// key before the claims are deserialized. Unusable key components are
/// upstream trouble, a failed signature is a signature error, and
/// everything else about a rejected token is structural. Audience, issuer
/// and expiry are judged by the caller, not here.
#[verifier::external_body]
fn rs256_decode(token: &str, n: &str, e: &str) -> (r: Result<serde_json::Value, CoreError>)
    ensures
        r is Ok <==> rs256_payload(token@, n@, e@) is Some,
        r matches Ok(v) ==> claim_fields(v) == rs256_payload(token@, n@, e@)->Some_0,
        r matches Err(err) ==> (err == CoreError::InvalidSignature || err == CoreError::Malformed
            || err == CoreError::UpstreamFailure),
{
    let key = jsonwebtoken::DecodingKey::from_rsa_components(n, e)
        .map_err(|_| CoreError::UpstreamFailure)?;
    let mut val = jsonwebtoken::Validation::new(jsonwebtoken::Algorithm::RS256);
    val.validate_exp = false;
    val.validate_aud = false;
    val.required_spec_claims = std::collections::HashSet::new();
    match jsonwebtoken::decode::<serde_json::Value>(token, &key, &val) {
        Ok(d) => Ok(d.claims),
        Err(e) => match e.kind() {
            jsonwebtoken::errors::ErrorKind::InvalidSignature => Err(CoreError::InvalidSignature),
            _ => Err(CoreError::Malformed),
        },
    }
}

/// A decoded claims object carries every field Google identity claims
/// require, each of the right type.
pub open spec fn google_fields_ok(f: Map<Seq<char>, ClaimVal>) -> bool {
    &&& f.contains_key("iss"@) && f["iss"@] is Str
    &&& f.contains_key("nbf"@) && f["nbf"@] is Int
    &&& f.contains_key("aud"@) && f["aud"@] is Str
    &&& f.contains_key("sub"@) && f["sub"@] is Str
    &&& f.contains_key("email"@) && f["email"@] is Str
    &&& f.contains_key("email_verified"@) && f["email_verified"@] is Bool
    &&& f.contains_key("azp"@) && f["azp"@] is Str
    &&& f.contains_key("name"@) && f["name"@] is Str
    &&& f.contains_key("picture"@) && f["picture"@] is Str
    &&& f.contains_key("given_name"@) && f["given_name"@] is Str
    &&& f.contains_key("family_name"@) && f["family_name"@] is Str
    &&& f.contains_key("iat"@) && f["iat"@] is Int
    &&& f.contains_key("exp"@) && f["exp"@] is Int
    &&& f.contains_key("jti"@) && f["jti"@] is Str
}

/// The extracted claims mirror the decoded object field for field; the
/// optional hosted-domain field is present exactly when the object holds a
/// string under `hd`.
pub open spec fn google_claims_match(f: Map<Seq<char>, ClaimVal>, g: GoogleClaimsView) -> bool {
    &&& f["iss"@] == ClaimVal::Str(g.iss)
    &&& f["nbf"@] == ClaimVal::Int(g.nbf)
    &&& f["aud"@] == ClaimVal::Str(g.aud)
    &&& f["sub"@] == ClaimVal::Str(g.sub)
    &&& f["email"@] == ClaimVal::Str(g.email)
    &&& f["email_verified"@] == ClaimVal::Bool(g.email_verified)
    &&& f["azp"@] == ClaimVal::Str(g.azp)
    &&& f["name"@] == ClaimVal::Str(g.name)
    &&& f["picture"@] == ClaimVal::Str(g.picture)
    &&& f["given_name"@] == ClaimVal::Str(g.given_name)
    &&& f["family_name"@] == ClaimVal::Str(g.family_name)
    &&& f["iat"@] == ClaimVal::Int(g.iat)
    &&& f["exp"@] == ClaimVal::Int(g.exp)
    &&& f["jti"@] == ClaimVal::Str(g.jti)
    &&& g.hd == (if f.contains_key("hd"@) && f["hd"@] is Str {
        Some(f["hd"@]->Str_0)
    } else {
        Option::<Seq<char>>::None
    })
}

/// Read external claims out of a decoded object: every required field, of
/// the required type, or the token is structurally invalid.
pub fn extract_google_claims(v: &serde_json::Value) -> (r: Result<GoogleAuthClaims, CoreError>)
    ensures
        match r {
            Ok(g) => google_fields_ok(claim_fields(*v)) && google_claims_match(
                claim_fields(*v),
                g@,
            ),
            Err(e) => e == CoreError::Malformed && !google_fields_ok(claim_fields(*v)),
        },
{
    let iss = match get_str_field(v, "iss") {
        Some(s) => s,
        None => {
            return Err(CoreError::Malformed);
        },
    };
    let nbf = match get_u64_field(v, "nbf") {
        Some(n) => n,
        None => {
            return Err(CoreError::Malformed);
        },
    };
    let aud = match get_str_field(v, "aud") {
        Some(s) => s,
        None => {
            return Err(CoreError::Malformed);
        },
    };
    let sub = match get_str_field(v, "sub") {
        Some(s) => s,
        None => {
            return Err(CoreError::Malformed);
        },
    };
    let email = match get_str_field(v, "email") {
        Some(s) => s,
        None => {
            return Err(CoreError::Malformed);
        },
    };
    let email_verified = match get_bool_field(v, "email_verified") {
        Some(b) => b,
        None => {
            return Err(CoreError::Malformed);
        },
    };
    let azp = match get_str_field(v, "azp") {
        Some(s) => s,
        None => {
            return Err(CoreError::Malformed);
        },
    };
    let name = match get_str_field(v, "name") {
        Some(s) => s,
        None => {
            return Err(CoreError::Malformed);
        },
    };
    let picture = match get_str_field(v, "picture") {
        Some(s) => s,
        None => {
            return Err(CoreError::Malformed);
        },
    };
    let given_name = match get_str_field(v, "given_name") {
        Some(s) => s,
        None => {
            return Err(CoreError::Malformed);
        },
    };
    let family_name = match get_str_field(v, "family_name") {
        Some(s) => s,
        None => {
            return Err(CoreError::Malformed);
        },
    };
    let iat = match get_u64_field(v, "iat") {
        Some(n) => n,
        None => {
            return Err(CoreError::Malformed);
        },
    };
    let exp = match get_u64_field(v, "exp") {
        Some(n) => n,
        None => {
            return Err(CoreError::Malformed);
        },
    };
    let jti = match get_str_field(v, "jti") {
        Some(s) => s,
        None => {
            return Err(CoreError::Malformed);
        },
    };
    let hd = get_str_field(v, "hd");
    Ok(
        GoogleAuthClaims {
            iss,
            nbf,
            aud,
            sub,
            hd,
            email,
            email_verified,
            azp,
            name,
            picture,
            given_name,
            family_name,
            iat,
            exp,
            jti,
        },
    )
}

/// The two issuer spellings Google is accepted under.
pub open spec fn accepted_issuer(iss: Seq<char>) -> bool {
    iss == "accounts.google.com"@ || iss == "https://accounts.google.com"@
}

/// The service's own acceptance rules over already-decoded external
/// claims, applied in order: the audience must be this service's client
/// id, the issuer one of the two accepted spellings, the expiry in the
/// future.
pub open spec fn external_validation(g: GoogleClaimsView, client_id: Seq<char>, now: int) -> Result<
    (),
    CoreError,
> {
    if g.aud != client_id {
        Err(CoreError::InvalidAudience)
    } else if !accepted_issuer(g.iss) {
        Err(CoreError::InvalidIssuer)
    } else if g.exp <= now {
        Err(CoreError::Expired)
    } else {
        Ok(())
    }
}

/// Hold external claims to the service's rules. The signature has no say
/// here: claims that fail these checks are rejected however well they were
/// signed.
pub fn validate_external_claims(g: &GoogleAuthClaims, client_id: &str, now: u64) -> (r: Result<
    (),
    CoreError,
>)
    ensures
        r == external_validation(g@, client_id@, now as int),
{
    if !crate::util::str_eq(g.aud.as_str(), client_id) {
        return Err(CoreError::InvalidAudience);
    }
    let iss_ok = crate::util::str_eq(g.iss.as_str(), "accounts.google.com") || crate::util::str_eq(
        g.iss.as_str(),
        "https://accounts.google.com",
    );
    if !iss_ok {
        return Err(CoreError::InvalidIssuer);
    }
    if g.exp <= now {
        return Err(CoreError::Expired);
    }
    Ok(())
}

/// Law: external-claims rejection. Claims whose audience is not the
/// configured client id are rejected with `InvalidAudience`, whatever
/// their other fields say — and in particular however valid the signature
/// that carried them was, since validation never consults it.
pub proof fn lemma_external_audience_rejected(g: GoogleClaimsView, client_id: Seq<char>, now: int)
    requires
        g.aud != client_id,
    ensures
        external_validation(g, client_id, now) == Err::<(), CoreError>(CoreError::InvalidAudience),
{
}

/// The external claims a well-typed decoded object spells, field by
/// field; meaningful under `google_fields_ok`.
pub open spec fn google_view_of(f: Map<Seq<char>, ClaimVal>) -> GoogleClaimsView {
    GoogleClaimsView {
        iss: f["iss"@]->Str_0,
        nbf: f["nbf"@]->Int_0,
        aud: f["aud"@]->Str_0,
        sub: f["sub"@]->Str_0,
        hd: if f.contains_key("hd"@) && f["hd"@] is Str {
            Some(f["hd"@]->Str_0)
        } else {
            Option::<Seq<char>>::None
        },
        email: f["email"@]->Str_0,
        email_verified: f["email_verified"@]->Bool_0,
        azp: f["azp"@]->Str_0,
        name: f["name"@]->Str_0,
        picture: f["picture"@]->Str_0,
        given_name: f["given_name"@]->Str_0,
        family_name: f["family_name"@]->Str_0,
        iat: f["iat"@]->Int_0,
        exp: f["exp"@]->Int_0,
        jti: f["jti"@]->Str_0,
    }
}

/// Everything one external verification promises, as a function of the
/// named decode: a token the key does not accept is refused with decode's
/// error; an accepted payload missing a required field is structurally
/// invalid; and otherwise the outcome is exactly the acceptance rules'
/// verdict on the payload's claims — success owed, and the returned
/// claims are the token's own.
pub open spec fn google_verify_post(
    token: Seq<char>,
    n: Seq<char>,
    e: Seq<char>,
    client_id: Seq<char>,
    now: u64,
    r: Result<GoogleAuthClaims, CoreError>,
) -> bool {
    match rs256_payload(token, n, e) {
        Some(f) => {
            if !google_fields_ok(f) {
                r == Err::<GoogleAuthClaims, CoreError>(CoreError::Malformed)
            } else {
                match external_validation(google_view_of(f), client_id, now as int) {
                    Ok(u) => (r matches Ok(g) && g@ == google_view_of(f)),
                    Err(er) => r == Err::<GoogleAuthClaims, CoreError>(er),
                }
            }
        },
        None => (r matches Err(er) && (er == CoreError::InvalidSignature || er
            == CoreError::Malformed || er == CoreError::UpstreamFailure)),
    }
}

/// Verify one external token against one located key: asymmetric
/// signature, then structure, then the acceptance rules. The outcome is
/// exactly `google_verify_post`: claims that decode under the key and
/// pass every rule are returned as they stand in the token, and nothing
/// else is ever returned.
pub fn verify_google_token(token: &str, key: &JwkKey, client_id: &str, now: u64) -> (r: Result<
    GoogleAuthClaims,
    CoreError,
>)
    ensures
        google_verify_post(token@, key.n@, key.e@, client_id@, now, r),
        r matches Ok(g) ==> {
            &&& external_validation(g@, client_id@, now as int) is Ok
            &&& g@.aud == client_id@
            &&& accepted_issuer(g@.iss)
            &&& g@.exp > now
        },
        r matches Err(e) ==> (e == CoreError::InvalidSignature || e == CoreError::Malformed || e
            == CoreError::UpstreamFailure || e == CoreError::InvalidAudience || e
            == CoreError::InvalidIssuer || e == CoreError::Expired),
{
    let v = match rs256_decode(token, key.n.as_str(), key.e.as_str()) {
        Ok(v) => v,
        Err(e) => {
            return Err(e);
        },
    };
    let claims = match extract_google_claims(&v) {
        Ok(c) => c,
        Err(e) => {
            return Err(e);
        },
    };
    proof {
        assert(claims@ =~= google_view_of(claim_fields(v)));
    }
    match validate_external_claims(&claims, client_id, now) {
        Ok(_) => Ok(claims),
        Err(e) => Err(e),
    }
}

/// What the driver asks of its caller next.
#[derive(Debug, PartialEq)]
pub enum ExternalDecodeStep {
    /// Fetch the provider's key set, install it, and call again.
    Refresh,
    /// Verification has finished with this outcome.
    Done(Result<GoogleAuthClaims, CoreError>),
}

/// One step of the external verification state machine. The caller runs
/// the loop: on `Refresh` it fetches the key set — the one piece of
/// outside work — installs it with `apply_fetch`, and calls again with
/// `already_refreshed` set. A refresh is asked for at most once per
/// request: a stale cache forces one, and a key id the fresh set lacks
/// forces one more lookup at most before `UnknownKey` is final.
pub fn external_decode_step(
    cache: Option<&KeySetCache>,
    already_refreshed: bool,
    token: &str,
    client_id: &str,
    now: u64,
) -> (r: ExternalDecodeStep)
    ensures
        r == ExternalDecodeStep::Refresh ==> !already_refreshed && (needs_refresh_spec(cache, now)
            || (cache matches Some(c) && header_kid(token@) matches Some(kid) && !has_kid(
            c.keys@,
            kid,
        ))),
        !already_refreshed && needs_refresh_spec(cache, now) ==> r == ExternalDecodeStep::Refresh,
        !needs_refresh_spec(cache, now) || already_refreshed ==> match cache {
            Some(c) => {
                &&& (header_kid(token@) is None ==> r == ExternalDecodeStep::Done(
                    Err(CoreError::Malformed),
                ))
                &&& ((header_kid(token@) matches Some(kid) && !has_kid(c.keys@, kid)) ==> (
                if already_refreshed {
                    r == ExternalDecodeStep::Done(Err(CoreError::UnknownKey))
                } else {
                    r == ExternalDecodeStep::Refresh
                }))
                &&& (header_kid(token@) matches Some(kid) ==> has_kid(c.keys@, kid) ==> (r
                    matches ExternalDecodeStep::Done(res) && (exists|i: int|
                    #![trigger c.keys@[i]]
                    {
                        &&& 0 <= i < c.keys@.len()
                        &&& c.keys@[i].kid@ == kid
                        &&& (forall|j: int| 0 <= j < i ==> (#[trigger] c.keys@[j].kid@) != kid)
                        &&& google_verify_post(
                            token@,
                            c.keys@[i].n@,
                            c.keys@[i].e@,
                            client_id@,
                            now,
                            res,
                        )
                    })))
            },
            None => r == ExternalDecodeStep::Done(Err(CoreError::UpstreamFailure)),
        },
        r matches ExternalDecodeStep::Done(res) ==> (res matches Ok(g) ==> external_validation(
            g@,
            client_id@,
            now as int,
        ) is Ok),
{
    if !already_refreshed && needs_refresh(cache, now) {
        return ExternalDecodeStep::Refresh;
    }
    let c = match cache {
        Some(c) => c,
        None => {
            return ExternalDecodeStep::Done(Err(CoreError::UpstreamFailure));
        },
    };
    let kid = match token_kid(token) {
        Some(k) => k,
        None => {
            return ExternalDecodeStep::Done(Err(CoreError::Malformed));
        },
    };
    match find_key(&c.keys, kid.as_str()) {
        Some(key) => {
            let res = verify_google_token(token, key, client_id, now);
            proof {
                let i = choose|i: int|
                    #![trigger c.keys@[i]]
                    {
                        &&& 0 <= i < c.keys@.len()
                        &&& c.keys@[i] == *key
                        &&& (forall|j: int| 0 <= j < i ==> (#[trigger] c.keys@[j].kid@) != kid@)
                    };
                assert(c.keys@[i].kid@ == kid@);
                assert(google_verify_post(
                    token@,
                    c.keys@[i].n@,
                    c.keys@[i].e@,
                    client_id@,
                    now,
                    res,
                ));
            }
            ExternalDecodeStep::Done(res)
        },
        None => {
            if already_refreshed {
                ExternalDecodeStep::Done(Err(CoreError::UnknownKey))
            } else {
                ExternalDecodeStep::Refresh
            }
        },
    }
}

} // verus!

//! The account service flows: signup with its verification gate, login,
//! external-identity exchange, and the verification-code lifecycle. Each
//! function is the decision core of one inbound route; the HTTP shell and
//! every outbound delivery stay outside.

use vstd::prelude::*;

use crate::accounts::{email_taken, emails_equiv, AccountModel, AccountStore};
use crate::codes::{live, CodeEntry, VerificationCodeStore, CODE_TTL_SECONDS};
use crate::digits::{spec_dec_chars, u64_to_dec};
use crate::errors::CoreError;
use crate::external::GoogleAuthClaims;
use crate::token::{hs256_token, issue, ClaimsView, TOKEN_LIFETIME_SECONDS};
use crate::types::{AuthResponse, Config};
use crate::validate::{argon2_matches, generate_hash, generate_otp_code, signup_ok, validate_signup, verify_hash};

verus! {

/// The id of the account answering to an email; meaningful only when
/// `email_taken` holds, where it is unique.
pub open spec fn email_account_id(m: Map<u64, AccountModel>, email: Seq<char>) -> u64 {
    choose|id: u64| #[trigger] m.contains_key(id) && emails_equiv(m[id].email, email)
}

/// A token freshly issued for account `id` under this configuration.
pub open spec fn token_issued_for(
    token: Seq<char>,
    id: u64,
    config: &Config,
    now: u64,
) -> bool {
    exists|c: ClaimsView|
        #![trigger hs256_token(c, config.jwt_secret@)]
        {
            &&& token == hs256_token(c, config.jwt_secret@)
            &&& c.iss == config.app_name@
            &&& c.sub == spec_dec_chars(id as int)
            &&& c.aud == config.domain@
            &&& c.iat == now && c.nbf == now && c.exp == now + TOKEN_LIFETIME_SECONDS
            &&& c.jti.len() == 36
        }
}

fn issue_for(id: u64, config: &Config, now: u64) -> (r: AuthResponse)
    requires
        now + TOKEN_LIFETIME_SECONDS <= u64::MAX,
    ensures
        r.id@ == spec_dec_chars(id as int),
        token_issued_for(r.token@, id, config, now),
{
    let sub = u64_to_dec(id);
    let id_text = u64_to_dec(id);
    let (claims, token) = issue(
        config.app_name.clone(),
        sub,
        config.domain.clone(),
        config.jwt_secret.as_str(),
        now,
    );
    proof {
        assert(claims@.jti.len() == 36);
    }
    AuthResponse { id: id_text, token }
}

/// Create an account. The email must be free, its verification record
/// must stand consumed and alive, the password must be present and pass
/// validation; then the account is stored with the hashed password, a
/// token is issued, and the verification record is deleted so it can
/// never gate a second account.
pub fn create_account(
    store: &mut AccountStore,
    codes: &mut VerificationCodeStore,
    config: &Config,
    name: String,
    email: String,
    password: Option<String>,
    now: u64,
) -> (r: Result<AuthResponse, CoreError>)
    requires
        old(store).wf(),
        old(codes).wf(),
        old(store).spec_next_id() < u64::MAX,
        now + TOKEN_LIFETIME_SECONDS <= u64::MAX,
    ensures
        final(store).wf(),
        final(codes).wf(),
        final(store).spec_field_next() == old(store).spec_field_next(),
        ({
            let taken = email_taken(old(store)@, email@);
            let rec_ok = old(codes)@.contains_key(email@) && live(old(codes)@[email@], now);
            let verified = rec_ok && old(codes)@[email@].used;
            let pending = rec_ok && !old(codes)@[email@].used;
            &&& taken ==> ({
                &&& r == Err::<AuthResponse, CoreError>(CoreError::Conflict)
                &&& final(store)@ == old(store)@ && final(codes)@ == old(codes)@
                &&& final(store).spec_next_id() == old(store).spec_next_id()
            })
            &&& !taken && !rec_ok ==> ({
                &&& r == Err::<AuthResponse, CoreError>(CoreError::NotFound)
                &&& final(store)@ == old(store)@ && final(codes)@ == old(codes)@
                &&& final(store).spec_next_id() == old(store).spec_next_id()
            })
            &&& !taken && pending ==> ({
                &&& r == Err::<AuthResponse, CoreError>(CoreError::NotVerified)
                &&& final(store)@ == old(store)@ && final(codes)@ == old(codes)@
                &&& final(store).spec_next_id() == old(store).spec_next_id()
            })
            &&& !taken && verified && (password is None || !signup_ok(
                email@,
                password->Some_0@,
            )) ==> ({
                &&& r == Err::<AuthResponse, CoreError>(CoreError::Malformed)
                &&& final(store)@ == old(store)@ && final(codes)@ == old(codes)@
                &&& final(store).spec_next_id() == old(store).spec_next_id()
            })
            &&& !taken && verified && (password matches Some(p) && signup_ok(email@, p@)) ==> ({
                let id = old(store).spec_next_id();
                &&& r matches Ok(resp)
                &&& (r matches Ok(resp) ==> resp.id@ == spec_dec_chars(id as int)
                    && token_issued_for(resp.token@, id, config, now))
                &&& final(store)@.contains_key(id)
                &&& final(store)@ == old(store)@.insert(id, final(store)@[id])
                &&& final(store).spec_next_id() == old(store).spec_next_id() + 1
                &&& final(store)@[id].name == name@
                &&& final(store)@[id].email == email@
                &&& (final(store)@[id].password matches Some(h) && argon2_matches(
                    h,
                    password->Some_0@,
                ))
                &&& final(store)@[id].external_id is None
                &&& final(store)@[id].external_provider is None
                &&& final(store)@[id].profile.education.len() == 0
                &&& final(store)@[id].profile.experience.len() == 0
                &&& final(store)@[id].profile.skills.len() == 0
                &&& final(store)@[id].documents.len() == 0
                &&& final(store)@[id].date_created == now
                &&& final(codes)@ == old(codes)@.remove(email@)
            })
        }),
{
    match store.get_account_by_email(email.as_str()) {
        Some(_) => {
            return Err(CoreError::Conflict);
        },
        None => {},
    }
    match codes.lookup(email.as_str(), now) {
        Some(entry) => {
            if !entry.used {
                return Err(CoreError::NotVerified);
            }
        },
        None => {
            return Err(CoreError::NotFound);
        },
    }
    let password = match password {
        Some(p) => p,
        None => {
            return Err(CoreError::Malformed);
        },
    };
    match validate_signup(email.as_str(), password.as_str()) {
        Ok(_) => {},
        Err(e) => {
            return Err(e);
        },
    }
    let hash = generate_hash(password.as_str());
    let id = match store.create_account(
        name,
        email.clone(),
        Some(hash),
        None,
        None,
        now,
    ) {
        Ok(id) => id,
        Err(e) => {
            return Err(e);
        },
    };
    let resp = issue_for(id, config, now);
    codes.remove(email.as_str());
    Ok(resp)
}

/// Log an account in: an unknown email, an account created through an
/// external provider, and a password that does not match its hash are all
/// refused alike as `Unauthorized`; a matching password earns a fresh
/// token.
pub fn login_account(
    store: &AccountStore,
    config: &Config,
    email: &str,
    password: &str,
    now: u64,
) -> (r: Result<AuthResponse, CoreError>)
    requires
        store.wf(),
        now + TOKEN_LIFETIME_SECONDS <= u64::MAX,
    ensures
        !email_taken(store@, email@) ==> r == Err::<AuthResponse, CoreError>(
            CoreError::Unauthorized,
        ),
        email_taken(store@, email@) ==> ({
            let id = email_account_id(store@, email@);
            let acc = store@[id];
            &&& acc.password is None ==> r == Err::<AuthResponse, CoreError>(
                CoreError::Unauthorized,
            )
            &&& (acc.password matches Some(h) && !argon2_matches(h, password@)) ==> r == Err::<
                AuthResponse,
                CoreError,
            >(CoreError::Unauthorized)
            &&& (acc.password matches Some(h) && argon2_matches(h, password@)) ==> (r matches Ok(
                resp,
            ) && resp.id@ == spec_dec_chars(id as int) && token_issued_for(
                resp.token@,
                id,
                config,
                now,
            ))
        }),
{
    let acc = match store.get_account_by_email(email) {
        Some(acc) => acc,
        None => {
            return Err(CoreError::Unauthorized);
        },
    };
    proof {
        let id = email_account_id(store@, email@);
        assert(store@.contains_key(id) && emails_equiv(store@[id].email, email@));
        store.lemma_email_unique(email@, id, acc.id);
    }
    let hash = match &acc.password {
        Some(h) => h,
        None => {
            return Err(CoreError::Unauthorized);
        },
    };
    if !verify_hash(password, hash.as_str()) {
        return Err(CoreError::Unauthorized);
    }
    Ok(issue_for(acc.id, config, now))
}

/// Exchange a verified external identity for a first-party token: an
/// account already answering to the external email is logged in — and if
/// it does not yet record its provider, the provider's subject and name
/// are written onto it; otherwise an account is created holding the
/// provider's subject and no password, bypassing the email-verification
/// gate the provider already passed.
pub fn authenticate_external_account(
    store: &mut AccountStore,
    config: &Config,
    claims: &GoogleAuthClaims,
    now: u64,
) -> (r: Result<AuthResponse, CoreError>)
    requires
        old(store).wf(),
        old(store).spec_next_id() < u64::MAX,
        now + TOKEN_LIFETIME_SECONDS <= u64::MAX,
    ensures
        final(store).wf(),
        final(store).spec_field_next() == old(store).spec_field_next(),
        email_taken(old(store)@, claims.email@) ==> ({
            let id = email_account_id(old(store)@, claims.email@);
            let acc = old(store)@[id];
            &&& final(store).spec_next_id() == old(store).spec_next_id()
            &&& (acc.external_id is Some && acc.external_provider is Some ==> final(store)@ == old(
                store,
            )@)
            &&& (!(acc.external_id is Some && acc.external_provider is Some) ==> final(store)@
                == old(store)@.insert(
                id,
                (AccountModel {
                    external_id: Some(claims.sub@),
                    external_provider: Some("google"@),
                    ..acc
                }),
            ))
            &&& (r matches Ok(resp) && resp.id@ == spec_dec_chars(id as int) && token_issued_for(
                resp.token@,
                id,
                config,
                now,
            ))
        }),
        !email_taken(old(store)@, claims.email@) ==> ({
            let id = old(store).spec_next_id();
            &&& r matches Ok(resp)
            &&& (r matches Ok(resp) ==> resp.id@ == spec_dec_chars(id as int) && token_issued_for(
                resp.token@,
                id,
                config,
                now,
            ))
            &&& final(store)@.contains_key(id)
            &&& final(store)@ == old(store)@.insert(id, final(store)@[id])
            &&& final(store).spec_next_id() == old(store).spec_next_id() + 1
            &&& final(store)@[id].name == claims.name@
            &&& final(store)@[id].email == claims.email@
            &&& final(store)@[id].password is None
            &&& (final(store)@[id].external_id matches Some(x) && x == claims.sub@)
            &&& (final(store)@[id].external_provider matches Some(x) && x == "google"@)
            &&& final(store)@[id].profile.education.len() == 0
            &&& final(store)@[id].profile.experience.len() == 0
            &&& final(store)@[id].profile.skills.len() == 0
            &&& final(store)@[id].documents.len() == 0
            &&& final(store)@[id].date_created == now
        }),
{
    let existing = match store.get_account_by_email(claims.email.as_str()) {
        Some(acc) => Some((acc.id, acc.external_id.is_some() && acc.external_provider.is_some())),
        None => None,
    };
    match existing {
        Some((found, linked)) => {
            proof {
                let id = email_account_id(store@, claims.email@);
                assert(store@.contains_key(id) && emails_equiv(store@[id].email, claims.email@));
                store.lemma_email_unique(claims.email@, id, found);
            }
            if !linked {
                let lr = store.link_external(found, claims.sub.clone(), "google".to_owned());
                assert(lr is Ok);
            }
            Ok(issue_for(found, config, now))
        },
        None => {
            let id = match store.create_account(
                claims.name.clone(),
                claims.email.clone(),
                None,
                Some(claims.sub.clone()),
                Some("google".to_owned()),
                now,
            ) {
                Ok(id) => id,
                Err(e) => {
                    return Err(e);
                },
            };
            Ok(issue_for(id, config, now))
        },
    }
}

/// Hand out a verification code for an email with no account yet: a fresh
/// six-digit code is stored pending with its time-to-live ahead of it and
/// returned for delivery.
pub fn get_verification_code(
    store: &AccountStore,
    codes: &mut VerificationCodeStore,
    email: &str,
    now: u64,
) -> (r: Result<u32, CoreError>)
    requires
        store.wf(),
        old(codes).wf(),
        now + CODE_TTL_SECONDS <= u64::MAX,
    ensures
        final(codes).wf(),
        email_taken(store@, email@) ==> ({
            &&& r == Err::<u32, CoreError>(CoreError::Conflict)
            &&& final(codes)@ == old(codes)@
        }),
        !email_taken(store@, email@) ==> ({
            &&& r matches Ok(code)
            &&& (r matches Ok(code) ==> 100000 <= code < 999999 && final(codes)@ == old(
                codes,
            )@.insert(
                email@,
                (CodeEntry { code, used: false, expires_at: (now + CODE_TTL_SECONDS) as u64 }),
            ))
        }),
{
    match store.get_account_by_email(email) {
        Some(_) => {
            return Err(CoreError::Conflict);
        },
        None => {},
    }
    let code = generate_otp_code();
    codes.put_pending(email, code, now);
    Ok(code)
}

/// Change one account field on a caller's behalf. A password never
/// reaches the store as given: it is hashed first, and what is stored
/// verifies against the value the caller sent.
pub fn update_account(
    store: &mut AccountStore,
    id: u64,
    patch: crate::types::AccountPatch,
) -> (r: Result<(), CoreError>)
    requires
        old(store).wf(),
    ensures
        final(store).wf(),
        final(store).spec_next_id() == old(store).spec_next_id(),
        final(store).spec_field_next() == old(store).spec_field_next(),
        !(patch.path@ == "name"@ || patch.path@ == "email"@ || patch.path@ == "password"@) ==> ({
            &&& r == Err::<(), CoreError>(CoreError::Malformed)
            &&& final(store)@ == old(store)@
        }),
        (patch.path@ == "name"@ || patch.path@ == "email"@ || patch.path@ == "password"@) && !old(
            store,
        )@.contains_key(id) ==> ({
            &&& r == Err::<(), CoreError>(CoreError::NotFound)
            &&& final(store)@ == old(store)@
        }),
        (patch.path@ == "name"@ || patch.path@ == "email"@) && old(store)@.contains_key(id) && r
            is Ok ==> final(store)@ == old(store)@.insert(
            id,
            (AccountModel {
                name: if patch.path@ == "name"@ {
                    patch.value@
                } else {
                    old(store)@[id].name
                },
                email: if patch.path@ == "email"@ {
                    patch.value@
                } else {
                    old(store)@[id].email
                },
                ..old(store)@[id]
            }),
        ),
        patch.path@ == "password"@ && old(store)@.contains_key(id) ==> ({
            &&& r is Ok
            &&& final(store)@.contains_key(id)
            &&& final(store)@ == old(store)@.insert(id, final(store)@[id])
            &&& (final(store)@[id].password matches Some(h) && crate::validate::argon2_matches(
                h,
                patch.value@,
            ))
            &&& final(store)@[id].name == old(store)@[id].name
            &&& final(store)@[id].email == old(store)@[id].email
        }),
{
    proof {
        reveal_strlit("name");
        reveal_strlit("email");
        reveal_strlit("password");
        assert("name"@.len() == 4);
        assert("email"@.len() == 5);
        assert("password"@.len() == 8);
    }
    if crate::util::str_eq(patch.path.as_str(), "password") {
        let hashed = generate_hash(patch.value.as_str());
        let crate::types::AccountPatch { path, value: _ } = patch;
        store.update_account(id, crate::types::AccountPatch { path, value: hashed })
    } else {
        store.update_account(id, patch)
    }
}

/// Consume a verification code for an email: exactly the store's confirm
/// rules, no more and no less.
pub fn verify_email(
    codes: &mut VerificationCodeStore,
    email: &str,
    code: u32,
    now: u64,
) -> (r: Result<(), CoreError>)
    requires
        old(codes).wf(),
    ensures
        final(codes).wf(),
        r == crate::codes::confirm_result(old(codes)@, email@, code, now),
        final(codes)@ == crate::codes::confirm_next(old(codes)@, email@, code, now),
{
    codes.confirm(email, code, now)
}

} // verus!

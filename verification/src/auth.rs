//! Request authorization: the bearer token is cut out of the
//! Authorization header text, then verified as a first-party token; the
//! subject of an accepted token is the caller's account id.

use vstd::prelude::*;

use crate::errors::CoreError;
use crate::util::{all_ascii, ascii_chars};
use crate::keyset::{skip_sp, spec_skip_sp};
use crate::token::{claims_view_wf, hs256_signed, hs256_token, verify, verify_post, ClaimsView};

verus! {

use vstd::string::StringSliceAdditionalSpecFns;

/// The first space or tab at or after `i`, or the end.
pub open spec fn spec_find_sp(s: Seq<u8>, i: int) -> int
    decreases s.len() - i when 0 <= i <= s.len()
{
    if i < s.len() {
        if s[i] == 32 || s[i] == 9 {
            i
        } else {
            spec_find_sp(s, i + 1)
        }
    } else {
        i
    }
}

/// The bytes of `Bearer` stand at index `a`.
pub open spec fn is_bearer_word(s: Seq<u8>, a: int) -> bool {
    &&& s[a] == 66
    &&& s[a + 1] == 101
    &&& s[a + 2] == 97
    &&& s[a + 3] == 114
    &&& s[a + 4] == 101
    &&& s[a + 5] == 114
}

/// The token text of a bearer header: the second whitespace-separated
/// word, provided the first is exactly `Bearer`.
pub open spec fn spec_parse_bearer(s: Seq<u8>) -> Option<Seq<u8>> {
    let a0 = spec_skip_sp(s, 0);
    let c0 = spec_find_sp(s, a0);
    if c0 - a0 == 6 && is_bearer_word(s, a0) {
        let a1 = spec_skip_sp(s, c0);
        let c1 = spec_find_sp(s, a1);
        if c1 > a1 {
            Some(s.subrange(a1, c1))
        } else {
            None
        }
    } else {
        None
    }
}

fn find_sp(bytes: &[u8], i: usize) -> (r: usize)
    requires
        i <= bytes@.len(),
    ensures
        r == spec_find_sp(bytes@, i as int),
        i <= r <= bytes@.len(),
{
    let n = bytes.len();
    let mut j = i;
    while j < n && bytes[j] != 32 && bytes[j] != 9
        invariant
            i <= j <= n,
            n == bytes@.len(),
            spec_find_sp(bytes@, i as int) == spec_find_sp(bytes@, j as int),
        decreases n - j,
    {
        j = j + 1;
    }
    j
}

/// Cut the bearer token out of an Authorization header. A header whose
/// first word is not `Bearer`, with no second word, or with a token
/// holding non-ASCII bytes, carries no credential.
#[verifier::loop_isolation(false)]
pub fn parse_bearer(header: &str) -> (r: Result<String, CoreError>)
    ensures
        spec_parse_bearer(header.spec_bytes()) is None ==> r == Err::<String, CoreError>(
            CoreError::Unauthorized,
        ),
        spec_parse_bearer(header.spec_bytes()) matches Some(tok) ==> (all_ascii(tok) ==> (r
            matches Ok(t) && t@ == ascii_chars(tok))),
        spec_parse_bearer(header.spec_bytes()) matches Some(tok) ==> (!all_ascii(tok) ==> r
            == Err::<String, CoreError>(CoreError::Unauthorized)),
{
    let bytes = header.as_bytes();
    let ghost s = header.spec_bytes();
    let a0 = skip_sp(bytes, 0);
    let c0 = find_sp(bytes, a0);
    let is_bearer = c0 - a0 == 6 && bytes[a0] == 66 && bytes[a0 + 1] == 101 && bytes[a0 + 2] == 97
        && bytes[a0 + 3] == 114 && bytes[a0 + 4] == 101 && bytes[a0 + 5] == 114;
    if !is_bearer {
        return Err(CoreError::Unauthorized);
    }
    let a1 = skip_sp(bytes, c0);
    let c1 = find_sp(bytes, a1);
    if c1 <= a1 {
        return Err(CoreError::Unauthorized);
    }
    let ghost tok = s.subrange(a1 as int, c1 as int);
    proof {
        assert(spec_parse_bearer(s) == Some(tok));
    }
    let mut out: Vec<u8> = Vec::new();
    let mut k = a1;
    while k < c1
        invariant
            a1 <= k <= c1 <= bytes@.len(),
            out@ =~= tok.subrange(0, k - a1),
            all_ascii(out@),
        decreases c1 - k,
    {
        let b = bytes[k];
        if b >= 128 {
            proof {
                assert(tok[k - a1] == b);
                assert(!all_ascii(tok));
            }
            return Err(CoreError::Unauthorized);
        }
        out.push(b);
        k = k + 1;
        proof {
            assert(out@ =~= tok.subrange(0, k - a1));
        }
    }
    proof {
        assert(out@ =~= tok);
        assert(all_ascii(tok));
    }
    Ok(crate::digits::ascii_to_string(out))
}

/// What authorization promises of the token text it accepted: any
/// unexpired claims the token encodes under the secret are exactly what
/// the caller is authorized as.
pub open spec fn authorized_post(
    tokc: Seq<char>,
    secret: Seq<char>,
    now: u64,
    r: Result<AuthorizationService, CoreError>,
) -> bool {
    forall|c: ClaimsView|
        #![trigger hs256_token(c, secret)]
        claims_view_wf(c) && tokc == hs256_token(c, secret) && now <= c.exp ==> (r matches Ok(a)
            && a.id@ == c.sub)
}

/// The authorized caller: the account id a verified bearer token speaks
/// for.
#[derive(Debug, PartialEq)]
pub struct AuthorizationService {
    pub id: String,
}

impl AuthorizationService {
    /// Authorize one request from its Authorization header: a well-formed
    /// bearer header whose unexpired token verifies under the secret
    /// yields the token's subject; everything else is `Unauthorized`. The
    /// converse holds too: nothing is authorized unless the header carried
    /// a token the raw decode accepts under the secret.
    pub fn from_request(header: &str, secret: &str, now: u64) -> (r: Result<
        AuthorizationService,
        CoreError,
    >)
        ensures
            spec_parse_bearer(header.spec_bytes()) is None ==> r == Err::<
                AuthorizationService,
                CoreError,
            >(CoreError::Unauthorized),
            r matches Err(e) ==> e == CoreError::Unauthorized,
            spec_parse_bearer(header.spec_bytes()) matches Some(tok) ==> (all_ascii(tok)
                ==> authorized_post(ascii_chars(tok), secret@, now, r)),
            r is Ok ==> (spec_parse_bearer(header.spec_bytes()) matches Some(tok) && all_ascii(tok)
                && hs256_signed(ascii_chars(tok), secret@)),
    {
        let token = match parse_bearer(header) {
            Ok(t) => t,
            Err(e) => {
                return Err(e);
            },
        };
        let vr = verify(token.as_str(), secret, now);
        match vr {
            Ok(cl) => Ok(AuthorizationService { id: cl.sub }),
            Err(_) => {
                proof {
                    if spec_parse_bearer(header.spec_bytes()) is Some {
                        let tk = spec_parse_bearer(header.spec_bytes())->Some_0;
                        let r2 = Err::<AuthorizationService, CoreError>(CoreError::Unauthorized);
                        assert forall|c: ClaimsView|
                            #![trigger hs256_token(c, secret@)]
                            claims_view_wf(c) && ascii_chars(tk) == hs256_token(c, secret@) && now
                                <= c.exp implies (r2 matches Ok(a) && a.id@ == c.sub) by {
                            assert(verify_post(token@, secret@, now, vr));
                            assert(token@ == hs256_token(c, secret@));
                            assert(vr matches Ok(cl2) && cl2@ == c);
                            assert(false);
                        }
                        assert(authorized_post(ascii_chars(tk), secret@, now, r2));
                    }
                }
                Err(CoreError::Unauthorized)
            },
        }
    }
}

} // verus!

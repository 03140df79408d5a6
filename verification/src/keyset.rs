//! The provider key-set cache: a set of public signing keys, the max-age
//! the provider granted, and the time it was fetched. A cached set is
//! usable only while `now - fetched_at < max_age`; otherwise it must be
//! refreshed before use. The max-age itself is parsed here, from the
//! response's cache-control text.

use vstd::prelude::*;

verus! {

use vstd::string::StringSliceAdditionalSpecFns;

/// One public signing key, reduced to what verification needs: the key id
/// and the two RSA components, base64url as the provider publishes them.
#[derive(Debug, PartialEq)]
pub struct JwkKey {
    pub kid: String,
    pub n: String,
    pub e: String,
}

/// The cached key set.
#[derive(Debug)]
pub struct KeySetCache {
    pub keys: Vec<JwkKey>,
    pub max_age: u64,
    pub fetched_at: u64,
}

impl KeySetCache {
    /// Usable exactly while the granted max-age has not elapsed.
    pub open spec fn is_fresh(&self, now: u64) -> bool {
        (now as int) < self.fetched_at + self.max_age
    }
}

/// Whether a fetch is needed before the cache may be used.
pub open spec fn needs_refresh_spec(cache: Option<&KeySetCache>, now: u64) -> bool {
    match cache {
        Some(c) => !c.is_fresh(now),
        None => true,
    }
}

/// Decide whether the key set must be fetched before use.
pub fn needs_refresh(cache: Option<&KeySetCache>, now: u64) -> (r: bool)
    ensures
        r == needs_refresh_spec(cache, now),
{
    match cache {
        Some(c) => {
            if now >= c.fetched_at {
                now - c.fetched_at >= c.max_age
            } else {
                false
            }
        },
        None => true,
    }
}

/// Law: freshness is sharp. A set fetched at `t0` under max-age `m` is
/// used without a refetch at any instant before `t0 + m`, and is refetched
/// at every instant from `t0 + m` on.
pub proof fn lemma_cache_freshness(c: KeySetCache, t: u64)
    ensures
        (t as int) < c.fetched_at + c.max_age ==> !needs_refresh_spec(Some(&c), t),
        (t as int) >= c.fetched_at + c.max_age ==> needs_refresh_spec(Some(&c), t),
{
}

/// Some key of the set carries this key id.
pub open spec fn has_kid(keys: Seq<JwkKey>, kid: Seq<char>) -> bool {
    exists|i: int| 0 <= i < keys.len() && (#[trigger] keys[i].kid@) == kid
}

/// Find the first key carrying the key id.
pub fn find_key<'a>(keys: &'a Vec<JwkKey>, kid: &str) -> (r: Option<&'a JwkKey>)
    ensures
        match r {
            Some(k) => has_kid(keys@, kid@) && k.kid@ == kid@ && (exists|i: int|
                #![trigger keys@[i]]
                {
                    &&& 0 <= i < keys@.len()
                    &&& keys@[i] == *k
                    &&& (forall|j: int| 0 <= j < i ==> (#[trigger] keys@[j].kid@) != kid@)
                }),
            None => !has_kid(keys@, kid@),
        },
{
    let n = keys.len();
    let mut i: usize = 0;
    while i < n
        invariant
            n == keys@.len(),
            i <= n,
            forall|j: int| 0 <= j < i ==> (#[trigger] keys@[j].kid@) != kid@,
        decreases n - i,
    {
        if crate::util::str_eq(keys[i].kid.as_str(), kid) {
            return Some(&keys[i]);
        }
        i = i + 1;
    }
    None
}

/// Install a freshly fetched key set, stamped at `now`. Duplicate fetches
/// are safe: whichever lands last simply restamps the cache.
pub fn apply_fetch(cache: &mut Option<KeySetCache>, keys: Vec<JwkKey>, max_age: u64, now: u64)
    ensures
        match *final(cache) {
            Some(c) => c.keys@ == keys@ && c.max_age == max_age && c.fetched_at == now,
            None => false,
        },
{
    *cache = Some(KeySetCache { keys, max_age, fetched_at: now });
}

/// An ASCII space or horizontal tab, the padding allowed around header
/// directives.
pub open spec fn is_sp(b: u8) -> bool {
    b == 32 || b == 9
}

/// The first index at or after `i` holding a non-space, or the end.
pub open spec fn spec_skip_sp(s: Seq<u8>, i: int) -> int
    decreases s.len() - i when 0 <= i <= s.len()
{
    if i < s.len() && is_sp(s[i]) {
        spec_skip_sp(s, i + 1)
    } else {
        i
    }
}

/// The first comma at or after `i`, or the end.
pub open spec fn spec_find_comma(s: Seq<u8>, i: int) -> int
    decreases s.len() - i when 0 <= i <= s.len()
{
    if i < s.len() {
        if s[i] == 44 {
            i
        } else {
            spec_find_comma(s, i + 1)
        }
    } else {
        i
    }
}

/// The end of `[a, b)` with trailing spaces dropped.
pub open spec fn spec_trim_back(s: Seq<u8>, a: int, b: int) -> int
    decreases b - a when 0 <= a <= b <= s.len()
{
    if b > a && is_sp(s[b - 1]) {
        spec_trim_back(s, a, b - 1)
    } else {
        b
    }
}

/// The bytes of `max-age=` stand at index `a`.
pub open spec fn is_max_age_prefix(s: Seq<u8>, a: int) -> bool {
    &&& s[a] == 109
    &&& s[a + 1] == 97
    &&& s[a + 2] == 120
    &&& s[a + 3] == 45
    &&& s[a + 4] == 97
    &&& s[a + 5] == 103
    &&& s[a + 6] == 101
    &&& s[a + 7] == 61
}

/// The number the decimal digits of `[a, e)` spell, read most significant
/// first.
pub open spec fn spec_digits_val(s: Seq<u8>, a: int, e: int) -> int
    decreases e - a when a <= e
{
    if a >= e {
        0
    } else {
        spec_digits_val(s, a, e - 1) * 10 + (s[e - 1] - 48)
    }
}

/// Every byte of `[a, e)` is a decimal digit.
pub open spec fn all_digits(s: Seq<u8>, a: int, e: int) -> bool {
    forall|k: int| a <= k < e ==> 48 <= #[trigger] s[k] <= 57
}

/// The value of `[a, e)` as an unsigned 64-bit number: present exactly
/// when the range is a nonempty run of digits whose value fits.
pub open spec fn spec_parse_u64(s: Seq<u8>, a: int, e: int) -> Option<u64> {
    if a < e && all_digits(s, a, e) && spec_digits_val(s, a, e) <= u64::MAX {
        Some(spec_digits_val(s, a, e) as u64)
    } else {
        None
    }
}

proof fn lemma_skip_sp_bounds(s: Seq<u8>, i: int)
    requires
        0 <= i <= s.len(),
    ensures
        i <= spec_skip_sp(s, i) <= s.len(),
    decreases s.len() - i,
{
    if i < s.len() && is_sp(s[i]) {
        lemma_skip_sp_bounds(s, i + 1);
    }
}

proof fn lemma_find_comma_bounds(s: Seq<u8>, i: int)
    requires
        0 <= i <= s.len(),
    ensures
        i <= spec_find_comma(s, i) <= s.len(),
    decreases s.len() - i,
{
    if i < s.len() && s[i] != 44 {
        lemma_find_comma_bounds(s, i + 1);
    }
}

/// The max-age directive's value, scanning the comma-separated directives
/// from index `i`: the first directive that, after trimming, starts with
/// `max-age=` decides the answer — its remainder must be a run of digits
/// that fits, else the header yields nothing.
pub open spec fn spec_scan_max_age(s: Seq<u8>, i: int) -> Option<u64>
    decreases s.len() - i when 0 <= i <= s.len() via spec_scan_max_age_decreases
{
    if i >= s.len() {
        None
    } else {
        let a = spec_skip_sp(s, i);
        let c = spec_find_comma(s, a);
        let e = spec_trim_back(s, a, c);
        if e - a >= 8 && is_max_age_prefix(s, a) {
            spec_parse_u64(s, a + 8, e)
        } else if c < s.len() {
            spec_scan_max_age(s, c + 1)
        } else {
            None
        }
    }
}

#[via_fn]
proof fn spec_scan_max_age_decreases(s: Seq<u8>, i: int) {
    if 0 <= i <= s.len() && i < s.len() {
        lemma_skip_sp_bounds(s, i);
        lemma_find_comma_bounds(s, spec_skip_sp(s, i));
    }
}

/// What a cache-control header grants: the value of its max-age directive.
pub open spec fn spec_max_age(s: Seq<u8>) -> Option<u64> {
    spec_scan_max_age(s, 0)
}

pub(crate) fn skip_sp(bytes: &[u8], i: usize) -> (r: usize)
    requires
        i <= bytes@.len(),
    ensures
        r == spec_skip_sp(bytes@, i as int),
        i <= r <= bytes@.len(),
{
    let n = bytes.len();
    let mut j = i;
    while j < n && (bytes[j] == 32 || bytes[j] == 9)
        invariant
            i <= j <= n,
            n == bytes@.len(),
            spec_skip_sp(bytes@, i as int) == spec_skip_sp(bytes@, j as int),
        decreases n - j,
    {
        j = j + 1;
    }
    j
}

fn find_comma(bytes: &[u8], i: usize) -> (r: usize)
    requires
        i <= bytes@.len(),
    ensures
        r == spec_find_comma(bytes@, i as int),
        i <= r <= bytes@.len(),
{
    let n = bytes.len();
    let mut j = i;
    while j < n && bytes[j] != 44
        invariant
            i <= j <= n,
            n == bytes@.len(),
            spec_find_comma(bytes@, i as int) == spec_find_comma(bytes@, j as int),
        decreases n - j,
    {
        j = j + 1;
    }
    j
}

fn trim_back(bytes: &[u8], a: usize, b: usize) -> (r: usize)
    requires
        a <= b <= bytes@.len(),
    ensures
        r == spec_trim_back(bytes@, a as int, b as int),
        a <= r <= b,
{
    let mut j = b;
    while j > a && (bytes[j - 1] == 32 || bytes[j - 1] == 9)
        invariant
            a <= j <= b,
            b <= bytes@.len(),
            spec_trim_back(bytes@, a as int, b as int) == spec_trim_back(bytes@, a as int, j as int),
        decreases j,
    {
        j = j - 1;
    }
    j
}

proof fn lemma_digits_val_nonneg(s: Seq<u8>, a: int, e: int)
    requires
        a <= e,
        all_digits(s, a, e),
    ensures
        spec_digits_val(s, a, e) >= 0,
    decreases e - a,
{
    if a < e {
        lemma_digits_val_nonneg(s, a, e - 1);
    }
}

proof fn lemma_digits_val_mono(s: Seq<u8>, a: int, k: int, e: int)
    requires
        a <= k <= e,
        all_digits(s, a, e),
    ensures
        spec_digits_val(s, a, k) <= spec_digits_val(s, a, e),
    decreases e - k,
{
    if k < e {
        lemma_digits_val_mono(s, a, k, e - 1);
        lemma_digits_val_nonneg(s, a, e - 1);
    }
}

fn parse_u64_range(bytes: &[u8], a: usize, e: usize) -> (r: Option<u64>)
    requires
        a <= e <= bytes@.len(),
    ensures
        r == spec_parse_u64(bytes@, a as int, e as int),
{
    if a >= e {
        return None;
    }
    let mut val: u64 = 0;
    let mut k = a;
    while k < e
        invariant
            a <= k <= e <= bytes@.len(),
            a < e,
            all_digits(bytes@, a as int, k as int),
            val == spec_digits_val(bytes@, a as int, k as int),
        decreases e - k,
    {
        let b = bytes[k];
        if b < 48 || b > 57 {
            proof {
                assert(!all_digits(bytes@, a as int, e as int));
            }
            return None;
        }
        let d = b - 48;
        if val > (u64::MAX - (d as u64)) / 10 {
            proof {
                assert(all_digits(bytes@, a as int, k + 1));
                assert(spec_digits_val(bytes@, a as int, k + 1) == val * 10 + d);
                assert(spec_digits_val(bytes@, a as int, k + 1) > u64::MAX);
                if all_digits(bytes@, a as int, e as int) {
                    lemma_digits_val_mono(bytes@, a as int, k + 1, e as int);
                }
            }
            return None;
        }
        val = val * 10 + (d as u64);
        k = k + 1;
    }
    Some(val)
}

/// Parse the max-age directive out of a cache-control header, exactly as
/// `spec_max_age` reads it.
#[verifier::loop_isolation(false)]
pub fn parse_max_age(header: &str) -> (r: Option<u64>)
    ensures
        r == spec_max_age(header.spec_bytes()),
{
    let bytes = header.as_bytes();
    let ghost s = header.spec_bytes();
    let n = bytes.len();
    let mut i: usize = 0;
    loop
        invariant
            i <= n,
            n == s.len(),
            bytes@ == s,
            spec_max_age(s) == spec_scan_max_age(s, i as int),
        decreases n - i,
    {
        if i >= n {
            proof {
                assert(spec_scan_max_age(s, i as int) is None);
            }
            return None;
        }
        let a = skip_sp(bytes, i);
        let c = find_comma(bytes, a);
        let e = trim_back(bytes, a, c);
        let matched = e - a >= 8 && bytes[a] == 109 && bytes[a + 1] == 97 && bytes[a + 2] == 120
            && bytes[a + 3] == 45 && bytes[a + 4] == 97 && bytes[a + 5] == 103 && bytes[a + 6]
            == 101 && bytes[a + 7] == 61;
        if matched {
            return parse_u64_range(bytes, a + 8, e);
        }
        if c < n {
            i = c + 1;
        } else {
            proof {
                assert(spec_scan_max_age(s, i as int) is None);
            }
            return None;
        }
    }
}

} // verus!

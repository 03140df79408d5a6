//! The one-time email-verification code store: short-lived records keyed by
//! email, each holding a six-digit code and a pending / used flag, lapsing
//! after a fixed time-to-live. A code can be consumed at most once.

use vstd::prelude::*;
use vstd::map::*;

use crate::errors::CoreError;
use crate::util::str_eq;

verus! {

/// How long a verification code stays usable, in seconds.
pub const CODE_TTL_SECONDS: u64 = 600;

/// One stored verification record.
#[derive(Debug)]
pub struct VerificationRecord {
    pub email: String,
    pub code: u32,
    pub used: bool,
    pub expires_at: u64,
}

/// The mathematical image of one record: what the store holds for an email.
#[derive(PartialEq, Eq, Structural)]
pub struct CodeEntry {
    pub code: u32,
    pub used: bool,
    pub expires_at: u64,
}

/// The store itself. Its view is a map from email (as a character
/// sequence) to the entry held for it; at most one record exists per email.
pub struct VerificationCodeStore {
    records: Vec<VerificationRecord>,
}

/// Whether a stored entry is still usable at `now`: records past their
/// expiry are treated exactly as absent.
pub open spec fn live(e: CodeEntry, now: u64) -> bool {
    now < e.expires_at
}

/// What `confirm` answers, as a function of the store image: absent or
/// lapsed records are `NotFound`; a matching pending code succeeds; a used
/// record answers `AlreadyConsumed` whatever code is offered; a live
/// pending record with the wrong code answers `Unauthorized`.
pub open spec fn confirm_result(
    m: Map<Seq<char>, CodeEntry>,
    email: Seq<char>,
    code: u32,
    now: u64,
) -> Result<(), CoreError> {
    if !m.contains_key(email) || !live(m[email], now) {
        Err(CoreError::NotFound)
    } else if m[email].code == code && !m[email].used {
        Ok(())
    } else if m[email].used {
        Err(CoreError::AlreadyConsumed)
    } else {
        Err(CoreError::Unauthorized)
    }
}

/// What `confirm` leaves behind: on success the entry flips to used, on
/// failure nothing changes.
pub open spec fn confirm_next(
    m: Map<Seq<char>, CodeEntry>,
    email: Seq<char>,
    code: u32,
    now: u64,
) -> Map<Seq<char>, CodeEntry> {
    if confirm_result(m, email, code, now) is Ok {
        m.insert(
            email,
            CodeEntry { code: m[email].code, used: true, expires_at: m[email].expires_at },
        )
    } else {
        m
    }
}

pub open spec fn entry_at(s: Seq<VerificationRecord>, i: int) -> CodeEntry {
    CodeEntry { code: s[i].code, used: s[i].used, expires_at: s[i].expires_at }
}

impl View for VerificationCodeStore {
    type V = Map<Seq<char>, CodeEntry>;

    closed spec fn view(&self) -> Map<Seq<char>, CodeEntry> {
        Map::new(
            |k: Seq<char>|
                exists|i: int|
                    0 <= i < self.records@.len() && (#[trigger] self.records@[i].email@) == k,
            |k: Seq<char>|
                entry_at(
                    self.records@,
                    choose|i: int|
                        0 <= i < self.records@.len() && (#[trigger] self.records@[i].email@) == k,
                ),
        )
    }
}

impl VerificationCodeStore {
    /// No two records share an email.
    pub closed spec fn wf(&self) -> bool {
        forall|i: int, j: int|
            0 <= i < j < self.records@.len() ==> (#[trigger] self.records@[i].email@) != (
            #[trigger] self.records@[j].email@)
    }

    pub fn new() -> (r: VerificationCodeStore)
        ensures
            r.wf(),
            r@ == Map::<Seq<char>, CodeEntry>::empty(),
    {
        let r = VerificationCodeStore { records: Vec::new() };
        proof {
            assert_maps_equal!(r@, Map::<Seq<char>, CodeEntry>::empty(), k => {});
        }
        r
    }

    fn find(&self, email: &str) -> (r: Option<usize>)
        requires
            self.wf(),
        ensures
            match r {
                Some(i) => 0 <= i < self.records@.len() && self.records@[i as int].email@
                    == email@,
                None => !self@.contains_key(email@),
            },
    {
        let n = self.records.len();
        let mut i: usize = 0;
        while i < n
            invariant
                n == self.records@.len(),
                i <= n,
                forall|j: int| 0 <= j < i ==> (#[trigger] self.records@[j].email@) != email@,
            decreases n - i,
        {
            if str_eq(self.records[i].email.as_str(), email) {
                return Some(i);
            }
            i = i + 1;
        }
        None
    }

    /// The entry the store holds for an email, while it is live at `now`.
    pub fn lookup(&self, email: &str, now: u64) -> (r: Option<CodeEntry>)
        requires
            self.wf(),
        ensures
            r == if self@.contains_key(email@) && live(self@[email@], now) {
                Some(self@[email@])
            } else {
                Option::<CodeEntry>::None
            },
    {
        match self.find(email) {
            Some(i) => {
                let rec = &self.records[i];
                proof {
                    let k = choose|k: int|
                        0 <= k < self.records@.len() && (#[trigger] self.records@[k].email@)
                            == email@;
                    assert(k == i as int);
                }
                if now < rec.expires_at {
                    Some(CodeEntry { code: rec.code, used: rec.used, expires_at: rec.expires_at })
                } else {
                    None
                }
            },
            None => None,
        }
    }

    /// Store a fresh pending code for an email, replacing any earlier
    /// record, with the full time-to-live ahead of it.
    pub fn put_pending(&mut self, email: &str, code: u32, now: u64)
        requires
            old(self).wf(),
            now + CODE_TTL_SECONDS <= u64::MAX,
        ensures
            final(self).wf(),
            final(self)@ == old(self)@.insert(
                email@,
                (CodeEntry { code, used: false, expires_at: (now + CODE_TTL_SECONDS) as u64 }),
            ),
    {
        let expires_at = now + CODE_TTL_SECONDS;
        let rec = VerificationRecord { email: email.to_owned(), code, used: false, expires_at };
        match self.find(email) {
            Some(i) => {
                self.records.remove(i);
                self.records.insert(i, rec);
                proof {
                    assert_maps_equal!(
                        self@,
                        old(self)@.insert(email@,
                            (CodeEntry { code, used: false, expires_at: (now + CODE_TTL_SECONDS) as u64 })),
                        k => {
                            if k == email@ {
                                assert(self.records@[i as int].email@ == k);
                            } else {
                                if old(self)@.contains_key(k) {
                                    let j = choose|j: int| 0 <= j < old(self).records@.len()
                                        && (#[trigger] old(self).records@[j].email@) == k;
                                    assert(self.records@[j].email@ == k);
                                }
                                if self@.contains_key(k) {
                                    let j = choose|j: int| 0 <= j < self.records@.len()
                                        && (#[trigger] self.records@[j].email@) == k;
                                    assert(old(self).records@[j].email@ == k);
                                }
                            }
                        }
                    );
                }
            },
            None => {
                self.records.push(rec);
                proof {
                    let n = old(self).records@.len() as int;
                    assert_maps_equal!(
                        self@,
                        old(self)@.insert(email@,
                            (CodeEntry { code, used: false, expires_at: (now + CODE_TTL_SECONDS) as u64 })),
                        k => {
                            if k == email@ {
                                assert(self.records@[n].email@ == k);
                            } else {
                                if old(self)@.contains_key(k) {
                                    let j = choose|j: int| 0 <= j < old(self).records@.len()
                                        && (#[trigger] old(self).records@[j].email@) == k;
                                    assert(self.records@[j].email@ == k);
                                }
                                if self@.contains_key(k) {
                                    let j = choose|j: int| 0 <= j < self.records@.len()
                                        && (#[trigger] self.records@[j].email@) == k;
                                    assert(j < n);
                                    assert(old(self).records@[j].email@ == k);
                                }
                            }
                        }
                    );
                }
            },
        }
    }

    /// Consume a code: exactly `confirm_result` is answered and exactly
    /// `confirm_next` is left behind. Success flips the record to used, and
    /// a used record can never be consumed again.
    pub fn confirm(&mut self, email: &str, code: u32, now: u64) -> (r: Result<(), CoreError>)
        requires
            old(self).wf(),
        ensures
            final(self).wf(),
            r == confirm_result(old(self)@, email@, code, now),
            final(self)@ == confirm_next(old(self)@, email@, code, now),
    {
        match self.find(email) {
            Some(i) => {
                proof {
                    let k = choose|k: int|
                        0 <= k < self.records@.len() && (#[trigger] self.records@[k].email@)
                            == email@;
                    assert(k == i as int);
                }
                let rec = &self.records[i];
                if now >= rec.expires_at {
                    return Err(CoreError::NotFound);
                }
                if rec.code == code && !rec.used {
                    let expires_at = rec.expires_at;
                    let stored_code = rec.code;
                    let new_rec = VerificationRecord {
                        email: email.to_owned(),
                        code: stored_code,
                        used: true,
                        expires_at,
                    };
                    self.records.remove(i);
                    self.records.insert(i, new_rec);
                    proof {
                        assert_maps_equal!(
                            self@,
                            confirm_next(old(self)@, email@, code, now),
                            k => {
                                if k == email@ {
                                    assert(self.records@[i as int].email@ == k);
                                } else {
                                    if old(self)@.contains_key(k) {
                                        let j = choose|j: int| 0 <= j < old(self).records@.len()
                                            && (#[trigger] old(self).records@[j].email@) == k;
                                        assert(self.records@[j].email@ == k);
                                    }
                                    if self@.contains_key(k) {
                                        let j = choose|j: int| 0 <= j < self.records@.len()
                                            && (#[trigger] self.records@[j].email@) == k;
                                        assert(old(self).records@[j].email@ == k);
                                    }
                                }
                            }
                        );
                    }
                    Ok(())
                } else if rec.used {
                    Err(CoreError::AlreadyConsumed)
                } else {
                    Err(CoreError::Unauthorized)
                }
            },
            None => Err(CoreError::NotFound),
        }
    }

    /// Whether the email stands verified: a live record already consumed.
    pub fn is_verified(&self, email: &str, now: u64) -> (r: bool)
        requires
            self.wf(),
        ensures
            r == (self@.contains_key(email@) && live(self@[email@], now) && self@[email@].used),
    {
        match self.lookup(email, now) {
            Some(e) => e.used,
            None => false,
        }
    }

    /// Drop the record for an email, so a consumed verification cannot be
    /// replayed.
    pub fn remove(&mut self, email: &str)
        requires
            old(self).wf(),
        ensures
            final(self).wf(),
            final(self)@ == old(self)@.remove(email@),
    {
        match self.find(email) {
            Some(i) => {
                proof {
                    let k = choose|k: int|
                        0 <= k < self.records@.len() && (#[trigger] self.records@[k].email@)
                            == email@;
                    assert(k == i as int);
                }
                self.records.remove(i);
                proof {
                    assert_maps_equal!(
                        self@,
                        old(self)@.remove(email@),
                        k => {
                            if k != email@ {
                                if old(self)@.contains_key(k) {
                                    let j = choose|j: int| 0 <= j < old(self).records@.len()
                                        && (#[trigger] old(self).records@[j].email@) == k;
                                    if j < i as int {
                                        assert(self.records@[j].email@ == k);
                                    } else {
                                        assert(self.records@[j - 1].email@ == k);
                                    }
                                }
                                if self@.contains_key(k) {
                                    let j = choose|j: int| 0 <= j < self.records@.len()
                                        && (#[trigger] self.records@[j].email@) == k;
                                    if j < i as int {
                                        assert(old(self).records@[j].email@ == k);
                                    } else {
                                        assert(old(self).records@[j + 1].email@ == k);
                                    }
                                }
                            } else {
                                if self@.contains_key(k) {
                                    let j = choose|j: int| 0 <= j < self.records@.len()
                                        && (#[trigger] self.records@[j].email@) == k;
                                    if j < i as int {
                                        assert(old(self).records@[j].email@ == k);
                                    } else {
                                        assert(old(self).records@[j + 1].email@ == k);
                                    }
                                }
                            }
                        }
                    );
                }
            },
            None => {
                proof {
                    assert_maps_equal!(
                        self@,
                        old(self)@.remove(email@),
                        k => {}
                    );
                }
            },
        }
    }
}

/// Law: a code is consumable at most once. After a successful confirm, a
/// second confirm for the same email — with any code, right or wrong —
/// answers `AlreadyConsumed` while the record lives, and `NotFound` once it
/// has lapsed. It never succeeds again.
pub proof fn lemma_code_single_use(
    m: Map<Seq<char>, CodeEntry>,
    email: Seq<char>,
    code: u32,
    code2: u32,
    now1: u64,
    now2: u64,
)
    requires
        confirm_result(m, email, code, now1) is Ok,
    ensures
        ({
            let m2 = confirm_next(m, email, code, now1);
            confirm_result(m2, email, code2, now2) == if now2 < m[email].expires_at {
                Err::<(), CoreError>(CoreError::AlreadyConsumed)
            } else {
                Err::<(), CoreError>(CoreError::NotFound)
            }
        }),
{
}

/// Law: once the time-to-live has elapsed, confirm answers `NotFound` even
/// with the correct code, exactly as if no record existed.
pub proof fn lemma_code_expiry(
    m: Map<Seq<char>, CodeEntry>,
    email: Seq<char>,
    code: u32,
    now: u64,
)
    requires
        !m.contains_key(email) || now >= m[email].expires_at,
    ensures
        confirm_result(m, email, code, now) == Err::<(), CoreError>(CoreError::NotFound),
{
}

} // verus!

//! The profile patch engine: an ordered list of add / update / remove
//! operations applied to one profile, each operation committing
//! independently. Every entry added to a collection receives a fresh
//! server-assigned field-id, collections are capped, and update / remove
//! address entries by field-id only.

use vstd::prelude::*;

use crate::errors::CoreError;
use crate::profile::{
    Education, Experience, GetFieldId, Profile, ProfileModel, ProfileValue, Skills, UpdateFieldId,
};
use crate::util::str_eq;

verus! {

/// The per-collection cap on profile entries.
pub const MAX_PROFILE_FIELD: usize = 5;

/// Source of fresh field-ids. Ids are handed out in increasing order and
/// never repeat, which is what makes removed ids unusable forever.
pub struct FieldIdGen {
    next: u64,
}

impl FieldIdGen {
    /// The next id this generator will hand out.
    pub closed spec fn spec_next(&self) -> u64 {
        self.next
    }

    pub fn new() -> (r: FieldIdGen)
        ensures
            r.spec_next() == 1,
    {
        FieldIdGen { next: 1 }
    }

    /// Hand out one fresh id.
    fn fresh(&mut self) -> (r: u64)
        requires
            old(self).spec_next() < u64::MAX,
        ensures
            r == old(self).spec_next(),
            final(self).spec_next() == old(self).spec_next() + 1,
    {
        let id = self.next;
        self.next = self.next + 1;
        id
    }
}

/// Whether an optional id lies below `bound`.
pub open spec fn opt_id_below(o: Option<u64>, bound: u64) -> bool {
    match o {
        Some(x) => x < bound,
        None => true,
    }
}

/// Every entry carries an id, all ids lie below `bound`, and no id repeats.
pub open spec fn entries_wf<T: GetFieldId>(s: Seq<T>, bound: u64) -> bool {
    &&& (forall|i: int| 0 <= i < s.len() ==> (#[trigger] s[i].spec_field_id()) is Some)
    &&& (forall|i: int| 0 <= i < s.len() ==> opt_id_below(#[trigger] s[i].spec_field_id(), bound))
    &&& (forall|i: int, j: int|
        0 <= i < j < s.len() ==> #[trigger] s[i].spec_field_id() != #[trigger] s[j].spec_field_id())
}

/// Some entry of `s` carries the id.
pub open spec fn has_id<T: GetFieldId>(s: Seq<T>, id: u64) -> bool {
    exists|i: int| 0 <= i < s.len() && (#[trigger] s[i].spec_field_id()) == Some(id)
}

/// The index of the entry carrying `id`; meaningful only under
/// `entries_wf`, where at most one entry can carry it.
pub open spec fn idx_of<T: GetFieldId>(s: Seq<T>, id: u64) -> int {
    choose|i: int| 0 <= i < s.len() && (#[trigger] s[i].spec_field_id()) == Some(id)
}

/// A profile is well-formed against a generator bound when each of its
/// three collections is.
pub open spec fn profile_wf(m: ProfileModel, bound: u64) -> bool {
    &&& entries_wf(m.education, bound)
    &&& entries_wf(m.experience, bound)
    &&& entries_wf(m.skills, bound)
}

/// Adding to a full collection is refused; otherwise the entry is appended
/// with the fresh id.
pub open spec fn spec_add<T: GetFieldId + UpdateFieldId>(s: Seq<T>, value: T, id: u64, max: int) -> Result<
    Seq<T>,
    CoreError,
> {
    if s.len() >= max {
        Err(CoreError::LimitExceeded)
    } else {
        Ok(s.push(value.with_field_id(Some(id))))
    }
}

/// Wholesale replacement of the entry carrying `id`, keeping that id.
pub open spec fn spec_update<T: GetFieldId + UpdateFieldId>(s: Seq<T>, value: T, id: u64) -> Result<
    Seq<T>,
    CoreError,
> {
    if has_id(s, id) {
        Ok(s.update(idx_of(s, id), value.with_field_id(Some(id))))
    } else {
        Err(CoreError::NotFound)
    }
}

/// Deletion of the entry carrying `id`.
pub open spec fn spec_remove<T: GetFieldId>(s: Seq<T>, id: u64) -> Result<Seq<T>, CoreError> {
    if has_id(s, id) {
        Ok(s.remove(idx_of(s, id)))
    } else {
        Err(CoreError::NotFound)
    }
}

/// Find the entry carrying `id`.
pub(crate) fn find_by_id<T: GetFieldId>(v: &Vec<T>, id: u64) -> (r: Option<usize>)
    ensures
        match r {
            Some(i) => 0 <= i < v@.len() && v@[i as int].spec_field_id() == Some(id),
            None => !has_id(v@, id),
        },
{
    let n = v.len();
    let mut i: usize = 0;
    while i < n
        invariant
            n == v@.len(),
            i <= n,
            forall|j: int| 0 <= j < i ==> (#[trigger] v@[j].spec_field_id()) != Some(id),
        decreases n - i,
    {
        let fid = v[i].get_field_id();
        if let Some(f) = fid {
            if f == id {
                return Some(i);
            }
        }
        i = i + 1;
    }
    None
}

/// Append `value` under a fresh id, unless the collection is full.
pub(crate) fn add_entry<T: GetFieldId + UpdateFieldId>(
    v: &mut Vec<T>,
    gen: &mut FieldIdGen,
    value: T,
    max: usize,
) -> (r: Result<(), CoreError>)
    requires
        old(gen).spec_next() < u64::MAX,
        value.update_allowed(Some(old(gen).spec_next())),
    ensures
        match spec_add(old(v)@, value, old(gen).spec_next(), max as int) {
            Ok(s) => r is Ok && final(v)@ == s && final(gen).spec_next() == old(gen).spec_next()
                + 1,
            Err(e) => {
                &&& r == Err::<(), CoreError>(e)
                &&& final(v)@ == old(v)@
                &&& final(gen).spec_next() == old(gen).spec_next()
            },
        },
{
    if v.len() >= max {
        return Err(CoreError::LimitExceeded);
    }
    let id = gen.fresh();
    let mut value = value;
    value.update_field_id(Some(id));
    v.push(value);
    Ok(())
}

/// Replace the entry carrying the id of `value` wholesale, keeping the id.
pub(crate) fn update_entry<T: GetFieldId + UpdateFieldId>(v: &mut Vec<T>, value: T, id: u64) -> (r: Result<
    (),
    CoreError,
>)
    requires
        entries_wf(old(v)@, u64::MAX),
        value.update_allowed(Some(id)),
    ensures
        match spec_update(old(v)@, value, id) {
            Ok(s) => r is Ok && final(v)@ == s,
            Err(e) => r == Err::<(), CoreError>(e) && final(v)@ == old(v)@,
        },
{
    match find_by_id(v, id) {
        Some(i) => {
            let mut value = value;
            value.update_field_id(Some(id));
            v.remove(i);
            v.insert(i, value);
            proof {
                let k = idx_of(old(v)@, id);
                assert(old(v)@[k].spec_field_id() == Some(id));
                assert(k == i);
                assert(v@ =~= old(v)@.update(i as int, value));
            }
            Ok(())
        },
        None => Err(CoreError::NotFound),
    }
}

/// Delete the entry carrying `id`.
pub(crate) fn remove_entry<T: GetFieldId>(v: &mut Vec<T>, id: u64) -> (r: Result<(), CoreError>)
    requires
        entries_wf(old(v)@, u64::MAX),
    ensures
        match spec_remove(old(v)@, id) {
            Ok(s) => r is Ok && final(v)@ == s,
            Err(e) => r == Err::<(), CoreError>(e) && final(v)@ == old(v)@,
        },
{
    match find_by_id(v, id) {
        Some(i) => {
            v.remove(i);
            proof {
                let k = idx_of(old(v)@, id);
                assert(old(v)@[k].spec_field_id() == Some(id));
                assert(k == i);
            }
            Ok(())
        },
        None => Err(CoreError::NotFound),
    }
}

/// One patch order as submitted by a client: an operation word, a target
/// collection name, and a tagged payload.
#[derive(Debug, PartialEq)]
pub struct ProfilePatch {
    pub op: String,
    pub target: String,
    pub value: ProfileValue,
}

/// The mathematical image of one patch order.
pub struct PatchModel {
    pub op: Seq<char>,
    pub target: Seq<char>,
    pub value: ProfileValue,
}

impl View for ProfilePatch {
    type V = PatchModel;

    open spec fn view(&self) -> PatchModel {
        PatchModel { op: self.op@, target: self.target@, value: self.value }
    }
}

/// The payload's field-id, demanded by update and remove.
pub open spec fn payload_id(value: ProfileValue) -> Option<u64> {
    value.spec_field_id()
}

/// What one operation does to a profile and to the id generator: the whole
/// patch protocol in one definition. Unknown operation words are refused
/// first, then unknown targets; add is refused on a full collection; update
/// and remove are refused when no entry carries the addressed id; a payload
/// whose tag does not fit the operation or target is structurally invalid.
pub open spec fn apply_op_spec(
    m: ProfileModel,
    next: u64,
    p: PatchModel,
    now: u64,
) -> Result<(ProfileModel, u64), CoreError> {
    if p.op == "add"@ {
        if p.target == "education"@ {
            if m.education.len() >= MAX_PROFILE_FIELD {
                Err(CoreError::LimitExceeded)
            } else {
                match p.value {
                    ProfileValue::Education(e) => Ok(
                        (
                            ProfileModel {
                                education: m.education.push(e.with_field_id(Some(next))),
                                date_updated: Some(now),
                                ..m
                            },
                            (next + 1) as u64,
                        ),
                    ),
                    _ => Err(CoreError::Malformed),
                }
            }
        } else if p.target == "experience"@ {
            if m.experience.len() >= MAX_PROFILE_FIELD {
                Err(CoreError::LimitExceeded)
            } else {
                match p.value {
                    ProfileValue::Experience(e) => Ok(
                        (
                            ProfileModel {
                                experience: m.experience.push(e.with_field_id(Some(next))),
                                date_updated: Some(now),
                                ..m
                            },
                            (next + 1) as u64,
                        ),
                    ),
                    _ => Err(CoreError::Malformed),
                }
            }
        } else if p.target == "skills"@ {
            if m.skills.len() >= MAX_PROFILE_FIELD {
                Err(CoreError::LimitExceeded)
            } else {
                match p.value {
                    ProfileValue::Skills(e) => Ok(
                        (
                            ProfileModel {
                                skills: m.skills.push(e.with_field_id(Some(next))),
                                date_updated: Some(now),
                                ..m
                            },
                            (next + 1) as u64,
                        ),
                    ),
                    _ => Err(CoreError::Malformed),
                }
            }
        } else {
            Err(CoreError::InvalidTarget)
        }
    } else if p.op == "update"@ {
        if p.target == "education"@ {
            match p.value {
                ProfileValue::Education(e) => match e.field_id {
                    Some(id) => match spec_update(m.education, e, id) {
                        Ok(s) => Ok(
                            (ProfileModel { education: s, date_updated: Some(now), ..m }, next),
                        ),
                        Err(er) => Err(er),
                    },
                    None => Err(CoreError::Malformed),
                },
                _ => Err(CoreError::Malformed),
            }
        } else if p.target == "experience"@ {
            match p.value {
                ProfileValue::Experience(e) => match e.field_id {
                    Some(id) => match spec_update(m.experience, e, id) {
                        Ok(s) => Ok(
                            (ProfileModel { experience: s, date_updated: Some(now), ..m }, next),
                        ),
                        Err(er) => Err(er),
                    },
                    None => Err(CoreError::Malformed),
                },
                _ => Err(CoreError::Malformed),
            }
        } else if p.target == "skills"@ {
            match p.value {
                ProfileValue::Skills(e) => match e.field_id {
                    Some(id) => match spec_update(m.skills, e, id) {
                        Ok(s) => Ok(
                            (ProfileModel { skills: s, date_updated: Some(now), ..m }, next),
                        ),
                        Err(er) => Err(er),
                    },
                    None => Err(CoreError::Malformed),
                },
                _ => Err(CoreError::Malformed),
            }
        } else {
            Err(CoreError::InvalidTarget)
        }
    } else if p.op == "remove"@ {
        match payload_id(p.value) {
            Some(id) => {
                if p.target == "education"@ {
                    match spec_remove(m.education, id) {
                        Ok(s) => Ok(
                            (ProfileModel { education: s, date_updated: Some(now), ..m }, next),
                        ),
                        Err(er) => Err(er),
                    }
                } else if p.target == "experience"@ {
                    match spec_remove(m.experience, id) {
                        Ok(s) => Ok(
                            (ProfileModel { experience: s, date_updated: Some(now), ..m }, next),
                        ),
                        Err(er) => Err(er),
                    }
                } else if p.target == "skills"@ {
                    match spec_remove(m.skills, id) {
                        Ok(s) => Ok(
                            (ProfileModel { skills: s, date_updated: Some(now), ..m }, next),
                        ),
                        Err(er) => Err(er),
                    }
                } else {
                    Err(CoreError::InvalidTarget)
                }
            },
            None => Err(CoreError::Malformed),
        }
    } else {
        Err(CoreError::InvalidOperation)
    }
}

pub(crate) proof fn lemma_entries_wf_mono<T: GetFieldId>(s: Seq<T>, b1: u64, b2: u64)
    requires
        entries_wf(s, b1),
        b1 <= b2,
    ensures
        entries_wf(s, b2),
{
    assert forall|i: int| 0 <= i < s.len() implies opt_id_below(
        #[trigger] s[i].spec_field_id(),
        b2,
    ) by {
        assert(opt_id_below(s[i].spec_field_id(), b1));
    }
}

proof fn lemma_entries_wf_push<T: GetFieldId + UpdateFieldId>(s: Seq<T>, value: T, id: u64)
    requires
        entries_wf(s, id),
        id < u64::MAX,
        value.with_field_id(Some(id)).spec_field_id() == Some(id),
    ensures
        entries_wf(s.push(value.with_field_id(Some(id))), (id + 1) as u64),
        !has_id(s, id),
{
    let s2 = s.push(value.with_field_id(Some(id)));
    assert forall|i: int| 0 <= i < s2.len() implies (#[trigger] s2[i].spec_field_id()) is Some
        && opt_id_below(s2[i].spec_field_id(), (id + 1) as u64) by {
        if i < s.len() {
            assert(s2[i] == s[i]);
            assert(opt_id_below(s[i].spec_field_id(), id));
        } else {
            assert(s2[i] == value.with_field_id(Some(id)));
        }
    }
    assert forall|i: int, j: int| 0 <= i < j < s2.len() implies #[trigger] s2[i].spec_field_id()
        != #[trigger] s2[j].spec_field_id() by {
        if j < s.len() {
            assert(s2[i] == s[i] && s2[j] == s[j]);
        } else {
            assert(s2[j].spec_field_id() == Some(id));
            assert(opt_id_below(s[i].spec_field_id(), id));
        }
    }
    if has_id(s, id) {
        let i = choose|i: int| 0 <= i < s.len() && (#[trigger] s[i].spec_field_id()) == Some(id);
        assert(opt_id_below(s[i].spec_field_id(), id));
    }
}

proof fn lemma_entries_wf_update<T: GetFieldId + UpdateFieldId>(
    s: Seq<T>,
    value: T,
    id: u64,
    bound: u64,
)
    requires
        entries_wf(s, bound),
        has_id(s, id),
        value.with_field_id(Some(id)).spec_field_id() == Some(id),
    ensures
        entries_wf(s.update(idx_of(s, id), value.with_field_id(Some(id))), bound),
{
    let k = idx_of(s, id);
    assert(0 <= k < s.len() && s[k].spec_field_id() == Some(id));
    let s2 = s.update(k, value.with_field_id(Some(id)));
    assert(opt_id_below(s[k].spec_field_id(), bound));
    assert forall|i: int| 0 <= i < s2.len() implies (#[trigger] s2[i].spec_field_id()) is Some
        && opt_id_below(s2[i].spec_field_id(), bound) by {
        if i != k {
            assert(s2[i] == s[i]);
            assert(opt_id_below(s[i].spec_field_id(), bound));
        }
    }
    assert forall|i: int, j: int| 0 <= i < j < s2.len() implies #[trigger] s2[i].spec_field_id()
        != #[trigger] s2[j].spec_field_id() by {
        if i != k && j != k {
            assert(s2[i] == s[i] && s2[j] == s[j]);
        } else if i == k {
            assert(s2[j] == s[j] && s[j].spec_field_id() != s[k].spec_field_id());
        } else {
            assert(s2[i] == s[i] && s[i].spec_field_id() != s[k].spec_field_id());
        }
    }
}

proof fn lemma_entries_wf_remove<T: GetFieldId>(s: Seq<T>, k: int, bound: u64)
    requires
        entries_wf(s, bound),
        0 <= k < s.len(),
    ensures
        entries_wf(s.remove(k), bound),
{
    let s2 = s.remove(k);
    assert forall|i: int| 0 <= i < s2.len() implies (#[trigger] s2[i].spec_field_id()) is Some
        && opt_id_below(s2[i].spec_field_id(), bound) by {
        if i < k {
            assert(s2[i] == s[i]);
            assert(opt_id_below(s[i].spec_field_id(), bound));
        } else {
            assert(s2[i] == s[i + 1]);
            assert(opt_id_below(s[i + 1].spec_field_id(), bound));
        }
    }
    assert forall|i: int, j: int| 0 <= i < j < s2.len() implies #[trigger] s2[i].spec_field_id()
        != #[trigger] s2[j].spec_field_id() by {
        let i0: int = if i < k { i } else { i + 1 };
        let j0: int = if j < k { j } else { j + 1 };
        assert(s2[i] == s[i0] && s2[j] == s[j0]);
        assert(0 <= i0 < j0 < s.len());
    }
}

/// Growing the bound preserves well-formedness of a whole profile.
pub(crate) proof fn lemma_profile_wf_mono(m: ProfileModel, b1: u64, b2: u64)
    requires
        profile_wf(m, b1),
        b1 <= b2,
    ensures
        profile_wf(m, b2),
{
    lemma_entries_wf_mono(m.education, b1, b2);
    lemma_entries_wf_mono(m.experience, b1, b2);
    lemma_entries_wf_mono(m.skills, b1, b2);
}

/// Apply one patch order. The result and the new state are exactly
/// `apply_op_spec` of the old state; on failure nothing changes.
pub fn apply_operation(
    profile: &mut Profile,
    gen: &mut FieldIdGen,
    patch: ProfilePatch,
    now: u64,
) -> (r: Result<(), CoreError>)
    requires
        profile_wf(old(profile)@, old(gen).spec_next()),
        old(gen).spec_next() < u64::MAX,
    ensures
        match apply_op_spec(old(profile)@, old(gen).spec_next(), patch@, now) {
            Ok(res) => r is Ok && final(profile)@ == res.0 && final(gen).spec_next() == res.1,
            Err(e) => {
                &&& r == Err::<(), CoreError>(e)
                &&& final(profile)@ == old(profile)@
                &&& final(gen).spec_next() == old(gen).spec_next()
            },
        },
        profile_wf(final(profile)@, final(gen).spec_next()),
        final(gen).spec_next() >= old(gen).spec_next(),
{
    let ghost m0 = profile@;
    let ghost n0 = gen.spec_next();
    let ProfilePatch { op, target, value } = patch;
    if str_eq(op.as_str(), "add") {
        if str_eq(target.as_str(), "education") {
            if profile.education.len() >= MAX_PROFILE_FIELD {
                return Err(CoreError::LimitExceeded);
            }
            match value {
                ProfileValue::Education(e) => {
                    proof {
                        lemma_entries_wf_push(m0.education, e, n0);
                        lemma_entries_wf_mono(m0.experience, n0, (n0 + 1) as u64);
                        lemma_entries_wf_mono(m0.skills, n0, (n0 + 1) as u64);
                    }
                    let r = add_entry(&mut profile.education, gen, e, MAX_PROFILE_FIELD);
                    profile.date_updated = Some(now);
                    assert(r is Ok);
                    Ok(())
                },
                _ => Err(CoreError::Malformed),
            }
        } else if str_eq(target.as_str(), "experience") {
            if profile.experience.len() >= MAX_PROFILE_FIELD {
                return Err(CoreError::LimitExceeded);
            }
            match value {
                ProfileValue::Experience(e) => {
                    proof {
                        lemma_entries_wf_push(m0.experience, e, n0);
                        lemma_entries_wf_mono(m0.education, n0, (n0 + 1) as u64);
                        lemma_entries_wf_mono(m0.skills, n0, (n0 + 1) as u64);
                    }
                    let r = add_entry(&mut profile.experience, gen, e, MAX_PROFILE_FIELD);
                    profile.date_updated = Some(now);
                    assert(r is Ok);
                    Ok(())
                },
                _ => Err(CoreError::Malformed),
            }
        } else if str_eq(target.as_str(), "skills") {
            if profile.skills.len() >= MAX_PROFILE_FIELD {
                return Err(CoreError::LimitExceeded);
            }
            match value {
                ProfileValue::Skills(e) => {
                    proof {
                        lemma_entries_wf_push(m0.skills, e, n0);
                        lemma_entries_wf_mono(m0.education, n0, (n0 + 1) as u64);
                        lemma_entries_wf_mono(m0.experience, n0, (n0 + 1) as u64);
                    }
                    let r = add_entry(&mut profile.skills, gen, e, MAX_PROFILE_FIELD);
                    profile.date_updated = Some(now);
                    assert(r is Ok);
                    Ok(())
                },
                _ => Err(CoreError::Malformed),
            }
        } else {
            Err(CoreError::InvalidTarget)
        }
    } else if str_eq(op.as_str(), "update") {
        if str_eq(target.as_str(), "education") {
            match value {
                ProfileValue::Education(e) => match e.field_id {
                    Some(id) => {
                        proof {
                            lemma_entries_wf_mono(m0.education, n0, u64::MAX);
                            if has_id(m0.education, id) {
                                lemma_entries_wf_update(m0.education, e, id, n0);
                            }
                        }
                        let r = update_entry(&mut profile.education, e, id);
                        match r {
                            Ok(_) => {
                                profile.date_updated = Some(now);
                                Ok(())
                            },
                            Err(er) => Err(er),
                        }
                    },
                    None => Err(CoreError::Malformed),
                },
                _ => Err(CoreError::Malformed),
            }
        } else if str_eq(target.as_str(), "experience") {
            match value {
                ProfileValue::Experience(e) => match e.field_id {
                    Some(id) => {
                        proof {
                            lemma_entries_wf_mono(m0.experience, n0, u64::MAX);
                            if has_id(m0.experience, id) {
                                lemma_entries_wf_update(m0.experience, e, id, n0);
                            }
                        }
                        let r = update_entry(&mut profile.experience, e, id);
                        match r {
                            Ok(_) => {
                                profile.date_updated = Some(now);
                                Ok(())
                            },
                            Err(er) => Err(er),
                        }
                    },
                    None => Err(CoreError::Malformed),
                },
                _ => Err(CoreError::Malformed),
            }
        } else if str_eq(target.as_str(), "skills") {
            match value {
                ProfileValue::Skills(e) => match e.field_id {
                    Some(id) => {
                        proof {
                            lemma_entries_wf_mono(m0.skills, n0, u64::MAX);
                            if has_id(m0.skills, id) {
                                lemma_entries_wf_update(m0.skills, e, id, n0);
                            }
                        }
                        let r = update_entry(&mut profile.skills, e, id);
                        match r {
                            Ok(_) => {
                                profile.date_updated = Some(now);
                                Ok(())
                            },
                            Err(er) => Err(er),
                        }
                    },
                    None => Err(CoreError::Malformed),
                },
                _ => Err(CoreError::Malformed),
            }
        } else {
            Err(CoreError::InvalidTarget)
        }
    } else if str_eq(op.as_str(), "remove") {
        let fid = value.get_field_id();
        match fid {
            Some(id) => {
                if str_eq(target.as_str(), "education") {
                    proof {
                        lemma_entries_wf_mono(m0.education, n0, u64::MAX);
                        if has_id(m0.education, id) {
                            lemma_entries_wf_remove(m0.education, idx_of(m0.education, id), n0);
                        }
                    }
                    let r = remove_entry(&mut profile.education, id);
                    match r {
                        Ok(_) => {
                            profile.date_updated = Some(now);
                            Ok(())
                        },
                        Err(er) => Err(er),
                    }
                } else if str_eq(target.as_str(), "experience") {
                    proof {
                        lemma_entries_wf_mono(m0.experience, n0, u64::MAX);
                        if has_id(m0.experience, id) {
                            lemma_entries_wf_remove(m0.experience, idx_of(m0.experience, id), n0);
                        }
                    }
                    let r = remove_entry(&mut profile.experience, id);
                    match r {
                        Ok(_) => {
                            profile.date_updated = Some(now);
                            Ok(())
                        },
                        Err(er) => Err(er),
                    }
                } else if str_eq(target.as_str(), "skills") {
                    proof {
                        lemma_entries_wf_mono(m0.skills, n0, u64::MAX);
                        if has_id(m0.skills, id) {
                            lemma_entries_wf_remove(m0.skills, idx_of(m0.skills, id), n0);
                        }
                    }
                    let r = remove_entry(&mut profile.skills, id);
                    match r {
                        Ok(_) => {
                            profile.date_updated = Some(now);
                            Ok(())
                        },
                        Err(er) => Err(er),
                    }
                } else {
                    Err(CoreError::InvalidTarget)
                }
            },
            None => Err(CoreError::Malformed),
        }
    } else {
        Err(CoreError::InvalidOperation)
    }
}

/// What an ordered list of orders does: each operation commits
/// independently, and the first failure stops the run with everything
/// before it already applied. The triple is the final profile, the final
/// generator bound, and the error that stopped the run, if one did.
pub open spec fn apply_ops_spec(
    m: ProfileModel,
    next: u64,
    ops: Seq<PatchModel>,
    now: u64,
) -> (ProfileModel, u64, Option<CoreError>)
    decreases ops.len(),
{
    if ops.len() == 0 {
        (m, next, None)
    } else {
        match apply_op_spec(m, next, ops[0], now) {
            Ok(res) => apply_ops_spec(res.0, res.1, ops.drop_first(), now),
            Err(e) => (m, next, Some(e)),
        }
    }
}

/// The mathematical images of a list of patch orders.
pub open spec fn models_of(ps: Seq<ProfilePatch>) -> Seq<PatchModel> {
    ps.map_values(|p: ProfilePatch| p@)
}

/// Apply an ordered list of patch orders. Partial success is first-class:
/// on an error the orders before it stay committed, exactly as
/// `apply_ops_spec` says.
#[verifier::loop_isolation(false)]
pub fn apply_patch_list(
    profile: &mut Profile,
    gen: &mut FieldIdGen,
    patches: Vec<ProfilePatch>,
    now: u64,
) -> (r: Result<(), CoreError>)
    requires
        profile_wf(old(profile)@, old(gen).spec_next()),
        old(gen).spec_next() + patches@.len() <= u64::MAX,
    ensures
        ({
            let res = apply_ops_spec(
                old(profile)@,
                old(gen).spec_next(),
                models_of(patches@),
                now,
            );
            &&& final(profile)@ == res.0
            &&& final(gen).spec_next() == res.1
            &&& r == match res.2 {
                Option::None => Ok::<(), CoreError>(()),
                Option::Some(e) => Err::<(), CoreError>(e),
            }
        }),
        profile_wf(final(profile)@, final(gen).spec_next()),
        final(gen).spec_next() >= old(gen).spec_next(),
{
    let ghost m0 = profile@;
    let ghost n0 = gen.spec_next();
    let ghost all = models_of(patches@);
    let mut rest = patches;
    while rest.len() > 0
        invariant
            profile_wf(profile@, gen.spec_next()),
            gen.spec_next() >= n0,
            gen.spec_next() + rest@.len() <= u64::MAX,
            apply_ops_spec(m0, n0, all, now) == apply_ops_spec(
                profile@,
                gen.spec_next(),
                models_of(rest@),
                now,
            ),
        decreases rest@.len(),
    {
        let ghost pre = models_of(rest@);
        let p = rest.remove(0);
        proof {
            assert(models_of(rest@) =~= pre.drop_first());
            assert(pre[0] == p@);
        }
        let ghost head_m = profile@;
        let ghost head_n = gen.spec_next();
        match apply_operation(profile, gen, p, now) {
            Ok(_) => {},
            Err(e) => {
                proof {
                    assert(pre.len() > 0);
                    assert(apply_op_spec(head_m, head_n, pre[0], now) == Err::<
                        (ProfileModel, u64),
                        CoreError,
                    >(e));
                    assert(apply_ops_spec(head_m, head_n, pre, now) == (head_m, head_n, Some(e)));
                }
                return Err(e);
            },
        }
    }
    proof {
        assert(models_of(rest@) =~= Seq::<PatchModel>::empty());
    }
    Ok(())
}

/// Whether the addressed collection is at its cap, the rule the add path
/// enforces.
pub fn maxed_profile_field(profile: &Profile, target: &str) -> (r: Result<bool, CoreError>)
    ensures
        target@ == "education"@ ==> r == Ok::<bool, CoreError>(
            profile@.education.len() >= MAX_PROFILE_FIELD,
        ),
        target@ == "experience"@ ==> r == Ok::<bool, CoreError>(
            profile@.experience.len() >= MAX_PROFILE_FIELD,
        ),
        target@ == "skills"@ ==> r == Ok::<bool, CoreError>(
            profile@.skills.len() >= MAX_PROFILE_FIELD,
        ),
        target@ != "education"@ && target@ != "experience"@ && target@ != "skills"@ ==> r
            == Err::<bool, CoreError>(CoreError::InvalidTarget),
{
    proof {
        reveal_strlit("education");
        reveal_strlit("experience");
        reveal_strlit("skills");
        assert("education"@.len() == 9);
        assert("experience"@.len() == 10);
        assert("skills"@.len() == 6);
        assert("education"@ != "experience"@);
        assert("education"@ != "skills"@);
        assert("experience"@ != "skills"@);
    }
    if str_eq(target, "education") {
        Ok(profile.education.len() >= MAX_PROFILE_FIELD)
    } else if str_eq(target, "experience") {
        Ok(profile.experience.len() >= MAX_PROFILE_FIELD)
    } else if str_eq(target, "skills") {
        Ok(profile.skills.len() >= MAX_PROFILE_FIELD)
    } else {
        Err(CoreError::InvalidTarget)
    }
}

/// Replace every id in `src` by a fresh one, in order.
#[verifier::loop_isolation(false)]
fn assign_fresh_ids<T: GetFieldId + UpdateFieldId>(src: Vec<T>, gen: &mut FieldIdGen) -> (r: Vec<
    T,
>)
    requires
        old(gen).spec_next() + src@.len() <= u64::MAX,
        forall|i: int, id: u64| 0 <= i < src@.len() ==> #[trigger] src@[i].update_allowed(Some(id)),
    ensures
        r@.len() == src@.len(),
        forall|i: int| 0 <= i < r@.len() ==> #[trigger] r@[i] == src@[i].with_field_id(
            Some((old(gen).spec_next() + i) as u64),
        ),
        final(gen).spec_next() == old(gen).spec_next() + src@.len(),
{
    let ghost src0 = src@;
    let ghost n0 = gen.spec_next();
    let mut rest = src;
    let mut out: Vec<T> = Vec::new();
    while rest.len() > 0
        invariant
            src0 =~= src0.subrange(0, out@.len() as int) + rest@,
            gen.spec_next() == n0 + out@.len(),
            out@.len() + rest@.len() == src0.len(),
            forall|i: int| 0 <= i < out@.len() ==> #[trigger] out@[i] == src0[i].with_field_id(
                Some((n0 + i) as u64),
            ),
        decreases rest@.len(),
    {
        let ghost k = out@.len() as int;
        let mut e = rest.remove(0);
        proof {
            assert(src0[k] == e);
        }
        let id = gen.fresh();
        e.update_field_id(Some(id));
        out.push(e);
        proof {
            assert(src0 =~= src0.subrange(0, k + 1) + rest@);
        }
    }
    out
}

/// Replace all three collections at once, assigning a fresh field-id to
/// every element. This is the bulk-import path, and it is the one and only
/// operation that bypasses the per-collection cap: a patch list can never
/// grow a collection past `MAX_PROFILE_FIELD`, this replacement can.
pub fn replace_whole(profile: &mut Profile, gen: &mut FieldIdGen, source: Profile, now: u64)
    requires
        old(gen).spec_next() + source.education@.len() + source.experience@.len()
            + source.skills@.len() <= u64::MAX,
    ensures
        ({
            let n0 = old(gen).spec_next();
            let ne = source.education@.len();
            let nx = source.experience@.len();
            let ns = source.skills@.len();
            &&& final(profile)@.education.len() == ne
            &&& final(profile)@.experience.len() == nx
            &&& final(profile)@.skills.len() == ns
            &&& (forall|i: int| 0 <= i < ne ==> #[trigger] final(profile)@.education[i]
                == source.education@[i].with_field_id(Some((n0 + i) as u64)))
            &&& (forall|i: int| 0 <= i < nx ==> #[trigger] final(profile)@.experience[i]
                == source.experience@[i].with_field_id(Some((n0 + ne + i) as u64)))
            &&& (forall|i: int| 0 <= i < ns ==> #[trigger] final(profile)@.skills[i]
                == source.skills@[i].with_field_id(Some((n0 + ne + nx + i) as u64)))
            &&& final(profile)@.date_updated == Some(now)
            &&& final(gen).spec_next() == n0 + ne + nx + ns
        }),
        profile_wf(final(profile)@, final(gen).spec_next()),
{
    let Profile { education, experience, skills, date_updated: _ } = source;
    let education = assign_fresh_ids(education, gen);
    let experience = assign_fresh_ids(experience, gen);
    let skills = assign_fresh_ids(skills, gen);
    let next = Profile { education, experience, skills, date_updated: Some(now) };
    *profile = next;
    proof {
        let b = gen.spec_next();
        assert forall|i: int| 0 <= i < profile@.education.len() implies {
            &&& (#[trigger] profile@.education[i].spec_field_id()) is Some
            &&& opt_id_below(profile@.education[i].spec_field_id(), b)
        } by {}
        assert forall|i: int| 0 <= i < profile@.experience.len() implies {
            &&& (#[trigger] profile@.experience[i].spec_field_id()) is Some
            &&& opt_id_below(profile@.experience[i].spec_field_id(), b)
        } by {}
        assert forall|i: int| 0 <= i < profile@.skills.len() implies {
            &&& (#[trigger] profile@.skills[i].spec_field_id()) is Some
            &&& opt_id_below(profile@.skills[i].spec_field_id(), b)
        } by {}
    }
}

proof fn lemma_wf_fresh_id_unseen<T: GetFieldId>(s: Seq<T>, bound: u64, id: u64)
    requires
        entries_wf(s, bound),
        id >= bound,
    ensures
        !has_id(s, id),
{
    if has_id(s, id) {
        let i = choose|i: int| 0 <= i < s.len() && (#[trigger] s[i].spec_field_id()) == Some(id);
        assert(opt_id_below(s[i].spec_field_id(), bound));
    }
}

/// Law: a successful add consumes exactly one fresh id — the generator's
/// next — and appends an entry carrying it; no entry of any collection of
/// the profile carried that id before.
pub proof fn lemma_patch_add_assigns_fresh_id(m: ProfileModel, next: u64, p: PatchModel, now: u64)
    requires
        profile_wf(m, next),
        next < u64::MAX,
        p.op == "add"@,
        apply_op_spec(m, next, p, now) is Ok,
    ensures
        (apply_op_spec(m, next, p, now)->Ok_0).1 == next + 1,
        !has_id(m.education, next) && !has_id(m.experience, next) && !has_id(m.skills, next),
        p.target == "education"@ ==> ({
            let m2 = (apply_op_spec(m, next, p, now)->Ok_0).0;
            &&& m2.education.len() == m.education.len() + 1
            &&& m2.education.last().spec_field_id() == Some(next)
        }),
        p.target == "experience"@ ==> ({
            let m2 = (apply_op_spec(m, next, p, now)->Ok_0).0;
            &&& m2.experience.len() == m.experience.len() + 1
            &&& m2.experience.last().spec_field_id() == Some(next)
        }),
        p.target == "skills"@ ==> ({
            let m2 = (apply_op_spec(m, next, p, now)->Ok_0).0;
            &&& m2.skills.len() == m.skills.len() + 1
            &&& m2.skills.last().spec_field_id() == Some(next)
        }),
{
    reveal_strlit("education");
    reveal_strlit("experience");
    reveal_strlit("skills");
    assert("education"@.len() == 9);
    assert("experience"@.len() == 10);
    assert("skills"@.len() == 6);
    lemma_wf_fresh_id_unseen(m.education, next, next);
    lemma_wf_fresh_id_unseen(m.experience, next, next);
    lemma_wf_fresh_id_unseen(m.skills, next, next);
}

/// Law: an add against a collection already at the cap fails with
/// `LimitExceeded`; since a failed operation changes nothing, the
/// collection stays at the cap.
pub proof fn lemma_patch_limit(m: ProfileModel, next: u64, p: PatchModel, now: u64)
    requires
        p.op == "add"@,
        (p.target == "education"@ && m.education.len() >= MAX_PROFILE_FIELD) || (p.target
            == "experience"@ && m.experience.len() >= MAX_PROFILE_FIELD) || (p.target == "skills"@
            && m.skills.len() >= MAX_PROFILE_FIELD),
    ensures
        apply_op_spec(m, next, p, now) == Err::<(ProfileModel, u64), CoreError>(
            CoreError::LimitExceeded,
        ),
{
    reveal_strlit("education");
    reveal_strlit("experience");
    reveal_strlit("skills");
    assert("education"@.len() == 9);
    assert("experience"@.len() == 10);
    assert("skills"@.len() == 6);
}

/// Law: removing the entry with field-id `x` and then adding a new entry
/// never hands `x` out again: the add assigns the generator's next id,
/// which lies strictly above every id the profile has ever held.
pub proof fn lemma_remove_then_add_never_reuses(
    m: ProfileModel,
    next: u64,
    t1: Seq<char>,
    x: u64,
    p2: PatchModel,
    now1: u64,
    now2: u64,
)
    requires
        profile_wf(m, next),
        next < u64::MAX,
        apply_op_spec(
            m,
            next,
            (PatchModel { op: "remove"@, target: t1, value: ProfileValue::FieldId(x) }),
            now1,
        ) is Ok,
        p2.op == "add"@,
        ({
            let s1 = apply_op_spec(
                m,
                next,
                (PatchModel { op: "remove"@, target: t1, value: ProfileValue::FieldId(x) }),
                now1,
            )->Ok_0;
            apply_op_spec(s1.0, s1.1, p2, now2) is Ok
        }),
    ensures
        ({
            let s1 = apply_op_spec(
                m,
                next,
                (PatchModel { op: "remove"@, target: t1, value: ProfileValue::FieldId(x) }),
                now1,
            )->Ok_0;
            let s2 = apply_op_spec(s1.0, s1.1, p2, now2)->Ok_0;
            &&& s1.1 == next
            &&& x < next
            &&& s2.1 == next + 1
            &&& (p2.target == "education"@ ==> s2.0.education.last().spec_field_id() == Some(next)
                && next != x)
            &&& (p2.target == "experience"@ ==> s2.0.experience.last().spec_field_id() == Some(
                next,
            ) && next != x)
            &&& (p2.target == "skills"@ ==> s2.0.skills.last().spec_field_id() == Some(next) && next
                != x)
        }),
{
    reveal_strlit("remove");
    reveal_strlit("add");
    reveal_strlit("education");
    reveal_strlit("experience");
    reveal_strlit("skills");
    assert("remove"@.len() == 6);
    assert("add"@.len() == 3);
    assert("education"@.len() == 9);
    assert("experience"@.len() == 10);
    assert("skills"@.len() == 6);
    let rm = PatchModel { op: "remove"@, target: t1, value: ProfileValue::FieldId(x) };
    if t1 == "education"@ {
        assert(has_id(m.education, x));
        let i = choose|i: int|
            0 <= i < m.education.len() && (#[trigger] m.education[i].spec_field_id()) == Some(x);
        assert(opt_id_below(m.education[i].spec_field_id(), next));
    } else if t1 == "experience"@ {
        assert(has_id(m.experience, x));
        let i = choose|i: int|
            0 <= i < m.experience.len() && (#[trigger] m.experience[i].spec_field_id()) == Some(x);
        assert(opt_id_below(m.experience[i].spec_field_id(), next));
    } else if t1 == "skills"@ {
        assert(has_id(m.skills, x));
        let i = choose|i: int|
            0 <= i < m.skills.len() && (#[trigger] m.skills[i].spec_field_id()) == Some(x);
        assert(opt_id_below(m.skills[i].spec_field_id(), next));
    } else {
        assert(apply_op_spec(m, next, rm, now1) is Err);
    }
}

} // verus!


//! The data handed to text generation: the caller picks profile entries by
//! field-id, and an empty pick means the whole collection. Assembling that
//! selection is the only generation logic with rules of its own; the
//! generation itself is an outside collaborator.

use vstd::prelude::*;

use crate::profile::{Education, Experience, GetFieldId, Profile, Skills};

verus! {

/// The profile slice generation works from.
#[derive(Debug, PartialEq)]
pub struct GenerateData {
    pub experience: Vec<Experience>,
    pub education: Vec<Education>,
    pub skills: Vec<Skills>,
}

/// A generation request: a prompt and the profile data to ground it.
#[derive(Debug, PartialEq)]
pub struct Highlights {
    pub prompt: String,
    pub profile: Profile,
    pub additional: String,
    pub job_url: String,
}

/// A generation outcome as handed back to the client.
#[derive(Debug, PartialEq)]
pub struct GenerateResponse {
    pub response: String,
}

impl GenerateResponse {
    pub fn new(response: String) -> (r: Self)
        ensures
            r.response == response,
    {
        Self { response }
    }
}

/// Whether an entry is picked: an empty pick selects everything, otherwise
/// the entry's field-id must be among the picked ids.
pub open spec fn picked<T: GetFieldId>(e: T, ids: Seq<u64>) -> bool {
    ids.len() == 0 || (match e.spec_field_id() {
        Some(x) => ids.contains(x),
        None => false,
    })
}

/// The picked entries of `s`, in order.
pub open spec fn spec_select<T: GetFieldId>(s: Seq<T>, ids: Seq<u64>) -> Seq<T>
    decreases s.len(),
{
    if s.len() == 0 {
        Seq::empty()
    } else {
        spec_select(s.drop_last(), ids) + (if picked(s.last(), ids) {
            seq![s.last()]
        } else {
            Seq::<T>::empty()
        })
    }
}

fn contains_id(ids: &Vec<u64>, x: u64) -> (r: bool)
    ensures
        r == ids@.contains(x),
{
    let n = ids.len();
    let mut i: usize = 0;
    while i < n
        invariant
            n == ids@.len(),
            i <= n,
            forall|j: int| 0 <= j < i ==> ids@[j] != x,
        decreases n - i,
    {
        if ids[i] == x {
            return true;
        }
        i = i + 1;
    }
    false
}

#[verifier::loop_isolation(false)]
fn select_entries<T: GetFieldId>(src: Vec<T>, ids: &Vec<u64>) -> (r: Vec<T>)
    ensures
        r@ == spec_select(src@, ids@),
{
    let ghost s0 = src@;
    let mut rest = src;
    let mut out: Vec<T> = Vec::new();
    let empty_pick = ids.len() == 0;
    while rest.len() > 0
        invariant
            s0 =~= s0.subrange(0, s0.len() - rest@.len()) + rest@,
            rest@.len() <= s0.len(),
            empty_pick == (ids@.len() == 0),
            out@ =~= spec_select(s0.subrange(0, s0.len() - rest@.len()), ids@),
        decreases rest@.len(),
    {
        let ghost k = s0.len() - rest@.len();
        let e = rest.remove(0);
        proof {
            assert(s0[k] == e);
        }
        let keep = if empty_pick {
            true
        } else {
            match e.get_field_id() {
                Some(x) => contains_id(ids, x),
                None => false,
            }
        };
        proof {
            let pre = s0.subrange(0, k);
            let cur = s0.subrange(0, k + 1);
            assert(cur.drop_last() =~= pre);
            assert(cur.last() == e);
            assert(spec_select(cur, ids@) == spec_select(pre, ids@) + (if picked(e, ids@) {
                seq![e]
            } else {
                Seq::<T>::empty()
            }));
            assert(s0 =~= s0.subrange(0, k + 1) + rest@);
        }
        if keep {
            out.push(e);
            proof {
                assert(out@ =~= spec_select(s0.subrange(0, k + 1), ids@));
            }
        } else {
            proof {
                assert(out@ =~= spec_select(s0.subrange(0, k + 1), ids@));
            }
        }
    }
    proof {
        assert(s0.subrange(0, s0.len() as int) =~= s0);
    }
    out
}

/// Assemble the generation data: skills and experience narrowed to the
/// picked field-ids — an empty pick meaning all of them — and the whole of
/// education.
pub fn get_profile_data(profile: Profile, skills: &Vec<u64>, experience: &Vec<u64>) -> (r:
    GenerateData)
    ensures
        r.skills@ == spec_select(profile.skills@, skills@),
        r.experience@ == spec_select(profile.experience@, experience@),
        r.education@ == profile.education@,
{
    let Profile { education, experience: exp, skills: sk, date_updated: _ } = profile;
    GenerateData {
        experience: select_entries(exp, experience),
        education,
        skills: select_entries(sk, skills),
    }
}

} // verus!

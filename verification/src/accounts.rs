//! The account store: the keyed document store the identity and mutation
//! logic works against, modeled as a map from account id to account
//! record. Emails name accounts case-insensitively and no two accounts
//! share one; every field-id in any profile or document collection comes
//! from the store's single generator, so ids never repeat across the
//! store's life.

use vstd::prelude::*;
use vstd::map::*;

use crate::documents::Document;
use crate::errors::CoreError;
use crate::patch::{entries_wf, profile_wf, FieldIdGen};
use crate::profile::{Profile, ProfileModel, UpdateFieldId};
use crate::types::AccountPatch;
use crate::util::{eq_ignore_ascii_case, eq_mod_ascii_case, str_eq};

verus! {

use vstd::string::StringSliceAdditionalSpecFns;
use vstd::utf8::encode_utf8;

/// One stored account record.
#[derive(Debug)]
pub struct StoredAccount {
    pub id: u64,
    pub name: String,
    pub email: String,
    pub password: Option<String>,
    pub external_id: Option<String>,
    pub external_provider: Option<String>,
    pub profile: Profile,
    pub documents: Vec<Document>,
    pub date_created: u64,
    pub date_updated: u64,
}

/// The mathematical image of one account record, its id kept as the key.
#[verifier::ext_equal]
pub struct AccountModel {
    pub name: Seq<char>,
    pub email: Seq<char>,
    pub password: Option<Seq<char>>,
    pub external_id: Option<Seq<char>>,
    pub external_provider: Option<Seq<char>>,
    pub profile: ProfileModel,
    pub documents: Seq<Document>,
    pub date_created: u64,
    pub date_updated: u64,
}

pub open spec fn opt_view(o: Option<String>) -> Option<Seq<char>> {
    match o {
        Some(s) => Some(s@),
        None => None,
    }
}

impl View for StoredAccount {
    type V = AccountModel;

    open spec fn view(&self) -> AccountModel {
        AccountModel {
            name: self.name@,
            email: self.email@,
            password: opt_view(self.password),
            external_id: opt_view(self.external_id),
            external_provider: opt_view(self.external_provider),
            profile: self.profile@,
            documents: self.documents@,
            date_created: self.date_created,
            date_updated: self.date_updated,
        }
    }
}

/// Two emails that name the same account: equal after ASCII case folding.
pub open spec fn emails_equiv(a: Seq<char>, b: Seq<char>) -> bool {
    eq_mod_ascii_case(encode_utf8(a), encode_utf8(b))
}

/// Some account of the store answers to this email.
pub open spec fn email_taken(m: Map<u64, AccountModel>, email: Seq<char>) -> bool {
    exists|id: u64| #[trigger] m.contains_key(id) && emails_equiv(m[id].email, email)
}

/// The patch word addresses one of the three mutable account fields.
pub open spec fn account_path_ok(path: Seq<char>) -> bool {
    path == "name"@ || path == "email"@ || path == "password"@
}

/// One account record with one field change applied.
pub open spec fn account_patched(m: AccountModel, p: AccountPatch) -> AccountModel {
    AccountModel {
        name: if p.path@ == "name"@ {
            p.value@
        } else {
            m.name
        },
        email: if p.path@ == "email"@ {
            p.value@
        } else {
            m.email
        },
        password: if p.path@ == "password"@ {
            Some(p.value@)
        } else {
            m.password
        },
        ..m
    }
}

/// What one field change does to the whole store: an unknown path is
/// structurally invalid, a missing account is absent, an email move onto
/// another account's email is a conflict, and otherwise the one record is
/// replaced.
pub open spec fn account_patch_result(
    m: Map<u64, AccountModel>,
    id: u64,
    p: AccountPatch,
) -> Result<Map<u64, AccountModel>, CoreError> {
    if !account_path_ok(p.path@) {
        Err(CoreError::Malformed)
    } else if !m.contains_key(id) {
        Err(CoreError::NotFound)
    } else if p.path@ == "email"@ && (exists|other: u64|
        #[trigger] m.contains_key(other) && other != id && emails_equiv(m[other].email, p.value@)) {
        Err(CoreError::Conflict)
    } else {
        Ok(m.insert(id, account_patched(m[id], p)))
    }
}

/// An ordered run of field changes, stopping at the first failure with
/// everything before it applied.
pub open spec fn account_patches_fold(
    m: Map<u64, AccountModel>,
    id: u64,
    ps: Seq<AccountPatch>,
) -> (Map<u64, AccountModel>, Option<CoreError>)
    decreases ps.len(),
{
    if ps.len() == 0 {
        (m, None)
    } else {
        match account_patch_result(m, id, ps[0]) {
            Ok(m2) => account_patches_fold(m2, id, ps.drop_first()),
            Err(e) => (m, Some(e)),
        }
    }
}

/// The store.
pub struct AccountStore {
    accounts: Vec<StoredAccount>,
    next_id: u64,
    field_gen: FieldIdGen,
}

impl View for AccountStore {
    type V = Map<u64, AccountModel>;

    closed spec fn view(&self) -> Map<u64, AccountModel> {
        Map::new(
            |id: u64|
                exists|i: int|
                    0 <= i < self.accounts@.len() && (#[trigger] self.accounts@[i].id) == id,
            |id: u64|
                (self.accounts@[choose|i: int|
                    0 <= i < self.accounts@.len() && (#[trigger] self.accounts@[i].id) == id])@,
        )
    }
}

impl AccountStore {
    /// The id the next created account will receive.
    pub closed spec fn spec_next_id(&self) -> u64 {
        self.next_id
    }

    /// The next field-id the store's generator will assign.
    pub closed spec fn spec_field_next(&self) -> u64 {
        self.field_gen.spec_next()
    }

    /// Ids are unique and below the id counter, no two accounts answer to
    /// one email, and every profile and document collection is
    /// well-formed against the field-id generator.
    pub closed spec fn wf(&self) -> bool {
        &&& (forall|i: int, j: int|
            0 <= i < j < self.accounts@.len() ==> (#[trigger] self.accounts@[i].id) != (
            #[trigger] self.accounts@[j].id))
        &&& (forall|i: int|
            0 <= i < self.accounts@.len() ==> (#[trigger] self.accounts@[i].id) < self.next_id)
        &&& (forall|i: int, j: int|
            0 <= i < j < self.accounts@.len() ==> !emails_equiv(
                (#[trigger] self.accounts@[i])@.email,
                (#[trigger] self.accounts@[j])@.email,
            ))
        &&& (forall|i: int|
            0 <= i < self.accounts@.len() ==> profile_wf(
                (#[trigger] self.accounts@[i])@.profile,
                self.field_gen.spec_next(),
            ))
        &&& (forall|i: int|
            0 <= i < self.accounts@.len() ==> entries_wf(
                (#[trigger] self.accounts@[i])@.documents,
                self.field_gen.spec_next(),
            ))
    }

    pub fn new() -> (r: AccountStore)
        ensures
            r.wf(),
            r@ == Map::<u64, AccountModel>::empty(),
            r.spec_next_id() == 1,
    {
        let r = AccountStore { accounts: Vec::new(), next_id: 1, field_gen: FieldIdGen::new() };
        proof {
            assert_maps_equal!(r@, Map::<u64, AccountModel>::empty(), id => {});
        }
        r
    }

    fn find_id(&self, id: u64) -> (r: Option<usize>)
        requires
            self.wf(),
        ensures
            match r {
                Some(i) => 0 <= i < self.accounts@.len() && self.accounts@[i as int].id == id
                    && self@.contains_key(id),
                None => !self@.contains_key(id),
            },
    {
        let n = self.accounts.len();
        let mut i: usize = 0;
        while i < n
            invariant
                n == self.accounts@.len(),
                i <= n,
                forall|j: int| 0 <= j < i ==> (#[trigger] self.accounts@[j].id) != id,
            decreases n - i,
        {
            if self.accounts[i].id == id {
                return Some(i);
            }
            i = i + 1;
        }
        None
    }

    fn find_email(&self, email: &str) -> (r: Option<usize>)
        requires
            self.wf(),
        ensures
            match r {
                Some(i) => 0 <= i < self.accounts@.len() && emails_equiv(
                    self.accounts@[i as int]@.email,
                    email@,
                ),
                None => !email_taken(self@, email@),
            },
    {
        let n = self.accounts.len();
        let mut i: usize = 0;
        while i < n
            invariant
                n == self.accounts@.len(),
                self.wf(),
                i <= n,
                forall|j: int|
                    0 <= j < i ==> !emails_equiv((#[trigger] self.accounts@[j])@.email, email@),
            decreases n - i,
        {
            if eq_ignore_ascii_case(self.accounts[i].email.as_str(), email) {
                return Some(i);
            }
            i = i + 1;
        }
        proof {
            if email_taken(self@, email@) {
                let id = choose|id: u64|
                    #[trigger] self@.contains_key(id) && emails_equiv(self@[id].email, email@);
                let j = choose|j: int|
                    0 <= j < self.accounts@.len() && (#[trigger] self.accounts@[j].id) == id;
                assert(!emails_equiv(self.accounts@[j]@.email, email@));
            }
        }
        None
    }

    /// The account the id names.
    pub fn get_account(&self, id: u64) -> (r: Result<&StoredAccount, CoreError>)
        requires
            self.wf(),
        ensures
            match r {
                Ok(acc) => self@.contains_key(id) && acc@ == self@[id] && acc.id == id,
                Err(e) => e == CoreError::NotFound && !self@.contains_key(id),
            },
    {
        match self.find_id(id) {
            Some(i) => {
                proof {
                    let k = choose|k: int|
                        0 <= k < self.accounts@.len() && (#[trigger] self.accounts@[k].id) == id;
                    assert(k == i as int);
                }
                Ok(&self.accounts[i])
            },
            None => Err(CoreError::NotFound),
        }
    }

    /// The account answering to an email, compared case-insensitively.
    pub fn get_account_by_email(&self, email: &str) -> (r: Option<&StoredAccount>)
        requires
            self.wf(),
        ensures
            match r {
                Some(acc) => self@.contains_key(acc.id) && acc@ == self@[acc.id] && emails_equiv(
                    acc@.email,
                    email@,
                ),
                None => !email_taken(self@, email@),
            },
    {
        match self.find_email(email) {
            Some(i) => {
                let acc = &self.accounts[i];
                proof {
                    let k = choose|k: int|
                        0 <= k < self.accounts@.len() && (#[trigger] self.accounts@[k].id)
                            == acc.id;
                    assert(k == i as int);
                    assert(self@.contains_key(acc.id));
                }
                Some(acc)
            },
            None => None,
        }
    }

    /// Create an account: refused with `Conflict` when the email is
    /// already taken, otherwise stored under the next id with an empty
    /// profile, no documents, and both stamps at `now`.
    pub fn create_account(
        &mut self,
        name: String,
        email: String,
        password: Option<String>,
        external_id: Option<String>,
        external_provider: Option<String>,
        now: u64,
    ) -> (r: Result<u64, CoreError>)
        requires
            old(self).wf(),
            old(self).spec_next_id() < u64::MAX,
        ensures
            final(self).wf(),
            email_taken(old(self)@, email@) ==> ({
                &&& r == Err::<u64, CoreError>(CoreError::Conflict)
                &&& final(self)@ == old(self)@
                &&& final(self).spec_next_id() == old(self).spec_next_id()
                &&& final(self).spec_field_next() == old(self).spec_field_next()
            }),
            !email_taken(old(self)@, email@) ==> ({
                &&& r == Ok::<u64, CoreError>(old(self).spec_next_id())
                &&& final(self)@ == old(self)@.insert(
                    old(self).spec_next_id(),
                    (AccountModel {
                        name: name@,
                        email: email@,
                        password: opt_view(password),
                        external_id: opt_view(external_id),
                        external_provider: opt_view(external_provider),
                        profile: ProfileModel {
                            education: Seq::empty(),
                            experience: Seq::empty(),
                            skills: Seq::empty(),
                            date_updated: Some(now),
                        },
                        documents: Seq::empty(),
                        date_created: now,
                        date_updated: now,
                    }),
                )
                &&& final(self).spec_next_id() == old(self).spec_next_id() + 1
                &&& final(self).spec_field_next() == old(self).spec_field_next()
            }),
    {
        match self.find_email(email.as_str()) {
            Some(i) => {
                proof {
                    assert(self@.contains_key(self.accounts@[i as int].id));
                    assert(email_taken(self@, email@));
                }
                Err(CoreError::Conflict)
            },
            None => {
                let id = self.next_id;
                self.next_id = self.next_id + 1;
                let acc = StoredAccount {
                    id,
                    name,
                    email,
                    password,
                    external_id,
                    external_provider,
                    profile: Profile::empty(now),
                    documents: Vec::new(),
                    date_created: now,
                    date_updated: now,
                };
                let ghost n = self.accounts@.len() as int;
                self.accounts.push(acc);
                proof {
                    assert(self.accounts@[n]@ =~= (AccountModel {
                        name: name@,
                        email: email@,
                        password: opt_view(password),
                        external_id: opt_view(external_id),
                        external_provider: opt_view(external_provider),
                        profile: ProfileModel {
                            education: Seq::empty(),
                            experience: Seq::empty(),
                            skills: Seq::empty(),
                            date_updated: Some(now),
                        },
                        documents: Seq::empty(),
                        date_created: now,
                        date_updated: now,
                    }));
                    assert forall|i: int, j: int|
                        0 <= i < j < self.accounts@.len() implies !emails_equiv(
                        (#[trigger] self.accounts@[i])@.email,
                        (#[trigger] self.accounts@[j])@.email,
                    ) by {
                        if j == n {
                            assert(old(self).accounts@[i].id == self.accounts@[i].id);
                            assert(old(self)@.contains_key(old(self).accounts@[i].id));
                        }
                    }
                    assert_maps_equal!(
                        self@,
                        old(self)@.insert(id, (self.accounts@[n]@)),
                        k => {
                            if k == id {
                                assert(self.accounts@[n].id == id);
                            } else {
                                if old(self)@.contains_key(k) {
                                    let j = choose|j: int| 0 <= j < old(self).accounts@.len()
                                        && (#[trigger] old(self).accounts@[j].id) == k;
                                    assert(self.accounts@[j].id == k);
                                }
                                if self@.contains_key(k) {
                                    let j = choose|j: int| 0 <= j < self.accounts@.len()
                                        && (#[trigger] self.accounts@[j].id) == k;
                                    assert(j < n);
                                    assert(old(self).accounts@[j].id == k);
                                }
                            }
                        }
                    );
                }
                Ok(id)
            },
        }
    }

    /// Change one account field: the name, the email — still unique,
    /// case-insensitively — or the stored password value.
    #[verifier::rlimit(60)]
    pub fn update_account(&mut self, id: u64, patch: AccountPatch) -> (r: Result<(), CoreError>)
        requires
            old(self).wf(),
        ensures
            final(self).wf(),
            final(self).spec_next_id() == old(self).spec_next_id(),
            final(self).spec_field_next() == old(self).spec_field_next(),
            !(patch.path@ == "name"@ || patch.path@ == "email"@ || patch.path@ == "password"@)
                ==> ({
                &&& r == Err::<(), CoreError>(CoreError::Malformed)
                &&& final(self)@ == old(self)@
            }),
            (patch.path@ == "name"@ || patch.path@ == "email"@ || patch.path@ == "password"@)
                && !old(self)@.contains_key(id) ==> ({
                &&& r == Err::<(), CoreError>(CoreError::NotFound)
                &&& final(self)@ == old(self)@
            }),
            patch.path@ == "email"@ && old(self)@.contains_key(id) && (exists|other: u64|
                #[trigger] old(self)@.contains_key(other) && other != id && emails_equiv(
                    old(self)@[other].email,
                    patch.value@,
                )) ==> ({
                &&& r == Err::<(), CoreError>(CoreError::Conflict)
                &&& final(self)@ == old(self)@
            }),
            old(self)@.contains_key(id) && (patch.path@ == "name"@ || patch.path@ == "password"@
                || (patch.path@ == "email"@ && !(exists|other: u64|
                #[trigger] old(self)@.contains_key(other) && other != id && emails_equiv(
                    old(self)@[other].email,
                    patch.value@,
                )))) ==> ({
                let m = old(self)@[id];
                &&& r is Ok
                &&& final(self)@ == old(self)@.insert(
                    id,
                    (AccountModel {
                        name: if patch.path@ == "name"@ {
                            patch.value@
                        } else {
                            m.name
                        },
                        email: if patch.path@ == "email"@ {
                            patch.value@
                        } else {
                            m.email
                        },
                        password: if patch.path@ == "password"@ {
                            Some(patch.value@)
                        } else {
                            m.password
                        },
                        ..m
                    }),
                )
            }),
    {
        proof {
            reveal_strlit("name");
            reveal_strlit("email");
            reveal_strlit("password");
            assert("name"@.len() == 4);
            assert("email"@.len() == 5);
            assert("password"@.len() == 8);
        }
        let is_name = str_eq(patch.path.as_str(), "name");
        let is_email = str_eq(patch.path.as_str(), "email");
        let is_password = str_eq(patch.path.as_str(), "password");
        if !is_name && !is_email && !is_password {
            return Err(CoreError::Malformed);
        }
        let i = match self.find_id(id) {
            Some(i) => i,
            None => {
                return Err(CoreError::NotFound);
            },
        };
        proof {
            let k = choose|k: int|
                0 <= k < self.accounts@.len() && (#[trigger] self.accounts@[k].id) == id;
            assert(k == i as int);
        }
        if is_email {
            match self.find_email(patch.value.as_str()) {
                Some(j) => {
                    if self.accounts[j].id != id {
                        proof {
                            assert(self@.contains_key(self.accounts@[j as int].id));
                        }
                        return Err(CoreError::Conflict);
                    }
                },
                None => {},
            }
        }
        proof {
            if is_email && (exists|other: u64|
                #[trigger] self@.contains_key(other) && other != id && emails_equiv(
                    self@[other].email,
                    patch.value@,
                )) {
                let other = choose|other: u64|
                    #[trigger] self@.contains_key(other) && other != id && emails_equiv(
                        self@[other].email,
                        patch.value@,
                    );
                let j = choose|j: int|
                    0 <= j < self.accounts@.len() && (#[trigger] self.accounts@[j].id) == other;
                assert(emails_equiv(self.accounts@[j]@.email, patch.value@));
                assert(false);
            }
        }
        let mut acc = self.accounts.remove(i);
        let AccountPatch { path: _, value } = patch;
        if is_name {
            acc.name = value;
        } else if is_email {
            acc.email = value;
        } else {
            acc.password = Some(value);
        }
        self.accounts.insert(i, acc);
        proof {
            let m = old(self)@[id];
            assert(self.accounts@[i as int]@ =~= (AccountModel {
                name: if is_name {
                    patch.value@
                } else {
                    m.name
                },
                email: if is_email {
                    patch.value@
                } else {
                    m.email
                },
                password: if is_password {
                    Some(patch.value@)
                } else {
                    m.password
                },
                ..m
            }));
            assert forall|a: int, b: int| 0 <= a < b < self.accounts@.len() implies !emails_equiv(
                (#[trigger] self.accounts@[a])@.email,
                (#[trigger] self.accounts@[b])@.email,
            ) by {
                if a != i as int && b != i as int {
                    assert(self.accounts@[a] == old(self).accounts@[a]);
                    assert(self.accounts@[b] == old(self).accounts@[b]);
                } else {
                    let o: int = if a == i as int {
                        b
                    } else {
                        a
                    };
                    assert(self.accounts@[o] == old(self).accounts@[o]);
                    if is_email {
                        assert(old(self)@.contains_key(old(self).accounts@[o].id));
                    }
                }
            }
            assert_maps_equal!(
                self@,
                old(self)@.insert(id, (self.accounts@[i as int]@)),
                k => {
                    if k == id {
                        assert(self.accounts@[i as int].id == id);
                    } else {
                        if old(self)@.contains_key(k) {
                            let j = choose|j: int| 0 <= j < old(self).accounts@.len()
                                && (#[trigger] old(self).accounts@[j].id) == k;
                            assert(self.accounts@[j].id == k);
                        }
                        if self@.contains_key(k) {
                            let j = choose|j: int| 0 <= j < self.accounts@.len()
                                && (#[trigger] self.accounts@[j].id) == k;
                            assert(old(self).accounts@[j].id == k);
                        }
                    }
                }
            );
        }
        Ok(())
    }

    /// Apply an ordered patch list to the profile of the account the id
    /// names: each operation commits independently, and a failure reports
    /// without rolling earlier operations back.
    pub fn apply_patches(
        &mut self,
        id: u64,
        patches: Vec<crate::patch::ProfilePatch>,
        now: u64,
    ) -> (r: Result<(), CoreError>)
        requires
            old(self).wf(),
            old(self).spec_field_next() + patches@.len() <= u64::MAX,
        ensures
            final(self).wf(),
            final(self).spec_next_id() == old(self).spec_next_id(),
            !old(self)@.contains_key(id) ==> ({
                &&& r == Err::<(), CoreError>(CoreError::NotFound)
                &&& final(self)@ == old(self)@
                &&& final(self).spec_field_next() == old(self).spec_field_next()
            }),
            old(self)@.contains_key(id) ==> ({
                let fold = crate::patch::apply_ops_spec(
                    old(self)@[id].profile,
                    old(self).spec_field_next(),
                    crate::patch::models_of(patches@),
                    now,
                );
                &&& final(self)@ == old(self)@.insert(
                    id,
                    (AccountModel { profile: fold.0, ..old(self)@[id] }),
                )
                &&& final(self).spec_field_next() == fold.1
                &&& r == match fold.2 {
                    Option::None => Ok::<(), CoreError>(()),
                    Option::Some(e) => Err::<(), CoreError>(e),
                }
            }),
    {
        let i = match self.find_id(id) {
            Some(i) => i,
            None => {
                return Err(CoreError::NotFound);
            },
        };
        proof {
            let k = choose|k: int|
                0 <= k < self.accounts@.len() && (#[trigger] self.accounts@[k].id) == id;
            assert(k == i as int);
        }
        let mut acc = self.accounts.remove(i);
        let res = crate::patch::apply_patch_list(&mut acc.profile, &mut self.field_gen, patches, now);
        self.accounts.insert(i, acc);
        proof {
            let m = old(self)@[id];
            let fold = crate::patch::apply_ops_spec(
                m.profile,
                old(self).spec_field_next(),
                crate::patch::models_of(patches@),
                now,
            );
            assert(self.accounts@[i as int]@ =~= (AccountModel { profile: fold.0, ..m }));
            assert forall|a: int| 0 <= a < self.accounts@.len() implies profile_wf(
                (#[trigger] self.accounts@[a])@.profile,
                self.field_gen.spec_next(),
            ) && entries_wf(self.accounts@[a]@.documents, self.field_gen.spec_next()) by {
                if a != i as int {
                    assert(self.accounts@[a] == old(self).accounts@[a]);
                    crate::patch::lemma_profile_wf_mono(
                        self.accounts@[a]@.profile,
                        old(self).spec_field_next(),
                        self.field_gen.spec_next(),
                    );
                    crate::patch::lemma_entries_wf_mono(
                        self.accounts@[a]@.documents,
                        old(self).spec_field_next(),
                        self.field_gen.spec_next(),
                    );
                } else {
                    crate::patch::lemma_entries_wf_mono(
                        self.accounts@[a]@.documents,
                        old(self).spec_field_next(),
                        self.field_gen.spec_next(),
                    );
                }
            }
            assert_maps_equal!(
                self@,
                old(self)@.insert(id, (self.accounts@[i as int]@)),
                k => {
                    if k == id {
                        assert(self.accounts@[i as int].id == id);
                    } else {
                        if old(self)@.contains_key(k) {
                            let j = choose|j: int| 0 <= j < old(self).accounts@.len()
                                && (#[trigger] old(self).accounts@[j].id) == k;
                            assert(self.accounts@[j].id == k);
                        }
                        if self@.contains_key(k) {
                            let j = choose|j: int| 0 <= j < self.accounts@.len()
                                && (#[trigger] self.accounts@[j].id) == k;
                            assert(old(self).accounts@[j].id == k);
                        }
                    }
                }
            );
        }
        res
    }

    /// Replace the whole profile of the account the id names — the bulk
    /// import path — assigning a fresh field-id to every element and
    /// bypassing the per-collection cap.
    pub fn update_profile(&mut self, id: u64, source: Profile, now: u64) -> (r: Result<
        (),
        CoreError,
    >)
        requires
            old(self).wf(),
            old(self).spec_field_next() + source.education@.len() + source.experience@.len()
                + source.skills@.len() <= u64::MAX,
        ensures
            final(self).wf(),
            final(self).spec_next_id() == old(self).spec_next_id(),
            !old(self)@.contains_key(id) ==> ({
                &&& r == Err::<(), CoreError>(CoreError::NotFound)
                &&& final(self)@ == old(self)@
                &&& final(self).spec_field_next() == old(self).spec_field_next()
            }),
            old(self)@.contains_key(id) ==> ({
                let n0 = old(self).spec_field_next();
                let ne = source.education@.len();
                let nx = source.experience@.len();
                let ns = source.skills@.len();
                let p = final(self)@[id].profile;
                &&& r is Ok
                &&& final(self)@.contains_key(id)
                &&& final(self)@ == old(self)@.insert(id, final(self)@[id])
                &&& final(self)@[id] =~= (AccountModel { profile: p, ..old(self)@[id] })
                &&& p.education.len() == ne
                &&& p.experience.len() == nx
                &&& p.skills.len() == ns
                &&& (forall|j: int| 0 <= j < ne ==> #[trigger] p.education[j]
                    == source.education@[j].with_field_id(Some((n0 + j) as u64)))
                &&& (forall|j: int| 0 <= j < nx ==> #[trigger] p.experience[j]
                    == source.experience@[j].with_field_id(Some((n0 + ne + j) as u64)))
                &&& (forall|j: int| 0 <= j < ns ==> #[trigger] p.skills[j]
                    == source.skills@[j].with_field_id(Some((n0 + ne + nx + j) as u64)))
                &&& p.date_updated == Some(now)
                &&& final(self).spec_field_next() == n0 + ne + nx + ns
            }),
    {
        let i = match self.find_id(id) {
            Some(i) => i,
            None => {
                return Err(CoreError::NotFound);
            },
        };
        proof {
            let k = choose|k: int|
                0 <= k < self.accounts@.len() && (#[trigger] self.accounts@[k].id) == id;
            assert(k == i as int);
        }
        let mut acc = self.accounts.remove(i);
        crate::patch::replace_whole(&mut acc.profile, &mut self.field_gen, source, now);
        self.accounts.insert(i, acc);
        proof {
            assert forall|a: int| 0 <= a < self.accounts@.len() implies profile_wf(
                (#[trigger] self.accounts@[a])@.profile,
                self.field_gen.spec_next(),
            ) && entries_wf(self.accounts@[a]@.documents, self.field_gen.spec_next()) by {
                if a != i as int {
                    assert(self.accounts@[a] == old(self).accounts@[a]);
                    crate::patch::lemma_profile_wf_mono(
                        self.accounts@[a]@.profile,
                        old(self).spec_field_next(),
                        self.field_gen.spec_next(),
                    );
                    crate::patch::lemma_entries_wf_mono(
                        self.accounts@[a]@.documents,
                        old(self).spec_field_next(),
                        self.field_gen.spec_next(),
                    );
                } else {
                    crate::patch::lemma_entries_wf_mono(
                        self.accounts@[a]@.documents,
                        old(self).spec_field_next(),
                        self.field_gen.spec_next(),
                    );
                }
            }
            assert(self.accounts@[i as int]@ =~= (AccountModel {
                profile: self.accounts@[i as int]@.profile,
                ..old(self)@[id]
            }));
            assert_maps_equal!(
                self@,
                old(self)@.insert(id, (self.accounts@[i as int]@)),
                k => {
                    if k == id {
                        assert(self.accounts@[i as int].id == id);
                    } else {
                        if old(self)@.contains_key(k) {
                            let j = choose|j: int| 0 <= j < old(self).accounts@.len()
                                && (#[trigger] old(self).accounts@[j].id) == k;
                            assert(self.accounts@[j].id == k);
                        }
                        if self@.contains_key(k) {
                            let j = choose|j: int| 0 <= j < self.accounts@.len()
                                && (#[trigger] self.accounts@[j].id) == k;
                            assert(old(self).accounts@[j].id == k);
                        }
                    }
                }
            );
        }
        Ok(())
    }

    /// Record the external identity an existing account authenticates
    /// through: the provider's subject and the provider's name, every
    /// other field untouched.
    pub fn link_external(&mut self, id: u64, external_id: String, provider: String) -> (r: Result<
        (),
        CoreError,
    >)
        requires
            old(self).wf(),
        ensures
            final(self).wf(),
            final(self).spec_next_id() == old(self).spec_next_id(),
            final(self).spec_field_next() == old(self).spec_field_next(),
            !old(self)@.contains_key(id) ==> ({
                &&& r == Err::<(), CoreError>(CoreError::NotFound)
                &&& final(self)@ == old(self)@
            }),
            old(self)@.contains_key(id) ==> ({
                &&& r is Ok
                &&& final(self)@ == old(self)@.insert(
                    id,
                    (AccountModel {
                        external_id: Some(external_id@),
                        external_provider: Some(provider@),
                        ..old(self)@[id]
                    }),
                )
            }),
    {
        let i = match self.find_id(id) {
            Some(i) => i,
            None => {
                return Err(CoreError::NotFound);
            },
        };
        proof {
            let k = choose|k: int|
                0 <= k < self.accounts@.len() && (#[trigger] self.accounts@[k].id) == id;
            assert(k == i as int);
        }
        let mut acc = self.accounts.remove(i);
        acc.external_id = Some(external_id);
        acc.external_provider = Some(provider);
        self.accounts.insert(i, acc);
        proof {
            assert(self.accounts@[i as int]@ =~= (AccountModel {
                external_id: Some(external_id@),
                external_provider: Some(provider@),
                ..old(self)@[id]
            }));
            assert forall|a: int, b: int| 0 <= a < b < self.accounts@.len() implies !emails_equiv(
                (#[trigger] self.accounts@[a])@.email,
                (#[trigger] self.accounts@[b])@.email,
            ) by {
                if a != i as int && b != i as int {
                    assert(self.accounts@[a] == old(self).accounts@[a]);
                    assert(self.accounts@[b] == old(self).accounts@[b]);
                } else {
                    let o: int = if a == i as int {
                        b
                    } else {
                        a
                    };
                    assert(self.accounts@[o] == old(self).accounts@[o]);
                }
            }
            assert_maps_equal!(
                self@,
                old(self)@.insert(id, (self.accounts@[i as int]@)),
                k => {
                    if k == id {
                        assert(self.accounts@[i as int].id == id);
                    } else {
                        if old(self)@.contains_key(k) {
                            let j = choose|j: int| 0 <= j < old(self).accounts@.len()
                                && (#[trigger] old(self).accounts@[j].id) == k;
                            assert(self.accounts@[j].id == k);
                        }
                        if self@.contains_key(k) {
                            let j = choose|j: int| 0 <= j < self.accounts@.len()
                                && (#[trigger] self.accounts@[j].id) == k;
                            assert(old(self).accounts@[j].id == k);
                        }
                    }
                }
            );
        }
        Ok(())
    }

    /// Apply several account field changes in order. Each change commits
    /// independently, exactly as one `update_account` would; the first
    /// failure stops the run with everything before it applied.
    #[verifier::loop_isolation(false)]
    pub fn update_account_many(&mut self, id: u64, updates: Vec<AccountPatch>) -> (r: Result<
        (),
        CoreError,
    >)
        requires
            old(self).wf(),
        ensures
            final(self).wf(),
            final(self).spec_next_id() == old(self).spec_next_id(),
            final(self).spec_field_next() == old(self).spec_field_next(),
            ({
                let fold = account_patches_fold(old(self)@, id, updates@);
                &&& final(self)@ == fold.0
                &&& r == match fold.1 {
                    Option::None => Ok::<(), CoreError>(()),
                    Option::Some(e) => Err::<(), CoreError>(e),
                }
            }),
    {
        let ghost m0 = self@;
        let ghost all = updates@;
        let mut rest = updates;
        loop
            invariant
                self.wf(),
                self.spec_next_id() == old(self).spec_next_id(),
                self.spec_field_next() == old(self).spec_field_next(),
                account_patches_fold(m0, id, all) == account_patches_fold(self@, id, rest@),
            decreases rest@.len(),
        {
            if rest.len() == 0 {
                proof {
                    assert(account_patches_fold(self@, id, rest@) == (self@, Option::<
                        CoreError,
                    >::None));
                }
                return Ok(());
            }
            let ghost pre = rest@;
            let ghost head_m = self@;
            let p = rest.remove(0);
            proof {
                assert(rest@ =~= pre.drop_first());
                assert(pre[0] == p);
            }
            match self.update_account(id, p) {
                Ok(_) => {
                    proof {
                        assert(account_patch_result(head_m, id, pre[0]) matches Ok(m2) && self@
                            == m2);
                    }
                },
                Err(e) => {
                    proof {
                        assert(account_patch_result(head_m, id, pre[0]) == Err::<
                            Map<u64, AccountModel>,
                            CoreError,
                        >(e));
                        assert(account_patches_fold(head_m, id, pre) == (head_m, Some(e)));
                    }
                    return Err(e);
                },
            }
        }
    }

    /// At most one account answers to an email: two ids whose emails both
    /// fold to the same key are the same id.
    pub proof fn lemma_email_unique(&self, email: Seq<char>, id1: u64, id2: u64)
        requires
            self.wf(),
            self@.contains_key(id1),
            self@.contains_key(id2),
            emails_equiv(self@[id1].email, email),
            emails_equiv(self@[id2].email, email),
        ensures
            id1 == id2,
    {
        let i = choose|i: int|
            0 <= i < self.accounts@.len() && (#[trigger] self.accounts@[i].id) == id1;
        let j = choose|j: int|
            0 <= j < self.accounts@.len() && (#[trigger] self.accounts@[j].id) == id2;
        if i != j {
            assert(!emails_equiv(self.accounts@[if i < j {
                i
            } else {
                j
            }]@.email, self.accounts@[if i < j {
                j
            } else {
                i
            }]@.email));
        }
    }

    /// Drop the account the id names.
    pub fn delete_account(&mut self, id: u64) -> (r: Result<(), CoreError>)
        requires
            old(self).wf(),
        ensures
            final(self).wf(),
            final(self)@ == old(self)@.remove(id),
            final(self).spec_next_id() == old(self).spec_next_id(),
            final(self).spec_field_next() == old(self).spec_field_next(),
            r == if old(self)@.contains_key(id) {
                Ok::<(), CoreError>(())
            } else {
                Err::<(), CoreError>(CoreError::NotFound)
            },
    {
        match self.find_id(id) {
            Some(i) => {
                proof {
                    let k = choose|k: int|
                        0 <= k < self.accounts@.len() && (#[trigger] self.accounts@[k].id) == id;
                    assert(k == i as int);
                }
                self.accounts.remove(i);
                proof {
                    assert_maps_equal!(
                        self@,
                        old(self)@.remove(id),
                        k => {
                            if old(self)@.contains_key(k) && k != id {
                                let j = choose|j: int| 0 <= j < old(self).accounts@.len()
                                    && (#[trigger] old(self).accounts@[j].id) == k;
                                if j < i as int {
                                    assert(self.accounts@[j].id == k);
                                } else {
                                    assert(self.accounts@[j - 1].id == k);
                                }
                            }
                            if self@.contains_key(k) {
                                let j = choose|j: int| 0 <= j < self.accounts@.len()
                                    && (#[trigger] self.accounts@[j].id) == k;
                                if j < i as int {
                                    assert(old(self).accounts@[j].id == k);
                                } else {
                                    assert(old(self).accounts@[j + 1].id == k);
                                }
                            }
                        }
                    );
                }
                Ok(())
            },
            None => {
                proof {
                    assert_maps_equal!(self@, old(self)@.remove(id), k => {});
                }
                Err(CoreError::NotFound)
            },
        }
    }
}

} // verus!

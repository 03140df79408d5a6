//! The profile data model: three collections (education, experience,
//! skills) whose elements each own a server-assigned field-id, the sole
//! stable handle for later update and removal.

use vstd::prelude::*;

verus! {

/// Kind of an experience entry.
#[derive(Clone, Copy, Debug, PartialEq, Eq, Structural)]
pub enum ExperienceType {
    Work,
    Volunteer,
    Personal,
    Other,
}

/// One experience entry of a profile.
#[derive(Clone, Debug, PartialEq)]
pub struct Experience {
    /// Server-assigned identity; `None` only before the entry is added.
    pub field_id: Option<u64>,
    pub name: String,
    pub type_: ExperienceType,
    pub at: String,
    pub current: bool,
    pub description: String,
}

/// One education entry of a profile.
#[derive(Clone, Debug, PartialEq)]
pub struct Education {
    /// Server-assigned identity; `None` only before the entry is added.
    pub field_id: Option<u64>,
    pub school: String,
    pub degree: String,
    pub field_of_study: String,
    pub current: bool,
    pub description: String,
}

/// One skill entry of a profile.
#[derive(Clone, Debug, PartialEq)]
pub struct Skills {
    /// Server-assigned identity; `None` only before the entry is added.
    pub field_id: Option<u64>,
    pub skill: String,
}

/// A user's profile: the three collections and the time of last update.
#[derive(Clone, Debug, PartialEq)]
pub struct Profile {
    pub education: Vec<Education>,
    pub experience: Vec<Experience>,
    pub skills: Vec<Skills>,
    pub date_updated: Option<u64>,
}

/// A tagged patch payload: either a bare field-id (enough for removal) or a
/// whole entry of one of the three collections.
#[derive(Clone, Debug, PartialEq)]
pub enum ProfileValue {
    FieldId(u64),
    Experience(Experience),
    Education(Education),
    Skills(Skills),
}

/// The mathematical image of a profile: one sequence per collection.
#[verifier::ext_equal]
pub struct ProfileModel {
    pub education: Seq<Education>,
    pub experience: Seq<Experience>,
    pub skills: Seq<Skills>,
    pub date_updated: Option<u64>,
}

impl View for Profile {
    type V = ProfileModel;

    open spec fn view(&self) -> ProfileModel {
        ProfileModel {
            education: self.education@,
            experience: self.experience@,
            skills: self.skills@,
            date_updated: self.date_updated,
        }
    }
}

/// Read the field-id a payload carries.
pub trait GetFieldId {
    /// The field-id as the specification sees it.
    spec fn spec_field_id(&self) -> Option<u64>;

    fn get_field_id(&self) -> (r: Option<u64>)
        ensures
            r == self.spec_field_id(),
    ;
}

/// Replace the field-id a value carries, leaving the rest of it unchanged.
pub trait UpdateFieldId: Sized {
    /// The same value with its field-id replaced.
    spec fn with_field_id(self, new_id: Option<u64>) -> Self;

    /// Whether `new_id` is acceptable for this value.
    spec fn update_allowed(self, new_id: Option<u64>) -> bool;

    fn update_field_id(&mut self, new_id: Option<u64>)
        requires
            old(self).update_allowed(new_id),
        ensures
            *final(self) == old(self).with_field_id(new_id),
    ;
}

impl GetFieldId for ProfileValue {
    open spec fn spec_field_id(&self) -> Option<u64> {
        match self {
            ProfileValue::FieldId(id) => Some(*id),
            ProfileValue::Experience(exp) => exp.field_id,
            ProfileValue::Education(edu) => edu.field_id,
            ProfileValue::Skills(skill) => skill.field_id,
        }
    }

    fn get_field_id(&self) -> (r: Option<u64>) {
        match self {
            ProfileValue::FieldId(id) => Some(*id),
            ProfileValue::Experience(exp) => exp.field_id,
            ProfileValue::Education(edu) => edu.field_id,
            ProfileValue::Skills(skill) => skill.field_id,
        }
    }
}

impl UpdateFieldId for ProfileValue {
    open spec fn with_field_id(self, new_id: Option<u64>) -> Self {
        match self {
            ProfileValue::FieldId(id) => match new_id {
                Some(n) => ProfileValue::FieldId(n),
                None => ProfileValue::FieldId(id),
            },
            ProfileValue::Experience(exp) => ProfileValue::Experience(
                Experience { field_id: new_id, ..exp },
            ),
            ProfileValue::Education(edu) => ProfileValue::Education(
                Education { field_id: new_id, ..edu },
            ),
            ProfileValue::Skills(skill) => ProfileValue::Skills(
                Skills { field_id: new_id, ..skill },
            ),
        }
    }

    /// A bare field-id payload cannot be stripped of its id.
    open spec fn update_allowed(self, new_id: Option<u64>) -> bool {
        !((self is FieldId) && (new_id is None))
    }

    fn update_field_id(&mut self, new_id: Option<u64>) {
        match self {
            ProfileValue::FieldId(id) => {
                if let Some(n) = new_id {
                    *id = n;
                }
            },
            ProfileValue::Experience(exp) => exp.field_id = new_id,
            ProfileValue::Education(edu) => edu.field_id = new_id,
            ProfileValue::Skills(skill) => skill.field_id = new_id,
        }
    }
}

impl GetFieldId for Experience {
    open spec fn spec_field_id(&self) -> Option<u64> {
        self.field_id
    }

    fn get_field_id(&self) -> (r: Option<u64>) {
        self.field_id
    }
}

impl GetFieldId for Education {
    open spec fn spec_field_id(&self) -> Option<u64> {
        self.field_id
    }

    fn get_field_id(&self) -> (r: Option<u64>) {
        self.field_id
    }
}

impl GetFieldId for Skills {
    open spec fn spec_field_id(&self) -> Option<u64> {
        self.field_id
    }

    fn get_field_id(&self) -> (r: Option<u64>) {
        self.field_id
    }
}

impl UpdateFieldId for Experience {
    open spec fn with_field_id(self, new_id: Option<u64>) -> Self {
        Experience { field_id: new_id, ..self }
    }

    open spec fn update_allowed(self, new_id: Option<u64>) -> bool {
        true
    }

    fn update_field_id(&mut self, new_id: Option<u64>) {
        self.field_id = new_id;
    }
}

impl UpdateFieldId for Education {
    open spec fn with_field_id(self, new_id: Option<u64>) -> Self {
        Education { field_id: new_id, ..self }
    }

    open spec fn update_allowed(self, new_id: Option<u64>) -> bool {
        true
    }

    fn update_field_id(&mut self, new_id: Option<u64>) {
        self.field_id = new_id;
    }
}

impl UpdateFieldId for Skills {
    open spec fn with_field_id(self, new_id: Option<u64>) -> Self {
        Skills { field_id: new_id, ..self }
    }

    open spec fn update_allowed(self, new_id: Option<u64>) -> bool {
        true
    }

    fn update_field_id(&mut self, new_id: Option<u64>) {
        self.field_id = new_id;
    }
}

impl Profile {
    /// The profile an account starts with: all three collections empty.
    pub fn empty(now: u64) -> (r: Profile)
        ensures
            r.education@ =~= Seq::<Education>::empty(),
            r.experience@ =~= Seq::<Experience>::empty(),
            r.skills@ =~= Seq::<Skills>::empty(),
            r.date_updated == Some(now),
    {
        Profile {
            education: Vec::new(),
            experience: Vec::new(),
            skills: Vec::new(),
            date_updated: Some(now),
        }
    }
}

impl Default for Experience {
    fn default() -> (r: Self)
        ensures
            r.field_id is None,
            r.name@ == Seq::<char>::empty(),
            r.type_ == ExperienceType::Work,
            r.at@ == Seq::<char>::empty(),
            !r.current,
            r.description@ == Seq::<char>::empty(),
    {
        Experience {
            field_id: None,
            name: String::new(),
            type_: ExperienceType::Work,
            at: String::new(),
            current: false,
            description: String::new(),
        }
    }
}

impl Default for ExperienceType {
    fn default() -> (r: Self)
        ensures
            r == ExperienceType::Work,
    {
        ExperienceType::Work
    }
}

} // verus!

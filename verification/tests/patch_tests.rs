use scrippt::errors::CoreError;
use scrippt::patch::{
    apply_operation, apply_patch_list, maxed_profile_field, replace_whole, FieldIdGen,
    ProfilePatch, MAX_PROFILE_FIELD,
};
use scrippt::profile::{Education, Experience, ExperienceType, GetFieldId, Profile, ProfileValue, Skills, UpdateFieldId};

fn skill(name: &str) -> ProfileValue {
    ProfileValue::Skills(Skills { field_id: None, skill: name.to_string() })
}

fn add_patch(target: &str, value: ProfileValue) -> ProfilePatch {
    ProfilePatch { op: "add".to_string(), target: target.to_string(), value }
}

#[test]
fn patch_add_assigns_fresh_identity() {
    let mut profile = Profile::empty(0);
    let mut gen = FieldIdGen::new();
    apply_operation(&mut profile, &mut gen, add_patch("skills", skill("Rust")), 7).unwrap();
    assert_eq!(profile.skills.len(), 1);
    let id = profile.skills[0].field_id;
    assert!(id.is_some());
    assert_eq!(profile.date_updated, Some(7));
    // a second add gets a different id
    apply_operation(&mut profile, &mut gen, add_patch("skills", skill("Verus")), 8).unwrap();
    assert_ne!(profile.skills[1].field_id, id);
}

#[test]
fn patch_limit_keeps_collection_at_cap() {
    let mut profile = Profile::empty(0);
    let mut gen = FieldIdGen::new();
    for i in 0..MAX_PROFILE_FIELD {
        apply_operation(&mut profile, &mut gen, add_patch("skills", skill(&format!("s{}", i))), 1)
            .unwrap();
    }
    assert_eq!(profile.skills.len(), 5);
    let res = apply_operation(&mut profile, &mut gen, add_patch("skills", skill("one too many")), 2);
    assert_eq!(res, Err(CoreError::LimitExceeded));
    assert_eq!(profile.skills.len(), 5);
}

#[test]
fn patch_remove_then_add_never_reuses_the_id() {
    let mut profile = Profile::empty(0);
    let mut gen = FieldIdGen::new();
    apply_operation(&mut profile, &mut gen, add_patch("skills", skill("gone soon")), 1).unwrap();
    let x = profile.skills[0].field_id.unwrap();
    let rm = ProfilePatch {
        op: "remove".to_string(),
        target: "skills".to_string(),
        value: ProfileValue::FieldId(x),
    };
    apply_operation(&mut profile, &mut gen, rm, 2).unwrap();
    assert_eq!(profile.skills.len(), 0);
    apply_operation(&mut profile, &mut gen, add_patch("skills", skill("fresh")), 3).unwrap();
    assert_ne!(profile.skills[0].field_id.unwrap(), x);
}

#[test]
fn patch_update_replaces_wholesale_keeping_id() {
    let mut profile = Profile::empty(0);
    let mut gen = FieldIdGen::new();
    let edu = ProfileValue::Education(Education {
        field_id: None,
        school: "Old School".to_string(),
        degree: "BSc".to_string(),
        field_of_study: "CS".to_string(),
        current: false,
        description: String::new(),
    });
    apply_operation(&mut profile, &mut gen, add_patch("education", edu), 1).unwrap();
    let id = profile.education[0].field_id.unwrap();
    let upd = ProfilePatch {
        op: "update".to_string(),
        target: "education".to_string(),
        value: ProfileValue::Education(Education {
            field_id: Some(id),
            school: "New School".to_string(),
            degree: "MSc".to_string(),
            field_of_study: "SE".to_string(),
            current: true,
            description: "better".to_string(),
        }),
    };
    apply_operation(&mut profile, &mut gen, upd, 2).unwrap();
    assert_eq!(profile.education.len(), 1);
    assert_eq!(profile.education[0].field_id, Some(id));
    assert_eq!(profile.education[0].school, "New School");
    assert_eq!(profile.education[0].degree, "MSc");
}

#[test]
fn patch_update_missing_id_is_not_found() {
    let mut profile = Profile::empty(0);
    let mut gen = FieldIdGen::new();
    let upd = ProfilePatch {
        op: "update".to_string(),
        target: "skills".to_string(),
        value: ProfileValue::Skills(Skills { field_id: Some(99), skill: "x".to_string() }),
    };
    assert_eq!(apply_operation(&mut profile, &mut gen, upd, 1), Err(CoreError::NotFound));
}

#[test]
fn patch_remove_missing_id_is_not_found() {
    let mut profile = Profile::empty(0);
    let mut gen = FieldIdGen::new();
    let rm = ProfilePatch {
        op: "remove".to_string(),
        target: "experience".to_string(),
        value: ProfileValue::FieldId(5),
    };
    assert_eq!(apply_operation(&mut profile, &mut gen, rm, 1), Err(CoreError::NotFound));
}

#[test]
fn patch_unknown_operation_and_target_are_rejected() {
    let mut profile = Profile::empty(0);
    let mut gen = FieldIdGen::new();
    let bad_op = ProfilePatch {
        op: "merge".to_string(),
        target: "skills".to_string(),
        value: skill("x"),
    };
    assert_eq!(
        apply_operation(&mut profile, &mut gen, bad_op, 1),
        Err(CoreError::InvalidOperation)
    );
    let bad_target = ProfilePatch {
        op: "add".to_string(),
        target: "hobbies".to_string(),
        value: skill("x"),
    };
    assert_eq!(
        apply_operation(&mut profile, &mut gen, bad_target, 1),
        Err(CoreError::InvalidTarget)
    );
}

#[test]
fn patch_mismatched_payload_is_malformed() {
    let mut profile = Profile::empty(0);
    let mut gen = FieldIdGen::new();
    let wrong = ProfilePatch {
        op: "add".to_string(),
        target: "education".to_string(),
        value: skill("not an education entry"),
    };
    assert_eq!(apply_operation(&mut profile, &mut gen, wrong, 1), Err(CoreError::Malformed));
}

#[test]
fn patch_list_commits_prefix_before_failure() {
    let mut profile = Profile::empty(0);
    let mut gen = FieldIdGen::new();
    let patches = vec![
        add_patch("skills", skill("kept")),
        ProfilePatch {
            op: "remove".to_string(),
            target: "skills".to_string(),
            value: ProfileValue::FieldId(424242),
        },
        add_patch("skills", skill("never applied")),
    ];
    let res = apply_patch_list(&mut profile, &mut gen, patches, 9);
    assert_eq!(res, Err(CoreError::NotFound));
    // the first add stays committed, the one after the failure never ran
    assert_eq!(profile.skills.len(), 1);
    assert_eq!(profile.skills[0].skill, "kept");
}

#[test]
fn patch_list_applies_in_order() {
    let mut profile = Profile::empty(0);
    let mut gen = FieldIdGen::new();
    apply_operation(&mut profile, &mut gen, add_patch("skills", skill("first")), 1).unwrap();
    let x = profile.skills[0].field_id.unwrap();
    let patches = vec![
        ProfilePatch {
            op: "remove".to_string(),
            target: "skills".to_string(),
            value: ProfileValue::FieldId(x),
        },
        add_patch("skills", skill("second")),
    ];
    apply_patch_list(&mut profile, &mut gen, patches, 2).unwrap();
    assert_eq!(profile.skills.len(), 1);
    assert_eq!(profile.skills[0].skill, "second");
    assert_ne!(profile.skills[0].field_id.unwrap(), x);
}

#[test]
fn maxed_profile_field_reports_exactly() {
    let mut profile = Profile::empty(0);
    let mut gen = FieldIdGen::new();
    assert_eq!(maxed_profile_field(&profile, "skills"), Ok(false));
    for i in 0..MAX_PROFILE_FIELD {
        apply_operation(&mut profile, &mut gen, add_patch("skills", skill(&format!("s{}", i))), 1)
            .unwrap();
    }
    assert_eq!(maxed_profile_field(&profile, "skills"), Ok(true));
    assert_eq!(maxed_profile_field(&profile, "education"), Ok(false));
    assert_eq!(maxed_profile_field(&profile, "nope"), Err(CoreError::InvalidTarget));
}

#[test]
fn replace_whole_assigns_fresh_ids_and_bypasses_cap() {
    let mut profile = Profile::empty(0);
    let mut gen = FieldIdGen::new();
    apply_operation(&mut profile, &mut gen, add_patch("skills", skill("old")), 1).unwrap();
    let old_id = profile.skills[0].field_id.unwrap();
    let mut source = Profile::empty(0);
    for i in 0..7 {
        source.skills.push(Skills { field_id: None, skill: format!("s{}", i) });
    }
    source.experience.push(Experience {
        field_id: None,
        name: "Job".to_string(),
        type_: ExperienceType::Work,
        at: "Acme".to_string(),
        current: true,
        description: String::new(),
    });
    replace_whole(&mut profile, &mut gen, source, 5);
    // seven entries: more than a patch list could ever grow it to
    assert_eq!(profile.skills.len(), 7);
    assert_eq!(profile.experience.len(), 1);
    assert_eq!(profile.education.len(), 0);
    assert_eq!(profile.date_updated, Some(5));
    let mut seen = Vec::new();
    for s in &profile.skills {
        let id = s.field_id.unwrap();
        assert_ne!(id, old_id);
        assert!(!seen.contains(&id));
        seen.push(id);
    }
}

#[test]
fn field_id_traits_read_and_write() {
    let mut v = ProfileValue::Skills(Skills { field_id: None, skill: "x".to_string() });
    assert_eq!(v.get_field_id(), None);
    v.update_field_id(Some(9));
    assert_eq!(v.get_field_id(), Some(9));
    let mut f = ProfileValue::FieldId(3);
    assert_eq!(f.get_field_id(), Some(3));
    f.update_field_id(Some(4));
    assert_eq!(f.get_field_id(), Some(4));
}

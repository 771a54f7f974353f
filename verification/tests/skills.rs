use aionui_core::skill_bridge::{after_stage_removal, skill_bridge_layout, StageRemoval};
use aionui_core::skills::{
    deleted_skill, import_record_limit, skill_storage_key, upsert_identity, upserted_skill,
    SkillRow,
};
use aionui_core::db::DbError;

fn skill(id: &str, created_at: i64) -> SkillRow {
    SkillRow {
        id: id.into(),
        name: "sample".into(),
        owner_user_id: "system_default_user".into(),
        description: Some("Old".into()),
        path: "/tmp/old".into(),
        source: "user".into(),
        enabled: true,
        deleted_at: Some(5),
        created_at,
        updated_at: 5,
    }
}

#[test]
fn storage_key_joins_owner_and_name() {
    assert_eq!(skill_storage_key("user-a", "same-name"), "user-a\u{1f}same-name");
    assert_ne!(skill_storage_key("user-a", "same-name"), skill_storage_key("user-b", "same-name"));
}

#[test]
fn upsert_keeps_identity_of_existing_skill() {
    let existing = skill("skill_1", 3);
    assert_eq!(upsert_identity(Some(&existing), "skill_2".into(), 9), ("skill_1".to_string(), 3));
    assert_eq!(upsert_identity(None, "skill_2".into(), 9), ("skill_2".to_string(), 9));
}

#[test]
fn upsert_reports_missing_row() {
    assert!(upserted_skill(Some(skill("a", 1)), "sample").is_ok());
    assert!(matches!(
        upserted_skill(None, "sample"),
        Err(DbError::NotFound(m)) if m == "skill 'sample' was not found after upsert"
    ));
}

#[test]
fn delete_reports_missing_skill() {
    assert!(matches!(deleted_skill(0, None, "x"), Err(DbError::NotFound(m)) if m == "skill 'x'"));
    assert!(matches!(deleted_skill(1, None, "x"), Err(DbError::NotFound(m)) if m == "skill 'x'"));
    assert_eq!(deleted_skill(1, Some(skill("a", 1)), "x").unwrap().id, "a");
}

#[test]
fn import_record_limits_are_not_negative() {
    assert_eq!(import_record_limit(-3), 0);
    assert_eq!(import_record_limit(10), 10);
}

#[test]
fn bridge_layout_stages_outside_workspace() {
    let l = skill_bridge_layout("/w/workspace", "/w/data", "conv-1");
    assert_eq!(l.source, "/w/workspace/.zigo/skills");
    assert!(l.stage_root.starts_with("/w/data/aionrs-skill-bridges/"));
    assert_eq!(l.stage_root.len(), "/w/data/aionrs-skill-bridges/".len() + 64);
    assert_eq!(l.stage_skills, format!("{}/.aionrs/skills", l.stage_root));
}

#[test]
fn stale_stage_removal_tolerates_absence_only() {
    assert!(after_stage_removal(StageRemoval::Removed).is_ok());
    assert!(after_stage_removal(StageRemoval::Absent).is_ok());
    let failed = after_stage_removal(StageRemoval::Failed(std::io::Error::new(
        std::io::ErrorKind::PermissionDenied,
        "denied",
    )));
    assert_eq!(failed.unwrap_err().kind(), std::io::ErrorKind::PermissionDenied);
}

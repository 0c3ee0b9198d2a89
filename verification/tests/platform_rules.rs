use orbis::backup::{backup_from_row, BackupRow, BackupTrigger};
use orbis::db::{
    check_migration_target, checkpoint_or_default, guard_range, migration_plan, setting_from_row, tool_enabled_from_row,
    AppSettings, DbError, SettingKey, SettingValue, CHECKPOINT_SEC_MAX, CHECKPOINT_SEC_MIN,
    RETENTION_DAYS_MAX, RETENTION_DAYS_MIN, SCHEMA_VERSION,
};
use orbis::installation::{installation_from_row, AddedVia, InstallationRow, PersistedStatus, VersionSource};
use orbis::model::{GameRuntimeStatus, Region};
use orbis::version::Version;

fn backup_row(trigger: &str) -> BackupRow {
    BackupRow {
        id: "b1".to_owned(),
        installation_id: "i1".to_owned(),
        game_id: "wuthering-waves".to_owned(),
        tool_id: None,
        trigger: trigger.to_owned(),
        file_count: 3,
        total_bytes: 40,
        manifest_json: "{\"files\":[]}".to_owned(),
        created_at: 1_758_000_000_000,
    }
}

fn installation_row() -> InstallationRow {
    InstallationRow {
        id: "i1".to_owned(),
        game_id: "sample-game".to_owned(),
        region: "cn".to_owned(),
        install_path: "C:/sample".to_owned(),
        executable_path: "C:/sample/game.exe".to_owned(),
        local_version: Some("3.5.0.128940".to_owned()),
        version_norm: Some("3.5".to_owned()),
        version_source: Some("exe_versioninfo".to_owned()),
        status: "installed".to_owned(),
        added_via: "manual".to_owned(),
        created_at: 1_758_000_000_000,
        updated_at: 1_758_000_000_001,
    }
}

// ── backups ────────────────────────────────────────────────────────────

#[test]
fn trigger_round_trips_through_its_slug() {
    for trigger in BackupTrigger::ALL {
        assert_eq!(BackupTrigger::from_slug(trigger.slug()), Some(trigger));
    }
    assert_eq!(BackupTrigger::from_slug("something_else"), None);
}

#[test]
fn a_corrupt_trigger_is_an_error_not_a_default() {
    let err = backup_from_row(backup_row("not_a_trigger")).unwrap_err();
    match &err {
        DbError::CorruptBackupRow { id, column, detail } => {
            assert_eq!(id, "b1");
            assert_eq!(*column, "trigger");
            assert_eq!(detail, "未知取值 \"not_a_trigger\"");
        }
        other => panic!("an unknown trigger must be reported, got {other:?}"),
    }
    assert_eq!(err.to_string(), "备份 b1 的 trigger 列无法解析：未知取值 \"not_a_trigger\"");
}

#[test]
fn a_valid_backup_row_reads_back_every_column() {
    let b = backup_from_row(backup_row("pre_modify")).unwrap();
    assert_eq!(b.trigger, BackupTrigger::PreModify);
    assert_eq!(b.id, "b1");
    assert_eq!(b.tool_id, None);
    assert_eq!(b.file_count, 3);
    assert_eq!(b.total_bytes, 40);
    assert_eq!(b.created_at, 1_758_000_000_000);
}

// ── settings ───────────────────────────────────────────────────────────

#[test]
fn setting_keys_are_a_closed_whitelist() {
    for key in SettingKey::ALL {
        assert_eq!(SettingKey::from_slug(key.slug()), Some(key));
    }
    for bogus in ["auto_backup.enabled", "safety.disabled", "version_check.ENABLED", "log.retention_days ", ""] {
        assert_eq!(SettingKey::from_slug(bogus), None, "not a setting key: {bogus:?}");
    }
    let mut slugs: Vec<&str> = SettingKey::ALL.iter().map(|k| k.slug()).collect();
    slugs.sort_unstable();
    slugs.dedup();
    assert_eq!(slugs.len(), SettingKey::ALL.len());
}

#[test]
fn defaults_match_the_documented_values() {
    let settings = AppSettings::from_values(
        setting_from_row(SettingKey::VersionCheckEnabled, None).unwrap(),
        setting_from_row(SettingKey::LogRetentionDays, None).unwrap(),
        setting_from_row(SettingKey::PlaytimeCheckpointSec, None).unwrap(),
    )
    .unwrap();
    assert_eq!(
        settings,
        AppSettings { version_check_enabled: true, log_retention_days: 14, playtime_checkpoint_sec: 30 }
    );
}

#[test]
fn type_mismatch_is_rejected() {
    let err = SettingValue::Bool(true).ensure_matches(SettingKey::LogRetentionDays).unwrap_err();
    assert!(matches!(err, DbError::InvalidSettingValue { .. }), "{err:?}");
    assert_eq!(err.to_string(), "设置项 log.retention_days 取值非法：该键期望1–365 的整数（天），得到 Bool(true)");

    let err = SettingValue::U32(1).ensure_matches(SettingKey::VersionCheckEnabled).unwrap_err();
    assert!(matches!(err, DbError::InvalidSettingValue { .. }), "{err:?}");
}

#[test]
fn out_of_range_values_are_rejected() {
    for (key, value) in [
        (SettingKey::LogRetentionDays, 0u32),
        (SettingKey::LogRetentionDays, RETENTION_DAYS_MAX + 1),
        (SettingKey::PlaytimeCheckpointSec, 0u32),
        (SettingKey::PlaytimeCheckpointSec, CHECKPOINT_SEC_MAX + 1),
    ] {
        let err = SettingValue::U32(value).ensure_matches(key).unwrap_err();
        assert!(matches!(err, DbError::InvalidSettingValue { .. }), "{key:?}={value} got {err:?}");
    }
    SettingValue::U32(RETENTION_DAYS_MIN).ensure_matches(SettingKey::LogRetentionDays).unwrap();
}

#[test]
fn setting_bounds_match_the_contract() {
    assert_eq!((RETENTION_DAYS_MIN, RETENTION_DAYS_MAX), (1, 365));
    assert_eq!((CHECKPOINT_SEC_MIN, CHECKPOINT_SEC_MAX), (10, 300));
    for value in [RETENTION_DAYS_MIN, RETENTION_DAYS_MAX] {
        assert!(guard_range(SettingKey::LogRetentionDays, value).is_ok());
    }
    for value in [CHECKPOINT_SEC_MIN, CHECKPOINT_SEC_MAX] {
        assert!(guard_range(SettingKey::PlaytimeCheckpointSec, value).is_ok());
    }
    for (key, value) in [
        (SettingKey::LogRetentionDays, RETENTION_DAYS_MAX + 1),
        (SettingKey::PlaytimeCheckpointSec, CHECKPOINT_SEC_MIN - 1),
        (SettingKey::PlaytimeCheckpointSec, CHECKPOINT_SEC_MAX + 1),
    ] {
        assert!(SettingValue::U32(value).ensure_matches(key).is_err(), "{key:?}={value}");
    }
    for key in [SettingKey::LogRetentionDays, SettingKey::PlaytimeCheckpointSec] {
        let SettingValue::U32(default) = key.default_value() else {
            panic!("{key:?} is an integer key");
        };
        assert!(SettingValue::U32(default).ensure_matches(key).is_ok());
    }
}

#[test]
fn externally_corrupted_setting_value_is_reported_not_defaulted() {
    let err = setting_from_row(SettingKey::LogRetentionDays, Some("\"十四天\"")).unwrap_err();
    assert!(matches!(err, DbError::CorruptSettingValue { .. }), "{err:?}");
    assert!(matches!(
        setting_from_row(SettingKey::LogRetentionDays, Some("-5")).unwrap_err(),
        DbError::CorruptSettingValue { .. }
    ));
    assert!(matches!(
        setting_from_row(SettingKey::VersionCheckEnabled, Some("not json")).unwrap_err(),
        DbError::CorruptSettingValue { .. }
    ));
}

#[test]
fn stored_settings_read_back_as_written() {
    assert_eq!(SettingValue::U32(3).to_storage(), "3");
    assert_eq!(SettingValue::Bool(false).to_storage(), "false");
    assert_eq!(setting_from_row(SettingKey::LogRetentionDays, Some("3")).unwrap(), SettingValue::U32(3));
    assert_eq!(
        setting_from_row(SettingKey::VersionCheckEnabled, Some("false")).unwrap(),
        SettingValue::Bool(false)
    );
    assert_eq!(
        SettingValue::parse_stored(SettingKey::PlaytimeCheckpointSec, "45").unwrap(),
        SettingValue::U32(45)
    );
}

#[test]
fn a_stored_value_outside_the_bounds_is_invalid() {
    assert!(matches!(
        setting_from_row(SettingKey::LogRetentionDays, Some("0")).unwrap_err(),
        DbError::InvalidSettingValue { .. }
    ));
}

#[test]
fn settings_of_the_wrong_type_are_reported() {
    let err = AppSettings::from_values(SettingValue::U32(1), SettingValue::U32(14), SettingValue::U32(30))
        .unwrap_err();
    match err {
        DbError::CorruptSettingValue { key, detail } => {
            assert_eq!(key, "version_check.enabled");
            assert_eq!(detail, "期望布尔，得到 U32(1)");
        }
        other => panic!("unexpected {other:?}"),
    }
}

#[test]
fn tool_state_defaults_to_disabled() {
    assert!(!tool_enabled_from_row(None));
    assert!(!tool_enabled_from_row(Some(0)));
    assert!(tool_enabled_from_row(Some(1)));
}

#[test]
fn migration_plan_runs_only_the_missing_steps() {
    assert_eq!(migration_plan(0).unwrap(), vec![SCHEMA_VERSION]);
    assert!(migration_plan(SCHEMA_VERSION).unwrap().is_empty());
    match migration_plan(SCHEMA_VERSION + 1).unwrap_err() {
        DbError::UnsupportedSchemaVersion { found, supported } => {
            assert_eq!(found, SCHEMA_VERSION + 1);
            assert_eq!(supported, SCHEMA_VERSION);
        }
        other => panic!("unexpected {other:?}"),
    }
    assert!(check_migration_target(SCHEMA_VERSION).is_ok());
}

// ── installations ──────────────────────────────────────────────────────

#[test]
fn insert_then_read_roundtrips_every_column() {
    let rec = installation_from_row(installation_row()).unwrap();
    assert_eq!(rec.id, "i1");
    assert_eq!(rec.game_id, "sample-game");
    assert_eq!(rec.region, Region::Cn);
    assert_eq!(rec.install_path, "C:/sample");
    assert_eq!(rec.executable_path, "C:/sample/game.exe");
    assert_eq!(rec.local_version.as_deref(), Some("3.5.0.128940"));
    assert_eq!(rec.version_norm, Some(Version { major: 3, minor: 5 }));
    assert_eq!(rec.version_source, Some(VersionSource::ExeVersionInfo));
    assert_eq!(rec.status, PersistedStatus::Installed);
    assert_eq!(rec.added_via, AddedVia::Manual);
    assert_eq!(rec.created_at, 1_758_000_000_000);
    assert_eq!(rec.updated_at, 1_758_000_000_001);
    assert!(!rec.version_unknown());
}

#[test]
fn unknown_versions_roundtrip_as_none_not_empty_string() {
    let row = InstallationRow { local_version: None, version_norm: None, version_source: None, ..installation_row() };
    let rec = installation_from_row(row).unwrap();
    assert_eq!(rec.local_version, None);
    assert_eq!(rec.version_norm, None);
    assert_eq!(rec.version_source, None);
    assert!(rec.version_unknown());
}

#[test]
fn corrupt_enum_columns_are_reported_not_defaulted() {
    for (column, value) in [
        ("region", "mars"),
        ("status", "flying"),
        ("added_via", "teleport"),
        ("version_source", "crystal-ball"),
        ("version_norm", "3"),
        ("game_id", "Not A Slug"),
    ] {
        let mut row = installation_row();
        match column {
            "region" => row.region = value.to_owned(),
            "status" => row.status = value.to_owned(),
            "added_via" => row.added_via = value.to_owned(),
            "version_source" => row.version_source = Some(value.to_owned()),
            "version_norm" => row.version_norm = Some(value.to_owned()),
            _ => row.game_id = value.to_owned(),
        }
        match installation_from_row(row) {
            Err(DbError::CorruptInstallationRow { column: c, id, .. }) => {
                assert_eq!(c, column);
                assert_eq!(id, "i1");
            }
            other => panic!("{column}={value:?} must be rejected, got {other:?}"),
        }
    }
}

#[test]
fn running_is_not_a_persistable_status() {
    assert_eq!(PersistedStatus::from_slug("running"), None);
    for status in PersistedStatus::ALL {
        assert_eq!(PersistedStatus::from_slug(status.slug()), Some(status));
        assert_ne!(status.to_runtime(), GameRuntimeStatus::Running);
    }
    let row = InstallationRow { status: "running".to_owned(), ..installation_row() };
    match installation_from_row(row) {
        Err(DbError::CorruptInstallationRow { column, detail, .. }) => {
            assert_eq!(column, "status");
            assert_eq!(detail, "未知状态：\"running\"（running 由进程快照派生，不落库）");
        }
        other => panic!("unexpected {other:?}"),
    }
}

#[test]
fn status_and_vocabulary_slugs_match_the_contract() {
    assert_eq!(PersistedStatus::Installed.slug(), "installed");
    assert_eq!(PersistedStatus::Broken.slug(), "broken");
    assert_eq!(VersionSource::ExeVersionInfo.slug(), "exe_versioninfo");
    assert_eq!(VersionSource::Directory.slug(), "directory");
    assert_eq!(AddedVia::Scan.slug(), "scan");
    assert_eq!(AddedVia::Manual.slug(), "manual");
    for region in Region::ALL {
        assert_eq!(Region::from_slug(region.slug()), Some(region));
    }
}

#[test]
fn tool_enabled_reflects_the_stored_flag() {
    assert!(tool_enabled_from_row(Some(1)));
    assert!(tool_enabled_from_row(Some(-1)));
    assert!(!tool_enabled_from_row(Some(0)));
    assert!(!tool_enabled_from_row(None));
}

#[test]
fn a_stored_value_that_does_not_read_carries_the_parser_message() {
    let expected = serde_json::from_str::<i64>("true").unwrap_err().to_string();
    match setting_from_row(SettingKey::LogRetentionDays, Some("true")).unwrap_err() {
        DbError::CorruptSettingValue { key, detail } => {
            assert_eq!(key, "log.retention_days");
            assert_eq!(detail, expected);
        }
        other => panic!("unexpected {other:?}"),
    }
    let expected = serde_json::from_str::<bool>("1").unwrap_err().to_string();
    match setting_from_row(SettingKey::VersionCheckEnabled, Some("1")).unwrap_err() {
        DbError::CorruptSettingValue { detail, .. } => assert_eq!(detail, expected),
        other => panic!("unexpected {other:?}"),
    }
    match setting_from_row(SettingKey::LogRetentionDays, Some("-5")).unwrap_err() {
        DbError::CorruptSettingValue { detail, .. } => assert_eq!(detail, "负数或超范围：-5"),
        other => panic!("unexpected {other:?}"),
    }
    let too_big = "99999999999999999999";
    let expected = serde_json::from_str::<i64>(too_big).unwrap_err().to_string();
    match setting_from_row(SettingKey::PlaytimeCheckpointSec, Some(too_big)).unwrap_err() {
        DbError::CorruptSettingValue { detail, .. } => assert_eq!(detail, expected),
        other => panic!("unexpected {other:?}"),
    }
}

#[test]
fn the_checkpoint_interval_falls_back_to_its_default_when_settings_do_not_read() {
    let settings = AppSettings { version_check_enabled: true, log_retention_days: 14, playtime_checkpoint_sec: 120 };
    assert_eq!(checkpoint_or_default(&Ok(settings)), 120);
    let broken = DbError::CorruptSettingValue { key: "playtime.checkpoint_sec".to_owned(), detail: "x".to_owned() };
    assert_eq!(checkpoint_or_default(&Err(broken)), 30);
}

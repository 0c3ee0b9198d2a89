use orbis::backup::{BackupRecord, BackupTrigger};
use orbis::clock::epoch_millis;
use orbis::commands::{
    db_unavailable, exit_notice, local_version_or_unknown, parse_setting_value, playtime_notice,
    playtime_scope, removal_result, require_backup, require_installation, retention_days,
    setting_key_of, startup_report, termination_notice, termination_result, termination_target,
    tool_enabled_or_off, PlaytimeScope,
};
use orbis::db::{AppSettings, DbError, SettingKey, SettingValue};
use orbis::error::{internal, ErrorCode, OrbisError};
use orbis::installation::{AddedVia, InstallationRecord, PersistedStatus};
use orbis::log::LogLevel;
use orbis::model::Region;
use orbis::playtime::TrackedEvent;
use orbis::process::KillOutcome;
use orbis::tools::BuiltinData;
use orbis::version::Version;
use serde_json::Value;

fn detail_of(err: &OrbisError, key: &str) -> Option<String> {
    err.detail()
        .and_then(|pairs| pairs.iter().rev().find(|(k, _)| k == key).map(|(_, v)| v.clone()))
}

fn installation_for(game_id: &str, id: &str) -> InstallationRecord {
    InstallationRecord {
        id: id.to_owned(),
        game_id: game_id.to_owned(),
        region: Region::Cn,
        install_path: "C:/sample".to_owned(),
        executable_path: format!("C:/sample/{id}.exe"),
        local_version: None,
        version_norm: None,
        version_source: None,
        status: PersistedStatus::Installed,
        added_via: AddedVia::Manual,
        created_at: 1_758_000_000_000,
        updated_at: 1_758_000_000_000,
    }
}

// ── errors ─────────────────────────────────────────────────────────────

#[test]
fn retryable_flags_match_the_contract_table() {
    let retryable = [
        ErrorCode::ExecutableMissing,
        ErrorCode::PathNotFound,
        ErrorCode::GameProcessActive,
        ErrorCode::BackupFailed,
        ErrorCode::BackupSpaceInsufficient,
        ErrorCode::ToolAssetDownloadFailed,
        ErrorCode::NetworkUnreachable,
    ];
    for code in retryable {
        assert!(code.retryable(), "{code:?}");
    }
    let not_retryable = [
        ErrorCode::GameNotFound,
        ErrorCode::GameAlreadyRunning,
        ErrorCode::GameNotRunning,
        ErrorCode::ExecutableInvalid,
        ErrorCode::LooksLikeLauncher,
        ErrorCode::GameMismatch,
        ErrorCode::InstallationDuplicate,
        ErrorCode::PathPermissionDenied,
        ErrorCode::ConfigSourceUnsupported,
        ErrorCode::CompatBlocked,
        ErrorCode::CompatUnknownL3,
        ErrorCode::CompatOverrideRequired,
        ErrorCode::ConsentRequired,
        ErrorCode::BackupNotFound,
        ErrorCode::RestoreHashMismatch,
        ErrorCode::ToolNotFound,
        ErrorCode::ToolAssetNotConfigured,
        ErrorCode::ToolAssetHashMismatch,
        ErrorCode::VersionSourceUnsupported,
        ErrorCode::SettingUnknownKey,
        ErrorCode::SettingInvalidValue,
        ErrorCode::NotImplemented,
        ErrorCode::Internal,
    ];
    for code in not_retryable {
        assert!(!code.retryable(), "{code:?}");
    }
    assert_eq!(retryable.len() + not_retryable.len(), 30);
}

#[test]
fn serializes_to_the_shape_the_frontend_expects() {
    let err = OrbisError::new(ErrorCode::ToolNotFound, "tool x not found").with_detail("toolId", "sample-ns/sample-tool");
    assert_eq!(err.code().literal(), "TOOL_NOT_FOUND");
    assert_eq!(err.message(), "tool x not found");
    assert!(!err.retryable());
    assert_eq!(detail_of(&err, "toolId").as_deref(), Some("sample-ns/sample-tool"));
}

#[test]
fn detail_is_null_when_absent_not_an_empty_object() {
    assert!(OrbisError::new(ErrorCode::Internal, "boom").detail().is_none());
}

#[test]
fn retryable_cannot_be_set_from_outside_the_code() {
    let err = OrbisError::new(ErrorCode::PathNotFound, "gone");
    assert!(err.retryable());
    assert_eq!(err.code(), ErrorCode::PathNotFound);
}

#[test]
fn db_errors_map_to_the_documented_codes() {
    let invalid = OrbisError::from_db(DbError::InvalidSettingValue {
        key: "log.retention_days",
        detail: "0 超出范围".into(),
    });
    assert_eq!(invalid.code(), ErrorCode::SettingInvalidValue);
    assert!(!invalid.retryable());

    let corrupt = OrbisError::from_db(DbError::CorruptSettingValue {
        key: "log.retention_days".into(),
        detail: "非法 JSON".into(),
    });
    assert_eq!(corrupt.code(), ErrorCode::Internal);

    let unsupported = OrbisError::from_db(DbError::UnsupportedSchemaVersion { found: 99, supported: 1 });
    assert_eq!(unsupported.code(), ErrorCode::Internal);
    assert!(unsupported.message().contains("99"), "{}", unsupported.message());
}

#[test]
fn a_later_detail_replaces_an_earlier_one() {
    let err = internal("x").with_detail("k", "a").with_detail("k", "b");
    assert_eq!(detail_of(&err, "k").as_deref(), Some("b"));
}

// ── settings ───────────────────────────────────────────────────────────

#[test]
fn setting_value_parsing_rejects_contract_violations() {
    assert_eq!(
        parse_setting_value(SettingKey::VersionCheckEnabled, &Value::Bool(false).to_string()).unwrap(),
        SettingValue::Bool(false)
    );
    for bad in [Value::from(1), Value::from("true"), Value::Null] {
        let err = parse_setting_value(SettingKey::VersionCheckEnabled, &bad.to_string()).unwrap_err();
        assert_eq!(err.code(), ErrorCode::SettingInvalidValue, "{bad}");
    }
    assert_eq!(
        parse_setting_value(SettingKey::LogRetentionDays, &Value::from(30).to_string()).unwrap(),
        SettingValue::U32(30)
    );
    for bad in [Value::from(7.5), Value::from(-1), Value::from("30"), Value::Bool(true)] {
        let err = parse_setting_value(SettingKey::LogRetentionDays, &bad.to_string()).unwrap_err();
        assert_eq!(err.code(), ErrorCode::SettingInvalidValue, "{bad}");
    }
    let huge = Value::from(i64::from(u32::MAX) + 1);
    assert_eq!(
        parse_setting_value(SettingKey::LogRetentionDays, &huge.to_string()).unwrap_err().code(),
        ErrorCode::SettingInvalidValue
    );
    assert_eq!(
        parse_setting_value(SettingKey::LogRetentionDays, &Value::from(u32::MAX).to_string()).unwrap(),
        SettingValue::U32(u32::MAX)
    );
}

#[test]
fn the_wire_shape_of_a_setting_error_carries_the_key() {
    let err = parse_setting_value(SettingKey::LogRetentionDays, &Value::from(1.5).to_string()).unwrap_err();
    assert_eq!(err.code().literal(), "SETTING_INVALID_VALUE");
    assert_eq!(detail_of(&err, "key").as_deref(), Some("log.retention_days"));
    assert_eq!(detail_of(&err, "value").as_deref(), Some("1.5"));
    assert_eq!(err.message(), "设置项 log.retention_days 的取值类型不符：1.5");
}

#[test]
fn unknown_setting_keys_are_refused_by_name() {
    assert_eq!(setting_key_of("log.retention_days").unwrap(), SettingKey::LogRetentionDays);
    let err = setting_key_of("safety.disabled").unwrap_err();
    assert_eq!(err.code(), ErrorCode::SettingUnknownKey);
    assert_eq!(err.message(), "非白名单设置键：\"safety.disabled\"");
    assert_eq!(detail_of(&err, "key").as_deref(), Some("safety.disabled"));
}

#[test]
fn retention_falls_back_to_the_default_visibly() {
    let settings = AppSettings { version_check_enabled: true, log_retention_days: 7, playtime_checkpoint_sec: 30 };
    assert_eq!(retention_days(Some(Ok(settings))), (7, None));
    assert_eq!(retention_days(None), (14, None));
    let (days, note) = retention_days(Some(Err(DbError::Sqlite { detail: "disk I/O error".into() })));
    assert_eq!(days, 14);
    assert_eq!(note.as_deref(), Some("设置读取失败，日志保留天数回落默认 14 天：SQLite 错误：disk I/O error"));
}

// ── installations, backups, termination ────────────────────────────────

#[test]
fn missing_installations_map_to_game_not_found() {
    let err = require_installation(None, "ghost").unwrap_err();
    assert_eq!(err.code(), ErrorCode::GameNotFound);
    assert!(!err.retryable());
    assert_eq!(detail_of(&err, "installationId").as_deref(), Some("ghost"));
    let found = require_installation(Some(installation_for("sample-game", "i1")), "i1").unwrap();
    assert_eq!(found.id, "i1");
}

#[test]
fn removing_a_missing_installation_is_game_not_found() {
    assert!(removal_result(true, "i1").is_ok());
    let err = removal_result(false, "i1").unwrap_err();
    assert_eq!(err.code(), ErrorCode::GameNotFound);
    assert_eq!(err.message(), "安装实例不存在（可能已被移除）");
}

#[test]
fn latest_version_norm_degrades_to_none_not_to_an_error() {
    assert_eq!(local_version_or_unknown(Ok(None), "sample-game"), (None, None));
    assert_eq!(local_version_or_unknown(Ok(Some(installation_for("sample-game", "i1"))), "sample-game"), (None, None));
    let mut known = installation_for("sample-game", "i2");
    known.version_norm = Some(Version { major: 3, minor: 5 });
    assert_eq!(local_version_or_unknown(Ok(Some(known)), "sample-game").0, Some(Version { major: 3, minor: 5 }));
    let (version, note) = local_version_or_unknown(Err(DbError::Sqlite { detail: "locked".into() }), "sample-game");
    assert_eq!(version, None);
    assert_eq!(note.as_deref(), Some("读取 sample-game 的本地版本失败，按版本未知处理：SQLite 错误：locked"));
}

#[test]
fn tool_state_is_false_without_a_database_and_reads_the_flag_with_one() {
    assert_eq!(tool_enabled_or_off(Ok(true), "sample-ns/sample-tool"), (true, None));
    assert_eq!(tool_enabled_or_off(Ok(false), "sample-ns/sample-tool"), (false, None));
    let (enabled, note) = tool_enabled_or_off(Err(DbError::Sqlite { detail: "x".into() }), "sample-ns/sample-tool");
    assert!(!enabled);
    assert_eq!(note.as_deref(), Some("工具 sample-ns/sample-tool 的启停状态读取失败，按未启用处理：SQLite 错误：x"));
}

#[test]
fn settings_are_unavailable_without_a_database() {
    let err = db_unavailable();
    assert_eq!(err.code(), ErrorCode::Internal);
    assert!(!err.retryable());
    assert_eq!(detail_of(&err, "reason").as_deref(), Some("db_unavailable"));
}

#[test]
fn terminating_a_stopped_installation_is_game_not_running() {
    assert_eq!(termination_target(Some(42), "i1").unwrap(), 42);
    let err = termination_target(None, "i1").unwrap_err();
    assert_eq!(err.code(), ErrorCode::GameNotRunning);
    assert_eq!(detail_of(&err, "installationId").as_deref(), Some("i1"));
}

#[test]
fn a_process_that_already_left_counts_as_terminated() {
    assert!(termination_result(KillOutcome::Signalled, "i1").is_ok());
    assert!(termination_result(KillOutcome::Gone, "i1").is_ok());
    let err = termination_result(KillOutcome::Denied, "i1").unwrap_err();
    assert_eq!(err.code(), ErrorCode::Internal);
    assert_eq!(err.message(), "终止进程被拒绝（通常是权限不足：游戏可能以管理员身份运行）");
    assert_eq!(termination_notice(KillOutcome::Gone, "genshin-impact", 7), (LogLevel::Info, "已终止 genshin-impact（pid 7）".to_owned()));
    assert_eq!(
        termination_notice(KillOutcome::Denied, "genshin-impact", 7),
        (LogLevel::Warn, "终止 genshin-impact 失败（pid 7）：权限不足".to_owned())
    );
}

#[test]
fn deleting_a_missing_backup_is_backup_not_found() {
    let err = require_backup(None, "ghost").unwrap_err();
    assert_eq!(err.code(), ErrorCode::BackupNotFound);
    assert_eq!(detail_of(&err, "backupId").as_deref(), Some("ghost"));
    let backup = BackupRecord {
        id: "b1".into(),
        installation_id: "i1".into(),
        game_id: "wuthering-waves".into(),
        tool_id: None,
        trigger: BackupTrigger::Manual,
        file_count: 2,
        total_bytes: 40,
        manifest_json: "{}".into(),
        created_at: 1,
    };
    assert_eq!(require_backup(Some(backup), "b1").unwrap().id, "b1");
}

// ── play time and notices ──────────────────────────────────────────────

#[test]
fn only_the_three_scopes_exist() {
    assert_eq!(playtime_scope("today").unwrap(), PlaytimeScope::Today);
    assert_eq!(playtime_scope("week").unwrap().slug(), "week");
    assert_eq!(playtime_scope("total").unwrap(), PlaytimeScope::Total);
    let err = playtime_scope("month").unwrap_err();
    assert_eq!(err.code(), ErrorCode::Internal);
    assert_eq!(err.message(), "未知的时长 scope：\"month\"");
    assert_eq!(detail_of(&err, "scope").as_deref(), Some("month"));
}

#[test]
fn notices_name_the_game() {
    let records = vec![installation_for("genshin-impact", "i1")];
    let started = TrackedEvent::Started { installation_id: "i1".into(), session_id: "i1@1".into() };
    assert_eq!(playtime_notice(&records, &started), "genshin-impact：开始记录时长");
    let ended = TrackedEvent::Ended { installation_id: "i9".into(), session_id: "i9@1".into(), duration_sec: 90 };
    assert_eq!(playtime_notice(&records, &ended), "i9：本次时长已记录 90 秒");
    assert_eq!(exit_notice("genshin-impact", 4321), "genshin-impact 的进程已退出（pid Some(4321)），状态回落 installed");
}

#[test]
fn epoch_millis_is_milliseconds_not_seconds() {
    let now = epoch_millis();
    assert!(now > 1_700_000_000_000, "{now}");
    assert!(now < 4_000_000_000_000, "{now}");
}

#[test]
fn the_startup_check_passes_on_a_supported_target_and_reports_the_data() {
    let data = BuiltinData::load();
    let report = startup_report(true, &data, Some(Ok(1)));
    assert!(report.passed);
    let (level, summary) = report.entries.last().unwrap();
    assert_eq!(*level, LogLevel::Info);
    assert_eq!(
        summary,
        &format!(
            "启动自检通过（种子条目 {}、工具 {}、资产 {}、数据库 schema v1）",
            data.seed.entries().len(),
            data.manifests.len(),
            data.assets.entries().len()
        )
    );
    assert_eq!(report.entries.len(), data.degradations.len() + data.issues.len() + 1);

    let failed = startup_report(false, &data, None);
    assert!(!failed.passed);
    let (level, summary) = failed.entries.last().unwrap();
    assert_eq!(*level, LogLevel::Error);
    assert!(summary.starts_with("启动自检失败"));
    assert!(summary.ends_with("数据库 不可用）"));
}

#[test]
fn terminating_an_unknown_installation_is_game_not_found() {
    let err = require_installation(None, "ghost").unwrap_err();
    assert_eq!(err.code(), ErrorCode::GameNotFound);
    assert_eq!(err.message(), "安装实例不存在");
}

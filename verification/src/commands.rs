//! The decisions of the command surface: which error a command answers,
//! how a setting value from the interface is read, what play time an
//! installation shows, and what the start-up check reports.
//!
//! Each command takes state, asks the domain and projects the answer; the
//! application performs the reads and writes and hands the results here.

use vstd::prelude::*;

use crate::db::{AppSettings, DbError, SettingKey, SettingValue};
use crate::error::{ErrorCode, OrbisError};
use crate::installation::InstallationRecord;
use crate::json::{json_outcome, parse_json, JsonValue};
use crate::log::{LogLevel, DEFAULT_RETENTION_DAYS};
use crate::playtime::{PlaytimeRow, TrackedEvent};
use crate::process::KillOutcome;
use crate::text::{append_str, decimal_chars, debug_form, int_text, owned, push_decimal, push_int, push_quoted, str_eq};
use crate::tools::{BuiltinData, DataIssue, Severity};
use crate::version::{normalize, normalized_version, version_text, Version};
use crate::backup::BackupRecord;

verus! {

/// `err` carries `code`, `message` and exactly the detail `key = value`.
pub open spec fn error_is(err: OrbisError, code: ErrorCode, message: Seq<char>, key: Seq<char>, value: Seq<char>) -> bool {
    &&& err@.code == code
    &&& err@.message == message
    &&& err@.retryable == code.is_retryable()
    &&& err@.detail == Some(Map::<Seq<char>, Seq<char>>::empty().insert(key, value))
}

fn error_with(code: ErrorCode, message: &str, key: &str, value: &str) -> (r: OrbisError)
    ensures
        error_is(r, code, message@, key@, value@),
{
    OrbisError::new(code, message).with_detail(key, value)
}

// ── Installations and backups ─────────────────────────────────────────

/// The installation that was looked up, or `GAME_NOT_FOUND` with its id.
/// Checking first keeps an unknown id from surfacing as a foreign-key
/// fault (`INTERNAL`).
pub fn require_installation(found: Option<InstallationRecord>, installation_id: &str) -> (r: Result<
    InstallationRecord,
    OrbisError,
>)
    ensures
        match found {
            Some(rec) => r == Ok::<InstallationRecord, OrbisError>(rec),
            None => r matches Err(e) && error_is(
                e,
                ErrorCode::GameNotFound,
                "安装实例不存在"@,
                "installationId"@,
                installation_id@,
            ),
        },
{
    match found {
        Some(rec) => Ok(rec),
        None => Err(error_with(ErrorCode::GameNotFound, "安装实例不存在", "installationId", installation_id)),
    }
}

/// The answer to removing an installation, given whether a row went.
pub fn removal_result(removed: bool, installation_id: &str) -> (r: Result<(), OrbisError>)
    ensures
        removed ==> r is Ok,
        !removed ==> (r matches Err(e) && error_is(
            e,
            ErrorCode::GameNotFound,
            "安装实例不存在（可能已被移除）"@,
            "installationId"@,
            installation_id@,
        )),
{
    if removed {
        Ok(())
    } else {
        Err(
            error_with(
                ErrorCode::GameNotFound,
                "安装实例不存在（可能已被移除）",
                "installationId",
                installation_id,
            ),
        )
    }
}

/// The backup that was looked up, or `BACKUP_NOT_FOUND` with its id.
pub fn require_backup(found: Option<BackupRecord>, backup_id: &str) -> (r: Result<BackupRecord, OrbisError>)
    ensures
        match found {
            Some(rec) => r == Ok::<BackupRecord, OrbisError>(rec),
            None => r matches Err(e) && error_is(
                e,
                ErrorCode::BackupNotFound,
                "备份不存在（可能已被删除）"@,
                "backupId"@,
                backup_id@,
            ),
        },
{
    match found {
        Some(rec) => Ok(rec),
        None => Err(error_with(ErrorCode::BackupNotFound, "备份不存在（可能已被删除）", "backupId", backup_id)),
    }
}

/// The fault answered when the run has no database.
pub fn db_unavailable() -> (r: OrbisError)
    ensures
        error_is(r, ErrorCode::Internal, "数据库不可用 —— 本次运行不持久化任何状态"@, "reason"@, "db_unavailable"@),
{
    error_with(ErrorCode::Internal, "数据库不可用 —— 本次运行不持久化任何状态", "reason", "db_unavailable")
}

// ── Ending a game ─────────────────────────────────────────────────────

/// The process to end: the installation's running pid, or
/// `GAME_NOT_RUNNING` (a game that was not running is a fact to report,
/// not a success).
pub fn termination_target(pid: Option<u32>, installation_id: &str) -> (r: Result<u32, OrbisError>)
    ensures
        match pid {
            Some(p) => r == Ok::<u32, OrbisError>(p),
            None => r matches Err(e) && error_is(
                e,
                ErrorCode::GameNotRunning,
                "该实例当前没有在运行"@,
                "installationId"@,
                installation_id@,
            ),
        },
{
    match pid {
        Some(p) => Ok(p),
        None => Err(error_with(ErrorCode::GameNotRunning, "该实例当前没有在运行", "installationId", installation_id)),
    }
}

pub open spec fn denied_note() -> Seq<char> {
    "终止进程被拒绝（通常是权限不足：游戏可能以管理员身份运行）"@
}

/// The answer to ending a game: done when the process was signalled or had
/// already gone (the wanted state holds); a refusal is an error, since the
/// game still runs.
pub fn termination_result(outcome: KillOutcome, installation_id: &str) -> (r: Result<(), OrbisError>)
    ensures
        outcome != KillOutcome::Denied ==> r is Ok,
        outcome == KillOutcome::Denied ==> (r matches Err(e) && error_is(
            e,
            ErrorCode::Internal,
            denied_note(),
            "installationId"@,
            installation_id@,
        )),
{
    match outcome {
        KillOutcome::Signalled | KillOutcome::Gone => Ok(()),
        KillOutcome::Denied => Err(
            error_with(
                ErrorCode::Internal,
                "终止进程被拒绝（通常是权限不足：游戏可能以管理员身份运行）",
                "installationId",
                installation_id,
            ),
        ),
    }
}

/// The log entry for an attempt to end a game.
pub open spec fn termination_note(outcome: KillOutcome, game_id: Seq<char>, pid: u32) -> (LogLevel, Seq<char>) {
    match outcome {
        KillOutcome::Denied => (
            LogLevel::Warn,
            "终止 "@ + game_id + " 失败（pid "@ + decimal_chars(pid as nat) + "）：权限不足"@,
        ),
        _ => (LogLevel::Info, "已终止 "@ + game_id + "（pid "@ + decimal_chars(pid as nat) + "）"@),
    }
}

pub fn termination_notice(outcome: KillOutcome, game_id: &str, pid: u32) -> (r: (LogLevel, String))
    ensures
        (r.0, r.1@) == termination_note(outcome, game_id@, pid),
{
    match outcome {
        KillOutcome::Denied => {
            let mut m = owned("终止 ");
            append_str(&mut m, game_id);
            append_str(&mut m, " 失败（pid ");
            push_decimal(&mut m, pid as u64);
            append_str(&mut m, "）：权限不足");
            (LogLevel::Warn, m)
        },
        _ => {
            let mut m = owned("已终止 ");
            append_str(&mut m, game_id);
            append_str(&mut m, "（pid ");
            push_decimal(&mut m, pid as u64);
            append_str(&mut m, "）");
            (LogLevel::Info, m)
        },
    }
}

// ── Settings ──────────────────────────────────────────────────────────

/// A setting key from the interface, or `SETTING_UNKNOWN_KEY`: only the
/// keys of the closed list exist.
pub fn setting_key_of(key: &str) -> (r: Result<SettingKey, OrbisError>)
    ensures
        match SettingKey::parse_text(key@) {
            Some(k) => r == Ok::<SettingKey, OrbisError>(k),
            None => r matches Err(e) && error_is(
                e,
                ErrorCode::SettingUnknownKey,
                "非白名单设置键："@ + debug_form(key@),
                "key"@,
                key@,
            ),
        },
{
    match SettingKey::from_slug(key) {
        Some(k) => Ok(k),
        None => {
            let mut m = owned("非白名单设置键：");
            push_quoted(&mut m, key);
            Err(error_with(ErrorCode::SettingUnknownKey, m.as_str(), "key", key))
        },
    }
}

/// What a JSON value from the interface means for a key: a boolean for the
/// flag, a non-negative integer that fits `u32` for the others.  Bounds
/// are checked when the value is written, not here.
pub open spec fn setting_read(key: SettingKey, v: JsonValue) -> Option<SettingValue> {
    if key.is_flag() {
        match v {
            JsonValue::Bool(b) => Some(SettingValue::Bool(b)),
            _ => None,
        }
    } else {
        match v {
            JsonValue::Number(Some(n)) => if 0 <= n <= u32::MAX {
                Some(SettingValue::U32(n as u32))
            } else {
                None
            },
            _ => None,
        }
    }
}

/// Reads a setting value sent by the interface as JSON text (`raw` is the
/// value as serialized).  Anything else than the key's type (a string, a
/// fraction, a negative or too large number) is `SETTING_INVALID_VALUE`
/// naming the key and the value.
pub fn parse_setting_value(key: SettingKey, raw: &str) -> (r: Result<SettingValue, OrbisError>)
    ensures
        match json_outcome(raw@) {
            Ok(v) if setting_read(key, v) is Some => r == Ok::<SettingValue, OrbisError>(
                setting_read(key, v).unwrap(),
            ),
            _ => r matches Err(e) && {
                &&& e@.code == ErrorCode::SettingInvalidValue
                &&& e@.message == "设置项 "@ + key.slug_text() + " 的取值类型不符："@ + raw@
                &&& !e@.retryable
                &&& e@.detail == Some(
                    Map::<Seq<char>, Seq<char>>::empty().insert("key"@, key.slug_text()).insert(
                        "value"@,
                        raw@,
                    ),
                )
            },
        },
{
    let read = match parse_json(raw) {
        Err(_) => None,
        Ok(doc) => match key {
            SettingKey::VersionCheckEnabled => match doc {
                JsonValue::Bool(b) => Some(SettingValue::Bool(b)),
                _ => None,
            },
            _ => match doc {
                JsonValue::Number(Some(n)) => {
                    if 0 <= n && n <= 4294967295i128 {
                        Some(SettingValue::U32(n as u32))
                    } else {
                        None
                    }
                },
                _ => None,
            },
        },
    };
    match read {
        Some(v) => Ok(v),
        None => {
            let mut m = owned("设置项 ");
            append_str(&mut m, key.slug());
            append_str(&mut m, " 的取值类型不符：");
            append_str(&mut m, raw);
            let e = OrbisError::new(ErrorCode::SettingInvalidValue, m.as_str()).with_detail(
                "key",
                key.slug(),
            ).with_detail("value", raw);
            Err(e)
        },
    }
}

/// The log retention to apply at start-up: the stored setting, or the
/// default when there is no database or the settings cannot be read (the
/// latter with an error to log).
pub fn retention_days(read: Option<Result<AppSettings, DbError>>) -> (r: (u32, Option<String>))
    ensures
        match read {
            Some(Ok(s)) => r.0 == s.log_retention_days && r.1 is None,
            Some(Err(e)) => r.0 == DEFAULT_RETENTION_DAYS && (r.1 matches Some(m) && m@
                == "设置读取失败，日志保留天数回落默认 "@ + decimal_chars(DEFAULT_RETENTION_DAYS as nat)
                + " 天："@ + e.text()),
            None => r.0 == DEFAULT_RETENTION_DAYS && r.1 is None,
        },
{
    match read {
        Some(Ok(s)) => (s.log_retention_days, None),
        Some(Err(e)) => {
            let mut m = owned("设置读取失败，日志保留天数回落默认 ");
            push_decimal(&mut m, DEFAULT_RETENTION_DAYS as u64);
            append_str(&mut m, " 天：");
            let t = e.to_string();
            append_str(&mut m, t.as_str());
            (DEFAULT_RETENTION_DAYS, Some(m))
        },
        None => (DEFAULT_RETENTION_DAYS, None),
    }
}

// ── Reads that degrade ────────────────────────────────────────────────

/// A tool's enabled state as shown: a failed read shows as disabled, with
/// a warning to log (silently showing "off" would look like a lost setting).
pub fn tool_enabled_or_off(read: Result<bool, DbError>, tool_id: &str) -> (r: (bool, Option<String>))
    ensures
        match read {
            Ok(b) => r.0 == b && r.1 is None,
            Err(e) => !r.0 && (r.1 matches Some(m) && m@ == "工具 "@ + tool_id@
                + " 的启停状态读取失败，按未启用处理："@ + e.text()),
        },
{
    match read {
        Ok(b) => (b, None),
        Err(e) => {
            let mut m = owned("工具 ");
            append_str(&mut m, tool_id);
            append_str(&mut m, " 的启停状态读取失败，按未启用处理：");
            let t = e.to_string();
            append_str(&mut m, t.as_str());
            (false, Some(m))
        },
    }
}

/// The local version of a game for the compatibility query: the normalized
/// version of its latest installation.  No installation, an unknown
/// version and a failed read all mean "unknown" (the safe default); a
/// failed read also yields a warning to log.
pub fn local_version_or_unknown(read: Result<Option<InstallationRecord>, DbError>, game_id: &str) -> (r: (
    Option<Version>,
    Option<String>,
))
    ensures
        match read {
            Ok(Some(rec)) => r.0 == rec.version_norm && r.1 is None,
            Ok(None) => r.0 is None && r.1 is None,
            Err(e) => r.0 is None && (r.1 matches Some(m) && m@ == "读取 "@ + game_id@
                + " 的本地版本失败，按版本未知处理："@ + e.text()),
        },
{
    match read {
        Ok(Some(rec)) => (rec.version_norm, None),
        Ok(None) => (None, None),
        Err(e) => {
            let mut m = owned("读取 ");
            append_str(&mut m, game_id);
            append_str(&mut m, " 的本地版本失败，按版本未知处理：");
            let t = e.to_string();
            append_str(&mut m, t.as_str());
            (None, Some(m))
        },
    }
}

// ── Play time ─────────────────────────────────────────────────────────

/// The windows play time can be asked for.
#[derive(Debug, Clone, Copy, PartialEq, Eq, Structural)]
pub enum PlaytimeScope {
    /// Since local midnight.
    Today,
    /// Since the local Monday.
    Week,
    /// Everything.
    Total,
}

impl PlaytimeScope {
    pub open spec fn slug_text(self) -> Seq<char> {
        match self {
            PlaytimeScope::Today => "today"@,
            PlaytimeScope::Week => "week"@,
            PlaytimeScope::Total => "total"@,
        }
    }

    pub fn slug(self) -> (r: &'static str)
        ensures
            r@ == self.slug_text(),
    {
        match self {
            PlaytimeScope::Today => "today",
            PlaytimeScope::Week => "week",
            PlaytimeScope::Total => "total",
        }
    }
}

/// A scope from the interface.  Another text breaks the contract (the
/// interface sends only the three literals) and is an internal fault
/// naming the scope.
pub fn playtime_scope(scope: &str) -> (r: Result<PlaytimeScope, OrbisError>)
    ensures
        match r {
            Ok(s) => s.slug_text() == scope@,
            Err(e) => {
                &&& scope@ != "today"@ && scope@ != "week"@ && scope@ != "total"@
                &&& error_is(e, ErrorCode::Internal, "未知的时长 scope："@ + debug_form(scope@), "scope"@, scope@)
            },
        },
{
    if str_eq(scope, "today") {
        Ok(PlaytimeScope::Today)
    } else if str_eq(scope, "week") {
        Ok(PlaytimeScope::Week)
    } else if str_eq(scope, "total") {
        Ok(PlaytimeScope::Total)
    } else {
        let mut m = owned("未知的时长 scope：");
        push_quoted(&mut m, scope);
        Err(error_with(ErrorCode::Internal, m.as_str(), "scope", scope))
    }
}

/// One installation's play time in a window.
#[derive(Debug, Clone, PartialEq, Eq)]
pub struct PlaytimePerInstallationDto {
    pub installation_id: String,
    pub game_id: String,
    pub seconds: i64,
}

/// The answer to a play-time query.
#[derive(Debug, Clone, PartialEq, Eq)]
pub struct PlaytimeResultDto {
    pub scope: &'static str,
    pub total_sec: i64,
    pub per_installation: Vec<PlaytimePerInstallationDto>,
}

pub open spec fn seconds_sum(rows: Seq<PlaytimeRow>) -> int
    decreases rows.len(),
{
    if rows.len() == 0 {
        0
    } else {
        seconds_sum(rows.drop_last()) + rows.last().seconds
    }
}

/// The answer to a play-time query over its rows: the rows one for one,
/// and their sum.
pub fn playtime_result(scope: PlaytimeScope, rows: Vec<PlaytimeRow>) -> (r: PlaytimeResultDto)
    requires
        forall|n: int| 0 <= n <= rows@.len() ==> i64::MIN <= #[trigger] seconds_sum(rows@.take(n)) <= i64::MAX,
    ensures
        r.scope@ == scope.slug_text(),
        r.total_sec == seconds_sum(rows@),
        r.per_installation@.len() == rows@.len(),
        forall|k: int|
            0 <= k < rows@.len() ==> {
                &&& (#[trigger] r.per_installation@[k]).installation_id == rows@[k].installation_id
                &&& r.per_installation@[k].game_id == rows@[k].game_id
                &&& r.per_installation@[k].seconds == rows@[k].seconds
            },
{
    let mut total: i64 = 0;
    let mut per: Vec<PlaytimePerInstallationDto> = Vec::new();
    let mut i: usize = 0;
    while i < rows.len()
        invariant
            i <= rows@.len(),
            forall|n: int| 0 <= n <= rows@.len() ==> i64::MIN <= #[trigger] seconds_sum(rows@.take(n)) <= i64::MAX,
            total == seconds_sum(rows@.take(i as int)),
            per@.len() == i,
            forall|k: int|
                0 <= k < i ==> {
                    &&& (#[trigger] per@[k]).installation_id == rows@[k].installation_id
                    &&& per@[k].game_id == rows@[k].game_id
                    &&& per@[k].seconds == rows@[k].seconds
                },
        decreases rows@.len() - i,
    {
        let row = &rows[i];
        proof {
            assert(rows@.take(i + 1).drop_last() =~= rows@.take(i as int));
            assert(i64::MIN <= seconds_sum(rows@.take(i + 1)) <= i64::MAX);
        }
        total = total + row.seconds;
        per.push(
            PlaytimePerInstallationDto {
                installation_id: row.installation_id.clone(),
                game_id: row.game_id.clone(),
                seconds: row.seconds,
            },
        );
        i = i + 1;
    }
    assert(rows@.take(i as int) =~= rows@);
    PlaytimeResultDto { scope: scope.slug(), total_sec: total, per_installation: per }
}

/// An installation's play time in the three windows shown with it.
#[derive(Debug, Clone, Copy, PartialEq, Eq, Structural)]
pub struct PlaytimeDto {
    pub today_sec: i64,
    pub week_sec: i64,
    pub total_sec: i64,
}

/// The seconds of the last row of an installation (rows keyed by
/// installation: a later row replaces an earlier one).
pub open spec fn last_seconds(rows: Seq<PlaytimeRow>, installation_id: Seq<char>) -> Option<i64>
    decreases rows.len(),
{
    if rows.len() == 0 {
        None
    } else if rows.last().installation_id@ == installation_id {
        Some(rows.last().seconds)
    } else {
        last_seconds(rows.drop_last(), installation_id)
    }
}

fn seconds_of(rows: &Vec<PlaytimeRow>, installation_id: &str) -> (r: Option<i64>)
    ensures
        r == last_seconds(rows@, installation_id@),
{
    let mut found: Option<i64> = None;
    let mut i: usize = 0;
    while i < rows.len()
        invariant
            i <= rows@.len(),
            found == last_seconds(rows@.take(i as int), installation_id@),
        decreases rows@.len() - i,
    {
        assert(rows@.take(i + 1).drop_last() =~= rows@.take(i as int));
        if str_eq(rows[i].installation_id.as_str(), installation_id) {
            found = Some(rows[i].seconds);
        }
        i = i + 1;
    }
    assert(rows@.take(i as int) =~= rows@);
    found
}

/// What an installation shows: with no time at all, zeros; otherwise its
/// total, and its week and today where it has time in them.
pub open spec fn playtime_shown(
    today: Seq<PlaytimeRow>,
    week: Seq<PlaytimeRow>,
    total: Seq<PlaytimeRow>,
    installation_id: Seq<char>,
) -> PlaytimeDto {
    match last_seconds(total, installation_id) {
        None => PlaytimeDto { today_sec: 0, week_sec: 0, total_sec: 0 },
        Some(t) => PlaytimeDto {
            today_sec: match last_seconds(today, installation_id) {
                Some(d) => d,
                None => 0,
            },
            week_sec: match last_seconds(week, installation_id) {
                Some(w) => w,
                None => 0,
            },
            total_sec: t,
        },
    }
}

/// One installation's play time from the per-installation rows of the
/// three windows.
pub fn playtime_for(
    today: &Vec<PlaytimeRow>,
    week: &Vec<PlaytimeRow>,
    total: &Vec<PlaytimeRow>,
    installation_id: &str,
) -> (r: PlaytimeDto)
    ensures
        r == playtime_shown(today@, week@, total@, installation_id@),
{
    match seconds_of(total, installation_id) {
        None => PlaytimeDto { today_sec: 0, week_sec: 0, total_sec: 0 },
        Some(t) => {
            let today_sec = match seconds_of(today, installation_id) {
                Some(d) => d,
                None => 0,
            };
            let week_sec = match seconds_of(week, installation_id) {
                Some(w) => w,
                None => 0,
            };
            PlaytimeDto { today_sec, week_sec, total_sec: t }
        },
    }
}

/// The game an installation belongs to, for messages: the first record with
/// its id, or the id itself.
pub open spec fn game_label(records: Seq<InstallationRecord>, installation_id: Seq<char>) -> Seq<char>
    decreases records.len(),
{
    if records.len() == 0 {
        installation_id
    } else if records[0].id@ == installation_id {
        records[0].game_id@
    } else {
        game_label(records.drop_first(), installation_id)
    }
}

fn game_label_of(records: &[InstallationRecord], installation_id: &str) -> (r: String)
    ensures
        r@ == game_label(records@, installation_id@),
{
    let mut i: usize = 0;
    assert(records@.skip(0) =~= records@);
    while i < records.len()
        invariant
            i <= records@.len(),
            game_label(records@, installation_id@) == game_label(records@.skip(i as int), installation_id@),
        decreases records@.len() - i,
    {
        assert(records@.skip(i as int)[0] == records@[i as int]);
        if str_eq(records[i].id.as_str(), installation_id) {
            return records[i].game_id.clone();
        }
        assert(records@.skip(i as int).drop_first() =~= records@.skip(i + 1));
        i = i + 1;
    }
    owned(installation_id)
}

/// The log entry for a play-time event.
pub open spec fn playtime_note(records: Seq<InstallationRecord>, event: TrackedEvent) -> Seq<char> {
    match event {
        TrackedEvent::Started { installation_id, .. } => game_label(records, installation_id@)
            + "：开始记录时长"@,
        TrackedEvent::Ended { installation_id, duration_sec, .. } => game_label(
            records,
            installation_id@,
        ) + "：本次时长已记录 "@ + int_text(duration_sec as int) + " 秒"@,
    }
}

pub fn playtime_notice(records: &[InstallationRecord], event: &TrackedEvent) -> (r: String)
    ensures
        r@ == playtime_note(records@, *event),
{
    match event {
        TrackedEvent::Started { installation_id, .. } => {
            let mut m = game_label_of(records, installation_id.as_str());
            append_str(&mut m, "：开始记录时长");
            m
        },
        TrackedEvent::Ended { installation_id, duration_sec, .. } => {
            let mut m = game_label_of(records, installation_id.as_str());
            append_str(&mut m, "：本次时长已记录 ");
            push_int(&mut m, *duration_sec as i128);
            append_str(&mut m, " 秒");
            m
        },
    }
}

/// The log entry for a game whose process went away (a crash too): its
/// state falls back to installed.
pub open spec fn exit_note(game_id: Seq<char>, pid: u32) -> Seq<char> {
    game_id + " 的进程已退出（pid Some("@ + decimal_chars(pid as nat) + ")），状态回落 installed"@
}

pub fn exit_notice(game_id: &str, pid: u32) -> (r: String)
    ensures
        r@ == exit_note(game_id@, pid),
{
    let mut m = owned(game_id);
    append_str(&mut m, " 的进程已退出（pid Some(");
    push_decimal(&mut m, pid as u64);
    append_str(&mut m, ")），状态回落 installed");
    m
}

// ── Start-up check ────────────────────────────────────────────────────

/// What the start-up check found: whether the core works, and the entries
/// to log, in order.
#[derive(Debug, Clone, PartialEq, Eq)]
pub struct StartupReport {
    pub passed: bool,
    pub entries: Vec<(LogLevel, String)>,
}

/// The version contract holds: a multi-part build number normalizes to its
/// `major.minor`.
pub open spec fn version_contract_holds() -> bool {
    normalized_version("3.5.0.128940"@) matches Some(v) && version_text(v) == "3.5"@
}

/// The storage summary: the schema version, why it could not be read, or
/// that there is no database.
pub open spec fn storage_note(storage: Option<Result<i32, DbError>>) -> Seq<char> {
    match storage {
        Some(Ok(v)) => "schema v"@ + int_text(v as int),
        Some(Err(e)) => "schema v读取失败："@ + e.text(),
        None => "不可用"@,
    }
}

pub open spec fn issue_level(i: DataIssue) -> LogLevel {
    if i is AssetNotConfigured {
        LogLevel::Info
    } else {
        LogLevel::Error
    }
}

/// The closing summary line.
pub open spec fn summary_note(passed: bool, seeds: int, tools: int, assets: int, storage: Seq<char>) -> Seq<char> {
    "启动自检"@ + (if passed {
        "通过"@
    } else {
        "失败"@
    }) + "（种子条目 "@ + int_text(seeds) + "、工具 "@ + int_text(tools) + "、资产 "@ + int_text(assets)
        + "、数据库 "@ + storage + "）"@
}

fn storage_text(storage: &Option<Result<i32, DbError>>) -> (r: String)
    ensures
        r@ == storage_note(*storage),
{
    match storage {
        Some(Ok(v)) => {
            let mut m = owned("schema v");
            push_int(&mut m, *v as i128);
            m
        },
        Some(Err(e)) => {
            let mut m = owned("schema v读取失败：");
            let t = e.to_string();
            append_str(&mut m, t.as_str());
            m
        },
        None => owned("不可用"),
    }
}

/// The start-up check: the version contract and a supported target make
/// the core usable.  Every degradation of the built-in data is logged as a
/// warning, every data issue by its severity, and a summary line closes the
/// report (an error when the check failed).  Nothing here stops start-up.
pub fn startup_report(supported: bool, data: &BuiltinData, storage: Option<Result<i32, DbError>>) -> (r:
    StartupReport)
    ensures
        r.passed == (version_contract_holds() && supported),
        r.entries@.len() == data.degradations@.len() + data.issues@.len() + 1,
        forall|k: int|
            0 <= k < data.degradations@.len() ==> (#[trigger] r.entries@[k]).0 == LogLevel::Warn
                && r.entries@[k].1@ == data.degradations@[k]@,
        forall|k: int|
            0 <= k < data.issues@.len() ==> {
                let e = #[trigger] r.entries@[data.degradations@.len() + k];
                e.0 == issue_level(data.issues@[k]) && e.1@ == data.issues@[k].text()
            },
        r.entries@.last().0 == (if r.passed {
            LogLevel::Info
        } else {
            LogLevel::Error
        }),
        r.entries@.last().1@ == summary_note(
            r.passed,
            data.seed@.entries.len() as int,
            data.manifests@.manifests.len() as int,
            data.assets@.assets.len() as int,
            storage_note(storage),
        ),
{
    let version_ok = match normalize("3.5.0.128940") {
        Some(v) => {
            let t = v.to_string();
            str_eq(t.as_str(), "3.5")
        },
        None => false,
    };
    let passed = version_ok && supported;
    let mut entries: Vec<(LogLevel, String)> = Vec::new();
    let mut i: usize = 0;
    while i < data.degradations.len()
        invariant
            i <= data.degradations@.len(),
            entries@.len() == i,
            forall|k: int|
                0 <= k < i ==> (#[trigger] entries@[k]).0 == LogLevel::Warn && entries@[k].1@
                    == data.degradations@[k]@,
        decreases data.degradations@.len() - i,
    {
        entries.push((LogLevel::Warn, data.degradations[i].clone()));
        i = i + 1;
    }
    let issues = data.notices();
    let mut j: usize = 0;
    while j < issues.len()
        invariant
            issues@ == data.issues@,
            j <= issues@.len(),
            entries@.len() == data.degradations@.len() + j,
            forall|k: int|
                0 <= k < data.degradations@.len() ==> (#[trigger] entries@[k]).0 == LogLevel::Warn
                    && entries@[k].1@ == data.degradations@[k]@,
            forall|k: int|
                0 <= k < j ==> {
                    let e = #[trigger] entries@[data.degradations@.len() + k];
                    e.0 == issue_level(data.issues@[k]) && e.1@ == data.issues@[k].text()
                },
        decreases issues@.len() - j,
    {
        let issue = &issues[j];
        let level = match issue.severity() {
            Severity::Problem => LogLevel::Error,
            Severity::Notice => LogLevel::Info,
        };
        entries.push((level, issue.to_string()));
        j = j + 1;
    }
    let mut summary = owned("启动自检");
    if passed {
        append_str(&mut summary, "通过");
    } else {
        append_str(&mut summary, "失败");
    }
    append_str(&mut summary, "（种子条目 ");
    push_int(&mut summary, data.seed.entries().len() as i128);
    append_str(&mut summary, "、工具 ");
    push_int(&mut summary, data.manifests.len() as i128);
    append_str(&mut summary, "、资产 ");
    push_int(&mut summary, data.assets.entries().len() as i128);
    append_str(&mut summary, "、数据库 ");
    let st = storage_text(&storage);
    append_str(&mut summary, st.as_str());
    append_str(&mut summary, "）");
    let level = if passed {
        LogLevel::Info
    } else {
        LogLevel::Error
    };
    entries.push((level, summary));
    proof {
        reveal_strlit("3.5");
        reveal_strlit("3.5.0.128940");
    }
    StartupReport { passed, entries }
}

} // verus!

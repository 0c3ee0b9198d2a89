//! Settings and the rules around the database: the closed list of setting
//! keys, their values and bounds, how a stored value is read back, and the
//! migration decision.  Opening the database and running SQL happen outside
//! the library, which hands these functions the plain values it read.

use vstd::prelude::*;

use crate::json::{bool_outcome, i64_outcome, parse_json_bool, parse_json_i64};
use crate::text::{append_str, decimal_chars, int_text, owned, push_decimal, push_int, str_eq};

verus! {

/// The schema version this code reads and writes.
pub const SCHEMA_VERSION: i32 = 1;

/// Log retention bounds, in days.
pub const RETENTION_DAYS_MIN: u32 = 1;

pub const RETENTION_DAYS_MAX: u32 = 365;

/// Play-time checkpoint interval bounds, in seconds.
pub const CHECKPOINT_SEC_MIN: u32 = 10;

pub const CHECKPOINT_SEC_MAX: u32 = 300;

/// Why a database operation failed.
#[derive(Debug, Clone, PartialEq, Eq)]
pub enum DbError {
    /// The file or its directory could not be opened or created.
    Open { path: String, detail: String },
    /// The database is newer than this code: it is not touched.
    UnsupportedSchemaVersion { found: i32, supported: i32 },
    /// A migration step failed.
    Migration { to: i32, detail: String },
    /// The database engine reported an error.
    Sqlite { detail: String },
    /// A setting value does not fit its key or its bounds.
    InvalidSettingValue { key: &'static str, detail: String },
    /// A stored setting value cannot be read (changed from outside).
    CorruptSettingValue { key: String, detail: String },
    /// A stored installation row holds a value this code never writes.
    CorruptInstallationRow { id: String, column: &'static str, detail: String },
    /// Another installation already uses the executable path.
    ExecutablePathTaken { path: String },
    /// A stored backup row holds a value this code never writes.
    CorruptBackupRow { id: String, column: &'static str, detail: String },
}

impl DbError {
    /// The message shown for the error.
    pub open spec fn text(&self) -> Seq<char> {
        match self {
            DbError::Open { path, detail } => "打开数据库失败（"@ + path@ + "）："@ + detail@,
            DbError::UnsupportedSchemaVersion { found, supported } => "数据库 schema 版本为 "@
                + int_text(*found as int) + "，本程序只支持到 "@ + int_text(*supported as int)
                + " —— 拒绝打开（请升级 Orbis）"@,
            DbError::Migration { to, detail } => "迁移到 v"@ + int_text(*to as int) + " 失败："@
                + detail@,
            DbError::Sqlite { detail } => "SQLite 错误："@ + detail@,
            DbError::InvalidSettingValue { key, detail } => "设置项 "@ + key@ + " 取值非法："@
                + detail@,
            DbError::CorruptSettingValue { key, detail } => "设置项 "@ + key@ + " 的存库值无法解析："@
                + detail@,
            DbError::CorruptInstallationRow { id, column, detail } => "安装实例 "@ + id@ + " 的 "@
                + column@ + " 列无法解析："@ + detail@,
            DbError::ExecutablePathTaken { path } => "可执行文件已被其他实例登记："@ + path@,
            DbError::CorruptBackupRow { id, column, detail } => "备份 "@ + id@ + " 的 "@ + column@
                + " 列无法解析："@ + detail@,
        }
    }

    pub fn to_string(&self) -> (r: String)
        ensures
            r@ == self.text(),
    {
        match self {
            DbError::Open { path, detail } => {
                let mut m = owned("打开数据库失败（");
                append_str(&mut m, path.as_str());
                append_str(&mut m, "）：");
                append_str(&mut m, detail.as_str());
                m
            },
            DbError::UnsupportedSchemaVersion { found, supported } => {
                let mut m = owned("数据库 schema 版本为 ");
                push_int(&mut m, *found as i128);
                append_str(&mut m, "，本程序只支持到 ");
                push_int(&mut m, *supported as i128);
                append_str(&mut m, " —— 拒绝打开（请升级 Orbis）");
                m
            },
            DbError::Migration { to, detail } => {
                let mut m = owned("迁移到 v");
                push_int(&mut m, *to as i128);
                append_str(&mut m, " 失败：");
                append_str(&mut m, detail.as_str());
                m
            },
            DbError::Sqlite { detail } => {
                let mut m = owned("SQLite 错误：");
                append_str(&mut m, detail.as_str());
                m
            },
            DbError::InvalidSettingValue { key, detail } => {
                let mut m = owned("设置项 ");
                append_str(&mut m, key);
                append_str(&mut m, " 取值非法：");
                append_str(&mut m, detail.as_str());
                m
            },
            DbError::CorruptSettingValue { key, detail } => {
                let mut m = owned("设置项 ");
                append_str(&mut m, key.as_str());
                append_str(&mut m, " 的存库值无法解析：");
                append_str(&mut m, detail.as_str());
                m
            },
            DbError::CorruptInstallationRow { id, column, detail } => {
                let mut m = owned("安装实例 ");
                append_str(&mut m, id.as_str());
                append_str(&mut m, " 的 ");
                append_str(&mut m, column);
                append_str(&mut m, " 列无法解析：");
                append_str(&mut m, detail.as_str());
                m
            },
            DbError::ExecutablePathTaken { path } => {
                let mut m = owned("可执行文件已被其他实例登记：");
                append_str(&mut m, path.as_str());
                m
            },
            DbError::CorruptBackupRow { id, column, detail } => {
                let mut m = owned("备份 ");
                append_str(&mut m, id.as_str());
                append_str(&mut m, " 的 ");
                append_str(&mut m, column);
                append_str(&mut m, " 列无法解析：");
                append_str(&mut m, detail.as_str());
                m
            },
        }
    }
}

/// The keys a setting may have; there is no way to name another.
#[derive(Debug, Clone, Copy, PartialEq, Eq, Structural, PartialOrd, Ord)]
pub enum SettingKey {
    /// Whether version checks run.
    VersionCheckEnabled,
    /// How many days logs are kept.
    LogRetentionDays,
    /// How often a running session is saved, in seconds.
    PlaytimeCheckpointSec,
}

/// A setting value.
#[derive(Debug, Clone, Copy, PartialEq, Eq, Structural)]
pub enum SettingValue {
    Bool(bool),
    U32(u32),
}

impl SettingKey {
    pub const ALL: [SettingKey; 3] = [
        SettingKey::VersionCheckEnabled,
        SettingKey::LogRetentionDays,
        SettingKey::PlaytimeCheckpointSec,
    ];

    pub open spec fn slug_text(self) -> Seq<char> {
        match self {
            SettingKey::VersionCheckEnabled => "version_check.enabled"@,
            SettingKey::LogRetentionDays => "log.retention_days"@,
            SettingKey::PlaytimeCheckpointSec => "playtime.checkpoint_sec"@,
        }
    }

    pub open spec fn parse_text(s: Seq<char>) -> Option<SettingKey> {
        if s == "version_check.enabled"@ {
            Some(SettingKey::VersionCheckEnabled)
        } else if s == "log.retention_days"@ {
            Some(SettingKey::LogRetentionDays)
        } else if s == "playtime.checkpoint_sec"@ {
            Some(SettingKey::PlaytimeCheckpointSec)
        } else {
            None
        }
    }

    /// The key's literal.
    pub fn slug(self) -> (r: &'static str)
        ensures
            r@ == self.slug_text(),
    {
        match self {
            SettingKey::VersionCheckEnabled => "version_check.enabled",
            SettingKey::LogRetentionDays => "log.retention_days",
            SettingKey::PlaytimeCheckpointSec => "playtime.checkpoint_sec",
        }
    }

    /// Strict parse: no unknown key, no case or white-space tolerance.
    pub fn from_slug(slug: &str) -> (r: Option<SettingKey>)
        ensures
            r == SettingKey::parse_text(slug@),
    {
        if str_eq(slug, "version_check.enabled") {
            Some(SettingKey::VersionCheckEnabled)
        } else if str_eq(slug, "log.retention_days") {
            Some(SettingKey::LogRetentionDays)
        } else if str_eq(slug, "playtime.checkpoint_sec") {
            Some(SettingKey::PlaytimeCheckpointSec)
        } else {
            None
        }
    }

    pub open spec fn default_spec(self) -> SettingValue {
        match self {
            SettingKey::VersionCheckEnabled => SettingValue::Bool(true),
            SettingKey::LogRetentionDays => SettingValue::U32(14),
            SettingKey::PlaytimeCheckpointSec => SettingValue::U32(30),
        }
    }

    /// The value a key has before it is first set.
    pub fn default_value(self) -> (r: SettingValue)
        ensures
            r == self.default_spec(),
    {
        match self {
            SettingKey::VersionCheckEnabled => SettingValue::Bool(true),
            SettingKey::LogRetentionDays => SettingValue::U32(14),
            SettingKey::PlaytimeCheckpointSec => SettingValue::U32(30),
        }
    }

    pub open spec fn expectation_text(self) -> Seq<char> {
        match self {
            SettingKey::VersionCheckEnabled => "布尔值 true / false"@,
            SettingKey::LogRetentionDays => "1–365 的整数（天）"@,
            SettingKey::PlaytimeCheckpointSec => "10–300 的整数（秒）"@,
        }
    }

    /// What the key expects, for messages.
    pub fn expectation(self) -> (r: &'static str)
        ensures
            r@ == self.expectation_text(),
    {
        match self {
            SettingKey::VersionCheckEnabled => "布尔值 true / false",
            SettingKey::LogRetentionDays => "1–365 的整数（天）",
            SettingKey::PlaytimeCheckpointSec => "10–300 的整数（秒）",
        }
    }

    /// The bounds of a numeric key.
    pub open spec fn bounds(self) -> Option<(u32, u32)> {
        match self {
            SettingKey::VersionCheckEnabled => None,
            SettingKey::LogRetentionDays => Some((RETENTION_DAYS_MIN, RETENTION_DAYS_MAX)),
            SettingKey::PlaytimeCheckpointSec => Some((CHECKPOINT_SEC_MIN, CHECKPOINT_SEC_MAX)),
        }
    }

    /// Whether the key holds a boolean.
    pub open spec fn is_flag(self) -> bool {
        self == SettingKey::VersionCheckEnabled
    }
}

/// Reading a key's literal gives the key back.
pub proof fn lemma_setting_key_roundtrip(k: SettingKey)
    ensures
        SettingKey::parse_text(k.slug_text()) == Some(k),
{
    reveal_strlit("version_check.enabled");
    reveal_strlit("log.retention_days");
    reveal_strlit("playtime.checkpoint_sec");
    assert("version_check.enabled"@.len() == 21);
    assert("log.retention_days"@.len() == 18);
    assert("playtime.checkpoint_sec"@.len() == 23);
}

/// Every default lies within its key's bounds.
pub proof fn lemma_defaults_within_bounds(k: SettingKey)
    ensures
        match (k.bounds(), k.default_spec()) {
            (Some((lo, hi)), SettingValue::U32(v)) => lo <= v <= hi,
            (None, SettingValue::Bool(_)) => true,
            _ => false,
        },
{
}

/// The message of a value out of bounds.
pub open spec fn out_of_bounds_note(key: SettingKey, value: u32) -> Seq<char> {
    let (lo, hi) = key.bounds().unwrap();
    "取值 "@ + decimal_chars(value as nat) + " 超出护栏 "@ + decimal_chars(lo as nat) + "–"@
        + decimal_chars(hi as nat) + "（该键期望"@ + key.expectation_text() + "）"@
}

/// A value is within its key's bounds (a flag key has none).
pub open spec fn within_bounds(key: SettingKey, value: u32) -> bool {
    match key.bounds() {
        Some((lo, hi)) => lo <= value <= hi,
        None => true,
    }
}

/// Bounds check of a numeric value.
pub fn guard_range(key: SettingKey, value: u32) -> (r: Result<(), DbError>)
    ensures
        match r {
            Ok(()) => within_bounds(key, value),
            Err(DbError::InvalidSettingValue { key: k, detail }) => !within_bounds(key, value)
                && k@ == key.slug_text() && detail@ == out_of_bounds_note(key, value),
            Err(_) => false,
        },
{
    let (min, max) = match key {
        SettingKey::LogRetentionDays => (RETENTION_DAYS_MIN, RETENTION_DAYS_MAX),
        SettingKey::PlaytimeCheckpointSec => (CHECKPOINT_SEC_MIN, CHECKPOINT_SEC_MAX),
        SettingKey::VersionCheckEnabled => return Ok(()),
    };
    if value < min || value > max {
        let mut detail = owned("取值 ");
        push_decimal(&mut detail, value as u64);
        append_str(&mut detail, " 超出护栏 ");
        push_decimal(&mut detail, min as u64);
        append_str(&mut detail, "–");
        push_decimal(&mut detail, max as u64);
        append_str(&mut detail, "（该键期望");
        append_str(&mut detail, key.expectation());
        append_str(&mut detail, "）");
        return Err(DbError::InvalidSettingValue { key: key.slug(), detail });
    }
    Ok(())
}

impl SettingValue {
    /// The stored form: JSON text.
    pub open spec fn storage_text(self) -> Seq<char> {
        match self {
            SettingValue::Bool(b) => if b {
                "true"@
            } else {
                "false"@
            },
            SettingValue::U32(v) => decimal_chars(v as nat),
        }
    }

    pub fn to_storage(self) -> (r: String)
        ensures
            r@ == self.storage_text(),
    {
        match self {
            SettingValue::Bool(b) => if b {
                owned("true")
            } else {
                owned("false")
            },
            SettingValue::U32(v) => {
                let mut m = String::new();
                push_decimal(&mut m, v as u64);
                assert(m@ =~= decimal_chars(v as nat));
                m
            },
        }
    }

    /// The value as the debug form writes it (`Bool(true)`, `U32(14)`).
    pub open spec fn debug_text(self) -> Seq<char> {
        match self {
            SettingValue::Bool(b) => "Bool("@ + (if b {
                "true"@
            } else {
                "false"@
            }) + ")"@,
            SettingValue::U32(v) => "U32("@ + decimal_chars(v as nat) + ")"@,
        }
    }

    pub fn debug_string(self) -> (r: String)
        ensures
            r@ == self.debug_text(),
    {
        match self {
            SettingValue::Bool(b) => {
                let mut m = owned("Bool(");
                append_str(&mut m, if b { "true" } else { "false" });
                append_str(&mut m, ")");
                m
            },
            SettingValue::U32(v) => {
                let mut m = owned("U32(");
                push_decimal(&mut m, v as u64);
                append_str(&mut m, ")");
                m
            },
        }
    }

    /// Type and bounds check before a write.
    pub fn ensure_matches(self, key: SettingKey) -> (r: Result<(), DbError>)
        ensures
            match r {
                Ok(()) => value_fits(key, self),
                Err(DbError::InvalidSettingValue { key: k, detail }) => {
                    &&& !value_fits(key, self)
                    &&& k@ == key.slug_text()
                    &&& detail@ == misfit_note(key, self)
                },
                Err(_) => false,
            },
    {
        match (key, self) {
            (SettingKey::VersionCheckEnabled, SettingValue::Bool(_)) => Ok(()),
            (SettingKey::VersionCheckEnabled, SettingValue::U32(_)) | (
                SettingKey::LogRetentionDays,
                SettingValue::Bool(_),
            ) | (SettingKey::PlaytimeCheckpointSec, SettingValue::Bool(_)) => {
                let mut detail = owned("该键期望");
                append_str(&mut detail, key.expectation());
                append_str(&mut detail, "，得到 ");
                let d = self.debug_string();
                append_str(&mut detail, d.as_str());
                Err(DbError::InvalidSettingValue { key: key.slug(), detail })
            },
            (_, SettingValue::U32(value)) => guard_range(key, value),
        }
    }

    /// Reads a stored text back: JSON of the key's type, within bounds.
    /// A value of the wrong type is reported, never replaced by a default.
    pub fn parse_stored(key: SettingKey, raw: &str) -> (r: Result<SettingValue, DbError>)
        ensures
            stored_read(key, raw@, r),
    {
        match key {
            SettingKey::VersionCheckEnabled => match parse_json_bool(raw) {
                Ok(b) => Ok(SettingValue::Bool(b)),
                Err(detail) => Err(DbError::CorruptSettingValue { key: owned(key.slug()), detail }),
            },
            _ => match parse_json_i64(raw) {
                Err(detail) => Err(DbError::CorruptSettingValue { key: owned(key.slug()), detail }),
                Ok(n) => {
                    if n < 0 || n > 4294967295i64 {
                        let mut detail = owned("负数或超范围：");
                        push_int(&mut detail, n as i128);
                        return Err(DbError::CorruptSettingValue { key: owned(key.slug()), detail });
                    }
                    let value = n as u32;
                    match guard_range(key, value) {
                        Ok(()) => Ok(SettingValue::U32(value)),
                        Err(e) => Err(e),
                    }
                },
            },
        }
    }
}

/// A value has the key's type and lies within its bounds.
pub open spec fn value_fits(key: SettingKey, v: SettingValue) -> bool {
    match v {
        SettingValue::Bool(_) => key.is_flag(),
        SettingValue::U32(n) => !key.is_flag() && within_bounds(key, n),
    }
}

/// The message of a value that does not fit its key.
pub open spec fn misfit_note(key: SettingKey, v: SettingValue) -> Seq<char> {
    match v {
        SettingValue::U32(n) if !key.is_flag() => out_of_bounds_note(key, n),
        _ => "该键期望"@ + key.expectation_text() + "，得到 "@ + v.debug_text(),
    }
}

/// What reading a stored text gives: the flag is read as a JSON boolean,
/// the numbers as JSON integers that must fit a `u32` and the key's
/// bounds; a text that does not read is reported with the parser's message.
pub open spec fn stored_read(key: SettingKey, raw: Seq<char>, r: Result<SettingValue, DbError>) -> bool {
    let corrupt = |note: Seq<char>|
        r matches Err(DbError::CorruptSettingValue { key: k, detail }) && k@ == key.slug_text()
            && detail@ == note;
    if key.is_flag() {
        match bool_outcome(raw) {
            Ok(b) => r == Ok::<SettingValue, DbError>(SettingValue::Bool(b)),
            Err(e) => corrupt(e),
        }
    } else {
        match i64_outcome(raw) {
            Err(e) => corrupt(e),
            Ok(n) => if n < 0 || n > u32::MAX {
                corrupt("负数或超范围："@ + int_text(n as int))
            } else if within_bounds(key, n as u32) {
                r == Ok::<SettingValue, DbError>(SettingValue::U32(n as u32))
            } else {
                r matches Err(DbError::InvalidSettingValue { key: k, detail }) && k@
                    == key.slug_text() && detail@ == out_of_bounds_note(key, n as u32)
            },
        }
    }
}

/// A setting that fits its key reads back as it was written, given that
/// the JSON parser reads the stored text as the value it denotes.
pub proof fn lemma_setting_reads_back(key: SettingKey, v: SettingValue)
    requires
        value_fits(key, v),
        match v {
            SettingValue::Bool(b) => bool_outcome(v.storage_text()) == Ok::<bool, Seq<char>>(b),
            SettingValue::U32(n) => i64_outcome(v.storage_text()) == Ok::<i64, Seq<char>>(n as i64),
        },
    ensures
        stored_read(key, v.storage_text(), Ok::<SettingValue, DbError>(v)),
{
}

/// A stored setting as read from its row: no row gives the key's default.
pub fn setting_from_row(key: SettingKey, raw: Option<&str>) -> (r: Result<SettingValue, DbError>)
    ensures
        match raw {
            None => r == Ok::<SettingValue, DbError>(key.default_spec()),
            Some(t) => stored_read(key, t@, r),
        },
{
    match raw {
        Some(t) => SettingValue::parse_stored(key, t),
        None => Ok(key.default_value()),
    }
}

/// A tool's enabled state as read from its row: no row is disabled.
pub fn tool_enabled_from_row(enabled: Option<i64>) -> (r: bool)
    ensures
        r == (enabled matches Some(v) && v != 0),
{
    match enabled {
        Some(v) => v != 0,
        None => false,
    }
}

/// The settings the interface shows.
#[derive(Debug, Clone, Copy, PartialEq, Eq, Structural)]
pub struct AppSettings {
    pub version_check_enabled: bool,
    pub log_retention_days: u32,
    pub playtime_checkpoint_sec: u32,
}

/// The checkpoint interval a play-time round uses: the stored setting, or
/// the key's default when the settings could not be read, so that a broken
/// settings row does not stop play-time tracking.
pub fn checkpoint_or_default(read: &Result<AppSettings, DbError>) -> (r: u32)
    ensures
        match read {
            Ok(settings) => r == settings.playtime_checkpoint_sec,
            Err(_) => SettingKey::PlaytimeCheckpointSec.default_spec() == SettingValue::U32(r),
        },
{
    match read {
        Ok(settings) => settings.playtime_checkpoint_sec,
        Err(_) => match SettingKey::PlaytimeCheckpointSec.default_value() {
            SettingValue::U32(n) => n,
            SettingValue::Bool(_) => 30,
        },
    }
}

impl AppSettings {
    /// The three settings from the values read for their keys; a value of
    /// the wrong type is reported.
    pub fn from_values(
        version_check: SettingValue,
        log_retention: SettingValue,
        checkpoint: SettingValue,
    ) -> (r: Result<AppSettings, DbError>)
        ensures
            match (version_check, log_retention, checkpoint) {
                (SettingValue::Bool(a), SettingValue::U32(b), SettingValue::U32(c)) => r == Ok::<
                    AppSettings,
                    DbError,
                >(
                    AppSettings {
                        version_check_enabled: a,
                        log_retention_days: b,
                        playtime_checkpoint_sec: c,
                    },
                ),
                _ => r matches Err(DbError::CorruptSettingValue { key, detail }) && {
                    if version_check is U32 {
                        key@ == SettingKey::VersionCheckEnabled.slug_text() && detail@
                            == "期望布尔，得到 "@ + version_check.debug_text()
                    } else if log_retention is Bool {
                        key@ == SettingKey::LogRetentionDays.slug_text() && detail@
                            == "期望整数，得到 "@ + log_retention.debug_text()
                    } else {
                        key@ == SettingKey::PlaytimeCheckpointSec.slug_text() && detail@
                            == "期望整数，得到 "@ + checkpoint.debug_text()
                    }
                },
            },
    {
        let version_check_enabled = match version_check {
            SettingValue::Bool(b) => b,
            SettingValue::U32(_) => {
                let mut detail = owned("期望布尔，得到 ");
                append_str(&mut detail, version_check.debug_string().as_str());
                return Err(
                    DbError::CorruptSettingValue {
                        key: owned(SettingKey::VersionCheckEnabled.slug()),
                        detail,
                    },
                );
            },
        };
        let log_retention_days = match log_retention {
            SettingValue::U32(v) => v,
            SettingValue::Bool(_) => {
                let mut detail = owned("期望整数，得到 ");
                append_str(&mut detail, log_retention.debug_string().as_str());
                return Err(
                    DbError::CorruptSettingValue {
                        key: owned(SettingKey::LogRetentionDays.slug()),
                        detail,
                    },
                );
            },
        };
        let playtime_checkpoint_sec = match checkpoint {
            SettingValue::U32(v) => v,
            SettingValue::Bool(_) => {
                let mut detail = owned("期望整数，得到 ");
                append_str(&mut detail, checkpoint.debug_string().as_str());
                return Err(
                    DbError::CorruptSettingValue {
                        key: owned(SettingKey::PlaytimeCheckpointSec.slug()),
                        detail,
                    },
                );
            },
        };
        Ok(AppSettings { version_check_enabled, log_retention_days, playtime_checkpoint_sec })
    }
}

/// The migration steps from the stored version to [`SCHEMA_VERSION`]: none
/// when it is current, each version in turn when it is older, and a refusal
/// when the database is newer than this code.
pub fn migration_plan(current: i32) -> (r: Result<Vec<i32>, DbError>)
    ensures
        match r {
            Ok(steps) => current <= SCHEMA_VERSION && steps@.len() == SCHEMA_VERSION - current
                && forall|i: int| 0 <= i < steps@.len() ==> #[trigger] steps@[i] == current + 1 + i,
            Err(DbError::UnsupportedSchemaVersion { found, supported }) => current > SCHEMA_VERSION
                && found == current && supported == SCHEMA_VERSION,
            Err(_) => false,
        },
{
    if current > SCHEMA_VERSION {
        return Err(DbError::UnsupportedSchemaVersion { found: current, supported: SCHEMA_VERSION });
    }
    let mut steps: Vec<i32> = Vec::new();
    let mut target: i32 = current;
    while target < SCHEMA_VERSION
        invariant
            current <= target <= SCHEMA_VERSION,
            steps@.len() == target - current,
            forall|i: int| 0 <= i < steps@.len() ==> #[trigger] steps@[i] == current + 1 + i,
        decreases SCHEMA_VERSION - target,
    {
        target = target + 1;
        steps.push(target);
    }
    Ok(steps)
}

/// Whether a migration script exists for a step; only version 1 has one.
pub fn check_migration_target(target: i32) -> (r: Result<(), DbError>)
    ensures
        match r {
            Ok(()) => target == 1,
            Err(DbError::Migration { to, detail }) => target != 1 && to == target && detail@
                == "没有对应的迁移脚本（新增 schema 版本时必须同时补迁移）"@,
            Err(_) => false,
        },
{
    if target != 1 {
        return Err(
            DbError::Migration {
                to: target,
                detail: owned("没有对应的迁移脚本（新增 schema 版本时必须同时补迁移）"),
            },
        );
    }
    Ok(())
}

} // verus!

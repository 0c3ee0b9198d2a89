//! Backup records as stored, and the strict reading of a stored backup row.
//! Creating and restoring backups, and the files themselves, are handled
//! outside the library.

use vstd::prelude::*;

use crate::db::DbError;
use crate::text::{owned, push_quoted, debug_form, str_eq};

verus! {

/// What made a backup.
#[derive(Debug, Clone, Copy, PartialEq, Eq, Structural, PartialOrd, Ord)]
pub enum BackupTrigger {
    /// Made by the user.
    Manual,
    /// Made automatically before a modification.
    PreModify,
    /// Made automatically before a restore.
    PreRestore,
}

impl BackupTrigger {
    pub const ALL: [BackupTrigger; 3] = [
        BackupTrigger::Manual,
        BackupTrigger::PreModify,
        BackupTrigger::PreRestore,
    ];

    pub open spec fn slug_text(self) -> Seq<char> {
        match self {
            BackupTrigger::Manual => "manual"@,
            BackupTrigger::PreModify => "pre_modify"@,
            BackupTrigger::PreRestore => "pre_restore"@,
        }
    }

    pub open spec fn parse_text(s: Seq<char>) -> Option<BackupTrigger> {
        if s == "manual"@ {
            Some(BackupTrigger::Manual)
        } else if s == "pre_modify"@ {
            Some(BackupTrigger::PreModify)
        } else if s == "pre_restore"@ {
            Some(BackupTrigger::PreRestore)
        } else {
            None
        }
    }

    pub fn slug(self) -> (r: &'static str)
        ensures
            r@ == self.slug_text(),
    {
        match self {
            BackupTrigger::Manual => "manual",
            BackupTrigger::PreModify => "pre_modify",
            BackupTrigger::PreRestore => "pre_restore",
        }
    }

    /// Strict parse; an unknown value is `None`.
    pub fn from_slug(slug: &str) -> (r: Option<BackupTrigger>)
        ensures
            r == BackupTrigger::parse_text(slug@),
    {
        if str_eq(slug, "manual") {
            Some(BackupTrigger::Manual)
        } else if str_eq(slug, "pre_modify") {
            Some(BackupTrigger::PreModify)
        } else if str_eq(slug, "pre_restore") {
            Some(BackupTrigger::PreRestore)
        } else {
            None
        }
    }
}

/// Reading a trigger's literal gives it back.
pub proof fn lemma_backup_trigger_roundtrip(t: BackupTrigger)
    ensures
        BackupTrigger::parse_text(t.slug_text()) == Some(t),
{
    reveal_strlit("manual");
    reveal_strlit("pre_modify");
    reveal_strlit("pre_restore");
    assert("manual"@.len() == 6 && "pre_modify"@.len() == 10 && "pre_restore"@.len() == 11);
}

/// One stored backup.
#[derive(Debug, Clone, PartialEq, Eq)]
pub struct BackupRecord {
    pub id: String,
    pub installation_id: String,
    pub game_id: String,
    /// `None` for a manual backup.
    pub tool_id: Option<String>,
    pub trigger: BackupTrigger,
    pub file_count: i64,
    pub total_bytes: i64,
    /// The stored file list, kept as written.
    pub manifest_json: String,
    pub created_at: i64,
}

/// The columns of a backup row, as the database returns them.
#[derive(Debug, Clone, PartialEq, Eq)]
pub struct BackupRow {
    pub id: String,
    pub installation_id: String,
    pub game_id: String,
    pub tool_id: Option<String>,
    pub trigger: String,
    pub file_count: i64,
    pub total_bytes: i64,
    pub manifest_json: String,
    pub created_at: i64,
}

/// Reads a stored row strictly: an unknown trigger is a corrupt row.
pub fn backup_from_row(row: BackupRow) -> (r: Result<BackupRecord, DbError>)
    ensures
        match r {
            Ok(b) => {
                &&& Some(b.trigger) == BackupTrigger::parse_text(row.trigger@)
                &&& b.id == row.id
                &&& b.installation_id == row.installation_id
                &&& b.game_id == row.game_id
                &&& b.tool_id == row.tool_id
                &&& b.file_count == row.file_count
                &&& b.total_bytes == row.total_bytes
                &&& b.manifest_json == row.manifest_json
                &&& b.created_at == row.created_at
            },
            Err(DbError::CorruptBackupRow { id, column, detail }) => {
                &&& BackupTrigger::parse_text(row.trigger@) is None
                &&& id == row.id
                &&& column@ == "trigger"@
                &&& detail@ == "未知取值 "@ + debug_form(row.trigger@)
            },
            Err(_) => false,
        },
{
    let BackupRow {
        id,
        installation_id,
        game_id,
        tool_id,
        trigger,
        file_count,
        total_bytes,
        manifest_json,
        created_at,
    } = row;
    let parsed = match BackupTrigger::from_slug(trigger.as_str()) {
        Some(t) => t,
        None => {
            let mut detail = owned("未知取值 ");
            push_quoted(&mut detail, trigger.as_str());
            return Err(DbError::CorruptBackupRow { id, column: "trigger", detail });
        },
    };
    Ok(
        BackupRecord {
            id,
            installation_id,
            game_id,
            tool_id,
            trigger: parsed,
            file_count,
            total_bytes,
            manifest_json,
            created_at,
        },
    )
}

} // verus!

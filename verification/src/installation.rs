//! Installations and launch profiles as stored, and the strict reading of a
//! stored installation row.
//!
//! The enumeration columns are values this code writes itself; a value it
//! cannot read back is reported as a corrupt row, never replaced by a
//! default.  `running` is derived from the process table and is not a
//! storable status.

use vstd::prelude::*;

use crate::db::DbError;
use crate::model::{valid_slug, GameId, GameRuntimeStatus, Region};
use crate::text::{append_str, owned, push_quoted, debug_form, str_eq};
use crate::version::{parsed_version, Version};

verus! {

/// The statuses an installation can be stored with (no `running`).
#[derive(Debug, Clone, Copy, PartialEq, Eq, Structural, PartialOrd, Ord)]
pub enum PersistedStatus {
    Installed,
    Updating,
    Repairing,
    Broken,
}

impl PersistedStatus {
    pub const ALL: [PersistedStatus; 4] = [
        PersistedStatus::Installed,
        PersistedStatus::Updating,
        PersistedStatus::Repairing,
        PersistedStatus::Broken,
    ];

    pub open spec fn slug_text(self) -> Seq<char> {
        match self {
            PersistedStatus::Installed => "installed"@,
            PersistedStatus::Updating => "updating"@,
            PersistedStatus::Repairing => "repairing"@,
            PersistedStatus::Broken => "broken"@,
        }
    }

    pub open spec fn parse_text(s: Seq<char>) -> Option<PersistedStatus> {
        if s == "installed"@ {
            Some(PersistedStatus::Installed)
        } else if s == "updating"@ {
            Some(PersistedStatus::Updating)
        } else if s == "repairing"@ {
            Some(PersistedStatus::Repairing)
        } else if s == "broken"@ {
            Some(PersistedStatus::Broken)
        } else {
            None
        }
    }

    pub fn slug(self) -> (r: &'static str)
        ensures
            r@ == self.slug_text(),
    {
        match self {
            PersistedStatus::Installed => "installed",
            PersistedStatus::Updating => "updating",
            PersistedStatus::Repairing => "repairing",
            PersistedStatus::Broken => "broken",
        }
    }

    /// Strict parse; `running` is never a stored status.
    pub fn from_slug(slug: &str) -> (r: Option<PersistedStatus>)
        ensures
            r == PersistedStatus::parse_text(slug@),
    {
        if str_eq(slug, "installed") {
            Some(PersistedStatus::Installed)
        } else if str_eq(slug, "updating") {
            Some(PersistedStatus::Updating)
        } else if str_eq(slug, "repairing") {
            Some(PersistedStatus::Repairing)
        } else if str_eq(slug, "broken") {
            Some(PersistedStatus::Broken)
        } else {
            None
        }
    }

    pub open spec fn runtime(self) -> GameRuntimeStatus {
        match self {
            PersistedStatus::Installed => GameRuntimeStatus::Installed,
            PersistedStatus::Updating => GameRuntimeStatus::Updating,
            PersistedStatus::Repairing => GameRuntimeStatus::Repairing,
            PersistedStatus::Broken => GameRuntimeStatus::Broken,
        }
    }

    /// The interface status of a stored status (never `Running`).
    pub fn to_runtime(self) -> (r: GameRuntimeStatus)
        ensures
            r == self.runtime(),
            r != GameRuntimeStatus::Running,
    {
        match self {
            PersistedStatus::Installed => GameRuntimeStatus::Installed,
            PersistedStatus::Updating => GameRuntimeStatus::Updating,
            PersistedStatus::Repairing => GameRuntimeStatus::Repairing,
            PersistedStatus::Broken => GameRuntimeStatus::Broken,
        }
    }
}

/// Reading a stored status's literal gives it back; `running` reads as nothing.
pub proof fn lemma_persisted_status_roundtrip(s: PersistedStatus)
    ensures
        PersistedStatus::parse_text(s.slug_text()) == Some(s),
        PersistedStatus::parse_text("running"@) is None,
{
    reveal_strlit("installed");
    reveal_strlit("updating");
    reveal_strlit("repairing");
    reveal_strlit("broken");
    reveal_strlit("running");
    assert("installed"@.len() == 9 && "updating"@.len() == 8 && "repairing"@.len() == 9);
    assert("broken"@.len() == 6 && "running"@.len() == 7);
    assert("installed"@[0] != "repairing"@[0]);
}

/// How the local version was found.
#[derive(Debug, Clone, Copy, PartialEq, Eq, Structural)]
pub enum VersionSource {
    ExeVersionInfo,
    FeatureFile,
    Directory,
}

impl VersionSource {
    pub const ALL: [VersionSource; 3] = [
        VersionSource::ExeVersionInfo,
        VersionSource::FeatureFile,
        VersionSource::Directory,
    ];

    pub open spec fn slug_text(self) -> Seq<char> {
        match self {
            VersionSource::ExeVersionInfo => "exe_versioninfo"@,
            VersionSource::FeatureFile => "feature_file"@,
            VersionSource::Directory => "directory"@,
        }
    }

    pub open spec fn parse_text(s: Seq<char>) -> Option<VersionSource> {
        if s == "exe_versioninfo"@ {
            Some(VersionSource::ExeVersionInfo)
        } else if s == "feature_file"@ {
            Some(VersionSource::FeatureFile)
        } else if s == "directory"@ {
            Some(VersionSource::Directory)
        } else {
            None
        }
    }

    pub fn slug(self) -> (r: &'static str)
        ensures
            r@ == self.slug_text(),
    {
        match self {
            VersionSource::ExeVersionInfo => "exe_versioninfo",
            VersionSource::FeatureFile => "feature_file",
            VersionSource::Directory => "directory",
        }
    }

    pub fn from_slug(slug: &str) -> (r: Option<VersionSource>)
        ensures
            r == VersionSource::parse_text(slug@),
    {
        if str_eq(slug, "exe_versioninfo") {
            Some(VersionSource::ExeVersionInfo)
        } else if str_eq(slug, "feature_file") {
            Some(VersionSource::FeatureFile)
        } else if str_eq(slug, "directory") {
            Some(VersionSource::Directory)
        } else {
            None
        }
    }
}

/// Reading a version source's literal gives it back.
pub proof fn lemma_version_source_roundtrip(s: VersionSource)
    ensures
        VersionSource::parse_text(s.slug_text()) == Some(s),
{
    reveal_strlit("exe_versioninfo");
    reveal_strlit("feature_file");
    reveal_strlit("directory");
    assert("exe_versioninfo"@.len() == 15 && "feature_file"@.len() == 12 && "directory"@.len() == 9);
}

/// How an installation was added.
#[derive(Debug, Clone, Copy, PartialEq, Eq, Structural)]
pub enum AddedVia {
    /// Found by a scan.
    Scan,
    /// Added by hand.
    Manual,
}

impl AddedVia {
    pub const ALL: [AddedVia; 2] = [AddedVia::Scan, AddedVia::Manual];

    pub open spec fn slug_text(self) -> Seq<char> {
        match self {
            AddedVia::Scan => "scan"@,
            AddedVia::Manual => "manual"@,
        }
    }

    pub open spec fn parse_text(s: Seq<char>) -> Option<AddedVia> {
        if s == "scan"@ {
            Some(AddedVia::Scan)
        } else if s == "manual"@ {
            Some(AddedVia::Manual)
        } else {
            None
        }
    }

    pub fn slug(self) -> (r: &'static str)
        ensures
            r@ == self.slug_text(),
    {
        match self {
            AddedVia::Scan => "scan",
            AddedVia::Manual => "manual",
        }
    }

    pub fn from_slug(slug: &str) -> (r: Option<AddedVia>)
        ensures
            r == AddedVia::parse_text(slug@),
    {
        if str_eq(slug, "scan") {
            Some(AddedVia::Scan)
        } else if str_eq(slug, "manual") {
            Some(AddedVia::Manual)
        } else {
            None
        }
    }
}

/// Reading an origin's literal gives it back.
pub proof fn lemma_added_via_roundtrip(a: AddedVia)
    ensures
        AddedVia::parse_text(a.slug_text()) == Some(a),
{
    reveal_strlit("scan");
    reveal_strlit("manual");
    assert("scan"@.len() == 4 && "manual"@.len() == 6);
}

/// One stored installation.
#[derive(Debug, Clone, PartialEq, Eq)]
pub struct InstallationRecord {
    pub id: String,
    pub game_id: String,
    pub region: Region,
    pub install_path: String,
    pub executable_path: String,
    /// The raw detected version; `None` = unknown (never guessed).
    pub local_version: Option<String>,
    /// `major.minor`, the only form queries and comparisons use.
    pub version_norm: Option<Version>,
    pub version_source: Option<VersionSource>,
    pub status: PersistedStatus,
    pub added_via: AddedVia,
    pub created_at: i64,
    pub updated_at: i64,
}

impl InstallationRecord {
    /// The version is unknown.
    pub fn version_unknown(&self) -> (r: bool)
        ensures
            r == (self.version_norm is None),
    {
        self.version_norm.is_none()
    }
}

/// One stored launch profile.
#[derive(Debug, Clone, PartialEq, Eq)]
pub struct LaunchProfileRecord {
    pub installation_id: String,
    /// One string; splitting it is not this record's business.
    pub args: String,
    pub updated_at: i64,
}

/// The columns of an installation row, as the database returns them.
#[derive(Debug, Clone, PartialEq, Eq)]
pub struct InstallationRow {
    pub id: String,
    pub game_id: String,
    pub region: String,
    pub install_path: String,
    pub executable_path: String,
    pub local_version: Option<String>,
    pub version_norm: Option<String>,
    pub version_source: Option<String>,
    pub status: String,
    pub added_via: String,
    pub created_at: i64,
    pub updated_at: i64,
}

/// The first column of a row that cannot be read, with its message.
pub open spec fn row_problem(row: InstallationRow) -> Option<(Seq<char>, Seq<char>)> {
    if !valid_slug(row.game_id@) {
        Some(("game_id"@, "须为合法 slug："@ + debug_form(row.game_id@)))
    } else if Region::parse_text(row.region@) is None {
        Some(("region"@, "未知区服："@ + debug_form(row.region@)))
    } else if row.version_norm matches Some(v) && parsed_version(v@) is None {
        Some(("version_norm"@, "须为 major.minor："@ + debug_form(row.version_norm.unwrap()@)))
    } else if row.version_source matches Some(v) && VersionSource::parse_text(v@) is None {
        Some(("version_source"@, "未知识别方式："@ + debug_form(row.version_source.unwrap()@)))
    } else if PersistedStatus::parse_text(row.status@) is None {
        Some(
            (
                "status"@,
                "未知状态："@ + debug_form(row.status@) + "（running 由进程快照派生，不落库）"@,
            ),
        )
    } else if AddedVia::parse_text(row.added_via@) is None {
        Some(("added_via"@, "未知来源："@ + debug_form(row.added_via@)))
    } else {
        None
    }
}

/// The record read from a valid row.
pub open spec fn record_of_row(r: InstallationRecord, row: InstallationRow) -> bool {
    &&& r.id == row.id
    &&& r.game_id == row.game_id
    &&& Some(r.region) == Region::parse_text(row.region@)
    &&& r.install_path == row.install_path
    &&& r.executable_path == row.executable_path
    &&& r.local_version == row.local_version
    &&& r.version_norm == (match row.version_norm {
        Some(v) => parsed_version(v@),
        None => None,
    })
    &&& r.version_source == (match row.version_source {
        Some(v) => VersionSource::parse_text(v@),
        None => None,
    })
    &&& Some(r.status) == PersistedStatus::parse_text(row.status@)
    &&& Some(r.added_via) == AddedVia::parse_text(row.added_via@)
    &&& r.created_at == row.created_at
    &&& r.updated_at == row.updated_at
}

fn lead_quoted(lead: &str, value: &str) -> (r: String)
    ensures
        r@ == lead@ + debug_form(value@),
{
    let mut m = owned(lead);
    push_quoted(&mut m, value);
    m
}

/// Reads a stored row strictly: any column this code would not have written
/// is reported with the row id, the column and what was found.
pub fn installation_from_row(row: InstallationRow) -> (r: Result<InstallationRecord, DbError>)
    ensures
        match r {
            Ok(rec) => row_problem(row) is None && record_of_row(rec, row),
            Err(DbError::CorruptInstallationRow { id, column, detail }) => id == row.id
                && row_problem(row) == Some((column@, detail@)),
            Err(_) => false,
        },
{
    let InstallationRow {
        id,
        game_id,
        region,
        install_path,
        executable_path,
        local_version,
        version_norm,
        version_source,
        status,
        added_via,
        created_at,
        updated_at,
    } = row;
    if GameId::new(game_id.as_str()).is_none() {
        let detail = lead_quoted("须为合法 slug：", game_id.as_str());
        return Err(DbError::CorruptInstallationRow { id, column: "game_id", detail });
    }
    let region_value = match Region::from_slug(region.as_str()) {
        Some(r) => r,
        None => {
            let detail = lead_quoted("未知区服：", region.as_str());
            return Err(DbError::CorruptInstallationRow { id, column: "region", detail });
        },
    };
    let norm = match &version_norm {
        None => None,
        Some(raw) => match Version::parse(raw.as_str()) {
            Some(v) => Some(v),
            None => {
                let detail = lead_quoted("须为 major.minor：", raw.as_str());
                return Err(DbError::CorruptInstallationRow { id, column: "version_norm", detail });
            },
        },
    };
    let source = match &version_source {
        None => None,
        Some(raw) => match VersionSource::from_slug(raw.as_str()) {
            Some(s) => Some(s),
            None => {
                let detail = lead_quoted("未知识别方式：", raw.as_str());
                return Err(
                    DbError::CorruptInstallationRow { id, column: "version_source", detail },
                );
            },
        },
    };
    let status_value = match PersistedStatus::from_slug(status.as_str()) {
        Some(s) => s,
        None => {
            let mut detail = lead_quoted("未知状态：", status.as_str());
            append_str(&mut detail, "（running 由进程快照派生，不落库）");
            return Err(DbError::CorruptInstallationRow { id, column: "status", detail });
        },
    };
    let added = match AddedVia::from_slug(added_via.as_str()) {
        Some(a) => a,
        None => {
            let detail = lead_quoted("未知来源：", added_via.as_str());
            return Err(DbError::CorruptInstallationRow { id, column: "added_via", detail });
        },
    };
    Ok(
        InstallationRecord {
            id,
            game_id,
            region: region_value,
            install_path,
            executable_path,
            local_version,
            version_norm: norm,
            version_source: source,
            status: status_value,
            added_via: added,
            created_at,
            updated_at,
        },
    )
}

} // verus!

//! The error model of the interface: a closed list of codes, each with
//! whether retrying can help, and the error record built from a code.
//!
//! Whether an error is retryable follows from its code alone; no caller
//! can set it.

use vstd::prelude::*;

use crate::db::DbError;
use crate::text::owned;

verus! {

/// Every error code of the interface.
#[derive(Debug, Clone, Copy, PartialEq, Eq, Structural)]
pub enum ErrorCode {
    GameNotFound,
    GameAlreadyRunning,
    GameNotRunning,
    ExecutableMissing,
    ExecutableInvalid,
    LooksLikeLauncher,
    GameMismatch,
    InstallationDuplicate,
    PathNotFound,
    PathPermissionDenied,
    GameProcessActive,
    ConfigSourceUnsupported,
    CompatBlocked,
    CompatUnknownL3,
    CompatOverrideRequired,
    ConsentRequired,
    BackupNotFound,
    BackupFailed,
    BackupSpaceInsufficient,
    RestoreHashMismatch,
    ToolNotFound,
    ToolAssetNotConfigured,
    ToolAssetDownloadFailed,
    ToolAssetHashMismatch,
    NetworkUnreachable,
    VersionSourceUnsupported,
    SettingUnknownKey,
    SettingInvalidValue,
    NotImplemented,
    Internal,
}

impl ErrorCode {
    /// Whether retrying once can change the outcome: only codes that depend
    /// on outside conditions (a path, a running process, disk space, the
    /// network) are retryable.
    pub open spec fn is_retryable(self) -> bool {
        ||| self == ErrorCode::BackupFailed ||| self == ErrorCode::BackupSpaceInsufficient ||| self == ErrorCode::ExecutableMissing ||| self == ErrorCode::GameProcessActive ||| self == ErrorCode::NetworkUnreachable ||| self == ErrorCode::PathNotFound ||| self == ErrorCode::ToolAssetDownloadFailed
    }

    pub fn retryable(self) -> (r: bool)
        ensures
            r == self.is_retryable(),
    {
        match self {
            ErrorCode::ExecutableMissing | ErrorCode::PathNotFound | ErrorCode::GameProcessActive | ErrorCode::BackupFailed | ErrorCode::BackupSpaceInsufficient | ErrorCode::ToolAssetDownloadFailed | ErrorCode::NetworkUnreachable => true,
            ErrorCode::GameNotFound | ErrorCode::GameAlreadyRunning | ErrorCode::GameNotRunning | ErrorCode::ExecutableInvalid | ErrorCode::LooksLikeLauncher | ErrorCode::GameMismatch | ErrorCode::InstallationDuplicate | ErrorCode::PathPermissionDenied | ErrorCode::ConfigSourceUnsupported | ErrorCode::CompatBlocked | ErrorCode::CompatUnknownL3 | ErrorCode::CompatOverrideRequired | ErrorCode::ConsentRequired | ErrorCode::BackupNotFound | ErrorCode::RestoreHashMismatch | ErrorCode::ToolNotFound | ErrorCode::ToolAssetNotConfigured | ErrorCode::ToolAssetHashMismatch | ErrorCode::VersionSourceUnsupported | ErrorCode::SettingUnknownKey | ErrorCode::SettingInvalidValue | ErrorCode::NotImplemented | ErrorCode::Internal => false,
        }
    }

    pub open spec fn literal_text(self) -> Seq<char> {
        match self {
            ErrorCode::GameNotFound => "GAME_NOT_FOUND"@,
            ErrorCode::GameAlreadyRunning => "GAME_ALREADY_RUNNING"@,
            ErrorCode::GameNotRunning => "GAME_NOT_RUNNING"@,
            ErrorCode::ExecutableMissing => "EXECUTABLE_MISSING"@,
            ErrorCode::ExecutableInvalid => "EXECUTABLE_INVALID"@,
            ErrorCode::LooksLikeLauncher => "LOOKS_LIKE_LAUNCHER"@,
            ErrorCode::GameMismatch => "GAME_MISMATCH"@,
            ErrorCode::InstallationDuplicate => "INSTALLATION_DUPLICATE"@,
            ErrorCode::PathNotFound => "PATH_NOT_FOUND"@,
            ErrorCode::PathPermissionDenied => "PATH_PERMISSION_DENIED"@,
            ErrorCode::GameProcessActive => "GAME_PROCESS_ACTIVE"@,
            ErrorCode::ConfigSourceUnsupported => "CONFIG_SOURCE_UNSUPPORTED"@,
            ErrorCode::CompatBlocked => "COMPAT_BLOCKED"@,
            ErrorCode::CompatUnknownL3 => "COMPAT_UNKNOWN_L3"@,
            ErrorCode::CompatOverrideRequired => "COMPAT_OVERRIDE_REQUIRED"@,
            ErrorCode::ConsentRequired => "CONSENT_REQUIRED"@,
            ErrorCode::BackupNotFound => "BACKUP_NOT_FOUND"@,
            ErrorCode::BackupFailed => "BACKUP_FAILED"@,
            ErrorCode::BackupSpaceInsufficient => "BACKUP_SPACE_INSUFFICIENT"@,
            ErrorCode::RestoreHashMismatch => "RESTORE_HASH_MISMATCH"@,
            ErrorCode::ToolNotFound => "TOOL_NOT_FOUND"@,
            ErrorCode::ToolAssetNotConfigured => "TOOL_ASSET_NOT_CONFIGURED"@,
            ErrorCode::ToolAssetDownloadFailed => "TOOL_ASSET_DOWNLOAD_FAILED"@,
            ErrorCode::ToolAssetHashMismatch => "TOOL_ASSET_HASH_MISMATCH"@,
            ErrorCode::NetworkUnreachable => "NETWORK_UNREACHABLE"@,
            ErrorCode::VersionSourceUnsupported => "VERSION_SOURCE_UNSUPPORTED"@,
            ErrorCode::SettingUnknownKey => "SETTING_UNKNOWN_KEY"@,
            ErrorCode::SettingInvalidValue => "SETTING_INVALID_VALUE"@,
            ErrorCode::NotImplemented => "NOT_IMPLEMENTED"@,
            ErrorCode::Internal => "INTERNAL"@,
        }
    }

    /// The code as the interface writes it (`GAME_NOT_FOUND`).
    pub fn literal(self) -> (r: &'static str)
        ensures
            r@ == self.literal_text(),
    {
        match self {
            ErrorCode::GameNotFound => "GAME_NOT_FOUND",
            ErrorCode::GameAlreadyRunning => "GAME_ALREADY_RUNNING",
            ErrorCode::GameNotRunning => "GAME_NOT_RUNNING",
            ErrorCode::ExecutableMissing => "EXECUTABLE_MISSING",
            ErrorCode::ExecutableInvalid => "EXECUTABLE_INVALID",
            ErrorCode::LooksLikeLauncher => "LOOKS_LIKE_LAUNCHER",
            ErrorCode::GameMismatch => "GAME_MISMATCH",
            ErrorCode::InstallationDuplicate => "INSTALLATION_DUPLICATE",
            ErrorCode::PathNotFound => "PATH_NOT_FOUND",
            ErrorCode::PathPermissionDenied => "PATH_PERMISSION_DENIED",
            ErrorCode::GameProcessActive => "GAME_PROCESS_ACTIVE",
            ErrorCode::ConfigSourceUnsupported => "CONFIG_SOURCE_UNSUPPORTED",
            ErrorCode::CompatBlocked => "COMPAT_BLOCKED",
            ErrorCode::CompatUnknownL3 => "COMPAT_UNKNOWN_L3",
            ErrorCode::CompatOverrideRequired => "COMPAT_OVERRIDE_REQUIRED",
            ErrorCode::ConsentRequired => "CONSENT_REQUIRED",
            ErrorCode::BackupNotFound => "BACKUP_NOT_FOUND",
            ErrorCode::BackupFailed => "BACKUP_FAILED",
            ErrorCode::BackupSpaceInsufficient => "BACKUP_SPACE_INSUFFICIENT",
            ErrorCode::RestoreHashMismatch => "RESTORE_HASH_MISMATCH",
            ErrorCode::ToolNotFound => "TOOL_NOT_FOUND",
            ErrorCode::ToolAssetNotConfigured => "TOOL_ASSET_NOT_CONFIGURED",
            ErrorCode::ToolAssetDownloadFailed => "TOOL_ASSET_DOWNLOAD_FAILED",
            ErrorCode::ToolAssetHashMismatch => "TOOL_ASSET_HASH_MISMATCH",
            ErrorCode::NetworkUnreachable => "NETWORK_UNREACHABLE",
            ErrorCode::VersionSourceUnsupported => "VERSION_SOURCE_UNSUPPORTED",
            ErrorCode::SettingUnknownKey => "SETTING_UNKNOWN_KEY",
            ErrorCode::SettingInvalidValue => "SETTING_INVALID_VALUE",
            ErrorCode::NotImplemented => "NOT_IMPLEMENTED",
            ErrorCode::Internal => "INTERNAL",
        }
    }
}

/// The map a list of detail pairs stands for: a later pair wins.
pub open spec fn detail_map(pairs: Seq<(String, String)>) -> Map<Seq<char>, Seq<char>>
    decreases pairs.len(),
{
    if pairs.len() == 0 {
        Map::empty()
    } else {
        detail_map(pairs.drop_last()).insert(pairs.last().0@, pairs.last().1@)
    }
}

/// An interface error.  Its fields are private: `retryable` always follows
/// the code.
#[derive(Debug)]
pub struct OrbisError {
    code: ErrorCode,
    /// For logs and debugging; not shown to the user.
    message: String,
    /// Structured context; `None` rather than an empty map.
    detail: Option<Vec<(String, String)>>,
    retryable: bool,
}

pub struct OrbisErrorView {
    pub code: ErrorCode,
    pub message: Seq<char>,
    pub detail: Option<Map<Seq<char>, Seq<char>>>,
    pub retryable: bool,
}

impl View for OrbisError {
    type V = OrbisErrorView;

    closed spec fn view(&self) -> OrbisErrorView {
        OrbisErrorView {
            code: self.code,
            message: self.message@,
            detail: match self.detail {
                Some(pairs) => Some(detail_map(pairs@)),
                None => None,
            },
            retryable: self.retryable,
        }
    }
}

impl OrbisError {
    #[verifier::type_invariant]
    spec fn retryable_follows_code(self) -> bool {
        self.retryable == self.code.is_retryable()
    }

    pub fn new(code: ErrorCode, message: &str) -> (r: OrbisError)
        ensures
            r@.code == code,
            r@.message == message@,
            r@.detail is None,
            r@.retryable == code.is_retryable(),
    {
        OrbisError { code, message: owned(message), detail: None, retryable: code.retryable() }
    }

    /// Adds one context entry; a later entry with the same key replaces it.
    pub fn with_detail(self, key: &str, value: &str) -> (r: OrbisError)
        ensures
            r@.code == self@.code,
            r@.message == self@.message,
            r@.retryable == self@.retryable,
            r@.detail == Some(
                match self@.detail {
                    Some(m) => m,
                    None => Map::<Seq<char>, Seq<char>>::empty(),
                }.insert(key@, value@),
            ),
    {
        proof {
            use_type_invariant(&self);
        }
        let OrbisError { code, message, detail, retryable } = self;
        let mut pairs = match detail {
            Some(p) => p,
            None => Vec::new(),
        };
        let ghost before = pairs@;
        pairs.push((owned(key), owned(value)));
        assert(pairs@.drop_last() =~= before);
        assert(pairs@.last().0@ == key@ && pairs@.last().1@ == value@);
        assert(before.len() == 0 ==> detail_map(before) == Map::<Seq<char>, Seq<char>>::empty());
        OrbisError { code, message, detail: Some(pairs), retryable }
    }

    pub fn code(&self) -> (r: ErrorCode)
        ensures
            r == self@.code,
    {
        self.code
    }

    /// Whether retrying can help; always the code's answer.
    pub fn retryable(&self) -> (r: bool)
        ensures
            r == self@.retryable,
            r == self@.code.is_retryable(),
    {
        proof {
            use_type_invariant(self);
        }
        self.retryable
    }

    pub fn message(&self) -> (r: &str)
        ensures
            r@ == self@.message,
    {
        self.message.as_str()
    }

    /// The context entries, in the order they were added.
    pub fn detail(&self) -> (r: Option<&Vec<(String, String)>>)
        ensures
            match r {
                Some(p) => self@.detail == Some(detail_map(p@)),
                None => self@.detail is None,
            },
    {
        match &self.detail {
            Some(p) => Some(p),
            None => None,
        }
    }

    /// A database error as an interface error: an invalid setting value is
    /// `SETTING_INVALID_VALUE`, anything else is an internal fault.
    pub fn from_db(err: DbError) -> (r: OrbisError)
        ensures
            r@.code == (if err is InvalidSettingValue {
                ErrorCode::SettingInvalidValue
            } else {
                ErrorCode::Internal
            }),
            r@.message == err.text(),
            r@.detail is None,
            r@.retryable == false,
    {
        let code = match &err {
            DbError::InvalidSettingValue { .. } => ErrorCode::SettingInvalidValue,
            _ => ErrorCode::Internal,
        };
        let message = err.to_string();
        OrbisError::new(code, message.as_str())
    }
}

/// An internal fault.
pub fn internal(message: &str) -> (r: OrbisError)
    ensures
        r@.code == ErrorCode::Internal,
        r@.message == message@,
        r@.detail is None,
        r@.retryable == false,
{
    OrbisError::new(ErrorCode::Internal, message)
}

} // verus!

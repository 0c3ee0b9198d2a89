//! Tool vocabulary shared by the compatibility table and tool manifests:
//! risk level, tool type, permissions and source attribution.

use vstd::prelude::*;

use crate::model::{slug_in, valid_slug};
use crate::text::{after, before, chars_of, find_char, is_blank, is_blank_str, str_eq};

verus! {

/// Risk level, from read-only (L0) to process-level modification (L3).
#[derive(Debug, Clone, Copy, PartialEq, Eq, Structural, PartialOrd, Ord)]
pub enum RiskLevel {
    L0,
    L1,
    L2,
    L3,
}

impl RiskLevel {
    pub open spec fn literal_text(self) -> Seq<char> {
        match self {
            RiskLevel::L0 => "L0"@,
            RiskLevel::L1 => "L1"@,
            RiskLevel::L2 => "L2"@,
            RiskLevel::L3 => "L3"@,
        }
    }

    pub open spec fn parse_text(s: Seq<char>) -> Option<RiskLevel> {
        if s == "L0"@ {
            Some(RiskLevel::L0)
        } else if s == "L1"@ {
            Some(RiskLevel::L1)
        } else if s == "L2"@ {
            Some(RiskLevel::L2)
        } else if s == "L3"@ {
            Some(RiskLevel::L3)
        } else {
            None
        }
    }

    /// The literal used in data and across the IPC boundary (`"L1"`).
    pub fn literal(self) -> (r: &'static str)
        ensures
            r@ == self.literal_text(),
    {
        match self {
            RiskLevel::L0 => "L0",
            RiskLevel::L1 => "L1",
            RiskLevel::L2 => "L2",
            RiskLevel::L3 => "L3",
        }
    }

    /// Strict parse: case or white-space errors give `None`.
    pub fn from_literal(literal: &str) -> (r: Option<RiskLevel>)
        ensures
            r == RiskLevel::parse_text(literal@),
    {
        if str_eq(literal, "L0") {
            Some(RiskLevel::L0)
        } else if str_eq(literal, "L1") {
            Some(RiskLevel::L1)
        } else if str_eq(literal, "L2") {
            Some(RiskLevel::L2)
        } else if str_eq(literal, "L3") {
            Some(RiskLevel::L3)
        } else {
            None
        }
    }

    /// Only L3 must go through explicit consent.
    pub fn requires_explicit_consent(self) -> (r: bool)
        ensures
            r == (self == RiskLevel::L3),
    {
        match self {
            RiskLevel::L3 => true,
            _ => false,
        }
    }

    /// `Display`: the literal.
    pub fn to_string(self) -> (r: String)
        ensures
            r@ == self.literal_text(),
    {
        String::from_str(self.literal())
    }
}

pub proof fn lemma_risk_level_roundtrip(l: RiskLevel)
    ensures
        RiskLevel::parse_text(l.literal_text()) == Some(l),
{
    reveal_strlit("L0");
    reveal_strlit("L1");
    reveal_strlit("L2");
    reveal_strlit("L3");
    assert("L0"@[1] != "L1"@[1] && "L0"@[1] != "L2"@[1] && "L0"@[1] != "L3"@[1]);
    assert("L1"@[1] != "L2"@[1] && "L1"@[1] != "L3"@[1] && "L2"@[1] != "L3"@[1]);
}

/// Tool type: the executor dispatch key.
#[derive(Debug, Clone, Copy, PartialEq, Eq, Structural)]
pub enum ToolType {
    ConfigModify,
    ExternalProcess,
}

impl ToolType {
    pub open spec fn slug_text(self) -> Seq<char> {
        match self {
            ToolType::ConfigModify => "config_modify"@,
            ToolType::ExternalProcess => "external_process"@,
        }
    }

    pub open spec fn parse_text(s: Seq<char>) -> Option<ToolType> {
        if s == "config_modify"@ {
            Some(ToolType::ConfigModify)
        } else if s == "external_process"@ {
            Some(ToolType::ExternalProcess)
        } else {
            None
        }
    }

    pub fn slug(self) -> (r: &'static str)
        ensures
            r@ == self.slug_text(),
    {
        match self {
            ToolType::ConfigModify => "config_modify",
            ToolType::ExternalProcess => "external_process",
        }
    }

    pub fn from_slug(slug: &str) -> (r: Option<ToolType>)
        ensures
            r == ToolType::parse_text(slug@),
    {
        if str_eq(slug, "config_modify") {
            Some(ToolType::ConfigModify)
        } else if str_eq(slug, "external_process") {
            Some(ToolType::ExternalProcess)
        } else {
            None
        }
    }

    /// Whether the tool rewrites game files (and so must back up first).
    pub fn writes_game_files(self) -> (r: bool)
        ensures
            r == (self == ToolType::ConfigModify),
    {
        match self {
            ToolType::ConfigModify => true,
            ToolType::ExternalProcess => false,
        }
    }
}

pub proof fn lemma_tool_type_roundtrip(t: ToolType)
    ensures
        ToolType::parse_text(t.slug_text()) == Some(t),
{
    reveal_strlit("config_modify");
    reveal_strlit("external_process");
    assert("config_modify"@.len() != "external_process"@.len());
}

/// A permission a tool asks for.
#[derive(Debug, Clone, Copy, PartialEq, Eq, Structural)]
pub enum ToolPermission {
    ReadConfig,
    WriteConfig,
    LaunchExternal,
    ProcessAttach,
}

impl ToolPermission {
    pub open spec fn slug_text(self) -> Seq<char> {
        match self {
            ToolPermission::ReadConfig => "read_config"@,
            ToolPermission::WriteConfig => "write_config"@,
            ToolPermission::LaunchExternal => "launch_external"@,
            ToolPermission::ProcessAttach => "process_attach"@,
        }
    }

    pub open spec fn parse_text(s: Seq<char>) -> Option<ToolPermission> {
        if s == "read_config"@ {
            Some(ToolPermission::ReadConfig)
        } else if s == "write_config"@ {
            Some(ToolPermission::WriteConfig)
        } else if s == "launch_external"@ {
            Some(ToolPermission::LaunchExternal)
        } else if s == "process_attach"@ {
            Some(ToolPermission::ProcessAttach)
        } else {
            None
        }
    }

    pub fn slug(self) -> (r: &'static str)
        ensures
            r@ == self.slug_text(),
    {
        match self {
            ToolPermission::ReadConfig => "read_config",
            ToolPermission::WriteConfig => "write_config",
            ToolPermission::LaunchExternal => "launch_external",
            ToolPermission::ProcessAttach => "process_attach",
        }
    }

    pub fn from_slug(slug: &str) -> (r: Option<ToolPermission>)
        ensures
            r == ToolPermission::parse_text(slug@),
    {
        if str_eq(slug, "read_config") {
            Some(ToolPermission::ReadConfig)
        } else if str_eq(slug, "write_config") {
            Some(ToolPermission::WriteConfig)
        } else if str_eq(slug, "launch_external") {
            Some(ToolPermission::LaunchExternal)
        } else if str_eq(slug, "process_attach") {
            Some(ToolPermission::ProcessAttach)
        } else {
            None
        }
    }
}

pub proof fn lemma_tool_permission_roundtrip(p: ToolPermission)
    ensures
        ToolPermission::parse_text(p.slug_text()) == Some(p),
{
    reveal_strlit("read_config");
    reveal_strlit("write_config");
    reveal_strlit("launch_external");
    reveal_strlit("process_attach");
    assert("read_config"@.len() == 11 && "write_config"@.len() == 12);
    assert("launch_external"@.len() == 15 && "process_attach"@.len() == 14);
}

/// Where a tool comes from.
#[derive(Debug, Clone, Copy, PartialEq, Eq, Structural)]
pub enum SourceKind {
    /// Written by this project.
    Builtin,
    /// Shipped with the application, implemented upstream.
    Bundled,
    /// An external upstream project (repo and license required).
    Upstream,
}

impl SourceKind {
    pub open spec fn slug_text(self) -> Seq<char> {
        match self {
            SourceKind::Builtin => "builtin"@,
            SourceKind::Bundled => "bundled"@,
            SourceKind::Upstream => "upstream"@,
        }
    }

    pub open spec fn parse_text(s: Seq<char>) -> Option<SourceKind> {
        if s == "builtin"@ {
            Some(SourceKind::Builtin)
        } else if s == "bundled"@ {
            Some(SourceKind::Bundled)
        } else if s == "upstream"@ {
            Some(SourceKind::Upstream)
        } else {
            None
        }
    }

    pub fn slug(self) -> (r: &'static str)
        ensures
            r@ == self.slug_text(),
    {
        match self {
            SourceKind::Builtin => "builtin",
            SourceKind::Bundled => "bundled",
            SourceKind::Upstream => "upstream",
        }
    }

    pub fn from_slug(slug: &str) -> (r: Option<SourceKind>)
        ensures
            r == SourceKind::parse_text(slug@),
    {
        if str_eq(slug, "builtin") {
            Some(SourceKind::Builtin)
        } else if str_eq(slug, "bundled") {
            Some(SourceKind::Bundled)
        } else if str_eq(slug, "upstream") {
            Some(SourceKind::Upstream)
        } else {
            None
        }
    }
}

pub proof fn lemma_source_kind_roundtrip(k: SourceKind)
    ensures
        SourceKind::parse_text(k.slug_text()) == Some(k),
{
    reveal_strlit("builtin");
    reveal_strlit("bundled");
    reveal_strlit("upstream");
    assert("builtin"@.len() == 7 && "bundled"@.len() == 7 && "upstream"@.len() == 8);
    assert("builtin"@[2] != "bundled"@[2]);
}

/// A text that is present and not blank.
pub open spec fn filled(s: Option<String>) -> bool {
    s matches Some(t) && !is_blank(t@)
}

/// Source declaration of a tool (license / source / author record).
#[derive(Debug, Clone, PartialEq, Eq)]
pub struct ToolSource {
    pub kind: SourceKind,
    /// Upstream repository (required for `Upstream`).
    pub repo: Option<String>,
    /// Upstream license identifier (required for `Upstream`).
    pub license: Option<String>,
    /// Upstream version.
    pub version: Option<String>,
}

impl ToolSource {
    pub fn new(kind: SourceKind) -> (r: ToolSource)
        ensures
            r.kind == kind,
            r.repo is None,
            r.license is None,
            r.version is None,
    {
        ToolSource { kind, repo: None, license: None, version: None }
    }

    pub open spec fn attribution_complete(&self) -> bool {
        self.kind != SourceKind::Upstream || (filled(self.repo) && filled(self.license))
    }

    /// Upstream sources must name a non-blank repo and license.
    pub fn is_attribution_complete(&self) -> (r: bool)
        ensures
            r == self.attribution_complete(),
    {
        match self.kind {
            SourceKind::Upstream => {},
            _ => return true,
        }
        match (&self.repo, &self.license) {
            (Some(repo), Some(license)) => !is_blank_str(repo.as_str()) && !is_blank_str(
                license.as_str(),
            ),
            _ => false,
        }
    }
}

/// The tool identifier rule: `namespace/name`, one slash, two slugs.
pub open spec fn valid_tool_id(s: Seq<char>) -> bool {
    match after(s, '/') {
        Some(name) => valid_slug(before(s, '/')) && valid_slug(name),
        None => false,
    }
}

/// Form check of a tool identifier (no existence check).
pub fn is_valid_tool_id(id: &str) -> (r: bool)
    ensures
        r == valid_tool_id(id@),
{
    let cs = chars_of(id);
    let n = cs.len();
    let k = find_char(&cs, 0, n, '/');
    assert(cs@.subrange(0, n as int) =~= id@);
    if k == n {
        return false;
    }
    assert(id@.take(k as int) =~= cs@.subrange(0, k as int));
    assert(id@.skip(k + 1) =~= cs@.subrange(k + 1, n as int));
    slug_in(&cs, 0, k) && slug_in(&cs, k + 1, n)
}

} // verus!

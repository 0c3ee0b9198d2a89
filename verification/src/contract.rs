//! The interface records of tools and compatibility: manifest, table,
//! enabled state and asset catalog put together in the shape the interface
//! reads.
//!
//! Enumerations are written with their lowercase literals (`slug`), and
//! unknown values are `None`, never an empty string.

use vstd::prelude::*;

use crate::assets::{download_configured, AssetCatalog};
use crate::compat::{query, query_view, CompatStatus, MatchKind};
use crate::json::opt_text_view;
use crate::manifest::{of_game, ToolManifest};
use crate::seed::{entry_for, SeedTable};
use crate::text::{clone_opt, clone_strings, owned};
use crate::tools::BuiltinData;
use crate::version::Version;

verus! {

/// The compatibility of a tool with a game's installed version.
#[derive(Debug, Clone, PartialEq, Eq)]
pub struct CompatibilityDto {
    pub game_id: String,
    pub tool_id: String,
    /// `verified` / `compatible` / `unknown` / `incompatible` / `deprecated`.
    pub status: &'static str,
    /// `exact` / `prefix` / `none`; with `none` the status is `unknown`.
    pub match_kind: &'static str,
    /// The key that matched, such as `3.x`.
    pub matched_version_key: Option<String>,
    pub verified_at: Option<String>,
    pub verified_by: Option<String>,
    pub notes: Option<String>,
    /// `None` when the table is degraded.
    pub seed_schema_version: Option<String>,
}

/// Where a tool comes from (the attribution record).
#[derive(Debug, Clone, PartialEq, Eq)]
pub struct ToolSourceDto {
    /// `builtin` / `bundled` / `upstream`.
    pub kind: &'static str,
    pub repo: Option<String>,
    pub license: Option<String>,
    pub version: Option<String>,
}

/// The asset of an `external_process` tool.
#[derive(Debug, Clone, PartialEq, Eq)]
pub struct ToolAssetDto {
    pub tool_id: String,
    pub asset_key: String,
    /// `not_required` / `missing` / `ready` / `hash_mismatch`.
    pub state: &'static str,
    pub version: Option<String>,
    pub sha256: Option<String>,
    pub expected_sha256: Option<String>,
    pub installed_path: Option<String>,
    /// `false` is shown as "not configured yet", not as an error.
    pub download_url_configured: bool,
}

/// One tool as the interface lists it.
#[derive(Debug, Clone, PartialEq, Eq)]
pub struct ToolDto {
    pub id: String,
    pub game_id: String,
    pub name: String,
    pub description: String,
    pub version: String,
    /// `config_modify` / `external_process`.
    pub tool_type: &'static str,
    /// `L0` to `L3`.
    pub risk_level: &'static str,
    pub permissions: Vec<&'static str>,
    pub requires_admin: bool,
    pub backup_required: bool,
    pub enabled: bool,
    /// Queried from the table, not copied from the manifest.
    pub compat: CompatibilityDto,
    /// Only for tools that declare an asset.
    pub asset: Option<ToolAssetDto>,
    pub source: ToolSourceDto,
    pub pending_verifications: Vec<String>,
}

pub open spec fn match_kind_text(kind: MatchKind) -> Seq<char> {
    match kind {
        MatchKind::Exact => "exact"@,
        MatchKind::Prefix => "prefix"@,
        MatchKind::Unmatched => "none"@,
    }
}

/// The literal of a match layer.
pub fn match_kind_slug(kind: MatchKind) -> (r: &'static str)
    ensures
        r@ == match_kind_text(kind),
{
    match kind {
        MatchKind::Exact => "exact",
        MatchKind::Prefix => "prefix",
        MatchKind::Unmatched => "none",
    }
}

/// The record for a game and a tool given the table and the local version.
pub open spec fn compat_dto_built(
    d: CompatibilityDto,
    seed: SeedTable,
    game_id: Seq<char>,
    tool_id: Seq<char>,
    local: Option<Version>,
) -> bool {
    let q = query_view(entry_for(seed@.entries, game_id, tool_id), local);
    &&& d.game_id@ == game_id
    &&& d.tool_id@ == tool_id
    &&& d.status@ == q.status.slug_text()
    &&& d.match_kind@ == match_kind_text(q.match_kind)
    &&& opt_text_view(d.matched_version_key) == q.matched_version_key
    &&& opt_text_view(d.verified_at) == q.verified_at
    &&& opt_text_view(d.verified_by) == q.verified_by
    &&& opt_text_view(d.notes) == q.notes
    &&& opt_text_view(d.seed_schema_version) == seed@.schema_version
}

/// Queries the table and shapes the answer.  `local` is the normalized
/// version of the game's latest installation; without one it is `None`,
/// and the answer is then `unknown` with no match.
pub fn compatibility(seed: &SeedTable, game_id: &str, tool_id: &str, local: Option<Version>) -> (r:
    CompatibilityDto)
    ensures
        compat_dto_built(r, *seed, game_id@, tool_id@, local),
{
    let hit = query(seed.entry(game_id, tool_id), local);
    let seed_schema_version = match seed.schema_version() {
        Some(s) => Some(owned(s)),
        None => None,
    };
    CompatibilityDto {
        game_id: owned(game_id),
        tool_id: owned(tool_id),
        status: hit.status.slug(),
        match_kind: match_kind_slug(hit.match_kind),
        matched_version_key: hit.matched_version_key,
        verified_at: hit.verified_at,
        verified_by: hit.verified_by,
        notes: hit.notes,
        seed_schema_version,
    }
}

/// The statuses of all tools of a game, in load order.
pub fn game_tool_compat(data: &BuiltinData, game_id: &str, local: Option<Version>) -> (r: Vec<
    CompatStatus,
>)
    ensures
        r@ == of_game(data.manifests@.manifests, game_id@).map_values(
            |m: ToolManifest| query_view(entry_for(data.seed@.entries, game_id@, m.id@), local).status,
        ),
{
    let tools = data.manifests.for_game(game_id);
    let ghost ms = tools@.map_values(|m: &ToolManifest| *m);
    let mut out: Vec<CompatStatus> = Vec::new();
    let mut i: usize = 0;
    while i < tools.len()
        invariant
            ms == tools@.map_values(|m: &ToolManifest| *m),
            ms == of_game(data.manifests@.manifests, game_id@),
            i <= tools@.len(),
            out@ == ms.take(i as int).map_values(
                |m: ToolManifest| query_view(entry_for(data.seed@.entries, game_id@, m.id@), local).status,
            ),
        decreases tools@.len() - i,
    {
        let m = tools[i];
        assert(ms[i as int] == *m);
        let hit = query(data.seed.entry(game_id, m.id.as_str()), local);
        out.push(hit.status);
        i = i + 1;
        assert(out@ =~= ms.take(i as int).map_values(
            |m: ToolManifest| query_view(entry_for(data.seed@.entries, game_id@, m.id@), local).status,
        ));
    }
    assert(ms.take(i as int) =~= ms);
    out
}

/// The asset record of a manifest, given the catalog.
pub open spec fn asset_dto_built(a: Option<ToolAssetDto>, m: ToolManifest, assets: AssetCatalog) -> bool {
    match m.entry.asset {
        None => a is None,
        Some(k) => a matches Some(d) && {
            &&& d.tool_id@ == m.id@
            &&& d.asset_key@ == k@
            &&& d.state@ == "missing"@
            &&& d.version is None
            &&& d.sha256 is None
            &&& d.expected_sha256 is None
            &&& d.installed_path is None
            &&& d.download_url_configured == download_configured(assets@.assets, k@)
        },
    }
}

/// The asset record: present for tools that declare an asset, even when the
/// catalog has no entry for it (the tool stays visible).
pub fn asset_dto(manifest: &ToolManifest, assets: &AssetCatalog) -> (r: Option<ToolAssetDto>)
    ensures
        asset_dto_built(r, *manifest, *assets),
{
    let asset_key = match &manifest.entry.asset {
        Some(k) => k,
        None => return None,
    };
    Some(
        ToolAssetDto {
            tool_id: owned(manifest.id.as_str()),
            asset_key: owned(asset_key.as_str()),
            state: "missing",
            version: None,
            sha256: None,
            expected_sha256: None,
            installed_path: None,
            download_url_configured: assets.download_url_configured(asset_key.as_str()),
        },
    )
}

/// The tool record of a manifest.
pub open spec fn tool_dto_built(
    d: ToolDto,
    data: BuiltinData,
    m: ToolManifest,
    local: Option<Version>,
    enabled: bool,
) -> bool {
    &&& d.id@ == m.id@
    &&& d.game_id@ == m.game_id@
    &&& d.name@ == m.name@
    &&& d.description@ == m.description@
    &&& d.version@ == m.version@
    &&& d.tool_type@ == m.tool_type.slug_text()
    &&& d.risk_level@ == m.risk_level.literal_text()
    &&& d.permissions@.len() == m.permissions@.len()
    &&& forall|i: int|
        0 <= i < m.permissions@.len() ==> (#[trigger] d.permissions@[i])@
            == m.permissions@[i].slug_text()
    &&& d.requires_admin == m.requires_admin
    &&& d.backup_required == m.backup_required
    &&& d.enabled == enabled
    &&& compat_dto_built(d.compat, data.seed, m.game_id@, m.id@, local)
    &&& asset_dto_built(d.asset, m, data.assets)
    &&& d.source.kind@ == m.source.kind.slug_text()
    &&& d.source.repo == m.source.repo
    &&& d.source.license == m.source.license
    &&& d.source.version == m.source.version
    &&& d.pending_verifications@ == m.pending_verifications@
}

/// One manifest as a tool record.
pub fn tool_dto(data: &BuiltinData, manifest: &ToolManifest, local: Option<Version>, enabled: bool) -> (r:
    ToolDto)
    ensures
        tool_dto_built(r, *data, *manifest, local, enabled),
{
    let mut permissions: Vec<&'static str> = Vec::new();
    let mut i: usize = 0;
    while i < manifest.permissions.len()
        invariant
            i <= manifest.permissions@.len(),
            permissions@.len() == i,
            forall|k: int|
                0 <= k < i ==> (#[trigger] permissions@[k])@ == manifest.permissions@[k].slug_text(),
        decreases manifest.permissions@.len() - i,
    {
        permissions.push(manifest.permissions[i].slug());
        i = i + 1;
    }
    ToolDto {
        id: owned(manifest.id.as_str()),
        game_id: owned(manifest.game_id.as_str()),
        name: owned(manifest.name.as_str()),
        description: owned(manifest.description.as_str()),
        version: owned(manifest.version.as_str()),
        tool_type: manifest.tool_type.slug(),
        risk_level: manifest.risk_level.literal(),
        permissions,
        requires_admin: manifest.requires_admin,
        backup_required: manifest.backup_required,
        enabled,
        compat: compatibility(&data.seed, manifest.game_id.as_str(), manifest.id.as_str(), local),
        asset: asset_dto(manifest, &data.assets),
        source: ToolSourceDto {
            kind: manifest.source.kind.slug(),
            repo: clone_opt(&manifest.source.repo),
            license: clone_opt(&manifest.source.license),
            version: clone_opt(&manifest.source.version),
        },
        pending_verifications: clone_strings(&manifest.pending_verifications),
    }
}

/// The manifests `listTools` covers: all of them, or one game's.
pub open spec fn listed_manifests(ms: Seq<ToolManifest>, game_id: Option<Seq<char>>) -> Seq<
    ToolManifest,
> {
    match game_id {
        None => ms,
        Some(g) => of_game(ms, g),
    }
}

pub open spec fn opt_str_view(o: Option<&str>) -> Option<Seq<char>> {
    match o {
        Some(s) => Some(s@),
        None => None,
    }
}

/// `listTools(gameId?)`: the tools in load order, each with the enabled
/// state the caller reports, and compatibility queried without a local
/// version.
pub fn list_tools<F: Fn(&str) -> bool>(data: &BuiltinData, game_id: Option<&str>, is_enabled: &F) -> (r:
    Vec<ToolDto>)
    requires
        forall|id: &str| #[trigger] is_enabled.requires((id,)),
    ensures
        r@.len() == listed_manifests(data.manifests@.manifests, opt_str_view(game_id)).len(),
        forall|i: int|
            0 <= i < r@.len() ==> {
                let m = listed_manifests(data.manifests@.manifests, opt_str_view(game_id))[i];
                &&& tool_dto_built(#[trigger] r@[i], *data, m, None, r@[i].enabled)
                &&& exists|id: &str| id@ == m.id@ && is_enabled.ensures((id,), r@[i].enabled)
            },
{
    let all = data.manifests.iter();
    let mut chosen: Vec<&ToolManifest> = Vec::new();
    match game_id {
        Some(g) => {
            chosen = data.manifests.for_game(g);
        },
        None => {
            let mut i: usize = 0;
            while i < all.len()
                invariant
                    all@ == data.manifests@.manifests,
                    i <= all@.len(),
                    chosen@.map_values(|m: &ToolManifest| *m) == all@.take(i as int),
                decreases all@.len() - i,
            {
                let ghost before = chosen@;
                let m = &all[i];
                assert(*m == all@[i as int]);
                chosen.push(m);
                assert(chosen@.map_values(|m: &ToolManifest| *m) =~= before.map_values(
                    |m: &ToolManifest| *m,
                ).push(all@[i as int]));
                assert(all@.take(i + 1) =~= all@.take(i as int).push(all@[i as int]));
                i = i + 1;
                assert(chosen@.map_values(|m: &ToolManifest| *m) =~= all@.take(i as int));
            }
            assert(all@.take(i as int) =~= all@);
        },
    }
    let ghost ms = listed_manifests(data.manifests@.manifests, opt_str_view(game_id));
    assert(chosen@.map_values(|m: &ToolManifest| *m) == ms);
    let mut out: Vec<ToolDto> = Vec::new();
    let mut i: usize = 0;
    while i < chosen.len()
        invariant
            forall|id: &str| #[trigger] is_enabled.requires((id,)),
            chosen@.map_values(|m: &ToolManifest| *m) == ms,
            i <= chosen@.len(),
            out@.len() == i,
            forall|k: int|
                0 <= k < i ==> {
                    &&& tool_dto_built(#[trigger] out@[k], *data, ms[k], None, out@[k].enabled)
                    &&& exists|id: &str| id@ == ms[k].id@ && is_enabled.ensures((id,), out@[k].enabled)
                },
        decreases chosen@.len() - i,
    {
        let m = chosen[i];
        assert(ms[i as int] == *m);
        let id = m.id.as_str();
        let enabled = is_enabled(id);
        out.push(tool_dto(data, m, None, enabled));
        i = i + 1;
    }
    out
}

} // verus!

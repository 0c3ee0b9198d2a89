//! The three built-in data sets together: the compatibility table, the tool
//! manifests and the asset catalog, and the checks that tie them.
//!
//! No damaged data set stops loading: each one degrades on its own, and every
//! degradation is handed back as a readable reason.

use vstd::prelude::*;

use crate::assets::{asset_for, download_configured, AssetCatalog, AssetError, BUILTIN_ASSETS};
use crate::compat::CompatEntry;
use crate::manifest::{manifest_for, manifests_loaded, ManifestSet, ToolManifest, GENSHIN_FPS_MANIFEST, WUWA_FPS_MANIFEST, RejectedManifest};
use crate::seed::{SeedError, SeedTable, BUILTIN_SEED, seed_parsed};
use crate::assets::catalog_parsed;
use crate::text::{append_str, owned, str_eq};

verus! {

/// How serious a data issue is.
#[derive(Debug, Clone, Copy, PartialEq, Eq, Structural)]
pub enum Severity {
    /// A real defect: the data contradicts itself and a tool would misbehave.
    Problem,
    /// Legal but worth showing, such as an asset whose build pipeline is not settled.
    Notice,
}

/// An inconsistency between the three data sets.
#[derive(Debug, Clone, PartialEq, Eq)]
pub enum DataIssue {
    /// A manifest with no table entry: its compatibility is always `Unknown`.
    ManifestWithoutSeedEntry { tool_id: String },
    /// A table entry with no manifest: it is never used.
    SeedEntryWithoutManifest { tool_id: String },
    /// The same tool is tied to different games in the two sets.
    GameMismatch { tool_id: String, manifest_game: String, seed_game: String },
    /// The declared asset is not in the catalog: enabling the tool must fail.
    MissingAsset { tool_id: String, asset_key: String },
    /// The asset exists but has nothing to download yet.
    AssetNotConfigured { tool_id: String, asset_key: String },
}

/// A data issue as plain values.
pub enum IssueView {
    ManifestWithoutSeedEntry(Seq<char>),
    SeedEntryWithoutManifest(Seq<char>),
    GameMismatch(Seq<char>, Seq<char>, Seq<char>),
    MissingAsset(Seq<char>, Seq<char>),
    AssetNotConfigured(Seq<char>, Seq<char>),
}

impl View for DataIssue {
    type V = IssueView;

    open spec fn view(&self) -> IssueView {
        match self {
            DataIssue::ManifestWithoutSeedEntry { tool_id } => IssueView::ManifestWithoutSeedEntry(
                tool_id@,
            ),
            DataIssue::SeedEntryWithoutManifest { tool_id } => IssueView::SeedEntryWithoutManifest(
                tool_id@,
            ),
            DataIssue::GameMismatch { tool_id, manifest_game, seed_game } => IssueView::GameMismatch(
                tool_id@,
                manifest_game@,
                seed_game@,
            ),
            DataIssue::MissingAsset { tool_id, asset_key } => IssueView::MissingAsset(
                tool_id@,
                asset_key@,
            ),
            DataIssue::AssetNotConfigured { tool_id, asset_key } => IssueView::AssetNotConfigured(
                tool_id@,
                asset_key@,
            ),
        }
    }
}

impl DataIssue {
    /// Only an asset that is not configured yet is a notice; everything else
    /// is a problem.
    pub fn severity(&self) -> (r: Severity)
        ensures
            r == (if self is AssetNotConfigured {
                Severity::Notice
            } else {
                Severity::Problem
            }),
    {
        match self {
            DataIssue::AssetNotConfigured { .. } => Severity::Notice,
            _ => Severity::Problem,
        }
    }

    /// The message shown for the issue.
    pub open spec fn text(&self) -> Seq<char> {
        match self {
            DataIssue::ManifestWithoutSeedEntry { tool_id } => "工具 "@ + tool_id@
                + " 有 Manifest 但种子表无条目 —— 兼容状态会恒为 Unknown"@,
            DataIssue::SeedEntryWithoutManifest { tool_id } => "种子表条目 "@ + tool_id@
                + " 没有对应 Manifest —— 该数据永远不会被消费"@,
            DataIssue::GameMismatch { tool_id, manifest_game, seed_game } => "工具 "@ + tool_id@
                + " 的游戏标识不一致：Manifest = "@ + manifest_game@ + "，种子表 = "@ + seed_game@,
            DataIssue::MissingAsset { tool_id, asset_key } => "工具 "@ + tool_id@ + " 声明了资产 "@
                + asset_key@ + "，但 assets.json 中不存在 —— 启用必然失败"@,
            DataIssue::AssetNotConfigured { tool_id, asset_key } => "工具 "@ + tool_id@ + " 的资产 "@
                + asset_key@ + " 尚无发行物（构建管道未定稿，04 §11 Q1）"@,
        }
    }

    pub fn to_string(&self) -> (r: String)
        ensures
            r@ == self.text(),
    {
        match self {
            DataIssue::ManifestWithoutSeedEntry { tool_id } => {
                let mut m = owned("工具 ");
                append_str(&mut m, tool_id.as_str());
                append_str(&mut m, " 有 Manifest 但种子表无条目 —— 兼容状态会恒为 Unknown");
                m
            },
            DataIssue::SeedEntryWithoutManifest { tool_id } => {
                let mut m = owned("种子表条目 ");
                append_str(&mut m, tool_id.as_str());
                append_str(&mut m, " 没有对应 Manifest —— 该数据永远不会被消费");
                m
            },
            DataIssue::GameMismatch { tool_id, manifest_game, seed_game } => {
                let mut m = owned("工具 ");
                append_str(&mut m, tool_id.as_str());
                append_str(&mut m, " 的游戏标识不一致：Manifest = ");
                append_str(&mut m, manifest_game.as_str());
                append_str(&mut m, "，种子表 = ");
                append_str(&mut m, seed_game.as_str());
                m
            },
            DataIssue::MissingAsset { tool_id, asset_key } => {
                let mut m = owned("工具 ");
                append_str(&mut m, tool_id.as_str());
                append_str(&mut m, " 声明了资产 ");
                append_str(&mut m, asset_key.as_str());
                append_str(&mut m, "，但 assets.json 中不存在 —— 启用必然失败");
                m
            },
            DataIssue::AssetNotConfigured { tool_id, asset_key } => {
                let mut m = owned("工具 ");
                append_str(&mut m, tool_id.as_str());
                append_str(&mut m, " 的资产 ");
                append_str(&mut m, asset_key.as_str());
                append_str(&mut m, " 尚无发行物（构建管道未定稿，04 §11 Q1）");
                m
            },
        }
    }
}

/// The table entry of a tool: the first that names it.
pub open spec fn entry_of_tool(es: Seq<CompatEntry>, tool_id: Seq<char>) -> Option<CompatEntry>
    decreases es.len(),
{
    if es.len() == 0 {
        None
    } else if es[0].tool_id@ == tool_id {
        Some(es[0])
    } else {
        entry_of_tool(es.drop_first(), tool_id)
    }
}

/// The issues one manifest raises: first against the table, then against
/// the catalog.
pub open spec fn manifest_issues(m: ToolManifest, entries: Seq<CompatEntry>, assets: Seq<
    crate::assets::AssetEntry,
>) -> Seq<IssueView> {
    let seed_part = match entry_of_tool(entries, m.id@) {
        None => seq![IssueView::ManifestWithoutSeedEntry(m.id@)],
        Some(e) => if e.game_id@ != m.game_id@ {
            seq![IssueView::GameMismatch(m.id@, m.game_id@, e.game_id@)]
        } else {
            Seq::empty()
        },
    };
    let asset_part = match m.entry.asset {
        Some(k) => if asset_for(assets, k@) is None {
            seq![IssueView::MissingAsset(m.id@, k@)]
        } else if !download_configured(assets, k@) {
            seq![IssueView::AssetNotConfigured(m.id@, k@)]
        } else {
            Seq::empty()
        },
        None => Seq::empty(),
    };
    seed_part + asset_part
}

/// The issues of all manifests, in load order.
pub open spec fn all_manifest_issues(
    ms: Seq<ToolManifest>,
    entries: Seq<CompatEntry>,
    assets: Seq<crate::assets::AssetEntry>,
) -> Seq<IssueView>
    decreases ms.len(),
{
    if ms.len() == 0 {
        Seq::empty()
    } else {
        all_manifest_issues(ms.drop_last(), entries, assets) + manifest_issues(
            ms.last(),
            entries,
            assets,
        )
    }
}

/// The table entries no manifest uses, in table order.
pub open spec fn orphan_issues(entries: Seq<CompatEntry>, ms: Seq<ToolManifest>) -> Seq<IssueView>
    decreases entries.len(),
{
    if entries.len() == 0 {
        Seq::empty()
    } else {
        let rest = orphan_issues(entries.drop_last(), ms);
        if manifest_for(ms, entries.last().tool_id@) is None {
            rest.push(IssueView::SeedEntryWithoutManifest(entries.last().tool_id@))
        } else {
            rest
        }
    }
}

pub open spec fn issue_views(v: Seq<DataIssue>) -> Seq<IssueView> {
    v.map_values(|i: DataIssue| i@)
}

fn entry_for_tool<'a>(entries: &'a [CompatEntry], tool_id: &str) -> (r: Option<&'a CompatEntry>)
    ensures
        match r {
            Some(e) => entry_of_tool(entries@, tool_id@) == Some(*e),
            None => entry_of_tool(entries@, tool_id@) is None,
        },
{
    let mut i: usize = 0;
    assert(entries@.skip(0) =~= entries@);
    while i < entries.len()
        invariant
            i <= entries@.len(),
            entry_of_tool(entries@, tool_id@) == entry_of_tool(entries@.skip(i as int), tool_id@),
        decreases entries@.len() - i,
    {
        let e = &entries[i];
        assert(entries@.skip(i as int)[0] == entries@[i as int]);
        if str_eq(e.tool_id.as_str(), tool_id) {
            return Some(e);
        }
        assert(entries@.skip(i as int).drop_first() =~= entries@.skip(i + 1));
        i = i + 1;
    }
    None
}

/// Consistency checks between the table, the manifests and the catalog.
pub fn cross_check(seed: &SeedTable, manifests: &ManifestSet, assets: &AssetCatalog) -> (r: Vec<
    DataIssue,
>)
    ensures
        issue_views(r@) == all_manifest_issues(manifests@.manifests, seed@.entries, assets@.assets)
            + orphan_issues(seed@.entries, manifests@.manifests),
{
    let mut issues: Vec<DataIssue> = Vec::new();
    let ms = manifests.manifests();
    let entries = seed.entries();
    let mut i: usize = 0;
    while i < ms.len()
        invariant
            ms@ == manifests@.manifests,
            entries@ == seed@.entries,
            i <= ms@.len(),
            issue_views(issues@) == all_manifest_issues(ms@.take(i as int), entries@, assets@.assets),
        decreases ms@.len() - i,
    {
        let m = &ms[i];
        let ghost before = issues@;
        match entry_for_tool(entries, m.id.as_str()) {
            None => {
                issues.push(DataIssue::ManifestWithoutSeedEntry { tool_id: m.id.clone() });
            },
            Some(e) => {
                if !str_eq(e.game_id.as_str(), m.game_id.as_str()) {
                    issues.push(
                        DataIssue::GameMismatch {
                            tool_id: m.id.clone(),
                            manifest_game: m.game_id.clone(),
                            seed_game: e.game_id.clone(),
                        },
                    );
                }
            },
        }
        let ghost middle = issues@;
        match &m.entry.asset {
            Some(key) => {
                if assets.get(key.as_str()).is_none() {
                    issues.push(
                        DataIssue::MissingAsset { tool_id: m.id.clone(), asset_key: key.clone() },
                    );
                } else if !assets.download_url_configured(key.as_str()) {
                    issues.push(
                        DataIssue::AssetNotConfigured {
                            tool_id: m.id.clone(),
                            asset_key: key.clone(),
                        },
                    );
                }
            },
            None => {},
        }
        proof {
            assert(ms@.take(i + 1).drop_last() =~= ms@.take(i as int));
            assert(ms@.take(i + 1).last() == ms@[i as int]);
            assert(issue_views(issues@) =~= issue_views(before) + manifest_issues(
                ms@[i as int],
                entries@,
                assets@.assets,
            ));
        }
        i = i + 1;
    }
    assert(ms@.take(i as int) =~= ms@);
    let ghost head = issues@;
    let mut j: usize = 0;
    while j < entries.len()
        invariant
            ms@ == manifests@.manifests,
            entries@ == seed@.entries,
            j <= entries@.len(),
            issue_views(head) == all_manifest_issues(ms@, entries@, assets@.assets),
            issue_views(issues@) == issue_views(head) + orphan_issues(
                entries@.take(j as int),
                ms@,
            ),
        decreases entries@.len() - j,
    {
        let e = &entries[j];
        assert(entries@.take(j + 1).drop_last() =~= entries@.take(j as int));
        assert(entries@.take(j + 1).last() == entries@[j as int]);
        let ghost before = issues@;
        if manifests.get(e.tool_id.as_str()).is_none() {
            issues.push(DataIssue::SeedEntryWithoutManifest { tool_id: e.tool_id.clone() });
            assert(issue_views(issues@) =~= issue_views(before).push(
                IssueView::SeedEntryWithoutManifest(e.tool_id@),
            ));
        }
        j = j + 1;
        assert(issue_views(issues@) =~= issue_views(head) + orphan_issues(
            entries@.take(j as int),
            ms@,
        ));
    }
    assert(entries@.take(j as int) =~= entries@);
    issues
}

/// The three data sets as loaded at start-up, shared read-only afterwards.
#[derive(Debug, Clone)]
pub struct BuiltinData {
    pub seed: SeedTable,
    pub manifests: ManifestSet,
    pub assets: AssetCatalog,
    /// Consistency problems and notices.
    pub issues: Vec<DataIssue>,
    /// Readable reasons of every degradation; empty when nothing degraded.
    pub degradations: Vec<String>,
}

/// The reasons given for the degradations of a load, in order: the table,
/// each refused manifest, the catalog.
pub open spec fn degradation_texts(
    seed_err: Option<SeedError>,
    rejected: Seq<RejectedManifest>,
    asset_err: Option<AssetError>,
) -> Seq<Seq<char>> {
    let seed_part = match seed_err {
        Some(e) => seq!["种子表降级为空表（兼容查询全部 Unknown）："@ + e.text()],
        None => Seq::empty(),
    };
    let manifest_part = rejected.map_values(
        |r: RejectedManifest| "Manifest 被拒（该工具不可见）："@ + r.source@ + " — "@ + r.error.text(),
    );
    let asset_part = match asset_err {
        Some(e) => seq!["资产清单降级为空清单（工具仍可见）："@ + e.text()],
        None => Seq::empty(),
    };
    seed_part + manifest_part + asset_part
}

/// `data` holds the given sets, the reasons of their degradations and the
/// issues between them.
pub open spec fn assembled(
    data: BuiltinData,
    seed: SeedTable,
    seed_err: Option<SeedError>,
    manifests: ManifestSet,
    assets: AssetCatalog,
    asset_err: Option<AssetError>,
) -> bool {
    &&& data.seed == seed
    &&& data.manifests == manifests
    &&& data.assets == assets
    &&& data.degradations@.map_values(|s: String| s@) == degradation_texts(
        seed_err,
        manifests@.rejected,
        asset_err,
    )
    &&& issue_views(data.issues@) == all_manifest_issues(
        manifests@.manifests,
        seed@.entries,
        assets@.assets,
    ) + orphan_issues(seed@.entries, manifests@.manifests)
}

/// What one start-up load gives: each set is the built-in one or its
/// degraded form, with the reason.
pub open spec fn builtin_load(seed_err: Option<SeedError>, asset_err: Option<AssetError>, data: BuiltinData) -> bool {
    &&& assembled(data, data.seed, seed_err, data.manifests, data.assets, asset_err)
    &&& match seed_err {
        None => seed_parsed(BUILTIN_SEED@, Ok(data.seed)),
        Some(e) => seed_parsed(BUILTIN_SEED@, Err(e)) && data.seed@.schema_version is None
            && data.seed@.updated_at is None && data.seed@.maintainer is None
            && data.seed@.entries.len() == 0,
    }
    &&& manifests_loaded(
        seq![
            ("wuwa-fps-120.json"@, WUWA_FPS_MANIFEST@),
            ("genshin-fps-unlock.json"@, GENSHIN_FPS_MANIFEST@),
        ],
        data.manifests@,
    )
    &&& match asset_err {
        None => catalog_parsed(BUILTIN_ASSETS@, Ok(data.assets)),
        Some(e) => catalog_parsed(BUILTIN_ASSETS@, Err(e)) && data.assets@.schema_version is None
            && data.assets@.updated_at is None && data.assets@.note is None
            && data.assets@.assets.len() == 0,
    }
}

pub open spec fn has_problem(issues: Seq<DataIssue>) -> bool {
    exists|i: int| 0 <= i < issues.len() && !(#[trigger] issues[i] is AssetNotConfigured)
}

impl BuiltinData {
    /// Puts loaded sets together: the degradation reasons and the issues.
    pub fn assemble(
        seed: SeedTable,
        seed_err: Option<SeedError>,
        manifests: ManifestSet,
        assets: AssetCatalog,
        asset_err: Option<AssetError>,
    ) -> (r: BuiltinData)
        ensures
            assembled(r, seed, seed_err, manifests, assets, asset_err),
    {
        let mut degradations: Vec<String> = Vec::new();
        match &seed_err {
            Some(e) => {
                let mut m = owned("种子表降级为空表（兼容查询全部 Unknown）：");
                let t = e.to_string();
                append_str(&mut m, t.as_str());
                degradations.push(m);
            },
            None => {},
        }
        let ghost seed_part = degradations@.map_values(|s: String| s@);
        let rejected = manifests.rejected();
        let mut i: usize = 0;
        while i < rejected.len()
            invariant
                rejected@ == manifests@.rejected,
                i <= rejected@.len(),
                degradations@.map_values(|s: String| s@) == seed_part + rejected@.take(
                    i as int,
                ).map_values(
                    |r: RejectedManifest| "Manifest 被拒（该工具不可见）："@ + r.source@ + " — "@
                        + r.error.text(),
                ),
            decreases rejected@.len() - i,
        {
            let ghost before = degradations@;
            let mut m = owned("Manifest 被拒（该工具不可见）：");
            append_str(&mut m, rejected[i].source.as_str());
            append_str(&mut m, " — ");
            let t = rejected[i].error.to_string();
            append_str(&mut m, t.as_str());
            degradations.push(m);
            proof {
                let f = |r: RejectedManifest| "Manifest 被拒（该工具不可见）："@ + r.source@ + " — "@
                    + r.error.text();
                assert(rejected@.take(i + 1) =~= rejected@.take(i as int).push(rejected@[i as int]));
                assert(rejected@.take(i + 1).map_values(f) =~= rejected@.take(i as int).map_values(
                    f,
                ).push(f(rejected@[i as int])));
                assert(degradations@.map_values(|s: String| s@) =~= before.map_values(
                    |s: String| s@,
                ).push(m@));
            }
            i = i + 1;
            assert(degradations@.map_values(|s: String| s@) =~= seed_part + rejected@.take(
                i as int,
            ).map_values(
                |r: RejectedManifest| "Manifest 被拒（该工具不可见）："@ + r.source@ + " — "@
                    + r.error.text(),
            ));
        }
        assert(rejected@.take(i as int) =~= rejected@);
        let ghost head = degradations@.map_values(|s: String| s@);
        match &asset_err {
            Some(e) => {
                let mut m = owned("资产清单降级为空清单（工具仍可见）：");
                let t = e.to_string();
                append_str(&mut m, t.as_str());
                degradations.push(m);
                assert(degradations@.map_values(|s: String| s@) =~= head.push(
                    "资产清单降级为空清单（工具仍可见）："@ + e.text(),
                ));
            },
            None => {},
        }
        assert(degradations@.map_values(|s: String| s@) =~= degradation_texts(
            seed_err,
            manifests@.rejected,
            asset_err,
        ));
        let issues = cross_check(&seed, &manifests, &assets);
        BuiltinData { seed, manifests, assets, issues, degradations }
    }

    /// Loads the three built-in sets; no damaged set stops the load.
    pub fn load() -> (r: BuiltinData)
        ensures
            exists|seed_err: Option<SeedError>, asset_err: Option<AssetError>|
                #[trigger] builtin_load(seed_err, asset_err, r),
    {
        let (seed, seed_err) = SeedTable::builtin_or_degraded();
        let manifests = ManifestSet::builtin();
        let (assets, asset_err) = AssetCatalog::builtin_or_degraded();
        let ghost se = seed_err;
        let ghost ae = asset_err;
        let r = BuiltinData::assemble(seed, seed_err, manifests, assets, asset_err);
        assert(builtin_load(se, ae, r));
        r
    }

    /// Whether there is a real defect (notices do not count).
    pub fn has_problems(&self) -> (r: bool)
        ensures
            r == has_problem(self.issues@),
    {
        let mut i: usize = 0;
        while i < self.issues.len()
            invariant
                i <= self.issues@.len(),
                forall|k: int| 0 <= k < i ==> (#[trigger] self.issues@[k]) is AssetNotConfigured,
            decreases self.issues@.len() - i,
        {
            if self.issues[i].severity() == Severity::Problem {
                return true;
            }
            i = i + 1;
        }
        false
    }

    /// Whether anything degraded: a refused or degraded set, or a real defect.
    pub fn is_degraded(&self) -> (r: bool)
        ensures
            r == (self.degradations@.len() > 0 || has_problem(self.issues@)),
    {
        self.degradations.len() > 0 || self.has_problems()
    }

    /// The issues and notices, for the start-up log and the interface.
    pub fn notices(&self) -> (r: &[DataIssue])
        ensures
            r@ == self.issues@,
    {
        self.issues.as_slice()
    }
}

} // verus!

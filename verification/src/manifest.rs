//! Tool manifests: one JSON document per tool, checked at load time.
//!
//! A broken manifest only hides its own tool: loading a list of manifests
//! never fails as a whole, it yields the accepted manifests and the rejected
//! ones with their reasons.

use vstd::prelude::*;

use crate::json::{
    fields, flag_of, found, has_flag, has_opt_text, has_text, has_text_list, is_default_text_list,
    is_flag, is_object, is_opt_text, is_text, is_text_list, json_outcome, keys_listed,
    keys_within, lookup, member, members_of, opt_text_of, opt_text_value, opt_text_view,
    parse_json, shape_mismatch_note, shape_mismatch_text, text_list_of, text_list_value, text_of,
    text_value, texts_view, JsonValue,
};
use crate::model::{valid_slug, GameId};
use crate::text::{
    after, append_str, before, chars_of, digit_run, digits_in, find_char, is_blank,
    is_blank_str, owned, push_quoted, debug_form, str_eq,
};
use crate::tool::{
    is_valid_tool_id, valid_tool_id, RiskLevel, SourceKind, ToolPermission, ToolSource, ToolType,
};

verus! {

/// Why a manifest was refused.
#[derive(Debug, Clone, PartialEq, Eq)]
pub enum ManifestError {
    /// Not JSON, or not the shape of the schema.
    Malformed { detail: String },
    /// A field holds a value the rules refuse.
    InvalidField { field: &'static str, detail: String },
    /// Clashes with a manifest loaded before (the same tool id).
    Conflict { detail: String },
}

impl ManifestError {
    /// The message shown for the error.
    pub open spec fn text(&self) -> Seq<char> {
        match self {
            ManifestError::Malformed { detail } => "结构非法："@ + detail@,
            ManifestError::InvalidField { field, detail } => "字段 "@ + field@ + " 非法："@ + detail@,
            ManifestError::Conflict { detail } => "与其它条目冲突："@ + detail@,
        }
    }

    pub fn to_string(&self) -> (r: String)
        ensures
            r@ == self.text(),
    {
        match self {
            ManifestError::Malformed { detail } => {
                let mut m = owned("结构非法：");
                append_str(&mut m, detail.as_str());
                m
            },
            ManifestError::InvalidField { field, detail } => {
                let mut m = owned("字段 ");
                append_str(&mut m, field);
                append_str(&mut m, " 非法：");
                append_str(&mut m, detail.as_str());
                m
            },
            ManifestError::Conflict { detail } => {
                let mut m = owned("与其它条目冲突：");
                append_str(&mut m, detail.as_str());
                m
            },
        }
    }
}

/// Executor dispatch of a tool.
#[derive(Debug, Clone, PartialEq, Eq)]
pub struct ToolEntry {
    /// The executor key.
    pub executor: String,
    /// For `external_process`: the asset key in the asset catalog.
    pub asset: Option<String>,
    /// For `external_process`: the distribution channel.
    pub channel: Option<String>,
}

/// The full data declaration of one tool.
#[derive(Debug, Clone, PartialEq, Eq)]
pub struct ToolManifest {
    /// `namespace/name`; the compatibility table uses the same id.
    pub id: String,
    pub game_id: String,
    pub name: String,
    pub description: String,
    pub version: String,
    pub tool_type: ToolType,
    pub risk_level: RiskLevel,
    pub permissions: Vec<ToolPermission>,
    pub requires_admin: bool,
    /// Forces a backup before any modification.
    pub backup_required: bool,
    pub entry: ToolEntry,
    pub source: ToolSource,
    /// Measurements the values still wait for (`T4a`, `T7`); non-empty means
    /// "some parameters are not final".
    pub pending_verifications: Vec<String>,
}

/// `x.y.z`: three non-empty runs of digits.
pub open spec fn semver_triplet(s: Seq<char>) -> bool {
    match after(s, '.') {
        Some(r1) => match after(r1, '.') {
            Some(r2) => digit_run(before(s, '.')) && digit_run(before(r1, '.')) && digit_run(r2),
            None => false,
        },
        None => false,
    }
}

/// `T`, digits, and at most one of `a`, `b`, `c`.
pub open spec fn verification_id(s: Seq<char>) -> bool {
    &&& s.len() > 0
    &&& s[0] == 'T'
    &&& {
        let rest = s.skip(1);
        if rest.len() > 0 && 'a' <= rest.last() && rest.last() <= 'c' {
            digit_run(rest.drop_last())
        } else {
            digit_run(rest)
        }
    }
}

/// Whether `version` reads `x.y.z`.
pub fn is_semver_triplet(version: &str) -> (r: bool)
    ensures
        r == semver_triplet(version@),
{
    let cs = chars_of(version);
    let n = cs.len();
    assert(cs@.subrange(0, n as int) =~= version@);
    let k1 = find_char(&cs, 0, n, '.');
    if k1 == n {
        return false;
    }
    let ghost r1 = version@.skip(k1 + 1);
    assert(r1 =~= cs@.subrange(k1 + 1, n as int));
    let k2 = find_char(&cs, k1 + 1, n, '.');
    if k2 == n {
        return false;
    }
    assert(version@.take(k1 as int) =~= cs@.subrange(0, k1 as int));
    assert(r1.take(k2 - k1 - 1) =~= cs@.subrange(k1 + 1, k2 as int));
    assert(r1.skip(k2 - k1) =~= cs@.subrange(k2 + 1, n as int));
    digits_in(&cs, 0, k1) && digits_in(&cs, k1 + 1, k2) && digits_in(&cs, k2 + 1, n)
}

/// Whether `id` names a pending measurement (`T4a`, `T7`).
pub fn is_verification_id(id: &str) -> (r: bool)
    ensures
        r == verification_id(id@),
{
    let cs = chars_of(id);
    let n = cs.len();
    if n == 0 || cs[0] != 'T' {
        return false;
    }
    let ghost rest = id@.skip(1);
    assert(rest =~= cs@.subrange(1, n as int));
    if n > 1 && cs[n - 1] >= 'a' && cs[n - 1] <= 'c' {
        assert(rest.last() == cs@[n - 1]);
        assert(rest.drop_last() =~= cs@.subrange(1, n - 1));
        digits_in(&cs, 1, n - 1)
    } else {
        digits_in(&cs, 1, n)
    }
}

// ── The shape of a manifest ───────────────────────────────────────────

pub open spec fn manifest_fields() -> Seq<&'static str> {
    seq![
        "id",
        "game",
        "name",
        "description",
        "version",
        "type",
        "risk_level",
        "permissions",
        "requires_admin",
        "backup_required",
        "entry",
        "source",
        "pending_verifications",
    ]
}

pub open spec fn executor_fields() -> Seq<&'static str> {
    seq!["executor", "asset", "channel"]
}

pub open spec fn source_fields() -> Seq<&'static str> {
    seq!["kind", "repo", "license", "version"]
}

/// The members of a nested object (none when absent or not an object).
pub open spec fn nested(v: Option<JsonValue>) -> Seq<(String, JsonValue)> {
    match v {
        Some(x) => fields(x),
        None => Seq::empty(),
    }
}

pub open spec fn executor_shape(v: Option<JsonValue>) -> bool {
    let ms = nested(v);
    &&& is_object(v)
    &&& keys_listed(ms, executor_fields())
    &&& is_text(member(ms, "executor"@))
    &&& is_opt_text(member(ms, "asset"@))
    &&& is_opt_text(member(ms, "channel"@))
}

pub open spec fn source_shape(v: Option<JsonValue>) -> bool {
    let ms = nested(v);
    &&& is_object(v)
    &&& keys_listed(ms, source_fields())
    &&& is_text(member(ms, "kind"@))
    &&& is_opt_text(member(ms, "repo"@))
    &&& is_opt_text(member(ms, "license"@))
    &&& is_opt_text(member(ms, "version"@))
}

/// The document has the schema's fields and types.
pub open spec fn manifest_shape(v: JsonValue) -> bool {
    let ms = fields(v);
    &&& v is Object
    &&& keys_listed(ms, manifest_fields())
    &&& is_text(member(ms, "id"@))
    &&& is_text(member(ms, "game"@))
    &&& is_text(member(ms, "name"@))
    &&& is_text(member(ms, "description"@))
    &&& is_text(member(ms, "version"@))
    &&& is_text(member(ms, "type"@))
    &&& is_text(member(ms, "risk_level"@))
    &&& is_text_list(member(ms, "permissions"@))
    &&& is_flag(member(ms, "requires_admin"@))
    &&& is_flag(member(ms, "backup_required"@))
    &&& executor_shape(member(ms, "entry"@))
    &&& source_shape(member(ms, "source"@))
    &&& is_default_text_list(member(ms, "pending_verifications"@))
}

// ── The rules of a manifest ───────────────────────────────────────────

/// Whether the permission at `i` repeats one before it.
pub open spec fn perm_repeated(ps: Seq<Seq<char>>, i: int) -> bool {
    exists|j: int|
        0 <= j < i && #[trigger] ToolPermission::parse_text(ps[j]) == ToolPermission::parse_text(
            ps[i],
        )
}

/// The first unknown or repeated permission at or after `from`.
pub open spec fn first_perm_problem(ps: Seq<Seq<char>>, from: int) -> Option<Seq<char>>
    decreases ps.len() - from,
{
    if from < 0 || from >= ps.len() {
        None
    } else if ToolPermission::parse_text(ps[from]) is None {
        Some("未知权限："@ + debug_form(ps[from]))
    } else if perm_repeated(ps, from) {
        Some("重复项："@ + debug_form(ps[from]) + "（schema uniqueItems: true）"@)
    } else {
        first_perm_problem(ps, from + 1)
    }
}

/// The first pending id at or after `from` that is not of the `T4a` form.
pub open spec fn first_pending_problem(ids: Seq<Seq<char>>, from: int) -> Option<Seq<char>>
    decreases ids.len() - from,
{
    if from < 0 || from >= ids.len() {
        None
    } else if !verification_id(ids[from]) {
        Some("须形如 T4a / T7："@ + debug_form(ids[from]))
    } else {
        first_pending_problem(ids, from + 1)
    }
}

/// A present, non-blank text.
pub open spec fn opt_filled(o: Option<Seq<char>>) -> bool {
    o matches Some(t) && !is_blank(t)
}

pub open spec fn backup_note() -> Seq<char> {
    "config_modify 必须为 true —— 否则等于允许「无备份修改」（00 §12.3 规则 5）"@
}

pub open spec fn unlocker_note() -> Seq<char> {
    "executor = unlocker 时 asset 与 channel 为必填（发行包分离，B7）"@
}

pub open spec fn attribution_note() -> Seq<char> {
    "kind = upstream 时 repo 与 license 为必填且不得为空白（00 §8.6）"@
}

/// The first rule the manifest breaks: the field and the message.
pub open spec fn manifest_problem(v: JsonValue) -> Option<(Seq<char>, Seq<char>)> {
    let ms = fields(v);
    let id = text_of(member(ms, "id"@));
    let game = text_of(member(ms, "game"@));
    let version = text_of(member(ms, "version"@));
    let ty = text_of(member(ms, "type"@));
    let risk = text_of(member(ms, "risk_level"@));
    let ps = text_list_of(member(ms, "permissions"@));
    let ent = nested(member(ms, "entry"@));
    let executor = text_of(member(ent, "executor"@));
    let src = nested(member(ms, "source"@));
    let kind = text_of(member(src, "kind"@));
    let pending = text_list_of(member(ms, "pending_verifications"@));
    if !valid_tool_id(id) {
        Some(("id"@, "须为 namespace/name 形态："@ + debug_form(id)))
    } else if !valid_slug(game) {
        Some(("game"@, "须为合法 slug："@ + debug_form(game)))
    } else if is_blank(text_of(member(ms, "name"@))) {
        Some(("name"@, "不得为空"@))
    } else if is_blank(text_of(member(ms, "description"@))) {
        Some(("description"@, "不得为空"@))
    } else if !semver_triplet(version) {
        Some(("version"@, "须为 x.y.z 三段数字："@ + debug_form(version)))
    } else if ToolType::parse_text(ty) is None {
        Some(("type"@, "仅 config_modify / external_process："@ + debug_form(ty)))
    } else if RiskLevel::parse_text(risk) is None {
        Some(("risk_level"@, "非法等级："@ + debug_form(risk)))
    } else if ps.len() == 0 {
        Some(("permissions"@, "不得为空（schema minItems: 1）"@))
    } else if first_perm_problem(ps, 0) is Some {
        Some(("permissions"@, first_perm_problem(ps, 0).unwrap()))
    } else if ToolType::parse_text(ty) == Some(ToolType::ConfigModify) && !flag_of(
        member(ms, "backup_required"@),
    ) {
        Some(("backup_required"@, backup_note()))
    } else if is_blank(executor) {
        Some(("entry.executor"@, "不得为空"@))
    } else if executor == "unlocker"@ && (opt_text_of(member(ent, "asset"@)) is None
        || opt_text_of(member(ent, "channel"@)) is None) {
        Some(("entry"@, unlocker_note()))
    } else if SourceKind::parse_text(kind) is None {
        Some(("source.kind"@, "仅 builtin / bundled / upstream："@ + debug_form(kind)))
    } else if SourceKind::parse_text(kind) == Some(SourceKind::Upstream) && !(opt_filled(
        opt_text_of(member(src, "repo"@)),
    ) && opt_filled(opt_text_of(member(src, "license"@)))) {
        Some(("source"@, attribution_note()))
    } else if first_pending_problem(pending, 0) is Some {
        Some(("pending_verifications"@, first_pending_problem(pending, 0).unwrap()))
    } else {
        None
    }
}

/// The manifest built from a valid document.
pub open spec fn manifest_built(m: ToolManifest, v: JsonValue) -> bool {
    let ms = fields(v);
    let ps = text_list_of(member(ms, "permissions"@));
    let ent = nested(member(ms, "entry"@));
    let src = nested(member(ms, "source"@));
    &&& m.id@ == text_of(member(ms, "id"@))
    &&& m.game_id@ == text_of(member(ms, "game"@))
    &&& m.name@ == text_of(member(ms, "name"@))
    &&& m.description@ == text_of(member(ms, "description"@))
    &&& m.version@ == text_of(member(ms, "version"@))
    &&& Some(m.tool_type) == ToolType::parse_text(text_of(member(ms, "type"@)))
    &&& Some(m.risk_level) == RiskLevel::parse_text(text_of(member(ms, "risk_level"@)))
    &&& m.permissions@.len() == ps.len()
    &&& forall|i: int|
        0 <= i < ps.len() ==> Some(#[trigger] m.permissions@[i]) == ToolPermission::parse_text(
            ps[i],
        )
    &&& m.requires_admin == flag_of(member(ms, "requires_admin"@))
    &&& m.backup_required == flag_of(member(ms, "backup_required"@))
    &&& m.entry.executor@ == text_of(member(ent, "executor"@))
    &&& opt_text_view(m.entry.asset) == opt_text_of(member(ent, "asset"@))
    &&& opt_text_view(m.entry.channel) == opt_text_of(member(ent, "channel"@))
    &&& Some(m.source.kind) == SourceKind::parse_text(text_of(member(src, "kind"@)))
    &&& opt_text_view(m.source.repo) == opt_text_of(member(src, "repo"@))
    &&& opt_text_view(m.source.license) == opt_text_of(member(src, "license"@))
    &&& opt_text_view(m.source.version) == opt_text_of(member(src, "version"@))
    &&& texts_view(m.pending_verifications@) == text_list_of(
        member(ms, "pending_verifications"@),
    )
}

/// What decoding a parsed manifest gives.
pub open spec fn manifest_decoded(v: JsonValue, r: Result<ToolManifest, ManifestError>) -> bool {
    match r {
        Err(ManifestError::Malformed { detail }) => !manifest_shape(v) && detail@
            == shape_mismatch_note(),
        Err(ManifestError::InvalidField { field, detail }) => manifest_shape(v) && manifest_problem(
            v,
        ) == Some((field@, detail@)),
        Err(ManifestError::Conflict { .. }) => false,
        Ok(m) => manifest_shape(v) && manifest_problem(v) is None && manifest_built(m, v),
    }
}

/// What parsing a manifest text gives.
pub open spec fn manifest_parsed(text: Seq<char>, r: Result<ToolManifest, ManifestError>) -> bool {
    match json_outcome(text) {
        Err(e) => r matches Err(ManifestError::Malformed { detail }) && detail@ == e,
        Ok(v) => manifest_decoded(v, r),
    }
}

fn executor_shape_ok(v: Option<&JsonValue>) -> (r: bool)
    ensures
        r == executor_shape(found(v)),
{
    match v {
        Some(JsonValue::Object(ms)) => {
            let allowed: Vec<&str> = vec!["executor", "asset", "channel"];
            assert(allowed@ =~= executor_fields());
            keys_within(ms, &allowed) && has_text(lookup(ms, "executor")) && has_opt_text(
                lookup(ms, "asset"),
            ) && has_opt_text(lookup(ms, "channel"))
        },
        _ => false,
    }
}

fn source_shape_ok(v: Option<&JsonValue>) -> (r: bool)
    ensures
        r == source_shape(found(v)),
{
    match v {
        Some(JsonValue::Object(ms)) => {
            let allowed: Vec<&str> = vec!["kind", "repo", "license", "version"];
            assert(allowed@ =~= source_fields());
            keys_within(ms, &allowed) && has_text(lookup(ms, "kind")) && has_opt_text(
                lookup(ms, "repo"),
            ) && has_opt_text(lookup(ms, "license")) && has_opt_text(lookup(ms, "version"))
        },
        _ => false,
    }
}

fn manifest_shape_ok(v: &JsonValue) -> (r: bool)
    ensures
        r == manifest_shape(*v),
{
    match v {
        JsonValue::Object(ms) => {
            let allowed: Vec<&str> = vec![
                "id",
                "game",
                "name",
                "description",
                "version",
                "type",
                "risk_level",
                "permissions",
                "requires_admin",
                "backup_required",
                "entry",
                "source",
                "pending_verifications",
            ];
            assert(allowed@ =~= manifest_fields());
            let pending = lookup(ms, "pending_verifications");
            keys_within(ms, &allowed) && has_text(lookup(ms, "id")) && has_text(lookup(ms, "game"))
                && has_text(lookup(ms, "name")) && has_text(lookup(ms, "description")) && has_text(
                lookup(ms, "version"),
            ) && has_text(lookup(ms, "type")) && has_text(lookup(ms, "risk_level"))
                && has_text_list(lookup(ms, "permissions")) && has_flag(
                lookup(ms, "requires_admin"),
            ) && has_flag(lookup(ms, "backup_required")) && executor_shape_ok(
                lookup(ms, "entry"),
            ) && source_shape_ok(lookup(ms, "source")) && (pending.is_none() || has_text_list(
                pending,
            ))
        },
        _ => false,
    }
}

fn invalid(field: &'static str, detail: String) -> (r: ManifestError)
    ensures
        r == (ManifestError::InvalidField { field, detail }),
{
    ManifestError::InvalidField { field, detail }
}

fn lead_quoted(lead: &str, value: &str) -> (r: String)
    ensures
        r@ == lead@ + debug_form(value@),
{
    let mut m = owned(lead);
    push_quoted(&mut m, value);
    m
}

/// Parses the permission list: unknown and repeated names are refused.
fn parse_permissions(ps: &Vec<String>) -> (r: Result<Vec<ToolPermission>, String>)
    ensures
        match r {
            Ok(out) => first_perm_problem(texts_view(ps@), 0) is None && out@.len() == ps@.len()
                && forall|i: int|
                0 <= i < ps@.len() ==> Some(#[trigger] out@[i]) == ToolPermission::parse_text(
                    ps@[i]@,
                ),
            Err(d) => first_perm_problem(texts_view(ps@), 0) == Some(d@),
        },
{
    let ghost names = texts_view(ps@);
    let mut out: Vec<ToolPermission> = Vec::new();
    let mut i: usize = 0;
    while i < ps.len()
        invariant
            names == texts_view(ps@),
            i <= ps.len(),
            first_perm_problem(names, 0) == first_perm_problem(names, i as int),
            out@.len() == i,
            forall|k: int| 0 <= k < i ==> Some(#[trigger] out@[k]) == ToolPermission::parse_text(names[k]),
        decreases ps.len() - i,
    {
        assert(names[i as int] == ps@[i as int]@);
        let parsed = match ToolPermission::from_slug(ps[i].as_str()) {
            Some(p) => p,
            None => {
                return Err(lead_quoted("未知权限：", ps[i].as_str()));
            },
        };
        let mut j: usize = 0;
        while j < out.len()
            invariant
                j <= out.len() == i,
                i < ps.len(),
                first_perm_problem(names, 0) == first_perm_problem(names, i as int),
                names == texts_view(ps@),
                Some(parsed) == ToolPermission::parse_text(names[i as int]),
                forall|k: int| 0 <= k < i ==> Some(#[trigger] out@[k]) == ToolPermission::parse_text(names[k]),
                forall|k: int| 0 <= k < j ==> out@[k] != parsed,
            decreases out.len() - j,
        {
            if out[j] == parsed {
                assert(ToolPermission::parse_text(names[j as int]) == ToolPermission::parse_text(names[i as int]));
                assert(perm_repeated(names, i as int));
                let mut d = lead_quoted("重复项：", ps[i].as_str());
                append_str(&mut d, "（schema uniqueItems: true）");
                return Err(d);
            }
            j = j + 1;
        }
        assert(!perm_repeated(names, i as int)) by {
            if perm_repeated(names, i as int) {
                let j = choose|j: int|
                    0 <= j < i && #[trigger] ToolPermission::parse_text(names[j])
                        == ToolPermission::parse_text(names[i as int]);
                assert(Some(out@[j]) == ToolPermission::parse_text(names[j]));
            }
        }
        out.push(parsed);
        i = i + 1;
    }
    Ok(out)
}

/// The first pending id that is not of the `T4a` form.
fn check_pending(ids: &Vec<String>) -> (r: Option<String>)
    ensures
        match r {
            None => first_pending_problem(texts_view(ids@), 0) is None,
            Some(d) => first_pending_problem(texts_view(ids@), 0) == Some(d@),
        },
{
    let ghost names = texts_view(ids@);
    let mut i: usize = 0;
    while i < ids.len()
        invariant
            names == texts_view(ids@),
            i <= ids.len(),
            first_pending_problem(names, 0) == first_pending_problem(names, i as int),
        decreases ids.len() - i,
    {
        assert(names[i as int] == ids@[i as int]@);
        if !is_verification_id(ids[i].as_str()) {
            return Some(lead_quoted("须形如 T4a / T7：", ids[i].as_str()));
        }
        i = i + 1;
    }
    None
}

impl ToolManifest {
    /// Decodes and checks a parsed manifest.
    pub fn from_json(doc: &JsonValue) -> (r: Result<ToolManifest, ManifestError>)
        ensures
            manifest_decoded(*doc, r),
    {
        if !manifest_shape_ok(doc) {
            return Err(ManifestError::Malformed { detail: shape_mismatch_text() });
        }
        let ms = members_of(doc);
        let id = text_value(lookup(ms, "id")).unwrap();
        let game = text_value(lookup(ms, "game")).unwrap();
        let name = text_value(lookup(ms, "name")).unwrap();
        let description = text_value(lookup(ms, "description")).unwrap();
        let version = text_value(lookup(ms, "version")).unwrap();
        let ty = text_value(lookup(ms, "type")).unwrap();
        let risk = text_value(lookup(ms, "risk_level")).unwrap();
        let ps = text_list_value(lookup(ms, "permissions")).unwrap();
        let requires_admin = match lookup(ms, "requires_admin") {
            Some(JsonValue::Bool(b)) => *b,
            _ => false,
        };
        let backup_required = match lookup(ms, "backup_required") {
            Some(JsonValue::Bool(b)) => *b,
            _ => false,
        };
        let ent = members_of(lookup(ms, "entry").unwrap());
        let executor = text_value(lookup(ent, "executor")).unwrap();
        let asset = opt_text_value(lookup(ent, "asset")).unwrap();
        let channel = opt_text_value(lookup(ent, "channel")).unwrap();
        let src = members_of(lookup(ms, "source").unwrap());
        let kind_text = text_value(lookup(src, "kind")).unwrap();
        let repo = opt_text_value(lookup(src, "repo")).unwrap();
        let license = opt_text_value(lookup(src, "license")).unwrap();
        let source_version = opt_text_value(lookup(src, "version")).unwrap();
        let pending = match text_list_value(lookup(ms, "pending_verifications")) {
            Some(l) => l,
            None => Vec::new(),
        };
        assert(texts_view(pending@) =~= text_list_of(member(ms@, "pending_verifications"@)));

        if !is_valid_tool_id(id.as_str()) {
            return Err(invalid("id", lead_quoted("须为 namespace/name 形态：", id.as_str())));
        }
        if GameId::new(game.as_str()).is_none() {
            return Err(invalid("game", lead_quoted("须为合法 slug：", game.as_str())));
        }
        if is_blank_str(name.as_str()) {
            return Err(invalid("name", owned("不得为空")));
        }
        if is_blank_str(description.as_str()) {
            return Err(invalid("description", owned("不得为空")));
        }
        if !is_semver_triplet(version.as_str()) {
            return Err(invalid("version", lead_quoted("须为 x.y.z 三段数字：", version.as_str())));
        }
        let tool_type = match ToolType::from_slug(ty.as_str()) {
            Some(t) => t,
            None => {
                return Err(
                    invalid(
                        "type",
                        lead_quoted("仅 config_modify / external_process：", ty.as_str()),
                    ),
                );
            },
        };
        let risk_level = match RiskLevel::from_literal(risk.as_str()) {
            Some(l) => l,
            None => {
                return Err(invalid("risk_level", lead_quoted("非法等级：", risk.as_str())));
            },
        };
        if ps.len() == 0 {
            return Err(invalid("permissions", owned("不得为空（schema minItems: 1）")));
        }
        let permissions = match parse_permissions(&ps) {
            Ok(p) => p,
            Err(d) => {
                return Err(invalid("permissions", d));
            },
        };
        if tool_type.writes_game_files() && !backup_required {
            return Err(
                invalid(
                    "backup_required",
                    owned("config_modify 必须为 true —— 否则等于允许「无备份修改」（00 §12.3 规则 5）"),
                ),
            );
        }
        if is_blank_str(executor.as_str()) {
            return Err(invalid("entry.executor", owned("不得为空")));
        }
        if str_eq(executor.as_str(), "unlocker") && (asset.is_none() || channel.is_none()) {
            return Err(
                invalid(
                    "entry",
                    owned("executor = unlocker 时 asset 与 channel 为必填（发行包分离，B7）"),
                ),
            );
        }
        let kind = match SourceKind::from_slug(kind_text.as_str()) {
            Some(k) => k,
            None => {
                return Err(
                    invalid(
                        "source.kind",
                        lead_quoted("仅 builtin / bundled / upstream：", kind_text.as_str()),
                    ),
                );
            },
        };
        let source = ToolSource { kind, repo, license, version: source_version };
        if !source.is_attribution_complete() {
            return Err(
                invalid(
                    "source",
                    owned("kind = upstream 时 repo 与 license 为必填且不得为空白（00 §8.6）"),
                ),
            );
        }
        match check_pending(&pending) {
            Some(d) => {
                return Err(invalid("pending_verifications", d));
            },
            None => {},
        }
        Ok(
            ToolManifest {
                id,
                game_id: game,
                name,
                description,
                version,
                tool_type,
                risk_level,
                permissions,
                requires_admin,
                backup_required,
                entry: ToolEntry { executor, asset, channel },
                source,
                pending_verifications: pending,
            },
        )
    }

    /// Parses and checks one manifest text.
    pub fn parse(json: &str) -> (r: Result<ToolManifest, ManifestError>)
        ensures
            manifest_parsed(json@, r),
    {
        match parse_json(json) {
            Ok(doc) => ToolManifest::from_json(&doc),
            Err(detail) => Err(ManifestError::Malformed { detail }),
        }
    }

    /// Whether the tool needs a separately downloaded asset.
    pub fn requires_asset(&self) -> (r: bool)
        ensures
            r == (self.entry.asset is Some),
    {
        self.entry.asset.is_some()
    }

    /// Whether some parameters still wait for a measurement.
    pub fn has_pending_verifications(&self) -> (r: bool)
        ensures
            r == (self.pending_verifications@.len() > 0),
    {
        self.pending_verifications.len() > 0
    }
}

/// A refused manifest, with where it came from and why.
#[derive(Debug, Clone, PartialEq, Eq)]
pub struct RejectedManifest {
    /// The source name (the file name of the manifest).
    pub source: String,
    pub error: ManifestError,
}

/// The outcome of loading a list of manifests: partial success is normal.
#[derive(Debug, Clone, PartialEq, Eq)]
pub struct ManifestSet {
    manifests: Vec<ToolManifest>,
    rejected: Vec<RejectedManifest>,
}

pub struct ManifestSetView {
    pub manifests: Seq<ToolManifest>,
    pub rejected: Seq<RejectedManifest>,
}

impl View for ManifestSet {
    type V = ManifestSetView;

    closed spec fn view(&self) -> ManifestSetView {
        ManifestSetView { manifests: self.manifests@, rejected: self.rejected@ }
    }
}

/// Some manifest of `ms` has the id.
pub open spec fn id_taken(ms: Seq<ToolManifest>, id: Seq<char>) -> bool {
    exists|i: int| 0 <= i < ms.len() && (#[trigger] ms[i]).id@ == id
}

/// No two manifests share an id.
pub open spec fn ids_distinct(ms: Seq<ToolManifest>) -> bool {
    forall|i: int, j: int| 0 <= i < j < ms.len() ==> (#[trigger] ms[i]).id@ != (#[trigger] ms[j]).id@
}

/// The first manifest with the id.
pub open spec fn manifest_for(ms: Seq<ToolManifest>, id: Seq<char>) -> Option<ToolManifest>
    decreases ms.len(),
{
    if ms.len() == 0 {
        None
    } else if ms[0].id@ == id {
        Some(ms[0])
    } else {
        manifest_for(ms.drop_first(), id)
    }
}

/// The manifests of one game, in load order.
pub open spec fn of_game(ms: Seq<ToolManifest>, game_id: Seq<char>) -> Seq<ToolManifest>
    decreases ms.len(),
{
    if ms.len() == 0 {
        Seq::empty()
    } else if ms.last().game_id@ == game_id {
        of_game(ms.drop_last(), game_id).push(ms.last())
    } else {
        of_game(ms.drop_last(), game_id)
    }
}

pub open spec fn conflict_note(id: Seq<char>) -> Seq<char> {
    "工具标识重复："@ + id
}

/// One step of loading: what the set becomes once `source` gave `outcome`.
/// An accepted manifest whose id is already taken is refused as a conflict.
pub open spec fn load_step(
    before: ManifestSetView,
    source: Seq<char>,
    outcome: Result<ToolManifest, ManifestError>,
    after: ManifestSetView,
) -> bool {
    let refused = {
        &&& after.manifests == before.manifests
        &&& after.rejected.len() == before.rejected.len() + 1
        &&& after.rejected.take(before.rejected.len() as int) == before.rejected
        &&& after.rejected.last().source@ == source
    };
    match outcome {
        Ok(m) => if id_taken(before.manifests, m.id@) {
            refused && (after.rejected.last().error matches ManifestError::Conflict { detail }
                && detail@ == conflict_note(m.id@))
        } else {
            after.manifests == before.manifests.push(m) && after.rejected == before.rejected
        },
        Err(e) => refused && after.rejected.last().error == e,
    }
}

/// `outcomes` are the parse results of the sources and `states` the set
/// after each of them, starting empty and ending at `set`.
pub open spec fn load_trace(
    sources: Seq<(Seq<char>, Seq<char>)>,
    set: ManifestSetView,
    outcomes: Seq<Result<ToolManifest, ManifestError>>,
    states: Seq<ManifestSetView>,
) -> bool {
    &&& outcomes.len() == sources.len()
    &&& states.len() == sources.len() + 1
    &&& states[0].manifests.len() == 0
    &&& states[0].rejected.len() == 0
    &&& states.last() == set
    &&& forall|i: int|
        0 <= i < sources.len() ==> manifest_parsed(sources[i].1, #[trigger] outcomes[i])
            && load_step(states[i], sources[i].0, outcomes[i], states[i + 1])
}

/// The set is what loading the sources in order gives, each source parsed
/// on its own.
pub open spec fn manifests_loaded(sources: Seq<(Seq<char>, Seq<char>)>, set: ManifestSetView) -> bool {
    exists|outcomes: Seq<Result<ToolManifest, ManifestError>>, states: Seq<ManifestSetView>|
        #[trigger] load_trace(sources, set, outcomes, states)
}

pub open spec fn source_texts(sources: Seq<(&str, &str)>) -> Seq<(Seq<char>, Seq<char>)> {
    sources.map_values(|p: (&str, &str)| (p.0@, p.1@))
}

/// Loading keeps ids unique, and every source ends up either accepted or
/// refused, never both and never lost.
pub proof fn lemma_load_step_keeps_ids_distinct(
    before: ManifestSetView,
    source: Seq<char>,
    outcome: Result<ToolManifest, ManifestError>,
    after: ManifestSetView,
)
    requires
        ids_distinct(before.manifests),
        load_step(before, source, outcome, after),
    ensures
        ids_distinct(after.manifests),
        after.manifests.len() + after.rejected.len() == before.manifests.len()
            + before.rejected.len() + 1,
{
    match outcome {
        Ok(m) => {
            if !id_taken(before.manifests, m.id@) {
                assert forall|i: int, j: int|
                    0 <= i < j < after.manifests.len() implies (#[trigger] after.manifests[i]).id@
                    != (#[trigger] after.manifests[j]).id@ by {
                    if j == before.manifests.len() {
                        assert(after.manifests[i] == before.manifests[i]);
                    } else {
                        assert(after.manifests[i] == before.manifests[i]);
                        assert(after.manifests[j] == before.manifests[j]);
                    }
                }
            }
        },
        Err(_) => {},
    }
}

proof fn lemma_manifest_for_taken(ms: Seq<ToolManifest>, id: Seq<char>)
    ensures
        manifest_for(ms, id) is Some <==> id_taken(ms, id),
        manifest_for(ms, id) matches Some(m) ==> m.id@ == id,
    decreases ms.len(),
{
    if ms.len() > 0 {
        lemma_manifest_for_taken(ms.drop_first(), id);
        if id_taken(ms, id) && ms[0].id@ != id {
            let i = choose|i: int| 0 <= i < ms.len() && (#[trigger] ms[i]).id@ == id;
            assert(ms.drop_first()[i - 1] == ms[i]);
        }
        if id_taken(ms.drop_first(), id) {
            let i = choose|i: int| 0 <= i < ms.len() - 1 && (#[trigger] ms.drop_first()[i]).id@ == id;
            assert(ms[i + 1] == ms.drop_first()[i]);
        }
    }
}

impl ManifestSet {
    /// Adds the outcome of one source.
    pub fn take_outcome(&mut self, source: &str, outcome: Result<ToolManifest, ManifestError>)
        ensures
            load_step(old(self)@, source@, outcome, final(self)@),
    {
        match outcome {
            Ok(manifest) => {
                let taken = self.get(manifest.id.as_str()).is_some();
                proof {
                    lemma_manifest_for_taken(self@.manifests, manifest.id@);
                }
                if taken {
                    let mut detail = owned("工具标识重复：");
                    append_str(&mut detail, manifest.id.as_str());
                    self.rejected.push(
                        RejectedManifest {
                            source: owned(source),
                            error: ManifestError::Conflict { detail },
                        },
                    );
                    assert(self.rejected@.take(old(self).rejected@.len() as int) =~= old(
                        self,
                    ).rejected@);
                } else {
                    self.manifests.push(manifest);
                }
            },
            Err(error) => {
                self.rejected.push(RejectedManifest { source: owned(source), error });
                assert(self.rejected@.take(old(self).rejected@.len() as int) =~= old(
                    self,
                ).rejected@);
            },
        }
    }

    /// Loads `(source name, JSON text)` pairs; a source that fails only
    /// lands in `rejected`.
    pub fn from_sources(sources: &[(&str, &str)]) -> (r: ManifestSet)
        ensures
            manifests_loaded(source_texts(sources@), r@),
            r@.manifests.len() + r@.rejected.len() == sources@.len(),
            ids_distinct(r@.manifests),
    {
        let ghost texts = source_texts(sources@);
        let mut set = ManifestSet { manifests: Vec::new(), rejected: Vec::new() };
        let ghost mut outcomes: Seq<Result<ToolManifest, ManifestError>> = Seq::empty();
        let ghost mut states: Seq<ManifestSetView> = seq![set@];
        let mut i: usize = 0;
        while i < sources.len()
            invariant
                texts == source_texts(sources@),
                i <= sources@.len(),
                outcomes.len() == i,
                states.len() == i + 1,
                states[0].manifests.len() == 0,
                states[0].rejected.len() == 0,
                states.last() == set@,
                forall|k: int|
                    0 <= k < i ==> manifest_parsed(texts[k].1, #[trigger] outcomes[k]) && load_step(
                        states[k],
                        texts[k].0,
                        outcomes[k],
                        states[k + 1],
                    ),
                set@.manifests.len() + set@.rejected.len() == i,
                ids_distinct(set@.manifests),
            decreases sources@.len() - i,
        {
            let (name, json) = sources[i];
            let outcome = ToolManifest::parse(json);
            let ghost before = set@;
            proof {
                outcomes = outcomes.push(outcome);
            }
            set.take_outcome(name, outcome);
            proof {
                lemma_load_step_keeps_ids_distinct(before, name@, outcomes.last(), set@);
                states = states.push(set@);
                assert(texts[i as int] == (name@, json@));
            }
            i = i + 1;
        }
        assert(load_trace(texts, set@, outcomes, states));
        set
    }

    /// The manifests shipped with the hub.
    pub fn builtin() -> (r: ManifestSet)
        ensures
            manifests_loaded(
                seq![
                    ("wuwa-fps-120.json"@, WUWA_FPS_MANIFEST@),
                    ("genshin-fps-unlock.json"@, GENSHIN_FPS_MANIFEST@),
                ],
                r@,
            ),
    {
        let sources: [(&str, &str); 2] = [
            ("wuwa-fps-120.json", WUWA_FPS_MANIFEST),
            ("genshin-fps-unlock.json", GENSHIN_FPS_MANIFEST),
        ];
        let r = ManifestSet::from_sources(&sources);
        assert(source_texts(sources@) =~= seq![
            ("wuwa-fps-120.json"@, WUWA_FPS_MANIFEST@),
            ("genshin-fps-unlock.json"@, GENSHIN_FPS_MANIFEST@),
        ]);
        r
    }

    pub fn manifests(&self) -> (r: &[ToolManifest])
        ensures
            r@ == self@.manifests,
    {
        self.manifests.as_slice()
    }

    pub fn rejected(&self) -> (r: &[RejectedManifest])
        ensures
            r@ == self@.rejected,
    {
        self.rejected.as_slice()
    }

    /// The manifest with the id.
    pub fn get(&self, tool_id: &str) -> (r: Option<&ToolManifest>)
        ensures
            match r {
                Some(m) => manifest_for(self@.manifests, tool_id@) == Some(*m),
                None => manifest_for(self@.manifests, tool_id@) is None,
            },
    {
        let mut i: usize = 0;
        assert(self.manifests@.skip(0) =~= self.manifests@);
        while i < self.manifests.len()
            invariant
                i <= self.manifests.len(),
                self@.manifests == self.manifests@,
                manifest_for(self.manifests@, tool_id@) == manifest_for(
                    self.manifests@.skip(i as int),
                    tool_id@,
                ),
            decreases self.manifests.len() - i,
        {
            let m = &self.manifests[i];
            assert(self.manifests@.skip(i as int)[0] == self.manifests@[i as int]);
            if str_eq(m.id.as_str(), tool_id) {
                return Some(m);
            }
            assert(self.manifests@.skip(i as int).drop_first() =~= self.manifests@.skip(i + 1));
            i = i + 1;
        }
        None
    }

    /// The tools of one game, in load order.
    pub fn for_game(&self, game_id: &str) -> (r: Vec<&ToolManifest>)
        ensures
            r@.map_values(|m: &ToolManifest| *m) == of_game(self@.manifests, game_id@),
    {
        let mut out: Vec<&ToolManifest> = Vec::new();
        let mut i: usize = 0;
        while i < self.manifests.len()
            invariant
                i <= self.manifests.len(),
                self@.manifests == self.manifests@,
                out@.map_values(|m: &ToolManifest| *m) == of_game(
                    self.manifests@.take(i as int),
                    game_id@,
                ),
            decreases self.manifests.len() - i,
        {
            let m = &self.manifests[i];
            assert(self.manifests@.take(i + 1).drop_last() =~= self.manifests@.take(i as int));
            if str_eq(m.game_id.as_str(), game_id) {
                out.push(m);
            }
            i = i + 1;
            assert(out@.map_values(|m: &ToolManifest| *m) =~= of_game(
                self.manifests@.take(i as int),
                game_id@,
            ));
        }
        assert(self.manifests@.take(i as int) =~= self.manifests@);
        out
    }

    /// The accepted manifests, in load order.
    pub fn iter(&self) -> (r: &[ToolManifest])
        ensures
            r@ == self@.manifests,
    {
        self.manifests.as_slice()
    }

    pub fn len(&self) -> (r: usize)
        ensures
            r == self@.manifests.len(),
    {
        self.manifests.len()
    }

    pub fn is_empty(&self) -> (r: bool)
        ensures
            r == (self@.manifests.len() == 0),
    {
        self.manifests.len() == 0
    }

    /// Whether some tool is hidden because its data was refused.
    pub fn is_degraded(&self) -> (r: bool)
        ensures
            r == (self@.rejected.len() > 0),
    {
        self.rejected.len() > 0
    }
}

/// The manifest of the built-in frame-rate tool.
pub const WUWA_FPS_MANIFEST: &'static str = "{
  \"id\": \"orbis-builtin/wuwa-fps-120\",
  \"game\": \"wuthering-waves\",
  \"name\": \"120 帧解锁\",
  \"description\": \"修改游戏配置中的帧率上限，解锁 120 帧。\",
  \"version\": \"0.1.0\",
  \"type\": \"config_modify\",
  \"risk_level\": \"L1\",
  \"permissions\": [\"read_config\", \"write_config\"],
  \"requires_admin\": false,
  \"backup_required\": true,
  \"entry\": { \"executor\": \"wuwa_fps\" },
  \"source\": { \"kind\": \"builtin\", \"repo\": null, \"license\": null, \"version\": null },
  \"pending_verifications\": [\"T4a\", \"T4b\"]
}";

/// The manifest of the bundled frame-rate unlocker.
pub const GENSHIN_FPS_MANIFEST: &'static str = "{
  \"id\": \"orbis-bundled/genshin-fps-unlock\",
  \"game\": \"genshin-impact\",
  \"name\": \"帧率解锁\",
  \"description\": \"以独立进程解除帧率上限，不改动游戏文件。\",
  \"version\": \"0.1.0\",
  \"type\": \"external_process\",
  \"risk_level\": \"L3\",
  \"permissions\": [\"launch_external\", \"process_attach\"],
  \"requires_admin\": true,
  \"backup_required\": false,
  \"entry\": { \"executor\": \"unlocker\", \"asset\": \"genshin-fps-unlock\", \"channel\": \"releases\" },
  \"source\": { \"kind\": \"upstream\", \"repo\": \"34736384/genshin-fps-unlock\", \"license\": \"MIT\", \"version\": null },
  \"pending_verifications\": [\"T7\"]
}";

} // verus!

//! The asset catalog of separately shipped unlockers.
//!
//! An asset with no artifacts is a legal state (its build pipeline is not
//! settled): the tool stays visible and only its download is "not
//! configured".  A broken catalog degrades to the empty catalog.

use vstd::prelude::*;

use crate::json::{
    count_of, elements, fields, found, has_opt_text, has_text, is_count, is_list, is_object,
    is_opt_text, is_text, items_of, json_outcome, keys_listed, keys_within, lookup, member,
    members_of, opt_text_of, opt_text_value, opt_text_view, parse_json, shape_mismatch_note,
    shape_mismatch_text, text_of, text_value, JsonValue,
};
use crate::text::{
    append_str, chars_of, decimal_chars, is_blank, is_blank_str, owned, push_decimal,
    push_quoted, debug_form, str_eq,
};
use crate::tool::{is_valid_tool_id, valid_tool_id};

verus! {

/// Why a catalog was not loaded.
#[derive(Debug, Clone, PartialEq, Eq)]
pub enum AssetError {
    Malformed { detail: String },
    UnsupportedSchema { found: String, expected: &'static str },
    InvalidEntry { index: usize, detail: String },
}

impl AssetError {
    /// The message shown for the error.
    pub open spec fn text(&self) -> Seq<char> {
        match self {
            AssetError::Malformed { detail } => "assets.json 结构非法："@ + detail@,
            AssetError::UnsupportedSchema { found, expected } => "assets schema_version 不符：文件为 "@
                + debug_form(found@) + "，加载器支持 "@ + debug_form(expected@),
            AssetError::InvalidEntry { index, detail } => "assets["@ + decimal_chars(*index as nat)
                + "] 非法："@ + detail@,
        }
    }

    pub fn to_string(&self) -> (r: String)
        ensures
            r@ == self.text(),
    {
        match self {
            AssetError::Malformed { detail } => {
                let mut m = owned("assets.json 结构非法：");
                append_str(&mut m, detail.as_str());
                m
            },
            AssetError::UnsupportedSchema { found, expected } => {
                let mut m = owned("assets schema_version 不符：文件为 ");
                push_quoted(&mut m, found.as_str());
                append_str(&mut m, "，加载器支持 ");
                push_quoted(&mut m, expected);
                m
            },
            AssetError::InvalidEntry { index, detail } => {
                let mut m = owned("assets[");
                push_decimal(&mut m, *index as u64);
                append_str(&mut m, "] 非法：");
                append_str(&mut m, detail.as_str());
                m
            },
        }
    }
}

/// How an artifact is packaged.
#[derive(Debug, Clone, Copy, PartialEq, Eq, Structural)]
pub enum Packaging {
    SelfContained,
    FrameworkDependent,
}

impl Packaging {
    pub open spec fn slug_text(self) -> Seq<char> {
        match self {
            Packaging::SelfContained => "self-contained"@,
            Packaging::FrameworkDependent => "framework-dependent"@,
        }
    }

    pub open spec fn parse_text(s: Seq<char>) -> Option<Packaging> {
        if s == "self-contained"@ {
            Some(Packaging::SelfContained)
        } else if s == "framework-dependent"@ {
            Some(Packaging::FrameworkDependent)
        } else {
            None
        }
    }

    pub fn slug(self) -> (r: &'static str)
        ensures
            r@ == self.slug_text(),
    {
        match self {
            Packaging::SelfContained => "self-contained",
            Packaging::FrameworkDependent => "framework-dependent",
        }
    }

    pub fn from_slug(slug: &str) -> (r: Option<Packaging>)
        ensures
            r == Packaging::parse_text(slug@),
    {
        if str_eq(slug, "self-contained") {
            Some(Packaging::SelfContained)
        } else if str_eq(slug, "framework-dependent") {
            Some(Packaging::FrameworkDependent)
        } else {
            None
        }
    }
}

/// Reading a packaging's slug gives the packaging back.
pub proof fn lemma_packaging_roundtrip(p: Packaging)
    ensures
        Packaging::parse_text(p.slug_text()) == Some(p),
{
    reveal_strlit("self-contained");
    reveal_strlit("framework-dependent");
    assert("self-contained"@.len() != "framework-dependent"@.len());
}

/// Upstream attribution.
#[derive(Debug, Clone, PartialEq, Eq)]
pub struct UpstreamRef {
    pub repo: String,
    pub license: String,
    pub version: String,
}

/// One downloadable build.
#[derive(Debug, Clone, PartialEq, Eq)]
pub struct Artifact {
    pub platform: String,
    pub version: String,
    pub url: String,
    /// 64 lowercase hexadecimal digits.
    pub sha256: String,
    /// Bytes; used for the free-space check before a download.
    pub size: u64,
    pub packaging: Option<Packaging>,
}

/// The full definition of one asset key.
#[derive(Debug, Clone, PartialEq, Eq)]
pub struct AssetEntry {
    /// The key a manifest's `entry.asset` names.
    pub asset_key: String,
    pub tool_id: String,
    pub channel: String,
    pub upstream: UpstreamRef,
    /// Empty while the build pipeline is not settled.
    pub artifacts: Vec<Artifact>,
}

impl AssetEntry {
    /// Whether there is something to download.
    pub fn has_downloadable_artifact(&self) -> (r: bool)
        ensures
            r == (self.artifacts@.len() > 0),
    {
        self.artifacts.len() > 0
    }
}

/// The loaded catalog; `schema_version` is `None` in the degraded state.
#[derive(Debug, Clone, PartialEq, Eq)]
pub struct AssetCatalog {
    schema_version: Option<String>,
    updated_at: Option<String>,
    note: Option<String>,
    assets: Vec<AssetEntry>,
}

pub struct AssetCatalogView {
    pub schema_version: Option<Seq<char>>,
    pub updated_at: Option<Seq<char>>,
    pub note: Option<Seq<char>>,
    pub assets: Seq<AssetEntry>,
}

impl View for AssetCatalog {
    type V = AssetCatalogView;

    closed spec fn view(&self) -> AssetCatalogView {
        AssetCatalogView {
            schema_version: opt_text_view(self.schema_version),
            updated_at: opt_text_view(self.updated_at),
            note: opt_text_view(self.note),
            assets: self.assets@,
        }
    }
}

// ── The shape of the file ─────────────────────────────────────────────

pub open spec fn catalog_fields() -> Seq<&'static str> {
    seq!["schema_version", "updated_at", "note", "assets"]
}

pub open spec fn asset_fields() -> Seq<&'static str> {
    seq!["asset_key", "tool_id", "channel", "upstream", "artifacts"]
}

pub open spec fn upstream_fields() -> Seq<&'static str> {
    seq!["repo", "license", "version"]
}

pub open spec fn artifact_fields() -> Seq<&'static str> {
    seq!["platform", "version", "url", "sha256", "size", "packaging"]
}

pub open spec fn nested(v: Option<JsonValue>) -> Seq<(String, JsonValue)> {
    match v {
        Some(x) => fields(x),
        None => Seq::empty(),
    }
}

pub open spec fn artifact_shape(v: JsonValue) -> bool {
    let ms = fields(v);
    &&& v is Object
    &&& keys_listed(ms, artifact_fields())
    &&& is_text(member(ms, "platform"@))
    &&& is_text(member(ms, "version"@))
    &&& is_text(member(ms, "url"@))
    &&& is_text(member(ms, "sha256"@))
    &&& is_count(member(ms, "size"@))
    &&& is_opt_text(member(ms, "packaging"@))
}

pub open spec fn upstream_shape(v: Option<JsonValue>) -> bool {
    let ms = nested(v);
    &&& is_object(v)
    &&& keys_listed(ms, upstream_fields())
    &&& is_text(member(ms, "repo"@))
    &&& is_text(member(ms, "license"@))
    &&& is_text(member(ms, "version"@))
}

pub open spec fn asset_artifacts(v: JsonValue) -> Seq<JsonValue> {
    elements(member(fields(v), "artifacts"@))
}

pub open spec fn asset_shape(v: JsonValue) -> bool {
    let ms = fields(v);
    &&& v is Object
    &&& keys_listed(ms, asset_fields())
    &&& is_text(member(ms, "asset_key"@))
    &&& is_text(member(ms, "tool_id"@))
    &&& is_text(member(ms, "channel"@))
    &&& upstream_shape(member(ms, "upstream"@))
    &&& is_list(member(ms, "artifacts"@))
    &&& forall|i: int|
        0 <= i < asset_artifacts(v).len() ==> artifact_shape(#[trigger] asset_artifacts(v)[i])
}

pub open spec fn catalog_assets(v: JsonValue) -> Seq<JsonValue> {
    elements(member(fields(v), "assets"@))
}

pub open spec fn catalog_schema(v: JsonValue) -> Seq<char> {
    text_of(member(fields(v), "schema_version"@))
}

pub open spec fn catalog_shape(v: JsonValue) -> bool {
    let ms = fields(v);
    &&& v is Object
    &&& keys_listed(ms, catalog_fields())
    &&& is_text(member(ms, "schema_version"@))
    &&& is_text(member(ms, "updated_at"@))
    &&& is_opt_text(member(ms, "note"@))
    &&& is_list(member(ms, "assets"@))
    &&& forall|i: int| 0 <= i < catalog_assets(v).len() ==> asset_shape(#[trigger] catalog_assets(v)[i])
}

// ── The rules ─────────────────────────────────────────────────────────

/// A lowercase hexadecimal digit.
pub open spec fn is_hex_lower(c: char) -> bool {
    ('0' <= c && c <= '9') || ('a' <= c && c <= 'f')
}

/// 64 lowercase hexadecimal digits.
pub open spec fn sha256_hex(s: Seq<char>) -> bool {
    s.len() == 64 && forall|i: int| 0 <= i < s.len() ==> is_hex_lower(#[trigger] s[i])
}

/// Whether `value` is a SHA-256 digest written in lowercase hexadecimal.
pub fn is_sha256_hex(value: &str) -> (r: bool)
    ensures
        r == sha256_hex(value@),
{
    let cs = chars_of(value);
    if cs.len() != 64 {
        return false;
    }
    let mut i: usize = 0;
    while i < cs.len()
        invariant
            cs@ == value@,
            i <= cs.len(),
            forall|j: int| 0 <= j < i ==> is_hex_lower(#[trigger] cs@[j]),
        decreases cs.len() - i,
    {
        let c = cs[i];
        if !((c >= '0' && c <= '9') || (c >= 'a' && c <= 'f')) {
            return false;
        }
        i = i + 1;
    }
    true
}

pub open spec fn artifact_lead(pos: int) -> Seq<char> {
    "artifacts["@ + decimal_chars(pos as nat) + "] "@
}

/// The first rule an artifact breaks, as its message.
pub open spec fn artifact_problem(pos: int, v: JsonValue) -> Option<Seq<char>> {
    let ms = fields(v);
    let platform = text_of(member(ms, "platform"@));
    let sha = text_of(member(ms, "sha256"@));
    let packaging = opt_text_of(member(ms, "packaging"@));
    if platform != "windows-x64"@ {
        Some(
            artifact_lead(pos) + "platform 不支持："@ + debug_form(platform)
                + "（MVP 仅 [\"windows-x64\"]）"@,
        )
    } else if !sha256_hex(sha) {
        Some(artifact_lead(pos) + "sha256 须为 64 位小写十六进制："@ + debug_form(sha))
    } else if count_of(member(ms, "size"@)) == 0 {
        Some(artifact_lead(pos) + "size 必须为正数（schema minimum: 1）"@)
    } else if is_blank(text_of(member(ms, "url"@))) {
        Some(artifact_lead(pos) + "url 不得为空"@)
    } else if packaging is Some && Packaging::parse_text(packaging.unwrap()) is None {
        Some(artifact_lead(pos) + "packaging 非法："@ + debug_form(packaging.unwrap()))
    } else {
        None
    }
}

pub open spec fn first_artifact_problem(arts: Seq<JsonValue>, from: int) -> Option<Seq<char>>
    decreases arts.len() - from,
{
    if from < 0 || from >= arts.len() {
        None
    } else {
        match artifact_problem(from, arts[from]) {
            Some(p) => Some(p),
            None => first_artifact_problem(arts, from + 1),
        }
    }
}

/// The first rule an asset breaks, as its message.
pub open spec fn asset_problem(v: JsonValue) -> Option<Seq<char>> {
    let ms = fields(v);
    let up = nested(member(ms, "upstream"@));
    let tool_id = text_of(member(ms, "tool_id"@));
    let channel = text_of(member(ms, "channel"@));
    if is_blank(text_of(member(ms, "asset_key"@))) {
        Some("asset_key 不得为空"@)
    } else if !valid_tool_id(tool_id) {
        Some("tool_id 须为 namespace/name 形态："@ + debug_form(tool_id))
    } else if channel != "releases"@ {
        Some("channel 仅支持 releases："@ + debug_form(channel))
    } else if is_blank(text_of(member(up, "repo"@))) || is_blank(text_of(member(up, "license"@))) {
        Some("upstream.repo / upstream.license 不得为空（00 §8.6 署名义务）"@)
    } else {
        first_artifact_problem(asset_artifacts(v), 0)
    }
}

pub open spec fn artifact_built(a: Artifact, v: JsonValue) -> bool {
    let ms = fields(v);
    let packaging = opt_text_of(member(ms, "packaging"@));
    &&& a.platform@ == text_of(member(ms, "platform"@))
    &&& a.version@ == text_of(member(ms, "version"@))
    &&& a.url@ == text_of(member(ms, "url"@))
    &&& a.sha256@ == text_of(member(ms, "sha256"@))
    &&& a.size == count_of(member(ms, "size"@))
    &&& a.packaging == (match packaging {
        Some(p) => Packaging::parse_text(p),
        None => None,
    })
}

pub open spec fn asset_built(e: AssetEntry, v: JsonValue) -> bool {
    let ms = fields(v);
    let up = nested(member(ms, "upstream"@));
    &&& e.asset_key@ == text_of(member(ms, "asset_key"@))
    &&& e.tool_id@ == text_of(member(ms, "tool_id"@))
    &&& e.channel@ == text_of(member(ms, "channel"@))
    &&& e.upstream.repo@ == text_of(member(up, "repo"@))
    &&& e.upstream.license@ == text_of(member(up, "license"@))
    &&& e.upstream.version@ == text_of(member(up, "version"@))
    &&& e.artifacts@.len() == asset_artifacts(v).len()
    &&& forall|i: int|
        0 <= i < asset_artifacts(v).len() ==> artifact_built(
            #[trigger] e.artifacts@[i],
            asset_artifacts(v)[i],
        )
}

pub open spec fn first_asset_problem(es: Seq<JsonValue>, from: int) -> Option<(int, Seq<char>)>
    decreases es.len() - from,
{
    if from < 0 || from >= es.len() {
        None
    } else {
        match asset_problem(es[from]) {
            Some(p) => Some((from, p)),
            None => first_asset_problem(es, from + 1),
        }
    }
}

/// What decoding a parsed catalog gives.
pub open spec fn catalog_decoded(v: JsonValue, r: Result<AssetCatalog, AssetError>) -> bool {
    match r {
        Err(AssetError::Malformed { detail }) => !catalog_shape(v) && detail@ == shape_mismatch_note(),
        Err(AssetError::UnsupportedSchema { found, expected }) => {
            &&& catalog_shape(v)
            &&& catalog_schema(v) != "0.1.0"@
            &&& found@ == catalog_schema(v)
            &&& expected@ == "0.1.0"@
        },
        Err(AssetError::InvalidEntry { index, detail }) => {
            &&& catalog_shape(v)
            &&& catalog_schema(v) == "0.1.0"@
            &&& first_asset_problem(catalog_assets(v), 0) == Some((index as int, detail@))
        },
        Ok(c) => {
            &&& catalog_shape(v)
            &&& catalog_schema(v) == "0.1.0"@
            &&& first_asset_problem(catalog_assets(v), 0) is None
            &&& c@.schema_version == Some("0.1.0"@)
            &&& c@.updated_at == Some(text_of(member(fields(v), "updated_at"@)))
            &&& c@.note == opt_text_of(member(fields(v), "note"@))
            &&& c@.assets.len() == catalog_assets(v).len()
            &&& forall|i: int|
                0 <= i < catalog_assets(v).len() ==> asset_built(
                    #[trigger] c@.assets[i],
                    catalog_assets(v)[i],
                )
        },
    }
}

/// What loading a catalog text gives.
pub open spec fn catalog_parsed(text: Seq<char>, r: Result<AssetCatalog, AssetError>) -> bool {
    match json_outcome(text) {
        Err(e) => r matches Err(AssetError::Malformed { detail }) && detail@ == e,
        Ok(v) => catalog_decoded(v, r),
    }
}

/// The asset with the key: the first that has it.
pub open spec fn asset_for(es: Seq<AssetEntry>, key: Seq<char>) -> Option<AssetEntry>
    decreases es.len(),
{
    if es.len() == 0 {
        None
    } else if es[0].asset_key@ == key {
        Some(es[0])
    } else {
        asset_for(es.drop_first(), key)
    }
}

/// The asset exists and has something to download.
pub open spec fn download_configured(es: Seq<AssetEntry>, key: Seq<char>) -> bool {
    asset_for(es, key) matches Some(e) && e.artifacts@.len() > 0
}

// ── Shape checks ──────────────────────────────────────────────────────

fn artifact_shape_ok(v: &JsonValue) -> (r: bool)
    ensures
        r == artifact_shape(*v),
{
    match v {
        JsonValue::Object(ms) => {
            let allowed: Vec<&str> = vec!["platform", "version", "url", "sha256", "size", "packaging"];
            assert(allowed@ =~= artifact_fields());
            let size_ok = match lookup(ms, "size") {
                Some(JsonValue::Number(Some(n))) => *n >= 0 && *n <= 18446744073709551615i128,
                _ => false,
            };
            keys_within(ms, &allowed) && has_text(lookup(ms, "platform")) && has_text(
                lookup(ms, "version"),
            ) && has_text(lookup(ms, "url")) && has_text(lookup(ms, "sha256")) && size_ok
                && has_opt_text(lookup(ms, "packaging"))
        },
        _ => false,
    }
}

fn upstream_shape_ok(v: Option<&JsonValue>) -> (r: bool)
    ensures
        r == upstream_shape(found(v)),
{
    match v {
        Some(JsonValue::Object(ms)) => {
            let allowed: Vec<&str> = vec!["repo", "license", "version"];
            assert(allowed@ =~= upstream_fields());
            keys_within(ms, &allowed) && has_text(lookup(ms, "repo")) && has_text(
                lookup(ms, "license"),
            ) && has_text(lookup(ms, "version"))
        },
        _ => false,
    }
}

fn asset_shape_ok(v: &JsonValue) -> (r: bool)
    ensures
        r == asset_shape(*v),
{
    match v {
        JsonValue::Object(ms) => {
            let allowed: Vec<&str> = vec!["asset_key", "tool_id", "channel", "upstream", "artifacts"];
            assert(allowed@ =~= asset_fields());
            if !(keys_within(ms, &allowed) && has_text(lookup(ms, "asset_key")) && has_text(
                lookup(ms, "tool_id"),
            ) && has_text(lookup(ms, "channel")) && upstream_shape_ok(lookup(ms, "upstream"))) {
                return false;
            }
            match lookup(ms, "artifacts") {
                Some(JsonValue::Array(arts)) => {
                    assert(asset_artifacts(*v) == arts@);
                    let mut i: usize = 0;
                    while i < arts.len()
                        invariant
                            asset_artifacts(*v) == arts@,
                            i <= arts.len(),
                            forall|k: int| 0 <= k < i ==> artifact_shape(#[trigger] arts@[k]),
                        decreases arts.len() - i,
                    {
                        if !artifact_shape_ok(&arts[i]) {
                            return false;
                        }
                        i = i + 1;
                    }
                    true
                },
                _ => false,
            }
        },
        _ => false,
    }
}

fn catalog_shape_ok(v: &JsonValue) -> (r: bool)
    ensures
        r == catalog_shape(*v),
{
    match v {
        JsonValue::Object(ms) => {
            let allowed: Vec<&str> = vec!["schema_version", "updated_at", "note", "assets"];
            assert(allowed@ =~= catalog_fields());
            if !(keys_within(ms, &allowed) && has_text(lookup(ms, "schema_version")) && has_text(
                lookup(ms, "updated_at"),
            ) && has_opt_text(lookup(ms, "note"))) {
                return false;
            }
            match lookup(ms, "assets") {
                Some(JsonValue::Array(es)) => {
                    assert(catalog_assets(*v) == es@);
                    let mut i: usize = 0;
                    while i < es.len()
                        invariant
                            catalog_assets(*v) == es@,
                            i <= es.len(),
                            forall|k: int| 0 <= k < i ==> asset_shape(#[trigger] es@[k]),
                        decreases es.len() - i,
                    {
                        if !asset_shape_ok(&es[i]) {
                            return false;
                        }
                        i = i + 1;
                    }
                    true
                },
                _ => false,
            }
        },
        _ => false,
    }
}

// ── Conversion ────────────────────────────────────────────────────────

fn lead_quoted(lead: &str, value: &str) -> (r: String)
    ensures
        r@ == lead@ + debug_form(value@),
{
    let mut m = owned(lead);
    push_quoted(&mut m, value);
    m
}

fn artifact_lead_text(pos: usize) -> (r: String)
    ensures
        r@ == artifact_lead(pos as int),
{
    let mut m = owned("artifacts[");
    push_decimal(&mut m, pos as u64);
    append_str(&mut m, "] ");
    m
}

fn convert_artifact(pos: usize, v: &JsonValue) -> (r: Result<Artifact, String>)
    requires
        artifact_shape(*v),
    ensures
        match r {
            Ok(a) => artifact_problem(pos as int, *v) is None && artifact_built(a, *v),
            Err(d) => artifact_problem(pos as int, *v) == Some(d@),
        },
{
    let ms = members_of(v);
    let platform = text_value(lookup(ms, "platform")).unwrap();
    let version = text_value(lookup(ms, "version")).unwrap();
    let url = text_value(lookup(ms, "url")).unwrap();
    let sha256 = text_value(lookup(ms, "sha256")).unwrap();
    let size: u64 = match lookup(ms, "size") {
        Some(JsonValue::Number(Some(n))) => *n as u64,
        _ => 0,
    };
    let packaging_text = opt_text_value(lookup(ms, "packaging")).unwrap();
    if !str_eq(platform.as_str(), "windows-x64") {
        let mut d = artifact_lead_text(pos);
        append_str(&mut d, "platform 不支持：");
        push_quoted(&mut d, platform.as_str());
        append_str(&mut d, "（MVP 仅 [\"windows-x64\"]）");
        return Err(d);
    }
    if !is_sha256_hex(sha256.as_str()) {
        let mut d = artifact_lead_text(pos);
        append_str(&mut d, "sha256 须为 64 位小写十六进制：");
        push_quoted(&mut d, sha256.as_str());
        return Err(d);
    }
    if size == 0 {
        let mut d = artifact_lead_text(pos);
        append_str(&mut d, "size 必须为正数（schema minimum: 1）");
        return Err(d);
    }
    if is_blank_str(url.as_str()) {
        let mut d = artifact_lead_text(pos);
        append_str(&mut d, "url 不得为空");
        return Err(d);
    }
    let packaging = match &packaging_text {
        None => None,
        Some(slug) => match Packaging::from_slug(slug.as_str()) {
            Some(p) => Some(p),
            None => {
                let mut d = artifact_lead_text(pos);
                append_str(&mut d, "packaging 非法：");
                push_quoted(&mut d, slug.as_str());
                return Err(d);
            },
        },
    };
    Ok(Artifact { platform, version, url, sha256, size, packaging })
}

fn convert_asset(index: usize, v: &JsonValue) -> (r: Result<AssetEntry, AssetError>)
    requires
        asset_shape(*v),
    ensures
        match r {
            Ok(e) => asset_problem(*v) is None && asset_built(e, *v),
            Err(AssetError::InvalidEntry { index: i, detail }) => i == index && asset_problem(*v)
                == Some(detail@),
            Err(_) => false,
        },
{
    let ms = members_of(v);
    let asset_key = text_value(lookup(ms, "asset_key")).unwrap();
    let tool_id = text_value(lookup(ms, "tool_id")).unwrap();
    let channel = text_value(lookup(ms, "channel")).unwrap();
    let up = members_of(lookup(ms, "upstream").unwrap());
    let repo = text_value(lookup(up, "repo")).unwrap();
    let license = text_value(lookup(up, "license")).unwrap();
    let up_version = text_value(lookup(up, "version")).unwrap();
    if is_blank_str(asset_key.as_str()) {
        return Err(AssetError::InvalidEntry { index, detail: owned("asset_key 不得为空") });
    }
    if !is_valid_tool_id(tool_id.as_str()) {
        return Err(
            AssetError::InvalidEntry {
                index,
                detail: lead_quoted("tool_id 须为 namespace/name 形态：", tool_id.as_str()),
            },
        );
    }
    if !str_eq(channel.as_str(), "releases") {
        return Err(
            AssetError::InvalidEntry {
                index,
                detail: lead_quoted("channel 仅支持 releases：", channel.as_str()),
            },
        );
    }
    if is_blank_str(repo.as_str()) || is_blank_str(license.as_str()) {
        return Err(
            AssetError::InvalidEntry {
                index,
                detail: owned("upstream.repo / upstream.license 不得为空（00 §8.6 署名义务）"),
            },
        );
    }
    let arts = items_of(lookup(ms, "artifacts"));
    assert(arts@ == asset_artifacts(*v));
    let mut artifacts: Vec<Artifact> = Vec::new();
    let mut pos: usize = 0;
    while pos < arts.len()
        invariant
            asset_shape(*v),
            arts@ == asset_artifacts(*v),
            asset_problem(*v) == first_artifact_problem(arts@, 0),
            pos <= arts.len(),
            first_artifact_problem(arts@, 0) == first_artifact_problem(arts@, pos as int),
            artifacts@.len() == pos,
            forall|k: int| 0 <= k < pos ==> artifact_built(#[trigger] artifacts@[k], arts@[k]),
        decreases arts.len() - pos,
    {
        assert(artifact_shape(asset_artifacts(*v)[pos as int]));
        match convert_artifact(pos, &arts[pos]) {
            Ok(a) => {
                artifacts.push(a);
            },
            Err(detail) => {
                return Err(AssetError::InvalidEntry { index, detail });
            },
        }
        pos = pos + 1;
    }
    Ok(
        AssetEntry {
            asset_key,
            tool_id,
            channel,
            upstream: UpstreamRef { repo, license, version: up_version },
            artifacts,
        },
    )
}

impl AssetCatalog {
    /// The empty catalog: the degraded state, in which nothing can be downloaded.
    pub fn empty() -> (r: AssetCatalog)
        ensures
            r@.schema_version is None,
            r@.updated_at is None,
            r@.note is None,
            r@.assets.len() == 0,
    {
        AssetCatalog { schema_version: None, updated_at: None, note: None, assets: Vec::new() }
    }

    /// Decodes and checks a parsed catalog.
    pub fn from_json(doc: &JsonValue) -> (r: Result<AssetCatalog, AssetError>)
        ensures
            catalog_decoded(*doc, r),
    {
        if !catalog_shape_ok(doc) {
            return Err(AssetError::Malformed { detail: shape_mismatch_text() });
        }
        let ms = members_of(doc);
        let schema = text_value(lookup(ms, "schema_version")).unwrap();
        if !str_eq(schema.as_str(), SUPPORTED_SCHEMA_VERSION) {
            return Err(
                AssetError::UnsupportedSchema {
                    found: schema,
                    expected: SUPPORTED_SCHEMA_VERSION,
                },
            );
        }
        let updated_at = text_value(lookup(ms, "updated_at")).unwrap();
        let note = opt_text_value(lookup(ms, "note")).unwrap();
        let es = items_of(lookup(ms, "assets"));
        assert(es@ == catalog_assets(*doc));
        let mut assets: Vec<AssetEntry> = Vec::new();
        let mut i: usize = 0;
        while i < es.len()
            invariant
                catalog_shape(*doc),
                catalog_schema(*doc) == "0.1.0"@,
                es@ == catalog_assets(*doc),
                i <= es.len(),
                first_asset_problem(es@, 0) == first_asset_problem(es@, i as int),
                assets@.len() == i,
                forall|k: int| 0 <= k < i ==> asset_built(#[trigger] assets@[k], es@[k]),
            decreases es.len() - i,
        {
            assert(asset_shape(catalog_assets(*doc)[i as int]));
            match convert_asset(i, &es[i]) {
                Ok(e) => {
                    assets.push(e);
                },
                Err(e) => {
                    return Err(e);
                },
            }
            i = i + 1;
        }
        Ok(AssetCatalog { schema_version: Some(schema), updated_at: Some(updated_at), note, assets })
    }

    /// Parses a catalog text.
    pub fn parse(json: &str) -> (r: Result<AssetCatalog, AssetError>)
        ensures
            catalog_parsed(json@, r),
    {
        match parse_json(json) {
            Ok(doc) => AssetCatalog::from_json(&doc),
            Err(detail) => Err(AssetError::Malformed { detail }),
        }
    }

    /// Parses, and degrades to the empty catalog on any failure, handing the
    /// reason back.
    pub fn parse_or_degraded(json: &str) -> (r: (AssetCatalog, Option<AssetError>))
        ensures
            match r.1 {
                None => catalog_parsed(json@, Ok(r.0)),
                Some(e) => catalog_parsed(json@, Err(e)) && r.0@.schema_version is None
                    && r.0@.updated_at is None && r.0@.note is None && r.0@.assets.len() == 0,
            },
    {
        match AssetCatalog::parse(json) {
            Ok(c) => (c, None),
            Err(err) => (AssetCatalog::empty(), Some(err)),
        }
    }

    /// The catalog shipped with the hub.
    pub fn builtin() -> (r: Result<AssetCatalog, AssetError>)
        ensures
            catalog_parsed(BUILTIN_ASSETS@, r),
    {
        AssetCatalog::parse(BUILTIN_ASSETS)
    }

    /// The shipped catalog, or the empty catalog and the reason.
    pub fn builtin_or_degraded() -> (r: (AssetCatalog, Option<AssetError>))
        ensures
            match r.1 {
                None => catalog_parsed(BUILTIN_ASSETS@, Ok(r.0)),
                Some(e) => catalog_parsed(BUILTIN_ASSETS@, Err(e)) && r.0@.schema_version is None
                    && r.0@.updated_at is None && r.0@.note is None && r.0@.assets.len() == 0,
            },
    {
        AssetCatalog::parse_or_degraded(BUILTIN_ASSETS)
    }

    pub fn schema_version(&self) -> (r: Option<&str>)
        ensures
            match r {
                Some(s) => self@.schema_version == Some(s@),
                None => self@.schema_version is None,
            },
    {
        match &self.schema_version {
            Some(s) => Some(s.as_str()),
            None => None,
        }
    }

    pub fn updated_at(&self) -> (r: Option<&str>)
        ensures
            match r {
                Some(s) => self@.updated_at == Some(s@),
                None => self@.updated_at is None,
            },
    {
        match &self.updated_at {
            Some(s) => Some(s.as_str()),
            None => None,
        }
    }

    pub fn note(&self) -> (r: Option<&str>)
        ensures
            match r {
                Some(s) => self@.note == Some(s@),
                None => self@.note is None,
            },
    {
        match &self.note {
            Some(s) => Some(s.as_str()),
            None => None,
        }
    }

    pub fn entries(&self) -> (r: &[AssetEntry])
        ensures
            r@ == self@.assets,
    {
        self.assets.as_slice()
    }

    pub fn is_empty(&self) -> (r: bool)
        ensures
            r == (self@.assets.len() == 0),
    {
        self.assets.len() == 0
    }

    pub fn is_degraded(&self) -> (r: bool)
        ensures
            r == (self@.schema_version is None),
    {
        self.schema_version.is_none()
    }

    /// The asset with the key.
    pub fn get(&self, asset_key: &str) -> (r: Option<&AssetEntry>)
        ensures
            match r {
                Some(e) => asset_for(self@.assets, asset_key@) == Some(*e),
                None => asset_for(self@.assets, asset_key@) is None,
            },
    {
        let mut i: usize = 0;
        assert(self.assets@.skip(0) =~= self.assets@);
        while i < self.assets.len()
            invariant
                i <= self.assets.len(),
                self@.assets == self.assets@,
                asset_for(self.assets@, asset_key@) == asset_for(
                    self.assets@.skip(i as int),
                    asset_key@,
                ),
            decreases self.assets.len() - i,
        {
            let e = &self.assets[i];
            assert(self.assets@.skip(i as int)[0] == self.assets@[i as int]);
            if str_eq(e.asset_key.as_str(), asset_key) {
                return Some(e);
            }
            assert(self.assets@.skip(i as int).drop_first() =~= self.assets@.skip(i + 1));
            i = i + 1;
        }
        None
    }

    /// Whether the asset exists and has something to download; `false` is
    /// shown as "not configured", not as an error.
    pub fn download_url_configured(&self, asset_key: &str) -> (r: bool)
        ensures
            r == download_configured(self@.assets, asset_key@),
    {
        match self.get(asset_key) {
            Some(e) => e.has_downloadable_artifact(),
            None => false,
        }
    }
}

/// The schema version this loader reads.
pub const SUPPORTED_SCHEMA_VERSION: &'static str = "0.1.0";

/// The catalog text shipped with the hub.
pub const BUILTIN_ASSETS: &'static str = "{
  \"schema_version\": \"0.1.0\",
  \"updated_at\": \"2026-09-18\",
  \"note\": \"artifacts 为空 = 构建管道未定稿\",
  \"assets\": [
    {
      \"asset_key\": \"genshin-fps-unlock\",
      \"tool_id\": \"orbis-bundled/genshin-fps-unlock\",
      \"channel\": \"releases\",
      \"upstream\": { \"repo\": \"34736384/genshin-fps-unlock\", \"license\": \"MIT\", \"version\": \"v2.2.0\" },
      \"artifacts\": []
    }
  ]
}";

} // verus!

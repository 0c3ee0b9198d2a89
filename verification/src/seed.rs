//! The compatibility table (`seed.json`) loader.
//!
//! The table is the one authority on compatibility.  A file of another schema
//! version, broken JSON or an invalid entry never yields a guessed table: the
//! loader returns the reason, and the degraded table is empty, so that every
//! query falls to `Unknown`.

use vstd::prelude::*;

use crate::compat::{
    query_view, CompatEntry, CompatRecord, CompatStatus, MatchKind, VersionMatch,
};
use crate::json::{
    elements, fields, found, has_opt_text, has_opt_text_list, has_text, is_list, is_opt_text,
    is_opt_text_list, is_text, items_of, json_outcome, keys_listed, keys_within, lookup, member,
    members_of, opt_text_of, shape_mismatch_note, shape_mismatch_text, opt_text_value, opt_text_view, parse_json, text_list_of,
    text_list_value, text_of, text_value, texts_view, JsonValue,
};
use crate::model::{valid_slug, GameId};
use crate::text::{append_str, decimal_chars, owned, push_decimal, push_quoted, debug_form, str_eq};
use crate::tool::{is_valid_tool_id, valid_tool_id, RiskLevel};
use crate::version::{is_prefix_key, parsed_version, prefix_key_major, Version};

verus! {

/// The schema version this loader reads.
pub const SUPPORTED_SCHEMA_VERSION: &'static str = "0.1.0";

/// Why a table was not loaded.
#[derive(Debug, Clone, PartialEq, Eq)]
pub enum SeedError {
    /// Not JSON, or not the shape of the schema (a missing or unknown field,
    /// a value of the wrong type).
    Malformed { detail: String },
    /// The file declares another schema version.
    UnsupportedSchema { found: String, expected: &'static str },
    /// An entry breaks a rule; `index` is its position in `entries`.
    InvalidEntry { index: usize, detail: String },
}

impl SeedError {
    /// The message shown for the error.
    pub open spec fn text(&self) -> Seq<char> {
        match self {
            SeedError::Malformed { detail } => "seed.json 结构非法："@ + detail@,
            SeedError::UnsupportedSchema { found, expected } => "seed schema_version 不符：文件为 "@
                + debug_form(found@) + "，加载器支持 "@ + debug_form(expected@),
            SeedError::InvalidEntry { index, detail } => "seed entries["@ + decimal_chars(
                *index as nat,
            ) + "] 非法："@ + detail@,
        }
    }

    pub fn to_string(&self) -> (r: String)
        ensures
            r@ == self.text(),
    {
        match self {
            SeedError::Malformed { detail } => {
                let mut m = owned("seed.json 结构非法：");
                append_str(&mut m, detail.as_str());
                m
            },
            SeedError::UnsupportedSchema { found, expected } => {
                let mut m = owned("seed schema_version 不符：文件为 ");
                push_quoted(&mut m, found.as_str());
                append_str(&mut m, "，加载器支持 ");
                push_quoted(&mut m, expected);
                m
            },
            SeedError::InvalidEntry { index, detail } => {
                let mut m = owned("seed entries[");
                push_decimal(&mut m, *index as u64);
                append_str(&mut m, "] 非法：");
                append_str(&mut m, detail.as_str());
                m
            },
        }
    }
}

/// The loaded table; `schema_version` is `None` in the degraded state.
#[derive(Debug, Clone, PartialEq, Eq)]
pub struct SeedTable {
    schema_version: Option<String>,
    updated_at: Option<String>,
    maintainer: Option<String>,
    entries: Vec<CompatEntry>,
}

pub struct SeedTableView {
    pub schema_version: Option<Seq<char>>,
    pub updated_at: Option<Seq<char>>,
    pub maintainer: Option<Seq<char>>,
    pub entries: Seq<CompatEntry>,
}

impl View for SeedTable {
    type V = SeedTableView;

    closed spec fn view(&self) -> SeedTableView {
        SeedTableView {
            schema_version: opt_text_view(self.schema_version),
            updated_at: opt_text_view(self.updated_at),
            maintainer: opt_text_view(self.maintainer),
            entries: self.entries@,
        }
    }
}

// ── The shape of the file ─────────────────────────────────────────────

pub open spec fn seed_fields() -> Seq<&'static str> {
    seq!["schema_version", "updated_at", "maintainer", "entries"]
}

pub open spec fn entry_fields() -> Seq<&'static str> {
    seq!["game_id", "tool_id", "risk_level", "compatibility"]
}

pub open spec fn record_fields() -> Seq<&'static str> {
    seq!["game_version", "version_match", "status", "verified_at", "verified_by", "evidence", "notes"]
}

/// A record object with the schema's fields and types.
pub open spec fn record_shape(v: JsonValue) -> bool {
    let ms = fields(v);
    &&& v is Object
    &&& keys_listed(ms, record_fields())
    &&& is_text(member(ms, "game_version"@))
    &&& is_opt_text(member(ms, "version_match"@))
    &&& is_text(member(ms, "status"@))
    &&& is_opt_text(member(ms, "verified_at"@))
    &&& is_opt_text(member(ms, "verified_by"@))
    &&& is_opt_text_list(member(ms, "evidence"@))
    &&& is_opt_text(member(ms, "notes"@))
}

pub open spec fn entry_records(v: JsonValue) -> Seq<JsonValue> {
    elements(member(fields(v), "compatibility"@))
}

/// An entry object with the schema's fields and types.
pub open spec fn entry_shape(v: JsonValue) -> bool {
    let ms = fields(v);
    &&& v is Object
    &&& keys_listed(ms, entry_fields())
    &&& is_text(member(ms, "game_id"@))
    &&& is_text(member(ms, "tool_id"@))
    &&& is_opt_text(member(ms, "risk_level"@))
    &&& is_list(member(ms, "compatibility"@))
    &&& forall|i: int|
        0 <= i < entry_records(v).len() ==> record_shape(#[trigger] entry_records(v)[i])
}

pub open spec fn seed_entries(v: JsonValue) -> Seq<JsonValue> {
    elements(member(fields(v), "entries"@))
}

pub open spec fn seed_schema(v: JsonValue) -> Seq<char> {
    text_of(member(fields(v), "schema_version"@))
}

/// The whole document has the schema's shape.
pub open spec fn seed_shape(v: JsonValue) -> bool {
    let ms = fields(v);
    &&& v is Object
    &&& keys_listed(ms, seed_fields())
    &&& is_text(member(ms, "schema_version"@))
    &&& is_text(member(ms, "updated_at"@))
    &&& is_opt_text(member(ms, "maintainer"@))
    &&& is_list(member(ms, "entries"@))
    &&& forall|i: int| 0 <= i < seed_entries(v).len() ==> entry_shape(#[trigger] seed_entries(v)[i])
}

// ── The rules of entries and records ──────────────────────────────────

/// How a record's `version_match` reads (absent or `null` = exact).
pub open spec fn match_of(v: Option<JsonValue>) -> Option<VersionMatch> {
    match opt_text_of(v) {
        None => Some(VersionMatch::Exact),
        Some(t) => if t == "exact"@ {
            Some(VersionMatch::Exact)
        } else if t == "prefix"@ {
            Some(VersionMatch::Prefix)
        } else {
            None
        },
    }
}

/// The first rule a record breaks, as its message.
pub open spec fn record_problem(v: JsonValue) -> Option<Seq<char>> {
    let ms = fields(v);
    let key = text_of(member(ms, "game_version"@));
    let status = text_of(member(ms, "status"@));
    match match_of(member(ms, "version_match"@)) {
        None => Some(
            "version_match 非法："@ + debug_form(text_of(member(ms, "version_match"@)))
                + "（仅 exact / prefix）"@,
        ),
        Some(kind) => if CompatStatus::parse_seed_literal(status) is None {
            Some("status 非法："@ + debug_form(status) + "（区分大小写）"@)
        } else if kind == VersionMatch::Exact && parsed_version(key) is None {
            Some("exact 条目的 game_version 须为 major.minor："@ + debug_form(key))
        } else if kind == VersionMatch::Prefix && prefix_key_major(key) is None {
            Some("prefix 条目的 game_version 须为 N.x："@ + debug_form(key))
        } else {
            None
        },
    }
}

/// The record built from a valid record object.
pub open spec fn record_built(r: CompatRecord, v: JsonValue) -> bool {
    let ms = fields(v);
    &&& r.game_version@ == text_of(member(ms, "game_version"@))
    &&& Some(r.version_match) == match_of(member(ms, "version_match"@))
    &&& Some(r.status) == CompatStatus::parse_seed_literal(text_of(member(ms, "status"@)))
    &&& texts_view(r.evidence@) == text_list_of(member(ms, "evidence"@))
    &&& opt_text_view(r.notes) == opt_text_of(member(ms, "notes"@))
    &&& opt_text_view(r.verified_at) == opt_text_of(member(ms, "verified_at"@))
    &&& opt_text_view(r.verified_by) == opt_text_of(member(ms, "verified_by"@))
}

/// A record's message as reported for its entry.
pub open spec fn record_detail(pos: int, problem: Seq<char>) -> Seq<char> {
    "compatibility["@ + decimal_chars(pos as nat) + "] "@ + problem
}

/// The first broken record at or after `from`.
pub open spec fn first_record_problem(rs: Seq<JsonValue>, from: int) -> Option<Seq<char>>
    decreases rs.len() - from,
{
    if from < 0 || from >= rs.len() {
        None
    } else {
        match record_problem(rs[from]) {
            Some(p) => Some(record_detail(from, p)),
            None => first_record_problem(rs, from + 1),
        }
    }
}

/// A `risk_level` that is given but is no level.
pub open spec fn risk_bad(v: Option<JsonValue>) -> bool {
    v matches Some(JsonValue::Str(l)) && RiskLevel::parse_text(l@) is None
}

/// The first rule an entry breaks, as its message.
pub open spec fn entry_problem(v: JsonValue) -> Option<Seq<char>> {
    let ms = fields(v);
    let gid = text_of(member(ms, "game_id"@));
    let tid = text_of(member(ms, "tool_id"@));
    if !valid_slug(gid) {
        Some("game_id 须为合法 slug："@ + debug_form(gid))
    } else if !valid_tool_id(tid) {
        Some("tool_id 须为 namespace/name 形态："@ + debug_form(tid))
    } else if risk_bad(member(ms, "risk_level"@)) {
        Some("risk_level 非法："@ + debug_form(text_of(member(ms, "risk_level"@))))
    } else if entry_records(v).len() == 0 {
        Some("compatibility 不得为空（schema minItems: 1）"@)
    } else {
        first_record_problem(entry_records(v), 0)
    }
}

/// The entry built from a valid entry object.
pub open spec fn entry_built(e: CompatEntry, v: JsonValue) -> bool {
    let ms = fields(v);
    &&& e.game_id@ == text_of(member(ms, "game_id"@))
    &&& e.tool_id@ == text_of(member(ms, "tool_id"@))
    &&& e.compatibility@.len() == entry_records(v).len()
    &&& forall|i: int|
        0 <= i < entry_records(v).len() ==> record_built(
            #[trigger] e.compatibility@[i],
            entry_records(v)[i],
        )
}

/// The first broken entry at or after `from`, with its index.
pub open spec fn first_entry_problem(es: Seq<JsonValue>, from: int) -> Option<(int, Seq<char>)>
    decreases es.len() - from,
{
    if from < 0 || from >= es.len() {
        None
    } else {
        match entry_problem(es[from]) {
            Some(p) => Some((from, p)),
            None => first_entry_problem(es, from + 1),
        }
    }
}

/// What decoding a parsed document gives.
pub open spec fn seed_decoded(v: JsonValue, r: Result<SeedTable, SeedError>) -> bool {
    match r {
        Err(SeedError::Malformed { detail }) => !seed_shape(v) && detail@ == shape_mismatch_note(),
        Err(SeedError::UnsupportedSchema { found, expected }) => {
            &&& seed_shape(v)
            &&& seed_schema(v) != "0.1.0"@
            &&& found@ == seed_schema(v)
            &&& expected@ == "0.1.0"@
        },
        Err(SeedError::InvalidEntry { index, detail }) => {
            &&& seed_shape(v)
            &&& seed_schema(v) == "0.1.0"@
            &&& first_entry_problem(seed_entries(v), 0) == Some((index as int, detail@))
        },
        Ok(t) => {
            &&& seed_shape(v)
            &&& seed_schema(v) == "0.1.0"@
            &&& first_entry_problem(seed_entries(v), 0) is None
            &&& t@.schema_version == Some("0.1.0"@)
            &&& t@.updated_at == Some(text_of(member(fields(v), "updated_at"@)))
            &&& t@.maintainer == opt_text_of(member(fields(v), "maintainer"@))
            &&& t@.entries.len() == seed_entries(v).len()
            &&& forall|i: int|
                0 <= i < seed_entries(v).len() ==> entry_built(
                    #[trigger] t@.entries[i],
                    seed_entries(v)[i],
                )
        },
    }
}

/// What loading a text gives: a JSON error is `Malformed` with the parser's
/// message; a parsed document is decoded.
pub open spec fn seed_parsed(text: Seq<char>, r: Result<SeedTable, SeedError>) -> bool {
    match json_outcome(text) {
        Err(e) => r matches Err(SeedError::Malformed { detail }) && detail@ == e,
        Ok(v) => seed_decoded(v, r),
    }
}

/// The entry for a game and a tool: the first that names both.
pub open spec fn entry_for(es: Seq<CompatEntry>, game_id: Seq<char>, tool_id: Seq<char>) -> Option<
    CompatEntry,
>
    decreases es.len(),
{
    if es.len() == 0 {
        None
    } else if es[0].game_id@ == game_id && es[0].tool_id@ == tool_id {
        Some(es[0])
    } else {
        entry_for(es.drop_first(), game_id, tool_id)
    }
}

// ── Shape checks ──────────────────────────────────────────────────────

fn record_shape_ok(v: &JsonValue) -> (r: bool)
    ensures
        r == record_shape(*v),
{
    match v {
        JsonValue::Object(ms) => {
            let allowed: Vec<&str> = vec![
                "game_version",
                "version_match",
                "status",
                "verified_at",
                "verified_by",
                "evidence",
                "notes",
            ];
            assert(allowed@ =~= record_fields());
            keys_within(ms, &allowed) && has_text(lookup(ms, "game_version")) && has_opt_text(
                lookup(ms, "version_match"),
            ) && has_text(lookup(ms, "status")) && has_opt_text(lookup(ms, "verified_at"))
                && has_opt_text(lookup(ms, "verified_by")) && has_opt_text_list(
                lookup(ms, "evidence"),
            ) && has_opt_text(lookup(ms, "notes"))
        },
        _ => false,
    }
}

fn entry_shape_ok(v: &JsonValue) -> (r: bool)
    ensures
        r == entry_shape(*v),
{
    match v {
        JsonValue::Object(ms) => {
            let allowed: Vec<&str> = vec!["game_id", "tool_id", "risk_level", "compatibility"];
            assert(allowed@ =~= entry_fields());
            if !(keys_within(ms, &allowed) && has_text(lookup(ms, "game_id")) && has_text(
                lookup(ms, "tool_id"),
            ) && has_opt_text(lookup(ms, "risk_level"))) {
                return false;
            }
            match lookup(ms, "compatibility") {
                Some(JsonValue::Array(rs)) => {
                    assert(entry_records(*v) == rs@);
                    let mut i: usize = 0;
                    while i < rs.len()
                        invariant
                            entry_records(*v) == rs@,
                            i <= rs.len(),
                            forall|k: int| 0 <= k < i ==> record_shape(#[trigger] rs@[k]),
                        decreases rs.len() - i,
                    {
                        if !record_shape_ok(&rs[i]) {
                            return false;
                        }
                        i = i + 1;
                    }
                    true
                },
                _ => false,
            }
        },
        _ => false,
    }
}

fn seed_shape_ok(v: &JsonValue) -> (r: bool)
    ensures
        r == seed_shape(*v),
{
    match v {
        JsonValue::Object(ms) => {
            let allowed: Vec<&str> = vec!["schema_version", "updated_at", "maintainer", "entries"];
            assert(allowed@ =~= seed_fields());
            if !(keys_within(ms, &allowed) && has_text(lookup(ms, "schema_version")) && has_text(
                lookup(ms, "updated_at"),
            ) && has_opt_text(lookup(ms, "maintainer"))) {
                return false;
            }
            match lookup(ms, "entries") {
                Some(JsonValue::Array(es)) => {
                    assert(seed_entries(*v) == es@);
                    let mut i: usize = 0;
                    while i < es.len()
                        invariant
                            seed_entries(*v) == es@,
                            i <= es.len(),
                            forall|k: int| 0 <= k < i ==> entry_shape(#[trigger] es@[k]),
                        decreases es.len() - i,
                    {
                        if !entry_shape_ok(&es[i]) {
                            return false;
                        }
                        i = i + 1;
                    }
                    true
                },
                _ => false,
            }
        },
        _ => false,
    }
}

// ── Conversion ────────────────────────────────────────────────────────

fn entry_error(index: usize, pos: usize, problem: String) -> (r: SeedError)
    ensures
        r matches SeedError::InvalidEntry { index: i, detail } && i == index && detail@
            == record_detail(pos as int, problem@),
{
    let mut detail = owned("compatibility[");
    push_decimal(&mut detail, pos as u64);
    append_str(&mut detail, "] ");
    append_str(&mut detail, problem.as_str());
    SeedError::InvalidEntry { index, detail }
}

/// A message made of a lead and a quoted value.
fn lead_quoted(lead: &str, value: &str) -> (r: String)
    ensures
        r@ == lead@ + debug_form(value@),
{
    let mut m = owned(lead);
    push_quoted(&mut m, value);
    m
}

/// A message made of a lead, a quoted value and a tail.
fn message(lead: &str, value: &str, tail: &str) -> (r: String)
    ensures
        r@ == lead@ + debug_form(value@) + tail@,
{
    let mut m = owned(lead);
    push_quoted(&mut m, value);
    append_str(&mut m, tail);
    m
}

fn convert_record(index: usize, pos: usize, v: &JsonValue) -> (r: Result<CompatRecord, SeedError>)
    requires
        record_shape(*v),
    ensures
        match r {
            Ok(rec) => record_problem(*v) is None && record_built(rec, *v),
            Err(SeedError::InvalidEntry { index: i, detail }) => i == index && (record_problem(*v)
                matches Some(p) && detail@ == record_detail(pos as int, p)),
            Err(_) => false,
        },
{
    let ms = members_of(v);
    let key = text_value(lookup(ms, "game_version")).unwrap();
    let status_text = text_value(lookup(ms, "status")).unwrap();
    let vm = lookup(ms, "version_match");
    let kind = match vm {
        Some(JsonValue::Str(t)) => {
            if str_eq(t.as_str(), "exact") {
                VersionMatch::Exact
            } else if str_eq(t.as_str(), "prefix") {
                VersionMatch::Prefix
            } else {
                let p = message("version_match 非法：", t.as_str(), "（仅 exact / prefix）");
                return Err(entry_error(index, pos, p));
            }
        },
        _ => VersionMatch::Exact,
    };
    assert(match_of(member(ms@, "version_match"@)) == Some(kind));
    let status = match CompatStatus::from_seed_literal(status_text.as_str()) {
        Some(s) => s,
        None => {
            let p = message("status 非法：", status_text.as_str(), "（区分大小写）");
            return Err(entry_error(index, pos, p));
        },
    };
    match kind {
        VersionMatch::Exact => {
            if Version::parse(key.as_str()).is_none() {
                let p = lead_quoted("exact 条目的 game_version 须为 major.minor：", key.as_str());
                return Err(entry_error(index, pos, p));
            }
        },
        VersionMatch::Prefix => {
            if !is_prefix_key(key.as_str()) {
                let p = lead_quoted("prefix 条目的 game_version 须为 N.x：", key.as_str());
                return Err(entry_error(index, pos, p));
            }
        },
    }
    let evidence = match text_list_value(lookup(ms, "evidence")) {
        Some(l) => l,
        None => Vec::new(),
    };
    assert(texts_view(evidence@) =~= text_list_of(member(ms@, "evidence"@)));
    let notes = opt_text_value(lookup(ms, "notes")).unwrap();
    let verified_at = opt_text_value(lookup(ms, "verified_at")).unwrap();
    let verified_by = opt_text_value(lookup(ms, "verified_by")).unwrap();
    let base = match kind {
        VersionMatch::Exact => CompatRecord::exact(key.as_str(), status),
        VersionMatch::Prefix => CompatRecord::prefix(key.as_str(), status),
    };
    Ok(base.with_evidence(evidence).with_notes_opt(notes).with_verification(verified_at, verified_by))
}

/// Checks one entry object of the table (at `index` in `entries`) and builds
/// the entry: the first rule it breaks is reported with that index;
/// otherwise the entry has a valid game id, a valid tool id, one record per
/// record object (at least one), and a key of the right form on each.
pub fn convert_entry(index: usize, v: &JsonValue) -> (r: Result<CompatEntry, SeedError>)
    requires
        entry_shape(*v),
    ensures
        match r {
            Ok(e) => entry_problem(*v) is None && entry_built(e, *v) && entry_sound(e),
            Err(SeedError::InvalidEntry { index: i, detail }) => i == index && entry_problem(*v)
                == Some(detail@),
            Err(_) => false,
        },
{
    let ms = members_of(v);
    let game_id = text_value(lookup(ms, "game_id")).unwrap();
    let tool_id = text_value(lookup(ms, "tool_id")).unwrap();
    if GameId::new(game_id.as_str()).is_none() {
        let detail = lead_quoted("game_id 须为合法 slug：", game_id.as_str());
        return Err(SeedError::InvalidEntry { index, detail });
    }
    if !is_valid_tool_id(tool_id.as_str()) {
        let detail = lead_quoted("tool_id 须为 namespace/name 形态：", tool_id.as_str());
        return Err(SeedError::InvalidEntry { index, detail });
    }
    match lookup(ms, "risk_level") {
        Some(JsonValue::Str(level)) => {
            if RiskLevel::from_literal(level.as_str()).is_none() {
                let detail = lead_quoted("risk_level 非法：", level.as_str());
                return Err(SeedError::InvalidEntry { index, detail });
            }
        },
        _ => {},
    }
    let rs = items_of(lookup(ms, "compatibility"));
    assert(rs@ == entry_records(*v));
    if rs.len() == 0 {
        return Err(
            SeedError::InvalidEntry {
                index,
                detail: owned("compatibility 不得为空（schema minItems: 1）"),
            },
        );
    }
    let mut records: Vec<CompatRecord> = Vec::new();
    let mut pos: usize = 0;
    while pos < rs.len()
        invariant
            entry_shape(*v),
            rs@ == entry_records(*v),
            entry_problem(*v) == first_record_problem(rs@, 0),
            pos <= rs.len(),
            first_record_problem(rs@, 0) == first_record_problem(rs@, pos as int),
            records@.len() == pos,
            forall|k: int| 0 <= k < pos ==> record_built(#[trigger] records@[k], rs@[k]),
        decreases rs.len() - pos,
    {
        assert(record_shape(entry_records(*v)[pos as int]));
        match convert_record(index, pos, &rs[pos]) {
            Ok(rec) => {
                records.push(rec);
            },
            Err(e) => {
                return Err(e);
            },
        }
        pos = pos + 1;
    }
    let entry = CompatEntry::new(game_id.as_str(), tool_id.as_str(), records);
    proof {
        lemma_accepted_entry_is_sound(*v, entry);
    }
    Ok(entry)
}

impl SeedTable {
    /// The empty table: the degraded state, in which every query is `Unknown`.
    pub fn empty() -> (r: SeedTable)
        ensures
            r@.schema_version is None,
            r@.updated_at is None,
            r@.maintainer is None,
            r@.entries.len() == 0,
    {
        SeedTable { schema_version: None, updated_at: None, maintainer: None, entries: Vec::new() }
    }

    /// Decodes and checks a parsed document.
    pub fn from_json(doc: &JsonValue) -> (r: Result<SeedTable, SeedError>)
        ensures
            seed_decoded(*doc, r),
    {
        if !seed_shape_ok(doc) {
            return Err(SeedError::Malformed { detail: shape_mismatch_text() });
        }
        let ms = members_of(doc);
        let schema = text_value(lookup(ms, "schema_version")).unwrap();
        if !str_eq(schema.as_str(), SUPPORTED_SCHEMA_VERSION) {
            return Err(SeedError::UnsupportedSchema { found: schema, expected: SUPPORTED_SCHEMA_VERSION });
        }
        let updated_at = text_value(lookup(ms, "updated_at")).unwrap();
        let maintainer = opt_text_value(lookup(ms, "maintainer")).unwrap();
        let es = items_of(lookup(ms, "entries"));
        assert(es@ == seed_entries(*doc));
        let mut entries: Vec<CompatEntry> = Vec::new();
        let mut i: usize = 0;
        while i < es.len()
            invariant
                seed_shape(*doc),
                seed_schema(*doc) == "0.1.0"@,
                es@ == seed_entries(*doc),
                i <= es.len(),
                first_entry_problem(es@, 0) == first_entry_problem(es@, i as int),
                entries@.len() == i,
                forall|k: int| 0 <= k < i ==> entry_built(#[trigger] entries@[k], es@[k]),
            decreases es.len() - i,
        {
            assert(entry_shape(seed_entries(*doc)[i as int]));
            match convert_entry(i, &es[i]) {
                Ok(e) => {
                    entries.push(e);
                },
                Err(e) => {
                    return Err(e);
                },
            }
            i = i + 1;
        }
        Ok(
            SeedTable {
                schema_version: Some(schema),
                updated_at: Some(updated_at),
                maintainer,
                entries,
            },
        )
    }

    /// Parses a table text; any failure is an error, and the caller decides
    /// how to degrade.
    pub fn parse(json: &str) -> (r: Result<SeedTable, SeedError>)
        ensures
            seed_parsed(json@, r),
    {
        match parse_json(json) {
            Ok(doc) => SeedTable::from_json(&doc),
            Err(detail) => Err(SeedError::Malformed { detail }),
        }
    }

    /// Parses, and degrades to the empty table on any failure, handing the
    /// reason back.
    pub fn parse_or_degraded(json: &str) -> (r: (SeedTable, Option<SeedError>))
        ensures
            match r.1 {
                None => seed_parsed(json@, Ok(r.0)),
                Some(e) => seed_parsed(json@, Err(e)) && r.0@.schema_version is None
                    && r.0@.updated_at is None && r.0@.maintainer is None && r.0@.entries.len()
                    == 0,
            },
    {
        match SeedTable::parse(json) {
            Ok(table) => (table, None),
            Err(err) => (SeedTable::empty(), Some(err)),
        }
    }

    /// The table shipped with the hub.
    pub fn builtin() -> (r: Result<SeedTable, SeedError>)
        ensures
            seed_parsed(BUILTIN_SEED@, r),
    {
        SeedTable::parse(BUILTIN_SEED)
    }

    /// The shipped table, or the empty table and the reason it was refused.
    pub fn builtin_or_degraded() -> (r: (SeedTable, Option<SeedError>))
        ensures
            match r.1 {
                None => seed_parsed(BUILTIN_SEED@, Ok(r.0)),
                Some(e) => seed_parsed(BUILTIN_SEED@, Err(e)) && r.0@.schema_version is None
                    && r.0@.updated_at is None && r.0@.maintainer is None && r.0@.entries.len()
                    == 0,
            },
    {
        SeedTable::parse_or_degraded(BUILTIN_SEED)
    }

    /// The declared schema version; `None` in the degraded state.
    pub fn schema_version(&self) -> (r: Option<&str>)
        ensures
            match r {
                Some(s) => self@.schema_version == Some(s@),
                None => self@.schema_version is None,
            },
    {
        match &self.schema_version {
            Some(s) => Some(s.as_str()),
            None => None,
        }
    }

    pub fn maintainer(&self) -> (r: Option<&str>)
        ensures
            match r {
                Some(s) => self@.maintainer == Some(s@),
                None => self@.maintainer is None,
            },
    {
        match &self.maintainer {
            Some(s) => Some(s.as_str()),
            None => None,
        }
    }

    pub fn updated_at(&self) -> (r: Option<&str>)
        ensures
            match r {
                Some(s) => self@.updated_at == Some(s@),
                None => self@.updated_at is None,
            },
    {
        match &self.updated_at {
            Some(s) => Some(s.as_str()),
            None => None,
        }
    }

    pub fn entries(&self) -> (r: &[CompatEntry])
        ensures
            r@ == self@.entries,
    {
        self.entries.as_slice()
    }

    pub fn is_empty(&self) -> (r: bool)
        ensures
            r == (self@.entries.len() == 0),
    {
        self.entries.len() == 0
    }

    /// Degraded: the version metadata is missing.
    pub fn is_degraded(&self) -> (r: bool)
        ensures
            r == (self@.schema_version is None),
    {
        self.schema_version.is_none()
    }

    /// The entry for a game and a tool; `None` makes a query `Unknown`.
    pub fn entry(&self, game_id: &str, tool_id: &str) -> (r: Option<&CompatEntry>)
        ensures
            match r {
                Some(e) => entry_for(self@.entries, game_id@, tool_id@) == Some(*e),
                None => entry_for(self@.entries, game_id@, tool_id@) is None,
            },
    {
        let mut i: usize = 0;
        assert(self.entries@.skip(0) =~= self.entries@);
        while i < self.entries.len()
            invariant
                i <= self.entries.len(),
                self@.entries == self.entries@,
                entry_for(self.entries@, game_id@, tool_id@) == entry_for(
                    self.entries@.skip(i as int),
                    game_id@,
                    tool_id@,
                ),
            decreases self.entries.len() - i,
        {
            let e = &self.entries[i];
            assert(self.entries@.skip(i as int)[0] == self.entries@[i as int]);
            if str_eq(e.game_id.as_str(), game_id) && str_eq(e.tool_id.as_str(), tool_id) {
                return Some(e);
            }
            assert(self.entries@.skip(i as int).drop_first() =~= self.entries@.skip(i + 1));
            i = i + 1;
        }
        None
    }
}

/// A degraded (empty) table answers every query with `Unknown` and no match.
pub proof fn lemma_empty_table_all_unknown(
    table: SeedTable,
    game_id: Seq<char>,
    tool_id: Seq<char>,
    local: Option<Version>,
)
    requires
        table@.entries.len() == 0,
    ensures
        entry_for(table@.entries, game_id, tool_id) is None,
        query_view(entry_for(table@.entries, game_id, tool_id), local).status
            == CompatStatus::Unknown,
        query_view(entry_for(table@.entries, game_id, tool_id), local).match_kind
            == MatchKind::Unmatched,
{
}

/// An entry that passes the checks, as built, obeys the rules of the table.
pub open spec fn entry_sound(e: CompatEntry) -> bool {
    &&& valid_slug(e.game_id@)
    &&& valid_tool_id(e.tool_id@)
    &&& e.compatibility@.len() >= 1
    &&& forall|i: int|
        0 <= i < e.compatibility@.len() ==> {
            let rec = #[trigger] e.compatibility@[i];
            &&& rec.version_match == VersionMatch::Exact ==> parsed_version(rec.game_version@) is Some
            &&& rec.version_match == VersionMatch::Prefix ==> prefix_key_major(rec.game_version@) is Some
        }
}

proof fn lemma_no_record_problem_from(rs: Seq<JsonValue>, from: int, k: int)
    requires
        0 <= from <= k < rs.len(),
        first_record_problem(rs, from) is None,
    ensures
        record_problem(rs[k]) is None,
    decreases k - from,
{
    if from < k {
        lemma_no_record_problem_from(rs, from + 1, k);
    }
}

proof fn lemma_no_entry_problem_from(es: Seq<JsonValue>, from: int, k: int)
    requires
        0 <= from <= k < es.len(),
        first_entry_problem(es, from) is None,
    ensures
        entry_problem(es[k]) is None,
    decreases k - from,
{
    if from < k {
        lemma_no_entry_problem_from(es, from + 1, k);
    }
}

/// An entry built from an object that breaks no rule has a valid game id, a
/// valid tool id, at least one record, an exact key that is a version on
/// every exact record and a well-formed `N.x` key on every prefix record.
pub proof fn lemma_accepted_entry_is_sound(v: JsonValue, e: CompatEntry)
    requires
        entry_problem(v) is None,
        entry_built(e, v),
    ensures
        entry_sound(e),
{
    let rs = entry_records(v);
    assert forall|i: int| 0 <= i < e.compatibility@.len() implies {
        let rec = #[trigger] e.compatibility@[i];
        &&& rec.version_match == VersionMatch::Exact ==> parsed_version(rec.game_version@) is Some
        &&& rec.version_match == VersionMatch::Prefix ==> prefix_key_major(rec.game_version@) is Some
    } by {
        lemma_no_record_problem_from(rs, 0, i);
        assert(record_built(e.compatibility@[i], rs[i]));
    }
}

/// Every entry of a table that loads obeys the rules of the table.
pub proof fn lemma_loaded_entries_are_sound(v: JsonValue, t: SeedTable)
    requires
        seed_decoded(v, Ok(t)),
    ensures
        forall|i: int| 0 <= i < t@.entries.len() ==> entry_sound(#[trigger] t@.entries[i]),
{
    assert forall|i: int| 0 <= i < t@.entries.len() implies entry_sound(#[trigger] t@.entries[i]) by {
        lemma_no_entry_problem_from(seed_entries(v), 0, i);
        lemma_accepted_entry_is_sound(seed_entries(v)[i], t@.entries[i]);
    }
}

/// The table text shipped with the hub.
pub const BUILTIN_SEED: &'static str = "{
  \"schema_version\": \"0.1.0\",
  \"updated_at\": \"2026-09-18\",
  \"maintainer\": \"orbis-maintainer\",
  \"entries\": [
    {
      \"game_id\": \"wuthering-waves\",
      \"tool_id\": \"orbis-builtin/wuwa-fps-120\",
      \"risk_level\": \"L1\",
      \"compatibility\": [
        {
          \"game_version\": \"3.x\",
          \"version_match\": \"prefix\",
          \"status\": \"Unknown\",
          \"notes\": \"新版本未实测\"
        }
      ]
    },
    {
      \"game_id\": \"genshin-impact\",
      \"tool_id\": \"orbis-bundled/genshin-fps-unlock\",
      \"risk_level\": \"L3\",
      \"compatibility\": [
        {
          \"game_version\": \"7.x\",
          \"version_match\": \"prefix\",
          \"status\": \"Compatible\"
        }
      ]
    }
  ]
}";

} // verus!

//! JSON documents as plain values.
//!
//! The data files of the hub (compatibility table, tool manifests, asset
//! catalog) are JSON.  `serde_json` reads the text into a tree; the tree is
//! handed to the library as a [`JsonValue`], and every loader decodes its own
//! fields from it with the helpers below, so that what a loader accepts is
//! stated over the tree.

use vstd::prelude::*;

use crate::text::{owned, str_eq};

verus! {

/// A parsed JSON value.
#[derive(Debug, PartialEq, Eq)]
pub enum JsonValue {
    Null,
    Bool(bool),
    /// A number: its integer value, or `None` when it is not an integer
    /// (a fraction or an exponent was written).
    Number(Option<i128>),
    Str(String),
    Array(Vec<JsonValue>),
    /// The members of an object, each key once.
    Object(Vec<(String, JsonValue)>),
}

#[verifier::external_type_specification]
#[verifier::external_body]
pub struct ExSerdeJsonValue(serde_json::Value);

/// What `serde_json::from_str::<serde_json::Value>` makes of a text: the tree,
/// or the parser's error message.
pub uninterp spec fn json_outcome(text: Seq<char>) -> Result<JsonValue, Seq<char>>;

/// Rebuilds a `serde_json::Value` as a [`JsonValue`], one node for one node.
#[verifier::external_body]
fn json_value_of(v: serde_json::Value) -> JsonValue {
    match v {
        serde_json::Value::Null => JsonValue::Null,
        serde_json::Value::Bool(b) => JsonValue::Bool(b),
        serde_json::Value::Number(n) => JsonValue::Number(n.as_i128()),
        serde_json::Value::String(s) => JsonValue::Str(s),
        serde_json::Value::Array(a) => JsonValue::Array(a.into_iter().map(json_value_of).collect()),
        serde_json::Value::Object(m) => JsonValue::Object(
            m.into_iter().map(|(k, x)| (k, json_value_of(x))).collect(),
        ),
    }
}

/// `serde_json::from_str::<serde_json::Value>` on `text`.
///
/// Trusted: the outcome depends on the text alone and is named by
/// [`json_outcome`]; an error carries serde_json's own message.
#[verifier::external_body]
pub(crate) fn parse_json(text: &str) -> (r: Result<JsonValue, String>)
    ensures
        match r {
            Ok(v) => json_outcome(text@) == Ok::<JsonValue, Seq<char>>(v),
            Err(e) => json_outcome(text@) == Err::<JsonValue, Seq<char>>(e@),
        },
{
    match serde_json::from_str::<serde_json::Value>(text) {
        Ok(v) => Ok(json_value_of(v)),
        Err(e) => Err(e.to_string()),
    }
}

/// What `serde_json::from_str::<bool>` makes of a text: the boolean, or
/// the parser's error message.
pub uninterp spec fn bool_outcome(text: Seq<char>) -> Result<bool, Seq<char>>;

/// `serde_json::from_str::<bool>(text)`.
///
/// Trusted: the outcome depends on the text alone and is named by
/// [`bool_outcome`]; an error carries serde_json's own message.
#[verifier::external_body]
pub(crate) fn parse_json_bool(text: &str) -> (r: Result<bool, String>)
    ensures
        match r {
            Ok(b) => bool_outcome(text@) == Ok::<bool, Seq<char>>(b),
            Err(e) => bool_outcome(text@) == Err::<bool, Seq<char>>(e@),
        },
{
    serde_json::from_str::<bool>(text).map_err(|e| e.to_string())
}

/// What `serde_json::from_str::<i64>` makes of a text: the integer, or the
/// parser's error message.
pub uninterp spec fn i64_outcome(text: Seq<char>) -> Result<i64, Seq<char>>;

/// `serde_json::from_str::<i64>(text)`.
///
/// Trusted: the outcome depends on the text alone and is named by
/// [`i64_outcome`]; an error carries serde_json's own message.
#[verifier::external_body]
pub(crate) fn parse_json_i64(text: &str) -> (r: Result<i64, String>)
    ensures
        match r {
            Ok(n) => i64_outcome(text@) == Ok::<i64, Seq<char>>(n),
            Err(e) => i64_outcome(text@) == Err::<i64, Seq<char>>(e@),
        },
{
    serde_json::from_str::<i64>(text).map_err(|e| e.to_string())
}

/// The lower-case hexadecimal digit of `n < 16`.
pub open spec fn hex_digit(n: int) -> char {
    if n < 10 {
        ('0' as int + n) as char
    } else {
        ('a' as int + n - 10) as char
    }
}

/// How serde_json writes one character inside a string literal: a quote and
/// a backslash are escaped, the control characters below U+0020 take their
/// short escape (`\b \t \n \f \r`) or `\u00XX`, and every other character
/// is copied.
pub open spec fn json_char_escape(c: char) -> Seq<char> {
    if c == '"' {
        seq!['\\', '"']
    } else if c == '\\' {
        seq!['\\', '\\']
    } else if c == '\u{8}' {
        seq!['\\', 'b']
    } else if c == '\t' {
        seq!['\\', 't']
    } else if c == '\n' {
        seq!['\\', 'n']
    } else if c == '\u{c}' {
        seq!['\\', 'f']
    } else if c == '\r' {
        seq!['\\', 'r']
    } else if (c as int) < 0x20 {
        seq!['\\', 'u', '0', '0', hex_digit(c as int / 16), hex_digit(c as int % 16)]
    } else {
        seq![c]
    }
}

/// The characters of `s`, each written as [`json_char_escape`] writes it.
pub open spec fn json_escaped(s: Seq<char>) -> Seq<char>
    decreases s.len(),
{
    if s.len() == 0 {
        Seq::empty()
    } else {
        json_escaped(s.drop_last()) + json_char_escape(s.last())
    }
}

/// What `serde_json::Value::String(s).to_string()` renders: `s` as a JSON
/// string literal, quoted and escaped.
pub open spec fn json_string_form(s: Seq<char>) -> Seq<char> {
    seq!['"'] + json_escaped(s) + seq!['"']
}

/// `serde_json::Value::String(s).to_string()`.
///
/// Trusted: the result is serde_json's compact rendering of a string value
/// (`format_escaped_str` in its `ser.rs`): the text between quotes, escaped
/// as [`json_char_escape`] says.
#[verifier::external_body]
pub(crate) fn json_string_text(s: &str) -> (r: String)
    ensures
        r@ == json_string_form(s@),
{
    serde_json::Value::String(s.to_owned()).to_string()
}

/// What serde_json makes of `text` read as a document and written back in
/// compact form; `None` when the text does not parse.
pub uninterp spec fn json_rewritten(text: Seq<char>) -> Option<Seq<char>>;

/// `serde_json::from_str::<serde_json::Value>(text)`, written back with
/// `to_string` when it parses.
///
/// Trusted: the outcome depends on the text alone and is named by
/// [`json_rewritten`].
#[verifier::external_body]
pub(crate) fn rewrite_json(text: &str) -> (r: Option<String>)
    ensures
        match r {
            Some(t) => json_rewritten(text@) == Some(t@),
            None => json_rewritten(text@) is None,
        },
{
    serde_json::from_str::<serde_json::Value>(text).ok().map(|v| v.to_string())
}

/// The detail reported when a document parses but does not have the shape
/// of its schema (a missing or unknown field, a value of the wrong type).
pub open spec fn shape_mismatch_note() -> Seq<char> {
    "字段缺失、类型不符或含未知字段"@
}

pub fn shape_mismatch_text() -> (r: String)
    ensures
        r@ == shape_mismatch_note(),
{
    owned("字段缺失、类型不符或含未知字段")
}

/// The value of the first member named `key`.
pub open spec fn member(ms: Seq<(String, JsonValue)>, key: Seq<char>) -> Option<JsonValue>
    decreases ms.len(),
{
    if ms.len() == 0 {
        None
    } else if ms[0].0@ == key {
        Some(ms[0].1)
    } else {
        member(ms.drop_first(), key)
    }
}

/// Whether `k` is one of the `allowed` names.
pub open spec fn listed(allowed: Seq<&str>, k: Seq<char>) -> bool {
    exists|j: int| 0 <= j < allowed.len() && (#[trigger] allowed[j])@ == k
}

/// Every member name is one of the `allowed` names (no unknown field).
pub open spec fn keys_listed(ms: Seq<(String, JsonValue)>, allowed: Seq<&str>) -> bool {
    forall|i: int| 0 <= i < ms.len() ==> listed(allowed, (#[trigger] ms[i]).0@)
}

/// A present string.
pub open spec fn is_text(v: Option<JsonValue>) -> bool {
    v matches Some(JsonValue::Str(_))
}

pub open spec fn text_of(v: Option<JsonValue>) -> Seq<char> {
    match v {
        Some(JsonValue::Str(s)) => s@,
        _ => Seq::empty(),
    }
}

/// An optional string: absent, `null` or a string.
pub open spec fn is_opt_text(v: Option<JsonValue>) -> bool {
    match v {
        None => true,
        Some(JsonValue::Null) => true,
        Some(JsonValue::Str(_)) => true,
        _ => false,
    }
}

pub open spec fn opt_text_of(v: Option<JsonValue>) -> Option<Seq<char>> {
    match v {
        Some(JsonValue::Str(s)) => Some(s@),
        _ => None,
    }
}

/// A present boolean.
pub open spec fn is_flag(v: Option<JsonValue>) -> bool {
    v matches Some(JsonValue::Bool(_))
}

pub open spec fn flag_of(v: Option<JsonValue>) -> bool {
    v matches Some(JsonValue::Bool(b)) && b
}

/// A present integer that fits a `u64`.
pub open spec fn is_count(v: Option<JsonValue>) -> bool {
    v matches Some(JsonValue::Number(Some(n))) && 0 <= n <= u64::MAX
}

pub open spec fn count_of(v: Option<JsonValue>) -> int {
    match v {
        Some(JsonValue::Number(Some(n))) => n as int,
        _ => 0,
    }
}

/// All items are strings.
pub open spec fn all_texts(items: Seq<JsonValue>) -> bool {
    forall|i: int| 0 <= i < items.len() ==> (#[trigger] items[i]) is Str
}

pub open spec fn item_text(v: JsonValue) -> Seq<char> {
    match v {
        JsonValue::Str(s) => s@,
        _ => Seq::empty(),
    }
}

/// A present array of strings.
pub open spec fn is_text_list(v: Option<JsonValue>) -> bool {
    v matches Some(JsonValue::Array(items)) && all_texts(items@)
}

pub open spec fn text_list_of(v: Option<JsonValue>) -> Seq<Seq<char>> {
    match v {
        Some(JsonValue::Array(items)) => items@.map_values(|x: JsonValue| item_text(x)),
        _ => Seq::empty(),
    }
}

/// A list of strings that may be left out (then it is empty), but not `null`.
pub open spec fn is_default_text_list(v: Option<JsonValue>) -> bool {
    v is None || is_text_list(v)
}

/// A list of strings that may be left out or `null`.
pub open spec fn is_opt_text_list(v: Option<JsonValue>) -> bool {
    v is None || v matches Some(JsonValue::Null) || is_text_list(v)
}

pub open spec fn opt_text_list_of(v: Option<JsonValue>) -> Option<Seq<Seq<char>>> {
    if is_text_list(v) {
        Some(text_list_of(v))
    } else {
        None
    }
}

/// The views of a list of strings.
pub open spec fn texts_view(v: Seq<String>) -> Seq<Seq<char>> {
    v.map_values(|s: String| s@)
}

/// What a lookup found, as a value.
pub open spec fn found(v: Option<&JsonValue>) -> Option<JsonValue> {
    match v {
        Some(x) => Some(*x),
        None => None,
    }
}

/// The members of an object (none for any other value).
pub open spec fn fields(v: JsonValue) -> Seq<(String, JsonValue)> {
    match v {
        JsonValue::Object(ms) => ms@,
        _ => Seq::empty(),
    }
}

/// The items of a present array (none for anything else).
pub open spec fn elements(v: Option<JsonValue>) -> Seq<JsonValue> {
    match v {
        Some(JsonValue::Array(items)) => items@,
        _ => Seq::empty(),
    }
}

/// A present array.
pub open spec fn is_list(v: Option<JsonValue>) -> bool {
    v matches Some(JsonValue::Array(_))
}

/// A present object.
pub open spec fn is_object(v: Option<JsonValue>) -> bool {
    v matches Some(JsonValue::Object(_))
}

/// Whether a looked-up value is a string.
pub fn has_text(v: Option<&JsonValue>) -> (r: bool)
    ensures
        r == is_text(found(v)),
{
    match v {
        Some(JsonValue::Str(_)) => true,
        _ => false,
    }
}

/// Whether a looked-up value is absent, `null` or a string.
pub fn has_opt_text(v: Option<&JsonValue>) -> (r: bool)
    ensures
        r == is_opt_text(found(v)),
{
    match v {
        None => true,
        Some(JsonValue::Null) => true,
        Some(JsonValue::Str(_)) => true,
        _ => false,
    }
}

/// Whether a looked-up value is a boolean.
pub fn has_flag(v: Option<&JsonValue>) -> (r: bool)
    ensures
        r == is_flag(found(v)),
{
    match v {
        Some(JsonValue::Bool(_)) => true,
        _ => false,
    }
}

/// Whether a looked-up value is an array of strings.
pub fn has_text_list(v: Option<&JsonValue>) -> (r: bool)
    ensures
        r == is_text_list(found(v)),
{
    match v {
        Some(JsonValue::Array(items)) => {
            assert(found(v) == Some(JsonValue::Array(*items)));
            let mut i: usize = 0;
            while i < items.len()
                invariant
                    found(v) == Some(JsonValue::Array(*items)),
                    i <= items.len(),
                    forall|k: int| 0 <= k < i ==> (#[trigger] items@[k]) is Str,
                decreases items.len() - i,
            {
                match &items[i] {
                    JsonValue::Str(_) => {},
                    _ => {
                        assert(!(items@[i as int] is Str));
                        assert(!all_texts(items@));
                        return false;
                    },
                }
                i = i + 1;
            }
            true
        },
        _ => false,
    }
}

/// Whether a looked-up value is absent, `null` or an array of strings.
pub fn has_opt_text_list(v: Option<&JsonValue>) -> (r: bool)
    ensures
        r == is_opt_text_list(found(v)),
{
    match v {
        None => true,
        Some(JsonValue::Null) => true,
        _ => has_text_list(v),
    }
}

/// The members of an object.
pub fn members_of(v: &JsonValue) -> (r: &Vec<(String, JsonValue)>)
    requires
        v is Object,
    ensures
        r@ == fields(*v),
{
    match v {
        JsonValue::Object(ms) => ms,
        _ => vstd::pervasive::unreached(),
    }
}

/// The items of an array.
pub fn items_of(v: Option<&JsonValue>) -> (r: &Vec<JsonValue>)
    requires
        is_list(found(v)),
    ensures
        r@ == elements(found(v)),
{
    match v {
        Some(JsonValue::Array(items)) => items,
        _ => vstd::pervasive::unreached(),
    }
}

/// The first member named `key`.
pub fn lookup<'a>(ms: &'a Vec<(String, JsonValue)>, key: &str) -> (r: Option<&'a JsonValue>)
    ensures
        found(r) == member(ms@, key@),
{
    let mut i: usize = 0;
    assert(ms@.skip(0) =~= ms@);
    while i < ms.len()
        invariant
            i <= ms.len(),
            member(ms@, key@) == member(ms@.skip(i as int), key@),
        decreases ms.len() - i,
    {
        assert(ms@.skip(i as int)[0] == ms@[i as int]);
        if str_eq(ms[i].0.as_str(), key) {
            return Some(&ms[i].1);
        }
        assert(ms@.skip(i as int).drop_first() =~= ms@.skip(i + 1));
        i = i + 1;
    }
    None
}

/// Whether every member name is one of `allowed`.
pub fn keys_within(ms: &Vec<(String, JsonValue)>, allowed: &Vec<&str>) -> (r: bool)
    ensures
        r == keys_listed(ms@, allowed@),
{
    let mut i: usize = 0;
    while i < ms.len()
        invariant
            i <= ms.len(),
            forall|k: int| 0 <= k < i ==> listed(allowed@, (#[trigger] ms@[k]).0@),
        decreases ms.len() - i,
    {
        let mut j: usize = 0;
        let mut found = false;
        while j < allowed.len()
            invariant
                i < ms.len(),
                j <= allowed.len(),
                found ==> listed(allowed@, ms@[i as int].0@),
                !found ==> forall|t: int| 0 <= t < j ==> (#[trigger] allowed@[t])@ != ms@[i as int].0@,
            decreases allowed.len() - j,
        {
            if !found && str_eq(allowed[j], ms[i].0.as_str()) {
                found = true;
            }
            j = j + 1;
        }
        if !found {
            assert(!listed(allowed@, ms@[i as int].0@));
            return false;
        }
        i = i + 1;
    }
    true
}

/// A copy of a string value.
pub fn text_value(v: Option<&JsonValue>) -> (r: Option<String>)
    ensures
        match r {
            Some(s) => is_text(found(v)) && s@ == text_of(found(v)),
            None => !is_text(found(v)),
        },
{
    match v {
        Some(JsonValue::Str(s)) => Some(owned(s.as_str())),
        _ => None,
    }
}

/// A copy of an optional string value; `None` when it is neither absent, `null` nor a string.
pub fn opt_text_value(v: Option<&JsonValue>) -> (r: Option<Option<String>>)
    ensures
        match r {
            Some(o) => is_opt_text(found(v)) && opt_text_view(o) == opt_text_of(
                found(v),
            ),
            None => !is_opt_text(found(v)),
        },
{
    match v {
        None => Some(None),
        Some(JsonValue::Null) => Some(None),
        Some(JsonValue::Str(s)) => Some(Some(owned(s.as_str()))),
        _ => None,
    }
}

/// The view of an optional string.
pub open spec fn opt_text_view(o: Option<String>) -> Option<Seq<char>> {
    match o {
        Some(s) => Some(s@),
        None => None,
    }
}

/// A copy of an array of strings; `None` when it is not one.
pub fn text_list_value(v: Option<&JsonValue>) -> (r: Option<Vec<String>>)
    ensures
        match r {
            Some(l) => is_text_list(found(v)) && texts_view(l@) == text_list_of(
                found(v),
            ),
            None => !is_text_list(found(v)),
        },
{
    match v {
        Some(JsonValue::Array(items)) => {
            assert(found(v) == Some(JsonValue::Array(*items)));
            let mut out: Vec<String> = Vec::new();
            let mut i: usize = 0;
            while i < items.len()
                invariant
                    found(v) == Some(JsonValue::Array(*items)),
                    i <= items.len(),
                    out@.len() == i,
                    forall|k: int| 0 <= k < i ==> (#[trigger] items@[k]) is Str,
                    forall|k: int| 0 <= k < i ==> (#[trigger] out@[k])@ == item_text(items@[k]),
                decreases items.len() - i,
            {
                match &items[i] {
                    JsonValue::Str(s) => {
                        out.push(owned(s.as_str()));
                    },
                    _ => {
                        assert(!(items@[i as int] is Str));
                        assert(!all_texts(items@));
                        return None;
                    },
                }
                i = i + 1;
            }
            assert(texts_view(out@) =~= items@.map_values(|x: JsonValue| item_text(x)));
            Some(out)
        },
        _ => None,
    }
}

} // verus!

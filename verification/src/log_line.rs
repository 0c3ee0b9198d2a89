//! One line of the JSONL log: the fields of an event in a fixed order.
//!
//! An event must name a known source and category; one that does not is
//! dropped (and reported by the caller), never written half-filled.  An
//! empty related game is a global action and shows as `null`; the context
//! is embedded as structured JSON when it parses, as a string when not.

use vstd::prelude::*;

use crate::json::{json_rewritten, json_string_form, json_string_text, opt_text_view, rewrite_json};
use crate::log::{LogCategory, LogLevel, LogSource};
use crate::text::{append_str, owned};

verus! {

/// Events of this project are logged under targets starting with this.
pub const TARGET_PREFIX: &'static str = "orbis";

/// The text fields an event carried (a field carried as something else than
/// text counts as absent).
#[derive(Debug, Clone, PartialEq, Eq)]
pub struct EventFields {
    pub source: Option<String>,
    pub category: Option<String>,
    pub message: Option<String>,
    pub related_game: Option<String>,
    pub context: Option<String>,
}

/// Whether an event's target belongs to this project.
pub open spec fn own_target(target: Seq<char>) -> bool {
    target.len() >= TARGET_PREFIX@.len() && target.take(TARGET_PREFIX@.len() as int) == TARGET_PREFIX@
}

pub fn is_own_target(target: &str) -> (r: bool)
    ensures
        r == own_target(target@),
{
    let cs = crate::text::chars_of(target);
    let n = TARGET_PREFIX.unicode_len();
    if cs.len() < n {
        return false;
    }
    let r = crate::text::range_eq(&cs, 0, n, TARGET_PREFIX);
    assert(cs@.subrange(0, n as int) == target@.take(n as int));
    r
}

/// The context as embedded: `null`, the parsed document, or the raw text
/// as a string.
pub open spec fn context_form(context: Option<Seq<char>>) -> Seq<char> {
    match context {
        None => "null"@,
        Some(raw) => match json_rewritten(raw) {
            Some(doc) => doc,
            None => json_string_form(raw),
        },
    }
}

/// The related game as written: `null` for a global action.
pub open spec fn game_form(game: Option<Seq<char>>) -> Seq<char> {
    match game {
        Some(g) if g.len() > 0 => json_string_form(g),
        _ => "null"@,
    }
}

pub open spec fn text_or_empty(t: Option<Seq<char>>) -> Seq<char> {
    match t {
        Some(s) => s,
        None => Seq::empty(),
    }
}

/// The line for an event whose source and category are known.
pub open spec fn line_form(
    level: LogLevel,
    ts: Seq<char>,
    source: Seq<char>,
    category: Seq<char>,
    message: Seq<char>,
    context: Option<Seq<char>>,
    game: Option<Seq<char>>,
) -> Seq<char> {
    "{\"ts\":"@ + json_string_form(ts) + ",\"source\":"@ + json_string_form(source)
        + ",\"category\":"@ + json_string_form(category) + ",\"level\":"@ + json_string_form(
        level.slug_text(),
    ) + ",\"message\":"@ + json_string_form(message) + ",\"context\":"@ + context_form(context)
        + ",\"related_game\":"@ + game_form(game) + "}"@
}

/// The line an event gives, if any.
pub open spec fn event_line(level: LogLevel, ts: Seq<char>, f: EventFields) -> Option<Seq<char>> {
    match (f.source, f.category) {
        (Some(s), Some(c)) => if LogSource::parse_text(s@) is Some && LogCategory::parse_text(c@) is Some {
            Some(
                line_form(
                    level,
                    ts,
                    s@,
                    c@,
                    text_or_empty(opt_text_view(f.message)),
                    opt_text_view(f.context),
                    opt_text_view(f.related_game),
                ),
            )
        } else {
            None
        },
        _ => None,
    }
}

fn context_json(context: &Option<String>) -> (r: String)
    ensures
        r@ == context_form(opt_text_view(*context)),
{
    match context {
        None => owned("null"),
        Some(raw) => match rewrite_json(raw.as_str()) {
            Some(doc) => doc,
            None => json_string_text(raw.as_str()),
        },
    }
}

fn game_json(game: &Option<String>) -> (r: String)
    ensures
        r@ == game_form(opt_text_view(*game)),
{
    match game {
        Some(g) => {
            if g.unicode_len() > 0 {
                json_string_text(g.as_str())
            } else {
                owned("null")
            }
        },
        None => owned("null"),
    }
}

fn message_json(message: &Option<String>) -> (r: String)
    ensures
        r@ == json_string_form(text_or_empty(opt_text_view(*message))),
{
    match message {
        Some(m) => {
            let t = json_string_text(m.as_str());
            assert(opt_text_view(*message) == Some(m@));
            t
        },
        None => {
            proof {
                reveal_strlit("");
                assert(""@ =~= Seq::<char>::empty());
            }
            json_string_text("")
        },
    }
}

/// Renders an event as one JSON line with the keys `ts`, `source`,
/// `category`, `level`, `message`, `context`, `related_game` in that order;
/// `ts` is the event's time as already formatted.  `None` when the source or
/// the category is missing or unknown.
pub fn build_line(level: LogLevel, ts: &str, fields: &EventFields) -> (r: Option<String>)
    ensures
        match r {
            Some(t) => event_line(level, ts@, *fields) == Some(t@),
            None => event_line(level, ts@, *fields) is None,
        },
{
    let source = match &fields.source {
        Some(s) => s,
        None => return None,
    };
    let category = match &fields.category {
        Some(c) => c,
        None => return None,
    };
    if LogSource::from_slug(source.as_str()).is_none() || LogCategory::from_slug(category.as_str()).is_none() {
        return None;
    }
    let ts_json = json_string_text(ts);
    let source_json = json_string_text(source.as_str());
    let category_json = json_string_text(category.as_str());
    let level_json = json_string_text(level.slug());
    let message_json = message_json(&fields.message);
    let context_json = context_json(&fields.context);
    let game_json = game_json(&fields.related_game);
    let mut line = owned("{\"ts\":");
    append_str(&mut line, ts_json.as_str());
    append_str(&mut line, ",\"source\":");
    append_str(&mut line, source_json.as_str());
    append_str(&mut line, ",\"category\":");
    append_str(&mut line, category_json.as_str());
    append_str(&mut line, ",\"level\":");
    append_str(&mut line, level_json.as_str());
    append_str(&mut line, ",\"message\":");
    append_str(&mut line, message_json.as_str());
    append_str(&mut line, ",\"context\":");
    append_str(&mut line, context_json.as_str());
    append_str(&mut line, ",\"related_game\":");
    append_str(&mut line, game_json.as_str());
    append_str(&mut line, "}");
    Some(line)
}

} // verus!

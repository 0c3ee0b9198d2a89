//! The "needs attention" judgement, computed once here and only consumed
//! by the UI:
//!
//! ```text
//! needs_attention := update_available ∨ status == Broken ∨ version unknown
//!                  ∨ ∃ tool: compat ∈ {Unknown, Incompatible, Deprecated}
//! ```
//!
//! The tool clause holds whether or not the tool is enabled.

use vstd::prelude::*;

use crate::compat::CompatStatus;
use crate::model::GameRuntimeStatus;
use crate::version::Version;

verus! {

/// Why an installation needs attention. Declaration order is the order in
/// which reasons are reported.
#[derive(Debug, Clone, Copy, PartialEq, Eq, Structural, PartialOrd, Ord)]
pub enum AttentionReason {
    UpdateAvailable,
    Broken,
    VersionUnknown,
    ToolUnknown,
    ToolIncompatible,
}

impl AttentionReason {
    pub open spec fn slug_text(self) -> Seq<char> {
        match self {
            AttentionReason::UpdateAvailable => "update_available"@,
            AttentionReason::Broken => "broken"@,
            AttentionReason::VersionUnknown => "version_unknown"@,
            AttentionReason::ToolUnknown => "tool_unknown"@,
            AttentionReason::ToolIncompatible => "tool_incompatible"@,
        }
    }

    /// Position in the reporting order.
    pub open spec fn rank(self) -> int {
        match self {
            AttentionReason::UpdateAvailable => 0,
            AttentionReason::Broken => 1,
            AttentionReason::VersionUnknown => 2,
            AttentionReason::ToolUnknown => 3,
            AttentionReason::ToolIncompatible => 4,
        }
    }

    pub fn slug(self) -> (r: &'static str)
        ensures
            r@ == self.slug_text(),
    {
        match self {
            AttentionReason::UpdateAvailable => "update_available",
            AttentionReason::Broken => "broken",
            AttentionReason::VersionUnknown => "version_unknown",
            AttentionReason::ToolUnknown => "tool_unknown",
            AttentionReason::ToolIncompatible => "tool_incompatible",
        }
    }
}

/// The inputs of the judgement, given explicitly rather than read from a
/// database.
#[derive(Debug, Clone)]
pub struct AttentionInput {
    pub status: GameRuntimeStatus,
    pub update_available: bool,
    /// `None`: the local version could not be recognized.
    pub version_norm: Option<Version>,
    /// Compatibility of every tool of the game (empty when it has none).
    pub tool_compat: Vec<CompatStatus>,
}

impl AttentionInput {
    pub fn new(
        status: GameRuntimeStatus,
        update_available: bool,
        version_norm: Option<Version>,
        tool_compat: Vec<CompatStatus>,
    ) -> (r: AttentionInput)
        ensures
            r.status == status,
            r.update_available == update_available,
            r.version_norm == version_norm,
            r.tool_compat == tool_compat,
    {
        AttentionInput { status, update_available, version_norm, tool_compat }
    }
}

pub open spec fn any_tool_unknown(tools: Seq<CompatStatus>) -> bool {
    exists|i: int| 0 <= i < tools.len() && tools[i] == CompatStatus::Unknown
}

pub open spec fn any_tool_blocked(tools: Seq<CompatStatus>) -> bool {
    exists|i: int| 0 <= i < tools.len() && #[trigger] tools[i].hard_blocked()
}

pub open spec fn if_then(b: bool, r: AttentionReason) -> Seq<AttentionReason> {
    if b {
        seq![r]
    } else {
        Seq::empty()
    }
}

/// Every reason that holds, each once, in reporting order.
pub open spec fn reasons_of(input: AttentionInput) -> Seq<AttentionReason> {
    if_then(input.update_available, AttentionReason::UpdateAvailable) + if_then(
        input.status == GameRuntimeStatus::Broken,
        AttentionReason::Broken,
    ) + if_then(input.version_norm is None, AttentionReason::VersionUnknown) + if_then(
        any_tool_unknown(input.tool_compat@),
        AttentionReason::ToolUnknown,
    ) + if_then(any_tool_blocked(input.tool_compat@), AttentionReason::ToolIncompatible)
}

/// The judgement itself.
pub open spec fn needs_attention_spec(input: AttentionInput) -> bool {
    ||| input.update_available
    ||| input.status == GameRuntimeStatus::Broken
    ||| input.version_norm is None
    ||| any_tool_unknown(input.tool_compat@)
    ||| any_tool_blocked(input.tool_compat@)
}

fn scan_tools(tools: &Vec<CompatStatus>) -> (r: (bool, bool))
    ensures
        r.0 == any_tool_unknown(tools@),
        r.1 == any_tool_blocked(tools@),
{
    let mut unknown = false;
    let mut blocked = false;
    let mut i: usize = 0;
    while i < tools.len()
        invariant
            i <= tools.len(),
            unknown == exists|j: int| 0 <= j < i && tools@[j] == CompatStatus::Unknown,
            blocked == exists|j: int| 0 <= j < i && #[trigger] tools@[j].hard_blocked(),
        decreases tools.len() - i,
    {
        let c = tools[i];
        if c == CompatStatus::Unknown {
            unknown = true;
        }
        if c.is_hard_blocked() {
            blocked = true;
        }
        i = i + 1;
    }
    (unknown, blocked)
}

/// The reasons, deduplicated and in reporting order; empty means no
/// attention is needed.
pub fn attention_reasons(input: &AttentionInput) -> (r: Vec<AttentionReason>)
    ensures
        r@ == reasons_of(*input),
{
    let (tool_unknown, tool_blocked) = scan_tools(&input.tool_compat);
    let mut reasons: Vec<AttentionReason> = Vec::new();
    if input.update_available {
        reasons.push(AttentionReason::UpdateAvailable);
    }
    if input.status == GameRuntimeStatus::Broken {
        reasons.push(AttentionReason::Broken);
    }
    if input.version_norm.is_none() {
        reasons.push(AttentionReason::VersionUnknown);
    }
    if tool_unknown {
        reasons.push(AttentionReason::ToolUnknown);
    }
    if tool_blocked {
        reasons.push(AttentionReason::ToolIncompatible);
    }
    assert(reasons@ =~= reasons_of(*input));
    reasons
}

pub fn needs_attention(input: &AttentionInput) -> (r: bool)
    ensures
        r == needs_attention_spec(*input),
{
    let reasons = attention_reasons(input);
    proof {
        lemma_reasons_nonempty_iff(*input);
    }
    reasons.len() > 0
}

/// The reason list is non-empty exactly when the judgement holds.
pub proof fn lemma_reasons_nonempty_iff(input: AttentionInput)
    ensures
        reasons_of(input).len() > 0 <==> needs_attention_spec(input),
{
}

/// Reasons come out strictly increasing in reporting order, so none is
/// repeated however many tools share a state.
pub proof fn lemma_reasons_sorted_unique(input: AttentionInput)
    ensures
        forall|i: int, j: int|
            0 <= i < j < reasons_of(input).len() ==> (#[trigger] reasons_of(input)[i]).rank()
                < (#[trigger] reasons_of(input)[j]).rank(),
{
    let s = reasons_of(input);
    assert forall|i: int, j: int| 0 <= i < j < s.len() implies (#[trigger] s[i]).rank() < (
    #[trigger] s[j]).rank() by {
        let a = if_then(input.update_available, AttentionReason::UpdateAvailable);
        let b = if_then(input.status == GameRuntimeStatus::Broken, AttentionReason::Broken);
        let c = if_then(input.version_norm is None, AttentionReason::VersionUnknown);
        let d = if_then(any_tool_unknown(input.tool_compat@), AttentionReason::ToolUnknown);
        let e = if_then(any_tool_blocked(input.tool_compat@), AttentionReason::ToolIncompatible);
        assert(s == a + b + c + d + e);
        assert forall|k: int| 0 <= k < s.len() implies (#[trigger] s[k]).rank() >= k && s[k].rank()
            <= 4 - (s.len() - 1 - k) by {
            assert((a + b + c + d + e).len() == a.len() + b.len() + c.len() + d.len() + e.len());
        }
    }
}

} // verus!

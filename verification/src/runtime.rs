//! Runtime states of installations: a status derived from the process
//! table, and the changes between two polls.
//!
//! An installation whose executable runs is `running` with the process's
//! pid; otherwise its stored status shows.  The first poll only sets the
//! baseline: it reports no change.

use vstd::prelude::*;

use crate::installation::InstallationRecord;
use crate::model::GameRuntimeStatus;
use crate::process::{running_pid, ProcessSnapshot};
use crate::text::str_eq;

verus! {

/// The runtime state of one installation.
#[derive(Debug, Clone, PartialEq, Eq)]
pub struct RuntimeState {
    pub installation_id: String,
    pub status: GameRuntimeStatus,
    pub pid: Option<u32>,
}

/// The state of a record given a snapshot.
pub open spec fn state_of(
    r: InstallationRecord,
    snapshot: Seq<crate::process::ProcessEntry>,
    fold_case: bool,
    s: RuntimeState,
) -> bool {
    let pid = running_pid(snapshot, r.executable_path@, fold_case);
    &&& s.installation_id == r.id
    &&& s.pid == pid
    &&& s.status == (if pid is Some {
        GameRuntimeStatus::Running
    } else {
        r.status.runtime()
    })
}

/// The states of the records, in record order.
pub fn runtime_states(records: &[InstallationRecord], snapshot: &ProcessSnapshot) -> (r: Vec<
    RuntimeState,
>)
    ensures
        r@.len() == records@.len(),
        forall|i: int| 0 <= i < records@.len() ==> state_of(records@[i], snapshot@, snapshot.folds_case(), #[trigger] r@[i]),
{
    let mut out: Vec<RuntimeState> = Vec::new();
    let mut i: usize = 0;
    while i < records.len()
        invariant
            i <= records@.len(),
            out@.len() == i,
            forall|k: int| 0 <= k < i ==> state_of(records@[k], snapshot@, snapshot.folds_case(), #[trigger] out@[k]),
        decreases records@.len() - i,
    {
        let record = &records[i];
        let pid = snapshot.find_running(record.executable_path.as_str());
        let status = match pid {
            Some(_) => GameRuntimeStatus::Running,
            None => record.status.to_runtime(),
        };
        out.push(RuntimeState { installation_id: record.id.clone(), status, pid });
        i = i + 1;
    }
    out
}

/// A change found by a poll: which installation changed, and the pid that
/// was running before when its process has just gone away (crashes too).
#[derive(Debug, Clone, Copy, PartialEq, Eq, Structural)]
pub struct RuntimeChange {
    pub index: usize,
    pub exited_pid: Option<u32>,
}

/// The previous state of an installation: the first with its id.
pub open spec fn previous_state(prev: Seq<RuntimeState>, installation_id: Seq<char>) -> Option<RuntimeState>
    decreases prev.len(),
{
    if prev.len() == 0 {
        None
    } else if prev[0].installation_id@ == installation_id {
        Some(prev[0])
    } else {
        previous_state(prev.drop_first(), installation_id)
    }
}

/// Whether the state at `i` changed, and what exited.
pub open spec fn change_at(prev: Seq<RuntimeState>, cur: Seq<RuntimeState>, i: int) -> Option<RuntimeChange> {
    match previous_state(prev, cur[i].installation_id@) {
        None => Some(RuntimeChange { index: i as usize, exited_pid: None }),
        Some(before) => if before.status != cur[i].status || before.pid != cur[i].pid {
            Some(
                RuntimeChange {
                    index: i as usize,
                    exited_pid: if before.pid is Some && cur[i].pid is None {
                        before.pid
                    } else {
                        None
                    },
                },
            )
        } else {
            None
        },
    }
}

/// The changes among the first `n` current states, in order.
pub open spec fn changes_upto(prev: Seq<RuntimeState>, cur: Seq<RuntimeState>, n: int) -> Seq<RuntimeChange>
    decreases n,
{
    if n <= 0 {
        Seq::empty()
    } else {
        match change_at(prev, cur, n - 1) {
            Some(c) => changes_upto(prev, cur, n - 1).push(c),
            None => changes_upto(prev, cur, n - 1),
        }
    }
}

fn previous_for<'a>(prev: &'a Vec<RuntimeState>, installation_id: &str) -> (r: Option<&'a RuntimeState>)
    ensures
        match r {
            Some(s) => previous_state(prev@, installation_id@) == Some(*s),
            None => previous_state(prev@, installation_id@) is None,
        },
{
    let mut i: usize = 0;
    assert(prev@.skip(0) =~= prev@);
    while i < prev.len()
        invariant
            i <= prev@.len(),
            previous_state(prev@, installation_id@) == previous_state(prev@.skip(i as int), installation_id@),
        decreases prev@.len() - i,
    {
        assert(prev@.skip(i as int)[0] == prev@[i as int]);
        if str_eq(prev[i].installation_id.as_str(), installation_id) {
            return Some(&prev[i]);
        }
        assert(prev@.skip(i as int).drop_first() =~= prev@.skip(i + 1));
        i = i + 1;
    }
    None
}

/// The changes since the previous poll: an installation changes when it is
/// new or its status or pid differs.  Without a previous poll nothing is
/// reported (the first poll is the baseline).
pub fn runtime_changes(previous: &Option<Vec<RuntimeState>>, current: &Vec<RuntimeState>) -> (r: Vec<
    RuntimeChange,
>)
    ensures
        match previous {
            None => r@.len() == 0,
            Some(prev) => r@ == changes_upto(prev@, current@, current@.len() as int),
        },
{
    let prev = match previous {
        None => return Vec::new(),
        Some(p) => p,
    };
    let mut out: Vec<RuntimeChange> = Vec::new();
    let mut i: usize = 0;
    while i < current.len()
        invariant
            i <= current@.len(),
            out@ == changes_upto(prev@, current@, i as int),
        decreases current@.len() - i,
    {
        let state = &current[i];
        match previous_for(prev, state.installation_id.as_str()) {
            None => {
                out.push(RuntimeChange { index: i, exited_pid: None });
            },
            Some(before) => {
                if before.status != state.status || before.pid != state.pid {
                    let exited = match (before.pid, state.pid) {
                        (Some(p), None) => Some(p),
                        _ => None,
                    };
                    out.push(RuntimeChange { index: i, exited_pid: exited });
                }
            },
        }
        i = i + 1;
    }
    out
}

/// An installation is running when a state of it carries a pid.
pub open spec fn running_in(runtime: Seq<RuntimeState>, installation_id: Seq<char>) -> bool {
    exists|i: int|
        0 <= i < runtime.len() && (#[trigger] runtime[i]).installation_id@ == installation_id
            && runtime[i].pid is Some
}

/// Whether the states show the installation running.
pub fn is_running(runtime: &[RuntimeState], installation_id: &str) -> (r: bool)
    ensures
        r == running_in(runtime@, installation_id@),
{
    let mut i: usize = 0;
    while i < runtime.len()
        invariant
            i <= runtime@.len(),
            forall|k: int|
                0 <= k < i ==> !((#[trigger] runtime@[k]).installation_id@ == installation_id@
                    && runtime@[k].pid is Some),
        decreases runtime@.len() - i,
    {
        if str_eq(runtime[i].installation_id.as_str(), installation_id) && runtime[i].pid.is_some() {
            return true;
        }
        i = i + 1;
    }
    false
}

/// One poll against the stored baseline.  `current` is `None` when no states
/// could be read (no database, or reading the installations failed): then
/// nothing is reported and the baseline stays.  Otherwise the changes since
/// the baseline are reported and `current` becomes the new baseline.
pub fn poll_step(baseline: Option<Vec<RuntimeState>>, current: Option<Vec<RuntimeState>>) -> (r: (
    Option<Vec<RuntimeState>>,
    Vec<RuntimeChange>,
))
    ensures
        current is None ==> r.0 == baseline && r.1@.len() == 0,
        current matches Some(c) ==> {
            &&& r.0 == Some(c)
            &&& match baseline {
                None => r.1@.len() == 0,
                Some(prev) => r.1@ == changes_upto(prev@, c@, c@.len() as int),
            }
        },
{
    match current {
        None => (baseline, Vec::new()),
        Some(c) => {
            let changes = runtime_changes(&baseline, &c);
            (Some(c), changes)
        },
    }
}

/// `prev[j]` is the first previous state of the installation.
pub open spec fn first_state_with(prev: Seq<RuntimeState>, installation_id: Seq<char>, j: int) -> bool {
    &&& 0 <= j < prev.len()
    &&& prev[j].installation_id@ == installation_id
    &&& forall|m: int| 0 <= m < j ==> (#[trigger] prev[m]).installation_id@ != installation_id
}

proof fn lemma_previous_state_first(prev: Seq<RuntimeState>, id: Seq<char>)
    ensures
        previous_state(prev, id) is None <==> (forall|j: int|
            0 <= j < prev.len() ==> (#[trigger] prev[j]).installation_id@ != id),
        previous_state(prev, id) is Some ==> exists|j: int|
            #[trigger] first_state_with(prev, id, j) && previous_state(prev, id) == Some(prev[j]),
    decreases prev.len(),
{
    if prev.len() == 0 {
    } else if prev[0].installation_id@ == id {
        assert(first_state_with(prev, id, 0));
    } else {
        let rest = prev.drop_first();
        lemma_previous_state_first(rest, id);
        if previous_state(rest, id) is None {
            assert forall|j: int| 0 <= j < prev.len() implies (#[trigger] prev[j]).installation_id@ != id by {
                if j > 0 {
                    assert(prev[j] == rest[j - 1]);
                }
            }
        } else {
            let j = choose|j: int| #[trigger] first_state_with(rest, id, j) && previous_state(rest, id) == Some(rest[j]);
            assert(prev[j + 1] == rest[j]);
            assert forall|m: int| 0 <= m < j + 1 implies (#[trigger] prev[m]).installation_id@ != id by {
                if m > 0 {
                    assert(prev[m] == rest[m - 1]);
                }
            }
            assert(first_state_with(prev, id, j + 1));
        }
    }
}

/// Two first matches are the same state.
proof fn lemma_first_state_unique(prev: Seq<RuntimeState>, id: Seq<char>, a: int, b: int)
    requires
        first_state_with(prev, id, a),
        first_state_with(prev, id, b),
    ensures
        a == b,
{
    if a < b {
        assert(prev[a].installation_id@ != id);
    } else if b < a {
        assert(prev[b].installation_id@ != id);
    }
}

proof fn lemma_changes_upto_shape(prev: Seq<RuntimeState>, cur: Seq<RuntimeState>, n: int)
    requires
        0 <= n <= cur.len(),
        cur.len() <= usize::MAX,
    ensures
        forall|k: int| 0 <= k < changes_upto(prev, cur, n).len() ==> {
            let c = #[trigger] changes_upto(prev, cur, n)[k];
            &&& 0 <= c.index < n
            &&& change_at(prev, cur, c.index as int) == Some(c)
        },
        forall|a: int, b: int|
            0 <= a < b < changes_upto(prev, cur, n).len() ==> (#[trigger] changes_upto(prev, cur, n)[a]).index
                < (#[trigger] changes_upto(prev, cur, n)[b]).index,
        forall|i: int| 0 <= i < n ==> ((exists|k: int|
            0 <= k < changes_upto(prev, cur, n).len() && (#[trigger] changes_upto(prev, cur, n)[k]).index == i)
            <==> #[trigger] change_at(prev, cur, i) is Some),
    decreases n,
{
    if n > 0 {
        lemma_changes_upto_shape(prev, cur, n - 1);
        let before = changes_upto(prev, cur, n - 1);
        let now = changes_upto(prev, cur, n);
        match change_at(prev, cur, n - 1) {
            Some(x) => {
                assert(now == before.push(x));
                assert(x.index == n - 1);
                assert forall|i: int| 0 <= i < n implies ((exists|k: int|
                    0 <= k < now.len() && (#[trigger] now[k]).index == i) <==> #[trigger] change_at(prev, cur, i) is Some) by {
                    if i < n - 1 {
                        if exists|k: int| 0 <= k < now.len() && (#[trigger] now[k]).index == i {
                            let k = choose|k: int| 0 <= k < now.len() && (#[trigger] now[k]).index == i;
                            assert(k < before.len());
                            assert(now[k] == before[k]);
                        }
                        if change_at(prev, cur, i) is Some {
                            let k = choose|k: int| 0 <= k < before.len() && (#[trigger] before[k]).index == i;
                            assert(now[k] == before[k]);
                        }
                    } else {
                        assert(now[before.len() as int].index == i);
                    }
                }
            },
            None => {
                assert(now == before);
                assert forall|i: int| 0 <= i < n implies ((exists|k: int|
                    0 <= k < now.len() && (#[trigger] now[k]).index == i) <==> #[trigger] change_at(prev, cur, i) is Some) by {
                    if i == n - 1 {
                        if exists|k: int| 0 <= k < now.len() && (#[trigger] now[k]).index == i {
                            let k = choose|k: int| 0 <= k < now.len() && (#[trigger] now[k]).index == i;
                            assert(now[k].index < n - 1);
                        }
                    }
                }
            },
        }
    }
}

/// The changes a poll reports come in record order, each installation at
/// most once.
pub proof fn lemma_changes_in_record_order(prev: Seq<RuntimeState>, cur: Seq<RuntimeState>)
    requires
        cur.len() <= usize::MAX,
    ensures
        forall|k: int|
            0 <= k < changes_upto(prev, cur, cur.len() as int).len() ==> (#[trigger] changes_upto(
                prev,
                cur,
                cur.len() as int,
            )[k]).index < cur.len(),
        forall|a: int, b: int|
            0 <= a < b < changes_upto(prev, cur, cur.len() as int).len() ==> (#[trigger] changes_upto(
                prev,
                cur,
                cur.len() as int,
            )[a]).index < (#[trigger] changes_upto(prev, cur, cur.len() as int)[b]).index,
{
    lemma_changes_upto_shape(prev, cur, cur.len() as int);
}

/// An installation is reported as changed exactly when it has no previous
/// state, or its first previous state differs from the current one in
/// status or in pid.
pub proof fn lemma_change_reported_iff_new_or_different(prev: Seq<RuntimeState>, cur: Seq<RuntimeState>, i: int)
    requires
        0 <= i < cur.len(),
        cur.len() <= usize::MAX,
    ensures
        (exists|k: int|
            0 <= k < changes_upto(prev, cur, cur.len() as int).len() && (#[trigger] changes_upto(
                prev,
                cur,
                cur.len() as int,
            )[k]).index == i) <==> {
            ||| forall|j: int| 0 <= j < prev.len() ==> (#[trigger] prev[j]).installation_id@ != cur[i].installation_id@
            ||| exists|j: int|
                #[trigger] first_state_with(prev, cur[i].installation_id@, j) && (prev[j].status != cur[i].status
                    || prev[j].pid != cur[i].pid)
        },
{
    let id = cur[i].installation_id@;
    lemma_changes_upto_shape(prev, cur, cur.len() as int);
    assert((exists|k: int|
        0 <= k < changes_upto(prev, cur, cur.len() as int).len() && (#[trigger] changes_upto(prev, cur, cur.len() as int)[k]).index == i)
        <==> change_at(prev, cur, i) is Some);
    lemma_previous_state_first(prev, id);
    if previous_state(prev, id) is Some {
        let j0 = choose|j: int| #[trigger] first_state_with(prev, id, j) && previous_state(prev, id) == Some(prev[j]);
        assert forall|j: int| #[trigger] first_state_with(prev, id, j) implies j == j0 by {
            lemma_first_state_unique(prev, id, j, j0);
        }
        assert(prev[j0].installation_id@ == id);
    }
}

/// A reported change carries an exited pid exactly when the installation
/// ran before (its first previous state has a pid) and runs no more; the
/// pid is the one it had.
pub proof fn lemma_exit_carries_previous_pid(prev: Seq<RuntimeState>, cur: Seq<RuntimeState>, k: int)
    requires
        0 <= k < changes_upto(prev, cur, cur.len() as int).len(),
        cur.len() <= usize::MAX,
    ensures
        ({
            let c = changes_upto(prev, cur, cur.len() as int)[k];
            let id = cur[c.index as int].installation_id@;
            &&& c.index < cur.len()
            &&& (forall|j: int| 0 <= j < prev.len() ==> (#[trigger] prev[j]).installation_id@ != id) ==> c.exited_pid is None
            &&& forall|j: int| #[trigger] first_state_with(prev, id, j) ==> c.exited_pid == (if cur[c.index as int].pid is None {
                prev[j].pid
            } else {
                None
            })
        }),
{
    lemma_changes_upto_shape(prev, cur, cur.len() as int);
    let c = changes_upto(prev, cur, cur.len() as int)[k];
    let i = c.index as int;
    let id = cur[i].installation_id@;
    assert(change_at(prev, cur, i) == Some(c));
    lemma_previous_state_first(prev, id);
    if previous_state(prev, id) is Some {
        let j0 = choose|j: int| #[trigger] first_state_with(prev, id, j) && previous_state(prev, id) == Some(prev[j]);
        assert(prev[j0].installation_id@ == id);
        assert forall|j: int| #[trigger] first_state_with(prev, id, j) implies c.exited_pid == (if cur[i].pid is None {
            prev[j].pid
        } else {
            None
        }) by {
            lemma_first_state_unique(prev, id, j, j0);
        }
    }
}

/// A poll that sees exactly the previous states reports no change.
pub proof fn lemma_unchanged_poll_is_quiet(states: Seq<RuntimeState>, n: int)
    requires
        0 <= n <= states.len(),
        forall|i: int, j: int|
            0 <= i < j < states.len() ==> (#[trigger] states[i]).installation_id@ != (#[trigger] states[j]).installation_id@,
    ensures
        changes_upto(states, states, n).len() == 0,
    decreases n,
{
    if n > 0 {
        lemma_unchanged_poll_is_quiet(states, n - 1);
        lemma_previous_state_is_own(states, n - 1);
    }
}

proof fn lemma_previous_state_is_own(states: Seq<RuntimeState>, i: int)
    requires
        0 <= i < states.len(),
        forall|a: int, b: int|
            0 <= a < b < states.len() ==> (#[trigger] states[a]).installation_id@ != (#[trigger] states[b]).installation_id@,
    ensures
        previous_state(states, states[i].installation_id@) == Some(states[i]),
    decreases i,
{
    if i > 0 {
        let rest = states.drop_first();
        assert(states[0].installation_id@ != states[i].installation_id@);
        assert forall|a: int, b: int| 0 <= a < b < rest.len() implies (#[trigger] rest[a]).installation_id@
            != (#[trigger] rest[b]).installation_id@ by {
            assert(rest[a] == states[a + 1]);
            assert(rest[b] == states[b + 1]);
        }
        lemma_previous_state_is_own(rest, i - 1);
        assert(rest[i - 1] == states[i]);
    }
}

} // verus!

//! Process snapshots and the rule that ties a process to an installation.
//!
//! An installation runs when some process's executable path equals its
//! recorded executable path, or lies under it with a path separator as the
//! boundary.  Both paths are first brought to one form: the `\\?\` prefix is
//! dropped, `/` becomes `\`, and where the platform's paths ignore letter case
//! (Windows) both are lower-cased.  Reading the process table happens outside
//! the library, which hands the listing in.

use vstd::prelude::*;

use vstd::string::StrSliceExecFns;

use crate::text::{chars_of, lowercase_form, lowercased, string_of};

verus! {

/// The minimal view of one process.
#[derive(Debug, Clone, PartialEq, Eq)]
pub struct ProcessEntry {
    pub pid: u32,
    /// The native executable path; processes without one are not kept.
    pub exe_path: String,
}

/// The process table at one moment.
#[derive(Debug, Clone, PartialEq, Eq)]
pub struct ProcessSnapshot {
    entries: Vec<ProcessEntry>,
    /// Whether paths are compared ignoring letter case.
    fold_case: bool,
}

impl View for ProcessSnapshot {
    type V = Seq<ProcessEntry>;

    closed spec fn view(&self) -> Seq<ProcessEntry> {
        self.entries@
    }
}

/// The `\\?\` prefix of verbatim paths.
pub open spec fn verbatim_prefix() -> Seq<char> {
    seq!['\\', '\\', '?', '\\']
}

/// `p` without a leading `\\?\`, with every `/` turned into `\`.
pub open spec fn normalized_path(p: Seq<char>) -> Seq<char> {
    let s = if p.len() >= 4 && p.take(4) == verbatim_prefix() {
        p.skip(4)
    } else {
        p
    };
    s.map_values(|c: char| if c == '/' { '\\' } else { c })
}

/// The prefix a process path must start with to lie under `r`.
pub open spec fn dir_prefix(r: Seq<char>) -> Seq<char> {
    if r.len() > 0 && r.last() == '\\' {
        r
    } else {
        r.push('\\')
    }
}

/// `p` equals `r`, or lies under it with a separator as the boundary.
pub open spec fn same_or_under(p: Seq<char>, r: Seq<char>) -> bool {
    p == r || (p.len() >= dir_prefix(r).len() && p.take(dir_prefix(r).len() as int) == dir_prefix(r))
}

/// The form a path is compared in: normalized, and lower-cased where the
/// platform's paths ignore case.
pub open spec fn compared_form(path: Seq<char>, fold_case: bool) -> Seq<char> {
    if fold_case {
        lowercase_form(normalized_path(path))
    } else {
        normalized_path(path)
    }
}

/// A process path matches a recorded path: equal once brought to one form,
/// or under it with a separator as the boundary.
pub open spec fn path_match(process: Seq<char>, recorded: Seq<char>, fold_case: bool) -> bool {
    same_or_under(compared_form(process, fold_case), compared_form(recorded, fold_case))
}

/// The first process of the snapshot that runs the recorded executable.
pub open spec fn running_pid(es: Seq<ProcessEntry>, recorded: Seq<char>, fold_case: bool) -> Option<u32>
    decreases es.len(),
{
    if recorded.len() == 0 || es.len() == 0 {
        None
    } else if path_match(es[0].exe_path@, recorded, fold_case) {
        Some(es[0].pid)
    } else {
        running_pid(es.drop_first(), recorded, fold_case)
    }
}

/// The normalized form of a path, as characters.
fn normalize_chars(path: &str) -> (r: Vec<char>)
    ensures
        r@ == normalized_path(path@),
{
    let cs = chars_of(path);
    let n = cs.len();
    let start: usize = if n >= 4 && cs[0] == '\\' && cs[1] == '\\' && cs[2] == '?' && cs[3] == '\\' {
        assert(cs@.take(4) =~= verbatim_prefix());
        4
    } else {
        assert(n >= 4 ==> cs@.take(4) != verbatim_prefix()) by {
            if n >= 4 && cs@.take(4) == verbatim_prefix() {
                assert(cs@.take(4)[0] == cs@[0]);
                assert(cs@.take(4)[1] == cs@[1]);
                assert(cs@.take(4)[2] == cs@[2]);
                assert(cs@.take(4)[3] == cs@[3]);
            }
        }
        0
    };
    let ghost s = cs@.skip(start as int);
    assert(s =~= (if path@.len() >= 4 && path@.take(4) == verbatim_prefix() {
        path@.skip(4)
    } else {
        path@
    }));
    let mut out: Vec<char> = Vec::new();
    let mut i = start;
    while i < n
        invariant
            cs@ == path@,
            n == cs@.len(),
            start <= i <= n,
            s == cs@.skip(start as int),
            out@ == s.take(i - start).map_values(|c: char| if c == '/' { '\\' } else { c }),
        decreases n - i,
    {
        let c = cs[i];
        out.push(if c == '/' { '\\' } else { c });
        i = i + 1;
        assert(s.take(i - start) =~= s.take(i - start - 1).push(c));
        assert(out@ =~= s.take(i - start).map_values(|c: char| if c == '/' { '\\' } else { c }));
    }
    assert(s.take(n - start) =~= s);
    out
}

/// The compared form of a path, as characters.
fn compared_chars(path: &str, fold_case: bool) -> (r: Vec<char>)
    ensures
        r@ == compared_form(path@, fold_case),
{
    let n = normalize_chars(path);
    if fold_case {
        let text = string_of(&n, 0, n.len());
        assert(n@.subrange(0, n.len() as int) =~= n@);
        let lower = lowercased(text.as_str());
        chars_of(lower.as_str())
    } else {
        n
    }
}

/// Whether a process path matches a recorded executable path; with
/// `fold_case`, letter case is ignored (the platform's paths ignore it).
pub fn path_matches(process_exe: &str, recorded_exe: &str, fold_case: bool) -> (r: bool)
    ensures
        r == path_match(process_exe@, recorded_exe@, fold_case),
{
    let p = compared_chars(process_exe, fold_case);
    let r = compared_chars(recorded_exe, fold_case);
    same_or_under_chars(&p, &r)
}

fn same_or_under_chars(p: &Vec<char>, r: &Vec<char>) -> (res: bool)
    ensures
        res == same_or_under(p@, r@),
{
    if p.len() == r.len() {
        let mut i: usize = 0;
        let mut same = true;
        while i < p.len()
            invariant
                p.len() == r.len(),
                i <= p.len(),
                same == forall|k: int| 0 <= k < i ==> p@[k] == r@[k],
            decreases p.len() - i,
        {
            if p[i] != r[i] {
                same = false;
            }
            i = i + 1;
        }
        if same {
            assert(p@ =~= r@);
            return true;
        }
        assert(p@ != r@) by {
            let k = choose|k: int| 0 <= k < p@.len() && p@[k] != r@[k];
        }
    }
    assert(p@ != r@);
    // The boundary prefix: `r` itself when it ends with a separator, else `r` + separator.
    let ends_with_sep = r.len() > 0 && r[r.len() - 1] == '\\';
    let ghost prefix = dir_prefix(r@);
    if ends_with_sep {
        assert(prefix == r@);
        if p.len() < r.len() {
            return false;
        }
    } else {
        assert(prefix == r@.push('\\'));
        if p.len() <= r.len() {
            return false;
        }
        if p[r.len()] != '\\' {
            assert(p@.take(prefix.len() as int)[r@.len() as int] != prefix[r@.len() as int]);
            return false;
        }
    }
    let mut i: usize = 0;
    while i < r.len()
        invariant
            p@ != r@,
            prefix == dir_prefix(r@),
            p.len() >= prefix.len(),
            prefix.len() >= r.len(),
            forall|k: int| 0 <= k < r@.len() ==> prefix[k] == r@[k],
            prefix.len() > r.len() ==> p@[r@.len() as int] == prefix[r@.len() as int],
            i <= r.len(),
            forall|k: int| 0 <= k < i ==> p@[k] == prefix[k],
        decreases r.len() - i,
    {
        if p[i] != r[i] {
            assert(p@.take(prefix.len() as int)[i as int] != prefix[i as int]);
            return false;
        }
        i = i + 1;
    }
    assert(p@.take(prefix.len() as int) =~= prefix);
    true
}

impl ProcessSnapshot {
    /// Whether this snapshot compares paths ignoring letter case.
    pub closed spec fn folds_case(&self) -> bool {
        self.fold_case
    }

    /// The empty snapshot: nothing is known to run.
    pub fn empty() -> (r: ProcessSnapshot)
        ensures
            r@.len() == 0,
            !r.folds_case(),
    {
        ProcessSnapshot { entries: Vec::new(), fold_case: false }
    }

    /// A snapshot of the given entries.
    pub fn from_entries(entries: Vec<ProcessEntry>) -> (r: ProcessSnapshot)
        ensures
            r@ == entries@,
            !r.folds_case(),
    {
        ProcessSnapshot { entries, fold_case: false }
    }

    /// The same snapshot, comparing paths ignoring letter case or not (on
    /// Windows paths ignore case).
    pub fn with_case_folding(self, fold_case: bool) -> (r: ProcessSnapshot)
        ensures
            r@ == self@,
            r.folds_case() == fold_case,
    {
        ProcessSnapshot { entries: self.entries, fold_case }
    }

    /// A snapshot of a raw process listing: processes without an executable
    /// path, or with an empty one, are left out (an empty path would match
    /// everything).
    pub fn from_listing(listing: Vec<(u32, Option<String>)>) -> (r: ProcessSnapshot)
        ensures
            r@ == kept_processes(listing@),
            !r.folds_case(),
    {
        let mut entries: Vec<ProcessEntry> = Vec::new();
        let mut i: usize = 0;
        while i < listing.len()
            invariant
                i <= listing@.len(),
                entries@ == kept_processes(listing@.take(i as int)),
            decreases listing@.len() - i,
        {
            let (pid, path) = &listing[i];
            assert(listing@.take(i + 1).drop_last() =~= listing@.take(i as int));
            match path {
                Some(p) => {
                    if p.as_str().unicode_len() > 0 {
                        entries.push(ProcessEntry { pid: *pid, exe_path: p.clone() });
                    }
                },
                None => {},
            }
            i = i + 1;
        }
        assert(listing@.take(i as int) =~= listing@);
        ProcessSnapshot { entries, fold_case: false }
    }

    pub fn entries(&self) -> (r: &[ProcessEntry])
        ensures
            r@ == self@,
    {
        self.entries.as_slice()
    }

    pub fn len(&self) -> (r: usize)
        ensures
            r == self@.len(),
    {
        self.entries.len()
    }

    pub fn is_empty(&self) -> (r: bool)
        ensures
            r == (self@.len() == 0),
    {
        self.entries.len() == 0
    }

    /// The pid of the first process running the recorded executable; never
    /// a match for an empty recorded path.
    pub fn find_running(&self, executable_path: &str) -> (r: Option<u32>)
        ensures
            r == running_pid(self@, executable_path@, self.folds_case()),
    {
        if executable_path.unicode_len() == 0 {
            proof {
                assert(executable_path@.len() == 0);
            }
            return None;
        }
        let mut i: usize = 0;
        assert(self.entries@.skip(0) =~= self.entries@);
        while i < self.entries.len()
            invariant
                executable_path@.len() > 0,
                i <= self.entries@.len(),
                self@ == self.entries@,
                running_pid(self.entries@, executable_path@, self.fold_case) == running_pid(
                    self.entries@.skip(i as int),
                    executable_path@,
                    self.fold_case,
                ),
            decreases self.entries@.len() - i,
        {
            let e = &self.entries[i];
            assert(self.entries@.skip(i as int)[0] == self.entries@[i as int]);
            if path_matches(e.exe_path.as_str(), executable_path, self.fold_case) {
                return Some(e.pid);
            }
            assert(self.entries@.skip(i as int).drop_first() =~= self.entries@.skip(i + 1));
            i = i + 1;
        }
        None
    }
}

/// The entries a raw listing keeps: those with a non-empty path, in order.
pub open spec fn kept_processes(listing: Seq<(u32, Option<String>)>) -> Seq<ProcessEntry>
    decreases listing.len(),
{
    if listing.len() == 0 {
        Seq::empty()
    } else {
        let rest = kept_processes(listing.drop_last());
        match listing.last().1 {
            Some(p) => if p@.len() > 0 {
                rest.push(ProcessEntry { pid: listing.last().0, exe_path: p })
            } else {
                rest
            },
            None => rest,
        }
    }
}

/// An empty recorded path never matches, whatever runs.
pub proof fn lemma_empty_path_never_runs(es: Seq<ProcessEntry>, fold_case: bool)
    ensures
        running_pid(es, Seq::empty(), fold_case) is None,
{
}

/// What an attempt to end a process came to.
#[derive(Debug, Clone, Copy, PartialEq, Eq, Structural)]
pub enum KillOutcome {
    /// The process was told to end.
    Signalled,
    /// The process had already gone (or the pid now runs another program).
    Gone,
    /// The system refused: the process still runs.
    Denied,
}

} // verus!

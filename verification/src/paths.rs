//! Layout of the application data directory:
//!
//! ```text
//! <data dir>/
//! ├── orbis.db
//! ├── backups/<installation_id>/<backup_id>/
//! └── logs/orbis.YYYY-MM-DD.log
//! ```
//!
//! A path is held as its components, the data directory's first; the
//! application joins them with the platform's separator.  When the data
//! directory cannot be resolved, neither can anything under it.

use vstd::prelude::*;

use crate::json::texts_view;
use crate::text::owned;

verus! {

/// `parts` below the directory `dir`, if there is one.
pub open spec fn below(dir: Option<Vec<String>>, parts: Seq<Seq<char>>, r: Option<Vec<String>>) -> bool {
    match (dir, r) {
        (None, None) => true,
        (Some(d), Some(p)) => texts_view(p@) == texts_view(d@) + parts,
        _ => false,
    }
}

fn joined(dir: Option<Vec<String>>, parts: &[&str]) -> (r: Option<Vec<String>>)
    ensures
        below(dir, parts@.map_values(|s: &str| s@), r),
{
    match dir {
        None => None,
        Some(d) => {
            let ghost base = d@;
            let mut p = d;
            let mut i: usize = 0;
            while i < parts.len()
                invariant
                    i <= parts@.len(),
                    p@.len() == base.len() + i,
                    forall|k: int| 0 <= k < base.len() ==> (#[trigger] p@[k])@ == base[k]@,
                    forall|k: int| 0 <= k < i ==> (#[trigger] p@[base.len() + k])@ == parts@[k]@,
                decreases parts@.len() - i,
            {
                p.push(owned(parts[i]));
                i = i + 1;
            }
            assert(texts_view(p@) =~= texts_view(base) + parts@.map_values(|s: &str| s@)) by {
                assert forall|k: int| base.len() <= k < p@.len() implies (#[trigger] p@[k])@
                    == parts@[k - base.len()]@ by {
                    assert(p@[base.len() + (k - base.len())] == p@[k]);
                }
            }
            Some(p)
        },
    }
}

/// The log directory: `<data dir>/logs`.
pub fn logs_dir(data_dir: Option<Vec<String>>) -> (r: Option<Vec<String>>)
    ensures
        below(data_dir, seq!["logs"@], r),
{
    let parts = ["logs"];
    let r = joined(data_dir, &parts);
    proof {
        assert(parts@.map_values(|s: &str| s@) =~= seq!["logs"@]);
    }
    r
}

/// The database file: `<data dir>/orbis.db`.
pub fn db_path(data_dir: Option<Vec<String>>) -> (r: Option<Vec<String>>)
    ensures
        below(data_dir, seq!["orbis.db"@], r),
{
    let parts = ["orbis.db"];
    let r = joined(data_dir, &parts);
    proof {
        assert(parts@.map_values(|s: &str| s@) =~= seq!["orbis.db"@]);
    }
    r
}

/// The backup root: `<data dir>/backups`.
pub fn backups_dir(data_dir: Option<Vec<String>>) -> (r: Option<Vec<String>>)
    ensures
        below(data_dir, seq!["backups"@], r),
{
    let parts = ["backups"];
    let r = joined(data_dir, &parts);
    proof {
        assert(parts@.map_values(|s: &str| s@) =~= seq!["backups"@]);
    }
    r
}

/// One backup's directory: `<data dir>/backups/<installation_id>/<backup_id>`.
/// Two levels, so that removing an installation removes one directory.
pub fn backup_dir(data_dir: Option<Vec<String>>, installation_id: &str, backup_id: &str) -> (r: Option<
    Vec<String>,
>)
    ensures
        below(data_dir, seq!["backups"@, installation_id@, backup_id@], r),
{
    let parts = ["backups", installation_id, backup_id];
    let r = joined(data_dir, &parts);
    proof {
        assert(parts@.map_values(|s: &str| s@) =~= seq!["backups"@, installation_id@, backup_id@]);
    }
    r
}

} // verus!

//! What the version control reports, brought into the form in which it is
//! shown: one letter for the status of a file, counts of added and deleted
//! lines, and the diffs that have something in them.
//!
//! The repository is read by the caller. A status comes in as the flags
//! that are set in it.

use crate::paths::{normalize_git_path, with_forward_slashes};
use crate::text::{blank, is_blank};
use crate::usage::{saturated, sum_saturated};
use vstd::prelude::*;

verus! {

/// The flags of a file's status: what differs in the index, and what in the
/// working tree.
#[derive(Clone, Copy, Debug, PartialEq, Eq)]
pub struct StatusFlags {
    pub index_new: bool,
    pub index_modified: bool,
    pub index_deleted: bool,
    pub index_renamed: bool,
    pub index_typechange: bool,
    pub wt_new: bool,
    pub wt_modified: bool,
    pub wt_deleted: bool,
    pub wt_renamed: bool,
    pub wt_typechange: bool,
}

/// The status of a file, as it is listed.
#[derive(Debug)]
pub struct GitFileStatus {
    pub path: String,
    pub status: String,
    pub additions: i64,
    pub deletions: i64,
}

/// The diff of a file, as it is shown.
#[derive(Debug)]
pub struct GitFileDiff {
    pub path: String,
    pub diff: String,
}

/// The lines that a diff adds and deletes.
#[derive(Clone, Copy, Debug, PartialEq, Eq)]
pub struct LineCounts {
    pub additions: i64,
    pub deletions: i64,
}

/// The letter of a status: `A` for a new file, else `M` for a modified one,
/// else `D` for a deleted one, else `R` for a renamed one, else `T` for one
/// whose type changed, and `--` where none of these is set.
pub open spec fn status_letter(flags: StatusFlags) -> Seq<char> {
    if flags.wt_new || flags.index_new {
        "A"@
    } else if flags.wt_modified || flags.index_modified {
        "M"@
    } else if flags.wt_deleted || flags.index_deleted {
        "D"@
    } else if flags.wt_renamed || flags.index_renamed {
        "R"@
    } else if flags.wt_typechange || flags.index_typechange {
        "T"@
    } else {
        "--"@
    }
}

/// Whether the status says that the index differs from the last commit.
pub open spec fn index_differs(flags: StatusFlags) -> bool {
    flags.index_new || flags.index_modified || flags.index_deleted || flags.index_renamed
        || flags.index_typechange
}

/// Whether the status says that the working tree differs from the index.
pub open spec fn workdir_differs(flags: StatusFlags) -> bool {
    flags.wt_new || flags.wt_modified || flags.wt_deleted || flags.wt_renamed
        || flags.wt_typechange
}

/// A count as a 64-bit number, held at the largest where it is larger.
pub open spec fn count_of(n: usize) -> i64 {
    saturated(n as int)
}

/// The letter of a status.
pub fn status_code(flags: StatusFlags) -> (letter: &'static str)
    ensures
        letter@ == status_letter(flags),
{
    if flags.wt_new || flags.index_new {
        "A"
    } else if flags.wt_modified || flags.index_modified {
        "M"
    } else if flags.wt_deleted || flags.index_deleted {
        "D"
    } else if flags.wt_renamed || flags.index_renamed {
        "R"
    } else if flags.wt_typechange || flags.index_typechange {
        "T"
    } else {
        "--"
    }
}

/// Whether the diff between the last commit and the index is to be counted
/// for a file with this status.
pub fn includes_index(flags: StatusFlags) -> (included: bool)
    ensures
        included == index_differs(flags),
{
    flags.index_new || flags.index_modified || flags.index_deleted || flags.index_renamed
        || flags.index_typechange
}

/// Whether the diff between the index and the working tree is to be counted
/// for a file with this status.
pub fn includes_workdir(flags: StatusFlags) -> (included: bool)
    ensures
        included == workdir_differs(flags),
{
    flags.wt_new || flags.wt_modified || flags.wt_deleted || flags.wt_renamed
        || flags.wt_typechange
}

/// The name of the branch to show: the short name of `HEAD`, and `unknown`
/// where it has none.
pub fn branch_name(shorthand: Option<&str>) -> (name: String)
    ensures
        name@ == match shorthand {
            Some(short) => short@,
            None => "unknown"@,
        },
{
    match shorthand {
        Some(short) => short.to_owned(),
        None => "unknown".to_owned(),
    }
}

fn count(n: usize) -> (held: i64)
    ensures
        held == count_of(n),
        held >= 0,
{
    let wide: u64 = n as u64;
    if wide > 0x7fff_ffff_ffff_ffff {
        i64::MAX
    } else {
        wide as i64
    }
}

/// The lines that a diff adds and deletes, from the counts of its
/// statistics.
pub fn line_counts(insertions: usize, deletions: usize) -> (counts: LineCounts)
    ensures
        counts.additions == count_of(insertions),
        counts.deletions == count_of(deletions),
        counts.additions >= 0,
        counts.deletions >= 0,
{
    LineCounts { additions: count(insertions), deletions: count(deletions) }
}

/// The sum of two counts of lines, each part held to the range of 64 bits.
pub fn add_counts(a: LineCounts, b: LineCounts) -> (sum: LineCounts)
    ensures
        sum.additions == saturated(a.additions + b.additions),
        sum.deletions == saturated(a.deletions + b.deletions),
{
    LineCounts {
        additions: sum_saturated(a.additions, b.additions),
        deletions: sum_saturated(a.deletions, b.deletions),
    }
}

/// The lines that a file's changes add and delete: those of the diff of the
/// index and those of the diff of the working tree, each where the status
/// asks for it and the caller has counted it.
pub fn diff_stats(flags: StatusFlags, index: Option<LineCounts>, workdir: Option<LineCounts>) -> (total:
    LineCounts)
    ensures
        total == ({
            let first = if index_differs(flags) && index is Some {
                index->0
            } else {
                LineCounts { additions: 0, deletions: 0 }
            };
            let second = if workdir_differs(flags) && workdir is Some {
                workdir->0
            } else {
                LineCounts { additions: 0, deletions: 0 }
            };
            LineCounts {
                additions: saturated(first.additions + second.additions),
                deletions: saturated(first.deletions + second.deletions),
            }
        }),
{
    let nothing = LineCounts { additions: 0, deletions: 0 };
    let first = match index {
        Some(counts) => if includes_index(flags) {
            counts
        } else {
            nothing
        },
        None => nothing,
    };
    let second = match workdir {
        Some(counts) => if includes_workdir(flags) {
            counts
        } else {
            nothing
        },
        None => nothing,
    };
    add_counts(first, second)
}

/// The entry of the status list for a file. A file without a path is not
/// listed.
pub fn file_status(path: &str, flags: StatusFlags, counts: LineCounts) -> (listed: Option<
    GitFileStatus,
>)
    ensures
        match listed {
            Some(entry) => {
                &&& path@.len() > 0
                &&& entry.path@ == with_forward_slashes(path@)
                &&& entry.status@ == status_letter(flags)
                &&& entry.additions == counts.additions
                &&& entry.deletions == counts.deletions
            },
            None => path@.len() == 0,
        },
{
    if path.is_empty() {
        return None;
    }
    Some(
        GitFileStatus {
            path: normalize_git_path(path),
            status: status_code(flags).to_owned(),
            additions: counts.additions,
            deletions: counts.deletions,
        },
    )
}

/// The entry of the diff list for a file. A diff that is blank is not
/// listed.
pub fn file_diff(path: &str, diff: String) -> (listed: Option<GitFileDiff>)
    ensures
        match listed {
            Some(entry) => {
                &&& !is_blank(diff@)
                &&& entry.path@ == with_forward_slashes(path@)
                &&& entry.diff == diff
            },
            None => is_blank(diff@),
        },
{
    if blank(diff.as_str()) {
        return None;
    }
    Some(GitFileDiff { path: normalize_git_path(path), diff })
}

} // verus!

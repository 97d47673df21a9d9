//! The row data handed to the layout engine by the data layer.
//!
//! Each row arrives with its text fields already rendered (branch name,
//! relative age, shortened path, joined state labels): producing those
//! strings is the job of the surrounding program; measuring and placing
//! them is the job of this library.

use vstd::prelude::*;

verus! {

/// Whether a row describes a checked-out worktree or a bare branch.
#[derive(Clone, Copy, Debug, PartialEq, Eq, Structural)]
pub enum RowKind {
    Worktree,
    Branch,
}

/// One entry of the listing, with every field reduced to a plain value.
pub struct Row {
    pub kind: RowKind,
    /// Whether this is the primary worktree; ahead/behind and branch-diff
    /// counts are meaningful only for non-primary rows.
    pub is_primary: bool,
    pub branch: String,
    /// The commit's age, already formatted for display (e.g. "3 days ago").
    pub time_label: String,
    pub message: String,
    /// Working-tree diff line counts (added, removed); worktrees only.
    pub working_diff: (u64, u64),
    /// Commits ahead of / behind the main branch.
    pub ahead: u64,
    pub behind: u64,
    /// Branch-vs-main diff line counts (added, removed).
    pub branch_diff: (u64, u64),
    /// Upstream tracking counts (ahead, behind), when an upstream is set.
    pub upstream: Option<(u64, u64)>,
    /// Joined state labels (e.g. "[rebasing]"), empty when none apply.
    pub states_label: String,
    /// Whether a CI status was reported for this row.
    pub has_ci_status: bool,
    /// Worktree path in display form, after common-prefix shortening.
    pub path_label: String,
}

} // verus!

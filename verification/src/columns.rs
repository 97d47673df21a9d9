//! Column width, data-flag and position records for the listing layout.

use vstd::prelude::*;
use crate::textwidth::{display_width, display_width_of};

verus! {

/// Width of the short commit hash display (first 8 hex characters).
pub const COMMIT_HASH_WIDTH: usize = 8;

/// Column header labels - the single source of truth for all column headers.
pub fn header_branch() -> (r: &'static str)
    ensures
        r@ == "Branch"@,
{
    "Branch"
}

pub fn header_working_diff() -> (r: &'static str)
    ensures
        r@ == "Working ±"@,
{
    "Working ±"
}

pub fn header_ahead_behind() -> (r: &'static str)
    ensures
        r@ == "Main ↕"@,
{
    "Main ↕"
}

pub fn header_branch_diff() -> (r: &'static str)
    ensures
        r@ == "Main ±"@,
{
    "Main ±"
}

pub fn header_state() -> (r: &'static str)
    ensures
        r@ == "State"@,
{
    "State"
}

pub fn header_path() -> (r: &'static str)
    ensures
        r@ == "Path"@,
{
    "Path"
}

pub fn header_upstream() -> (r: &'static str)
    ensures
        r@ == "Remote ↕"@,
{
    "Remote ↕"
}

pub fn header_age() -> (r: &'static str)
    ensures
        r@ == "Age"@,
{
    "Age"
}

pub fn header_ci() -> (r: &'static str)
    ensures
        r@ == "CI"@,
{
    "CI"
}

pub fn header_commit() -> (r: &'static str)
    ensures
        r@ == "Commit"@,
{
    "Commit"
}

pub fn header_message() -> (r: &'static str)
    ensures
        r@ == "Message"@,
{
    "Message"
}

/// The width a column takes once its header is accounted for: the larger of
/// the data width and the header's display width.
pub open spec fn fit_w(data: nat, header: nat) -> nat {
    if data < header {
        header
    } else {
        data
    }
}

/// Ensures a column width is at least as wide as its header, so that headers
/// never overflow their column.
pub fn fit_header(header: &str, data_width: usize) -> (r: usize)
    ensures
        r == fit_w(data_width as nat, display_width_of(header@)),
{
    let hw = display_width(header);
    if data_width < hw {
        hw
    } else {
        data_width
    }
}

/// Width information for two-part columns: diffs ("+128 -147") and arrows
/// ("↑6 ↓1").  The two digit fields are the widths of the numeric sub-parts,
/// tracked separately so that both parts align across rows.
#[derive(Clone, Copy, Debug, PartialEq, Eq, Structural)]
pub struct DiffWidths {
    pub total: usize,
    pub added_digits: usize,
    pub deleted_digits: usize,
}

impl DiffWidths {
    pub fn zero() -> (r: Self)
        ensures
            r == spec_diff_zero(),
    {
        Self { total: 0, added_digits: 0, deleted_digits: 0 }
    }
}

pub open spec fn spec_diff_zero() -> DiffWidths {
    DiffWidths { total: 0, added_digits: 0, deleted_digits: 0 }
}

/// Final (or ideal) width of every column of the listing.
#[derive(Clone, Copy, Debug, PartialEq, Eq, Structural)]
pub struct ColumnWidths {
    pub branch: usize,
    pub time: usize,
    pub ci_status: usize,
    pub message: usize,
    pub ahead_behind: DiffWidths,
    pub working_diff: DiffWidths,
    pub branch_diff: DiffWidths,
    pub upstream: DiffWidths,
    pub states: usize,
    pub commit: usize,
    pub path: usize,
}

/// Tracks which columns have actual data (vs just headers).
#[derive(Clone, Copy, Debug, PartialEq, Eq, Structural)]
pub struct ColumnDataFlags {
    pub working_diff: bool,
    pub ahead_behind: bool,
    pub branch_diff: bool,
    pub upstream: bool,
    pub states: bool,
    pub ci_status: bool,
}

/// Absolute column start offsets for guaranteed alignment; 0 marks a hidden
/// column (every visible column but the first starts after a gap).
#[derive(Clone, Copy, Debug, PartialEq, Eq, Structural)]
pub struct ColumnPositions {
    pub branch: usize,
    pub working_diff: usize,
    pub ahead_behind: usize,
    pub branch_diff: usize,
    pub states: usize,
    pub path: usize,
    pub upstream: usize,
    pub time: usize,
    pub ci_status: usize,
    pub commit: usize,
    pub message: usize,
}

/// The complete layout decision for one listing.
pub struct LayoutConfig {
    pub widths: ColumnWidths,
    pub positions: ColumnPositions,
    pub max_message_len: usize,
}

} // verus!

//! Mathematical model of the two-pass priority allocation.
//!
//! Every stage of the allocator is mirrored by a spec function over the same
//! inputs, so that `calculate_responsive_layout` can promise exactly which
//! width every column ends up with, and the layout laws (headers fit, the
//! visible columns fit the terminal, empty columns yield to the message) can
//! be proved once over the model.

use vstd::prelude::*;
use crate::calc::{max_path_w, spec_data_flags, spec_ideal_widths};
use crate::columns::{fit_w, spec_diff_zero, ColumnDataFlags, ColumnPositions, ColumnWidths, DiffWidths};
use crate::row::Row;
use crate::textwidth::display_width_of;

verus! {

/// Everything the allocator reads: ideal widths, data flags, the
/// header-fitted path and commit widths, the two feature flags, and the
/// terminal width.
pub ghost struct AllocInput {
    pub ideal: ColumnWidths,
    pub flags: ColumnDataFlags,
    pub path_ideal: usize,
    pub commit_ideal: usize,
    pub show_full: bool,
    pub fetch_ci: bool,
    pub width: nat,
}

/// The allocator input derived from a row set and the layout parameters.
pub open spec fn alloc_input(rows: Seq<Row>, show_full: bool, fetch_ci: bool, w: nat) -> AllocInput {
    AllocInput {
        ideal: spec_ideal_widths(rows, fetch_ci),
        flags: spec_data_flags(rows, fetch_ci),
        path_ideal: fit_w(max_path_w(rows), display_width_of("Path"@)) as usize,
        commit_ideal: fit_w(8, display_width_of("Commit"@)) as usize,
        show_full,
        fetch_ci,
        width: w,
    }
}

/// All columns hidden: the allocator's starting state.
pub open spec fn zero_widths() -> ColumnWidths {
    ColumnWidths {
        branch: 0,
        time: 0,
        ci_status: 0,
        message: 0,
        ahead_behind: spec_diff_zero(),
        working_diff: spec_diff_zero(),
        branch_diff: spec_diff_zero(),
        upstream: spec_diff_zero(),
        states: 0,
        commit: 0,
        path: 0,
    }
}

/// Width granted by one allocation attempt: the full ideal width if the
/// budget covers it (plus the gap, unless this is the first column), else 0.
pub open spec fn alloc_w_g(rem: int, ideal: int, spacing: int, is_first: bool) -> int {
    let required = if is_first {
        ideal
    } else {
        ideal + spacing
    };
    if ideal == 0 || rem < required {
        0
    } else {
        ideal
    }
}

/// Budget left after one allocation attempt.
pub open spec fn alloc_rem_g(rem: int, ideal: int, spacing: int, is_first: bool) -> int {
    let required = if is_first {
        ideal
    } else {
        ideal + spacing
    };
    if ideal == 0 || rem < required {
        rem
    } else {
        rem - required
    }
}

pub open spec fn alloc_w(rem: int, ideal: int, is_first: bool) -> int {
    alloc_w_g(rem, ideal, 2, is_first)
}

pub open spec fn alloc_rem(rem: int, ideal: int, is_first: bool) -> int {
    alloc_rem_g(rem, ideal, 2, is_first)
}

// === Pass 1: columns with data, in priority order ===

pub open spec fn aw_branch(a: AllocInput) -> int {
    alloc_w(a.width as int, a.ideal.branch as int, true)
}

pub open spec fn ar_branch(a: AllocInput) -> int {
    alloc_rem(a.width as int, a.ideal.branch as int, true)
}

pub open spec fn aw_wd1(a: AllocInput) -> int {
    if a.flags.working_diff {
        alloc_w(ar_branch(a), a.ideal.working_diff.total as int, false)
    } else {
        0
    }
}

pub open spec fn ar_wd1(a: AllocInput) -> int {
    if a.flags.working_diff {
        alloc_rem(ar_branch(a), a.ideal.working_diff.total as int, false)
    } else {
        ar_branch(a)
    }
}

pub open spec fn aw_ab1(a: AllocInput) -> int {
    if a.flags.ahead_behind {
        alloc_w(ar_wd1(a), a.ideal.ahead_behind.total as int, false)
    } else {
        0
    }
}

pub open spec fn ar_ab1(a: AllocInput) -> int {
    if a.flags.ahead_behind {
        alloc_rem(ar_wd1(a), a.ideal.ahead_behind.total as int, false)
    } else {
        ar_wd1(a)
    }
}

pub open spec fn aw_bd1(a: AllocInput) -> int {
    if a.show_full && a.flags.branch_diff {
        alloc_w(ar_ab1(a), a.ideal.branch_diff.total as int, false)
    } else {
        0
    }
}

pub open spec fn ar_bd1(a: AllocInput) -> int {
    if a.show_full && a.flags.branch_diff {
        alloc_rem(ar_ab1(a), a.ideal.branch_diff.total as int, false)
    } else {
        ar_ab1(a)
    }
}

pub open spec fn aw_st1(a: AllocInput) -> int {
    if a.flags.states {
        alloc_w(ar_bd1(a), a.ideal.states as int, false)
    } else {
        0
    }
}

pub open spec fn ar_st1(a: AllocInput) -> int {
    if a.flags.states {
        alloc_rem(ar_bd1(a), a.ideal.states as int, false)
    } else {
        ar_bd1(a)
    }
}

pub open spec fn aw_path(a: AllocInput) -> int {
    alloc_w(ar_st1(a), a.path_ideal as int, false)
}

pub open spec fn ar_path(a: AllocInput) -> int {
    alloc_rem(ar_st1(a), a.path_ideal as int, false)
}

pub open spec fn aw_up1(a: AllocInput) -> int {
    if a.flags.upstream {
        alloc_w(ar_path(a), a.ideal.upstream.total as int, false)
    } else {
        0
    }
}

pub open spec fn ar_up1(a: AllocInput) -> int {
    if a.flags.upstream {
        alloc_rem(ar_path(a), a.ideal.upstream.total as int, false)
    } else {
        ar_path(a)
    }
}

pub open spec fn aw_time(a: AllocInput) -> int {
    alloc_w(ar_up1(a), a.ideal.time as int, false)
}

pub open spec fn ar_time(a: AllocInput) -> int {
    alloc_rem(ar_up1(a), a.ideal.time as int, false)
}

pub open spec fn aw_ci1(a: AllocInput) -> int {
    if a.flags.ci_status {
        alloc_w(ar_time(a), a.ideal.ci_status as int, false)
    } else {
        0
    }
}

pub open spec fn ar_ci1(a: AllocInput) -> int {
    if a.flags.ci_status {
        alloc_rem(ar_time(a), a.ideal.ci_status as int, false)
    } else {
        ar_time(a)
    }
}

pub open spec fn aw_commit(a: AllocInput) -> int {
    alloc_w(ar_ci1(a), a.commit_ideal as int, false)
}

pub open spec fn ar_commit(a: AllocInput) -> int {
    alloc_rem(ar_ci1(a), a.commit_ideal as int, false)
}

// === Message placement: before any empty column ===

/// The width the message column tries for: the preferred width when it fits,
/// else whatever remains (down to the floor), else nothing.
pub open spec fn msg_try(a: AllocInput) -> int {
    let rem = ar_commit(a);
    if rem >= 50 + 2 {
        50
    } else if rem >= 20 + 2 {
        if rem - 2 < a.ideal.message as int {
            rem - 2
        } else {
            a.ideal.message as int
        }
    } else {
        0
    }
}

/// The message width granted before expansion: never more than its ideal.
pub open spec fn msg_base(a: AllocInput) -> int {
    if msg_try(a) > 0 {
        if msg_try(a) < a.ideal.message as int {
            msg_try(a)
        } else {
            a.ideal.message as int
        }
    } else {
        0
    }
}

pub open spec fn ar_msg(a: AllocInput) -> int {
    if msg_try(a) > 0 {
        ar_commit(a) - (msg_try(a) + 2)
    } else {
        ar_commit(a)
    }
}

// === Pass 2: columns without data, same order, remaining budget ===

pub open spec fn aw_wd2(a: AllocInput) -> int {
    if !a.flags.working_diff {
        alloc_w(ar_msg(a), a.ideal.working_diff.total as int, false)
    } else {
        0
    }
}

pub open spec fn ar_wd2(a: AllocInput) -> int {
    if !a.flags.working_diff {
        alloc_rem(ar_msg(a), a.ideal.working_diff.total as int, false)
    } else {
        ar_msg(a)
    }
}

pub open spec fn aw_ab2(a: AllocInput) -> int {
    if !a.flags.ahead_behind {
        alloc_w(ar_wd2(a), a.ideal.ahead_behind.total as int, false)
    } else {
        0
    }
}

pub open spec fn ar_ab2(a: AllocInput) -> int {
    if !a.flags.ahead_behind {
        alloc_rem(ar_wd2(a), a.ideal.ahead_behind.total as int, false)
    } else {
        ar_wd2(a)
    }
}

pub open spec fn aw_bd2(a: AllocInput) -> int {
    if a.show_full && !a.flags.branch_diff {
        alloc_w(ar_ab2(a), a.ideal.branch_diff.total as int, false)
    } else {
        0
    }
}

pub open spec fn ar_bd2(a: AllocInput) -> int {
    if a.show_full && !a.flags.branch_diff {
        alloc_rem(ar_ab2(a), a.ideal.branch_diff.total as int, false)
    } else {
        ar_ab2(a)
    }
}

pub open spec fn aw_st2(a: AllocInput) -> int {
    if !a.flags.states {
        alloc_w(ar_bd2(a), a.ideal.states as int, false)
    } else {
        0
    }
}

pub open spec fn ar_st2(a: AllocInput) -> int {
    if !a.flags.states {
        alloc_rem(ar_bd2(a), a.ideal.states as int, false)
    } else {
        ar_bd2(a)
    }
}

pub open spec fn aw_up2(a: AllocInput) -> int {
    if !a.flags.upstream {
        alloc_w(ar_st2(a), a.ideal.upstream.total as int, false)
    } else {
        0
    }
}

pub open spec fn ar_up2(a: AllocInput) -> int {
    if !a.flags.upstream {
        alloc_rem(ar_st2(a), a.ideal.upstream.total as int, false)
    } else {
        ar_st2(a)
    }
}

pub open spec fn aw_ci2(a: AllocInput) -> int {
    if a.fetch_ci && !a.flags.ci_status {
        alloc_w(ar_up2(a), a.ideal.ci_status as int, false)
    } else {
        0
    }
}

pub open spec fn ar_ci2(a: AllocInput) -> int {
    if a.fetch_ci && !a.flags.ci_status {
        alloc_rem(ar_up2(a), a.ideal.ci_status as int, false)
    } else {
        ar_up2(a)
    }
}

// === Message expansion: leftover budget, up to the absolute cap ===

pub open spec fn msg_expansion(a: AllocInput) -> int {
    if msg_base(a) > 0 && msg_base(a) < 100 && ar_ci2(a) > 0 {
        if ar_ci2(a) < 100 - msg_base(a) {
            ar_ci2(a)
        } else {
            100 - msg_base(a)
        }
    } else {
        0
    }
}

pub open spec fn msg_final(a: AllocInput) -> int {
    msg_base(a) + msg_expansion(a)
}

/// Budget left once every allocation decision has been made.
pub open spec fn ar_final(a: AllocInput) -> int {
    ar_ci2(a) - msg_expansion(a)
}

/// The final width of every column.  A two-part column keeps its full ideal
/// record when either pass granted it space, and is zeroed otherwise.
pub open spec fn final_widths(a: AllocInput) -> ColumnWidths {
    ColumnWidths {
        branch: aw_branch(a) as usize,
        time: aw_time(a) as usize,
        ci_status: (aw_ci1(a) + aw_ci2(a)) as usize,
        message: msg_final(a) as usize,
        ahead_behind: if aw_ab1(a) > 0 || aw_ab2(a) > 0 {
            a.ideal.ahead_behind
        } else {
            spec_diff_zero()
        },
        working_diff: if aw_wd1(a) > 0 || aw_wd2(a) > 0 {
            a.ideal.working_diff
        } else {
            spec_diff_zero()
        },
        branch_diff: if aw_bd1(a) > 0 || aw_bd2(a) > 0 {
            a.ideal.branch_diff
        } else {
            spec_diff_zero()
        },
        upstream: if aw_up1(a) > 0 || aw_up2(a) > 0 {
            a.ideal.upstream
        } else {
            spec_diff_zero()
        },
        states: (aw_st1(a) + aw_st2(a)) as usize,
        commit: aw_commit(a) as usize,
        path: aw_path(a) as usize,
    }
}

// === Absolute positions: a single left-to-right walk ===

/// Start offset of a column of width `w` when the walk has already covered
/// `ext` cells: hidden columns stay at 0, the first visible column starts at
/// 0, every later one starts after the gap.
pub open spec fn adv_pos(ext: int, w: int) -> int {
    if w == 0 {
        0
    } else if ext == 0 {
        0
    } else {
        ext + 2
    }
}

/// Cells covered once a column of width `w` is placed.
pub open spec fn adv_ext(ext: int, w: int) -> int {
    if w == 0 {
        ext
    } else {
        adv_pos(ext, w) + w
    }
}

pub open spec fn ex_branch(wi: ColumnWidths) -> int {
    adv_ext(0, wi.branch as int)
}

pub open spec fn ex_wd(wi: ColumnWidths) -> int {
    adv_ext(ex_branch(wi), wi.working_diff.total as int)
}

pub open spec fn ex_ab(wi: ColumnWidths) -> int {
    adv_ext(ex_wd(wi), wi.ahead_behind.total as int)
}

pub open spec fn ex_bd(wi: ColumnWidths) -> int {
    adv_ext(ex_ab(wi), wi.branch_diff.total as int)
}

pub open spec fn ex_st(wi: ColumnWidths) -> int {
    adv_ext(ex_bd(wi), wi.states as int)
}

pub open spec fn ex_path(wi: ColumnWidths) -> int {
    adv_ext(ex_st(wi), wi.path as int)
}

pub open spec fn ex_up(wi: ColumnWidths) -> int {
    adv_ext(ex_path(wi), wi.upstream.total as int)
}

pub open spec fn ex_time(wi: ColumnWidths) -> int {
    adv_ext(ex_up(wi), wi.time as int)
}

pub open spec fn ex_ci(wi: ColumnWidths) -> int {
    adv_ext(ex_time(wi), wi.ci_status as int)
}

pub open spec fn ex_commit(wi: ColumnWidths) -> int {
    adv_ext(ex_ci(wi), wi.commit as int)
}

/// Total extent of the visible columns: the sum of their widths plus one gap
/// between each consecutive visible pair.
pub open spec fn walk_extent(wi: ColumnWidths) -> int {
    adv_ext(ex_commit(wi), wi.message as int)
}

/// The absolute start offset of every column, from the same walk.
pub open spec fn spec_positions(wi: ColumnWidths) -> ColumnPositions {
    ColumnPositions {
        branch: adv_pos(0, wi.branch as int) as usize,
        working_diff: adv_pos(ex_branch(wi), wi.working_diff.total as int) as usize,
        ahead_behind: adv_pos(ex_wd(wi), wi.ahead_behind.total as int) as usize,
        branch_diff: adv_pos(ex_ab(wi), wi.branch_diff.total as int) as usize,
        states: adv_pos(ex_bd(wi), wi.states as int) as usize,
        path: adv_pos(ex_st(wi), wi.path as int) as usize,
        upstream: adv_pos(ex_path(wi), wi.upstream.total as int) as usize,
        time: adv_pos(ex_up(wi), wi.time as int) as usize,
        ci_status: adv_pos(ex_time(wi), wi.ci_status as int) as usize,
        commit: adv_pos(ex_ci(wi), wi.commit as int) as usize,
        message: adv_pos(ex_commit(wi), wi.message as int) as usize,
    }
}

/// A column's footprint counting a leading gap: width + 2 when visible.
pub open spec fn col_pad(w: int) -> int {
    if w > 0 {
        w + 2
    } else {
        0
    }
}

/// The budget at which nothing is contested any more: every column that its
/// gate admits fits at its ideal width, gap included, with the message at
/// its preferred width.
pub open spec fn full_demand(a: AllocInput) -> int {
    a.ideal.branch + col_pad(a.ideal.working_diff.total as int) + col_pad(
        a.ideal.ahead_behind.total as int,
    ) + (if a.show_full {
        col_pad(a.ideal.branch_diff.total as int)
    } else {
        0
    }) + col_pad(a.ideal.states as int) + col_pad(a.path_ideal as int) + col_pad(
        a.ideal.upstream.total as int,
    ) + col_pad(a.ideal.time as int) + (if a.fetch_ci || a.flags.ci_status {
        col_pad(a.ideal.ci_status as int)
    } else {
        0
    }) + col_pad(a.commit_ideal as int) + 52
}

/// Sum of the visible columns' widths, a gap charged before every one.
pub open spec fn padded_total(wi: ColumnWidths) -> int {
    col_pad(wi.branch as int) + col_pad(wi.working_diff.total as int) + col_pad(
        wi.ahead_behind.total as int,
    ) + col_pad(wi.branch_diff.total as int) + col_pad(wi.states as int) + col_pad(wi.path as int)
        + col_pad(wi.upstream.total as int) + col_pad(wi.time as int) + col_pad(
        wi.ci_status as int,
    ) + col_pad(wi.commit as int) + col_pad(wi.message as int)
}

} // verus!

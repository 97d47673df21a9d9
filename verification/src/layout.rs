//! Responsive layout: two-pass priority allocation of the terminal width.
//!
//! Pass 1 walks the columns with data in priority order (identity first,
//! then the critical sync columns, then context); a fixed-format column is
//! shown at full width or not at all.  The free-text message is placed next,
//! so that it outranks the cosmetic empty columns; pass 2 then re-walks the
//! order for columns without data, for visual stability when width allows.
//! Leftover budget flows back into the message, up to an absolute cap.

use vstd::prelude::*;
use crate::alloc_model::{
    adv_ext, adv_pos, alloc_input, alloc_rem_g, alloc_w_g, ar_ab1, ar_ab2, ar_bd1, ar_bd2,
    ar_branch, ar_ci1, ar_ci2, ar_commit, ar_msg, ar_path, ar_st1, ar_st2, ar_time, ar_up1,
    ar_up2, ar_wd1, ar_wd2, aw_ab1, aw_ab2, aw_bd1, aw_bd2, aw_branch, aw_ci1, aw_ci2, aw_commit,
    aw_path, aw_st1, aw_st2, aw_time, aw_up1, aw_up2, aw_wd1, aw_wd2, ex_ab, ex_bd, ex_branch,
    ex_ci, ex_commit, ex_path, ex_st, ex_time, ex_up, ex_wd, final_widths, msg_base, msg_final,
    msg_try, spec_positions, walk_extent, zero_widths, AllocInput,
};
use crate::alloc_props::{lemma_headers_never_truncate, lemma_layout_fits, lemma_walk_extent};
use crate::calc::{calculate_column_widths, max_path_width};
use crate::columns::{
    fit_header, header_commit, header_path, spec_diff_zero, ColumnDataFlags, ColumnPositions,
    ColumnWidths, DiffWidths, LayoutConfig, COMMIT_HASH_WIDTH,
};
use crate::row::Row;
use crate::textwidth::display_width_of;

verus! {

/// Floor for the message column: below this, the message is dropped.
pub const MIN_MESSAGE: usize = 20;

/// Width the message column prefers when the budget allows it.
pub const PREFERRED_MESSAGE: usize = 50;

/// Absolute cap on the message column, leftover budget included.
pub const MAX_MESSAGE: usize = 100;

/// Try to allocate space for a column out of `remaining`.  Returns the
/// allocated width (the full ideal width, or 0), charging the width plus the
/// inter-column spacing - no spacing before the first column - against the
/// budget.  A column that does not fit whole is not allocated at all.
fn try_allocate(remaining: &mut usize, ideal_width: usize, spacing: usize, is_first: bool) -> (r:
    usize)
    ensures
        r == alloc_w_g(*old(remaining) as int, ideal_width as int, spacing as int, is_first),
        *final(remaining) == alloc_rem_g(
            *old(remaining) as int,
            ideal_width as int,
            spacing as int,
            is_first,
        ),
{
    if ideal_width == 0 {
        return 0;
    }
    if is_first {
        if *remaining < ideal_width {
            return 0;
        }
        *remaining = *remaining - ideal_width;
        ideal_width
    } else {
        if *remaining < spacing || *remaining - spacing < ideal_width {
            return 0;
        }
        *remaining = *remaining - spacing - ideal_width;
        ideal_width
    }
}

/// Pass 1: allocate the columns that have data, in priority order.
fn alloc_pass1(
    remaining: &mut usize,
    widths: &mut ColumnWidths,
    ideal_widths: &ColumnWidths,
    data_flags: &ColumnDataFlags,
    max_path_fitted: usize,
    commit_width: usize,
    show_full: bool,
    Ghost(a): Ghost<AllocInput>,
)
    requires
        *old(remaining) == a.width,
        *old(widths) == zero_widths(),
        *ideal_widths == a.ideal,
        *data_flags == a.flags,
        max_path_fitted == a.path_ideal,
        commit_width == a.commit_ideal,
        show_full == a.show_full,
    ensures
        *final(remaining) == ar_commit(a),
        final(widths).branch == aw_branch(a),
        final(widths).working_diff == if aw_wd1(a) > 0 {
            a.ideal.working_diff
        } else {
            spec_diff_zero()
        },
        final(widths).ahead_behind == if aw_ab1(a) > 0 {
            a.ideal.ahead_behind
        } else {
            spec_diff_zero()
        },
        final(widths).branch_diff == if aw_bd1(a) > 0 {
            a.ideal.branch_diff
        } else {
            spec_diff_zero()
        },
        final(widths).states == aw_st1(a),
        final(widths).path == aw_path(a),
        final(widths).upstream == if aw_up1(a) > 0 {
            a.ideal.upstream
        } else {
            spec_diff_zero()
        },
        final(widths).time == aw_time(a),
        final(widths).ci_status == aw_ci1(a),
        final(widths).commit == aw_commit(a),
        final(widths).message == 0,
{
    let spacing: usize = 2;

    // Branch column (highest priority - identity, always has data)
    widths.branch = try_allocate(remaining, ideal_widths.branch, spacing, true);
    proof {
        assert(widths.branch == aw_branch(a));
        assert(*remaining == ar_branch(a));
    }

    // Working diff column (critical - uncommitted changes)
    if data_flags.working_diff {
        let allocated_width = try_allocate(
            remaining,
            ideal_widths.working_diff.total,
            spacing,
            false,
        );
        if allocated_width > 0 {
            widths.working_diff = ideal_widths.working_diff;
        }
    }
    proof {
        assert(*remaining == ar_wd1(a));
    }

    // Ahead/behind column (critical sync status)
    if data_flags.ahead_behind {
        let allocated_width = try_allocate(
            remaining,
            ideal_widths.ahead_behind.total,
            spacing,
            false,
        );
        if allocated_width > 0 {
            widths.ahead_behind = ideal_widths.ahead_behind;
        }
    }
    proof {
        assert(*remaining == ar_ab1(a));
    }

    // Branch diff column, only when the full listing was asked for
    if show_full && data_flags.branch_diff {
        let allocated_width = try_allocate(
            remaining,
            ideal_widths.branch_diff.total,
            spacing,
            false,
        );
        if allocated_width > 0 {
            widths.branch_diff = ideal_widths.branch_diff;
        }
    }
    proof {
        assert(*remaining == ar_bd1(a));
    }

    // States column (rare but urgent when present)
    if data_flags.states {
        widths.states = try_allocate(remaining, ideal_widths.states, spacing, false);
    }
    proof {
        assert(widths.states == aw_st1(a));
        assert(*remaining == ar_st1(a));
    }

    // Path column (location - always has data)
    widths.path = try_allocate(remaining, max_path_fitted, spacing, false);
    proof {
        assert(widths.path == aw_path(a));
        assert(*remaining == ar_path(a));
    }

    // Upstream column (sync configuration)
    if data_flags.upstream {
        let allocated_width = try_allocate(remaining, ideal_widths.upstream.total, spacing, false);
        if allocated_width > 0 {
            widths.upstream = ideal_widths.upstream;
        }
    }
    proof {
        assert(*remaining == ar_up1(a));
    }

    // Time column (contextual information, always has data)
    widths.time = try_allocate(remaining, ideal_widths.time, spacing, false);
    proof {
        assert(widths.time == aw_time(a));
        assert(*remaining == ar_time(a));
    }

    // CI status column (fixed width, only when requested and reported)
    if data_flags.ci_status {
        widths.ci_status = try_allocate(remaining, ideal_widths.ci_status, spacing, false);
    }
    proof {
        assert(widths.ci_status == aw_ci1(a));
        assert(*remaining == ar_ci1(a));
    }

    // Commit column (reference hash, always has data)
    widths.commit = try_allocate(remaining, commit_width, spacing, false);
    proof {
        assert(widths.commit == aw_commit(a));
        assert(*remaining == ar_commit(a));
    }
}

/// Pass 2: allocate the columns without data from whatever the message
/// placement left over.
fn alloc_pass2(
    remaining: &mut usize,
    widths: &mut ColumnWidths,
    ideal_widths: &ColumnWidths,
    data_flags: &ColumnDataFlags,
    show_full: bool,
    fetch_ci: bool,
    Ghost(a): Ghost<AllocInput>,
)
    requires
        *old(remaining) == ar_msg(a),
        *ideal_widths == a.ideal,
        *data_flags == a.flags,
        show_full == a.show_full,
        fetch_ci == a.fetch_ci,
        old(widths).working_diff == if aw_wd1(a) > 0 {
            a.ideal.working_diff
        } else {
            spec_diff_zero()
        },
        old(widths).ahead_behind == if aw_ab1(a) > 0 {
            a.ideal.ahead_behind
        } else {
            spec_diff_zero()
        },
        old(widths).branch_diff == if aw_bd1(a) > 0 {
            a.ideal.branch_diff
        } else {
            spec_diff_zero()
        },
        old(widths).states == aw_st1(a),
        old(widths).upstream == if aw_up1(a) > 0 {
            a.ideal.upstream
        } else {
            spec_diff_zero()
        },
        old(widths).ci_status == aw_ci1(a),
    ensures
        *final(remaining) == ar_ci2(a),
        final(widths).working_diff == final_widths(a).working_diff,
        final(widths).ahead_behind == final_widths(a).ahead_behind,
        final(widths).branch_diff == final_widths(a).branch_diff,
        final(widths).states == final_widths(a).states,
        final(widths).upstream == final_widths(a).upstream,
        final(widths).ci_status == final_widths(a).ci_status,
        final(widths).branch == old(widths).branch,
        final(widths).time == old(widths).time,
        final(widths).commit == old(widths).commit,
        final(widths).path == old(widths).path,
        final(widths).message == old(widths).message,
{
    let spacing: usize = 2;

    if !data_flags.working_diff {
        let allocated_width = try_allocate(
            remaining,
            ideal_widths.working_diff.total,
            spacing,
            false,
        );
        if allocated_width > 0 {
            widths.working_diff = ideal_widths.working_diff;
        }
    }
    proof {
        assert(*remaining == ar_wd2(a));
    }

    if !data_flags.ahead_behind {
        let allocated_width = try_allocate(
            remaining,
            ideal_widths.ahead_behind.total,
            spacing,
            false,
        );
        if allocated_width > 0 {
            widths.ahead_behind = ideal_widths.ahead_behind;
        }
    }
    proof {
        assert(*remaining == ar_ab2(a));
    }

    if show_full && !data_flags.branch_diff {
        let allocated_width = try_allocate(
            remaining,
            ideal_widths.branch_diff.total,
            spacing,
            false,
        );
        if allocated_width > 0 {
            widths.branch_diff = ideal_widths.branch_diff;
        }
    }
    proof {
        assert(*remaining == ar_bd2(a));
    }

    if !data_flags.states {
        widths.states = try_allocate(remaining, ideal_widths.states, spacing, false);
    }
    proof {
        assert(widths.states == aw_st1(a) + aw_st2(a));
        assert(*remaining == ar_st2(a));
    }

    if !data_flags.upstream {
        let allocated_width = try_allocate(remaining, ideal_widths.upstream.total, spacing, false);
        if allocated_width > 0 {
            widths.upstream = ideal_widths.upstream;
        }
    }
    proof {
        assert(*remaining == ar_up2(a));
    }

    if fetch_ci && !data_flags.ci_status {
        widths.ci_status = try_allocate(remaining, ideal_widths.ci_status, spacing, false);
    }
    proof {
        assert(widths.ci_status == aw_ci1(a) + aw_ci2(a));
        assert(*remaining == ar_ci2(a));
    }
}

/// Advance the position walk over one column: a hidden column stays at 0 and
/// charges nothing, the first visible column starts at 0, and every later
/// one starts one gap after the previous extent.
fn advance(pos: &mut usize, width: usize) -> (r: usize)
    requires
        adv_ext(*old(pos) as int, width as int) <= usize::MAX,
    ensures
        r == adv_pos(*old(pos) as int, width as int),
        *final(pos) == adv_ext(*old(pos) as int, width as int),
{
    if width == 0 {
        return 0;
    }
    let column_pos = if *pos == 0 {
        0
    } else {
        *pos + 2
    };
    *pos = column_pos + width;
    column_pos
}

/// Compute the absolute start offset of every column by a single
/// left-to-right walk that skips hidden columns entirely.
fn compute_positions(widths: &ColumnWidths) -> (r: ColumnPositions)
    requires
        walk_extent(*widths) <= usize::MAX,
    ensures
        r == spec_positions(*widths),
{
    proof {
        lemma_walk_extent(*widths);
    }
    let mut pos: usize = 0;
    let p_branch = advance(&mut pos, widths.branch);
    proof {
        assert(pos == ex_branch(*widths));
    }
    let p_working_diff = advance(&mut pos, widths.working_diff.total);
    proof {
        assert(pos == ex_wd(*widths));
    }
    let p_ahead_behind = advance(&mut pos, widths.ahead_behind.total);
    proof {
        assert(pos == ex_ab(*widths));
    }
    let p_branch_diff = advance(&mut pos, widths.branch_diff.total);
    proof {
        assert(pos == ex_bd(*widths));
    }
    let p_states = advance(&mut pos, widths.states);
    proof {
        assert(pos == ex_st(*widths));
    }
    let p_path = advance(&mut pos, widths.path);
    proof {
        assert(pos == ex_path(*widths));
    }
    let p_upstream = advance(&mut pos, widths.upstream.total);
    proof {
        assert(pos == ex_up(*widths));
    }
    let p_time = advance(&mut pos, widths.time);
    proof {
        assert(pos == ex_time(*widths));
    }
    let p_ci_status = advance(&mut pos, widths.ci_status);
    proof {
        assert(pos == ex_ci(*widths));
    }
    let p_commit = advance(&mut pos, widths.commit);
    proof {
        assert(pos == ex_commit(*widths));
    }
    let p_message = advance(&mut pos, widths.message);
    proof {
        assert(pos == walk_extent(*widths));
    }

    ColumnPositions {
        branch: p_branch,
        working_diff: p_working_diff,
        ahead_behind: p_ahead_behind,
        branch_diff: p_branch_diff,
        states: p_states,
        path: p_path,
        upstream: p_upstream,
        time: p_time,
        ci_status: p_ci_status,
        commit: p_commit,
        message: p_message,
    }
}

/// Decide the final width and absolute start position of every column for
/// the given rows and terminal width.
///
/// The result is exactly the allocation model's verdict on these inputs, and
/// with it come the layout's guarantees: every visible column is at least as
/// wide as its header, the visible columns and their gaps fit the terminal,
/// and the branch column, when visible, starts at offset 0.
#[verifier::rlimit(60)]
pub fn calculate_responsive_layout(
    rows: &Vec<Row>,
    show_full: bool,
    fetch_ci: bool,
    terminal_width: usize,
) -> (r: LayoutConfig)
    ensures
        r.widths == final_widths(alloc_input(rows@, show_full, fetch_ci, terminal_width as nat)),
        r.positions == spec_positions(r.widths),
        r.max_message_len == r.widths.message,
        walk_extent(r.widths) <= terminal_width,
        r.positions.branch == 0,
        r.widths.branch > 0 ==> r.widths.branch >= display_width_of("Branch"@),
        r.widths.working_diff.total > 0 ==> r.widths.working_diff.total >= display_width_of(
            "Working ±"@,
        ),
        r.widths.ahead_behind.total > 0 ==> r.widths.ahead_behind.total >= display_width_of(
            "Main ↕"@,
        ),
        r.widths.branch_diff.total > 0 ==> r.widths.branch_diff.total >= display_width_of(
            "Main ±"@,
        ),
        r.widths.states > 0 ==> r.widths.states >= display_width_of("State"@),
        r.widths.path > 0 ==> r.widths.path >= display_width_of("Path"@),
        r.widths.upstream.total > 0 ==> r.widths.upstream.total >= display_width_of("Remote ↕"@),
        r.widths.time > 0 ==> r.widths.time >= display_width_of("Age"@),
        r.widths.ci_status > 0 ==> r.widths.ci_status >= display_width_of("CI"@),
        r.widths.commit > 0 ==> r.widths.commit >= display_width_of("Commit"@),
        display_width_of("Message"@) <= MIN_MESSAGE ==> (r.widths.message > 0
            ==> r.widths.message >= display_width_of("Message"@)),
{
    let ghost a: AllocInput = alloc_input(rows@, show_full, fetch_ci, terminal_width as nat);

    let (ideal_widths, data_flags) = calculate_column_widths(rows, fetch_ci);

    let path_data_width = max_path_width(rows);
    let max_path_fitted = fit_header(header_path(), path_data_width);

    let spacing: usize = 2;
    let commit_width = fit_header(header_commit(), COMMIT_HASH_WIDTH);

    proof {
        assert(ideal_widths == a.ideal);
        assert(data_flags == a.flags);
        assert(max_path_fitted == a.path_ideal);
        assert(commit_width == a.commit_ideal);
    }

    let mut remaining = terminal_width;
    let mut widths = ColumnWidths {
        branch: 0,
        time: 0,
        ci_status: 0,
        message: 0,
        ahead_behind: DiffWidths::zero(),
        working_diff: DiffWidths::zero(),
        branch_diff: DiffWidths::zero(),
        upstream: DiffWidths::zero(),
        states: 0,
        commit: 0,
        path: 0,
    };

    alloc_pass1(
        &mut remaining,
        &mut widths,
        &ideal_widths,
        &data_flags,
        max_path_fitted,
        commit_width,
        show_full,
        Ghost(a),
    );

    // Message placement: flexible width, always decided before the empty
    // columns so that narrow terminals favour the message over them.
    let message_width = if remaining >= PREFERRED_MESSAGE + spacing {
        PREFERRED_MESSAGE
    } else if remaining >= MIN_MESSAGE + spacing {
        let shrunk = remaining - spacing;
        if shrunk < ideal_widths.message {
            shrunk
        } else {
            ideal_widths.message
        }
    } else {
        0
    };

    if message_width > 0 {
        remaining = remaining - (message_width + spacing);
        widths.message = if message_width < ideal_widths.message {
            message_width
        } else {
            ideal_widths.message
        };
    }
    proof {
        assert(message_width == msg_try(a));
        assert(widths.message == msg_base(a));
        assert(remaining == ar_msg(a));
    }

    alloc_pass2(
        &mut remaining,
        &mut widths,
        &ideal_widths,
        &data_flags,
        show_full,
        fetch_ci,
        Ghost(a),
    );

    // Expand the message with any leftover space, up to the absolute cap
    if widths.message > 0 && widths.message < MAX_MESSAGE && remaining > 0 {
        let cap = MAX_MESSAGE - widths.message;
        let expansion = if remaining < cap {
            remaining
        } else {
            cap
        };
        widths.message = widths.message + expansion;
    }
    proof {
        assert(widths.message == msg_final(a));
        assert(widths == final_widths(a));
        lemma_layout_fits(a);
        lemma_headers_never_truncate(a);
    }

    let final_max_message_len = widths.message;

    let positions = compute_positions(&widths);

    LayoutConfig { widths, positions, max_message_len: final_max_message_len }
}

} // verus!

//! Laws of the allocation model: the budget never goes negative, the visible
//! columns always fit the terminal, and columns without data only appear
//! when the message left room.

use vstd::prelude::*;
use crate::alloc_model::{
    alloc_rem, alloc_w, ar_ab1, ar_ab2, ar_bd1, ar_bd2, ar_branch, ar_ci1, ar_ci2, ar_commit,
    ar_final, ar_msg, ar_path, ar_st1, ar_st2, ar_time, ar_up1, ar_up2, ar_wd1, ar_wd2, aw_ab1,
    aw_ab2, aw_bd1, aw_bd2, aw_branch, aw_ci1, aw_ci2, aw_commit, aw_path, aw_st1, aw_st2,
    aw_time, aw_up1, aw_up2, aw_wd1, aw_wd2, col_pad, ex_ab, ex_bd, ex_branch, ex_ci, ex_commit,
    ex_path, ex_st, ex_time, ex_up, ex_wd, final_widths, full_demand, msg_final, msg_try,
    padded_total, walk_extent, AllocInput,
};
use crate::columns::{spec_diff_zero, ColumnWidths};
use crate::textwidth::display_width_of;

verus! {

proof fn lemma_alloc_step(rem: int, ideal: int, is_first: bool)
    requires
        0 <= rem,
        0 <= ideal,
    ensures
        0 <= alloc_rem(rem, ideal, is_first) <= rem,
        alloc_w(rem, ideal, is_first) == 0 || alloc_w(rem, ideal, is_first) == ideal,
        0 <= alloc_w(rem, ideal, is_first) <= ideal,
{
}

/// The budget is spent monotonically: every stage leaves a remainder between
/// zero and what the stage before it left.
pub proof fn lemma_rem_chain(a: AllocInput)
    ensures
        0 <= ar_final(a) <= ar_ci2(a) <= ar_up2(a) <= ar_st2(a) <= ar_bd2(a) <= ar_ab2(a) <= ar_wd2(
            a,
        ) <= ar_msg(a) <= ar_commit(a) <= ar_ci1(a) <= ar_time(a) <= ar_up1(a) <= ar_path(a)
            <= ar_st1(a) <= ar_bd1(a) <= ar_ab1(a) <= ar_wd1(a) <= ar_branch(a) <= a.width as int,
{
    lemma_alloc_step(a.width as int, a.ideal.branch as int, true);
    lemma_alloc_step(ar_branch(a), a.ideal.working_diff.total as int, false);
    lemma_alloc_step(ar_wd1(a), a.ideal.ahead_behind.total as int, false);
    lemma_alloc_step(ar_ab1(a), a.ideal.branch_diff.total as int, false);
    lemma_alloc_step(ar_bd1(a), a.ideal.states as int, false);
    lemma_alloc_step(ar_st1(a), a.path_ideal as int, false);
    lemma_alloc_step(ar_path(a), a.ideal.upstream.total as int, false);
    lemma_alloc_step(ar_up1(a), a.ideal.time as int, false);
    lemma_alloc_step(ar_time(a), a.ideal.ci_status as int, false);
    lemma_alloc_step(ar_ci1(a), a.commit_ideal as int, false);
    assert(0 <= ar_msg(a) <= ar_commit(a));
    lemma_alloc_step(ar_msg(a), a.ideal.working_diff.total as int, false);
    lemma_alloc_step(ar_wd2(a), a.ideal.ahead_behind.total as int, false);
    lemma_alloc_step(ar_ab2(a), a.ideal.branch_diff.total as int, false);
    lemma_alloc_step(ar_bd2(a), a.ideal.states as int, false);
    lemma_alloc_step(ar_st2(a), a.ideal.upstream.total as int, false);
    lemma_alloc_step(ar_up2(a), a.ideal.ci_status as int, false);
    assert(0 <= ar_final(a) <= ar_ci2(a));
}

/// The padded widths of the visible columns never exceed what the allocator
/// charged against the budget (plus the first column's uncharged gap).
proof fn lemma_padded_bound(a: AllocInput)
    ensures
        padded_total(final_widths(a)) <= a.width - ar_final(a) + 2,
{
    lemma_rem_chain(a);
    let f = final_widths(a);
    assert(col_pad(f.branch as int) <= (a.width - ar_branch(a)) + 2);
    assert(col_pad(f.working_diff.total as int) <= (ar_branch(a) - ar_wd1(a)) + (ar_msg(a)
        - ar_wd2(a)));
    assert(col_pad(f.ahead_behind.total as int) <= (ar_wd1(a) - ar_ab1(a)) + (ar_wd2(a) - ar_ab2(
        a,
    )));
    assert(col_pad(f.branch_diff.total as int) <= (ar_ab1(a) - ar_bd1(a)) + (ar_ab2(a) - ar_bd2(
        a,
    )));
    assert(col_pad(f.states as int) <= (ar_bd1(a) - ar_st1(a)) + (ar_bd2(a) - ar_st2(a)));
    assert(col_pad(f.path as int) <= ar_st1(a) - ar_path(a));
    assert(col_pad(f.upstream.total as int) <= (ar_path(a) - ar_up1(a)) + (ar_st2(a) - ar_up2(a)));
    assert(col_pad(f.time as int) <= ar_up1(a) - ar_time(a));
    assert(col_pad(f.ci_status as int) <= (ar_time(a) - ar_ci1(a)) + (ar_up2(a) - ar_ci2(a)));
    assert(col_pad(f.commit as int) <= ar_ci1(a) - ar_commit(a));
    assert(col_pad(f.message as int) <= (ar_commit(a) - ar_msg(a)) + (ar_ci2(a) - ar_final(a)));
}

/// The position walk's running extent is nonnegative, never shrinks, and
/// comes to exactly the padded total minus the first column's uncharged gap.
pub proof fn lemma_walk_extent(wi: ColumnWidths)
    ensures
        0 <= ex_branch(wi),
        ex_branch(wi) <= ex_wd(wi) <= ex_ab(wi) <= ex_bd(wi) <= ex_st(wi) <= ex_path(wi) <= ex_up(
            wi,
        ) <= ex_time(wi) <= ex_ci(wi) <= ex_commit(wi) <= walk_extent(wi),
        walk_extent(wi) <= if padded_total(wi) > 0 {
            padded_total(wi) - 2
        } else {
            0
        },
{
    let p1 = col_pad(wi.branch as int);
    let p2 = p1 + col_pad(wi.working_diff.total as int);
    let p3 = p2 + col_pad(wi.ahead_behind.total as int);
    let p4 = p3 + col_pad(wi.branch_diff.total as int);
    let p5 = p4 + col_pad(wi.states as int);
    let p6 = p5 + col_pad(wi.path as int);
    let p7 = p6 + col_pad(wi.upstream.total as int);
    let p8 = p7 + col_pad(wi.time as int);
    let p9 = p8 + col_pad(wi.ci_status as int);
    let p10 = p9 + col_pad(wi.commit as int);
    let p11 = p10 + col_pad(wi.message as int);
    assert(ex_branch(wi) <= if p1 > 0 {
        p1 - 2
    } else {
        0
    });
    assert(ex_wd(wi) <= if p2 > 0 {
        p2 - 2
    } else {
        0
    });
    assert(ex_ab(wi) <= if p3 > 0 {
        p3 - 2
    } else {
        0
    });
    assert(ex_bd(wi) <= if p4 > 0 {
        p4 - 2
    } else {
        0
    });
    assert(ex_st(wi) <= if p5 > 0 {
        p5 - 2
    } else {
        0
    });
    assert(ex_path(wi) <= if p6 > 0 {
        p6 - 2
    } else {
        0
    });
    assert(ex_up(wi) <= if p7 > 0 {
        p7 - 2
    } else {
        0
    });
    assert(ex_time(wi) <= if p8 > 0 {
        p8 - 2
    } else {
        0
    });
    assert(ex_ci(wi) <= if p9 > 0 {
        p9 - 2
    } else {
        0
    });
    assert(ex_commit(wi) <= if p10 > 0 {
        p10 - 2
    } else {
        0
    });
    assert(walk_extent(wi) <= if p11 > 0 {
        p11 - 2
    } else {
        0
    });
}

/// The allocation keeps the visible columns, gaps included, within the
/// terminal width.
pub proof fn lemma_layout_fits(a: AllocInput)
    ensures
        0 <= walk_extent(final_widths(a)) <= a.width as int,
{
    lemma_rem_chain(a);
    lemma_padded_bound(a);
    lemma_walk_extent(final_widths(a));
}

/// Every column's final width is either zero or exactly what was asked for;
/// the message, when shown, is never narrower than the smaller of its ideal
/// width and the fixed floor of 20.
pub proof fn lemma_final_shape(a: AllocInput)
    ensures
        final_widths(a).branch == 0 || final_widths(a).branch == a.ideal.branch,
        final_widths(a).time == 0 || final_widths(a).time == a.ideal.time,
        final_widths(a).states == 0 || final_widths(a).states == a.ideal.states,
        final_widths(a).ci_status == 0 || final_widths(a).ci_status == a.ideal.ci_status,
        final_widths(a).commit == 0 || final_widths(a).commit == a.commit_ideal,
        final_widths(a).path == 0 || final_widths(a).path == a.path_ideal,
        final_widths(a).working_diff == spec_diff_zero() || final_widths(a).working_diff
            == a.ideal.working_diff,
        final_widths(a).ahead_behind == spec_diff_zero() || final_widths(a).ahead_behind
            == a.ideal.ahead_behind,
        final_widths(a).branch_diff == spec_diff_zero() || final_widths(a).branch_diff
            == a.ideal.branch_diff,
        final_widths(a).upstream == spec_diff_zero() || final_widths(a).upstream
            == a.ideal.upstream,
        final_widths(a).message == 0 || final_widths(a).message >= if a.ideal.message < 20 {
            a.ideal.message as int
        } else {
            20
        },
{
    lemma_rem_chain(a);
}

/// When every ideal width already clears its header's display width, the
/// allocation keeps it that way: no visible column is narrower than its
/// header.  The message column's floor of `MIN_MESSAGE` covers its header as
/// long as the header is no wider than that floor.
pub proof fn lemma_headers_never_truncate(a: AllocInput)
    requires
        a.ideal.branch >= display_width_of("Branch"@),
        a.ideal.working_diff.total >= display_width_of("Working ±"@),
        a.ideal.ahead_behind.total >= display_width_of("Main ↕"@),
        a.ideal.branch_diff.total >= display_width_of("Main ±"@),
        a.ideal.states >= display_width_of("State"@),
        a.path_ideal >= display_width_of("Path"@),
        a.ideal.upstream.total >= display_width_of("Remote ↕"@),
        a.ideal.time >= display_width_of("Age"@),
        a.ideal.ci_status >= display_width_of("CI"@),
        a.commit_ideal >= display_width_of("Commit"@),
        a.ideal.message >= display_width_of("Message"@),
    ensures
        final_widths(a).branch > 0 ==> final_widths(a).branch >= display_width_of("Branch"@),
        final_widths(a).working_diff.total > 0 ==> final_widths(a).working_diff.total
            >= display_width_of("Working ±"@),
        final_widths(a).ahead_behind.total > 0 ==> final_widths(a).ahead_behind.total
            >= display_width_of("Main ↕"@),
        final_widths(a).branch_diff.total > 0 ==> final_widths(a).branch_diff.total
            >= display_width_of("Main ±"@),
        final_widths(a).states > 0 ==> final_widths(a).states >= display_width_of("State"@),
        final_widths(a).path > 0 ==> final_widths(a).path >= display_width_of("Path"@),
        final_widths(a).upstream.total > 0 ==> final_widths(a).upstream.total
            >= display_width_of("Remote ↕"@),
        final_widths(a).time > 0 ==> final_widths(a).time >= display_width_of("Age"@),
        final_widths(a).ci_status > 0 ==> final_widths(a).ci_status
            >= display_width_of("CI"@),
        final_widths(a).commit > 0 ==> final_widths(a).commit >= display_width_of("Commit"@),
        display_width_of("Message"@) <= 20 ==> (final_widths(a).message > 0
            ==> final_widths(a).message >= display_width_of("Message"@)),
{
    lemma_final_shape(a);
}

/// A column with no data is never granted space in the first pass, and can
/// only be visible when the message placement left a positive remainder.
pub proof fn lemma_empty_columns_after_message(a: AllocInput)
    ensures
        !a.flags.working_diff ==> aw_wd1(a) == 0,
        !a.flags.ahead_behind ==> aw_ab1(a) == 0,
        !a.flags.branch_diff ==> aw_bd1(a) == 0,
        !a.flags.states ==> aw_st1(a) == 0,
        !a.flags.upstream ==> aw_up1(a) == 0,
        !a.flags.ci_status ==> aw_ci1(a) == 0,
        !a.flags.working_diff && final_widths(a).working_diff.total > 0 ==> ar_msg(a) > 0,
        !a.flags.ahead_behind && final_widths(a).ahead_behind.total > 0 ==> ar_msg(a) > 0,
        !a.flags.branch_diff && final_widths(a).branch_diff.total > 0 ==> ar_msg(a) > 0,
        !a.flags.states && final_widths(a).states > 0 ==> ar_msg(a) > 0,
        !a.flags.upstream && final_widths(a).upstream.total > 0 ==> ar_msg(a) > 0,
        !a.flags.ci_status && final_widths(a).ci_status > 0 ==> ar_msg(a) > 0,
{
    lemma_rem_chain(a);
}

/// Monotonicity of the branch column: once the terminal is wide enough to
/// show it, any wider terminal shows it too (at the same width).
pub proof fn lemma_branch_visibility_monotone(a1: AllocInput, a2: AllocInput)
    requires
        a1.ideal == a2.ideal,
        a1.width <= a2.width,
    ensures
        final_widths(a1).branch > 0 ==> final_widths(a2).branch == final_widths(a1).branch,
{
}

/// A visible column was wanted: its gate was open and its ideal width was
/// positive.
proof fn lemma_visible_implies_wanted(a: AllocInput)
    ensures
        final_widths(a).branch > 0 ==> a.ideal.branch > 0,
        final_widths(a).working_diff.total > 0 ==> a.ideal.working_diff.total > 0,
        final_widths(a).ahead_behind.total > 0 ==> a.ideal.ahead_behind.total > 0,
        final_widths(a).branch_diff.total > 0 ==> a.show_full && a.ideal.branch_diff.total > 0,
        final_widths(a).states > 0 ==> a.ideal.states > 0,
        final_widths(a).path > 0 ==> a.path_ideal > 0,
        final_widths(a).upstream.total > 0 ==> a.ideal.upstream.total > 0,
        final_widths(a).time > 0 ==> a.ideal.time > 0,
        final_widths(a).ci_status > 0 ==> (a.flags.ci_status || a.fetch_ci) && a.ideal.ci_status
            > 0,
        final_widths(a).commit > 0 ==> a.commit_ideal > 0,
        final_widths(a).message > 0 ==> a.ideal.message > 0,
{
}

/// Demand of everything still unserved once pass 1 reaches the states
/// column, the gated columns that pass 1 will skip included.
spec fn sat_rest_after_bd(a: AllocInput) -> int {
    col_pad(a.ideal.states as int) + col_pad(a.path_ideal as int) + col_pad(
        a.ideal.upstream.total as int,
    ) + col_pad(a.ideal.time as int) + (if a.fetch_ci || a.flags.ci_status {
        col_pad(a.ideal.ci_status as int)
    } else {
        0
    }) + col_pad(a.commit_ideal as int) + 52 + sat_left_wd(a) + sat_left_ab(a) + sat_left_bd(a)
}

/// Demand the message placement and pass 2 still face.
spec fn sat_rest_after_commit(a: AllocInput) -> int {
    52 + sat_left_wd(a) + sat_left_ab(a) + sat_left_bd(a) + sat_left_st(a) + sat_left_up(a)
        + sat_left_ci(a)
}

spec fn sat_left_wd(a: AllocInput) -> int {
    if a.flags.working_diff {
        0
    } else {
        col_pad(a.ideal.working_diff.total as int)
    }
}

spec fn sat_left_ab(a: AllocInput) -> int {
    if a.flags.ahead_behind {
        0
    } else {
        col_pad(a.ideal.ahead_behind.total as int)
    }
}

spec fn sat_left_bd(a: AllocInput) -> int {
    if a.flags.branch_diff || !a.show_full {
        0
    } else {
        col_pad(a.ideal.branch_diff.total as int)
    }
}

spec fn sat_left_st(a: AllocInput) -> int {
    if a.flags.states {
        0
    } else {
        col_pad(a.ideal.states as int)
    }
}

spec fn sat_left_up(a: AllocInput) -> int {
    if a.flags.upstream {
        0
    } else {
        col_pad(a.ideal.upstream.total as int)
    }
}

spec fn sat_left_ci(a: AllocInput) -> int {
    if a.flags.ci_status || !a.fetch_ci {
        0
    } else {
        col_pad(a.ideal.ci_status as int)
    }
}

/// A saturated budget carries pass 1 through the branch-diff column with
/// every wanted column so far granted.
proof fn lemma_sat_pass1_head(a2: AllocInput)
    requires
        full_demand(a2) <= a2.width,
    ensures
        ar_bd1(a2) >= sat_rest_after_bd(a2),
        a2.ideal.branch > 0 ==> aw_branch(a2) > 0,
        a2.flags.working_diff && a2.ideal.working_diff.total > 0 ==> aw_wd1(a2) > 0,
        a2.flags.ahead_behind && a2.ideal.ahead_behind.total > 0 ==> aw_ab1(a2) > 0,
        a2.show_full && a2.flags.branch_diff && a2.ideal.branch_diff.total > 0 ==> aw_bd1(a2) > 0,
{
    assert(ar_branch(a2) >= full_demand(a2) - a2.ideal.branch);
    assert(ar_wd1(a2) >= full_demand(a2) - a2.ideal.branch - col_pad(
        a2.ideal.working_diff.total as int,
    ) + sat_left_wd(a2));
    assert(ar_ab1(a2) >= full_demand(a2) - a2.ideal.branch - col_pad(
        a2.ideal.working_diff.total as int,
    ) - col_pad(a2.ideal.ahead_behind.total as int) + sat_left_wd(a2) + sat_left_ab(a2));
    assert(ar_bd1(a2) >= sat_rest_after_bd(a2));
}

/// ...and through the commit column.
proof fn lemma_sat_pass1_tail(a2: AllocInput)
    requires
        full_demand(a2) <= a2.width,
    ensures
        ar_commit(a2) >= sat_rest_after_commit(a2),
        a2.flags.states && a2.ideal.states > 0 ==> aw_st1(a2) > 0,
        a2.path_ideal > 0 ==> aw_path(a2) > 0,
        a2.flags.upstream && a2.ideal.upstream.total > 0 ==> aw_up1(a2) > 0,
        a2.ideal.time > 0 ==> aw_time(a2) > 0,
        a2.flags.ci_status && a2.ideal.ci_status > 0 ==> aw_ci1(a2) > 0,
        a2.commit_ideal > 0 ==> aw_commit(a2) > 0,
{
    lemma_sat_pass1_head(a2);
    assert(ar_st1(a2) >= sat_rest_after_bd(a2) - col_pad(a2.ideal.states as int) + sat_left_st(
        a2,
    ));
    assert(ar_path(a2) >= sat_rest_after_bd(a2) - col_pad(a2.ideal.states as int) + sat_left_st(a2)
        - col_pad(a2.path_ideal as int));
    assert(ar_up1(a2) >= sat_rest_after_bd(a2) - col_pad(a2.ideal.states as int) + sat_left_st(a2)
        - col_pad(a2.path_ideal as int) - col_pad(a2.ideal.upstream.total as int) + sat_left_up(
        a2,
    ));
    assert(ar_time(a2) >= sat_rest_after_bd(a2) - col_pad(a2.ideal.states as int) + sat_left_st(a2)
        - col_pad(a2.path_ideal as int) - col_pad(a2.ideal.upstream.total as int) + sat_left_up(a2)
        - col_pad(a2.ideal.time as int));
    assert(ar_ci1(a2) >= sat_rest_after_commit(a2) + col_pad(a2.commit_ideal as int));
    assert(ar_commit(a2) >= sat_rest_after_commit(a2));
}

/// ...and the message and pass 2 serve everything that was left.
proof fn lemma_sat_pass2(a2: AllocInput)
    requires
        full_demand(a2) <= a2.width,
    ensures
        a2.ideal.message > 0 ==> msg_final(a2) > 0,
        !a2.flags.working_diff && a2.ideal.working_diff.total > 0 ==> aw_wd2(a2) > 0,
        !a2.flags.ahead_behind && a2.ideal.ahead_behind.total > 0 ==> aw_ab2(a2) > 0,
        a2.show_full && !a2.flags.branch_diff && a2.ideal.branch_diff.total > 0 ==> aw_bd2(a2) > 0,
        !a2.flags.states && a2.ideal.states > 0 ==> aw_st2(a2) > 0,
        !a2.flags.upstream && a2.ideal.upstream.total > 0 ==> aw_up2(a2) > 0,
        a2.fetch_ci && !a2.flags.ci_status && a2.ideal.ci_status > 0 ==> aw_ci2(a2) > 0,
{
    lemma_sat_pass1_tail(a2);
    lemma_rem_chain(a2);
    assert(msg_try(a2) == 50);
    assert(ar_msg(a2) >= sat_rest_after_commit(a2) - 52);
    assert(ar_wd2(a2) >= sat_rest_after_commit(a2) - 52 - sat_left_wd(a2));
    assert(ar_ab2(a2) >= sat_rest_after_commit(a2) - 52 - sat_left_wd(a2) - sat_left_ab(a2));
    assert(ar_bd2(a2) >= sat_rest_after_commit(a2) - 52 - sat_left_wd(a2) - sat_left_ab(a2)
        - sat_left_bd(a2));
    assert(ar_st2(a2) >= sat_left_up(a2) + sat_left_ci(a2));
    assert(ar_up2(a2) >= sat_left_ci(a2));
}

/// On a terminal covering the full demand, every wanted column is granted.
proof fn lemma_saturated_grants_all(a2: AllocInput)
    requires
        full_demand(a2) <= a2.width,
    ensures
        a2.ideal.branch > 0 ==> final_widths(a2).branch > 0,
        a2.ideal.working_diff.total > 0 ==> final_widths(a2).working_diff.total > 0,
        a2.ideal.ahead_behind.total > 0 ==> final_widths(a2).ahead_behind.total > 0,
        a2.show_full && a2.ideal.branch_diff.total > 0 ==> final_widths(a2).branch_diff.total > 0,
        a2.ideal.states > 0 ==> final_widths(a2).states > 0,
        a2.path_ideal > 0 ==> final_widths(a2).path > 0,
        a2.ideal.upstream.total > 0 ==> final_widths(a2).upstream.total > 0,
        a2.ideal.time > 0 ==> final_widths(a2).time > 0,
        (a2.flags.ci_status || a2.fetch_ci) && a2.ideal.ci_status > 0 ==> final_widths(
            a2,
        ).ci_status > 0,
        a2.commit_ideal > 0 ==> final_widths(a2).commit > 0,
        a2.ideal.message > 0 ==> final_widths(a2).message > 0,
{
    lemma_sat_pass1_head(a2);
    lemma_sat_pass1_tail(a2);
    lemma_sat_pass2(a2);
    lemma_rem_chain(a2);
}

/// Monotonicity past the point of saturation: on a terminal wide enough to
/// cover the dataset's full demand, every column visible at any narrower
/// width is visible there too.  (Between two contested widths a higher
/// priority column can crowd out a lower one, so this holds of the
/// saturated side.)
pub proof fn lemma_saturated_terminal_shows_all(a1: AllocInput, a2: AllocInput)
    requires
        a1.ideal == a2.ideal,
        a1.flags == a2.flags,
        a1.path_ideal == a2.path_ideal,
        a1.commit_ideal == a2.commit_ideal,
        a1.show_full == a2.show_full,
        a1.fetch_ci == a2.fetch_ci,
        a1.width <= a2.width,
        full_demand(a2) <= a2.width,
    ensures
        final_widths(a1).branch > 0 ==> final_widths(a2).branch > 0,
        final_widths(a1).working_diff.total > 0 ==> final_widths(a2).working_diff.total > 0,
        final_widths(a1).ahead_behind.total > 0 ==> final_widths(a2).ahead_behind.total > 0,
        final_widths(a1).branch_diff.total > 0 ==> final_widths(a2).branch_diff.total > 0,
        final_widths(a1).states > 0 ==> final_widths(a2).states > 0,
        final_widths(a1).path > 0 ==> final_widths(a2).path > 0,
        final_widths(a1).upstream.total > 0 ==> final_widths(a2).upstream.total > 0,
        final_widths(a1).time > 0 ==> final_widths(a2).time > 0,
        final_widths(a1).ci_status > 0 ==> final_widths(a2).ci_status > 0,
        final_widths(a1).commit > 0 ==> final_widths(a2).commit > 0,
        final_widths(a1).message > 0 ==> final_widths(a2).message > 0,
{
    lemma_visible_implies_wanted(a1);
    lemma_saturated_grants_all(a2);
}

} // verus!

//! Reduction of the row set into per-column ideal widths and data flags.

use vstd::prelude::*;
use vstd::string::StrSliceExecFns;
use crate::columns::{
    fit_header, fit_w, header_age, header_ahead_behind, header_branch, header_ci, header_message,
    header_state, header_upstream, header_working_diff, header_branch_diff, ColumnDataFlags,
    ColumnWidths, DiffWidths, COMMIT_HASH_WIDTH,
};
use crate::row::{Row, RowKind};
use crate::textwidth::{dec_digits, digit_count, display_width, display_width_of, lemma_u64_dec_digits, width_max};

verus! {

pub open spec fn spec_max(a: nat, b: nat) -> nat {
    if a < b {
        b
    } else {
        a
    }
}

/// Whether a row contributes working-tree diff data: only worktrees with a
/// nonzero (added, removed) pair.
pub open spec fn row_has_working_diff(r: Row) -> bool {
    r.kind == RowKind::Worktree && (r.working_diff.0 > 0 || r.working_diff.1 > 0)
}

/// Whether a row contributes ahead/behind data: only non-primary rows with a
/// nonzero pair.
pub open spec fn row_has_ahead_behind(r: Row) -> bool {
    !r.is_primary && (r.ahead > 0 || r.behind > 0)
}

/// Whether a row contributes branch-vs-main diff data: only non-primary rows
/// with a nonzero pair.
pub open spec fn row_has_branch_diff(r: Row) -> bool {
    !r.is_primary && (r.branch_diff.0 > 0 || r.branch_diff.1 > 0)
}

/// The message length a row contributes: its character count, capped at 50.
pub open spec fn row_msg_len(r: Row) -> nat {
    if r.message@.len() < 50 {
        r.message@.len()
    } else {
        50
    }
}

pub open spec fn max_branch_w(rows: Seq<Row>) -> nat
    decreases rows.len(),
{
    if rows.len() == 0 {
        0
    } else {
        spec_max(max_branch_w(rows.drop_last()), display_width_of(rows.last().branch@))
    }
}

pub open spec fn max_time_w(rows: Seq<Row>) -> nat
    decreases rows.len(),
{
    if rows.len() == 0 {
        0
    } else {
        spec_max(max_time_w(rows.drop_last()), display_width_of(rows.last().time_label@))
    }
}

pub open spec fn max_msg_len(rows: Seq<Row>) -> nat
    decreases rows.len(),
{
    if rows.len() == 0 {
        0
    } else {
        spec_max(max_msg_len(rows.drop_last()), row_msg_len(rows.last()))
    }
}

pub open spec fn max_states_w(rows: Seq<Row>) -> nat
    decreases rows.len(),
{
    if rows.len() == 0 {
        0
    } else {
        spec_max(max_states_w(rows.drop_last()), display_width_of(rows.last().states_label@))
    }
}

/// Widest worktree path, in display form; branch rows contribute nothing.
pub open spec fn max_path_w(rows: Seq<Row>) -> nat
    decreases rows.len(),
{
    if rows.len() == 0 {
        0
    } else {
        spec_max(
            max_path_w(rows.drop_last()),
            if rows.last().kind == RowKind::Worktree {
                display_width_of(rows.last().path_label@)
            } else {
                0
            },
        )
    }
}

pub open spec fn max_wd_added(rows: Seq<Row>) -> nat
    decreases rows.len(),
{
    if rows.len() == 0 {
        0
    } else {
        spec_max(
            max_wd_added(rows.drop_last()),
            if row_has_working_diff(rows.last()) {
                dec_digits(rows.last().working_diff.0 as nat)
            } else {
                0
            },
        )
    }
}

pub open spec fn max_wd_removed(rows: Seq<Row>) -> nat
    decreases rows.len(),
{
    if rows.len() == 0 {
        0
    } else {
        spec_max(
            max_wd_removed(rows.drop_last()),
            if row_has_working_diff(rows.last()) {
                dec_digits(rows.last().working_diff.1 as nat)
            } else {
                0
            },
        )
    }
}

pub open spec fn max_ab_ahead(rows: Seq<Row>) -> nat
    decreases rows.len(),
{
    if rows.len() == 0 {
        0
    } else {
        spec_max(
            max_ab_ahead(rows.drop_last()),
            if row_has_ahead_behind(rows.last()) {
                dec_digits(rows.last().ahead as nat)
            } else {
                0
            },
        )
    }
}

pub open spec fn max_ab_behind(rows: Seq<Row>) -> nat
    decreases rows.len(),
{
    if rows.len() == 0 {
        0
    } else {
        spec_max(
            max_ab_behind(rows.drop_last()),
            if row_has_ahead_behind(rows.last()) {
                dec_digits(rows.last().behind as nat)
            } else {
                0
            },
        )
    }
}

pub open spec fn max_bd_added(rows: Seq<Row>) -> nat
    decreases rows.len(),
{
    if rows.len() == 0 {
        0
    } else {
        spec_max(
            max_bd_added(rows.drop_last()),
            if row_has_branch_diff(rows.last()) {
                dec_digits(rows.last().branch_diff.0 as nat)
            } else {
                0
            },
        )
    }
}

pub open spec fn max_bd_removed(rows: Seq<Row>) -> nat
    decreases rows.len(),
{
    if rows.len() == 0 {
        0
    } else {
        spec_max(
            max_bd_removed(rows.drop_last()),
            if row_has_branch_diff(rows.last()) {
                dec_digits(rows.last().branch_diff.1 as nat)
            } else {
                0
            },
        )
    }
}

pub open spec fn max_up_ahead(rows: Seq<Row>) -> nat
    decreases rows.len(),
{
    if rows.len() == 0 {
        0
    } else {
        spec_max(
            max_up_ahead(rows.drop_last()),
            match rows.last().upstream {
                Some(p) => dec_digits(p.0 as nat),
                None => 0,
            },
        )
    }
}

pub open spec fn max_up_behind(rows: Seq<Row>) -> nat
    decreases rows.len(),
{
    if rows.len() == 0 {
        0
    } else {
        spec_max(
            max_up_behind(rows.drop_last()),
            match rows.last().upstream {
                Some(p) => dec_digits(p.1 as nat),
                None => 0,
            },
        )
    }
}

pub open spec fn any_ci(rows: Seq<Row>) -> bool
    decreases rows.len(),
{
    if rows.len() == 0 {
        false
    } else {
        any_ci(rows.drop_last()) || rows.last().has_ci_status
    }
}

/// Width of a two-part numeric column: "+" or an arrow, the first part's
/// digits, a space, "-" or an arrow, the second part's digits - except that a
/// column with no data at all has data width 0.  The header still sets the
/// floor.
pub open spec fn spec_comp_width(a: nat, d: nat, header: Seq<char>) -> nat {
    fit_w(
        if a > 0 || d > 0 {
            (3 + a + d) as nat
        } else {
            0
        },
        display_width_of(header),
    )
}

/// The ideal (unconstrained) width of every column for this row set.
pub open spec fn spec_ideal_widths(rows: Seq<Row>, fetch_ci: bool) -> ColumnWidths {
    ColumnWidths {
        branch: fit_w(max_branch_w(rows), display_width_of("Branch"@)) as usize,
        time: fit_w(max_time_w(rows), display_width_of("Age"@)) as usize,
        ci_status: fit_w(2, display_width_of("CI"@)) as usize,
        message: fit_w(max_msg_len(rows), display_width_of("Message"@)) as usize,
        ahead_behind: DiffWidths {
            total: spec_comp_width(max_ab_ahead(rows), max_ab_behind(rows), "Main ↕"@) as usize,
            added_digits: max_ab_ahead(rows) as usize,
            deleted_digits: max_ab_behind(rows) as usize,
        },
        working_diff: DiffWidths {
            total: spec_comp_width(max_wd_added(rows), max_wd_removed(rows), "Working ±"@) as usize,
            added_digits: max_wd_added(rows) as usize,
            deleted_digits: max_wd_removed(rows) as usize,
        },
        branch_diff: DiffWidths {
            total: spec_comp_width(max_bd_added(rows), max_bd_removed(rows), "Main ±"@) as usize,
            added_digits: max_bd_added(rows) as usize,
            deleted_digits: max_bd_removed(rows) as usize,
        },
        upstream: DiffWidths {
            total: spec_comp_width(max_up_ahead(rows), max_up_behind(rows), "Remote ↕"@) as usize,
            added_digits: max_up_ahead(rows) as usize,
            deleted_digits: max_up_behind(rows) as usize,
        },
        states: fit_w(max_states_w(rows), display_width_of("State"@)) as usize,
        commit: 8,
        path: 0,
    }
}

/// Which columns carry real data, as opposed to a header alone.  CI is
/// special: its flag records that CI data was requested and at least one row
/// reported a status.
pub open spec fn spec_data_flags(rows: Seq<Row>, fetch_ci: bool) -> ColumnDataFlags {
    ColumnDataFlags {
        working_diff: max_wd_added(rows) > 0 || max_wd_removed(rows) > 0,
        ahead_behind: max_ab_ahead(rows) > 0 || max_ab_behind(rows) > 0,
        branch_diff: max_bd_added(rows) > 0 || max_bd_removed(rows) > 0,
        upstream: max_up_ahead(rows) > 0 || max_up_behind(rows) > 0,
        states: max_states_w(rows) > 0,
        ci_status: fetch_ci && any_ci(rows),
    }
}

/// All digit maxima stay within a `u64`'s 20 decimal digits.
proof fn lemma_digit_maxima_bound(rows: Seq<Row>)
    ensures
        max_wd_added(rows) <= 20,
        max_wd_removed(rows) <= 20,
        max_ab_ahead(rows) <= 20,
        max_ab_behind(rows) <= 20,
        max_bd_added(rows) <= 20,
        max_bd_removed(rows) <= 20,
        max_up_ahead(rows) <= 20,
        max_up_behind(rows) <= 20,
    decreases rows.len(),
{
    if rows.len() > 0 {
        lemma_digit_maxima_bound(rows.drop_last());
        let r = rows.last();
        lemma_u64_dec_digits(r.working_diff.0);
        lemma_u64_dec_digits(r.working_diff.1);
        lemma_u64_dec_digits(r.ahead);
        lemma_u64_dec_digits(r.behind);
        lemma_u64_dec_digits(r.branch_diff.0);
        lemma_u64_dec_digits(r.branch_diff.1);
        match r.upstream {
            Some(p) => {
                lemma_u64_dec_digits(p.0);
                lemma_u64_dec_digits(p.1);
            },
            None => {},
        }
    }
}

/// Reduce the row set to per-column ideal widths and has-data flags.
///
/// Widths are running maxima of the rows' display widths (digit counts for
/// the two-part numeric columns, tracked per part); every width is then
/// raised to its header's display width so headers never truncate.  A column
/// has data only if at least one row contributes a nonzero value to it.
pub fn calculate_column_widths(rows: &Vec<Row>, fetch_ci: bool) -> (r: (ColumnWidths, ColumnDataFlags))
    ensures
        r.0 == spec_ideal_widths(rows@, fetch_ci),
        r.1 == spec_data_flags(rows@, fetch_ci),
        r.0.branch == fit_w(max_branch_w(rows@), display_width_of("Branch"@)),
        r.0.time == fit_w(max_time_w(rows@), display_width_of("Age"@)),
        r.0.ci_status == fit_w(2, display_width_of("CI"@)),
        r.0.message == fit_w(max_msg_len(rows@), display_width_of("Message"@)),
        r.0.states == fit_w(max_states_w(rows@), display_width_of("State"@)),
        r.0.working_diff.total == spec_comp_width(
            max_wd_added(rows@),
            max_wd_removed(rows@),
            "Working ±"@,
        ),
        r.0.ahead_behind.total == spec_comp_width(
            max_ab_ahead(rows@),
            max_ab_behind(rows@),
            "Main ↕"@,
        ),
        r.0.branch_diff.total == spec_comp_width(
            max_bd_added(rows@),
            max_bd_removed(rows@),
            "Main ±"@,
        ),
        r.0.upstream.total == spec_comp_width(
            max_up_ahead(rows@),
            max_up_behind(rows@),
            "Remote ↕"@,
        ),
{
    let mut max_branch: usize = 0;
    let mut max_time: usize = 0;
    let mut max_message: usize = 0;
    let mut max_states: usize = 0;

    let mut max_wt_added_digits: usize = 0;
    let mut max_wt_deleted_digits: usize = 0;
    let mut max_br_added_digits: usize = 0;
    let mut max_br_deleted_digits: usize = 0;

    let mut max_ahead_digits: usize = 0;
    let mut max_behind_digits: usize = 0;
    let mut max_upstream_ahead_digits: usize = 0;
    let mut max_upstream_behind_digits: usize = 0;

    let mut has_any_ci: bool = false;

    let n = rows.len();
    let mut i: usize = 0;
    while i < n
        invariant
            n == rows@.len(),
            i <= n,
            max_branch == max_branch_w(rows@.take(i as int)),
            max_time == max_time_w(rows@.take(i as int)),
            max_message == max_msg_len(rows@.take(i as int)),
            max_states == max_states_w(rows@.take(i as int)),
            max_wt_added_digits == max_wd_added(rows@.take(i as int)),
            max_wt_deleted_digits == max_wd_removed(rows@.take(i as int)),
            max_br_added_digits == max_bd_added(rows@.take(i as int)),
            max_br_deleted_digits == max_bd_removed(rows@.take(i as int)),
            max_ahead_digits == max_ab_ahead(rows@.take(i as int)),
            max_behind_digits == max_ab_behind(rows@.take(i as int)),
            max_upstream_ahead_digits == max_up_ahead(rows@.take(i as int)),
            max_upstream_behind_digits == max_up_behind(rows@.take(i as int)),
            has_any_ci == any_ci(rows@.take(i as int)),
        decreases n - i,
    {
        let row = &rows[i];

        max_branch = width_max(max_branch, display_width(row.branch.as_str()));
        max_time = width_max(max_time, display_width(row.time_label.as_str()));

        let msg_chars = row.message.as_str().unicode_len();
        let msg_len = if msg_chars < 50 {
            msg_chars
        } else {
            50
        };
        max_message = width_max(max_message, msg_len);

        max_states = width_max(max_states, display_width(row.states_label.as_str()));

        if !row.is_primary && (row.ahead > 0 || row.behind > 0) {
            max_ahead_digits = width_max(max_ahead_digits, digit_count(row.ahead));
            max_behind_digits = width_max(max_behind_digits, digit_count(row.behind));
        }

        if row.kind == RowKind::Worktree && (row.working_diff.0 > 0 || row.working_diff.1 > 0) {
            max_wt_added_digits = width_max(max_wt_added_digits, digit_count(row.working_diff.0));
            max_wt_deleted_digits = width_max(max_wt_deleted_digits, digit_count(row.working_diff.1));
        }

        if !row.is_primary && (row.branch_diff.0 > 0 || row.branch_diff.1 > 0) {
            max_br_added_digits = width_max(max_br_added_digits, digit_count(row.branch_diff.0));
            max_br_deleted_digits = width_max(max_br_deleted_digits, digit_count(row.branch_diff.1));
        }

        match row.upstream {
            Some(p) => {
                max_upstream_ahead_digits = width_max(max_upstream_ahead_digits, digit_count(p.0));
                max_upstream_behind_digits = width_max(max_upstream_behind_digits, digit_count(p.1));
            },
            None => {},
        }

        has_any_ci = has_any_ci || row.has_ci_status;

        proof {
            assert(rows@.take(i + 1).drop_last() =~= rows@.take(i as int));
            assert(rows@.take(i + 1).last() == rows@[i as int]);
        }
        i = i + 1;
    }
    proof {
        assert(rows@.take(n as int) =~= rows@);
        lemma_digit_maxima_bound(rows@);
    }

    let has_working_diff_data = max_wt_added_digits > 0 || max_wt_deleted_digits > 0;
    let working_diff_data_width = if has_working_diff_data {
        3 + max_wt_added_digits + max_wt_deleted_digits
    } else {
        0
    };
    let working_diff_total = fit_header(header_working_diff(), working_diff_data_width);

    let has_branch_diff_data = max_br_added_digits > 0 || max_br_deleted_digits > 0;
    let branch_diff_data_width = if has_branch_diff_data {
        3 + max_br_added_digits + max_br_deleted_digits
    } else {
        0
    };
    let branch_diff_total = fit_header(header_branch_diff(), branch_diff_data_width);

    let has_ahead_behind_data = max_ahead_digits > 0 || max_behind_digits > 0;
    let ahead_behind_data_width = if has_ahead_behind_data {
        3 + max_ahead_digits + max_behind_digits
    } else {
        0
    };
    let ahead_behind_total = fit_header(header_ahead_behind(), ahead_behind_data_width);

    let has_upstream_data = max_upstream_ahead_digits > 0 || max_upstream_behind_digits > 0;
    let upstream_data_width = if has_upstream_data {
        3 + max_upstream_ahead_digits + max_upstream_behind_digits
    } else {
        0
    };
    let upstream_total = fit_header(header_upstream(), upstream_data_width);

    let final_states = fit_header(header_state(), max_states);

    let has_ci_status = fetch_ci && has_any_ci;
    let ci_status_width: usize = 2;

    let widths = ColumnWidths {
        branch: fit_header(header_branch(), max_branch),
        time: fit_header(header_age(), max_time),
        ci_status: fit_header(header_ci(), ci_status_width),
        message: fit_header(header_message(), max_message),
        ahead_behind: DiffWidths {
            total: ahead_behind_total,
            added_digits: max_ahead_digits,
            deleted_digits: max_behind_digits,
        },
        working_diff: DiffWidths {
            total: working_diff_total,
            added_digits: max_wt_added_digits,
            deleted_digits: max_wt_deleted_digits,
        },
        branch_diff: DiffWidths {
            total: branch_diff_total,
            added_digits: max_br_added_digits,
            deleted_digits: max_br_deleted_digits,
        },
        upstream: DiffWidths {
            total: upstream_total,
            added_digits: max_upstream_ahead_digits,
            deleted_digits: max_upstream_behind_digits,
        },
        states: final_states,
        commit: COMMIT_HASH_WIDTH,
        path: 0,
    };

    let data_flags = ColumnDataFlags {
        working_diff: has_working_diff_data,
        ahead_behind: has_ahead_behind_data,
        branch_diff: has_branch_diff_data,
        upstream: has_upstream_data,
        states: max_states > 0,
        ci_status: has_ci_status,
    };

    (widths, data_flags)
}

/// Widest worktree path in display form across the rows (0 when none).
pub fn max_path_width(rows: &Vec<Row>) -> (r: usize)
    ensures
        r == max_path_w(rows@),
{
    let mut m: usize = 0;
    let n = rows.len();
    let mut i: usize = 0;
    while i < n
        invariant
            n == rows@.len(),
            i <= n,
            m == max_path_w(rows@.take(i as int)),
        decreases n - i,
    {
        let row = &rows[i];
        if row.kind == RowKind::Worktree {
            m = width_max(m, display_width(row.path_label.as_str()));
        }
        proof {
            assert(rows@.take(i + 1).drop_last() =~= rows@.take(i as int));
            assert(rows@.take(i + 1).last() == rows@[i as int]);
        }
        i = i + 1;
    }
    proof {
        assert(rows@.take(n as int) =~= rows@);
    }
    m
}

} // verus!

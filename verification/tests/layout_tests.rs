//! Column width calculation and responsive layout behaviour.

use wt_layout::calc::calculate_column_widths;
use wt_layout::layout::calculate_responsive_layout;
use wt_layout::row::{Row, RowKind};

/// A worktree row with no optional data at all.
fn bare_row(branch: &str, path: &str) -> Row {
    Row {
        kind: RowKind::Worktree,
        is_primary: true,
        branch: branch.to_string(),
        time_label: "15 years ago".to_string(),
        message: String::new(),
        working_diff: (0, 0),
        ahead: 0,
        behind: 0,
        branch_diff: (0, 0),
        upstream: None,
        states_label: String::new(),
        has_ci_status: false,
        path_label: path.to_string(),
    }
}

#[test]
fn test_column_width_calculation_with_unicode() {
    let info1 = Row {
        kind: RowKind::Worktree,
        is_primary: false,
        branch: "main".to_string(),
        time_label: "55 years ago".to_string(),
        message: "Test".to_string(),
        working_diff: (100, 50),
        ahead: 3,
        behind: 2,
        branch_diff: (200, 30),
        upstream: Some((4, 0)),
        states_label: String::new(),
        has_ci_status: false,
        path_label: "/test".to_string(),
    };

    let (widths, _data_flags) = calculate_column_widths(&vec![info1], false);

    // "↑3 ↓2" has width 5, but header "Main ↕" is 6
    assert_eq!(
        widths.ahead_behind.total, 6,
        "Ahead/behind column should fit header 'Main ↕' (width 6)"
    );
    assert_eq!(widths.ahead_behind.added_digits, 1, "3 has 1 digit");
    assert_eq!(widths.ahead_behind.deleted_digits, 1, "2 has 1 digit");

    // "+100 -50" has width 8, but header "Working ±" is 9, so column width is 9
    assert_eq!(
        widths.working_diff.total, 9,
        "Working diff column should fit header 'Working ±' (width 9)"
    );
    assert_eq!(widths.working_diff.added_digits, 3, "100 has 3 digits");
    assert_eq!(widths.working_diff.deleted_digits, 2, "50 has 2 digits");

    // "+200 -30" has width 8, but header "Main ±" is 6, so column width is 8
    assert_eq!(
        widths.branch_diff.total, 8,
        "Branch diff column should fit header 'Main ±' (width 6)"
    );
    assert_eq!(widths.branch_diff.added_digits, 3, "200 has 3 digits");
    assert_eq!(widths.branch_diff.deleted_digits, 2, "30 has 2 digits");

    // Upstream: "↑4 ↓0" has width 5, but header "Remote ↕" is 8
    assert_eq!(
        widths.upstream.total, 8,
        "Upstream column should fit header 'Remote ↕' (width 8)"
    );
    assert_eq!(widths.upstream.added_digits, 1, "4 has 1 digit");
    assert_eq!(widths.upstream.deleted_digits, 1, "0 has 1 digit");
}

#[test]
fn test_visible_columns_follow_gap_rule() {
    let info = Row {
        kind: RowKind::Worktree,
        is_primary: false,
        branch: "feature".to_string(),
        time_label: "15 years ago".to_string(),
        message: "Test commit message".to_string(),
        working_diff: (100, 50),
        ahead: 5,
        behind: 10,
        branch_diff: (200, 30),
        upstream: Some((4, 2)),
        states_label: String::new(),
        has_ci_status: false,
        path_label: "/test/path".to_string(),
    };

    let items = vec![info];
    let layout = calculate_responsive_layout(&items, false, false, 80);
    let pos = &layout.positions;
    let widths = &layout.widths;

    // 1. Branch always starts at position 0
    assert_eq!(pos.branch, 0, "Branch must start at position 0");

    // 2. States is empty but shown in pass 2 when space allows
    assert!(
        pos.states > 0,
        "States column should be visible in pass 2 (empty but shown if space)"
    );

    // 3. For visible columns, verify correct spacing: each visible column
    // starts at previous position + previous width + gap(2)
    let gap = 2;

    if widths.working_diff.total > 0 && pos.working_diff > 0 {
        assert_eq!(
            pos.working_diff,
            pos.branch + widths.branch + gap,
            "Working diff position should follow branch with 2-space gap"
        );
    }

    if widths.ahead_behind.total > 0 && pos.ahead_behind > 0 {
        let prev_col_end = if pos.working_diff > 0 {
            pos.working_diff + widths.working_diff.total
        } else {
            pos.branch + widths.branch
        };
        assert_eq!(
            pos.ahead_behind,
            prev_col_end + gap,
            "Ahead/behind position should follow previous visible column with 2-space gap"
        );
    }

    // 4. Path must be visible (it always has data)
    assert!(pos.path > 0, "Path column must be visible");
    assert!(widths.path > 0, "Path column must have width > 0");
}

#[test]
fn test_column_positions_with_hidden_columns() {
    // Minimal data - most columns will be hidden in pass 1
    let info = Row {
        kind: RowKind::Worktree,
        is_primary: true, // Primary worktree: no ahead/behind shown
        branch: "main".to_string(),
        time_label: "15 years ago".to_string(),
        message: "Test".to_string(),
        working_diff: (0, 0),
        ahead: 0,
        behind: 0,
        branch_diff: (0, 0),
        upstream: None,
        states_label: String::new(),
        has_ci_status: false,
        path_label: "/test".to_string(),
    };

    let items = vec![info];
    let layout = calculate_responsive_layout(&items, false, false, 80);
    let pos = &layout.positions;

    // Branch should be at 0
    assert_eq!(pos.branch, 0, "Branch always starts at position 0");

    // With two-phase allocation, empty columns are shown in pass 2 when
    // space allows; at width 80 with minimal data the early ones fit.
    assert!(
        pos.working_diff > 0,
        "Working diff should be visible in pass 2 (empty but shown if space)"
    );
    assert!(
        pos.ahead_behind > 0,
        "Ahead/behind should be visible in pass 2 (empty but shown if space)"
    );

    let empty_columns_visible = pos.working_diff > 0
        || pos.ahead_behind > 0
        || pos.branch_diff > 0
        || pos.states > 0
        || pos.upstream > 0;
    assert!(
        empty_columns_visible,
        "At least some empty columns should be visible in pass 2"
    );

    // Path should be visible (always has data)
    assert!(pos.path > 0, "Path should be visible");
}

#[test]
fn test_consecutive_hidden_columns_skip_correctly() {
    // Multiple consecutive columns hidden between branch and path
    let info = Row {
        kind: RowKind::Worktree,
        is_primary: true,
        branch: "feature-x".to_string(),
        time_label: "15 years ago".to_string(),
        message: "Test commit".to_string(),
        working_diff: (0, 0),
        ahead: 0,
        behind: 0,
        branch_diff: (0, 0),
        upstream: None,
        states_label: String::new(),
        has_ci_status: false,
        path_label: "/test/worktree".to_string(),
    };

    let items = vec![info];
    let layout = calculate_responsive_layout(&items, false, false, 80);
    let pos = &layout.positions;
    let widths = &layout.widths;

    // Path has data, so it is allocated in pass 1
    assert!(pos.path > 0, "Path should be visible (allocated in pass 1)");

    // Message is allocated before the empty columns
    assert!(widths.message > 0, "Message should be allocated before empty columns");
}

/// End-to-end: width 80, one row with only a branch name and path data.
/// The branch column is held to its header's width, the message takes its
/// share, and the empty optional columns only appear if room remains.
#[test]
fn test_end_to_end_minimal_row_at_80() {
    let items = vec![bare_row("main", "wt")];
    let layout = calculate_responsive_layout(&items, false, false, 80);
    let widths = &layout.widths;
    let pos = &layout.positions;

    // Branch data is 4 wide but the header "Branch" (6) sets the floor
    assert_eq!(widths.branch, 6);
    assert_eq!(pos.branch, 0);

    // Path keeps its header floor; its position accounts for the empty
    // columns that pass 2 revived ahead of it in display order
    assert_eq!(widths.path, 4, "path data 'wt' is narrower than header 'Path'");
    assert_eq!(pos.working_diff, 8, "empty working diff revived at branch end + gap");
    assert_eq!(pos.ahead_behind, 19);
    assert_eq!(pos.states, 27);
    assert_eq!(pos.path, 34);

    // The message was sized before the empty columns, then absorbed the
    // last leftover cells
    assert_eq!(widths.message, 16);
    assert_eq!(layout.max_message_len, 16);

    // Empty columns appear only because room remained after the message;
    // the last of them (upstream) no longer fit
    assert_eq!(widths.working_diff.total, 9);
    assert_eq!(widths.ahead_behind.total, 6);
    assert_eq!(widths.states, 5);
    assert_eq!(widths.upstream.total, 0);
    assert_eq!(pos.upstream, 0);

    // Everything visible fills the 80 columns exactly in this scenario
    assert_eq!(pos.message + widths.message, 80);
}

/// Sum of visible widths plus one gap between each consecutive visible
/// pair never exceeds the terminal width.
#[test]
fn test_visible_total_fits_terminal() {
    let info = Row {
        kind: RowKind::Worktree,
        is_primary: false,
        branch: "feature".to_string(),
        time_label: "15 years ago".to_string(),
        message: "A commit message of respectable length here".to_string(),
        working_diff: (100, 50),
        ahead: 5,
        behind: 10,
        branch_diff: (200, 30),
        upstream: Some((4, 2)),
        states_label: "[rebasing]".to_string(),
        has_ci_status: false,
        path_label: "/test/path".to_string(),
    };

    for width in [0, 5, 17, 30, 47, 80, 120, 200] {
        let items = vec![clone_row(&info)];
        let layout = calculate_responsive_layout(&items, true, false, width);
        let w = &layout.widths;
        let visible = [
            w.branch,
            w.working_diff.total,
            w.ahead_behind.total,
            w.branch_diff.total,
            w.states,
            w.path,
            w.upstream.total,
            w.time,
            w.ci_status,
            w.commit,
            w.message,
        ];
        let mut total = 0;
        for v in visible {
            if v > 0 {
                total += if total > 0 { v + 2 } else { v };
            }
        }
        assert!(
            total <= width,
            "visible columns ({total}) must fit terminal width {width}"
        );
    }
}

fn clone_row(r: &Row) -> Row {
    Row {
        kind: r.kind,
        is_primary: r.is_primary,
        branch: r.branch.clone(),
        time_label: r.time_label.clone(),
        message: r.message.clone(),
        working_diff: r.working_diff,
        ahead: r.ahead,
        behind: r.behind,
        branch_diff: r.branch_diff,
        upstream: r.upstream,
        states_label: r.states_label.clone(),
        has_ci_status: r.has_ci_status,
        path_label: r.path_label.clone(),
    }
}

/// A branch column visible at some width stays visible at every larger
/// width.
#[test]
fn test_wider_terminal_keeps_branch() {
    let items = vec![bare_row("main", "wt")];
    // "Branch" header makes the branch column 6 wide: hidden below 6
    let narrow = calculate_responsive_layout(&items, false, false, 5);
    assert_eq!(narrow.widths.branch, 0);
    for width in [6, 7, 10, 80] {
        let layout = calculate_responsive_layout(&items, false, false, width);
        assert_eq!(layout.widths.branch, 6, "branch stays visible at width {width}");
        assert_eq!(layout.positions.branch, 0);
    }
}

/// On a terminal wide enough for everything, no column visible at a
/// narrower width goes missing.
#[test]
fn test_saturated_width_keeps_every_visible_column() {
    let info = Row {
        kind: RowKind::Worktree,
        is_primary: false,
        branch: "feature".to_string(),
        time_label: "3 hours ago".to_string(),
        message: "Add the layout".to_string(),
        working_diff: (12, 3),
        ahead: 2,
        behind: 0,
        branch_diff: (40, 8),
        upstream: Some((1, 1)),
        states_label: "[rebasing]".to_string(),
        has_ci_status: false,
        path_label: "/repo/feature".to_string(),
    };

    let wide = calculate_responsive_layout(&vec![clone_row(&info)], true, false, 500);
    for narrow_width in [10, 25, 40, 60, 80] {
        let narrow = calculate_responsive_layout(&vec![clone_row(&info)], true, false, narrow_width);
        let nw = &narrow.widths;
        let ww = &wide.widths;
        assert!(nw.branch == 0 || ww.branch > 0);
        assert!(nw.working_diff.total == 0 || ww.working_diff.total > 0);
        assert!(nw.ahead_behind.total == 0 || ww.ahead_behind.total > 0);
        assert!(nw.branch_diff.total == 0 || ww.branch_diff.total > 0);
        assert!(nw.states == 0 || ww.states > 0);
        assert!(nw.path == 0 || ww.path > 0);
        assert!(nw.upstream.total == 0 || ww.upstream.total > 0);
        assert!(nw.time == 0 || ww.time > 0);
        assert!(nw.commit == 0 || ww.commit > 0);
        assert!(nw.message == 0 || ww.message > 0);
    }
}

/// The message text is capped to its first 50 characters when sizing.
#[test]
fn test_message_ideal_width_capped() {
    let mut row = bare_row("main", "wt");
    row.message = "x".repeat(60);
    let (widths, _) = calculate_column_widths(&vec![row], false);
    assert_eq!(widths.message, 50);
}

/// Display width, not character count, sizes the branch column: four
/// double-width characters measure 8 columns.
#[test]
fn test_branch_width_uses_display_width() {
    let row = bare_row("🤖🤖🤖🤖", "wt");
    let (widths, _) = calculate_column_widths(&vec![row], false);
    assert_eq!(widths.branch, 8, "four emoji are 8 columns wide, above the header's 6");
}

/// An active upstream with zero counts still renders "↑0 ↓0", so the
/// column counts as having data.
#[test]
fn test_upstream_zero_pair_counts_as_data() {
    let mut row = bare_row("main", "wt");
    row.upstream = Some((0, 0));
    let (widths, flags) = calculate_column_widths(&vec![row], false);
    assert!(flags.upstream);
    assert_eq!(widths.upstream.added_digits, 1, "0 has 1 digit");
    assert_eq!(widths.upstream.deleted_digits, 1, "0 has 1 digit");
    assert_eq!(widths.upstream.total, 8, "data width 5 is under the header's 8");
}

/// A worktree diff with one zero part still counts both parts' digits.
#[test]
fn test_working_diff_zero_part() {
    let mut row = bare_row("main", "wt");
    row.working_diff = (0, 5);
    let (widths, flags) = calculate_column_widths(&vec![row], false);
    assert!(flags.working_diff);
    assert_eq!(widths.working_diff.added_digits, 1);
    assert_eq!(widths.working_diff.deleted_digits, 1);
    assert_eq!(widths.working_diff.total, 9);
}

/// Sub-part digit counts grow independently across rows, so "+999 -7" and
/// "+7 -999" both size correctly.
#[test]
fn test_diff_parts_tracked_independently() {
    let mut a = bare_row("a", "wa");
    a.working_diff = (999, 7);
    let mut b = bare_row("b", "wb");
    b.working_diff = (7, 999);
    let (widths, _) = calculate_column_widths(&vec![a, b], false);
    assert_eq!(widths.working_diff.added_digits, 3);
    assert_eq!(widths.working_diff.deleted_digits, 3);
    // "+999 -999" is 9 wide, the same as the header
    assert_eq!(widths.working_diff.total, 9);
}

/// Ahead/behind pairs are ignored on the primary row.
#[test]
fn test_primary_row_contributes_no_ahead_behind() {
    let mut row = bare_row("main", "wt");
    row.ahead = 12;
    row.behind = 3;
    let (widths, flags) = calculate_column_widths(&vec![row], false);
    assert!(!flags.ahead_behind);
    assert_eq!(widths.ahead_behind.added_digits, 0);
    assert_eq!(widths.ahead_behind.total, 6, "header floor only");
}

/// CI visibility tracks "was CI requested and reported", not data width.
#[test]
fn test_ci_flag_requires_fetch_and_report() {
    let mut row = bare_row("main", "wt");
    row.has_ci_status = true;
    let (widths, flags) = calculate_column_widths(&vec![clone_row(&row)], true);
    assert!(flags.ci_status);
    assert_eq!(widths.ci_status, 2);

    let (_, flags_no_fetch) = calculate_column_widths(&vec![clone_row(&row)], false);
    assert!(!flags_no_fetch.ci_status);

    row.has_ci_status = false;
    let (_, flags_no_report) = calculate_column_widths(&vec![row], true);
    assert!(!flags_no_report.ci_status);
}

/// An empty row set hides every optional column and keeps the header
/// floors on the always-shown ones.
#[test]
fn test_empty_row_set() {
    let (widths, flags) = calculate_column_widths(&vec![], false);
    assert!(!flags.working_diff);
    assert!(!flags.ahead_behind);
    assert!(!flags.branch_diff);
    assert!(!flags.upstream);
    assert!(!flags.states);
    assert!(!flags.ci_status);
    assert_eq!(widths.branch, 6);
    assert_eq!(widths.message, 7);
    assert_eq!(widths.commit, 8);

    let layout = calculate_responsive_layout(&vec![], false, false, 0);
    assert_eq!(layout.widths.branch, 0, "degenerate width shows nothing");
    assert_eq!(layout.positions.branch, 0);
}


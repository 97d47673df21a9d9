//! Status column rendering behaviour.
//!
//! Two alignment systems are covered:
//! 1. Position-based alignment (git symbols): only slots used by at least
//!    one row are in the mask; rendering creates a grid where each occupied
//!    slot is one column, filled with the row's glyphs or a single space.
//! 2. Column-based alignment (user status): when any row has a user status,
//!    every row pads its grid to the dataset's maximum grid width so the
//!    status column lines up, branch-only rows padding entirely with spaces.

use wt_layout::status::{
    any_user_status, max_grid_width, BranchState, GitOperation, MainDivergence, PositionMask,
    StatusSymbols,
};

/// Test 1: Single symbol at the branch-state slot.
#[test]
fn test_single_symbol_position_0b() {
    let symbols = StatusSymbols { branch_state: BranchState::MatchesMain, ..Default::default() };

    let mask = PositionMask::from_symbols(&symbols);
    let result = symbols.render_with_mask(&mask);

    assert_eq!(result, "≡");
}

/// Test 2: Single symbol at the working-tree slot.
#[test]
fn test_single_symbol_position_3() {
    let symbols = StatusSymbols { working_tree: "!".to_string(), ..Default::default() };

    let mask = PositionMask::from_symbols(&symbols);
    let result = symbols.render_with_mask(&mask);

    assert_eq!(result, "!");
}

/// Test 3: Two symbols at different slots create an alignment grid.
#[test]
fn test_two_different_positions_align() {
    // Create mask from a row that has both slots
    let mask_builder = StatusSymbols {
        branch_state: BranchState::MatchesMain,
        working_tree: "!".to_string(),
        ..Default::default()
    };
    let mask = PositionMask::from_symbols(&mask_builder);

    // Row 1: only branch state
    let row1 = StatusSymbols { branch_state: BranchState::MatchesMain, ..Default::default() };
    assert_eq!(row1.render_with_mask(&mask), "≡ ");

    // Row 2: only working tree
    let row2 = StatusSymbols { working_tree: "!".to_string(), ..Default::default() };
    assert_eq!(row2.render_with_mask(&mask), " !");
}

/// Test 4: Same-slot symbols - single column grid, no padding.
#[test]
fn test_same_position_symbols_no_padding() {
    let mask_builder = StatusSymbols { working_tree: "!".to_string(), ..Default::default() };
    let mask = PositionMask::from_symbols(&mask_builder);

    let row1 = StatusSymbols { working_tree: "!".to_string(), ..Default::default() };
    assert_eq!(row1.render_with_mask(&mask), "!");

    let row2 = StatusSymbols { working_tree: "?".to_string(), ..Default::default() };
    assert_eq!(row2.render_with_mask(&mask), "?");
}

/// Test 5: Multiple symbols in one row fill multiple columns.
#[test]
fn test_multiple_symbols_one_row() {
    let row = StatusSymbols {
        branch_state: BranchState::MatchesMain,
        working_tree: "?".to_string(),
        ..Default::default()
    };

    let mask = PositionMask::from_symbols(&row);
    assert_eq!(row.render_with_mask(&mask), "≡?");
}

/// Test 6: Grid with some columns empty.
#[test]
fn test_multiple_symbols_with_position_gap() {
    let mask_builder = StatusSymbols {
        branch_state: BranchState::MatchesMain,
        working_tree: "!".to_string(),
        ..Default::default()
    };
    let mask = PositionMask::from_symbols(&mask_builder);

    // Row 1: only branch state
    let row1 = StatusSymbols { branch_state: BranchState::MatchesMain, ..Default::default() };
    assert_eq!(row1.render_with_mask(&mask), "≡ ");

    // Row 2: both slots
    let row2 = StatusSymbols {
        branch_state: BranchState::MatchesMain,
        working_tree: "!".to_string(),
        ..Default::default()
    };
    assert_eq!(row2.render_with_mask(&mask), "≡!");
}

/// Test 7: Git symbols + user status: the status follows with no gap.
#[test]
fn test_git_symbol_plus_user_status() {
    let rows = vec![StatusSymbols {
        working_tree: "!".to_string(),
        user_status: Some("🤖".to_string()),
        ..Default::default()
    }];
    let mask = PositionMask::from_rows(&rows);
    let widest = max_grid_width(&rows, &mask);
    let any = any_user_status(&rows);

    assert_eq!(rows[0].render_aligned(&mask, widest, any), "!🤖");
}

/// Test 8: Mixed rows: the user status follows the row's full grid.
#[test]
fn test_user_status_alignment_mixed() {
    let rows = vec![
        StatusSymbols {
            branch_state: BranchState::MatchesMain,
            working_tree: "?".to_string(),
            user_status: Some("🤖".to_string()),
            ..Default::default()
        },
        StatusSymbols { working_tree: "!".to_string(), ..Default::default() },
    ];
    let mask = PositionMask::from_rows(&rows);
    let widest = max_grid_width(&rows, &mask);
    let any = any_user_status(&rows);

    assert_eq!(rows[0].render_aligned(&mask, widest, any), "≡?🤖");
    assert_eq!(rows[1].render_aligned(&mask, widest, any), " !");
}

/// Test 9: Different grid widths, all rows with user status: the narrower
/// row pads before its status.
#[test]
fn test_user_status_alignment_all_have_status() {
    let rows = vec![
        StatusSymbols {
            branch_state: BranchState::MatchesMain,
            user_status: Some("⏸".to_string()),
            ..Default::default()
        },
        StatusSymbols {
            branch_state: BranchState::MatchesMain,
            working_tree: "?".to_string(),
            user_status: Some("🤖".to_string()),
            ..Default::default()
        },
    ];
    let mask = PositionMask::from_rows(&rows);
    let widest = max_grid_width(&rows, &mask);
    let any = any_user_status(&rows);

    assert_eq!(rows[0].render_aligned(&mask, widest, any), "≡ ⏸");
    assert_eq!(rows[1].render_aligned(&mask, widest, any), "≡?🤖");
}

/// Test 10: Branch-only entry with user status and no git symbols at all.
#[test]
fn test_branch_only_with_user_status() {
    let rows = vec![StatusSymbols { user_status: Some("🏠".to_string()), ..Default::default() }];
    let mask = PositionMask::from_rows(&rows);
    let widest = max_grid_width(&rows, &mask);
    let any = any_user_status(&rows);

    assert_eq!(rows[0].render_aligned(&mask, widest, any), "🏠");
}

/// Test 11: Mixed worktree and branch entries: the branch row pads its
/// empty grid so the user status aligns with the worktree's.
#[test]
fn test_mixed_worktree_and_branch() {
    let rows = vec![
        StatusSymbols {
            branch_state: BranchState::MatchesMain,
            working_tree: "?".to_string(),
            user_status: Some("🤖".to_string()),
            ..Default::default()
        },
        StatusSymbols { user_status: Some("🏠".to_string()), ..Default::default() },
    ];
    let mask = PositionMask::from_rows(&rows);
    let widest = max_grid_width(&rows, &mask);
    let any = any_user_status(&rows);

    assert_eq!(rows[0].render_aligned(&mask, widest, any), "≡?🤖");
    assert_eq!(rows[1].render_aligned(&mask, widest, any), "  🏠");
}

/// Test 12: Empty status (no symbols, no user status) renders nothing.
#[test]
fn test_empty_status() {
    let symbols = StatusSymbols::default();
    let mask = PositionMask::from_symbols(&symbols);

    assert_eq!(symbols.render_with_mask(&mask), "");
}

/// Test 13: Only user status on a worktree (clean tree, no git symbols).
#[test]
fn test_worktree_user_status_only() {
    let rows = vec![StatusSymbols { user_status: Some("⏸".to_string()), ..Default::default() }];
    let mask = PositionMask::from_rows(&rows);
    let widest = max_grid_width(&rows, &mask);
    let any = any_user_status(&rows);

    assert_eq!(rows[0].render_aligned(&mask, widest, any), "⏸");
}

/// Test 14: Three slots create a three-column grid.
#[test]
fn test_three_different_positions() {
    let mask_builder = StatusSymbols {
        branch_state: BranchState::MatchesMain,
        main_divergence: MainDivergence::Behind,
        working_tree: "!".to_string(),
        ..Default::default()
    };
    let mask = PositionMask::from_symbols(&mask_builder);

    let row1 = StatusSymbols { branch_state: BranchState::MatchesMain, ..Default::default() };
    assert_eq!(row1.render_with_mask(&mask), "≡  ");

    let row2 = StatusSymbols { main_divergence: MainDivergence::Behind, ..Default::default() };
    assert_eq!(row2.render_with_mask(&mask), " ↓ ");

    let row3 = StatusSymbols { working_tree: "!".to_string(), ..Default::default() };
    assert_eq!(row3.render_with_mask(&mask), "  !");
}

/// Test 15: Adjacent occupied slots render with no space between them.
#[test]
fn test_adjacent_positions_no_space() {
    let row = StatusSymbols {
        branch_state: BranchState::MatchesMain,
        git_operation: GitOperation::Rebase,
        ..Default::default()
    };

    let mask = PositionMask::from_symbols(&row);
    assert_eq!(row.render_with_mask(&mask), "≡↻");
}

/// Test 16: All occupied slots filled, the working-tree run holding several
/// glyphs in its single column.
#[test]
fn test_all_positions_filled() {
    let row = StatusSymbols {
        branch_state: BranchState::MatchesMain,
        working_tree: "!+".to_string(),
        ..Default::default()
    };

    let mask = PositionMask::from_symbols(&row);
    assert_eq!(row.render_with_mask(&mask), "≡!+");
}

/// Test 17: Real-world mix of three rows over a three-column grid.
#[test]
fn test_real_world_complex_1() {
    let mask_builder = StatusSymbols {
        branch_state: BranchState::MatchesMain,
        main_divergence: MainDivergence::Behind,
        working_tree: "!+".to_string(),
        ..Default::default()
    };
    let mask = PositionMask::from_symbols(&mask_builder);

    let row1 = StatusSymbols {
        branch_state: BranchState::MatchesMain,
        working_tree: "?".to_string(),
        ..Default::default()
    };
    assert_eq!(row1.render_with_mask(&mask), "≡ ?");

    let row2 = StatusSymbols { working_tree: "!".to_string(), ..Default::default() };
    assert_eq!(row2.render_with_mask(&mask), "  !");

    let row3 = StatusSymbols {
        main_divergence: MainDivergence::Behind,
        working_tree: "!+".to_string(),
        ..Default::default()
    };
    assert_eq!(row3.render_with_mask(&mask), " ↓!+");
}

/// Test 18: Two-column grid with partial fills.
#[test]
fn test_real_world_extreme_diffs() {
    let mask_builder = StatusSymbols {
        branch_state: BranchState::MatchesMain,
        working_tree: "?".to_string(),
        ..Default::default()
    };
    let mask = PositionMask::from_symbols(&mask_builder);

    let row1 = StatusSymbols {
        branch_state: BranchState::MatchesMain,
        working_tree: "?".to_string(),
        ..Default::default()
    };
    assert_eq!(row1.render_with_mask(&mask), "≡?");

    let row2 = StatusSymbols { working_tree: "!".to_string(), ..Default::default() };
    assert_eq!(row2.render_with_mask(&mask), " !");
}

/// Test 19: User status alignment with varying git widths: every status
/// starts at the dataset's maximum grid width, for worktrees and branches
/// alike.
#[test]
fn test_user_status_varying_git_widths() {
    let rows = vec![
        StatusSymbols {
            branch_state: BranchState::MatchesMain,
            user_status: Some("🤖".to_string()),
            ..Default::default()
        },
        StatusSymbols {
            branch_state: BranchState::MatchesMain,
            working_tree: "?!".to_string(),
            user_status: Some("⏸".to_string()),
            ..Default::default()
        },
        StatusSymbols { user_status: Some("🏠".to_string()), ..Default::default() },
    ];
    let mask = PositionMask::from_rows(&rows);
    let widest = max_grid_width(&rows, &mask);
    let any = any_user_status(&rows);

    assert_eq!(rows[0].render_aligned(&mask, widest, any), "≡  🤖");
    assert_eq!(rows[1].render_aligned(&mask, widest, any), "≡?!⏸");
    assert_eq!(rows[2].render_aligned(&mask, widest, any), "   🏠");
}

/// Test 20: The mask creates a minimal grid: unused slots never reserve a
/// column.
#[test]
fn test_position_mask_removes_unused_positions() {
    let mask_builder = StatusSymbols {
        branch_state: BranchState::MatchesMain,
        working_tree: "!".to_string(),
        ..Default::default()
    };
    let mask = PositionMask::from_symbols(&mask_builder);

    let row1 = StatusSymbols { branch_state: BranchState::MatchesMain, ..Default::default() };
    let result1 = row1.render_with_mask(&mask);
    assert_eq!(result1, "≡ ");
    assert_eq!(result1.chars().count(), 2);

    let row2 = StatusSymbols { working_tree: "!".to_string(), ..Default::default() };
    let result2 = row2.render_with_mask(&mask);
    assert_eq!(result2, " !");
    assert_eq!(result2.chars().count(), 2);
}

/// Suffix alignment across a worktree row and a branch-only row: both
/// suffixes start at the shared grid column.
#[test]
fn test_suffix_column_shared_across_rows() {
    let rows = vec![
        StatusSymbols {
            branch_state: BranchState::MatchesMain,
            working_tree: "?".to_string(),
            user_status: Some("Z".to_string()),
            ..Default::default()
        },
        StatusSymbols { user_status: Some("W".to_string()), ..Default::default() },
    ];
    let mask = PositionMask::from_rows(&rows);
    let widest = max_grid_width(&rows, &mask);
    assert_eq!(widest, 2);
    let any = any_user_status(&rows);
    assert!(any);

    assert_eq!(rows[0].render_aligned(&mask, widest, any), "≡?Z");
    assert_eq!(rows[1].render_aligned(&mask, widest, any), "  W");
}

/// Without any user status in the dataset, no padding occurs and each row's
/// natural grid width stands.
#[test]
fn test_no_suffix_means_no_padding() {
    let rows = vec![
        StatusSymbols { branch_state: BranchState::MatchesMain, ..Default::default() },
        StatusSymbols { working_tree: "!+?".to_string(), ..Default::default() },
    ];
    let mask = PositionMask::from_rows(&rows);
    let widest = max_grid_width(&rows, &mask);
    assert_eq!(widest, 4);
    let any = any_user_status(&rows);
    assert!(!any);

    assert_eq!(rows[0].render_aligned(&mask, widest, any), "≡ ");
    assert_eq!(rows[1].render_aligned(&mask, widest, any), " !+?");
}

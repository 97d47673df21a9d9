//! Adaptive terminal-layout engine for a worktree listing.
//!
//! Given a set of rows describing git worktrees and branches and a fixed
//! terminal width, the library decides which columns to show, how wide each
//! one is and where it starts, guaranteeing that headers never truncate and
//! that the visible columns always fit the terminal.  A second component
//! compacts per-row status glyphs into a dense, column-aligned grid shared
//! by all rows of a listing.

pub mod alloc_model;
pub mod alloc_props;
pub mod calc;
pub mod columns;
pub mod directive;
pub mod layout;
pub mod row;
pub mod status;
pub mod textwidth;

//! Status symbols: per-row glyphs compacted into a dense, column-aligned
//! grid shared by all rows of a listing.
//!
//! Each of the four ordinal slots (branch state, main divergence, git
//! operation, working tree) is a closed category with an explicit absent
//! variant; only slots occupied by at least one row become grid columns.
//! The three singleton slots occupy one character each; the working-tree
//! slot is a variable-length run of glyphs that counts as one column whose
//! rendered width is the run's own length.

use vstd::prelude::*;
use vstd::string::{StrSliceExecFns, StringExecFns};

verus! {

/// How the row's branch relates to the main branch.
#[derive(Clone, Copy, Debug, PartialEq, Eq, Structural)]
pub enum BranchState {
    Absent,
    MatchesMain,
}

/// Whether the row's branch has diverged from main.
#[derive(Clone, Copy, Debug, PartialEq, Eq, Structural)]
pub enum MainDivergence {
    Absent,
    Ahead,
    Behind,
}

/// An in-progress git operation on the row's worktree.
#[derive(Clone, Copy, Debug, PartialEq, Eq, Structural)]
pub enum GitOperation {
    Absent,
    Rebase,
}

/// One row's status symbols: the three singleton slots, the working-tree
/// glyph run (empty when clean), and an optional free-form user status.
pub struct StatusSymbols {
    pub branch_state: BranchState,
    pub main_divergence: MainDivergence,
    pub git_operation: GitOperation,
    pub working_tree: String,
    pub user_status: Option<String>,
}

impl Default for StatusSymbols {
    /// A row with no symbols at all.
    fn default() -> (r: Self)
        ensures
            r.branch_state == BranchState::Absent,
            r.main_divergence == MainDivergence::Absent,
            r.git_operation == GitOperation::Absent,
            r.working_tree@ == Seq::<char>::empty(),
            r.user_status is None,
    {
        StatusSymbols {
            branch_state: BranchState::Absent,
            main_divergence: MainDivergence::Absent,
            git_operation: GitOperation::Absent,
            working_tree: String::new(),
            user_status: None,
        }
    }
}

pub open spec fn bs_present(s: StatusSymbols) -> bool {
    s.branch_state != BranchState::Absent
}

pub open spec fn md_present(s: StatusSymbols) -> bool {
    s.main_divergence != MainDivergence::Absent
}

pub open spec fn go_present(s: StatusSymbols) -> bool {
    s.git_operation != GitOperation::Absent
}

pub open spec fn wt_present(s: StatusSymbols) -> bool {
    s.working_tree@.len() > 0
}

pub open spec fn spec_bs_glyph(b: BranchState) -> Seq<char> {
    match b {
        BranchState::Absent => Seq::empty(),
        BranchState::MatchesMain => seq!['≡'],
    }
}

pub open spec fn spec_md_glyph(d: MainDivergence) -> Seq<char> {
    match d {
        MainDivergence::Absent => Seq::empty(),
        MainDivergence::Ahead => seq!['↑'],
        MainDivergence::Behind => seq!['↓'],
    }
}

pub open spec fn spec_go_glyph(g: GitOperation) -> Seq<char> {
    match g {
        GitOperation::Absent => Seq::empty(),
        GitOperation::Rebase => seq!['↻'],
    }
}

/// The subset of ordinal slots occupied in a listing, in canonical order:
/// branch state, main divergence, git operation, working tree.  Only these
/// slots become grid columns.
#[derive(Clone, Copy, Debug, PartialEq, Eq, Structural)]
pub struct PositionMask {
    pub branch_state: bool,
    pub main_divergence: bool,
    pub git_operation: bool,
    pub working_tree: bool,
}

/// The slots one row occupies.
pub open spec fn spec_mask_of(s: StatusSymbols) -> PositionMask {
    PositionMask {
        branch_state: bs_present(s),
        main_divergence: md_present(s),
        git_operation: go_present(s),
        working_tree: wt_present(s),
    }
}

pub open spec fn spec_mask_union(m1: PositionMask, m2: PositionMask) -> PositionMask {
    PositionMask {
        branch_state: m1.branch_state || m2.branch_state,
        main_divergence: m1.main_divergence || m2.main_divergence,
        git_operation: m1.git_operation || m2.git_operation,
        working_tree: m1.working_tree || m2.working_tree,
    }
}

/// The slots occupied by at least one row of the listing.
pub open spec fn spec_mask_of_rows(rows: Seq<StatusSymbols>) -> PositionMask
    decreases rows.len(),
{
    if rows.len() == 0 {
        PositionMask {
            branch_state: false,
            main_divergence: false,
            git_operation: false,
            working_tree: false,
        }
    } else {
        spec_mask_union(spec_mask_of_rows(rows.drop_last()), spec_mask_of(rows.last()))
    }
}

impl PositionMask {
    /// The slots this row occupies.
    pub fn from_symbols(s: &StatusSymbols) -> (r: Self)
        ensures
            r == spec_mask_of(*s),
    {
        PositionMask {
            branch_state: !matches!(s.branch_state, BranchState::Absent),
            main_divergence: !matches!(s.main_divergence, MainDivergence::Absent),
            git_operation: !matches!(s.git_operation, GitOperation::Absent),
            working_tree: !s.working_tree.as_str().is_empty(),
        }
    }

    /// The slots occupied by at least one of the rows.
    pub fn from_rows(rows: &Vec<StatusSymbols>) -> (r: Self)
        ensures
            r == spec_mask_of_rows(rows@),
    {
        let mut m = PositionMask {
            branch_state: false,
            main_divergence: false,
            git_operation: false,
            working_tree: false,
        };
        let n = rows.len();
        let mut i: usize = 0;
        while i < n
            invariant
                n == rows@.len(),
                i <= n,
                m == spec_mask_of_rows(rows@.take(i as int)),
            decreases n - i,
        {
            let one = Self::from_symbols(&rows[i]);
            m = PositionMask {
                branch_state: m.branch_state || one.branch_state,
                main_divergence: m.main_divergence || one.main_divergence,
                git_operation: m.git_operation || one.git_operation,
                working_tree: m.working_tree || one.working_tree,
            };
            proof {
                assert(rows@.take(i + 1).drop_last() =~= rows@.take(i as int));
                assert(rows@.take(i + 1).last() == rows@[i as int]);
            }
            i = i + 1;
        }
        proof {
            assert(rows@.take(n as int) =~= rows@);
        }
        m
    }
}

/// What one slot contributes to a row's rendered grid: nothing if the slot
/// is not in the mask, the row's own glyphs if it occupies the slot, and a
/// single space otherwise.
pub open spec fn slot_chars(in_mask: bool, present: bool, content: Seq<char>) -> Seq<char> {
    if !in_mask {
        Seq::empty()
    } else if present {
        content
    } else {
        seq![' ']
    }
}

/// A row's rendered grid: one substring per occupied mask slot, in canonical
/// order, with no separators between them.
pub open spec fn grid_chars(mask: PositionMask, s: StatusSymbols) -> Seq<char> {
    slot_chars(mask.branch_state, bs_present(s), spec_bs_glyph(s.branch_state)) + slot_chars(
        mask.main_divergence,
        md_present(s),
        spec_md_glyph(s.main_divergence),
    ) + slot_chars(mask.git_operation, go_present(s), spec_go_glyph(s.git_operation)) + slot_chars(
        mask.working_tree,
        wt_present(s),
        s.working_tree@,
    )
}

/// Number of singleton grid columns in the mask.
pub open spec fn mask_singleton_count(mask: PositionMask) -> nat {
    (if mask.branch_state {
        1nat
    } else {
        0nat
    }) + (if mask.main_divergence {
        1nat
    } else {
        0nat
    }) + (if mask.git_operation {
        1nat
    } else {
        0nat
    })
}

/// What the working-tree slot contributes to a row's grid width: one cell
/// when the row's run is empty, the run's own length otherwise.
pub open spec fn wt_contrib(mask: PositionMask, s: StatusSymbols) -> nat {
    if !mask.working_tree {
        0
    } else if s.working_tree@.len() == 0 {
        1
    } else {
        s.working_tree@.len()
    }
}

/// For a fixed mask, a row's grid width is the mask's singleton count plus
/// the working-tree contribution: apart from the run's own variable length,
/// every row of the listing renders to the same grid width.
pub proof fn lemma_grid_len(mask: PositionMask, s: StatusSymbols)
    ensures
        grid_chars(mask, s).len() == mask_singleton_count(mask) + wt_contrib(mask, s),
{
}

/// Two rows whose working-tree runs contribute equally render grids of
/// identical total width under any one mask.
pub proof fn lemma_grid_width_uniform(mask: PositionMask, s1: StatusSymbols, s2: StatusSymbols)
    requires
        wt_contrib(mask, s1) == wt_contrib(mask, s2),
    ensures
        grid_chars(mask, s1).len() == grid_chars(mask, s2).len(),
{
    lemma_grid_len(mask, s1);
    lemma_grid_len(mask, s2);
}

/// A run of `n` spaces.
pub open spec fn spaces(n: nat) -> Seq<char> {
    Seq::new(n, |i: int| ' ')
}

/// The row's user-status suffix, empty when absent.
pub open spec fn suffix_chars(s: StatusSymbols) -> Seq<char> {
    match s.user_status {
        Some(u) => u@,
        None => Seq::empty(),
    }
}

/// A row's full rendering: its grid, padded on the right to the dataset's
/// maximum grid width when any row of the dataset carries a user-status
/// suffix, followed by the row's own suffix.  Without any suffix in the
/// dataset no padding occurs and the natural width stands.
pub open spec fn aligned_chars(
    mask: PositionMask,
    s: StatusSymbols,
    max_grid_width: nat,
    any_suffix: bool,
) -> Seq<char> {
    let g = grid_chars(mask, s);
    let padded = if any_suffix && g.len() < max_grid_width {
        g + spaces((max_grid_width - g.len()) as nat)
    } else {
        g
    };
    padded + suffix_chars(s)
}

/// When every row's grid fits the dataset maximum, each row with a suffix
/// shows it starting exactly at that maximum grid column, whatever its own
/// symbol count - branch-only rows pad entirely with spaces.
pub proof fn lemma_suffix_alignment(mask: PositionMask, s: StatusSymbols, max_grid_width: nat)
    requires
        grid_chars(mask, s).len() <= max_grid_width,
    ensures
        aligned_chars(mask, s, max_grid_width, true).len() == max_grid_width + suffix_chars(
            s,
        ).len(),
        aligned_chars(mask, s, max_grid_width, true).subrange(
            max_grid_width as int,
            max_grid_width + suffix_chars(s).len() as int,
        ) =~= suffix_chars(s),
{
    let g = grid_chars(mask, s);
    if g.len() < max_grid_width {
        assert(aligned_chars(mask, s, max_grid_width, true) == (g + spaces(
            (max_grid_width - g.len()) as nat,
        )) + suffix_chars(s));
    }
}

impl StatusSymbols {
    /// Render this row's grid for the given mask: the row's glyphs at each
    /// occupied mask slot, a single space at mask slots the row leaves
    /// empty, nothing at slots outside the mask.
    pub fn render_with_mask(&self, mask: &PositionMask) -> (r: String)
        ensures
            r@ == grid_chars(*mask, *self),
    {
        proof {
            reveal_strlit(" ");
            reveal_strlit("≡");
            reveal_strlit("↑");
            reveal_strlit("↓");
            reveal_strlit("↻");
        }
        let mut out = String::new();

        if mask.branch_state {
            match self.branch_state {
                BranchState::Absent => out.append(" "),
                BranchState::MatchesMain => out.append("≡"),
            }
        }
        let ghost part1 = slot_chars(
            mask.branch_state,
            bs_present(*self),
            spec_bs_glyph(self.branch_state),
        );
        proof {
            assert(out@ =~= part1);
        }

        if mask.main_divergence {
            match self.main_divergence {
                MainDivergence::Absent => out.append(" "),
                MainDivergence::Ahead => out.append("↑"),
                MainDivergence::Behind => out.append("↓"),
            }
        }
        let ghost part2 = part1 + slot_chars(
            mask.main_divergence,
            md_present(*self),
            spec_md_glyph(self.main_divergence),
        );
        proof {
            assert(out@ =~= part2);
        }

        if mask.git_operation {
            match self.git_operation {
                GitOperation::Absent => out.append(" "),
                GitOperation::Rebase => out.append("↻"),
            }
        }
        let ghost part3 = part2 + slot_chars(
            mask.git_operation,
            go_present(*self),
            spec_go_glyph(self.git_operation),
        );
        proof {
            assert(out@ =~= part3);
        }

        if mask.working_tree {
            if self.working_tree.as_str().is_empty() {
                out.append(" ");
            } else {
                out.append(self.working_tree.as_str());
            }
        }
        proof {
            assert(out@ =~= grid_chars(*mask, *self));
        }
        out
    }

    /// Render this row's grid and suffix in dataset context: when any row
    /// of the listing has a user-status suffix, the grid is padded to the
    /// dataset's maximum grid width so every suffix starts at the same
    /// column; the row's own suffix, if any, follows.
    pub fn render_aligned(&self, mask: &PositionMask, max_grid_width: usize, any_suffix: bool) -> (r:
        String)
        ensures
            r@ == aligned_chars(*mask, *self, max_grid_width as nat, any_suffix),
    {
        proof {
            reveal_strlit(" ");
        }
        let mut out = self.render_with_mask(mask);
        let ghost g = grid_chars(*mask, *self);
        if any_suffix {
            let grid_width = out.as_str().unicode_len();
            let mut k = grid_width;
            while k < max_grid_width
                invariant
                    grid_width == g.len(),
                    grid_width <= k,
                    k <= max_grid_width || k == grid_width,
                    out@ =~= g + spaces((k - grid_width) as nat),
                decreases max_grid_width - k,
            {
                proof {
                    reveal_strlit(" ");
                }
                out.append(" ");
                k = k + 1;
            }
            proof {
                if g.len() < max_grid_width {
                    assert(out@ =~= g + spaces((max_grid_width as nat - g.len()) as nat));
                } else {
                    assert(out@ =~= g);
                }
            }
        }
        match &self.user_status {
            Some(u) => out.append(u.as_str()),
            None => {},
        }
        proof {
            assert(out@ =~= aligned_chars(*mask, *self, max_grid_width as nat, any_suffix));
        }
        out
    }
}

/// Largest grid width any row of the listing renders under the mask.
pub open spec fn spec_max_grid(rows: Seq<StatusSymbols>, mask: PositionMask) -> nat
    decreases rows.len(),
{
    if rows.len() == 0 {
        0
    } else {
        let rest = spec_max_grid(rows.drop_last(), mask);
        let last = grid_chars(mask, rows.last()).len();
        if rest < last {
            last
        } else {
            rest
        }
    }
}

/// Whether any row of the listing carries a user-status suffix.
pub open spec fn spec_any_suffix(rows: Seq<StatusSymbols>) -> bool
    decreases rows.len(),
{
    if rows.len() == 0 {
        false
    } else {
        spec_any_suffix(rows.drop_last()) || rows.last().user_status is Some
    }
}

/// The dataset's maximum occupied-grid width, the reduction every per-row
/// render with suffix alignment depends on.
pub fn max_grid_width(rows: &Vec<StatusSymbols>, mask: &PositionMask) -> (r: usize)
    ensures
        r == spec_max_grid(rows@, *mask),
{
    let mut m: usize = 0;
    let n = rows.len();
    let mut i: usize = 0;
    while i < n
        invariant
            n == rows@.len(),
            i <= n,
            m == spec_max_grid(rows@.take(i as int), *mask),
        decreases n - i,
    {
        let rendered = rows[i].render_with_mask(mask);
        let w = rendered.as_str().unicode_len();
        if m < w {
            m = w;
        }
        proof {
            assert(rows@.take(i + 1).drop_last() =~= rows@.take(i as int));
            assert(rows@.take(i + 1).last() == rows@[i as int]);
        }
        i = i + 1;
    }
    proof {
        assert(rows@.take(n as int) =~= rows@);
    }
    m
}

/// Whether any row of the listing has a user-status suffix: decides whether
/// suffix alignment padding applies at all.
pub fn any_user_status(rows: &Vec<StatusSymbols>) -> (r: bool)
    ensures
        r == spec_any_suffix(rows@),
{
    let mut found = false;
    let n = rows.len();
    let mut i: usize = 0;
    while i < n
        invariant
            n == rows@.len(),
            i <= n,
            found == spec_any_suffix(rows@.take(i as int)),
        decreases n - i,
    {
        found = found || rows[i].user_status.is_some();
        proof {
            assert(rows@.take(i + 1).drop_last() =~= rows@.take(i as int));
            assert(rows@.take(i + 1).last() == rows@[i as int]);
        }
        i = i + 1;
    }
    proof {
        assert(rows@.take(n as int) =~= rows@);
    }
    found
}

} // verus!

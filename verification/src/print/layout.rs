//! The mathematics of the multi-column grid: where each entry lands, how wide
//! each column becomes, and which column counts fit a line-width budget.

use vstd::prelude::*;

verus! {

/// Narrowest column a grid may have: one character and the gap that follows.
pub const MIN_COLUMN_WIDTH: usize = 3;

/// Blank characters between a column and the next.
pub const COLUMN_GAP: usize = 2;

/// A candidate grid: the entry widths in display order, a column count, and
/// the direction in which entries fill the grid.
pub struct Layout {
    pub widths: Seq<usize>,
    pub columns: nat,
    pub by_columns: bool,
}

/// Rows needed to hold `n` entries in `c` columns.
pub open spec fn grid_rows(n: nat, c: nat) -> nat {
    if n == 0 {
        0
    } else {
        ((n - 1) / (c as int) + 1) as nat
    }
}

/// Width an entry of display width `w` claims in column `j` of `c`: every
/// column but the last carries the gap.
pub open spec fn cell_width(w: nat, j: nat, c: nat) -> nat {
    if j + 1 == c {
        w
    } else {
        w + COLUMN_GAP as nat
    }
}

impl Layout {
    /// Number of entries.
    pub open spec fn len(self) -> nat {
        self.widths.len()
    }

    /// Column of entry `i`. Column-major order fills a column before moving
    /// to the next; row-major order deals entries out across the columns.
    pub open spec fn slot(self, i: nat) -> nat {
        if self.by_columns {
            (i as int / grid_rows(self.len(), self.columns) as int) as nat
        } else {
            i % self.columns
        }
    }

    /// Width of column `j` once the first `k` entries are placed: the widest
    /// cell placed in it, and never less than the minimum.
    pub open spec fn column_width(self, j: nat, k: nat) -> nat
        decreases k,
    {
        if k == 0 {
            MIN_COLUMN_WIDTH as nat
        } else {
            let before = self.column_width(j, (k - 1) as nat);
            let cell = cell_width(self.widths[k - 1] as nat, j, self.columns);
            if self.slot((k - 1) as nat) == j && before < cell {
                cell
            } else {
                before
            }
        }
    }

    /// Total width of the first `m` columns once the first `k` entries are
    /// placed.
    pub open spec fn line_width_upto(self, k: nat, m: nat) -> nat
        decreases m,
    {
        if m == 0 {
            0
        } else {
            self.line_width_upto(k, (m - 1) as nat) + self.column_width((m - 1) as nat, k)
        }
    }

    /// Total width of a line once the first `k` entries are placed.
    pub open spec fn line_width(self, k: nat) -> nat {
        self.line_width_upto(k, self.columns)
    }

    /// The grid with every entry placed stays within `budget`.
    pub open spec fn fits(self, budget: nat) -> bool {
        self.line_width(self.len()) <= budget
    }

    /// Scanning the first `k` entries in order, the number of leading entries
    /// placed before the line first outgrew `budget`. Placement stops for good
    /// at the first entry that does not fit.
    pub open spec fn settled(self, budget: nat, k: nat) -> nat
        decreases k,
    {
        if k == 0 {
            0
        } else {
            let s = self.settled(budget, (k - 1) as nat);
            if s == k - 1 && self.line_width(k) <= budget {
                k
            } else {
                s
            }
        }
    }
}

/// The grid of `widths` in `c` columns fits `budget`.
pub open spec fn grid_fits(widths: Seq<usize>, by_columns: bool, budget: nat, c: nat) -> bool {
    (Layout { widths, columns: c, by_columns }).fits(budget)
}

/// Largest column count in `1..=c` whose grid fits, or one when none does:
/// the fallback of one entry per row.
pub open spec fn best_upto(widths: Seq<usize>, by_columns: bool, budget: nat, c: nat) -> nat
    decreases c,
{
    if c <= 1 {
        1
    } else if grid_fits(widths, by_columns, budget, c) {
        c
    } else {
        best_upto(widths, by_columns, budget, (c - 1) as nat)
    }
}

/// Number of candidate column counts: what the budget can hold at the minimum
/// column width, capped by `max_idx` and by the number of entries.
pub open spec fn candidate_count(n: nat, budget: nat, max_idx: nat) -> nat {
    let by_budget = budget / MIN_COLUMN_WIDTH as nat;
    let capped = if max_idx < by_budget {
        max_idx
    } else {
        by_budget
    };
    if n < capped {
        n
    } else {
        capped
    }
}

/// The column count chosen for `widths`: zero when there is nothing to lay
/// out, otherwise the largest fitting candidate, or one when none fits.
pub open spec fn best_columns(widths: Seq<usize>, by_columns: bool, budget: nat, max_idx: nat) -> nat {
    if widths.len() == 0 {
        0
    } else {
        best_upto(widths, by_columns, budget, candidate_count(widths.len(), budget, max_idx))
    }
}

/// Every entry lands in one of the grid's columns.
pub proof fn lemma_slot_in_range(l: Layout, i: nat)
    requires
        l.columns >= 1,
        i < l.len(),
    ensures
        l.slot(i) < l.columns,
{
    if l.by_columns {
        let n = l.len() as int;
        let c = l.columns as int;
        let rows = grid_rows(l.len(), l.columns) as int;
        let i = i as int;
        assert(i / rows < c) by (nonlinear_arith)
            requires
                rows == (n - 1) / c + 1,
                0 <= i < n,
                c >= 1,
        ;
    } else {
        assert((i as int) % (l.columns as int) < l.columns as int) by (nonlinear_arith)
            requires
                l.columns >= 1,
                i >= 0,
        ;
    }
}

/// Placing entry `k` widens the first `m` columns by exactly the amount its
/// own column grows, if that column is among them.
pub proof fn lemma_line_step(l: Layout, k: nat, m: nat)
    requires
        k < l.len(),
    ensures
        l.line_width_upto(k + 1, m) == l.line_width_upto(k, m) + ({
            let j = l.slot(k);
            let before = l.column_width(j, k);
            let cell = cell_width(l.widths[k as int] as nat, j, l.columns);
            if j < m && before < cell {
                (cell - before) as nat
            } else {
                0
            }
        }),
    decreases m,
{
    if m > 0 {
        lemma_line_step(l, k, (m - 1) as nat);
    }
}

/// No column is wider than the line it is part of.
pub proof fn lemma_column_within_line(l: Layout, k: nat, j: nat, m: nat)
    requires
        j < m,
    ensures
        l.column_width(j, k) <= l.line_width_upto(k, m),
    decreases m,
{
    if j + 1 < m {
        lemma_column_within_line(l, k, j, (m - 1) as nat);
    }
}

/// A line never shrinks as more entries are placed.
pub proof fn lemma_line_grows(l: Layout, k1: nat, k2: nat)
    requires
        k1 <= k2 <= l.len(),
    ensures
        l.line_width(k1) <= l.line_width(k2),
    decreases k2 - k1,
{
    if k1 < k2 {
        lemma_line_grows(l, k1, (k2 - 1) as nat);
        lemma_line_step(l, (k2 - 1) as nat, l.columns);
    }
}

/// Before any entry is placed every column has the minimum width.
pub proof fn lemma_empty_line(l: Layout, m: nat)
    ensures
        l.line_width_upto(0, m) == m * MIN_COLUMN_WIDTH as nat,
    decreases m,
{
    if m > 0 {
        lemma_empty_line(l, (m - 1) as nat);
        assert(m * 3 == (m - 1) * 3 + 3) by (nonlinear_arith);
    }
}

/// Once an entry failed to fit, no later entry is placed.
pub proof fn lemma_settled_stuck(l: Layout, budget: nat, k1: nat, k2: nat)
    requires
        k1 <= k2,
        l.settled(budget, k1) < k1,
    ensures
        l.settled(budget, k2) == l.settled(budget, k1),
    decreases k2 - k1,
{
    if k1 < k2 {
        lemma_settled_stuck(l, budget, k1, (k2 - 1) as nat);
    }
}

/// Placement never runs ahead of the scan.
pub proof fn lemma_settled_bound(l: Layout, budget: nat, k: nat)
    ensures
        l.settled(budget, k) <= k,
    decreases k,
{
    if k > 0 {
        lemma_settled_bound(l, budget, (k - 1) as nat);
    }
}

/// Every entry is placed exactly when the finished grid fits the budget.
pub proof fn lemma_settled_all_iff_fits(l: Layout, budget: nat)
    requires
        l.line_width(0) <= budget,
    ensures
        l.settled(budget, l.len()) == l.len() <==> l.fits(budget),
{
    if l.fits(budget) {
        lemma_fits_settles(l, budget, l.len());
    } else if l.len() > 0 {
        lemma_settled_bound(l, budget, (l.len() - 1) as nat);
    }
}

proof fn lemma_fits_settles(l: Layout, budget: nat, k: nat)
    requires
        k <= l.len(),
        l.fits(budget),
    ensures
        l.settled(budget, k) == k,
    decreases k,
{
    if k > 0 {
        lemma_fits_settles(l, budget, (k - 1) as nat);
        lemma_line_grows(l, k, l.len());
    }
}

/// The chosen count is a candidate, or the one-column fallback.
pub proof fn lemma_best_upto_range(widths: Seq<usize>, by_columns: bool, budget: nat, c: nat)
    ensures
        1 <= best_upto(widths, by_columns, budget, c),
        best_upto(widths, by_columns, budget, c) <= if c <= 1 {
            1
        } else {
            c
        },
    decreases c,
{
    if c > 1 {
        lemma_best_upto_range(widths, by_columns, budget, (c - 1) as nat);
    }
}

/// The chosen grid fits the budget unless it is the one-column fallback, and
/// no candidate with more columns fits.
pub proof fn lemma_best_upto_is_largest(widths: Seq<usize>, by_columns: bool, budget: nat, c: nat)
    ensures
        ({
            let best = best_upto(widths, by_columns, budget, c);
            &&& best == 1 || grid_fits(widths, by_columns, budget, best)
            &&& forall|d: nat| best < d <= c ==> !#[trigger] grid_fits(widths, by_columns, budget, d)
        }),
    decreases c,
{
    if c > 1 {
        lemma_best_upto_range(widths, by_columns, budget, c);
        lemma_best_upto_is_largest(widths, by_columns, budget, (c - 1) as nat);
    }
}

/// The returned grid never outgrows the budget unless a single column
/// already does.
pub proof fn lemma_best_within_budget(
    widths: Seq<usize>,
    by_columns: bool,
    budget: nat,
    max_idx: nat,
)
    ensures
        ({
            let best = best_columns(widths, by_columns, budget, max_idx);
            ||| grid_fits(widths, by_columns, budget, best)
            ||| !grid_fits(widths, by_columns, budget, 1)
        }),
{
    lemma_best_upto_is_largest(
        widths,
        by_columns,
        budget,
        candidate_count(widths.len(), budget, max_idx),
    );
}

proof fn lemma_column_widens(a: Layout, b: Layout, j: nat, k: nat)
    requires
        a.columns == b.columns,
        a.by_columns == b.by_columns,
        a.len() == b.len(),
        k <= a.len(),
        forall|i: int| 0 <= i < a.len() ==> a.widths[i] <= b.widths[i],
    ensures
        a.column_width(j, k) <= b.column_width(j, k),
    decreases k,
{
    if k > 0 {
        lemma_column_widens(a, b, j, (k - 1) as nat);
    }
}

proof fn lemma_line_widens(a: Layout, b: Layout, k: nat, m: nat)
    requires
        a.columns == b.columns,
        a.by_columns == b.by_columns,
        a.len() == b.len(),
        k <= a.len(),
        forall|i: int| 0 <= i < a.len() ==> a.widths[i] <= b.widths[i],
    ensures
        a.line_width_upto(k, m) <= b.line_width_upto(k, m),
    decreases m,
{
    if m > 0 {
        lemma_line_widens(a, b, k, (m - 1) as nat);
        lemma_column_widens(a, b, (m - 1) as nat, k);
    }
}

proof fn lemma_best_upto_widens(
    narrow: Seq<usize>,
    wide: Seq<usize>,
    by_columns: bool,
    budget: nat,
    c: nat,
)
    requires
        narrow.len() == wide.len(),
        forall|i: int| 0 <= i < narrow.len() ==> narrow[i] <= wide[i],
    ensures
        best_upto(wide, by_columns, budget, c) <= best_upto(narrow, by_columns, budget, c),
    decreases c,
{
    if c > 1 {
        let a = Layout { widths: narrow, columns: c, by_columns };
        let b = Layout { widths: wide, columns: c, by_columns };
        lemma_line_widens(a, b, a.len(), c);
        lemma_best_upto_widens(narrow, wide, by_columns, budget, (c - 1) as nat);
        lemma_best_upto_range(wide, by_columns, budget, (c - 1) as nat);
        lemma_best_upto_range(narrow, by_columns, budget, (c - 1) as nat);
    }
}

/// With the number of entries and the budget fixed, growing any name, the
/// longest one among them, never raises the chosen column count.
pub proof fn lemma_columns_shrink_as_names_grow(
    narrow: Seq<usize>,
    wide: Seq<usize>,
    by_columns: bool,
    budget: nat,
    max_idx: nat,
)
    requires
        narrow.len() == wide.len(),
        forall|i: int| 0 <= i < narrow.len() ==> narrow[i] <= wide[i],
    ensures
        best_columns(wide, by_columns, budget, max_idx) <= best_columns(
            narrow,
            by_columns,
            budget,
            max_idx,
        ),
{
    lemma_best_upto_widens(
        narrow,
        wide,
        by_columns,
        budget,
        candidate_count(narrow.len(), budget, max_idx),
    );
}

} // verus!

//! Terminal geometry and the table of candidate column grids.

use vstd::prelude::*;
use crate::print::layout::{
    best_columns, best_upto, candidate_count, grid_fits, grid_rows, lemma_column_within_line,
    lemma_empty_line, lemma_line_step, lemma_settled_all_iff_fits, lemma_settled_bound, lemma_settled_stuck,
    lemma_slot_in_range, Layout, COLUMN_GAP, MIN_COLUMN_WIDTH,
};

verus! {

/// Line width assumed when no terminal answers.
pub const DEFAULT_LINE_LENGTH: usize = 80;

/// Output geometry, sampled once per run.
#[derive(Debug)]
pub struct PrintInfo {
    /// Most columns a line can hold at the minimum column width.
    pub max_idx: usize,
    /// Usable width of an output line.
    pub line_length: usize,
}

/// Calls `terminal_size::terminal_size`, which asks the standard streams in
/// turn for the window size of the terminal behind them, and keeps the column
/// count. The answer depends on the terminal, so only what holds of every
/// answer is stated: a reported width is a positive 16-bit number.
#[verifier::external_body]
fn terminal_columns() -> (width: Option<usize>)
    ensures
        width matches Some(w) ==> 0 < w <= u16::MAX,
{
    terminal_size::terminal_size().map(|size| usize::from(size.0.0))
}

impl PrintInfo {
    /// Geometry for a terminal of the given width, or for the default width
    /// when there is none.
    pub fn for_width(width: Option<usize>) -> (info: Self)
        ensures
            info.line_length == match width {
                Some(w) => w,
                None => DEFAULT_LINE_LENGTH,
            },
            info.max_idx == info.line_length / MIN_COLUMN_WIDTH,
    {
        let line_length: usize = match width {
            Some(len) => len,
            None => DEFAULT_LINE_LENGTH,
        };
        let max_idx: usize = line_length / MIN_COLUMN_WIDTH;
        PrintInfo { max_idx, line_length }
    }

    /// Geometry of the terminal this process writes to.
    pub fn new() -> (info: Self)
        ensures
            0 < info.line_length <= u16::MAX,
            info.max_idx == info.line_length / MIN_COLUMN_WIDTH,
    {
        Self::for_width(terminal_columns())
    }
}

/// One candidate grid: its column widths, the total width of a line, and
/// whether every entry found room. `valid_len` only ever goes from true to
/// false.
#[derive(Debug)]
pub struct ColumnInfo {
    pub valid_len: bool,
    pub line_len: usize,
    pub col_arr: Vec<usize>,
}

/// The candidate grids of one directory; candidate `i` has `i + 1` columns.
#[derive(Debug)]
pub struct ColumnState {
    pub columns: Vec<ColumnInfo>,
}

impl ColumnInfo {
    /// The candidate records the grid `l` with its first `k` entries placed.
    pub open spec fn records(&self, l: Layout, k: nat) -> bool {
        &&& self.col_arr@.len() == l.columns
        &&& forall|j: int| 0 <= j < l.columns ==> self.col_arr@[j] == l.column_width(j as nat, k)
        &&& self.line_len == l.line_width(k)
    }

    /// The candidate is the outcome of scanning every entry of `l` against
    /// `budget`: it records the entries placed before the line outgrew the
    /// budget, and is valid when that is all of them.
    pub open spec fn plans(&self, l: Layout, budget: nat) -> bool {
        &&& self.records(l, l.settled(budget, l.len()))
        &&& self.valid_len == (l.settled(budget, l.len()) == l.len())
    }

    /// An empty grid of `c` columns.
    fn empty(c: usize) -> (info: Self)
        requires
            1 <= c,
            c * MIN_COLUMN_WIDTH <= usize::MAX,
        ensures
            info.valid_len,
            info.line_len == c * MIN_COLUMN_WIDTH,
            info.col_arr@ == Seq::new(c as nat, |j: int| MIN_COLUMN_WIDTH),
    {
        let mut col_arr: Vec<usize> = Vec::with_capacity(c);
        let mut j: usize = 0;
        while j < c
            invariant
                j <= c,
                col_arr@ == Seq::new(j as nat, |j: int| MIN_COLUMN_WIDTH),
            decreases c - j,
        {
            col_arr.push(MIN_COLUMN_WIDTH);
            j = j + 1;
        }
        ColumnInfo { valid_len: true, line_len: c * MIN_COLUMN_WIDTH, col_arr }
    }

    /// Places the entries of `widths` one by one, widening the column each
    /// lands in, and stops for good at the first entry that makes the line
    /// outgrow `budget`.
    pub fn place_all(&mut self, widths: &Vec<usize>, budget: usize, by_columns: bool)
        requires
            old(self).valid_len,
            old(self).col_arr@.len() >= 1,
            old(self).records(
                Layout { widths: widths@, columns: old(self).col_arr@.len(), by_columns },
                0,
            ),
            old(self).line_len <= budget,
        ensures
            final(self).plans(
                Layout { widths: widths@, columns: old(self).col_arr@.len(), by_columns },
                budget as nat,
            ),
    {
        let n: usize = widths.len();
        let c: usize = self.col_arr.len();
        let ghost l = Layout { widths: widths@, columns: c as nat, by_columns };
        let rows: usize = if n == 0 {
            0
        } else {
            (n - 1) / c + 1
        };
        let mut k: usize = 0;
        while k < n && self.valid_len
            invariant
                k <= n,
                n == widths@.len(),
                c == self.col_arr@.len(),
                c >= 1,
                l == (Layout { widths: widths@, columns: c as nat, by_columns }),
                rows == grid_rows(n as nat, c as nat),
                self.records(l, l.settled(budget as nat, k as nat)),
                self.valid_len == (l.settled(budget as nat, k as nat) == k),
                self.line_len <= budget,
            decreases n - k,
        {
            let w: usize = widths[k];
            proof {
                lemma_slot_in_range(l, k as nat);
                lemma_line_step(l, k as nat, c as nat);
            }
            let j: usize = if by_columns {
                k / rows
            } else {
                k % c
            };
            let before: usize = self.col_arr[j];
            proof {
                lemma_column_within_line(l, k as nat, j as nat, c as nat);
            }
            let cell: u128 = if j + 1 == c {
                w as u128
            } else {
                w as u128 + COLUMN_GAP as u128
            };
            if cell > before as u128 {
                let grown: u128 = (self.line_len - before) as u128 + cell;
                if grown <= budget as u128 {
                    self.col_arr.set(j, cell as usize);
                    self.line_len = grown as usize;
                } else {
                    self.valid_len = false;
                }
            }
            k = k + 1;
        }
        proof {
            if k < n {
                lemma_settled_bound(l, budget as nat, k as nat);
                lemma_settled_stuck(l, budget as nat, k as nat, n as nat);
            }
        }
    }
}

impl ColumnState {
    /// A table of `max_cols` empty candidates: candidate `i` has `i + 1`
    /// columns, each of the minimum width.
    pub fn init_column_info(max_cols: usize) -> (state: Self)
        requires
            max_cols * MIN_COLUMN_WIDTH <= usize::MAX,
        ensures
            state.columns@.len() == max_cols,
            forall|i: int|
                0 <= i < max_cols ==> {
                    &&& (#[trigger] state.columns@[i]).valid_len
                    &&& state.columns@[i].line_len == (i + 1) * MIN_COLUMN_WIDTH
                    &&& state.columns@[i].col_arr@ == Seq::new(
                        (i + 1) as nat,
                        |j: int| MIN_COLUMN_WIDTH,
                    )
                },
    {
        let mut columns: Vec<ColumnInfo> = Vec::with_capacity(max_cols);
        let mut i: usize = 0;
        while i < max_cols
            invariant
                i <= max_cols,
                max_cols * MIN_COLUMN_WIDTH <= usize::MAX,
                columns@.len() == i,
                forall|a: int|
                    0 <= a < i ==> {
                        &&& (#[trigger] columns@[a]).valid_len
                        &&& columns@[a].line_len == (a + 1) * MIN_COLUMN_WIDTH
                        &&& columns@[a].col_arr@ == Seq::new(
                            (a + 1) as nat,
                            |j: int| MIN_COLUMN_WIDTH,
                        )
                    },
            decreases max_cols - i,
        {
            columns.push(ColumnInfo::empty(i + 1));
            i = i + 1;
        }
        ColumnState { columns }
    }

    /// The table plans the grids of `widths`: candidate `i` is the outcome of
    /// scanning the entries into `i + 1` columns.
    pub open spec fn plans(&self, widths: Seq<usize>, by_columns: bool, budget: nat) -> bool {
        forall|i: int|
            0 <= i < self.columns@.len() ==> (#[trigger] self.columns@[i]).plans(
                Layout { widths, columns: (i + 1) as nat, by_columns },
                budget,
            )
    }

    /// Lays `widths` out in every candidate column count the budget allows and
    /// returns the table with the chosen count: the largest candidate whose
    /// grid fits `line_length`, one when none fits, zero when there are no
    /// entries.
    pub fn plan(widths: &Vec<usize>, line_length: usize, max_idx: usize, by_columns: bool) -> (res:
        (Self, usize))
        ensures
            res.0.columns@.len() == candidate_count(
                widths@.len(),
                line_length as nat,
                max_idx as nat,
            ),
            res.0.plans(widths@, by_columns, line_length as nat),
            res.1 == best_columns(widths@, by_columns, line_length as nat, max_idx as nat),
            res.1 >= 2 ==> res.1 <= res.0.columns@.len() && res.0.columns@[res.1 - 1].valid_len,
    {
        let n: usize = widths.len();
        let by_budget: usize = line_length / MIN_COLUMN_WIDTH;
        let capped: usize = if max_idx < by_budget {
            max_idx
        } else {
            by_budget
        };
        let max_cols: usize = if n < capped {
            n
        } else {
            capped
        };
        let mut state = Self::init_column_info(max_cols);
        let mut i: usize = 0;
        while i < max_cols
            invariant
                i <= max_cols,
                max_cols * MIN_COLUMN_WIDTH <= line_length,
                state.columns@.len() == max_cols,
                forall|a: int|
                    0 <= a < i ==> (#[trigger] state.columns@[a]).plans(
                        Layout { widths: widths@, columns: (a + 1) as nat, by_columns },
                        line_length as nat,
                    ),
                forall|a: int|
                    i <= a < max_cols ==> {
                        &&& (#[trigger] state.columns@[a]).valid_len
                        &&& state.columns@[a].line_len == (a + 1) * MIN_COLUMN_WIDTH
                        &&& state.columns@[a].col_arr@ == Seq::new(
                            (a + 1) as nat,
                            |j: int| MIN_COLUMN_WIDTH,
                        )
                    },
            decreases max_cols - i,
        {
            let ghost l = Layout { widths: widths@, columns: (i + 1) as nat, by_columns };
            proof {
                lemma_empty_line(l, (i + 1) as nat);
                assert forall|j: int| 0 <= j < l.columns implies state.columns@[i as int].col_arr@[j]
                    == l.column_width(j as nat, 0) by {}
            }
            let mut info = ColumnInfo { valid_len: false, line_len: 0, col_arr: Vec::new() };
            state.columns.set_and_swap(i, &mut info);
            info.place_all(widths, line_length, by_columns);
            state.columns.set(i, info);
            i = i + 1;
        }
        let mut cols: usize = max_cols;
        proof {
            assert forall|a: int| 0 <= a < max_cols implies (#[trigger] state.columns@[a]).valid_len
                == grid_fits(widths@, by_columns, line_length as nat, (a + 1) as nat) by {
                let l = Layout { widths: widths@, columns: (a + 1) as nat, by_columns };
                lemma_empty_line(l, (a + 1) as nat);
                lemma_settled_all_iff_fits(l, line_length as nat);
            }
        }
        while cols > 1 && !state.columns[cols - 1].valid_len
            invariant
                cols <= max_cols,
                state.columns@.len() == max_cols,
                forall|a: int|
                    0 <= a < max_cols ==> (#[trigger] state.columns@[a]).valid_len == grid_fits(
                        widths@,
                        by_columns,
                        line_length as nat,
                        (a + 1) as nat,
                    ),
                best_upto(widths@, by_columns, line_length as nat, cols as nat) == best_upto(
                    widths@,
                    by_columns,
                    line_length as nat,
                    max_cols as nat,
                ),
            decreases cols,
        {
            cols = cols - 1;
        }
        if n > 0 && cols == 0 {
            cols = 1;
        }
        (state, cols)
    }
}

} // verus!

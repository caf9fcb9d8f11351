use lrs::print::print_info::{ColumnState, PrintInfo};

fn line_width(widths: &[usize], cols: usize) -> usize {
    let n = widths.len();
    let rows = (n - 1) / cols + 1;
    let mut columns = vec![3usize; cols];
    for (i, w) in widths.iter().enumerate() {
        let j = i / rows;
        let cell = if j + 1 == cols { *w } else { *w + 2 };
        if columns[j] < cell {
            columns[j] = cell;
        }
    }
    columns.iter().sum()
}

#[test]
fn three_short_names_share_one_row() {
    let widths: Vec<usize> = vec![5, 5, 1];
    let (state, cols) = ColumnState::plan(&widths, 80, 26, true);
    assert_eq!(cols, 3);
    assert_eq!(state.columns.len(), 3);
    assert_eq!(state.columns[2].col_arr, vec![7, 7, 3]);
    assert_eq!(state.columns[2].line_len, 17);
    assert!(state.columns[2].valid_len);
}

#[test]
fn empty_table_has_minimum_widths() {
    let state = ColumnState::init_column_info(3);
    assert_eq!(state.columns.len(), 3);
    assert_eq!(state.columns[0].col_arr, vec![3]);
    assert_eq!(state.columns[1].col_arr, vec![3, 3]);
    assert_eq!(state.columns[2].col_arr, vec![3, 3, 3]);
    assert_eq!(state.columns[2].line_len, 9);
    assert!(state.columns.iter().all(|c| c.valid_len));
}

#[test]
fn no_entries_give_no_columns() {
    let widths: Vec<usize> = Vec::new();
    let (state, cols) = ColumnState::plan(&widths, 80, 26, true);
    assert_eq!(cols, 0);
    assert_eq!(state.columns.len(), 0);
}

#[test]
fn candidates_are_capped_by_entries_and_budget() {
    let widths: Vec<usize> = vec![1; 40];
    let (state, cols) = ColumnState::plan(&widths, 30, 10, true);
    assert_eq!(state.columns.len(), 10);
    assert_eq!(cols, 10);
    assert_eq!(state.columns[9].line_len, 30);
    let (state, _) = ColumnState::plan(&widths, 30, 100, true);
    assert_eq!(state.columns.len(), 10);
    let (state, _) = ColumnState::plan(&widths[..4].to_vec(), 30, 100, true);
    assert_eq!(state.columns.len(), 4);
}

#[test]
fn largest_fitting_count_wins_even_past_a_gap() {
    // Two columns are too wide, three fit, four and five do not.
    let widths: Vec<usize> = vec![1, 1, 20, 20, 1];
    let (state, cols) = ColumnState::plan(&widths, 30, 10, true);
    assert_eq!(cols, 3);
    assert!(state.columns[0].valid_len);
    assert!(!state.columns[1].valid_len);
    assert!(state.columns[2].valid_len);
    assert!(!state.columns[3].valid_len);
    assert!(!state.columns[4].valid_len);
    assert_eq!(state.columns[2].col_arr, vec![3, 22, 3]);
    assert_eq!(state.columns[2].line_len, 28);
}

#[test]
fn a_line_may_fill_the_budget_exactly() {
    let widths: Vec<usize> = vec![5, 5, 1];
    let (_, cols) = ColumnState::plan(&widths, 17, 5, true);
    assert_eq!(cols, 3);
    let (_, cols) = ColumnState::plan(&widths, 16, 5, true);
    assert_eq!(cols, 2);
}

#[test]
fn an_overflowing_candidate_keeps_the_last_fitting_prefix() {
    let widths: Vec<usize> = vec![2, 30, 4];
    let (state, cols) = ColumnState::plan(&widths, 12, 4, true);
    assert_eq!(cols, 1);
    // Three columns: the second entry does not fit, so only the first is placed.
    assert!(!state.columns[2].valid_len);
    assert_eq!(state.columns[2].col_arr, vec![4, 3, 3]);
    assert_eq!(state.columns[2].line_len, 10);
}

#[test]
fn names_wider_than_the_line_fall_back_to_one_column() {
    let widths: Vec<usize> = vec![100, 120, 90];
    let (state, cols) = ColumnState::plan(&widths, 80, 26, true);
    assert_eq!(cols, 1);
    assert!(state.columns.iter().all(|c| !c.valid_len));
}

#[test]
fn a_line_too_narrow_for_any_column_still_gives_one() {
    let widths: Vec<usize> = vec![4, 4];
    let (state, cols) = ColumnState::plan(&widths, 2, 0, true);
    assert_eq!(cols, 1);
    assert_eq!(state.columns.len(), 0);
}

#[test]
fn huge_widths_do_not_overflow() {
    let widths: Vec<usize> = vec![usize::MAX, usize::MAX - 1, 3];
    let (state, cols) = ColumnState::plan(&widths, usize::MAX, usize::MAX, true);
    assert_eq!(cols, 1);
    assert!(state.columns[0].valid_len);
    assert_eq!(state.columns[0].line_len, usize::MAX);
    assert!(!state.columns[1].valid_len);
}

#[test]
fn chosen_layout_stays_within_the_budget() {
    let mut seed: u64 = 12345;
    for round in 0..300 {
        let n = 1 + (round % 17);
        let mut widths: Vec<usize> = Vec::new();
        for _ in 0..n {
            seed = seed.wrapping_mul(6364136223846793005).wrapping_add(1442695040888963407);
            widths.push(((seed >> 33) % 25) as usize + 1);
        }
        let budget = 10 + (round * 7) % 90;
        let (state, cols) = ColumnState::plan(&widths, budget, budget / 3, true);
        assert!(cols >= 1);
        let single = line_width(&widths, 1);
        assert!(line_width(&widths, cols) <= budget || single > budget);
        for c in (cols + 1)..=state.columns.len() {
            assert!(line_width(&widths, c) > budget);
        }
        for (i, candidate) in state.columns.iter().enumerate() {
            assert_eq!(candidate.valid_len, line_width(&widths, i + 1) <= budget);
            if candidate.valid_len {
                assert_eq!(candidate.line_len, line_width(&widths, i + 1));
            }
        }
    }
}

#[test]
fn column_count_never_rises_as_the_longest_name_grows() {
    let base: Vec<usize> = vec![4, 9, 3, 7, 5, 6, 2, 8];
    let mut last = usize::MAX;
    for grow in 0..80 {
        let mut widths = base.clone();
        widths[1] += grow;
        let (_, cols) = ColumnState::plan(&widths, 60, 20, true);
        assert!(cols <= last);
        last = cols;
    }
    assert_eq!(last, 1);
}

#[test]
fn row_major_order_deals_entries_across_columns() {
    let widths: Vec<usize> = vec![10, 1, 10, 1];
    let (state, cols) = ColumnState::plan(&widths, 15, 5, false);
    assert_eq!(cols, 2);
    assert_eq!(state.columns[1].col_arr, vec![12, 3]);
    let (state, cols) = ColumnState::plan(&widths, 15, 5, true);
    assert_eq!(cols, 1);
    assert!(!state.columns[1].valid_len);
}

#[test]
fn geometry_follows_the_width() {
    let info = PrintInfo::for_width(Some(100));
    assert_eq!(info.line_length, 100);
    assert_eq!(info.max_idx, 33);
    let info = PrintInfo::for_width(None);
    assert_eq!(info.line_length, 80);
    assert_eq!(info.max_idx, 26);
}

#[test]
fn geometry_of_this_process_is_consistent() {
    let info = PrintInfo::new();
    assert!(info.line_length > 0);
    assert!(info.line_length <= 65535);
    assert_eq!(info.max_idx, info.line_length / 3);
}

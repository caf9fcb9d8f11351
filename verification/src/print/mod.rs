//! Rendering support: terminal geometry, the column grid and the widths of
//! the long-format fields.

pub mod format_info;
pub mod layout;
pub mod paint;
pub mod print_info;

use vstd::prelude::*;
use crate::filesystem::fileinfo::{
    entry_views, shown_name, EntryView, FileInfo, FileStat, FileType,
};
use crate::filesystem::get_major_and_minor;
use crate::print::format_info::FormatInfo;
use crate::print::layout::{best_columns, grid_rows, lemma_slot_in_range, Layout};
use crate::print::paint::{
    blanks, decimal_digits, indent, is_executable, number_field, painted, permission_text,
    permissions_to_string, push_blanks, push_number_field, push_right_aligned, size_text,
    target_suffix, time_stamp_text,
};
use crate::print::print_info::PrintInfo;
use crate::text::push_char;
use crate::working_set::{sorted_widths, WorkingSet};

verus! {

/// The metadata behind an optional reference.
pub open spec fn stat_view(metadata: Option<&FileStat>) -> Option<FileStat> {
    match metadata {
        Some(m) => Some(*m),
        None => None,
    }
}

/// The number of an optional field, as a natural number.
pub open spec fn field_of(number: Option<u64>) -> Option<nat> {
    match number {
        Some(n) => Some(n as nat),
        None => None,
    }
}

/// The link count of an entry, at the right edge of its field.
pub fn n_link_to_string(metadata: Option<&FileStat>, format_info: &FormatInfo) -> (text: String)
    ensures
        text@ == number_field(
            match metadata {
                Some(m) => Some(m.nlink as nat),
                None => None,
            },
            format_info.hard_link_length as nat,
        ),
{
    let number: Option<u64> = match metadata {
        Some(metadata) => Some(metadata.nlink),
        None => None,
    };
    let mut out = String::new();
    push_number_field(&mut out, number, format_info.hard_link_length);
    out
}

/// The owner of an entry, at the right edge of its field.
pub fn owner_to_string(metadata: Option<&FileStat>, format_info: &FormatInfo) -> (text: String)
    ensures
        text@ == number_field(
            match metadata {
                Some(m) => Some(m.uid as nat),
                None => None,
            },
            format_info.user_length as nat,
        ),
{
    let number: Option<u64> = match metadata {
        Some(metadata) => Some(metadata.uid as u64),
        None => None,
    };
    let mut out = String::new();
    push_number_field(&mut out, number, format_info.user_length);
    out
}

/// The group of an entry, at the right edge of its field.
pub fn group_to_string(metadata: Option<&FileStat>, format_info: &FormatInfo) -> (text: String)
    ensures
        text@ == number_field(
            match metadata {
                Some(m) => Some(m.gid as nat),
                None => None,
            },
            format_info.group_length as nat,
        ),
{
    let number: Option<u64> = match metadata {
        Some(metadata) => Some(metadata.gid as u64),
        None => None,
    };
    let mut out = String::new();
    push_number_field(&mut out, number, format_info.group_length);
    out
}

/// The size of an entry, or the numbers of a device, at the right edge of
/// the size field.
pub fn file_size_to_string(metadata: Option<&FileStat>, format_info: &FormatInfo) -> (text: String)
    ensures
        text@ == size_text(stat_view(metadata), *format_info),
{
    let mut out = String::new();
    match metadata {
        Some(metadata) => {
            if metadata.kind.is_block_device || metadata.kind.is_char_device {
                let (major, minor) = get_major_and_minor(metadata.dev);
                push_right_aligned(&mut out, &decimal_digits(major), format_info.major_length);
                push_char(&mut out, ',');
                push_char(&mut out, ' ');
                push_right_aligned(&mut out, &decimal_digits(minor), format_info.minor_length);
            } else {
                push_right_aligned(
                    &mut out,
                    &decimal_digits(metadata.size),
                    format_info.file_size_length,
                );
            }
        },
        None => {
            push_number_field(&mut out, None, format_info.file_size_length);
        },
    }
    out
}

/// The time field of an entry: its stamp, or the mark for an unknown time.
pub fn time_stamp_to_string(metadata: Option<&FileStat>, stamp: Option<&String>) -> (text: String)
    ensures
        text@ == time_stamp_text(
            stat_view(metadata),
            match stamp {
                Some(s) => Some(s@),
                None => None,
            },
        ),
{
    match (metadata, stamp) {
        (Some(_), Some(text)) => text.clone(),
        _ => {
            let mut out = String::new();
            push_blanks(&mut out, 18);
            push_char(&mut out, '?');
            out
        },
    }
}

/// Puts `name` between the escape sequence `color` and the one that ends a
/// colour.
fn paint(color: &str, name: String) -> (text: String)
    ensures
        text@ == color@ + name@ + "\x1b[0m"@,
{
    let mut out = color.to_owned();
    out.append(name.as_str());
    out.append("\x1b[0m");
    out
}

/// The name in the colour of its kind.
pub fn quoted_name_to_string(name: String, metadata: Option<&FileStat>, file_type: &FileType) -> (text:
    String)
    ensures
        text@ == painted(name@, stat_view(metadata), *file_type),
{
    proof {
        reveal_strlit("\x1b[1;32m");
        reveal_strlit("\x1b[1;34m");
        reveal_strlit("\x1b[1;36m");
        reveal_strlit("\x1b[0m");
    }
    match file_type {
        FileType::Directory | FileType::ArgDirectory => paint("\x1b[1;34m", name),
        FileType::SymbolicLink => paint("\x1b[1;36m", name),
        _ => if is_executable(metadata) {
            paint("\x1b[1;32m", name)
        } else {
            name
        },
    }
}

/// An arrow and the name of the target of a link, if it is known.
pub fn symlink_path_to_string(file_info: &FileInfo) -> (text: String)
    ensures
        text@ == target_suffix(file_info@.link_name),
{
    match file_info.link_name.as_ref() {
        Some(target) => {
            proof {
                reveal_strlit("-> ");
            }
            let mut out = "-> ".to_owned();
            out.append(target.as_str());
            out
        },
        None => String::new(),
    }
}

/// The long line of an entry: permissions, link count, owner, group, size,
/// time and name, each followed by a blank, and the target of a symbolic
/// link behind them.
pub open spec fn long_line(entry: EntryView, format_info: FormatInfo) -> Seq<char> {
    permission_text(entry.metadata, entry.file_type) + seq![' '] + number_field(
        match entry.metadata {
            Some(m) => Some(m.nlink as nat),
            None => None,
        },
        format_info.hard_link_length as nat,
    ) + seq![' '] + number_field(
        match entry.metadata {
            Some(m) => Some(m.uid as nat),
            None => None,
        },
        format_info.user_length as nat,
    ) + seq![' '] + number_field(
        match entry.metadata {
            Some(m) => Some(m.gid as nat),
            None => None,
        },
        format_info.group_length as nat,
    ) + seq![' '] + size_text(entry.metadata, format_info) + seq![' '] + time_stamp_text(
        entry.metadata,
        entry.time_stamp,
    ) + seq![' '] + painted(
        shown_name(entry.name, entry.quoting),
        entry.metadata,
        entry.file_type,
    ) + seq![' '] + if entry.file_type == FileType::SymbolicLink {
        target_suffix(entry.link_name)
    } else {
        Seq::empty()
    }
}

/// The long line of one entry.
pub fn long_format_line(f: &FileInfo, format_info: &FormatInfo) -> (line: String)
    ensures
        line@ == long_line(f@, *format_info),
{
    let mut output = String::new();
    let metadata: Option<&FileStat> = f.metadata.as_ref();
    let file_type: &FileType = &f.file_type;

    let mode = permissions_to_string(metadata, file_type);
    output.append(mode.as_str());
    push_char(&mut output, ' ');

    let nlink = n_link_to_string(metadata, format_info);
    output.append(nlink.as_str());
    push_char(&mut output, ' ');

    let owner = owner_to_string(metadata, format_info);
    output.append(owner.as_str());
    push_char(&mut output, ' ');

    let group = group_to_string(metadata, format_info);
    output.append(group.as_str());
    push_char(&mut output, ' ');

    let size = file_size_to_string(metadata, format_info);
    output.append(size.as_str());
    push_char(&mut output, ' ');

    let timestamp = time_stamp_to_string(metadata, f.time_stamp.as_ref());
    output.append(timestamp.as_str());
    push_char(&mut output, ' ');

    let name = quoted_name_to_string(f.quoted_name(), metadata, file_type);
    output.append(name.as_str());
    push_char(&mut output, ' ');

    if f.file_type == FileType::SymbolicLink {
        let target = symlink_path_to_string(f);
        output.append(target.as_str());
    }
    output
}

/// The views of a list of lines.
pub open spec fn line_views(lines: Seq<String>) -> Seq<Seq<char>> {
    Seq::new(lines.len(), |i: int| lines[i]@)
}

/// The long lines of the entries at `order`.
pub open spec fn long_lines(files: Seq<EntryView>, order: Seq<usize>, format_info: FormatInfo) -> Seq<
    Seq<char>,
> {
    Seq::new(order.len(), |i: int| long_line(files[order[i] as int], format_info))
}

/// What a grid shows of an entry: its name, quoted if need be, in the colour
/// of its kind.
pub open spec fn cell_text(entry: EntryView) -> Seq<char> {
    painted(shown_name(entry.name, entry.quoting), entry.metadata, entry.file_type)
}

/// The blanks that fill a column `column_width` wide behind a name `width`
/// wide.
pub open spec fn padding(column_width: nat, width: nat) -> Seq<char> {
    blanks(
        if width < column_width {
            (column_width - width) as nat
        } else {
            0
        },
    )
}

/// One row of a grid from the entry at position `filesno` of `order` on:
/// that entry, and every `rows`-th entry after it, each but the last filled
/// up to the width of its column.
pub open spec fn row_text(
    files: Seq<EntryView>,
    order: Seq<usize>,
    l: Layout,
    rows: nat,
    filesno: nat,
    column: nat,
) -> Seq<char>
    decreases order.len() - filesno,
{
    if filesno >= order.len() {
        Seq::empty()
    } else {
        cell_text(files[order[filesno as int] as int]) + row_rest(
            files,
            order,
            l,
            rows,
            filesno,
            column,
        )
    }
}

/// What follows the entry at position `filesno` in its row.
pub open spec fn row_rest(
    files: Seq<EntryView>,
    order: Seq<usize>,
    l: Layout,
    rows: nat,
    filesno: nat,
    column: nat,
) -> Seq<char>
    decreases order.len() - filesno, 0nat,
{
    if filesno + rows < order.len() && rows > 0 {
        padding(l.column_width(column, order.len()), files[order[filesno as int] as int].width as nat)
            + row_text(files, order, l, rows, filesno + rows, column + 1)
    } else {
        Seq::empty()
    }
}

/// The rows of the grid that shows the entries at `order` column by column,
/// in as many columns as fit a line of `line_length`.
pub open spec fn grid_lines(
    files: Seq<EntryView>,
    order: Seq<usize>,
    line_length: nat,
    max_idx: nat,
) -> Seq<Seq<char>> {
    let widths = sorted_widths(files, order);
    let cols = best_columns(widths, true, line_length, max_idx);
    let l = Layout { widths, columns: cols, by_columns: true };
    let rows = grid_rows(order.len(), cols);
    Seq::new(rows, |r: int| row_text(files, order, l, rows, r as nat, 0))
}

/// The lines that show the sorted batch: one long line for each entry, or
/// the rows of the grid.
pub open spec fn batch_lines(
    files: Seq<EntryView>,
    order: Seq<usize>,
    format_info: Option<FormatInfo>,
    print_info: PrintInfo,
    long: bool,
) -> Seq<Seq<char>> {
    if long {
        match format_info {
            Some(info) => long_lines(files, order, info),
            None => Seq::empty(),
        }
    } else {
        grid_lines(files, order, print_info.line_length as nat, print_info.max_idx as nat)
    }
}

/// The long lines of the sorted batch.
pub fn print_long_format(working_set: &WorkingSet) -> (lines: Vec<String>)
    requires
        working_set.wf(),
        working_set.format_info is Some,
    ensures
        line_views(lines@) == long_lines(
            entry_views(working_set.cwd_files@),
            working_set.sorted_files@,
            working_set.format_info->0,
        ),
{
    let n: usize = working_set.sorted_files.len();
    let ghost files = entry_views(working_set.cwd_files@);
    let ghost order = working_set.sorted_files@;
    let mut lines: Vec<String> = Vec::with_capacity(n);
    let format_info: &FormatInfo = working_set.format_info.as_ref().unwrap();
    let mut i: usize = 0;
    while i < n
        invariant
            i <= n,
            n == order.len(),
            order == working_set.sorted_files@,
            files == entry_views(working_set.cwd_files@),
            working_set.wf(),
            working_set.format_info == Some(*format_info),
            lines@.len() == i,
            forall|a: int|
                0 <= a < i ==> (#[trigger] lines@[a])@ == long_line(
                    files[order[a] as int],
                    *format_info,
                ),
        decreases n - i,
    {
        let f: &FileInfo = &working_set.cwd_files[working_set.sorted_files[i]];
        let line = long_format_line(f, format_info);
        lines.push(line);
        i = i + 1;
    }
    assert(line_views(lines@) =~= long_lines(files, order, *format_info));
    lines
}

/// The rows of the grid that shows the sorted batch. The column grids of
/// the batch are computed on the way and kept.
pub fn print_many_per_line(working_set: &mut WorkingSet) -> (lines: Vec<String>)
    requires
        old(working_set).wf(),
    ensures
        final(working_set).wf(),
        line_views(lines@) == grid_lines(
            entry_views(old(working_set).cwd_files@),
            old(working_set).sorted_files@,
            old(working_set).print_info.line_length as nat,
            old(working_set).print_info.max_idx as nat,
        ),
        final(working_set).column_state is Some,
        final(working_set).cwd_files == old(working_set).cwd_files,
        final(working_set).sorted_files == old(working_set).sorted_files,
        final(working_set).format_info == old(working_set).format_info,
        final(working_set).pending_dirs == old(working_set).pending_dirs,
        final(working_set).loop_manager == old(working_set).loop_manager,
        final(working_set).same_setup(old(working_set)),
        final(working_set).same_outcome(old(working_set)),
{
    let file_count: usize = working_set.sorted_files.len();
    let columns: usize = working_set.calculate_columns(true);
    let ghost files = entry_views(working_set.cwd_files@);
    let ghost order = working_set.sorted_files@;
    let ghost widths = sorted_widths(files, order);
    let ghost budget = working_set.print_info.line_length as nat;
    let ghost l = Layout { widths, columns: columns as nat, by_columns: true };
    let mut lines: Vec<String> = Vec::new();
    if file_count == 0 {
        assert(line_views(lines@) =~= grid_lines(
            files,
            order,
            budget,
            working_set.print_info.max_idx as nat,
        ));
        return lines;
    }
    let rows: usize = (file_count - 1) / columns + 1;
    assert(rows <= file_count) by (nonlinear_arith)
        requires
            rows == (file_count - 1) / (columns as int) + 1,
            columns >= 1,
            file_count >= 1,
    ;
    let ghost all = Seq::new(rows as nat, |r: int| row_text(files, order, l, rows as nat, r as nat, 0));
    let mut row: usize = 0;
    while row < rows
        invariant
            row <= rows,
            1 <= rows <= file_count,
            file_count == order.len(),
            columns >= 1,
            rows == grid_rows(file_count as nat, columns as nat),
            order == working_set.sorted_files@,
            files == entry_views(working_set.cwd_files@),
            widths == sorted_widths(files, order),
            l == (Layout { widths, columns: columns as nat, by_columns: true }),
            working_set.wf(),
            lines@.len() == row,
            forall|a: int|
                0 <= a < row ==> (#[trigger] lines@[a])@ == row_text(
                    files,
                    order,
                    l,
                    rows as nat,
                    a as nat,
                    0,
                ),
            working_set.column_state matches Some(state) && state.plans(widths, true, budget) && (
            columns >= 2 ==> columns <= state.columns@.len() && state.columns@[columns
                - 1].valid_len),
        decreases rows - row,
    {
        let mut line = String::new();
        let mut column: usize = 0;
        let mut filesno: usize = row;
        let first: &FileInfo = &working_set.cwd_files[working_set.sorted_files[filesno]];
        let name = quoted_name_to_string(first.quoted_name(), first.metadata.as_ref(), &first.file_type);
        line.append(name.as_str());
        assert(line@ =~= cell_text(files[order[filesno as int] as int]));
        while file_count - rows > filesno
            invariant
                filesno < file_count,
                1 <= rows <= file_count,
                file_count == order.len(),
                columns >= 1,
                rows == grid_rows(file_count as nat, columns as nat),
                filesno == column * rows + row,
                row < rows,
                order == working_set.sorted_files@,
                files == entry_views(working_set.cwd_files@),
                widths == sorted_widths(files, order),
                l == (Layout { widths, columns: columns as nat, by_columns: true }),
                working_set.wf(),
                row_text(files, order, l, rows as nat, row as nat, 0) == line@ + row_rest(
                    files,
                    order,
                    l,
                    rows as nat,
                    filesno as nat,
                    column as nat,
                ),
                working_set.column_state matches Some(state) && state.plans(widths, true, budget)
                    && (columns >= 2 ==> columns <= state.columns@.len() && state.columns@[columns
                    - 1].valid_len),
            decreases file_count - filesno,
        {
            let f: &FileInfo = &working_set.cwd_files[working_set.sorted_files[filesno]];
            proof {
                let next = (filesno + rows) as nat;
                lemma_slot_in_range(l, next);
                assert(next == (column + 1) * rows + row) by (nonlinear_arith)
                    requires
                        filesno == column * rows + row,
                        next == filesno + rows,
                ;
                assert(l.slot(next) == column + 1) by (nonlinear_arith)
                    requires
                        l.slot(next) == (next as int) / (rows as int),
                        next == (column + 1) * rows + row,
                        0 <= row < rows,
                ;
                assert(columns >= 2);
                let state = working_set.column_state->0;
                let info = state.columns@[columns - 1];
                assert(info.plans(l, budget));
                assert(l.settled(budget, l.len()) == l.len());
                assert(info.col_arr@[column as int] == l.column_width(column as nat, l.len()));
            }
            let max_name_length: usize = match &working_set.column_state {
                Some(state) => state.columns[columns - 1].col_arr[column],
                None => 0,
            };
            indent(&mut line, f.width, max_name_length);
            filesno = filesno + rows;
            assert(filesno == (column + 1) * rows + row) by (nonlinear_arith)
                requires
                    filesno == column * rows + row + rows,
            ;
            column = column + 1;
            let f: &FileInfo = &working_set.cwd_files[working_set.sorted_files[filesno]];
            let name = quoted_name_to_string(f.quoted_name(), f.metadata.as_ref(), &f.file_type);
            line.append(name.as_str());
            assert(row_text(files, order, l, rows as nat, row as nat, 0) =~= line@ + row_rest(
                files,
                order,
                l,
                rows as nat,
                filesno as nat,
                column as nat,
            ));
        }
        assert(line@ =~= row_text(files, order, l, rows as nat, row as nat, 0));
        lines.push(line);
        row = row + 1;
    }
    assert(line_views(lines@) =~= all);
    lines
}

/// The lines that show the sorted batch: long lines in the long format,
/// otherwise the rows of the grid.
pub fn print_current_files(working_set: &mut WorkingSet) -> (lines: Vec<String>)
    requires
        old(working_set).wf(),
    ensures
        final(working_set).wf(),
        line_views(lines@) == batch_lines(
            entry_views(old(working_set).cwd_files@),
            old(working_set).sorted_files@,
            old(working_set).format_info,
            old(working_set).print_info,
            old(working_set).args.long,
        ),
        final(working_set).cwd_files == old(working_set).cwd_files,
        final(working_set).sorted_files == old(working_set).sorted_files,
        final(working_set).format_info == old(working_set).format_info,
        final(working_set).pending_dirs == old(working_set).pending_dirs,
        final(working_set).loop_manager == old(working_set).loop_manager,
        final(working_set).same_setup(old(working_set)),
        final(working_set).same_outcome(old(working_set)),
{
    if working_set.args.long {
        print_long_format(working_set)
    } else {
        print_many_per_line(working_set)
    }
}

} // verus!

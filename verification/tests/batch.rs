use lrs::args::Args;
use lrs::filesystem::ignore_mode::IgnoreMode;
use lrs::filesystem::{gobble_file, FileStat, FileType, KindFlags, LinkProbe, Probe};
use lrs::print::format_info::FormatInfo;
use lrs::print::print_info::PrintInfo;
use lrs::working_set::WorkingSet;

fn args(all: bool, almost_all: bool, long: bool, recursive: bool) -> Args {
    Args { paths: Vec::new(), all, long, almost_all, dereference: false, recursive }
}

fn stat(dir: bool, ino: u64) -> FileStat {
    FileStat {
        kind: KindFlags {
            is_file: !dir,
            is_dir: dir,
            is_symlink: false,
            is_block_device: false,
            is_char_device: false,
            is_fifo: false,
            is_socket: false,
        },
        dev: 1,
        ino,
        nlink: 1,
        uid: 0,
        gid: 0,
        rdev: 0,
        size: 1,
        blocks: 2,
        mode: 0o755,
        mtime: 0,
    }
}

fn add(ws: &mut WorkingSet, name: &str, dir: bool, cli_arg: bool, parent: Option<&str>) {
    let probe = Probe { stat: Ok(stat(dir, 1)), stamp: None, link: LinkProbe::NotRead };
    gobble_file(ws, name, FileType::Unknown, 0, cli_arg, parent, &probe);
}

fn drain(ws: &mut WorkingSet) -> Vec<(Option<String>, Option<String>, bool)> {
    let mut nodes = Vec::new();
    while let Some(node) = ws.pending_dirs.dequeue_directory() {
        nodes.push((node.name.clone(), node.real_name.clone(), node.cli_arg));
    }
    nodes
}

fn set(a: Args, width: usize) -> WorkingSet {
    WorkingSet::with_print_info(a, PrintInfo::for_width(Some(width)))
}

#[test]
fn options_choose_the_policy() {
    assert_eq!(set(args(false, false, false, false), 80).ignore_mode, IgnoreMode::IgnoreDefault);
    assert_eq!(set(args(false, true, false, false), 80).ignore_mode, IgnoreMode::IgnoreDotAndDotDot);
    assert_eq!(set(args(true, false, false, false), 80).ignore_mode, IgnoreMode::IgnoreMinimal);
    assert_eq!(set(args(true, true, false, false), 80).ignore_mode, IgnoreMode::IgnoreMinimal);
    assert_eq!(IgnoreMode::default(), IgnoreMode::IgnoreDefault);
    assert!(set(args(false, false, false, false), 80).format_info.is_none());
    assert!(set(args(false, false, true, false), 80).format_info.is_some());
}

#[test]
fn a_set_for_this_terminal_starts_empty() {
    let ws = WorkingSet::new(args(false, false, true, true));
    assert!(ws.cwd_files.is_empty());
    assert!(ws.sorted_files.is_empty());
    assert!(!ws.pending_dirs.has_next());
    assert_eq!(ws.print_info.max_idx, ws.print_info.line_length / 3);
    assert!(ws.column_state.is_none());
    assert!(ws.reports.is_empty());
}

#[test]
fn hidden_names_follow_the_policy() {
    let default = set(args(false, false, false, false), 80);
    assert!(default.file_ignored(".hidden"));
    assert!(default.file_ignored("."));
    assert!(default.file_ignored(".."));
    assert!(!default.file_ignored("shown"));
    assert!(!default.file_ignored(""));
    let almost = set(args(false, true, false, false), 80);
    assert!(!almost.file_ignored(".hidden"));
    assert!(almost.file_ignored("."));
    assert!(almost.file_ignored(".."));
    assert!(!almost.file_ignored("..."));
    let all = set(args(true, false, false, false), 80);
    assert!(!all.file_ignored(".hidden"));
    assert!(!all.file_ignored("."));
    assert!(!all.file_ignored(".."));
}

#[test]
fn argument_directories_leave_the_table() {
    let mut ws = set(args(false, false, false, false), 80);
    add(&mut ws, "zdir", true, true, None);
    add(&mut ws, "file", false, true, None);
    add(&mut ws, "Adir", true, true, None);
    ws.sort_files();
    assert_eq!(ws.sorted_files, vec![2, 1, 0]);
    ws.extract_dirs_from_files(None, true);
    assert_eq!(ws.sorted_files, vec![1]);
    assert_eq!(ws.cwd_files.len(), 3);
    assert_eq!(
        drain(&mut ws),
        vec![(Some("Adir".to_string()), None, true), (Some("zdir".to_string()), None, true)]
    );
}

#[test]
fn subdirectories_are_queued_behind_a_marker() {
    let mut ws = set(args(false, false, false, true), 80);
    add(&mut ws, "sub2", true, false, Some("top"));
    add(&mut ws, "f", false, false, Some("top"));
    add(&mut ws, "sub1", true, false, Some("top"));
    add(&mut ws, "/abs", true, false, Some("top"));
    add(&mut ws, "..", true, false, Some("top"));
    add(&mut ws, ".", true, false, Some("top"));
    ws.sort_files();
    ws.extract_dirs_from_files(Some("top"), false);
    assert_eq!(ws.sorted_files.len(), 6);
    assert_eq!(
        drain(&mut ws),
        vec![
            (Some("/abs".to_string()), None, false),
            (Some("top/sub1".to_string()), None, false),
            (Some("top/sub2".to_string()), None, false),
            (None, Some("top".to_string()), false),
        ]
    );
}

#[test]
fn no_marker_without_recursion() {
    let mut ws = set(args(false, false, false, false), 80);
    add(&mut ws, "sub", true, false, Some("top/"));
    ws.sort_files();
    ws.extract_dirs_from_files(Some("top/"), false);
    assert_eq!(drain(&mut ws), vec![(Some("top/sub".to_string()), None, false)]);
}

#[test]
fn dots_named_by_the_caller_are_followed() {
    let mut ws = set(args(false, false, false, false), 80);
    add(&mut ws, "..", true, true, None);
    add(&mut ws, ".", true, true, None);
    ws.sort_files();
    ws.extract_dirs_from_files(None, true);
    assert!(ws.sorted_files.is_empty());
    assert_eq!(
        drain(&mut ws),
        vec![(Some(".".to_string()), None, true), (Some("..".to_string()), None, true)]
    );
}

#[test]
fn clearing_empties_the_batch() {
    let mut ws = set(args(false, false, true, false), 80);
    add(&mut ws, "f", false, false, Some("d"));
    ws.sort_files();
    assert_eq!(ws.format_info.as_ref().unwrap().file_size_length, 1);
    ws.clear_files();
    assert!(ws.cwd_files.is_empty());
    assert!(ws.sorted_files.is_empty());
    assert_eq!(ws.format_info.as_ref().unwrap().file_size_length, 0);
    let mut short = set(args(false, false, false, false), 80);
    short.clear_files();
    assert!(short.format_info.is_none());
}

#[test]
fn columns_are_computed_over_the_sorted_batch() {
    let mut ws = set(args(false, false, false, false), 80);
    for name in ["b.txt", "A.txt", "c"] {
        add(&mut ws, name, false, false, Some("d"));
    }
    ws.sort_files();
    assert_eq!(ws.calculate_columns(true), 3);
    let state = ws.column_state.as_ref().unwrap();
    assert_eq!(state.columns.len(), 3);
    assert_eq!(state.columns[2].col_arr, vec![7, 7, 3]);
    let mut narrow = set(args(false, false, false, false), 12);
    for name in ["b.txt", "A.txt", "c"] {
        add(&mut narrow, name, false, false, Some("d"));
    }
    narrow.sort_files();
    assert_eq!(narrow.calculate_columns(true), 2);
    assert_eq!(narrow.column_state.as_ref().unwrap().columns[1].col_arr, vec![7, 3]);
    let mut empty = set(args(false, false, false, false), 80);
    assert_eq!(empty.calculate_columns(true), 0);
}

#[test]
fn field_widths_only_grow() {
    let mut info = FormatInfo::new();
    info.update_hard_link_length(2);
    info.update_hard_link_length(1);
    info.update_user_length(4);
    info.update_user_length(3);
    info.update_group_length(5);
    info.update_group_length(0);
    info.update_file_size_length(7);
    info.update_file_size_length(6);
    assert_eq!(info.hard_link_length, 2);
    assert_eq!(info.user_length, 4);
    assert_eq!(info.group_length, 5);
    assert_eq!(info.file_size_length, 7);
    info.update_file_size_lengths(3, 2);
    assert_eq!(info.major_length, 3);
    assert_eq!(info.minor_length, 2);
    assert_eq!(info.file_size_length, 7);
    info.update_file_size_lengths(4, 3);
    assert_eq!(info.file_size_length, 9);
    info.update_file_size_lengths(usize::MAX, 1);
    assert_eq!(info.file_size_length, usize::MAX);
    assert_eq!(info.major_length, usize::MAX);
    assert_eq!(info.minor_length, 3);
}

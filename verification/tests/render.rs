use lrs::args::Args;
use lrs::filesystem::{gobble_file, FileInfo, FileStat, FileType, KindFlags, LinkProbe, Probe};
use lrs::print::format_info::FormatInfo;
use lrs::print::paint::{
    decimal_digits, file_type_to_string, indent, is_executable, permissions_to_string, push_blanks,
    push_number_field, push_right_aligned,
};
use lrs::print::print_info::PrintInfo;
use lrs::print::{
    file_size_to_string, group_to_string, long_format_line, n_link_to_string, owner_to_string,
    print_current_files, print_long_format, print_many_per_line, quoted_name_to_string,
    symlink_path_to_string, time_stamp_to_string,
};
use lrs::working_set::WorkingSet;

fn stat(kind: &str, mode: u32) -> FileStat {
    FileStat {
        kind: KindFlags {
            is_file: kind == "file",
            is_dir: kind == "dir",
            is_symlink: kind == "link",
            is_block_device: kind == "block",
            is_char_device: kind == "char",
            is_fifo: false,
            is_socket: false,
        },
        dev: 0x0801,
        ino: 1,
        nlink: 2,
        uid: 1000,
        gid: 50,
        rdev: 0,
        size: 4096,
        blocks: 8,
        mode,
        mtime: 0,
    }
}

fn widths() -> FormatInfo {
    FormatInfo {
        hard_link_length: 3,
        user_length: 4,
        group_length: 4,
        major_length: 3,
        minor_length: 3,
        file_size_length: 6,
    }
}

fn set(long: bool, width: usize) -> WorkingSet {
    let args = Args {
        paths: Vec::new(),
        all: false,
        long,
        almost_all: false,
        dereference: false,
        recursive: false,
    };
    WorkingSet::with_print_info(args, PrintInfo::for_width(Some(width)))
}

fn add(ws: &mut WorkingSet, name: &str, kind: &str, mode: u32) {
    let probe = Probe {
        stat: Ok(stat(kind, mode)),
        stamp: Some("2024-05-06 07:08:09".to_string()),
        link: LinkProbe::NotRead,
    };
    gobble_file(ws, name, FileType::Unknown, 1, false, Some("d"), &probe);
}

#[test]
fn kinds_have_their_letters() {
    assert_eq!(file_type_to_string(&FileType::Normal), '-');
    assert_eq!(file_type_to_string(&FileType::Directory), 'd');
    assert_eq!(file_type_to_string(&FileType::ArgDirectory), 'd');
    assert_eq!(file_type_to_string(&FileType::SymbolicLink), 'l');
    assert_eq!(file_type_to_string(&FileType::BlockDev), 'b');
    assert_eq!(file_type_to_string(&FileType::CharDev), 'c');
    assert_eq!(file_type_to_string(&FileType::FIFO), 'p');
    assert_eq!(file_type_to_string(&FileType::Sock), 's');
    assert_eq!(file_type_to_string(&FileType::Unknown), '?');
}

#[test]
fn permissions_spell_the_mode_bits() {
    let show = |mode: u32, kind: FileType| permissions_to_string(Some(&stat("file", mode)), &kind);
    assert_eq!(show(0o644, FileType::Normal), "-rw-r--r--");
    assert_eq!(show(0o755, FileType::Directory), "drwxr-xr-x");
    assert_eq!(show(0o000, FileType::Normal), "----------");
    assert_eq!(show(0o777, FileType::SymbolicLink), "lrwxrwxrwx");
    assert_eq!(show(0o100421, FileType::Normal), "-r---w---x");
    assert_eq!(show(0o4124, FileType::FIFO), "p--x-w-r--");
    assert_eq!(permissions_to_string(None, &FileType::Normal), "-?????????");
    assert_eq!(permissions_to_string(None, &FileType::Unknown), "??????????");
}

#[test]
fn execute_bits_are_found() {
    assert!(is_executable(Some(&stat("file", 0o100))));
    assert!(is_executable(Some(&stat("file", 0o010))));
    assert!(is_executable(Some(&stat("file", 0o001))));
    assert!(!is_executable(Some(&stat("file", 0o666))));
    assert!(!is_executable(None));
}

#[test]
fn numbers_are_written_in_decimal() {
    let text = |n: u64| -> String { decimal_digits(n).iter().collect() };
    assert_eq!(text(0), "0");
    assert_eq!(text(7), "7");
    assert_eq!(text(10), "10");
    assert_eq!(text(1234567890), "1234567890");
    assert_eq!(text(u64::MAX), "18446744073709551615");
}

#[test]
fn fields_are_right_aligned() {
    let mut line = String::from("x");
    push_right_aligned(&mut line, &vec!['a', 'b'], 5);
    assert_eq!(line, "x   ab");
    push_right_aligned(&mut line, &vec!['c', 'd'], 2);
    assert_eq!(line, "x   abcd");
    push_right_aligned(&mut line, &vec!['e', 'f'], 0);
    assert_eq!(line, "x   abcdef");
    let mut line = String::new();
    push_number_field(&mut line, Some(42), 4);
    push_number_field(&mut line, None, 3);
    push_number_field(&mut line, Some(12345), 2);
    assert_eq!(line, "  42  ?12345");
    let mut line = String::new();
    push_blanks(&mut line, 3);
    indent(&mut line, 2, 4);
    indent(&mut line, 4, 4);
    indent(&mut line, 5, 4);
    assert_eq!(line, "     ");
}

#[test]
fn number_fields_show_the_metadata() {
    let m = stat("file", 0o644);
    assert_eq!(n_link_to_string(Some(&m), &widths()), "  2");
    assert_eq!(owner_to_string(Some(&m), &widths()), "1000");
    assert_eq!(group_to_string(Some(&m), &widths()), "  50");
    assert_eq!(file_size_to_string(Some(&m), &widths()), "  4096");
    assert_eq!(n_link_to_string(None, &widths()), "  ?");
    assert_eq!(owner_to_string(None, &widths()), "   ?");
    assert_eq!(group_to_string(None, &widths()), "   ?");
    assert_eq!(file_size_to_string(None, &widths()), "     ?");
}

#[test]
fn devices_show_major_and_minor() {
    assert_eq!(file_size_to_string(Some(&stat("block", 0o660)), &widths()), "  8,   1");
    assert_eq!(file_size_to_string(Some(&stat("char", 0o660)), &widths()), "  8,   1");
}

#[test]
fn time_field_falls_back_to_a_mark() {
    let m = stat("file", 0o644);
    let stamp = "2024-05-06 07:08:09".to_string();
    assert_eq!(time_stamp_to_string(Some(&m), Some(&stamp)), "2024-05-06 07:08:09");
    assert_eq!(time_stamp_to_string(Some(&m), None), "                  ?");
    assert_eq!(time_stamp_to_string(None, Some(&stamp)), "                  ?");
    assert_eq!(time_stamp_to_string(None, None).len(), 19);
}

#[test]
fn names_are_painted_by_kind() {
    let exe = stat("file", 0o755);
    let plain = stat("file", 0o644);
    let paint = |m: Option<&FileStat>, kind: FileType| quoted_name_to_string("n".to_string(), m, &kind);
    assert_eq!(paint(Some(&plain), FileType::Directory), "\x1b[1;34mn\x1b[0m");
    assert_eq!(paint(None, FileType::ArgDirectory), "\x1b[1;34mn\x1b[0m");
    assert_eq!(paint(Some(&exe), FileType::SymbolicLink), "\x1b[1;36mn\x1b[0m");
    assert_eq!(paint(Some(&exe), FileType::Normal), "\x1b[1;32mn\x1b[0m");
    assert_eq!(paint(Some(&plain), FileType::Normal), "n");
    assert_eq!(paint(None, FileType::Normal), "n");
}

#[test]
fn link_targets_follow_an_arrow() {
    let mut link = FileInfo::new("l".to_string(), Some("t".to_string()), None, None, 0, FileType::SymbolicLink);
    assert_eq!(symlink_path_to_string(&link), "-> t");
    link.link_name = None;
    assert_eq!(symlink_path_to_string(&link), "");
}

#[test]
fn long_lines_hold_every_field() {
    let mut file = FileInfo::new("a b".to_string(), None, Some(stat("file", 0o644)), None, 1, FileType::Normal);
    file.time_stamp = Some("2024-05-06 07:08:09".to_string());
    assert_eq!(
        long_format_line(&file, &widths()),
        "-rw-r--r--   2 1000   50   4096 2024-05-06 07:08:09 'a b' "
    );
    let link = FileInfo::new(
        "l".to_string(),
        Some("target".to_string()),
        Some(stat("link", 0o777)),
        None,
        2,
        FileType::SymbolicLink,
    );
    assert_eq!(
        long_format_line(&link, &widths()),
        "lrwxrwxrwx   2 1000   50   4096                   ? \x1b[1;36ml\x1b[0m -> target"
    );
    let unknown = FileInfo::new("x".to_string(), None, None, None, 3, FileType::Normal);
    assert_eq!(
        long_format_line(&unknown, &widths()),
        "-?????????   ?    ?    ?      ?                   ? x "
    );
}

#[test]
fn long_format_lists_the_sorted_batch() {
    let mut ws = set(true, 80);
    add(&mut ws, "b", "file", 0o644);
    add(&mut ws, "a", "dir", 0o755);
    ws.sort_files();
    let lines = print_long_format(&ws);
    assert_eq!(
        lines,
        vec![
            "drwxr-xr-x 2 1000 50 4096 2024-05-06 07:08:09 \x1b[1;34ma\x1b[0m ",
            "-rw-r--r-- 2 1000 50 4096 2024-05-06 07:08:09 b ",
        ]
    );
    assert_eq!(print_current_files(&mut ws), lines);
}

#[test]
fn grid_fills_columns_first() {
    let mut ws = set(false, 20);
    for name in ["e", "bb", "a", "dddd", "ccc"] {
        add(&mut ws, name, "file", 0o644);
    }
    ws.sort_files();
    // Sorted widths 1 2 3 4 1 in two rows: columns of 4, 6 and 3.
    let lines = print_many_per_line(&mut ws);
    assert_eq!(lines, vec!["a   ccc   e", "bb  dddd"]);
    assert_eq!(print_current_files(&mut ws), lines);
}

#[test]
fn grid_pads_behind_painted_names() {
    let mut ws = set(false, 80);
    add(&mut ws, "dir", "dir", 0o755);
    add(&mut ws, "run me", "file", 0o755);
    add(&mut ws, "z", "file", 0o644);
    ws.sort_files();
    assert_eq!(
        print_many_per_line(&mut ws),
        vec!["\x1b[1;34mdir\x1b[0m  \x1b[1;32m'run me'\x1b[0m  z"]
    );
}

#[test]
fn grid_falls_back_to_one_entry_per_row() {
    let mut ws = set(false, 2);
    add(&mut ws, "bbbb", "file", 0o644);
    add(&mut ws, "aaaa", "file", 0o644);
    ws.sort_files();
    assert_eq!(print_many_per_line(&mut ws), vec!["aaaa", "bbbb"]);
    let mut wide = set(false, 10);
    add(&mut wide, "a-very-long-name", "file", 0o644);
    add(&mut wide, "another-long-name", "file", 0o644);
    wide.sort_files();
    assert_eq!(print_many_per_line(&mut wide), vec!["a-very-long-name", "another-long-name"]);
}

#[test]
fn grid_of_nothing_is_empty() {
    let mut ws = set(false, 80);
    ws.sort_files();
    assert!(print_many_per_line(&mut ws).is_empty());
    assert!(print_current_files(&mut ws).is_empty());
}

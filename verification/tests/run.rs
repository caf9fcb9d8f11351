use lrs::args::Args;
use lrs::exit_status::ExitStatus;
use lrs::filesystem::{FileStat, KindFlags, LinkProbe, Probe, ProbeRequest};
use lrs::orchestrator::{Action, DirOpen, EntryRead, Event, Phase, Run};
use lrs::print::print_info::PrintInfo;

#[derive(Clone)]
struct Node {
    path: &'static str,
    kind: &'static str,
    ino: u64,
    /// For a link: the path it resolves to. For a directory: unused.
    target: &'static str,
    readable: bool,
}

struct Tree {
    nodes: Vec<Node>,
}

fn node(path: &'static str, kind: &'static str, ino: u64) -> Node {
    Node { path, kind, ino, target: "", readable: true }
}

fn flags(kind: &str) -> KindFlags {
    KindFlags {
        is_file: kind == "file",
        is_dir: kind == "dir",
        is_symlink: kind == "link",
        is_block_device: false,
        is_char_device: false,
        is_fifo: false,
        is_socket: false,
    }
}

impl Tree {
    fn find(&self, path: &str) -> Option<&Node> {
        if let Some(n) = self.nodes.iter().find(|n| n.path == path) {
            return Some(n);
        }
        let (parent, name) = path.rsplit_once('/')?;
        let parent = self.follow(parent)?;
        let real = format!("{}/{}", parent.path, name);
        self.nodes.iter().find(|n| n.path == real)
    }

    fn follow(&self, path: &str) -> Option<&Node> {
        let mut at = self.find(path)?;
        let mut hops = 0;
        while at.kind == "link" && hops < 8 {
            at = self.find(at.target)?;
            hops += 1;
        }
        Some(at)
    }

    fn stat_of(n: &Node) -> FileStat {
        FileStat {
            kind: flags(n.kind),
            dev: 1,
            ino: n.ino,
            nlink: 1,
            uid: 1000,
            gid: 1000,
            rdev: 0,
            size: 10 * n.ino,
            blocks: 8,
            mode: if n.kind == "dir" { 0o755 } else { 0o644 },
            mtime: 0,
        }
    }

    fn probe(&self, request: &ProbeRequest) -> Probe {
        let found = if request.follow { self.follow(&request.path) } else { self.find(&request.path) };
        let found = match found {
            Some(n) if n.readable => n,
            Some(_) => {
                return Probe {
                    stat: Err("Permission denied".to_string()),
                    stamp: None,
                    link: LinkProbe::NotRead,
                }
            }
            None => {
                return Probe {
                    stat: Err("No such file or directory".to_string()),
                    stamp: None,
                    link: LinkProbe::NotRead,
                }
            }
        };
        let link = if request.link && found.kind == "link" {
            let target = found.target.rsplit('/').next().unwrap().as_bytes().to_vec();
            match self.follow(found.target) {
                Some(t) => LinkProbe::Resolved { target, metadata: Self::stat_of(t) },
                None => LinkProbe::Dangling { target, message: "No such file or directory".to_string() },
            }
        } else {
            LinkProbe::NotRead
        };
        let stamp = if request.stamp { Some("2024-01-01 12:00:00".to_string()) } else { None };
        Probe { stat: Ok(Self::stat_of(found)), stamp, link }
    }

    fn children(&self, path: &str) -> Vec<Node> {
        let dir = self.follow(path).unwrap().path;
        let prefix = format!("{}/", dir);
        self.nodes
            .iter()
            .filter(|n| n.path.starts_with(&prefix) && !n.path[prefix.len()..].contains('/'))
            .cloned()
            .collect()
    }
}

struct Outcome {
    lines: Vec<String>,
    diagnostics: Vec<String>,
    status: ExitStatus,
    opened: Vec<String>,
}

fn args(paths: &[&str], long: bool, dereference: bool, recursive: bool) -> Args {
    Args {
        paths: paths.iter().map(|p| p.to_string()).collect(),
        all: false,
        long,
        almost_all: false,
        dereference,
        recursive,
    }
}

fn drive(tree: &Tree, args: Args, width: usize, stop_after: usize) -> Outcome {
    let mut run = Run::with_print_info(args, PrintInfo::for_width(Some(width)));
    let mut outcome =
        Outcome { lines: Vec::new(), diagnostics: Vec::new(), status: ExitStatus::ExitSuccess, opened: Vec::new() };
    let mut entries: Vec<Node> = Vec::new();
    let mut polls = 0;
    let mut event = Event::Start;
    for _ in 0..10_000 {
        assert!(run.expects(&event));
        let step = run.step(event);
        for report in run.working_set.take_reports() {
            outcome.diagnostics.push(report.to_string());
        }
        outcome.lines.extend(step.output);
        event = match step.action {
            Action::Probe(request) => Event::Probed(tree.probe(&request)),
            Action::Poll => {
                polls += 1;
                Event::Cancel(polls > stop_after)
            }
            Action::OpenDir { path, identify } => {
                outcome.opened.push(path.clone());
                match tree.follow(&path) {
                    Some(n) if n.kind == "dir" && n.readable => {
                        entries = tree.children(&path);
                        entries.reverse();
                        let identity = if identify { Some(Ok((1, n.ino))) } else { None };
                        Event::Opened(DirOpen::Opened { identity })
                    }
                    Some(_) => Event::Opened(DirOpen::Failed { message: "Permission denied".to_string() }),
                    None => Event::Opened(DirOpen::Failed { message: "No such file or directory".to_string() }),
                }
            }
            Action::NextEntry => Event::Entry(match entries.pop() {
                Some(n) => EntryRead::Named {
                    name: n.path.rsplit('/').next().unwrap().as_bytes().to_vec(),
                    kind: Some(flags(n.kind)),
                    inode: n.ino,
                },
                None => EntryRead::End,
            }),
            Action::Exit(status) => {
                outcome.status = status;
                assert!(matches!(run.phase, Phase::Done));
                return outcome;
            }
        };
    }
    panic!("the run did not end");
}

fn small_tree() -> Tree {
    Tree {
        nodes: vec![
            node("dir", "dir", 1),
            node("dir/b.txt", "file", 2),
            node("dir/A.txt", "file", 3),
            node("dir/c", "dir", 4),
            node("dir/.hidden", "file", 5),
            node("dir/c/inner", "file", 6),
        ],
    }
}

#[test]
fn a_directory_is_listed_sorted_in_one_row() {
    let out = drive(&small_tree(), args(&["dir"], false, false, false), 80, usize::MAX);
    assert_eq!(out.lines, vec!["A.txt  b.txt  \x1b[1;34mc\x1b[0m"]);
    assert!(out.diagnostics.is_empty());
    assert_eq!(out.status, ExitStatus::ExitSuccess);
    assert_eq!(out.opened, vec!["dir"]);
}

#[test]
fn a_narrow_line_splits_the_row() {
    let out = drive(&small_tree(), args(&["dir"], false, false, false), 16, usize::MAX);
    assert_eq!(out.lines, vec!["A.txt  \x1b[1;34mc\x1b[0m", "b.txt"]);
}

#[test]
fn a_symlink_cycle_is_reported_once() {
    let mut link = node("d/link", "link", 11);
    link.target = "d";
    let tree = Tree { nodes: vec![node("d", "dir", 10), link] };
    let out = drive(&tree, args(&["d"], false, true, true), 80, usize::MAX);
    assert_eq!(out.diagnostics, vec!["d/link: not listing already-listed directory"]);
    assert_eq!(out.status, ExitStatus::LrsMinorProblem);
    assert_eq!(out.lines, vec!["d:", "\x1b[1;34mlink\x1b[0m"]);
    assert_eq!(out.opened, vec!["d", "d/link"]);
}

#[test]
fn an_unreadable_entry_lists_with_placeholders() {
    let mut secret = node("dir/secret", "file", 7);
    secret.readable = false;
    let tree = Tree { nodes: vec![node("dir", "dir", 1), node("dir/a", "file", 2), secret, node("dir/z", "file", 3)] };
    let out = drive(&tree, args(&["dir"], true, false, false), 80, usize::MAX);
    assert_eq!(
        out.lines,
        vec![
            "total 16",
            "-rw-r--r-- 1 1000 1000 20 2024-01-01 12:00:00 a ",
            "-????????? ?    ?    ?  ?                   ? secret ",
            "-rw-r--r-- 1 1000 1000 30 2024-01-01 12:00:00 z ",
        ]
    );
    assert_eq!(out.diagnostics, vec!["cannot access 'dir/secret': Permission denied"]);
    assert_eq!(out.status, ExitStatus::LrsMinorProblem);
}

#[test]
fn recursion_lists_depth_first_in_sorted_order() {
    let tree = Tree {
        nodes: vec![
            node("top", "dir", 1),
            node("top/b", "dir", 2),
            node("top/a", "dir", 3),
            node("top/f", "file", 4),
            node("top/a/y", "dir", 5),
            node("top/a/x", "file", 6),
            node("top/b/w", "file", 7),
        ],
    };
    let out = drive(&tree, args(&["top"], false, false, true), 80, usize::MAX);
    assert_eq!(out.opened, vec!["top", "top/a", "top/a/y", "top/b"]);
    assert_eq!(
        out.lines,
        vec![
            "top:",
            "\x1b[1;34ma\x1b[0m  \x1b[1;34mb\x1b[0m  f",
            "",
            "top/a:",
            "x  \x1b[1;34my\x1b[0m",
            "",
            "top/a/y:",
            "",
            "top/b:",
            "w",
        ]
    );
    assert_eq!(out.status, ExitStatus::ExitSuccess);
}

#[test]
fn a_directory_seen_twice_in_turn_is_listed_twice() {
    let mut first = node("top/a", "link", 20);
    first.target = "shared";
    let mut second = node("top/b", "link", 21);
    second.target = "shared";
    let tree = Tree {
        nodes: vec![node("top", "dir", 1), first, second, node("shared", "dir", 9), node("shared/f", "file", 8)],
    };
    let out = drive(&tree, args(&["top"], false, true, true), 80, usize::MAX);
    assert_eq!(out.diagnostics, Vec::<String>::new());
    assert_eq!(out.opened, vec!["top", "top/a", "top/b"]);
    assert_eq!(out.status, ExitStatus::ExitSuccess);
}

#[test]
fn files_and_directories_among_the_arguments() {
    let tree = Tree {
        nodes: vec![
            node("f", "file", 1),
            node("d1", "dir", 2),
            node("d1/x", "file", 3),
            node("d2", "dir", 4),
            node("d2/y", "file", 5),
        ],
    };
    let out = drive(&tree, args(&["d2", "f", "missing", "d1"], false, false, false), 80, usize::MAX);
    assert_eq!(out.lines, vec!["f", "", "d1:", "x", "", "d2:", "y"]);
    assert_eq!(out.diagnostics, vec!["cannot access 'missing': No such file or directory"]);
    assert_eq!(out.status, ExitStatus::LrsFailure);
}

#[test]
fn several_directories_are_announced_by_name() {
    let tree = Tree {
        nodes: vec![node("d1", "dir", 2), node("d1/x", "file", 3), node("d2", "dir", 4)],
    };
    let out = drive(&tree, args(&["d1", "d2"], false, false, false), 80, usize::MAX);
    assert_eq!(out.lines, vec!["d1:", "x", "", "d2:"]);
}

#[test]
fn without_arguments_the_current_directory_is_listed() {
    let tree = Tree { nodes: vec![node(".", "dir", 1), node("./only", "file", 2)] };
    let out = drive(&tree, args(&[], false, false, false), 80, usize::MAX);
    assert_eq!(out.opened, vec!["."]);
    assert_eq!(out.lines, vec!["only"]);
    assert_eq!(out.status, ExitStatus::ExitSuccess);
}

#[test]
fn a_directory_that_cannot_be_opened_is_noted() {
    let mut locked = node("locked", "dir", 2);
    locked.readable = false;
    let tree = Tree { nodes: vec![node("top", "dir", 1), node("top/f", "file", 3), locked] };
    let mut run = Run::with_print_info(args(&["top"], false, false, false), PrintInfo::for_width(Some(80)));
    let step = run.step(Event::Start);
    assert!(matches!(step.action, Action::Probe(_)));
    let out = drive(&tree, args(&["top", "nowhere/"], false, false, false), 80, usize::MAX);
    assert_eq!(out.status, ExitStatus::LrsFailure);
    let tree = Tree { nodes: vec![node("gone", "dir", 1)] };
    let mut run = Run::with_print_info(args(&["gone"], false, false, false), PrintInfo::for_width(Some(80)));
    let mut event = Event::Start;
    let mut diagnostics: Vec<String> = Vec::new();
    loop {
        let step = run.step(event);
        diagnostics.extend(run.working_set.take_reports().iter().map(|e| e.to_string()));
        event = match step.action {
            Action::Probe(request) => Event::Probed(tree.probe(&request)),
            Action::Poll => Event::Cancel(false),
            Action::OpenDir { .. } => Event::Opened(DirOpen::Failed { message: "Permission denied".to_string() }),
            Action::NextEntry => panic!("nothing was opened"),
            Action::Exit(status) => {
                assert_eq!(status, ExitStatus::LrsFailure);
                break;
            }
        };
    }
    assert_eq!(diagnostics, vec!["cannot open directory \"gone\": Permission denied"]);
}

#[test]
fn an_unknown_identity_skips_the_directory() {
    let tree = Tree { nodes: vec![node("d", "dir", 1), node("d/f", "file", 2)] };
    let mut run = Run::with_print_info(args(&["d"], false, false, true), PrintInfo::for_width(Some(80)));
    let mut event = Event::Start;
    let mut diagnostics: Vec<String> = Vec::new();
    let mut lines: Vec<String> = Vec::new();
    loop {
        assert!(run.expects(&event));
        let step = run.step(event);
        diagnostics.extend(run.working_set.take_reports().iter().map(|e| e.to_string()));
        lines.extend(step.output);
        event = match step.action {
            Action::Probe(request) => Event::Probed(tree.probe(&request)),
            Action::Poll => Event::Cancel(false),
            Action::OpenDir { identify, .. } => {
                assert!(identify);
                Event::Opened(DirOpen::Opened { identity: Some(Err("Stale file handle".to_string())) })
            }
            Action::NextEntry => panic!("the directory was not to be read"),
            Action::Exit(status) => {
                assert_eq!(status, ExitStatus::LrsFailure);
                break;
            }
        };
    }
    assert!(lines.is_empty());
    assert_eq!(diagnostics, vec!["cannot determine device and inode of \"d\": Stale file handle"]);
}

#[test]
fn entries_that_cannot_be_read_are_passed_over() {
    let mut run = Run::with_print_info(args(&[], false, false, false), PrintInfo::for_width(Some(80)));
    let mut script: Vec<Event> = vec![
        Event::Entry(EntryRead::End),
        Event::Probed(Probe {
            stat: Ok(Tree::stat_of(&node("ok", "file", 3))),
            stamp: None,
            link: LinkProbe::NotRead,
        }),
        Event::Entry(EntryRead::Named { name: b"ok".to_vec(), kind: None, inode: 3 }),
        Event::Entry(EntryRead::Named { name: b".hidden".to_vec(), kind: None, inode: 4 }),
        Event::Entry(EntryRead::Named { name: vec![0xff, 0xfe], kind: None, inode: 5 }),
        Event::Entry(EntryRead::Unreadable { message: "Input/output error".to_string() }),
        Event::Opened(DirOpen::Opened { identity: None }),
        Event::Cancel(false),
        Event::Start,
    ];
    let mut lines: Vec<String> = Vec::new();
    let mut diagnostics: Vec<String> = Vec::new();
    while let Some(event) = script.pop() {
        assert!(run.expects(&event));
        let step = run.step(event);
        lines.extend(step.output);
        diagnostics.extend(run.working_set.take_reports().iter().map(|e| e.to_string()));
    }
    assert_eq!(lines, vec!["ok"]);
    assert_eq!(
        diagnostics,
        vec![
            "reading file in directory '.': Input/output error",
            "file name in Directory \".\" contains invalid UTF-8:",
        ]
    );
    assert!(matches!(run.phase, Phase::Drain));
    assert!(!run.expects(&Event::Start));
    assert!(run.expects(&Event::Cancel(true)));
    let step = run.step(Event::Cancel(false));
    assert!(matches!(step.action, Action::Exit(ExitStatus::LrsFailure)));
    assert!(!run.expects(&Event::Cancel(false)));
}

#[test]
fn a_request_to_stop_ends_the_run_between_directories() {
    let tree = Tree {
        nodes: vec![
            node("d1", "dir", 2),
            node("d1/x", "file", 3),
            node("d2", "dir", 4),
            node("d2/y", "file", 5),
        ],
    };
    let out = drive(&tree, args(&["d1", "d2"], false, false, false), 80, 1);
    assert_eq!(out.lines, vec!["d1:", "x"]);
    assert_eq!(out.opened, vec!["d1"]);
    assert_eq!(out.status, ExitStatus::ExitSuccess);
    let out = drive(&tree, args(&["d1", "d2"], false, false, false), 80, 0);
    assert!(out.lines.is_empty());
    assert!(out.opened.is_empty());
}

#[test]
fn the_long_format_shows_totals_and_link_targets() {
    let mut link = node("dir/l", "link", 4);
    link.target = "dir/f";
    let mut broken = node("dir/m", "link", 5);
    broken.target = "dir/nothing";
    let tree = Tree { nodes: vec![node("dir", "dir", 1), node("dir/f", "file", 12), link, broken] };
    let out = drive(&tree, args(&["dir"], true, false, false), 80, usize::MAX);
    assert_eq!(
        out.lines,
        vec![
            "total 24",
            "-rw-r--r-- 1 1000 1000 120 2024-01-01 12:00:00 f ",
            "lrw-r--r-- 1 1000 1000  40 2024-01-01 12:00:00 \x1b[1;36ml\x1b[0m -> f",
            "lrw-r--r-- 1 1000 1000  50 2024-01-01 12:00:00 \x1b[1;36mm\x1b[0m -> nothing",
        ]
    );
    assert_eq!(out.diagnostics, vec!["cannot read symbolic link \"nothing\": No such file or directory"]);
    assert_eq!(out.status, ExitStatus::LrsMinorProblem);
}

//! The entry resolver: from a name and what the system answered about it to
//! one entry of the batch.

use vstd::prelude::*;
use vstd::utf8::{decode_utf8, valid_utf8};
use crate::args::Args;
use crate::error::FailureView;
use crate::exit_status::ExitStatus;
use crate::filesystem::error::{Error, ErrorView};
use crate::filesystem::fileinfo::{
    entry_of, entry_views, EntryView, FileInfo, FileStat, FileType,
};
use crate::filesystem::pending::{name_view, str_view};
use crate::filesystem::{get_major_and_minor, joined, major_of, minor_of, resolve_path};
use crate::math::{digit_width, digits, lemma_digits_bound};
use crate::print::format_info::{device_field_length, wider, FormatInfo};
use crate::text::{lossy_text, starts_with_char, utf8_lossy};
use crate::working_set::{ListingView, WorkingSet};

verus! {

/// What to ask the system about one name.
#[derive(Debug)]
pub struct ProbeRequest {
    /// The path to examine.
    pub path: String,
    /// Whether a symbolic link at the end of the path is followed.
    pub follow: bool,
    /// Whether the time of the last modification is wanted as text.
    pub stamp: bool,
    /// Whether the path is to be read as a symbolic link, should it be one.
    pub link: bool,
    /// The directory against which the target of the link is resolved.
    pub link_base: String,
}

/// What reading a symbolic link gave.
#[derive(Debug)]
pub enum LinkProbe {
    /// The link was not read.
    NotRead,
    /// The link could not be read.
    Unreadable { message: String },
    /// The link was read, but what it points to could not be examined.
    Dangling { target: Vec<u8>, message: String },
    /// The link was read and what it points to was examined.
    Resolved { target: Vec<u8>, metadata: FileStat },
}

/// What the system answered about one name: its metadata or the reason why
/// there is none, and what reading it as a symbolic link gave.
#[derive(Debug)]
pub struct Probe {
    pub stat: std::result::Result<FileStat, String>,
    /// The time of the last modification as the local clock shows it, where
    /// it was asked for and can be told.
    pub stamp: Option<String>,
    pub link: LinkProbe,
}

/// A `LinkProbe` as plain values.
pub enum LinkProbeView {
    NotRead,
    Unreadable { message: Seq<char> },
    Dangling { target: Seq<u8>, message: Seq<char> },
    Resolved { target: Seq<u8>, metadata: FileStat },
}

/// A `Probe` as plain values.
pub struct ProbeView {
    pub stat: std::result::Result<FileStat, Seq<char>>,
    pub stamp: Option<Seq<char>>,
    pub link: LinkProbeView,
}

impl View for LinkProbe {
    type V = LinkProbeView;

    open spec fn view(&self) -> LinkProbeView {
        match *self {
            LinkProbe::NotRead => LinkProbeView::NotRead,
            LinkProbe::Unreadable { message } => LinkProbeView::Unreadable { message: message@ },
            LinkProbe::Dangling { target, message } => LinkProbeView::Dangling {
                target: target@,
                message: message@,
            },
            LinkProbe::Resolved { target, metadata } => LinkProbeView::Resolved {
                target: target@,
                metadata,
            },
        }
    }
}

impl View for Probe {
    type V = ProbeView;

    open spec fn view(&self) -> ProbeView {
        ProbeView {
            stat: match self.stat {
                Ok(metadata) => Ok(metadata),
                Err(message) => Err(message@),
            },
            stamp: name_view(self.stamp),
            link: self.link@,
        }
    }
}

/// Whether the metadata of an entry is needed to list it: always for an
/// argument of the caller and in the long format, for an entry whose kind is
/// unknown or may be a directory, and for a link that is to be followed.
pub open spec fn stat_needed(long: bool, dereference: bool, file_type: FileType, cli_arg: bool) -> bool {
    ||| cli_arg
    ||| long
    ||| file_type == FileType::Unknown
    ||| file_type == FileType::Directory
    ||| file_type == FileType::Normal
    ||| (file_type == FileType::SymbolicLink && dereference)
}

/// The name shown for the target of a link: its text, or nothing when the
/// target is not UTF-8.
pub open spec fn target_text(target: Seq<u8>) -> Seq<char> {
    if valid_utf8(target) {
        decode_utf8(target)
    } else {
        Seq::empty()
    }
}

/// The listing after a failure was noted.
pub open spec fn reported(l: ListingView, error: ErrorView, cli_arg: bool) -> ListingView {
    ListingView {
        exit_status: l.exit_status.raised(ExitStatus::severity(cli_arg)),
        reports: l.reports.push(FailureView::FS(error)),
        ..l
    }
}

/// The width of `n` in decimal digits.
pub open spec fn width_of(n: u64) -> usize {
    digits(n as nat) as usize
}

/// The field widths after the entry described by `m` was folded in. A
/// device widens the major and minor fields, and the size field by both
/// together; any other entry widens the size field by its size.
pub open spec fn folded(info: FormatInfo, m: FileStat, kind: FileType) -> FormatInfo {
    let device = kind == FileType::CharDev || kind == FileType::BlockDev;
    let major_length = width_of(major_of(m.rdev));
    let minor_length = width_of(minor_of(m.rdev));
    FormatInfo {
        hard_link_length: wider(info.hard_link_length, width_of(m.nlink)),
        user_length: wider(info.user_length, width_of(m.uid as u64)),
        group_length: wider(info.group_length, width_of(m.gid as u64)),
        major_length: if device {
            wider(info.major_length, major_length)
        } else {
            info.major_length
        },
        minor_length: if device {
            wider(info.minor_length, minor_length)
        } else {
            info.minor_length
        },
        file_size_length: if device {
            wider(info.file_size_length, device_field_length(major_length, minor_length))
        } else {
            wider(info.file_size_length, width_of(m.size))
        },
    }
}

/// What reading the link `name` adds to an entry: the name and the metadata
/// of its target, and a failure noted when the target could not be read or
/// reached.
pub open spec fn linked(l: ListingView, name: Seq<char>, cli_arg: bool, link: LinkProbeView) -> (
    ListingView,
    Option<Seq<char>>,
    Option<FileStat>,
) {
    match link {
        LinkProbeView::NotRead => (l, None, None),
        LinkProbeView::Unreadable { message } => (
            reported(l, ErrorView::CannotReadSymbolicLinkError { path: name, message }, cli_arg),
            None,
            None,
        ),
        LinkProbeView::Dangling { target, message } => (
            reported(
                l,
                ErrorView::CannotReadSymbolicLinkError { path: lossy_text(target), message },
                cli_arg,
            ),
            Some(target_text(target)),
            None,
        ),
        LinkProbeView::Resolved { target, metadata } => (l, Some(target_text(target)), Some(metadata)),
    }
}

/// The listing after the name `name` was resolved, and the number of blocks
/// the entry takes.
///
/// Without metadata a failure is noted; an argument of the caller is then
/// dropped, while an entry found in a directory is still listed by its name,
/// with nothing known of it. With metadata the entry gets its kind from it
/// and its time stamp from the probe; in the long format a symbolic link gets
/// the name and the metadata of its target, and the field widths take the
/// entry in.
pub open spec fn resolved(
    l: ListingView,
    long: bool,
    name: Seq<char>,
    file_type: FileType,
    inode: u64,
    cli_arg: bool,
    dir_name: Option<Seq<char>>,
    probe: ProbeView,
) -> (ListingView, u64) {
    match probe.stat {
        Err(message) => {
            let noted = reported(
                l,
                ErrorView::CannotAccessFileError { name: joined(dir_name, name), message },
                cli_arg,
            );
            if cli_arg {
                (noted, 0)
            } else {
                (
                    ListingView {
                        files: noted.files.push(entry_of(name, None, None, None, inode, file_type)),
                        ..noted
                    },
                    0,
                )
            }
        },
        Ok(m) => {
            let kind = FileType::classify(m.kind, cli_arg);
            let (after, link_name, link_metadata) = if kind == FileType::SymbolicLink && long {
                linked(l, name, cli_arg, probe.link)
            } else {
                (l, None, None)
            };
            let format_info = match after.format_info {
                Some(info) if long => Some(folded(info, m, kind)),
                _ => after.format_info,
            };
            (
                ListingView {
                    files: after.files.push(
                        EntryView {
                            time_stamp: probe.stamp,
                            ..entry_of(name, link_name, Some(m), link_metadata, inode, kind)
                        },
                    ),
                    format_info,
                    ..after
                },
                m.blocks,
            )
        },
    }
}

/// The views of the probes of a batch.
pub open spec fn probe_views(probes: Seq<Probe>) -> Seq<ProbeView> {
    Seq::new(probes.len(), |i: int| probes[i]@)
}

/// The views of a list of paths.
pub open spec fn path_views(paths: Seq<String>) -> Seq<Seq<char>> {
    Seq::new(paths.len(), |i: int| paths[i]@)
}

/// The listing after the first `count` arguments of the caller were
/// resolved, each from its own probe: an argument has no parent directory,
/// its kind is not known beforehand, and its inode is not asked for.
pub open spec fn resolved_arguments(
    l: ListingView,
    long: bool,
    paths: Seq<Seq<char>>,
    probes: Seq<ProbeView>,
    count: nat,
) -> ListingView
    decreases count,
{
    if count == 0 {
        l
    } else {
        resolved(
            resolved_arguments(l, long, paths, probes, (count - 1) as nat),
            long,
            paths[count - 1],
            FileType::Unknown,
            0,
            true,
            None,
            probes[count - 1],
        ).0
    }
}

/// Whether the metadata of an entry is needed to list it.
pub fn check_stat(args: &Args, file_type: FileType, cli_arg: bool) -> (needed: bool)
    ensures
        needed == stat_needed(args.long, args.dereference, file_type, cli_arg),
{
    cli_arg || args.long || matches!(
        file_type,
        FileType::Unknown | FileType::Directory | FileType::Normal
    ) || (matches!(file_type, FileType::SymbolicLink | FileType::Unknown) && args.dereference)
}

/// What to ask the system about the name `name` found in `dir_name`: the
/// path is the name as seen from the directory, and links are followed when
/// the options say so. The long format also wants the time as text and the
/// target of a symbolic link.
pub fn probe_request(
    args: &Args,
    name: &str,
    file_type: FileType,
    cli_arg: bool,
    dir_name: Option<&str>,
) -> (request: ProbeRequest)
    ensures
        request.path@ == joined(str_view(dir_name), name@),
        request.follow == args.dereference,
        request.stamp == args.long,
        request.link == args.long,
        request.link_base@ == match dir_name {
            Some(dir) => dir@,
            None => seq!['.'],
        },
{
    let relative: bool = !starts_with_char(name, '/');
    let path: String = if check_stat(args, file_type, cli_arg) || relative && dir_name.is_some() {
        resolve_path(name, dir_name)
    } else {
        name.to_owned()
    };
    ProbeRequest {
        path,
        follow: args.dereference,
        stamp: args.long,
        link: args.long,
        link_base: link_base(dir_name),
    }
}

/// The directory against which the target of a link is resolved: the one the
/// link was found in, or the current one.
pub fn link_base(dir_name: Option<&str>) -> (base: String)
    ensures
        base@ == match dir_name {
            Some(dir) => dir@,
            None => seq!['.'],
        },
{
    match dir_name {
        Some(dir) => dir.to_owned(),
        None => {
            proof {
                reveal_strlit(".");
            }
            ".".to_owned()
        },
    }
}

/// The name shown for the target of a link.
fn target_name(target: &Vec<u8>) -> (name: String)
    ensures
        name@ == target_text(target@),
{
    match crate::filesystem::pathname_to_string(target) {
        Ok(name) => name,
        Err(_) => String::new(),
    }
}

/// Takes the entry described by `metadata` into the field widths.
fn fold_widths(info: &mut FormatInfo, metadata: &FileStat, file_type: FileType)
    ensures
        *final(info) == folded(*old(info), *metadata, file_type),
{
    proof {
        lemma_digits_bound(metadata.nlink as nat);
        lemma_digits_bound(metadata.uid as nat);
        lemma_digits_bound(metadata.gid as nat);
        lemma_digits_bound(metadata.size as nat);
        lemma_digits_bound(major_of(metadata.rdev) as nat);
        lemma_digits_bound(minor_of(metadata.rdev) as nat);
    }
    info.update_hard_link_length(digit_width(metadata.nlink));
    info.update_user_length(digit_width(metadata.uid as u64));
    info.update_group_length(digit_width(metadata.gid as u64));
    if matches!(file_type, FileType::CharDev | FileType::BlockDev) {
        let (major, minor) = get_major_and_minor(metadata.rdev);
        let maj_len: usize = digit_width(major);
        let min_len: usize = digit_width(minor);
        info.update_file_size_lengths(maj_len, min_len);
    } else {
        info.update_file_size_length(digit_width(metadata.size));
    }
}

/// Resolves the name `name` into one entry of the batch, from what the
/// system answered about it, and returns the number of blocks it takes; zero
/// when nothing is known of it.
pub fn gobble_file(
    working_set: &mut WorkingSet,
    name: &str,
    file_type: FileType,
    inode: u64,
    cli_arg: bool,
    dir_name: Option<&str>,
    probe: &Probe,
) -> (blocks: u64)
    requires
        old(working_set).wf(),
        cli_arg ==> inode == 0,
    ensures
        final(working_set).wf(),
        (final(working_set).listing(), blocks) == resolved(
            old(working_set).listing(),
            old(working_set).args.long,
            name@,
            file_type,
            inode,
            cli_arg,
            str_view(dir_name),
            probe@,
        ),
        final(working_set).sorted_files == old(working_set).sorted_files,
        final(working_set).column_state == old(working_set).column_state,
        final(working_set).pending_dirs == old(working_set).pending_dirs,
        final(working_set).loop_manager == old(working_set).loop_manager,
        final(working_set).same_setup(old(working_set)),
{
    let ghost before = working_set.listing();
    let metadata: FileStat = match &probe.stat {
        Ok(m) => *m,
        Err(message) => {
            let full_name: String = resolve_path(name, dir_name);
            working_set.report(
                Error::CannotAccessFileError { name: full_name, message: message.clone() },
                cli_arg,
            );
            if !cli_arg {
                let entry = FileInfo::new(name.to_owned(), None, None, None, inode, file_type);
                working_set.cwd_files.push(entry);
                assert(entry_views(working_set.cwd_files@) =~= before.files.push(entry@));
            }
            return 0;
        },
    };

    let file_type: FileType = FileType::determine(&metadata, cli_arg);
    let mut link_name: Option<String> = None;
    let mut link_metadata: Option<FileStat> = None;

    if file_type == FileType::SymbolicLink && working_set.args.long {
        match &probe.link {
            LinkProbe::Resolved { target, metadata: m } => {
                link_metadata = Some(*m);
                link_name = Some(target_name(target));
            },
            LinkProbe::Dangling { target, message } => {
                link_name = Some(target_name(target));
                working_set.report(
                    Error::CannotReadSymbolicLinkError {
                        path: utf8_lossy(target),
                        message: message.clone(),
                    },
                    cli_arg,
                );
            },
            LinkProbe::Unreadable { message } => {
                working_set.report(
                    Error::CannotReadSymbolicLinkError {
                        path: name.to_owned(),
                        message: message.clone(),
                    },
                    cli_arg,
                );
            },
            LinkProbe::NotRead => {},
        }
    }
    let blocks: u64 = metadata.blocks;

    if working_set.args.long {
        match working_set.format_info.as_mut() {
            Some(info) => fold_widths(info, &metadata, file_type),
            None => {},
        }
    }
    let mut file_info = FileInfo::new(
        name.to_owned(),
        link_name,
        Some(metadata),
        link_metadata,
        inode,
        file_type,
    );
    file_info.time_stamp = probe.stamp.clone();
    let ghost grown = entry_views(working_set.cwd_files@).push(file_info@);
    working_set.cwd_files.push(file_info);
    assert(entry_views(working_set.cwd_files@) =~= grown);
    blocks
}

} // verus!

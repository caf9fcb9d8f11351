//! The run protocol. The library decides, the caller acts: every step takes
//! the answer to the action handed out before and hands out the next one,
//! until the run exits.

use vstd::prelude::*;
use vstd::utf8::{decode_utf8, valid_utf8};
use crate::args::Args;
use crate::exit_status::ExitStatus;
use crate::filesystem::error::{Error, ErrorView};
use crate::filesystem::fileinfo::{entry_views, is_sorted_view, FileType, KindFlags};
use crate::filesystem::loop_manager::{lemma_enter_keeps_balance, lemma_leave_keeps_balance};
use crate::filesystem::pending::{lemma_marker_count_concat, marker_count, Pending, PendingView};
use crate::filesystem::resolve::{
    gobble_file, probe_request, reported, resolved, Probe, ProbeRequest,
};
use crate::filesystem::{file_name_to_string, joined};
use crate::print::paint::{decimal, decimal_digits};
use crate::print::print_info::PrintInfo;
use crate::print::{batch_lines, line_views, print_current_files};
use crate::text::push_char;
use crate::working_set::{
    dirs_reversed, fresh_format, ignored, lemma_dirs_reversed_has_no_marker, marker_for,
    shown_entries, ListingView, WorkingSet,
};

verus! {

/// What opening a directory gave.
#[derive(Debug)]
pub enum DirOpen {
    /// The directory could not be opened.
    Failed { message: String },
    /// The directory is open. Its device and inode, or the reason why they
    /// are not known, come with it when they were asked for.
    Opened { identity: Option<std::result::Result<(u64, u64), String>> },
}

/// What reading the next entry of the open directory gave.
#[derive(Debug)]
pub enum EntryRead {
    /// There are no more entries.
    End,
    /// An entry could not be read.
    Unreadable { message: String },
    /// An entry: the bytes of its name, its kind where the directory tells
    /// it, and its inode.
    Named { name: Vec<u8>, kind: Option<KindFlags>, inode: u64 },
}

/// What the caller did since the last step.
#[derive(Debug)]
pub enum Event {
    /// Nothing yet: the run begins.
    Start,
    /// The answer to `Action::Probe`.
    Probed(Probe),
    /// The answer to `Action::Poll`: whether the run was asked to stop.
    Cancel(bool),
    /// The answer to `Action::OpenDir`.
    Opened(DirOpen),
    /// The answer to `Action::NextEntry`.
    Entry(EntryRead),
}

/// What the caller is to do next.
#[derive(Debug)]
pub enum Action {
    /// Examine a path.
    Probe(ProbeRequest),
    /// Look whether the run was asked to stop.
    Poll,
    /// Open a directory for reading, and with `identify` find out its device
    /// and inode.
    OpenDir { path: String, identify: bool },
    /// Read the next entry of the open directory.
    NextEntry,
    /// End the run with this status.
    Exit(ExitStatus),
}

/// The outcome of a step: the lines to show, and what to do next.
#[derive(Debug)]
pub struct Step {
    pub output: Vec<String>,
    pub action: Action,
}

/// Where the run stands.
#[derive(Debug)]
pub enum Phase {
    /// Nothing was done yet.
    Start,
    /// The argument at `index` is being examined.
    Argument { index: usize },
    /// The next directory is about to be taken from the work list.
    Drain,
    /// The directory `pend` is being opened.
    Opening { pend: Pending },
    /// The entries of `pend` are being read; those resolved so far take
    /// `total_blocks` blocks.
    Reading { pend: Pending, total_blocks: u64 },
    /// The entry `name` of `pend` is being examined.
    Entry { pend: Pending, total_blocks: u64, name: String, file_type: FileType, inode: u64 },
    /// The run has exited.
    Done,
}

/// A run: its state, where it stands, and what the next directory header
/// looks like.
#[derive(Debug)]
pub struct Run {
    pub working_set: WorkingSet,
    pub phase: Phase,
    /// Whether the next directory is announced by its name. A lone directory
    /// is not.
    pub print_dir_name: bool,
    /// Whether no directory was listed yet.
    pub first: bool,
}

/// The action as plain values.
pub enum ActionView {
    Probe { path: Seq<char>, follow: bool, stamp: bool, link: bool, link_base: Seq<char> },
    Poll,
    OpenDir { path: Seq<char>, identify: bool },
    NextEntry,
    Exit(ExitStatus),
}

impl View for Action {
    type V = ActionView;

    open spec fn view(&self) -> ActionView {
        match *self {
            Action::Probe(request) => ActionView::Probe {
                path: request.path@,
                follow: request.follow,
                stamp: request.stamp,
                link: request.link,
                link_base: request.link_base@,
            },
            Action::Poll => ActionView::Poll,
            Action::OpenDir { path, identify } => ActionView::OpenDir { path: path@, identify },
            Action::NextEntry => ActionView::NextEntry,
            Action::Exit(status) => ActionView::Exit(status),
        }
    }
}

/// The probe asked for the name `name` found in `dir_name`.
pub open spec fn probe_action(args: Args, name: Seq<char>, dir_name: Option<Seq<char>>) -> ActionView {
    ActionView::Probe {
        path: joined(dir_name, name),
        follow: args.dereference,
        stamp: args.long,
        link: args.long,
        link_base: match dir_name {
            Some(dir) => dir,
            None => seq!['.'],
        },
    }
}

impl Phase {
    /// The directory at hand, if one is.
    pub open spec fn directory(&self) -> Option<Pending> {
        match *self {
            Phase::Opening { pend } => Some(pend),
            Phase::Reading { pend, .. } => Some(pend),
            Phase::Entry { pend, .. } => Some(pend),
            _ => None,
        }
    }
}

/// The name under which a directory is announced: the one it was reached
/// by, where that is known, or else its path.
pub open spec fn title(pend: PendingView) -> Seq<char> {
    match pend.real_name {
        Some(real_name) => real_name,
        None => pend.name->0,
    }
}

/// The lines that announce a directory: a blank line before every block but
/// the first, and the title with a colon. A lone directory is not announced
/// unless the run is recursive.
pub open spec fn header_lines(announce: bool, first: bool, pend: PendingView) -> Seq<Seq<char>> {
    if announce {
        (if first {
            Seq::<Seq<char>>::empty()
        } else {
            seq![Seq::<char>::empty()]
        }).push(title(pend) + seq![':'])
    } else {
        Seq::empty()
    }
}

/// The line that gives the blocks taken by the entries of a directory.
pub open spec fn total_line(total_blocks: u64) -> Seq<char> {
    seq!['t', 'o', 't', 'a', 'l', ' '] + decimal(total_blocks as nat)
}

/// The sum of two block counts, as far as a `u64` can hold it.
pub open spec fn blocks_sum(a: u64, b: u64) -> u64 {
    if a + b <= u64::MAX {
        (a + b) as u64
    } else {
        u64::MAX
    }
}

/// The kind that a directory tells of an entry found in it.
pub open spec fn entry_kind(kind: Option<KindFlags>) -> FileType {
    match kind {
        Some(flags) => FileType::classify(flags, false),
        None => FileType::Unknown,
    }
}

/// The work list and the sorted view are those of `pre`, and so is the batch.
pub open spec fn batch_kept(pre: &WorkingSet, post: &WorkingSet) -> bool {
    &&& post.cwd_files == pre.cwd_files
    &&& post.sorted_files@ == pre.sorted_files@
    &&& post.format_info == pre.format_info
}

/// Nothing but the phase of the run has changed.
pub open spec fn only_phase_changed(pre: &Run, post: &Run) -> bool {
    &&& post.working_set.same_setup(&pre.working_set)
    &&& post.working_set.same_queue(&pre.working_set)
    &&& post.working_set.same_outcome(&pre.working_set)
    &&& batch_kept(&pre.working_set, &post.working_set)
    &&& post.print_dir_name == pre.print_dir_name
    &&& post.first == pre.first
}

/// The step asks for the probe of argument `index` and shows nothing.
pub open spec fn asks_argument(pre: &Run, post: &Run, out: &Step, index: usize) -> bool {
    &&& post.phase == (Phase::Argument { index })
    &&& out.action@ == probe_action(
        pre.working_set.args,
        pre.working_set.args.paths@[index as int]@,
        None,
    )
    &&& out.output@.len() == 0
}

/// The arguments are listed. Before, the work list was `pending` and the
/// listing was `listing`. The batch is sorted, its directories go to the
/// work list, and what is left is shown as the first block, followed by a
/// blank line when directories wait. A lone directory without any other
/// argument will not be announced by name. The run then drains the list.
pub open spec fn arguments_listed(
    pre: &Run,
    pending: Seq<PendingView>,
    listing: ListingView,
    post: &Run,
    out: &Step,
) -> bool {
    let ws = &pre.working_set;
    let files = listing.files;
    let shown = post.working_set.sorted_files@;
    let lines = batch_lines(files, shown, listing.format_info, ws.print_info, ws.args.long);
    &&& post.phase is Drain
    &&& out.action@ == ActionView::Poll
    &&& post.first
    &&& exists|order: Seq<usize>|
        {
            &&& #[trigger] is_sorted_view(files, order)
            &&& shown == shown_entries(files, order)
            &&& post.working_set.pending_dirs@ == pending + dirs_reversed(files, order, None, true)
        }
    &&& line_views(out.output@) == if shown.len() == 0 {
        Seq::empty()
    } else if post.working_set.pending_dirs@.len() > 0 {
        lines.push(Seq::empty())
    } else {
        lines
    }
    &&& post.print_dir_name == !(shown.len() == 0 && post.working_set.pending_dirs@.len() == 1)
    &&& post.working_set.listing() == listing
    &&& post.working_set.loop_manager@ == ws.loop_manager@
    &&& post.working_set.same_setup(ws)
}

/// The first step: with arguments the first is examined, without any the
/// current directory is listed in their place.
pub open spec fn started(pre: &Run, post: &Run, out: &Step) -> bool {
    let ws = &pre.working_set;
    if ws.args.paths@.len() == 0 {
        arguments_listed(
            pre,
            ws.pending_dirs@.push(
                PendingView { name: Some(seq!['.']), real_name: None, cli_arg: true },
            ),
            ws.listing(),
            post,
            out,
        )
    } else {
        &&& asks_argument(pre, post, out, 0)
        &&& only_phase_changed(pre, post)
    }
}

/// An argument was examined: it is resolved into the batch, and the next
/// argument is examined or, after the last, the arguments are listed.
pub open spec fn argument_resolved(pre: &Run, probe: &Probe, post: &Run, out: &Step) -> bool {
    let index = pre.phase->Argument_index;
    let ws = &pre.working_set;
    let listing = resolved(
        ws.listing(),
        ws.args.long,
        ws.args.paths@[index as int]@,
        FileType::Unknown,
        0,
        true,
        None,
        probe@,
    ).0;
    if index + 1 < ws.args.paths@.len() {
        &&& asks_argument(pre, post, out, (index + 1) as usize)
        &&& post.working_set.listing() == listing
        &&& post.working_set.sorted_files@ == ws.sorted_files@
        &&& post.working_set.same_setup(ws)
        &&& post.working_set.same_queue(ws)
        &&& post.print_dir_name == pre.print_dir_name
        &&& post.first == pre.first
    } else {
        arguments_listed(pre, ws.pending_dirs@, listing, post, out)
    }
}

/// The directory at hand is given up: the failure is noted, nothing is
/// shown, and the run goes back to the work list.
pub open spec fn skipped(pre: &Run, post: &Run, out: &Step, error: ErrorView) -> bool {
    let pend = pre.phase->Opening_pend;
    &&& post.phase is Drain
    &&& out.action@ == ActionView::Poll
    &&& out.output@.len() == 0
    &&& post.print_dir_name
    &&& !post.first
    &&& post.working_set.listing() == reported(pre.working_set.listing(), error, pend.cli_arg)
    &&& post.working_set.sorted_files@ == pre.working_set.sorted_files@
    &&& post.working_set.same_setup(&pre.working_set)
    &&& post.working_set.same_queue(&pre.working_set)
}

/// The directory at hand is entered: the batch is emptied, the directory is
/// announced, and its entries are read.
pub open spec fn entered(pre: &Run, post: &Run, out: &Step) -> bool {
    let pend = pre.phase->Opening_pend;
    let ws = &pre.working_set;
    &&& post.phase == (Phase::Reading { pend, total_blocks: 0 })
    &&& out.action@ == ActionView::NextEntry
    &&& line_views(out.output@) == header_lines(
        ws.args.recursive || pre.print_dir_name,
        pre.first,
        pend@,
    )
    &&& post.working_set.cwd_files@.len() == 0
    &&& post.working_set.sorted_files@.len() == 0
    &&& post.working_set.format_info == fresh_format(ws.args.long)
    &&& post.working_set.pending_dirs@ == ws.pending_dirs@
    &&& post.working_set.same_setup(ws)
    &&& post.working_set.same_outcome(ws)
    &&& post.print_dir_name == pre.print_dir_name
    &&& post.first == pre.first
}

/// A directory was opened, or not. One that cannot be opened is given up.
/// In a recursive run so is one whose identity is not known, and one whose
/// identity is in the chain of directories entered and not yet left: it is
/// its own ancestor, a cycle. Any other is entered, and a recursive run makes
/// it the innermost directory of the chain.
pub open spec fn opened(pre: &Run, open: &DirOpen, post: &Run, out: &Step) -> bool {
    let pend = pre.phase->Opening_pend;
    let ws = &pre.working_set;
    let name = pend.name->0@;
    match *open {
        DirOpen::Failed { message } => {
            &&& skipped(
                pre,
                post,
                out,
                ErrorView::CannotOpenDirectoryError { path: name, message: message@ },
            )
            &&& post.working_set.loop_manager@ == ws.loop_manager@
        },
        DirOpen::Opened { identity } => if ws.args.recursive {
            match identity {
                Some(Ok(id)) => if ws.loop_manager@.chain.contains(id) {
                    &&& skipped(pre, post, out, ErrorView::DirectoryAlreadyListedError { name })
                    &&& post.working_set.loop_manager@ == ws.loop_manager@
                } else {
                    &&& entered(pre, post, out)
                    &&& post.working_set.loop_manager@ == ws.loop_manager@.visited(id).0.pushed(id)
                },
                Some(Err(message)) => {
                    &&& skipped(
                        pre,
                        post,
                        out,
                        ErrorView::CannotDetermineDevInoError { path: name, message: message@ },
                    )
                    &&& post.working_set.loop_manager@ == ws.loop_manager@
                },
                None => true,
            }
        } else {
            &&& entered(pre, post, out)
            &&& post.working_set.loop_manager@ == ws.loop_manager@
        },
    }
}

/// The run goes on reading the directory at hand; nothing is shown.
pub open spec fn reads_on(pre: &Run, post: &Run, out: &Step) -> bool {
    &&& post.phase == pre.phase
    &&& out.action@ == ActionView::NextEntry
    &&& out.output@.len() == 0
    &&& post.print_dir_name == pre.print_dir_name
    &&& post.first == pre.first
    &&& post.working_set.sorted_files@ == pre.working_set.sorted_files@
    &&& post.working_set.same_setup(&pre.working_set)
    &&& post.working_set.same_queue(&pre.working_set)
}

/// The directory at hand is read to its end: the batch is sorted, a
/// recursive run puts the closing marker and the subdirectories on the work
/// list, and the batch is shown, in the long format under the line that
/// gives its blocks. The run then goes back to the work list.
pub open spec fn directory_listed(pre: &Run, post: &Run, out: &Step) -> bool {
    let pend = pre.phase->Reading_pend;
    let total_blocks = pre.phase->Reading_total_blocks;
    let ws = &pre.working_set;
    let files = entry_views(ws.cwd_files@);
    let shown = post.working_set.sorted_files@;
    let lines = if shown.len() > 0 {
        batch_lines(files, shown, ws.format_info, ws.print_info, ws.args.long)
    } else {
        Seq::empty()
    };
    &&& post.phase is Drain
    &&& out.action@ == ActionView::Poll
    &&& post.print_dir_name
    &&& !post.first
    &&& exists|order: Seq<usize>|
        {
            &&& #[trigger] is_sorted_view(files, order)
            &&& if ws.args.recursive {
                &&& shown == shown_entries(files, order)
                &&& post.working_set.pending_dirs@ == ws.pending_dirs@.push(
                    marker_for(pend.name->0@),
                ) + dirs_reversed(files, order, Some(pend.name->0@), false)
            } else {
                &&& shown == order
                &&& post.working_set.pending_dirs@ == ws.pending_dirs@
            }
        }
    &&& line_views(out.output@) == if ws.args.long {
        seq![total_line(total_blocks)] + lines
    } else {
        lines
    }
    &&& post.working_set.listing() == ws.listing()
    &&& post.working_set.loop_manager@ == ws.loop_manager@
    &&& post.working_set.same_setup(ws)
}

/// An entry of the directory at hand was read, or the end was reached. An
/// entry that cannot be read, or whose name is not UTF-8, is noted and
/// passed over; a name that the policy hides is passed over in silence; any
/// other is examined.
pub open spec fn entry_read(pre: &Run, entry: &EntryRead, post: &Run, out: &Step) -> bool {
    let pend = pre.phase->Reading_pend;
    let total_blocks = pre.phase->Reading_total_blocks;
    let ws = &pre.working_set;
    let dir = pend.name->0@;
    match *entry {
        EntryRead::End => directory_listed(pre, post, out),
        EntryRead::Unreadable { message } => {
            &&& reads_on(pre, post, out)
            &&& post.working_set.listing() == reported(
                ws.listing(),
                ErrorView::CannotReadFileInDirectoryError { name: dir, message: message@ },
                pend.cli_arg,
            )
        },
        EntryRead::Named { name, kind, inode } => if !valid_utf8(name@) {
            &&& reads_on(pre, post, out)
            &&& post.working_set.listing() == reported(
                ws.listing(),
                ErrorView::FileInvalidUTF8Error { path: dir },
                pend.cli_arg,
            )
        } else if ignored(ws.ignore_mode, decode_utf8(name@)) {
            &&& reads_on(pre, post, out)
            &&& post.working_set.listing() == ws.listing()
        } else {
            &&& post.phase matches Phase::Entry {
                pend: p,
                total_blocks: t,
                name: n,
                file_type,
                inode: i,
            }
            &&& p == pend
            &&& t == total_blocks
            &&& n@ == decode_utf8(name@)
            &&& file_type == entry_kind(kind)
            &&& i == inode
            &&& out.action@ == probe_action(ws.args, decode_utf8(name@), Some(dir))
            &&& out.output@.len() == 0
            &&& post.working_set.listing() == ws.listing()
            &&& post.working_set.sorted_files@ == ws.sorted_files@
            &&& post.working_set.same_setup(ws)
            &&& post.working_set.same_queue(ws)
            &&& post.print_dir_name == pre.print_dir_name
            &&& post.first == pre.first
        },
    }
}

/// An entry of the directory at hand was examined: it is resolved into the
/// batch, its blocks are added to those of the directory, and the next entry
/// is read.
pub open spec fn entry_resolved(pre: &Run, probe: &Probe, post: &Run, out: &Step) -> bool {
    let ws = &pre.working_set;
    let pend = pre.phase->Entry_pend;
    let outcome = resolved(
        ws.listing(),
        ws.args.long,
        pre.phase->Entry_name@,
        pre.phase->Entry_file_type,
        pre.phase->Entry_inode,
        false,
        Some(pend.name->0@),
        probe@,
    );
    &&& post.phase == (Phase::Reading {
        pend,
        total_blocks: blocks_sum(pre.phase->Entry_total_blocks, outcome.1),
    })
    &&& out.action@ == ActionView::NextEntry
    &&& out.output@.len() == 0
    &&& post.working_set.listing() == outcome.0
    &&& post.working_set.sorted_files@ == ws.sorted_files@
    &&& post.working_set.same_setup(ws)
    &&& post.working_set.same_queue(ws)
    &&& post.print_dir_name == pre.print_dir_name
    &&& post.first == pre.first
}

/// The work list is looked at. An empty list ends the run, and so does a
/// request to stop; what was shown stays shown. Otherwise the newest node is
/// taken: a marker leaves the innermost active directory, a directory is
/// opened, and a recursive run asks for its identity.
pub open spec fn drained(pre: &Run, cancelled: bool, post: &Run, out: &Step) -> bool {
    let ws = &pre.working_set;
    &&& out.output@.len() == 0
    &&& post.print_dir_name == pre.print_dir_name
    &&& post.first == pre.first
    &&& post.working_set.same_setup(ws)
    &&& post.working_set.same_outcome(ws)
    &&& batch_kept(ws, &post.working_set)
    &&& if ws.pending_dirs@.len() == 0 || cancelled {
        &&& post.phase is Done
        &&& out.action@ == ActionView::Exit(ws.exit_status)
        &&& post.working_set.same_queue(ws)
    } else {
        let node = ws.pending_dirs@.last();
        &&& post.working_set.pending_dirs@ == ws.pending_dirs@.drop_last()
        &&& match node.name {
            None => {
                &&& post.phase is Drain
                &&& out.action@ == ActionView::Poll
                &&& post.working_set.loop_manager@ == ws.loop_manager@.popped()
            },
            Some(name) => {
                &&& post.phase matches Phase::Opening { pend }
                &&& pend@ == node
                &&& out.action@ == (ActionView::OpenDir { path: name, identify: ws.args.recursive })
                &&& post.working_set.loop_manager@ == ws.loop_manager@
            },
        }
    }
}

impl Run {
    /// The state is well formed, the argument being examined is one of the
    /// arguments, and the directory at hand has a name.
    pub open spec fn wf(&self) -> bool {
        &&& self.working_set.wf()
        &&& self.phase matches Phase::Argument { index } ==> index
            < self.working_set.args.paths@.len()
        &&& self.phase.directory() matches Some(pend) ==> pend.name is Some
        &&& self.guarded()
    }

    /// The number of directories that are entered, in a recursive run, and
    /// whose closing marker is not yet on the work list: the one being read.
    pub open spec fn unclosed(&self) -> nat {
        if self.working_set.args.recursive && (self.phase is Reading || self.phase is Entry) {
            1
        } else {
            0
        }
    }

    /// The guard mirrors the descent: the active directories are exactly
    /// those of the chain, and every directory of the chain is either being
    /// read or has its closing marker on the work list.
    pub open spec fn guarded(&self) -> bool {
        self.guarded_with(self.unclosed())
    }

    /// The guard is in balance and its chain holds the directories whose
    /// markers wait on the work list, and `unclosed` more.
    pub open spec fn guarded_with(&self, unclosed: nat) -> bool {
        &&& self.working_set.loop_manager@.balanced()
        &&& self.working_set.loop_manager@.chain.len() == marker_count(
            self.working_set.pending_dirs@,
        ) + unclosed
    }

    /// The event answers the action that the last step handed out.
    pub open spec fn accepts(&self, event: &Event) -> bool {
        match (self.phase, *event) {
            (Phase::Start, Event::Start) => true,
            (Phase::Argument { .. }, Event::Probed(_)) => true,
            (Phase::Entry { .. }, Event::Probed(_)) => true,
            (Phase::Drain, Event::Cancel(_)) => true,
            (Phase::Opening { .. }, Event::Opened(open)) => match open {
                DirOpen::Opened { identity } => self.working_set.args.recursive ==> identity is Some,
                DirOpen::Failed { .. } => true,
            },
            (Phase::Reading { .. }, Event::Entry(_)) => true,
            _ => false,
        }
    }

    /// A run with the given options and output geometry, about to begin.
    pub fn with_print_info(args: Args, print_info: PrintInfo) -> (run: Self)
        ensures
            run.wf(),
            run.phase is Start,
            run.print_dir_name,
            run.first,
            run.working_set.args == args,
            run.working_set.print_info == print_info,
            run.working_set.exit_status == ExitStatus::ExitSuccess,
            run.working_set.format_info == fresh_format(args.long),
            run.working_set.pending_dirs@ == Seq::<PendingView>::empty(),
            run.working_set.cwd_files@.len() == 0,
            run.working_set.sorted_files@.len() == 0,
            run.working_set.reports@.len() == 0,
            run.working_set.loop_manager@.chain.len() == 0,
    {
        Run {
            working_set: WorkingSet::with_print_info(args, print_info),
            phase: Phase::Start,
            print_dir_name: true,
            first: true,
        }
    }

    /// A run with the given options that writes to the terminal of this
    /// process, about to begin.
    pub fn new(args: Args) -> (run: Self)
        ensures
            run.wf(),
            run.phase is Start,
            run.print_dir_name,
            run.first,
            run.working_set.args == args,
            0 < run.working_set.print_info.line_length <= u16::MAX,
            run.working_set.exit_status == ExitStatus::ExitSuccess,
            run.working_set.format_info == fresh_format(args.long),
            run.working_set.pending_dirs@ == Seq::<PendingView>::empty(),
            run.working_set.cwd_files@.len() == 0,
            run.working_set.sorted_files@.len() == 0,
            run.working_set.reports@.len() == 0,
            run.working_set.loop_manager@.chain.len() == 0,
    {
        Self::with_print_info(args, PrintInfo::new())
    }

    /// Goes back to the work list once a directory is done with.
    fn conclude(&mut self, output: Vec<String>) -> (out: Step)
        ensures
            final(self).phase is Drain,
            final(self).print_dir_name,
            !final(self).first,
            final(self).working_set == old(self).working_set,
            out.action@ == ActionView::Poll,
            out.output == output,
    {
        self.print_dir_name = true;
        self.first = false;
        self.phase = Phase::Drain;
        Step { output, action: Action::Poll }
    }

    /// Asks for the probe of the argument at `index`.
    fn ask_argument(&mut self, index: usize) -> (out: Step)
        requires
            index < old(self).working_set.args.paths@.len(),
        ensures
            asks_argument(old(self), final(self), &out, index),
            final(self).working_set == old(self).working_set,
            final(self).print_dir_name == old(self).print_dir_name,
            final(self).first == old(self).first,
    {
        let request = probe_request(
            &self.working_set.args,
            self.working_set.args.paths[index].as_str(),
            FileType::Unknown,
            true,
            None,
        );
        self.phase = Phase::Argument { index };
        Step { output: Vec::new(), action: Action::Probe(request) }
    }

    /// Sorts the arguments, queues the directories among them and shows the
    /// rest.
    fn list_arguments(&mut self) -> (out: Step)
        requires
            old(self).working_set.wf(),
            old(self).guarded_with(0),
        ensures
            final(self).wf(),
            arguments_listed(
                old(self),
                old(self).working_set.pending_dirs@,
                old(self).working_set.listing(),
                final(self),
                &out,
            ),
    {
        let ghost files = entry_views(self.working_set.cwd_files@);
        self.working_set.sort_files();
        let ghost order = self.working_set.sorted_files@;
        self.working_set.extract_dirs_from_files(None, true);
        proof {
            lemma_dirs_reversed_has_no_marker(files, order, None, true);
            lemma_marker_count_concat(
                old(self).working_set.pending_dirs@,
                dirs_reversed(files, order, None, true),
            );
        }
        let mut output: Vec<String> = Vec::new();
        let mut print_dir_name: bool = true;
        let n_files: usize = self.working_set.sorted_files.len();
        if n_files > 0 {
            output = print_current_files(&mut self.working_set);
            if self.working_set.pending_dirs.has_next() {
                let ghost lines = output@;
                output.push(String::new());
                assert(line_views(output@) =~= line_views(lines).push(Seq::empty()));
            }
        } else if self.working_set.pending_dirs.has_next() && !self.working_set.pending_dirs.peek() {
            print_dir_name = false;
        }
        self.print_dir_name = print_dir_name;
        self.first = true;
        self.phase = Phase::Drain;
        assert(n_files == 0 ==> line_views(output@) =~= Seq::<Seq<char>>::empty());
        let out = Step { output, action: Action::Poll };
        assert(self.working_set.listing().files == old(self).working_set.listing().files);
        out
    }

    /// Begins the run.
    pub fn on_start(&mut self) -> (out: Step)
        requires
            old(self).wf(),
            old(self).phase is Start,
        ensures
            final(self).wf(),
            started(old(self), final(self), &out),
    {
        if self.working_set.args.recursive {
            self.working_set.loop_manager.init_loop_detection();
        }
        if self.working_set.args.paths.len() == 0 {
            proof {
                reveal_strlit(".");
                assert("."@ =~= seq!['.']);
            }
            self.working_set.pending_dirs.queue_directory(Some("."), None, true);
            assert(self.working_set.pending_dirs@.drop_last() =~= old(self).working_set.pending_dirs@);
            self.list_arguments()
        } else {
            self.ask_argument(0)
        }
    }

    /// Takes the probe of the argument being examined.
    pub fn on_argument(&mut self, probe: &Probe) -> (out: Step)
        requires
            old(self).wf(),
            old(self).phase is Argument,
        ensures
            final(self).wf(),
            argument_resolved(old(self), probe, final(self), &out),
    {
        let index: usize = match &self.phase {
            Phase::Argument { index } => *index,
            _ => 0,
        };
        let count: usize = self.working_set.args.paths.len();
        let path: String = self.working_set.args.paths[index].clone();
        gobble_file(&mut self.working_set, path.as_str(), FileType::Unknown, 0, true, None, probe);
        if index + 1 < count {
            self.ask_argument(index + 1)
        } else {
            self.list_arguments()
        }
    }

    /// Takes the answer to a poll and looks at the work list.
    pub fn on_cancel(&mut self, cancelled: bool) -> (out: Step)
        requires
            old(self).wf(),
            old(self).phase is Drain,
        ensures
            final(self).wf(),
            drained(old(self), cancelled, final(self), &out),
    {
        if !self.working_set.pending_dirs.has_next() || cancelled {
            self.phase = Phase::Done;
            return Step { output: Vec::new(), action: Action::Exit(self.working_set.exit_status) };
        }
        match self.working_set.pending_dirs.dequeue_directory() {
            Some(boxed) => {
                let this_pend: Pending = *boxed;
                if this_pend.is_marker() {
                    proof {
                        lemma_leave_keeps_balance(self.working_set.loop_manager@);
                    }
                    self.working_set.loop_manager.dev_ino_pop();
                    self.phase = Phase::Drain;
                    Step { output: Vec::new(), action: Action::Poll }
                } else {
                    let path: String = this_pend.get_name().to_owned();
                    let identify: bool = self.working_set.args.recursive;
                    self.phase = Phase::Opening { pend: this_pend };
                    Step { output: Vec::new(), action: Action::OpenDir { path, identify } }
                }
            },
            None => {
                self.phase = Phase::Done;
                Step { output: Vec::new(), action: Action::Exit(self.working_set.exit_status) }
            },
        }
    }

    /// Gives up the directory being opened.
    fn skip_directory(&mut self, error: Error) -> (out: Step)
        requires
            old(self).wf(),
            old(self).phase is Opening,
        ensures
            final(self).wf(),
            skipped(old(self), final(self), &out, error@),
            final(self).working_set.loop_manager == old(self).working_set.loop_manager,
    {
        let cli_arg: bool = match &self.phase {
            Phase::Opening { pend } => pend.cli_arg,
            _ => false,
        };
        self.working_set.report(error, cli_arg);
        self.conclude(Vec::new())
    }

    /// Enters the directory being opened.
    fn enter_directory(&mut self) -> (out: Step)
        requires
            old(self).working_set.wf(),
            old(self).phase matches Phase::Opening { pend } && pend.name is Some,
            old(self).guarded_with(
                if old(self).working_set.args.recursive {
                    1
                } else {
                    0
                },
            ),
        ensures
            final(self).wf(),
            entered(old(self), final(self), &out),
            final(self).working_set.loop_manager == old(self).working_set.loop_manager,
    {
        self.working_set.clear_files();
        let mut phase = Phase::Done;
        std::mem::swap(&mut self.phase, &mut phase);
        match phase {
            Phase::Opening { pend } => {
                let mut output: Vec<String> = Vec::new();
                if self.working_set.args.recursive || self.print_dir_name {
                    if !self.first {
                        output.push(String::new());
                    }
                    let mut header: String = match &pend.real_name {
                        Some(real_name) => real_name.clone(),
                        None => pend.get_name().to_owned(),
                    };
                    push_char(&mut header, ':');
                    assert(header@ =~= title(pend@) + seq![':']);
                    output.push(header);
                }
                assert(line_views(output@) =~= header_lines(
                    self.working_set.args.recursive || self.print_dir_name,
                    self.first,
                    pend@,
                ));
                self.phase = Phase::Reading { pend, total_blocks: 0 };
                Step { output, action: Action::NextEntry }
            },
            _ => vstd::pervasive::unreached(),
        }
    }

    /// Takes what opening the directory at hand gave.
    pub fn on_opened(&mut self, open: &DirOpen) -> (out: Step)
        requires
            old(self).wf(),
            old(self).phase is Opening,
            old(self).accepts(&Event::Opened(*open)),
        ensures
            final(self).wf(),
            opened(old(self), open, final(self), &out),
    {
        let path: String = match &self.phase {
            Phase::Opening { pend } => pend.get_name().to_owned(),
            _ => String::new(),
        };
        match open {
            DirOpen::Failed { message } => self.skip_directory(
                Error::CannotOpenDirectoryError { path, message: message.clone() },
            ),
            DirOpen::Opened { identity } => {
                if self.working_set.args.recursive {
                    match identity {
                        Some(Ok((dev, ino))) => {
                            if !self.working_set.loop_manager.visit_dir(*dev, *ino) {
                                assert(self.working_set.loop_manager@ =~= old(
                                    self,
                                ).working_set.loop_manager@) by {
                                    crate::filesystem::loop_manager::lemma_reentry_refused(
                                        old(self).working_set.loop_manager@,
                                        (*dev, *ino),
                                    );
                                }
                                let out = self.skip_directory(
                                    Error::DirectoryAlreadyListedError { name: path },
                                );
                                out
                            } else {
                                self.working_set.loop_manager.dev_ino_push(*dev, *ino);
                                proof {
                                    lemma_enter_keeps_balance(
                                        old(self).working_set.loop_manager@,
                                        (*dev, *ino),
                                    );
                                }
                                self.enter_directory()
                            }
                        },
                        Some(Err(message)) => self.skip_directory(
                            Error::CannotDetermineDevInoError { path, message: message.clone() },
                        ),
                        None => vstd::pervasive::unreached(),
                    }
                } else {
                    self.enter_directory()
                }
            },
        }
    }

    /// Sorts and shows the directory that was read to its end.
    fn list_directory(&mut self) -> (out: Step)
        requires
            old(self).wf(),
            old(self).phase is Reading,
        ensures
            final(self).wf(),
            directory_listed(old(self), final(self), &out),
    {
        let ghost files = entry_views(self.working_set.cwd_files@);
        self.working_set.sort_files();
        let ghost order = self.working_set.sorted_files@;
        let mut output: Vec<String> = Vec::new();
        match &self.phase {
            Phase::Reading { pend, total_blocks } => {
                if self.working_set.args.recursive {
                    self.working_set.extract_dirs_from_files(Some(pend.get_name()), false);
                    proof {
                        let queue = old(self).working_set.pending_dirs@;
                        let marked = queue.push(marker_for(pend.name->0@));
                        let dirs = dirs_reversed(files, order, Some(pend.name->0@), false);
                        assert(marked.drop_last() =~= queue);
                        lemma_dirs_reversed_has_no_marker(files, order, Some(pend.name->0@), false);
                        lemma_marker_count_concat(marked, dirs);
                    }
                }
                if self.working_set.args.long {
                    proof {
                        reveal_strlit("total ");
                        assert("total "@ =~= seq!['t', 'o', 't', 'a', 'l', ' ']);
                    }
                    let mut total: String = "total ".to_owned();
                    let digits: Vec<char> = decimal_digits(*total_blocks);
                    let mut i: usize = 0;
                    while i < digits.len()
                        invariant
                            i <= digits@.len(),
                            total@ == "total "@ + digits@.take(i as int),
                        decreases digits@.len() - i,
                    {
                        push_char(&mut total, digits[i]);
                        i = i + 1;
                    }
                    assert(digits@.take(digits@.len() as int) =~= digits@);
                    output.push(total);
                }
            },
            _ => {},
        }
        let ghost head = output@;
        if self.working_set.sorted_files.len() > 0 {
            let mut lines = print_current_files(&mut self.working_set);
            let ghost shown = lines@;
            output.append(&mut lines);
            assert(line_views(output@) =~= line_views(head) + line_views(shown));
        }
        assert(line_views(head) =~= if self.working_set.args.long {
            seq![total_line(old(self).phase->Reading_total_blocks)]
        } else {
            Seq::empty()
        });
        self.conclude(output)
    }

    /// Takes what reading the next entry of the directory at hand gave.
    pub fn on_entry(&mut self, entry: &EntryRead) -> (out: Step)
        requires
            old(self).wf(),
            old(self).phase is Reading,
        ensures
            final(self).wf(),
            entry_read(old(self), entry, final(self), &out),
    {
        match entry {
            EntryRead::End => self.list_directory(),
            EntryRead::Unreadable { message } => {
                match &self.phase {
                    Phase::Reading { pend, .. } => {
                        let error = Error::CannotReadFileInDirectoryError {
                            name: pend.get_name().to_owned(),
                            message: message.clone(),
                        };
                        self.working_set.report(error, pend.cli_arg);
                    },
                    _ => {},
                }
                Step { output: Vec::new(), action: Action::NextEntry }
            },
            EntryRead::Named { name, kind, inode } => {
                let mut phase = Phase::Done;
                std::mem::swap(&mut self.phase, &mut phase);
                match phase {
                    Phase::Reading { pend, total_blocks } => {
                        match file_name_to_string(&pend, name) {
                            Ok(file_name) => {
                                if self.working_set.file_ignored(file_name.as_str()) {
                                    self.phase = Phase::Reading { pend, total_blocks };
                                    Step { output: Vec::new(), action: Action::NextEntry }
                                } else {
                                    let file_type: FileType = match kind {
                                        Some(flags) => FileType::new(*flags, false),
                                        None => FileType::Unknown,
                                    };
                                    let request = probe_request(
                                        &self.working_set.args,
                                        file_name.as_str(),
                                        file_type,
                                        false,
                                        Some(pend.get_name()),
                                    );
                                    self.phase = Phase::Entry {
                                        pend,
                                        total_blocks,
                                        name: file_name,
                                        file_type,
                                        inode: *inode,
                                    };
                                    Step { output: Vec::new(), action: Action::Probe(request) }
                                }
                            },
                            Err(e) => {
                                self.working_set.report(e, pend.cli_arg);
                                self.phase = Phase::Reading { pend, total_blocks };
                                Step { output: Vec::new(), action: Action::NextEntry }
                            },
                        }
                    },
                    _ => vstd::pervasive::unreached(),
                }
            },
        }
    }

    /// Takes the probe of the entry being examined.
    pub fn on_entry_probed(&mut self, probe: &Probe) -> (out: Step)
        requires
            old(self).wf(),
            old(self).phase is Entry,
        ensures
            final(self).wf(),
            entry_resolved(old(self), probe, final(self), &out),
    {
        let mut phase = Phase::Done;
        std::mem::swap(&mut self.phase, &mut phase);
        match phase {
            Phase::Entry { pend, total_blocks, name, file_type, inode } => {
                let blocks: u64 = gobble_file(
                    &mut self.working_set,
                    name.as_str(),
                    file_type,
                    inode,
                    false,
                    Some(pend.get_name()),
                    probe,
                );
                self.phase = Phase::Reading {
                    pend,
                    total_blocks: total_blocks.saturating_add(blocks),
                };
                Step { output: Vec::new(), action: Action::NextEntry }
            },
            _ => vstd::pervasive::unreached(),
        }
    }

    /// Takes the answer to the action handed out last and hands out the
    /// next action, with the lines to show before it is carried out.
    pub fn step(&mut self, event: Event) -> (out: Step)
        requires
            old(self).wf(),
            old(self).accepts(&event),
        ensures
            final(self).wf(),
            match event {
                Event::Start => started(old(self), final(self), &out),
                Event::Probed(probe) => if old(self).phase is Argument {
                    argument_resolved(old(self), &probe, final(self), &out)
                } else {
                    entry_resolved(old(self), &probe, final(self), &out)
                },
                Event::Cancel(cancelled) => drained(old(self), cancelled, final(self), &out),
                Event::Opened(open) => opened(old(self), &open, final(self), &out),
                Event::Entry(entry) => entry_read(old(self), &entry, final(self), &out),
            },
    {
        match event {
            Event::Start => self.on_start(),
            Event::Probed(probe) => {
                if matches!(self.phase, Phase::Argument { .. }) {
                    self.on_argument(&probe)
                } else {
                    self.on_entry_probed(&probe)
                }
            },
            Event::Cancel(cancelled) => self.on_cancel(cancelled),
            Event::Opened(open) => self.on_opened(&open),
            Event::Entry(entry) => self.on_entry(&entry),
        }
    }

    /// Whether the event answers the action that the last step handed out.
    pub fn expects(&self, event: &Event) -> (fits: bool)
        ensures
            fits == self.accepts(event),
    {
        match (&self.phase, event) {
            (Phase::Start, Event::Start) => true,
            (Phase::Argument { .. }, Event::Probed(_)) => true,
            (Phase::Entry { .. }, Event::Probed(_)) => true,
            (Phase::Drain, Event::Cancel(_)) => true,
            (Phase::Opening { .. }, Event::Opened(open)) => match open {
                DirOpen::Opened { identity } => !self.working_set.args.recursive || identity.is_some(),
                DirOpen::Failed { .. } => true,
            },
            (Phase::Reading { .. }, Event::Entry(_)) => true,
            _ => false,
        }
    }
}

} // verus!

//! The state of one run, handed through every step of the traversal.

use vstd::prelude::*;
use crate::args::Args;
use crate::error::{Error, FailureView};
use crate::exit_status::ExitStatus;
use crate::filesystem::fileinfo::{
    entry_views, is_sorted_view, EntryView, FileInfo, FileType, SortType, SortedFileInfoCollection,
};
use crate::filesystem::ignore_mode::IgnoreMode;
use crate::filesystem::loop_manager::LoopManager;
use crate::filesystem::pending::{
    dequeued_many, lemma_last_in_first_out, lemma_queued_all_appends, marker_count, str_view,
    PendingList, PendingView,
};
use crate::filesystem::resolve::{
    gobble_file, path_views, probe_views, resolved_arguments, Probe,
};
use crate::filesystem::{
    basename_is_dot_or_dot_dot, concat_names, dot_or_dot_dot, file_name_concat, is_dot_or_dot_dot,
    last_component_of,
};
use crate::print::format_info::FormatInfo;
use crate::print::layout::{best_columns, candidate_count, grid_fits, lemma_best_within_budget};
use crate::print::print_info::{ColumnState, PrintInfo};
use crate::text::starts_with_char;

verus! {

/// Room made for the entries of a directory before they are read.
const BATCH_RESERVE: usize = 128;

/// The run-state object.
#[derive(Debug)]
pub struct WorkingSet {
    /// The options of the run.
    pub args: Args,
    /// The directories still to be listed.
    pub pending_dirs: PendingList,
    /// The entries of the batch at hand, in the order in which they were found.
    pub cwd_files: Vec<FileInfo>,
    /// The sorted view of the batch: positions in `cwd_files`.
    pub sorted_files: Vec<usize>,
    /// The guard against cycles in the descent.
    pub loop_manager: LoopManager,
    /// The geometry of the output.
    pub print_info: PrintInfo,
    /// The column grids of the batch at hand, once they were computed.
    pub column_state: Option<ColumnState>,
    /// The status the run would end with now.
    pub exit_status: ExitStatus,
    /// Which names a listing leaves out.
    pub ignore_mode: IgnoreMode,
    /// The field widths of the batch at hand, in the long format.
    pub format_info: Option<FormatInfo>,
    /// The failures met and not yet shown, oldest first.
    pub reports: Vec<Error>,
}

/// The part of the state that resolving entries changes.
pub struct ListingView {
    pub files: Seq<EntryView>,
    pub format_info: Option<FormatInfo>,
    pub exit_status: ExitStatus,
    pub reports: Seq<FailureView>,
}

/// The policy that the options ask for.
pub open spec fn ignore_mode_for(all: bool, almost_all: bool) -> IgnoreMode {
    if all {
        IgnoreMode::IgnoreMinimal
    } else if almost_all {
        IgnoreMode::IgnoreDotAndDotDot
    } else {
        IgnoreMode::IgnoreDefault
    }
}

/// The field widths at the start of a batch: none in the short format.
pub open spec fn fresh_format(long: bool) -> Option<FormatInfo> {
    if long {
        Some(
            FormatInfo {
                hard_link_length: 0,
                user_length: 0,
                group_length: 0,
                major_length: 0,
                minor_length: 0,
                file_size_length: 0,
            },
        )
    } else {
        None
    }
}

/// A listing of `mode` leaves the name out.
pub open spec fn ignored(mode: IgnoreMode, name: Seq<char>) -> bool {
    &&& mode != IgnoreMode::IgnoreMinimal
    &&& name.len() > 0 && name[0] == '.'
    &&& mode == IgnoreMode::IgnoreDefault || is_dot_or_dot_dot(name)
}

/// The entry is a directory to descend into. Inside a listed directory the
/// names `.` and `..` are never followed.
pub open spec fn is_queued_dir(entry: EntryView, inside: bool) -> bool {
    entry.file_type.is_dir() && (!inside || !is_dot_or_dot_dot(last_component_of(entry.name)))
}

/// The work-list node for the directory `entry`. An argument of the caller
/// keeps its path as given; a directory found inside `dir_name` gets that
/// path put before its name, unless its name is absolute already.
pub open spec fn node_for(entry: EntryView, dir_name: Option<Seq<char>>, cli_arg: bool) -> PendingView {
    PendingView {
        name: Some(
            match dir_name {
                None => entry.name,
                Some(dir) => if entry.name.len() > 0 && entry.name[0] == '/' {
                    entry.name
                } else {
                    concat_names(dir, entry.name)
                },
            },
        ),
        real_name: entry.link_name,
        cli_arg,
    }
}

/// The marker that closes the directory `dir_name` on the work list.
pub open spec fn marker_for(dir_name: Seq<char>) -> PendingView {
    PendingView { name: None, real_name: Some(dir_name), cli_arg: false }
}

/// The nodes of the directories among the entries at `order`, last entry
/// first: queued in this order, they are taken from the list in the order of
/// `order`.
pub open spec fn dirs_reversed(
    files: Seq<EntryView>,
    order: Seq<usize>,
    dir_name: Option<Seq<char>>,
    cli_arg: bool,
) -> Seq<PendingView>
    decreases order.len(),
{
    if order.len() == 0 {
        Seq::empty()
    } else {
        let rest = dirs_reversed(files, order.drop_first(), dir_name, cli_arg);
        let entry = files[order[0] as int];
        if is_queued_dir(entry, dir_name is Some) {
            rest.push(node_for(entry, dir_name, cli_arg))
        } else {
            rest
        }
    }
}

/// The same nodes, first entry first: the order in which they are listed.
pub open spec fn dirs_in_order(
    files: Seq<EntryView>,
    order: Seq<usize>,
    dir_name: Option<Seq<char>>,
    cli_arg: bool,
) -> Seq<PendingView>
    decreases order.len(),
{
    if order.len() == 0 {
        Seq::empty()
    } else {
        let rest = dirs_in_order(files, order.drop_first(), dir_name, cli_arg);
        let entry = files[order[0] as int];
        if is_queued_dir(entry, dir_name is Some) {
            seq![node_for(entry, dir_name, cli_arg)] + rest
        } else {
            rest
        }
    }
}

/// Subdirectories are queued in reverse so that they are listed in sorted
/// order.
pub proof fn lemma_dirs_reversed_is_reverse(
    files: Seq<EntryView>,
    order: Seq<usize>,
    dir_name: Option<Seq<char>>,
    cli_arg: bool,
)
    ensures
        dirs_reversed(files, order, dir_name, cli_arg) == dirs_in_order(
            files,
            order,
            dir_name,
            cli_arg,
        ).reverse(),
    decreases order.len(),
{
    if order.len() > 0 {
        lemma_dirs_reversed_is_reverse(files, order.drop_first(), dir_name, cli_arg);
    }
}

/// The directories found in a batch are listed in sorted order: taken from
/// the work list one by one, they come out as they stand in the sorted
/// batch, and the list is then as it was before they were queued.
pub proof fn lemma_subdirectories_come_out_sorted(
    pending: Seq<PendingView>,
    files: Seq<EntryView>,
    order: Seq<usize>,
    dir_name: Option<Seq<char>>,
    cli_arg: bool,
)
    ensures
        dequeued_many(
            pending + dirs_reversed(files, order, dir_name, cli_arg),
            dirs_in_order(files, order, dir_name, cli_arg).len(),
        ) == (pending, dirs_in_order(files, order, dir_name, cli_arg)),
{
    let reversed = dirs_reversed(files, order, dir_name, cli_arg);
    let sorted = dirs_in_order(files, order, dir_name, cli_arg);
    lemma_dirs_reversed_is_reverse(files, order, dir_name, cli_arg);
    lemma_queued_all_appends(pending, reversed);
    lemma_last_in_first_out(pending, reversed);
    assert(sorted.reverse().reverse() =~= sorted);
}

/// Directories put on the work list are never markers.
pub proof fn lemma_dirs_reversed_has_no_marker(
    files: Seq<EntryView>,
    order: Seq<usize>,
    dir_name: Option<Seq<char>>,
    cli_arg: bool,
)
    ensures
        marker_count(dirs_reversed(files, order, dir_name, cli_arg)) == 0,
    decreases order.len(),
{
    if order.len() > 0 {
        lemma_dirs_reversed_has_no_marker(files, order.drop_first(), dir_name, cli_arg);
        let rest = dirs_reversed(files, order.drop_first(), dir_name, cli_arg);
        let entry = files[order[0] as int];
        if is_queued_dir(entry, dir_name is Some) {
            assert(rest.push(node_for(entry, dir_name, cli_arg)).drop_last() =~= rest);
        }
    }
}

/// The entries that stay in the table once directories were queued: all but
/// the directories that the caller named.
pub open spec fn shown_entries(files: Seq<EntryView>, order: Seq<usize>) -> Seq<usize> {
    order.filter(|i: usize| files[i as int].file_type != FileType::ArgDirectory)
}

/// The widths of the entries at `order`.
pub open spec fn sorted_widths(files: Seq<EntryView>, order: Seq<usize>) -> Seq<usize> {
    Seq::new(order.len(), |i: int| files[order[i] as int].width)
}

impl WorkingSet {
    /// The sorted view points into the batch, and the long format has its
    /// field widths.
    pub open spec fn wf(&self) -> bool {
        &&& forall|i: int|
            0 <= i < self.sorted_files@.len() ==> (#[trigger] self.sorted_files@[i])
                < self.cwd_files@.len()
        &&& self.args.long ==> self.format_info is Some
    }

    /// The failures not yet shown, as plain values.
    pub open spec fn reports_view(&self) -> Seq<FailureView> {
        Seq::new(self.reports@.len(), |i: int| self.reports@[i]@)
    }

    /// The part of the state that resolving entries changes.
    pub open spec fn listing(&self) -> ListingView {
        ListingView {
            files: entry_views(self.cwd_files@),
            format_info: self.format_info,
            exit_status: self.exit_status,
            reports: self.reports_view(),
        }
    }

    /// The options, the geometry and the policy are those of `other`.
    pub open spec fn same_setup(&self, other: &Self) -> bool {
        &&& self.args == other.args
        &&& self.print_info == other.print_info
        &&& self.ignore_mode == other.ignore_mode
    }

    /// The work list and the guard are those of `other`.
    pub open spec fn same_queue(&self, other: &Self) -> bool {
        &&& self.pending_dirs@ == other.pending_dirs@
        &&& self.loop_manager@ == other.loop_manager@
    }

    /// The batch, its sorted view, its field widths and its grids are those
    /// of `other`.
    pub open spec fn same_batch(&self, other: &Self) -> bool {
        &&& entry_views(self.cwd_files@) == entry_views(other.cwd_files@)
        &&& self.sorted_files@ == other.sorted_files@
        &&& self.format_info == other.format_info
        &&& self.column_state == other.column_state
    }

    /// The status and the failures not yet shown are those of `other`.
    pub open spec fn same_outcome(&self, other: &Self) -> bool {
        &&& self.exit_status == other.exit_status
        &&& self.reports_view() == other.reports_view()
    }

    /// The state at the start of a run with the given options and geometry.
    pub fn with_print_info(args: Args, print_info: PrintInfo) -> (set: Self)
        ensures
            set.wf(),
            set.args == args,
            set.print_info == print_info,
            set.ignore_mode == ignore_mode_for(args.all, args.almost_all),
            set.format_info == fresh_format(args.long),
            set.exit_status == ExitStatus::ExitSuccess,
            set.pending_dirs@ == Seq::<PendingView>::empty(),
            set.cwd_files@ == Seq::<FileInfo>::empty(),
            set.sorted_files@ == Seq::<usize>::empty(),
            set.loop_manager@.active == Set::<(u64, u64)>::empty(),
            set.loop_manager@.chain == Seq::<(u64, u64)>::empty(),
            set.column_state is None,
            set.reports@ == Seq::<Error>::empty(),
    {
        let ignore_mode: IgnoreMode = if args.all {
            IgnoreMode::IgnoreMinimal
        } else if args.almost_all {
            IgnoreMode::IgnoreDotAndDotDot
        } else {
            IgnoreMode::IgnoreDefault
        };
        let format_info: Option<FormatInfo> = if args.long {
            Some(FormatInfo::new())
        } else {
            None
        };
        let mut cwd_files: Vec<FileInfo> = Vec::new();
        cwd_files.reserve(BATCH_RESERVE);
        Self {
            args,
            pending_dirs: PendingList::new(),
            cwd_files,
            sorted_files: Vec::new(),
            loop_manager: LoopManager::new(),
            print_info,
            column_state: None,
            exit_status: ExitStatus::default(),
            ignore_mode,
            format_info,
            reports: Vec::new(),
        }
    }

    /// The state at the start of a run that writes to the terminal of this
    /// process.
    pub fn new(args: Args) -> (set: Self)
        ensures
            set.wf(),
            set.args == args,
            0 < set.print_info.line_length <= u16::MAX,
            set.print_info.max_idx == set.print_info.line_length
                / crate::print::layout::MIN_COLUMN_WIDTH,
            set.ignore_mode == ignore_mode_for(args.all, args.almost_all),
            set.format_info == fresh_format(args.long),
            set.exit_status == ExitStatus::ExitSuccess,
            set.pending_dirs@ == Seq::<PendingView>::empty(),
            set.cwd_files@ == Seq::<FileInfo>::empty(),
            set.sorted_files@ == Seq::<usize>::empty(),
            set.loop_manager@.active == Set::<(u64, u64)>::empty(),
            set.loop_manager@.chain == Seq::<(u64, u64)>::empty(),
            set.column_state is None,
            set.reports@ == Seq::<Error>::empty(),
    {
        Self::with_print_info(args, PrintInfo::new())
    }

    /// Notes a failure: it is kept to be shown, and the status rises to what
    /// the failure calls for.
    pub fn report(&mut self, error: crate::filesystem::Error, cli_arg: bool)
        ensures
            final(self).exit_status == old(self).exit_status.raised(ExitStatus::severity(cli_arg)),
            final(self).reports_view() == old(self).reports_view().push(FailureView::FS(error@)),
            final(self).same_setup(old(self)),
            final(self).same_queue(old(self)),
            final(self).same_batch(old(self)),
            final(self).cwd_files == old(self).cwd_files,
            final(self).sorted_files == old(self).sorted_files,
            final(self).pending_dirs == old(self).pending_dirs,
            final(self).loop_manager == old(self).loop_manager,
    {
        let error: Error = <Error as From<crate::filesystem::Error>>::from(error);
        self.exit_status.update(&error, cli_arg);
        self.reports.push(error);
    }

    /// Hands out the failures not yet shown, oldest first, and forgets them.
    pub fn take_reports(&mut self) -> (reports: Vec<Error>)
        ensures
            reports == old(self).reports,
            final(self).reports@ == Seq::<Error>::empty(),
            final(self).exit_status == old(self).exit_status,
            final(self).same_setup(old(self)),
            final(self).same_queue(old(self)),
            final(self).same_batch(old(self)),
            final(self).cwd_files == old(self).cwd_files,
            final(self).sorted_files == old(self).sorted_files,
            final(self).pending_dirs == old(self).pending_dirs,
            final(self).loop_manager == old(self).loop_manager,
    {
        let mut reports: Vec<Error> = Vec::new();
        std::mem::swap(&mut reports, &mut self.reports);
        reports
    }

    /// Resolves every path that the caller named, each from the probe at the
    /// same position. Without any path the current directory is put on the
    /// work list in their place.
    pub fn process_argument_paths(&mut self, probes: &Vec<Probe>)
        requires
            old(self).wf(),
            probes@.len() == old(self).args.paths@.len(),
        ensures
            final(self).wf(),
            final(self).listing() == resolved_arguments(
                old(self).listing(),
                old(self).args.long,
                path_views(old(self).args.paths@),
                probe_views(probes@),
                probes@.len(),
            ),
            final(self).pending_dirs@ == if probes@.len() == 0 {
                old(self).pending_dirs@.push(
                    PendingView { name: Some(seq!['.']), real_name: None, cli_arg: true },
                )
            } else {
                old(self).pending_dirs@
            },
            final(self).sorted_files == old(self).sorted_files,
            final(self).column_state == old(self).column_state,
            final(self).loop_manager == old(self).loop_manager,
            final(self).same_setup(old(self)),
    {
        let n: usize = self.args.paths.len();
        if n == 0 {
            proof {
                reveal_strlit(".");
                assert("."@ =~= seq!['.']);
            }
            self.pending_dirs.queue_directory(Some("."), None, true);
        }
        let ghost queue = self.pending_dirs@;
        let ghost start = old(self).listing();
        let mut i: usize = 0;
        while i < n
            invariant
                i <= n,
                n == probes@.len(),
                n == self.args.paths@.len(),
                self.wf(),
                self.listing() == resolved_arguments(
                    start,
                    self.args.long,
                    path_views(self.args.paths@),
                    probe_views(probes@),
                    i as nat,
                ),
                self.pending_dirs@ == queue,
                self.sorted_files == old(self).sorted_files,
                self.column_state == old(self).column_state,
                self.loop_manager == old(self).loop_manager,
                self.same_setup(old(self)),
            decreases n - i,
        {
            let path: String = self.args.paths[i].clone();
            gobble_file(self, path.as_str(), FileType::Unknown, 0, true, None, &probes[i]);
            i = i + 1;
        }
    }

    /// Empties the batch before the next directory is read, and starts its
    /// field widths afresh.
    pub fn clear_files(&mut self)
        ensures
            final(self).wf(),
            final(self).cwd_files@ == Seq::<FileInfo>::empty(),
            final(self).sorted_files@ == Seq::<usize>::empty(),
            final(self).format_info == fresh_format(old(self).args.long),
            final(self).column_state == old(self).column_state,
            final(self).same_setup(old(self)),
            final(self).same_queue(old(self)),
            final(self).same_outcome(old(self)),
            final(self).pending_dirs == old(self).pending_dirs,
            final(self).loop_manager == old(self).loop_manager,
    {
        self.sorted_files.clear();
        self.cwd_files.clear();
        if self.args.long {
            self.format_info = Some(FormatInfo::new());
        } else {
            self.format_info = None;
        }
    }

    /// Sorts the batch by name without regard to case; entries whose names
    /// differ in case only stay in the order in which they were found.
    pub fn sort_files(&mut self)
        ensures
            old(self).wf() ==> final(self).wf(),
            is_sorted_view(entry_views(old(self).cwd_files@), final(self).sorted_files@),
            final(self).cwd_files == old(self).cwd_files,
            final(self).format_info == old(self).format_info,
            final(self).column_state == old(self).column_state,
            final(self).same_setup(old(self)),
            final(self).same_queue(old(self)),
            final(self).same_outcome(old(self)),
            final(self).pending_dirs == old(self).pending_dirs,
            final(self).loop_manager == old(self).loop_manager,
    {
        self.sorted_files = self.cwd_files.sorted_files(SortType::Name);
    }

    /// Moves the directories of the sorted batch to the work list. With
    /// `dir_name` the batch is the content of that directory: in a recursive
    /// run its closing marker is queued first, and the entries `.` and `..`
    /// are not followed. The directories are queued last entry first, so
    /// that they are listed in sorted order. Directories that the caller
    /// named then leave the sorted view.
    pub fn extract_dirs_from_files(&mut self, dir_name: Option<&str>, command_line_arg: bool)
        requires
            old(self).wf(),
        ensures
            final(self).wf(),
            final(self).pending_dirs@ == (if dir_name is Some && old(self).args.recursive {
                old(self).pending_dirs@.push(marker_for(dir_name->0@))
            } else {
                old(self).pending_dirs@
            }) + dirs_reversed(
                entry_views(old(self).cwd_files@),
                old(self).sorted_files@,
                str_view(dir_name),
                command_line_arg,
            ),
            final(self).sorted_files@ == shown_entries(
                entry_views(old(self).cwd_files@),
                old(self).sorted_files@,
            ),
            final(self).cwd_files == old(self).cwd_files,
            final(self).format_info == old(self).format_info,
            final(self).column_state == old(self).column_state,
            final(self).loop_manager == old(self).loop_manager,
            final(self).same_setup(old(self)),
            final(self).same_outcome(old(self)),
    {
        let ignore_dot_and_dot_dot: bool = dir_name.is_some();
        let ghost files = entry_views(self.cwd_files@);
        let ghost order = self.sorted_files@;
        let ghost dir_view = str_view(dir_name);

        if dir_name.is_some() && self.args.recursive {
            self.pending_dirs.queue_directory(None, dir_name, false);
        }
        let ghost base = self.pending_dirs@;

        let n: usize = self.sorted_files.len();
        let mut k: usize = n;
        while k > 0
            invariant
                k <= n,
                n == order.len(),
                order == self.sorted_files@,
                files == entry_views(self.cwd_files@),
                dir_view == str_view(dir_name),
                ignore_dot_and_dot_dot == (dir_name is Some),
                forall|i: int| 0 <= i < order.len() ==> (#[trigger] order[i]) < files.len(),
                self.pending_dirs@ == base + dirs_reversed(
                    files,
                    order.skip(k as int),
                    dir_view,
                    command_line_arg,
                ),
                self.cwd_files == old(self).cwd_files,
                self.sorted_files == old(self).sorted_files,
                self.format_info == old(self).format_info,
                self.column_state == old(self).column_state,
                self.loop_manager == old(self).loop_manager,
                self.same_setup(old(self)),
                self.same_outcome(old(self)),
            decreases k,
        {
            k = k - 1;
            let f: &FileInfo = &self.cwd_files[self.sorted_files[k]];
            proof {
                assert(order.skip(k as int).drop_first() =~= order.skip(k + 1));
            }
            if f.is_directory() && (!ignore_dot_and_dot_dot || !basename_is_dot_or_dot_dot(
                f.name.as_str(),
            )) {
                let real_name: Option<&str> = match &f.link_name {
                    Some(s) => Some(s.as_str()),
                    None => None,
                };
                match dir_name {
                    Some(dir) if !starts_with_char(f.name.as_str(), '/') => {
                        let name: String = file_name_concat(dir, f.name.as_str());
                        self.pending_dirs.queue_directory(
                            Some(name.as_str()),
                            real_name,
                            command_line_arg,
                        );
                    },
                    _ => {
                        self.pending_dirs.queue_directory(
                            Some(f.name.as_str()),
                            real_name,
                            command_line_arg,
                        );
                    },
                }
            }
        }

        let ghost keep = |i: usize| files[i as int].file_type != FileType::ArgDirectory;
        let mut kept: Vec<usize> = Vec::with_capacity(n);
        let mut i: usize = 0;
        assert(order.take(0).filter(keep) =~= Seq::<usize>::empty()) by {
            reveal(Seq::filter);
        }
        while i < n
            invariant
                i <= n,
                n == order.len(),
                order == self.sorted_files@,
                files == entry_views(self.cwd_files@),
                keep == |i: usize| files[i as int].file_type != FileType::ArgDirectory,
                forall|a: int| 0 <= a < order.len() ==> (#[trigger] order[a]) < files.len(),
                kept@ == order.take(i as int).filter(keep),
                forall|a: int| 0 <= a < kept@.len() ==> (#[trigger] kept@[a]) < files.len(),
            decreases n - i,
        {
            let position: usize = self.sorted_files[i];
            proof {
                assert(order.take(i + 1) =~= order.take(i as int).push(position));
                order.take(i as int).lemma_filter_push(position, keep);
            }
            if self.cwd_files[position].file_type != FileType::ArgDirectory {
                kept.push(position);
            }
            i = i + 1;
        }
        assert(order.take(n as int) =~= order);
        self.sorted_files = kept;
    }

    /// Computes the column grids of the sorted batch and returns the number
    /// of columns to show it in: the largest candidate whose grid fits the
    /// line, one when none fits, zero when the batch is empty. The total
    /// width of the chosen grid stays within the line unless a single column
    /// already outgrows it.
    pub fn calculate_columns(&mut self, by_columns: bool) -> (cols: usize)
        requires
            old(self).wf(),
        ensures
            final(self).wf(),
            cols == best_columns(
                sorted_widths(entry_views(old(self).cwd_files@), old(self).sorted_files@),
                by_columns,
                old(self).print_info.line_length as nat,
                old(self).print_info.max_idx as nat,
            ),
            old(self).sorted_files@.len() > 0 ==> cols >= 1,
            grid_fits(
                sorted_widths(entry_views(old(self).cwd_files@), old(self).sorted_files@),
                by_columns,
                old(self).print_info.line_length as nat,
                cols as nat,
            ) || !grid_fits(
                sorted_widths(entry_views(old(self).cwd_files@), old(self).sorted_files@),
                by_columns,
                old(self).print_info.line_length as nat,
                1,
            ),
            final(self).column_state matches Some(state) && state.plans(
                sorted_widths(entry_views(old(self).cwd_files@), old(self).sorted_files@),
                by_columns,
                old(self).print_info.line_length as nat,
            ) && state.columns@.len() == candidate_count(
                old(self).sorted_files@.len(),
                old(self).print_info.line_length as nat,
                old(self).print_info.max_idx as nat,
            ) && (cols >= 2 ==> cols <= state.columns@.len() && state.columns@[cols - 1].valid_len),
            final(self).cwd_files == old(self).cwd_files,
            final(self).sorted_files == old(self).sorted_files,
            final(self).format_info == old(self).format_info,
            final(self).pending_dirs == old(self).pending_dirs,
            final(self).loop_manager == old(self).loop_manager,
            final(self).same_setup(old(self)),
            final(self).same_outcome(old(self)),
    {
        let file_count: usize = self.sorted_files.len();
        let ghost files = entry_views(self.cwd_files@);
        let ghost order = self.sorted_files@;
        let mut widths: Vec<usize> = Vec::with_capacity(file_count);
        let mut i: usize = 0;
        while i < file_count
            invariant
                i <= file_count,
                file_count == order.len(),
                order == self.sorted_files@,
                files == entry_views(self.cwd_files@),
                forall|a: int| 0 <= a < order.len() ==> (#[trigger] order[a]) < files.len(),
                widths@ == sorted_widths(files, order).take(i as int),
            decreases file_count - i,
        {
            widths.push(self.cwd_files[self.sorted_files[i]].width);
            i = i + 1;
        }
        assert(widths@ =~= sorted_widths(files, order));
        let (column_state, cols) = ColumnState::plan(
            &widths,
            self.print_info.line_length,
            self.print_info.max_idx,
            by_columns,
        );
        proof {
            lemma_best_within_budget(
                widths@,
                by_columns,
                self.print_info.line_length as nat,
                self.print_info.max_idx as nat,
            );
            if file_count > 0 {
                crate::print::layout::lemma_best_upto_range(
                    widths@,
                    by_columns,
                    self.print_info.line_length as nat,
                    candidate_count(
                        widths@.len(),
                        self.print_info.line_length as nat,
                        self.print_info.max_idx as nat,
                    ),
                );
            }
        }
        self.column_state = Some(column_state);
        cols
    }

    /// Whether a listing leaves out the name `file_name`.
    pub fn file_ignored(&self, file_name: &str) -> (hidden: bool)
        ensures
            hidden == ignored(self.ignore_mode, file_name@),
    {
        self.ignore_mode != IgnoreMode::IgnoreMinimal && starts_with_char(file_name, '.') && (
        self.ignore_mode == IgnoreMode::IgnoreDefault || dot_or_dot_dot(file_name))
    }
}

} // verus!

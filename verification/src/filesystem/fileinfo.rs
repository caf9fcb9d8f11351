//! One listed entry: its name, what is known of it, and its place in the
//! sorted view of its directory.

use vstd::prelude::*;
use crate::filesystem::order::{lemma_order_is_unique, orders, stable_order};
use crate::filesystem::pending::name_view;
use crate::text::{
    chars_of, contains_whitespace, display_width, has_white_space, key_le, lowercase, push_char,
    str_width, to_lowercase,
};

verus! {

/// The kind of an entry.
#[derive(Debug, Clone, Copy, PartialEq, Eq, Structural)]
pub enum FileType {
    Unknown,
    FIFO,
    CharDev,
    Directory,
    BlockDev,
    Normal,
    SymbolicLink,
    Sock,
    /// A directory that the caller named: it is listed, not shown as an
    /// entry.
    ArgDirectory,
}

impl Default for FileType {
    fn default() -> (file_type: Self)
        ensures
            file_type == FileType::Unknown,
    {
        FileType::Unknown
    }
}

/// What the system says of the kind of a file: one answer to each question.
#[derive(Debug, Clone, Copy, PartialEq, Eq, Structural)]
pub struct KindFlags {
    pub is_file: bool,
    pub is_dir: bool,
    pub is_symlink: bool,
    pub is_block_device: bool,
    pub is_char_device: bool,
    pub is_fifo: bool,
    pub is_socket: bool,
}

/// What the system knows of a file.
#[derive(Debug, Clone, Copy, PartialEq, Eq, Structural)]
pub struct FileStat {
    pub kind: KindFlags,
    /// Device the file lives on.
    pub dev: u64,
    pub ino: u64,
    pub nlink: u64,
    pub uid: u32,
    pub gid: u32,
    /// Device the file stands for, if it is a device.
    pub rdev: u64,
    pub size: u64,
    /// Size in blocks of 512 bytes.
    pub blocks: u64,
    /// Kind and permission bits.
    pub mode: u32,
    /// Last modification, in seconds since the epoch.
    pub mtime: i64,
}

impl FileType {
    /// The kind that the answers of the system stand for. A directory named
    /// by the caller is told apart from one found while listing.
    pub open spec fn classify(flags: KindFlags, cli_arg: bool) -> FileType {
        if flags.is_file {
            FileType::Normal
        } else if flags.is_dir {
            if cli_arg {
                FileType::ArgDirectory
            } else {
                FileType::Directory
            }
        } else if flags.is_symlink {
            FileType::SymbolicLink
        } else if flags.is_block_device {
            FileType::BlockDev
        } else if flags.is_char_device {
            FileType::CharDev
        } else if flags.is_fifo {
            FileType::FIFO
        } else if flags.is_socket {
            FileType::Sock
        } else {
            FileType::Unknown
        }
    }

    pub fn new(file_type: KindFlags, cli_arg: bool) -> (kind: Self)
        ensures
            kind == FileType::classify(file_type, cli_arg),
    {
        if file_type.is_file {
            FileType::Normal
        } else if file_type.is_dir {
            if cli_arg {
                FileType::ArgDirectory
            } else {
                FileType::Directory
            }
        } else if file_type.is_symlink {
            FileType::SymbolicLink
        } else if file_type.is_block_device {
            FileType::BlockDev
        } else if file_type.is_char_device {
            FileType::CharDev
        } else if file_type.is_fifo {
            FileType::FIFO
        } else if file_type.is_socket {
            FileType::Sock
        } else {
            FileType::default()
        }
    }

    /// The kind of the file that `metadata` describes.
    pub fn determine(metadata: &FileStat, cli_arg: bool) -> (kind: Self)
        ensures
            kind == FileType::classify(metadata.kind, cli_arg),
    {
        Self::new(metadata.kind, cli_arg)
    }

    /// Whether this is a directory, named by the caller or found.
    pub open spec fn is_dir(self) -> bool {
        self == FileType::Directory || self == FileType::ArgDirectory
    }
}

/// One entry of a listing.
#[derive(Debug)]
pub struct FileInfo {
    /// Name of the file.
    pub name: String,
    /// Name of the file linked to, if this is a symbolic link.
    pub link_name: Option<String>,
    /// Absent when the file could not be examined.
    pub metadata: Option<FileStat>,
    /// Inode of the file; zero for an argument of the caller.
    pub inode: u64,
    /// Kind of the entry.
    pub file_type: FileType,
    /// What is known of the target of a symbolic link.
    pub link_metadata: Option<FileStat>,
    /// Columns the name takes on screen, quotes counted.
    pub width: usize,
    /// Whether the name is shown in quotes.
    pub quoting: bool,
    /// The time of the last modification as the local clock shows it, where
    /// it is known.
    pub time_stamp: Option<String>,
}

/// The two quotes put round a name that holds white space.
pub open spec fn quote_pair() -> Seq<char> {
    seq!['\'', '\'']
}

/// Columns taken by the name `name` as it is shown: its own width, and that
/// of the quotes round it when it holds white space. A width beyond what a
/// `usize` holds is cut to the largest `usize`.
pub open spec fn shown_width(name: Seq<char>) -> usize {
    if has_white_space(name) {
        if display_width(name) + display_width(quote_pair()) <= usize::MAX {
            (display_width(name) + display_width(quote_pair())) as usize
        } else {
            usize::MAX
        }
    } else {
        display_width(name)
    }
}

/// The name as it is shown: in single quotes when it is quoted.
pub open spec fn shown_name(name: Seq<char>, quoting: bool) -> Seq<char> {
    if quoting {
        seq!['\''] + name + seq!['\'']
    } else {
        name
    }
}

/// An entry as plain values.
pub struct EntryView {
    pub name: Seq<char>,
    pub link_name: Option<Seq<char>>,
    pub metadata: Option<FileStat>,
    pub inode: u64,
    pub file_type: FileType,
    pub link_metadata: Option<FileStat>,
    pub width: usize,
    pub quoting: bool,
    pub time_stamp: Option<Seq<char>>,
}

impl View for FileInfo {
    type V = EntryView;

    open spec fn view(&self) -> EntryView {
        EntryView {
            name: self.name@,
            link_name: name_view(self.link_name),
            metadata: self.metadata,
            inode: self.inode,
            file_type: self.file_type,
            link_metadata: self.link_metadata,
            width: self.width,
            quoting: self.quoting,
            time_stamp: name_view(self.time_stamp),
        }
    }
}

/// The entry made of the given parts. Its width and its quoting follow from
/// the name and are fixed when the entry is made; its time stamp is not yet
/// known.
pub open spec fn entry_of(
    name: Seq<char>,
    link_name: Option<Seq<char>>,
    metadata: Option<FileStat>,
    link_metadata: Option<FileStat>,
    inode: u64,
    file_type: FileType,
) -> EntryView {
    EntryView {
        name,
        link_name,
        metadata,
        inode,
        file_type,
        link_metadata,
        width: shown_width(name),
        quoting: has_white_space(name),
        time_stamp: None,
    }
}

/// The views of the entries of a batch.
pub open spec fn entry_views(files: Seq<FileInfo>) -> Seq<EntryView> {
    Seq::new(files.len(), |i: int| files[i]@)
}

impl FileInfo {
    pub fn new(
        name: String,
        link_name: Option<String>,
        metadata: Option<FileStat>,
        link_metadata: Option<FileStat>,
        inode: u64,
        file_type: FileType,
    ) -> (info: Self)
        ensures
            info@ == entry_of(name@, name_view(link_name), metadata, link_metadata, inode, file_type),
    {
        let quoting = contains_whitespace(name.as_str());
        let own: usize = str_width(name.as_str());
        let width: usize = if quoting {
            proof {
                reveal_strlit("''");
                assert("''"@ =~= quote_pair());
            }
            own.saturating_add(str_width("''"))
        } else {
            own
        };
        FileInfo {
            name,
            link_name,
            metadata,
            inode,
            link_metadata,
            file_type,
            width,
            quoting,
            time_stamp: None,
        }
    }

    pub fn is_directory(&self) -> (dir: bool)
        ensures
            dir == self.file_type.is_dir(),
    {
        match &self.file_type {
            FileType::Directory | FileType::ArgDirectory => true,
            _ => false,
        }
    }

    /// The name as it is shown: in single quotes when it is quoted.
    pub fn quoted_name(&self) -> (shown: String)
        ensures
            shown@ == shown_name(self.name@, self.quoting),
    {
        if self.quoting {
            let mut shown = String::new();
            push_char(&mut shown, '\'');
            shown.append(self.name.as_str());
            push_char(&mut shown, '\'');
            shown
        } else {
            self.name.clone()
        }
    }
}

/// What the entries of a directory are sorted by.
#[derive(Debug, Clone, Copy, PartialEq, Eq, Structural)]
pub enum SortType {
    /// By name, without regard to case.
    Name,
}

/// The key an entry is sorted by: its name in lowercase, so that case plays
/// no part.
pub open spec fn sort_key(name: Seq<char>) -> Seq<char> {
    lowercase(name)
}

/// The sort keys of `files`.
pub open spec fn sort_keys(files: Seq<EntryView>) -> Seq<Seq<char>> {
    Seq::new(files.len(), |i: int| sort_key(files[i].name))
}

/// `order` is the sorted view of `files`: it lists the position of every
/// entry once, by ascending key, and entries with equal keys in the order in
/// which they were found.
pub open spec fn is_sorted_view(files: Seq<EntryView>, order: Seq<usize>) -> bool {
    orders(sort_keys(files), order)
}

/// The sort is insensitive to case and stable, and that settles it: entries
/// are ranked by their names in lowercase alone, entries with the same
/// lowercase name stay in the order in which they were found, and no other
/// list of positions is a sorted view of the batch.
pub proof fn lemma_sort_is_case_insensitive_and_stable(
    files: Seq<EntryView>,
    order: Seq<usize>,
    other: Seq<usize>,
)
    requires
        is_sorted_view(files, order),
    ensures
        forall|i: int, j: int|
            0 <= i < j < order.len() ==> key_le(
                lowercase(files[order[i] as int].name),
                lowercase(files[order[j] as int].name),
            ),
        forall|i: int, j: int|
            0 <= i < j < order.len() && lowercase(files[order[i] as int].name) == lowercase(
                files[order[j] as int].name,
            ) ==> order[i] < order[j],
        is_sorted_view(files, other) ==> other == order,
{
    if is_sorted_view(files, other) {
        lemma_order_is_unique(sort_keys(files), order, other);
    }
}

/// Names that differ in case only are interchangeable: a batch whose names
/// have the same lowercase forms has the same sorted views.
pub proof fn lemma_sort_ignores_case(a: Seq<EntryView>, b: Seq<EntryView>, order: Seq<usize>)
    requires
        a.len() == b.len(),
        forall|i: int| 0 <= i < a.len() ==> lowercase(a[i].name) == lowercase(b[i].name),
    ensures
        is_sorted_view(a, order) == is_sorted_view(b, order),
{
}

/// Collections of entries that can be viewed in sorted order.
pub trait SortedFileInfoCollection {
    /// The positions of the entries, in the order asked for.
    fn sorted_files(&self, sort_type: SortType) -> Vec<usize>;
}

impl SortedFileInfoCollection for Vec<FileInfo> {
    fn sorted_files(&self, sort_type: SortType) -> (out: Vec<usize>)
        ensures
            is_sorted_view(entry_views(self@), out@),
    {
        let mut keys: Vec<Vec<char>> = Vec::with_capacity(self.len());
        let mut i: usize = 0;
        while i < self.len()
            invariant
                i <= self@.len(),
                keys@.len() == i,
                forall|a: int| 0 <= a < i ==> (#[trigger] keys@[a])@ == sort_key(self@[a].name@),
            decreases self@.len() - i,
        {
            let lower = to_lowercase(self[i].name.as_str());
            keys.push(chars_of(lower.as_str()));
            i = i + 1;
        }
        match sort_type {
            SortType::Name => stable_order(&keys),
        }
    }
}

} // verus!

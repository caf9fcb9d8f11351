//! Names, identities and the work list of the traversal.

pub mod dev_ino;
pub mod error;
pub mod fileinfo;
pub mod ignore_mode;
pub mod loop_manager;
pub mod order;
pub mod pending;
pub mod resolve;

pub use self::error::{Error, Result};
pub use self::loop_manager::LoopManager;
pub use self::pending::{Pending, PendingList};
pub use self::resolve::{
    check_stat, gobble_file, link_base, probe_request, LinkProbe, Probe, ProbeRequest,
};
pub use self::fileinfo::{FileInfo, FileStat, FileType, KindFlags, SortType, SortedFileInfoCollection};

use vstd::prelude::*;
use vstd::utf8::{decode_utf8, valid_utf8};
use crate::filesystem::error::ErrorView;
use crate::text::{chars_of, ends_with_char, lossy_text, starts_with_char, utf8_lossy, utf8_text};

verus! {

/// The name is `.` or `..`.
pub open spec fn is_dot_or_dot_dot(name: Seq<char>) -> bool {
    name == seq!['.'] || name == seq!['.', '.']
}

/// Where the last component of the path `s` starts: behind its last slash, or
/// at its start when it has none.
pub open spec fn component_start(s: Seq<char>) -> int
    decreases s.len(),
{
    if s.len() == 0 {
        0
    } else if s.last() == '/' {
        s.len() as int
    } else {
        component_start(s.drop_last())
    }
}

/// What follows the last slash of the path `s`; all of it when it has none.
pub open spec fn last_component_of(s: Seq<char>) -> Seq<char> {
    s.skip(component_start(s))
}

/// The path of `file` inside the directory `dir`: the two joined by exactly
/// one slash.
pub open spec fn concat_names(dir: Seq<char>, file: Seq<char>) -> Seq<char> {
    if dir.len() > 0 && dir.last() == '/' {
        dir + file
    } else {
        dir + seq!['/'] + file
    }
}

/// The path `rel` as seen from `dir`. An absolute path stands for itself; a
/// relative one is put behind the directory, with a slash between them
/// unless the directory is empty or ends in one.
pub open spec fn joined(dir: Option<Seq<char>>, rel: Seq<char>) -> Seq<char> {
    match dir {
        None => rel,
        Some(d) => if rel.len() > 0 && rel[0] == '/' {
            rel
        } else if d.len() == 0 || d.last() == '/' {
            d + rel
        } else {
            d + seq!['/'] + rel
        },
    }
}

/// Major number of the device `dev`.
pub open spec fn major_of(dev: u64) -> u64 {
    (dev >> 8) & 0xfff
}

/// Minor number of the device `dev`.
pub open spec fn minor_of(dev: u64) -> u64 {
    (dev & 0xff) | ((dev >> 12) & 0xffffff00)
}

/// The text of a path given as bytes, if they are UTF-8.
pub fn pathname_to_string(path: &Vec<u8>) -> (text: Result<String>)
    ensures
        match text {
            Ok(s) => valid_utf8(path@) && s@ == decode_utf8(path@),
            Err(e) => !valid_utf8(path@) && e@ == (ErrorView::PathInvalidUTF8Error {
                path: lossy_text(path@),
            }),
        },
{
    match utf8_text(path) {
        Some(s) => Ok(s),
        None => Err(Error::PathInvalidUTF8Error { path: utf8_lossy(path) }),
    }
}

/// The text of a name read from the directory `pending`, if its bytes are
/// UTF-8.
pub fn file_name_to_string(pending: &Pending, file_name: &Vec<u8>) -> (text: Result<String>)
    requires
        pending.name is Some,
    ensures
        match text {
            Ok(s) => valid_utf8(file_name@) && s@ == decode_utf8(file_name@),
            Err(e) => !valid_utf8(file_name@) && e@ == (ErrorView::FileInvalidUTF8Error {
                path: pending.name->0@,
            }),
        },
{
    match utf8_text(file_name) {
        Some(name) => Ok(name),
        None => Err(Error::FileInvalidUTF8Error { path: pending.get_name().to_owned() }),
    }
}

/// Resolves the path `rel_path` against `directory`, if there is one.
pub fn resolve_path(rel_path: &str, directory: Option<&str>) -> (path: String)
    ensures
        path@ == joined(crate::filesystem::pending::str_view(directory), rel_path@),
{
    match directory {
        None => rel_path.to_owned(),
        Some(dir) => {
            if starts_with_char(rel_path, '/') {
                rel_path.to_owned()
            } else if dir.unicode_len() == 0 || ends_with_char(dir, '/') {
                let mut path = dir.to_owned();
                path.append(rel_path);
                path
            } else {
                file_name_concat(dir, rel_path)
            }
        },
    }
}

/// What follows the last slash of `path`.
pub fn last_component(path: &str) -> (component: &str)
    ensures
        component@ == last_component_of(path@),
{
    let chars = chars_of(path);
    let n: usize = chars.len();
    let mut i: usize = n;
    assert(path@.take(n as int) =~= path@);
    while i > 0 && chars[i - 1] != '/'
        invariant
            i <= n,
            n == chars@.len(),
            chars@ == path@,
            component_start(path@) == component_start(path@.take(i as int)),
        decreases i,
    {
        assert(path@.take(i as int).drop_last() =~= path@.take(i - 1));
        i = i - 1;
    }
    path.substring_char(i, n)
}

pub fn dot_or_dot_dot(name: &str) -> (dots: bool)
    ensures
        dots == is_dot_or_dot_dot(name@),
{
    let n: usize = name.unicode_len();
    if n == 1 {
        let dots = name.get_char(0) == '.';
        assert(dots ==> name@ =~= seq!['.']);
        dots
    } else if n == 2 {
        let dots = name.get_char(0) == '.' && name.get_char(1) == '.';
        assert(dots ==> name@ =~= seq!['.', '.']);
        dots
    } else {
        false
    }
}

pub fn basename_is_dot_or_dot_dot(dir_name: &str) -> (dots: bool)
    ensures
        dots == is_dot_or_dot_dot(last_component_of(dir_name@)),
{
    dot_or_dot_dot(last_component(dir_name))
}

pub fn file_name_concat(dirname: &str, filename: &str) -> (path: String)
    ensures
        path@ == concat_names(dirname@, filename@),
{
    let mut path = dirname.to_owned();
    if !ends_with_char(dirname, '/') {
        crate::text::push_char(&mut path, '/');
    }
    path.append(filename);
    path
}

fn major(dev: u64) -> (number: u64)
    ensures
        number == major_of(dev),
{
    (dev >> 8) & 0xfff
}

fn minor(dev: u64) -> (number: u64)
    ensures
        number == minor_of(dev),
{
    (dev & 0xff) | ((dev >> 12) & 0xffffff00)
}

/// Major and minor number of the device `dev`.
pub fn get_major_and_minor(dev: u64) -> (numbers: (u64, u64))
    ensures
        numbers == (major_of(dev), minor_of(dev)),
{
    (major(dev), minor(dev))
}

} // verus!

//! The text of the fields of a listing: numbers, permission bits, colours.

use vstd::prelude::*;
use crate::filesystem::fileinfo::{FileStat, FileType};
use crate::filesystem::{major_of, minor_of};
use crate::print::format_info::FormatInfo;
use crate::text::push_char;

verus! {

/// `count` blanks.
pub open spec fn blanks(count: nat) -> Seq<char> {
    Seq::new(count, |i: int| ' ')
}

/// The decimal digit `d` as a character.
pub open spec fn digit_char(d: nat) -> char {
    if d == 0 {
        '0'
    } else if d == 1 {
        '1'
    } else if d == 2 {
        '2'
    } else if d == 3 {
        '3'
    } else if d == 4 {
        '4'
    } else if d == 5 {
        '5'
    } else if d == 6 {
        '6'
    } else if d == 7 {
        '7'
    } else if d == 8 {
        '8'
    } else {
        '9'
    }
}

/// The number `n` written in decimal.
pub open spec fn decimal(n: nat) -> Seq<char>
    decreases n,
{
    if n < 10 {
        seq![digit_char(n)]
    } else {
        decimal(n / 10).push(digit_char(n % 10))
    }
}

/// `text` moved to the right edge of a field `width` wide; a text wider than
/// the field is left as it is.
pub open spec fn right_aligned(text: Seq<char>, width: nat) -> Seq<char> {
    if text.len() < width {
        blanks((width - text.len()) as nat) + text
    } else {
        text
    }
}

/// The letter that stands for the kind of an entry in the long format.
pub open spec fn kind_letter(file_type: FileType) -> char {
    match file_type {
        FileType::Normal => '-',
        FileType::Directory | FileType::ArgDirectory => 'd',
        FileType::SymbolicLink => 'l',
        FileType::BlockDev => 'b',
        FileType::CharDev => 'c',
        FileType::FIFO => 'p',
        FileType::Sock => 's',
        FileType::Unknown => '?',
    }
}

/// The three letters of one group of permission bits.
pub open spec fn triad(bits: u32) -> Seq<char> {
    seq![
        if bits & 4 != 0 {
            'r'
        } else {
            '-'
        },
        if bits & 2 != 0 {
            'w'
        } else {
            '-'
        },
        if bits & 1 != 0 {
            'x'
        } else {
            '-'
        },
    ]
}

/// The nine permission letters of `mode`: owner, group, others.
pub open spec fn permission_letters(mode: u32) -> Seq<char> {
    triad(mode >> 6) + triad(mode >> 3) + triad(mode)
}

/// The first field of a long line: the kind letter and the permission
/// letters, or question marks where nothing is known.
pub open spec fn permission_text(metadata: Option<FileStat>, file_type: FileType) -> Seq<char> {
    seq![kind_letter(file_type)] + match metadata {
        Some(m) => permission_letters(m.mode),
        None => Seq::new(9, |i: int| '?'),
    }
}

/// Some execute bit of `mode` is set.
pub open spec fn executable(metadata: Option<FileStat>) -> bool {
    match metadata {
        Some(m) => m.mode & 0o111 != 0,
        None => false,
    }
}

/// A number field of a long line: the number, or a question mark where
/// nothing is known, at the right edge of the field.
pub open spec fn number_field(number: Option<nat>, width: nat) -> Seq<char> {
    right_aligned(
        match number {
            Some(n) => decimal(n),
            None => seq!['?'],
        },
        width,
    )
}

/// The size field of a long line. A device shows its major and minor
/// numbers, each in a field of its own, with a comma and a blank between
/// them.
pub open spec fn size_text(metadata: Option<FileStat>, format_info: FormatInfo) -> Seq<char> {
    match metadata {
        Some(m) => if m.kind.is_block_device || m.kind.is_char_device {
            right_aligned(decimal(major_of(m.dev) as nat), format_info.major_length as nat) + seq![
                ',',
                ' ',
            ] + right_aligned(decimal(minor_of(m.dev) as nat), format_info.minor_length as nat)
        } else {
            right_aligned(decimal(m.size as nat), format_info.file_size_length as nat)
        },
        None => right_aligned(seq!['?'], format_info.file_size_length as nat),
    }
}

/// The field shown where no time is known: a question mark at the right edge
/// of nineteen columns.
pub open spec fn no_time_stamp() -> Seq<char> {
    blanks(18).push('?')
}

/// The time field of a long line.
pub open spec fn time_stamp_text(metadata: Option<FileStat>, stamp: Option<Seq<char>>) -> Seq<char> {
    match (metadata, stamp) {
        (Some(_), Some(text)) => text,
        _ => no_time_stamp(),
    }
}

/// The escape sequence that starts bold green.
pub open spec fn green() -> Seq<char> {
    seq!['\x1b', '[', '1', ';', '3', '2', 'm']
}

/// The escape sequence that starts bold blue.
pub open spec fn blue() -> Seq<char> {
    seq!['\x1b', '[', '1', ';', '3', '4', 'm']
}

/// The escape sequence that starts bold cyan.
pub open spec fn cyan() -> Seq<char> {
    seq!['\x1b', '[', '1', ';', '3', '6', 'm']
}

/// The escape sequence that ends a colour.
pub open spec fn reset() -> Seq<char> {
    seq!['\x1b', '[', '0', 'm']
}

/// The name in the colour of its kind: directories blue, symbolic links
/// cyan, executable files green, everything else plain.
pub open spec fn painted(name: Seq<char>, metadata: Option<FileStat>, file_type: FileType) -> Seq<
    char,
> {
    match file_type {
        FileType::Directory | FileType::ArgDirectory => blue() + name + reset(),
        FileType::SymbolicLink => cyan() + name + reset(),
        _ => if executable(metadata) {
            green() + name + reset()
        } else {
            name
        },
    }
}

/// What a long line shows of the target of a link: an arrow and the name of
/// the target, if it is known.
pub open spec fn target_suffix(link_name: Option<Seq<char>>) -> Seq<char> {
    match link_name {
        Some(target) => seq!['-', '>', ' '] + target,
        None => Seq::empty(),
    }
}

/// Appends `count` blanks to `line`.
pub fn push_blanks(line: &mut String, count: usize)
    ensures
        final(line)@ == old(line)@ + blanks(count as nat),
{
    let mut i: usize = 0;
    while i < count
        invariant
            i <= count,
            line@ == old(line)@ + blanks(i as nat),
        decreases count - i,
    {
        push_char(line, ' ');
        i = i + 1;
    }
}

/// Appends the blanks that take the cursor from column `from` to column
/// `to`; none when it is there already.
pub fn indent(line: &mut String, from: usize, to: usize)
    ensures
        final(line)@ == old(line)@ + blanks(
            if from < to {
                (to - from) as nat
            } else {
                0
            },
        ),
{
    if from < to {
        push_blanks(line, to - from);
    }
}

fn digit_of(d: u64) -> (c: char)
    requires
        d < 10,
    ensures
        c == digit_char(d as nat),
{
    if d == 0 {
        '0'
    } else if d == 1 {
        '1'
    } else if d == 2 {
        '2'
    } else if d == 3 {
        '3'
    } else if d == 4 {
        '4'
    } else if d == 5 {
        '5'
    } else if d == 6 {
        '6'
    } else if d == 7 {
        '7'
    } else if d == 8 {
        '8'
    } else {
        '9'
    }
}

/// The digits of `n`, most significant first.
pub fn decimal_digits(n: u64) -> (text: Vec<char>)
    ensures
        text@ == decimal(n as nat),
    decreases n,
{
    if n < 10 {
        let mut text: Vec<char> = Vec::new();
        text.push(digit_of(n));
        text
    } else {
        let mut text = decimal_digits(n / 10);
        text.push(digit_of(n % 10));
        text
    }
}

/// Appends `text` to `line`, moved to the right edge of a field `width`
/// wide.
pub fn push_right_aligned(line: &mut String, text: &Vec<char>, width: usize)
    ensures
        final(line)@ == old(line)@ + right_aligned(text@, width as nat),
{
    if text.len() < width {
        push_blanks(line, width - text.len());
    }
    let ghost padded = line@;
    let mut i: usize = 0;
    while i < text.len()
        invariant
            i <= text@.len(),
            line@ == padded + text@.take(i as int),
        decreases text@.len() - i,
    {
        push_char(line, text[i]);
        i = i + 1;
    }
}

/// Appends a number field: `number`, or a question mark in its place.
pub fn push_number_field(line: &mut String, number: Option<u64>, width: usize)
    ensures
        final(line)@ == old(line)@ + number_field(
            match number {
                Some(n) => Some(n as nat),
                None => None,
            },
            width as nat,
        ),
{
    let text: Vec<char> = match number {
        Some(n) => decimal_digits(n),
        None => {
            let mut mark: Vec<char> = Vec::new();
            mark.push('?');
            mark
        },
    };
    push_right_aligned(line, &text, width);
}

/// The letter that stands for the kind of an entry in the long format.
pub fn file_type_to_string(file_type: &FileType) -> (letter: char)
    ensures
        letter == kind_letter(*file_type),
{
    match file_type {
        FileType::Normal => '-',
        FileType::Directory | FileType::ArgDirectory => 'd',
        FileType::SymbolicLink => 'l',
        FileType::BlockDev => 'b',
        FileType::CharDev => 'c',
        FileType::FIFO => 'p',
        FileType::Sock => 's',
        _ => '?',
    }
}

fn push_triad(line: &mut String, bits: u32)
    ensures
        final(line)@ == old(line)@ + triad(bits),
{
    push_char(
        line,
        if bits & 4 != 0 {
            'r'
        } else {
            '-'
        },
    );
    push_char(
        line,
        if bits & 2 != 0 {
            'w'
        } else {
            '-'
        },
    );
    push_char(
        line,
        if bits & 1 != 0 {
            'x'
        } else {
            '-'
        },
    );
}

/// The kind letter and the permission letters of an entry.
pub fn permissions_to_string(metadata: Option<&FileStat>, file_type: &FileType) -> (text: String)
    ensures
        text@ == permission_text(
            match metadata {
                Some(m) => Some(*m),
                None => None,
            },
            *file_type,
        ),
{
    let mut out = String::new();
    push_char(&mut out, file_type_to_string(file_type));
    match metadata {
        Some(metadata) => {
            let mode: u32 = metadata.mode;
            push_triad(&mut out, mode >> 6);
            push_triad(&mut out, mode >> 3);
            push_triad(&mut out, mode);
        },
        None => {
            let mut i: usize = 0;
            while i < 9
                invariant
                    i <= 9,
                    out@ == seq![kind_letter(*file_type)] + Seq::new(i as nat, |i: int| '?'),
                decreases 9 - i,
            {
                push_char(&mut out, '?');
                i = i + 1;
            }
        },
    }
    out
}

/// Whether some execute bit is set.
pub fn is_executable(metadata: Option<&FileStat>) -> (yes: bool)
    ensures
        yes == executable(
            match metadata {
                Some(m) => Some(*m),
                None => None,
            },
        ),
{
    match metadata {
        Some(metadata) => metadata.mode & 0o111 != 0,
        None => false,
    }
}

} // verus!

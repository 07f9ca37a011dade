//! Looking up lines and columns of files when reporting diagnostics.

use vstd::prelude::*;
use vstd::string::*;
use vstd::utf8::{encode_utf8, is_char_boundary};

use crate::english::{nat_decimal, push_decimal};
use crate::in_memory_file::{InMemoryFile, LineTooLargeError};
use crate::in_memory_file_storage::{storable, InMemoryFileStorage};
use crate::interner::PathId;
use crate::lines::is_line_of;
use crate::text::push_str;
use crate::location::{ByteOffset, Location};

verus! {

/// The type of the errors of I/O operations.
#[verifier::external_type_specification]
#[verifier::external_body]
pub struct ExIoError(std::io::Error);

/// An error that happened while looking up a file or a piece of content in that file.
#[derive(Debug)]
pub enum Error {
    /// A required file is not in the file database.
    FileMissing,
    /// The file is present, but does not contain the specified byte index.
    IndexTooLarge {
        /// The given byte index.
        given: usize,
        /// The maximum byte index.
        max: usize,
    },
    /// The file is present, but does not contain the specified line index.
    LineTooLarge {
        /// The given line index.
        given: usize,
        /// The maximum line index.
        max: usize,
    },
    /// The file is present and contains the specified line index, but the line does not contain
    /// the specified column index.
    ColumnTooLarge {
        /// The given column index.
        given: usize,
        /// The maximum column index.
        max: usize,
    },
    /// The given index is contained in the file, but is not a boundary of a UTF-8 code point.
    InvalidCharBoundary {
        /// The given index.
        given: usize,
    },
    /// There was a error while doing IO.
    Io(std::io::Error),
}

/// The text of an I/O error, as `std::io::Error` displays it (the text
/// the operating system gives for the error).
#[verifier::external_body]
fn io_error_text(e: &std::io::Error) -> String {
    format!("{e}")
}

impl Error {
    /// How an error other than an I/O error is described to the user.
    pub open spec fn text(&self) -> Seq<char> {
        match self {
            Error::FileMissing => "file missing"@,
            Error::IndexTooLarge { given, max } => "invalid index "@ + nat_decimal(*given as nat)
                + ", maximum index is "@ + nat_decimal(*max as nat),
            Error::LineTooLarge { given, max } => "invalid line "@ + nat_decimal(*given as nat)
                + ", maximum line is "@ + nat_decimal(*max as nat),
            Error::ColumnTooLarge { given, max } => "invalid column "@ + nat_decimal(*given as nat)
                + ", maximum column "@ + nat_decimal(*max as nat),
            Error::InvalidCharBoundary { .. } => "index is not a code point boundary"@,
            Error::Io(_) => Seq::empty(),
        }
    }

    /// Describes the error to the user.
    pub fn to_string(&self) -> (r: String)
        ensures
            !(self is Io) ==> r@ == self.text(),
    {
        let mut r = String::new();
        match self {
            Error::FileMissing => {
                push_str(&mut r, "file missing");
            },
            Error::IndexTooLarge { given, max } => {
                push_str(&mut r, "invalid index ");
                push_decimal(&mut r, *given as u64);
                push_str(&mut r, ", maximum index is ");
                push_decimal(&mut r, *max as u64);
            },
            Error::LineTooLarge { given, max } => {
                push_str(&mut r, "invalid line ");
                push_decimal(&mut r, *given as u64);
                push_str(&mut r, ", maximum line is ");
                push_decimal(&mut r, *max as u64);
            },
            Error::ColumnTooLarge { given, max } => {
                push_str(&mut r, "invalid column ");
                push_decimal(&mut r, *given as u64);
                push_str(&mut r, ", maximum column ");
                push_decimal(&mut r, *max as u64);
            },
            Error::InvalidCharBoundary { .. } => {
                push_str(&mut r, "index is not a code point boundary");
            },
            Error::Io(e) => {
                return io_error_text(e);
            },
        }
        assert(r@ =~= self.text());
        r
    }

    /// The error for a line index past the end of a file.
    pub fn from_line_too_large(value: LineTooLargeError) -> (r: Self)
        ensures
            r == (Error::LineTooLarge { given: value.given, max: value.max }),
    {
        Error::LineTooLarge { given: value.given, max: value.max }
    }
}

/// A user-facing location in a source file.
#[derive(Debug, Copy, Clone, PartialEq, Eq, Structural)]
pub struct ResolvedLocation {
    /// The user-facing line number.
    pub line_number: usize,
    /// The user-facing column number.
    pub column_number: usize,
}

/// The number of indices `i` in `lo..hi` such that `i + 1` is a character
/// boundary of `bytes`: the number of characters that end in that range.
pub open spec fn boundaries_between(bytes: Seq<u8>, lo: int, hi: int) -> nat
    decreases hi - lo,
{
    if hi <= lo {
        0
    } else {
        boundaries_between(bytes, lo, hi - 1) + if is_char_boundary(bytes, hi) {
            1nat
        } else {
            0nat
        }
    }
}

/// The smaller of two integers.
pub open spec fn min(a: int, b: int) -> int {
    if a <= b {
        a
    } else {
        b
    }
}

/// The column index at the given byte index in the source file: the number
/// of characters from the start of the line to the byte index. A byte
/// index before the start of the line gives `0`; one past the end of the
/// line gives the column after the last character.
pub fn column_index(source: &str, location: Location, byte_offset: ByteOffset) -> (r: usize)
    ensures
        r == boundaries_between(
            source.spec_bytes(),
            location.start.0 as int,
            min(byte_offset.0 as int, min(location.end.0 as int, source.spec_bytes().len() as int)),
        ),
{
    let len = source.as_bytes().len();
    let inner = if location.end.0 <= len {
        location.end.0
    } else {
        len
    };
    let end_index = if byte_offset.0 <= inner {
        byte_offset.0
    } else {
        inner
    };
    let mut count: usize = 0;
    let mut i = location.start.0;
    while i < end_index
        invariant
            location.start.0 <= i,
            end_index <= len,
            len == source.spec_bytes().len(),
            i <= end_index || i == location.start.0,
            count == boundaries_between(source.spec_bytes(), location.start.0 as int, i as int),
            count <= i - location.start.0,
        decreases end_index - i,
    {
        if source.is_char_boundary(i + 1) {
            count = count + 1;
        }
        i = i + 1;
    }
    assert(end_index as int == min(
        byte_offset.0 as int,
        min(location.end.0 as int, source.spec_bytes().len() as int),
    ));
    assert(location.start.0 <= end_index ==> i == end_index);
    count
}

/// The byte offset at which the line with the index starts in the file; the
/// index one past the last line gives the end of the source.
pub open spec fn line_start_of(file: InMemoryFile, line_index: int) -> int {
    if line_index < file.line_starts@.len() {
        file.line_starts@[line_index] as int
    } else {
        file.source_len as int
    }
}

/// The byte range of the line with the index in the file, or why there is
/// none: the index, or the one after it, is past the line after the last.
pub open spec fn line_location_in(file: InMemoryFile, filepath: PathId, line_index: usize) -> Result<
    Location,
    Error,
> {
    let n = file.line_starts@.len();
    if line_index > n {
        Err(Error::LineTooLarge { given: line_index, max: (n - 1) as usize })
    } else if line_index == n {
        Err(Error::LineTooLarge { given: (line_index + 1) as usize, max: (n - 1) as usize })
    } else {
        Ok(
            Location {
                filepath,
                start: ByteOffset(line_start_of(file, line_index as int) as usize),
                end: ByteOffset(line_start_of(file, line_index + 1) as usize),
            },
        )
    }
}

impl InMemoryFileStorage {
    /// The byte range of a line in a file of the storage, or why there is
    /// none.
    pub open spec fn line_location_of(&self, filepath: PathId, line_index: usize) -> Result<
        Location,
        Error,
    > {
        if self@.contains_key(filepath) {
            line_location_in(self@[filepath], filepath, line_index)
        } else {
            Err(Error::FileMissing)
        }
    }

    /// The user-facing name of a file: its path.
    pub fn name(&self, filepath: PathId) -> (r: Result<String, Error>)
        ensures
            match r {
                Ok(name) => self@.contains_key(filepath) && name@ == self@[filepath].path@,
                Err(e) => !self@.contains_key(filepath) && e is FileMissing,
            },
    {
        match self.resolve_file(filepath) {
            Some(file) => Ok(file.path.clone()),
            None => Err(Error::FileMissing),
        }
    }

    /// The source code of a file.
    pub fn source(&self, filepath: PathId) -> (r: Result<&str, Error>)
        ensures
            match r {
                Ok(source) => self@.contains_key(filepath) && source@ == self@[filepath].source@
                    && storable(self@[filepath]),
                Err(e) => !self@.contains_key(filepath) && e is FileMissing,
            },
    {
        match self.resolve_file(filepath) {
            Some(file) => Ok(file.source.as_str()),
            None => Err(Error::FileMissing),
        }
    }

    /// The index of the line at the given byte index: the last line that
    /// starts at or before it.
    pub fn line_index(&self, filepath: PathId, byte_offset: ByteOffset) -> (r: Result<usize, Error>)
        ensures
            match r {
                Ok(index) => self@.contains_key(filepath) && storable(self@[filepath]) && is_line_of(
                    self@[filepath].line_starts@,
                    byte_offset.0 as int,
                    index as int,
                ),
                Err(e) => !self@.contains_key(filepath) && e is FileMissing,
            },
    {
        match self.resolve_file(filepath) {
            Some(file) => Ok(file.get_line_index_by_byte_index(byte_offset)),
            None => Err(Error::FileMissing),
        }
    }

    /// The user-facing line number at the given byte index: one more than
    /// the line index.
    pub fn line_number(&self, filepath: PathId, byte_offset: ByteOffset) -> (r: Result<usize, Error>)
        ensures
            match r {
                Ok(number) => self@.contains_key(filepath) && number >= 1 && is_line_of(
                    self@[filepath].line_starts@,
                    byte_offset.0 as int,
                    number - 1,
                ),
                Err(e) => !self@.contains_key(filepath) && e is FileMissing,
            },
    {
        match self.resolve_file(filepath) {
            Some(file) => Ok(file.get_line_index_by_byte_index(byte_offset) + 1),
            None => Err(Error::FileMissing),
        }
    }

    /// The byte range of line in the source of the file.
    pub fn line_location(&self, filepath: PathId, line_index: usize) -> (r: Result<Location, Error>)
        ensures
            r == self.line_location_of(filepath, line_index),
    {
        match self.resolve_file(filepath) {
            None => Err(Error::FileMissing),
            Some(file) => {
                let line_start = match file.get_line_start_by_index(line_index) {
                    Ok(start) => start,
                    Err(e) => return Err(Error::from_line_too_large(e)),
                };
                let next_line_start = match file.get_line_start_by_index(line_index + 1) {
                    Ok(start) => start,
                    Err(e) => return Err(Error::from_line_too_large(e)),
                };
                Ok(Location { filepath, start: line_start, end: next_line_start })
            },
        }
    }

    /// The user-facing column number at the given line index and byte index:
    /// one more than the number of characters from the start of the line to
    /// the byte index.
    pub fn column_number(&self, filepath: PathId, line_index: usize, byte_offset: ByteOffset) -> (r:
        Result<usize, Error>)
        ensures
            match self.line_location_of(filepath, line_index) {
                Err(e) => r == Err::<usize, Error>(e),
                Ok(line) => r matches Ok(column) && column == boundaries_between(
                    encode_utf8(self@[filepath].source@),
                    line.start.0 as int,
                    min(
                        byte_offset.0 as int,
                        min(line.end.0 as int, self@[filepath].source_len as int),
                    ),
                ) + 1,
            },
    {
        let source = match self.source(filepath) {
            Ok(source) => source,
            Err(e) => return Err(e),
        };
        let line_range = match self.line_location(filepath, line_index) {
            Ok(line) => line,
            Err(e) => return Err(e),
        };
        let column = column_index(source, line_range, byte_offset);
        proof {
            assert(source.spec_bytes() == encode_utf8(self@[filepath].source@));
            lemma_boundaries_bounded(source.spec_bytes(), line_range.start.0 as int,
                min(byte_offset.0 as int, min(line_range.end.0 as int, source.spec_bytes().len() as int)));
        }
        Ok(column + 1)
    }

    /// The user-facing line and column numbers at the given byte index in
    /// the file.
    pub fn location(&self, filepath: PathId, byte_offset: ByteOffset) -> (r: Result<
        ResolvedLocation,
        Error,
    >)
        ensures
            match r {
                Ok(location) => {
                    &&& self@.contains_key(filepath)
                    &&& location.line_number >= 1
                    &&& is_line_of(
                        self@[filepath].line_starts@,
                        byte_offset.0 as int,
                        location.line_number - 1,
                    )
                    &&& self.line_location_of(filepath, (location.line_number - 1) as usize) matches Ok(line)
                    &&& location.column_number == boundaries_between(
                        encode_utf8(self@[filepath].source@),
                        line.start.0 as int,
                        min(
                            byte_offset.0 as int,
                            min(line.end.0 as int, self@[filepath].source_len as int),
                        ),
                    ) + 1
                },
                Err(e) => !self@.contains_key(filepath) && e is FileMissing,
            },
    {
        let line_index = match self.line_index(filepath, byte_offset) {
            Ok(index) => index,
            Err(e) => return Err(e),
        };
        let column_number = match self.column_number(filepath, line_index, byte_offset) {
            Ok(number) => number,
            Err(e) => return Err(e),
        };
        Ok(ResolvedLocation { line_number: line_index + 1, column_number })
    }
}

/// No more characters end in a range than it has bytes.
proof fn lemma_boundaries_bounded(bytes: Seq<u8>, lo: int, hi: int)
    ensures
        boundaries_between(bytes, lo, hi) <= if hi <= lo { 0 } else { hi - lo },
    decreases hi - lo,
{
    if hi > lo {
        lemma_boundaries_bounded(bytes, lo, hi - 1);
    }
}

} // verus!

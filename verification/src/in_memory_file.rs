//! Source files held in memory together with their line tables.

use vstd::prelude::*;
use vstd::string::*;
use vstd::utf8::encode_utf8;

use crate::lines::{compute_line_starts, is_line_of, is_line_table, line_index_of, line_starts_of};
use crate::location::ByteOffset;

verus! {

/// Error returned by [`InMemoryFile::get_line_start_by_index`].
#[derive(Debug, Clone, Copy, PartialEq, Eq, Hash, Structural)]
pub struct LineTooLargeError {
    /// The given line index.
    pub given: usize,
    /// The maximum line index.
    pub max: usize,
}

/// A Stellar source file.
#[derive(Debug, Clone, PartialEq, Eq, Hash)]
pub struct InMemoryFile {
    /// The path of the source file.
    pub path: String,
    /// The source content of the file.
    pub source: String,
    /// The length of the source content (in bytes).
    pub source_len: usize,
    /// The array of line starting byte indices in the [`InMemoryFile::source`].
    pub line_starts: Vec<usize>,
}

impl InMemoryFile {
    /// The file's length and line table agree with its source.
    pub open spec fn wf(&self) -> bool {
        &&& self.source_len == encode_utf8(self.source@).len()
        &&& self.line_starts@ == line_starts_of(encode_utf8(self.source@))
        &&& is_line_table(self.line_starts@)
    }

    /// Creates a new [`InMemoryFile`] with the given source.
    pub fn new_from_source(path: String, source: String) -> (r: Self)
        ensures
            r.wf(),
            r.path@ == path@,
            r.source@ == source@,
    {
        let bytes = source.as_str().as_bytes();
        let source_len = bytes.len();
        let line_starts = compute_line_starts(bytes);
        InMemoryFile { path, source_len, line_starts, source }
    }

    /// Returns the index of the line that holds the given byte offset.
    pub fn get_line_index_by_byte_index(&self, byte_offset: ByteOffset) -> (r: usize)
        requires
            self.wf(),
        ensures
            is_line_of(self.line_starts@, byte_offset.0 as int, r as int),
    {
        line_index_of(self.line_starts.as_slice(), byte_offset.0)
    }

    /// Returns the starting byte offset of the line with the given index; the
    /// index one past the last line gives the end of the source.
    pub fn get_line_start_by_index(&self, line_index: usize) -> (r: Result<
        ByteOffset,
        LineTooLargeError,
    >)
        requires
            self.wf(),
        ensures
            line_index < self.line_starts@.len() ==> r == Ok::<ByteOffset, LineTooLargeError>(
                ByteOffset(self.line_starts@[line_index as int]),
            ),
            line_index == self.line_starts@.len() ==> r == Ok::<ByteOffset, LineTooLargeError>(
                ByteOffset(self.source_len),
            ),
            line_index > self.line_starts@.len() ==> r == Err::<ByteOffset, LineTooLargeError>(
                LineTooLargeError { given: line_index, max: (self.line_starts@.len() - 1) as usize },
            ),
    {
        let n = self.line_starts.len();
        if line_index < n {
            Ok(ByteOffset(self.line_starts[line_index]))
        } else if line_index == n {
            Ok(ByteOffset(self.source_len))
        } else {
            Err(LineTooLargeError { given: line_index, max: n - 1 })
        }
    }

    /// Returns the byte range of the line with the given index.
    pub fn line_range_by_index(&self, line_index: usize) -> (r: Option<
        core::ops::Range<ByteOffset>,
    >)
        requires
            self.wf(),
        ensures
            r is Some <==> line_index < self.line_starts@.len(),
            r matches Some(range) ==> {
                &&& range.start.0 == self.line_starts@[line_index as int]
                &&& range.end.0 == if line_index + 1 < self.line_starts@.len() {
                    self.line_starts@[line_index + 1]
                } else {
                    self.source_len
                }
            },
    {
        if line_index >= self.line_starts.len() {
            // The line after the last one has no end.
            return None;
        }
        let current_line_start = match self.get_line_start_by_index(line_index) {
            Ok(s) => s,
            Err(_) => return None,
        };
        let next_line_start = match self.get_line_start_by_index(line_index + 1) {
            Ok(s) => s,
            Err(_) => return None,
        };
        Some(current_line_start..next_line_start)
    }
}

} // verus!

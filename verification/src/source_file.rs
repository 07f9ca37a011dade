//! Source files of a workspace: their text, their line tables, and the
//! spans that point into them.

use vstd::prelude::*;
use vstd::string::*;
use vstd::utf8::*;

use crate::in_memory_file::LineTooLargeError;
use crate::lines::{compute_line_starts, is_line_of, is_line_table, line_index_of, line_starts_of};
use crate::text::str_get;

verus! {

/// An ID used to refer to files in a [`Workspace`].
pub type FileID = usize;

/// Represents location in the source text.
#[derive(Copy, Clone, Hash, Debug, Default, PartialEq, Eq, Structural)]
pub struct Span {
    /// Offset of starting byte in the source text.
    pub start: usize,
    /// Offset of ending byte in the source text.
    pub end: usize,
    /// Id of the file containing the span.
    pub file_id: FileID,
}

/// The byte range of text that a span covers in a text with the given bytes
/// exists: it is in bounds, in order, and on character boundaries.
pub open spec fn span_fits(bytes: Seq<u8>, start: int, end: int) -> bool {
    &&& 0 <= start <= end <= bytes.len()
    &&& is_char_boundary(bytes, start)
    &&& is_char_boundary(bytes, end)
}

/// Indexes a string with a span (ignoring [`Span::file_id`]).
pub trait SpanIndex {
    /// The bytes of the indexed text.
    spec fn indexed_bytes(&self) -> Seq<u8>;

    /// Returns the text that `span` covers.
    fn index(&self, span: Span) -> (r: &str)
        requires
            span_fits(self.indexed_bytes(), span.start as int, span.end as int),
        ensures
            r.spec_bytes() == self.indexed_bytes().subrange(span.start as int, span.end as int),
    ;
}

impl SpanIndex for str {
    open spec fn indexed_bytes(&self) -> Seq<u8> {
        self.spec_bytes()
    }

    fn index(&self, span: Span) -> (r: &str) {
        let r = str_get(self, span.start, span.end);
        r.unwrap()
    }
}

/// A Ry source file.
#[derive(Debug, Clone)]
pub struct SourceFile<'workspace> {
    /// The path of the source file.
    pub path: &'workspace str,
    /// The path of the source file as a string slice.
    pub path_str: &'workspace str,
    /// The source content of the file.
    pub source: &'workspace str,
    /// The length of the source content (in bytes).
    pub source_len: usize,
    /// The array of line starting byte indices in the [`SourceFile::source`].
    pub line_starts: Vec<usize>,
}

impl<'workspace> SourceFile<'workspace> {
    /// The file's length and line table agree with its source.
    pub open spec fn wf(&self) -> bool {
        &&& self.source_len == self.source.spec_bytes().len()
        &&& self.line_starts@ == line_starts_of(self.source.spec_bytes())
        &&& is_line_table(self.line_starts@)
    }

    /// Creates a new [`SourceFile`].
    pub fn new(path: &'workspace str, source: &'workspace str) -> (r: Self)
        ensures
            r.wf(),
            r.path == path,
            r.path_str == path,
            r.source == source,
    {
        let bytes = source.as_bytes();
        SourceFile {
            path,
            path_str: path,
            source,
            source_len: bytes.len(),
            line_starts: compute_line_starts(bytes),
        }
    }

    /// Returns the path of the source file.
    pub fn path(&self) -> (r: &'workspace str)
        ensures
            r == self.path,
    {
        self.path
    }

    /// Returns the path of the source file as a string slice.
    pub fn path_str(&self) -> (r: &'workspace str)
        ensures
            r == self.path_str,
    {
        self.path_str
    }

    /// Returns the source content of the file.
    pub fn source(&self) -> (r: &'workspace str)
        ensures
            r == self.source,
    {
        self.source
    }

    /// Returns the length of the source content (in bytes).
    pub fn source_len(&self) -> (r: usize)
        ensures
            r == self.source_len,
    {
        self.source_len
    }

    /// Returns the array of line starting byte indices in the source.
    pub fn line_starts(&self) -> (r: &Vec<usize>)
        ensures
            r == &self.line_starts,
    {
        &self.line_starts
    }

    /// Returns the string slice corresponding to the given span.
    pub fn resolve_span(&self, span: Span) -> (r: &str)
        requires
            span_fits(self.source.spec_bytes(), span.start as int, span.end as int),
        ensures
            r.spec_bytes() == self.source.spec_bytes().subrange(
                span.start as int,
                span.end as int,
            ),
    {
        self.source.index(span)
    }

    /// Returns the starting byte index of the line with the given index; the
    /// index one past the last line gives the end of the source.
    pub(crate) fn get_line_start_by_index(&self, line_index: usize) -> (r: Result<
        usize,
        LineTooLargeError,
    >)
        requires
            self.wf(),
        ensures
            line_index < self.line_starts@.len() ==> r == Ok::<usize, LineTooLargeError>(
                self.line_starts@[line_index as int],
            ),
            line_index == self.line_starts@.len() ==> r == Ok::<usize, LineTooLargeError>(
                self.source_len,
            ),
            line_index > self.line_starts@.len() ==> r == Err::<usize, LineTooLargeError>(
                LineTooLargeError { given: line_index, max: (self.line_starts@.len() - 1) as usize },
            ),
    {
        let n = self.line_starts.len();
        if line_index < n {
            Ok(self.line_starts[line_index])
        } else if line_index == n {
            Ok(self.source_len)
        } else {
            Err(LineTooLargeError { given: line_index, max: n - 1 })
        }
    }

    /// Returns the index of the line that holds the given byte index.
    pub fn get_line_index_by_byte_index(&self, byte_index: usize) -> (r: usize)
        requires
            self.wf(),
        ensures
            is_line_of(self.line_starts@, byte_index as int, r as int),
    {
        line_index_of(self.line_starts.as_slice(), byte_index)
    }

    /// Returns the byte range of the line with the given index.
    pub fn line_range_by_index(&self, line_index: usize) -> (r: Option<core::ops::Range<usize>>)
        requires
            self.wf(),
        ensures
            r is Some <==> line_index < self.line_starts@.len(),
            r matches Some(range) ==> {
                &&& range.start == self.line_starts@[line_index as int]
                &&& range.end == if line_index + 1 < self.line_starts@.len() {
                    self.line_starts@[line_index + 1]
                } else {
                    self.source_len
                }
            },
    {
        if line_index >= self.line_starts.len() {
            // The line after the last one has no end.
            return None;
        }
        let current_line_start = match self.get_line_start_by_index(line_index) {
            Ok(s) => s,
            Err(_) => return None,
        };
        let next_line_start = match self.get_line_start_by_index(line_index + 1) {
            Ok(s) => s,
            Err(_) => return None,
        };
        Some(current_line_start..next_line_start)
    }
}

/// A source file manager.
#[derive(Debug, Clone)]
pub struct Workspace<'workspace> {
    /// The files, the file with ID `i` at position `i - 1`.
    pub files: Vec<&'workspace SourceFile<'workspace>>,
}

impl<'workspace> Workspace<'workspace> {
    /// Creates a new empty [`Workspace`].
    pub fn new() -> (r: Self)
        ensures
            r.files@.len() == 0,
    {
        Workspace { files: Vec::new() }
    }

    /// Adds a new file to the [`Workspace`] and returns its ID. File IDs
    /// start from `1`.
    pub fn add_file(&mut self, file: &'workspace SourceFile<'workspace>) -> (r: FileID)
        requires
            old(self).files@.len() < usize::MAX,
        ensures
            final(self).files@ == old(self).files@.push(file),
            r == final(self).files@.len(),
    {
        self.files.push(file);
        self.files.len()
    }

    /// Returns the file with the given ID.
    pub fn get_file_by_id(&self, file_id: FileID) -> (r: Option<&'workspace SourceFile<'workspace>>)
        requires
            file_id >= 1,
        ensures
            file_id <= self.files@.len() ==> r == Some(self.files@[file_id - 1]),
            file_id > self.files@.len() ==> r is None,
    {
        if file_id - 1 < self.files.len() {
            Some(self.files[file_id - 1])
        } else {
            None
        }
    }

    /// Returns the file with the given ID, which must be in the workspace.
    pub fn get_file_by_id_unchecked(&self, file_id: FileID) -> (r: &'workspace SourceFile<'workspace>)
        requires
            1 <= file_id <= self.files@.len(),
        ensures
            r == self.files@[file_id - 1],
    {
        self.files[file_id - 1]
    }

    /// Returns the text at the given span, which must lie in a file of the
    /// workspace.
    pub fn resolve_span_or_panic(&self, span: Span) -> (r: &'workspace str)
        requires
            1 <= span.file_id <= self.files@.len(),
            span_fits(
                self.files@[span.file_id - 1].source.spec_bytes(),
                span.start as int,
                span.end as int,
            ),
        ensures
            r.spec_bytes() == self.files@[span.file_id - 1].source.spec_bytes().subrange(
                span.start as int,
                span.end as int,
            ),
    {
        let file = self.files[span.file_id - 1];
        let r = str_get(file.source, span.start, span.end);
        r.unwrap()
    }

    /// Returns the text at the given span, or `None` where the file does not
    /// exist or the span does not fit its text.
    pub fn resolve_span(&self, span: Span) -> (r: Option<&'workspace str>)
        requires
            span.file_id >= 1,
        ensures
            r is Some <==> (span.file_id <= self.files@.len() && span_fits(
                self.files@[span.file_id - 1].source.spec_bytes(),
                span.start as int,
                span.end as int,
            )),
            r matches Some(t) ==> t.spec_bytes() == self.files@[span.file_id
                - 1].source.spec_bytes().subrange(span.start as int, span.end as int),
    {
        match self.get_file_by_id(span.file_id) {
            None => None,
            Some(file) => str_get(file.source, span.start, span.end),
        }
    }
}

} // verus!

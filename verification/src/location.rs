//! Locations of pieces of source text: a file and a range of byte offsets.

use vstd::prelude::*;

use crate::interner::PathId;

verus! {

/// An offset of a byte in a source text.
#[derive(Debug, Clone, Copy, PartialEq, Eq, Hash, PartialOrd, Ord, Default, Structural)]
pub struct ByteOffset(pub usize);

/// A location of a piece of source text: the file it comes from and the
/// byte range `start..end` that it covers.
#[derive(Debug, Clone, Copy, PartialEq, Eq, Hash, Structural)]
pub struct Location {
    /// The path of the file.
    pub filepath: PathId,
    /// Offset of the first byte.
    pub start: ByteOffset,
    /// Offset right after the last byte.
    pub end: ByteOffset,
}

/// A location used where no real location exists: an empty range at the
/// start of a file that never exists.
pub fn dummy_location() -> (r: Location)
    ensures
        r == (Location { filepath: PathId(0), start: ByteOffset(0), end: ByteOffset(0) }),
{
    Location { filepath: PathId(0), start: ByteOffset(0), end: ByteOffset(0) }
}

impl ByteOffset {
    /// Returns the offset moved forward by `n` bytes.
    pub fn forward(self, n: usize) -> (r: ByteOffset)
        requires
            self.0 + n <= usize::MAX,
        ensures
            r.0 == self.0 + n,
    {
        ByteOffset(self.0 + n)
    }
}

impl Location {
    /// The location of the first byte of this location (an empty range at
    /// the very end of the address space stays where it is).
    pub open spec fn start_byte_of(self) -> Location {
        Location {
            filepath: self.filepath,
            start: self.start,
            end: ByteOffset(if self.start.0 < usize::MAX { (self.start.0 + 1) as usize } else { self.start.0 }),
        }
    }

    /// The location of the last byte of this location (a location ending at
    /// offset 0 stays where it is).
    pub open spec fn end_byte_of(self) -> Location {
        Location {
            filepath: self.filepath,
            start: ByteOffset(if self.end.0 > 0 { (self.end.0 - 1) as usize } else { 0 }),
            end: self.end,
        }
    }

    /// Returns the location of the first byte of this location.
    pub fn start_byte_location(self) -> (r: Location)
        ensures
            r == self.start_byte_of(),
    {
        let end = if self.start.0 < usize::MAX { self.start.0 + 1 } else { self.start.0 };
        Location { filepath: self.filepath, start: self.start, end: ByteOffset(end) }
    }

    /// Returns the location of the last byte of this location.
    pub fn end_byte_location(self) -> (r: Location)
        ensures
            r == self.end_byte_of(),
    {
        let start = if self.end.0 > 0 { self.end.0 - 1 } else { 0 };
        Location { filepath: self.filepath, start: ByteOffset(start), end: self.end }
    }
}

} // verus!

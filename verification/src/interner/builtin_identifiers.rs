//! Builtin identifiers, that every [`IdentifierInterner`](super::IdentifierInterner)
//! interns when it is created. Each constant is the number of the
//! identifier's ID: `IdentifierId(INT8)` resolves to `int8`.

use vstd::prelude::*;

verus! {

/// Builtin identifier `int8`.
pub const INT8: usize = 1;

/// Builtin identifier `int16`.
pub const INT16: usize = 2;

/// Builtin identifier `int32`.
pub const INT32: usize = 3;

/// Builtin identifier `int64`.
pub const INT64: usize = 4;

/// Builtin identifier `uint8`.
pub const UINT8: usize = 5;

/// Builtin identifier `uint16`.
pub const UINT16: usize = 6;

/// Builtin identifier `uint32`.
pub const UINT32: usize = 7;

/// Builtin identifier `uint64`.
pub const UINT64: usize = 8;

/// Builtin identifier `float32`.
pub const FLOAT32: usize = 9;

/// Builtin identifier `float64`.
pub const FLOAT64: usize = 10;

/// Builtin identifier `isize`.
pub const ISIZE: usize = 11;

/// Builtin identifier `usize`.
pub const USIZE: usize = 12;

/// Builtin identifier `bool`.
pub const BOOL: usize = 13;

/// Builtin identifier `String`.
pub const STRING: usize = 14;

/// Builtin identifier `List`.
pub const LIST: usize = 15;

/// Builtin identifier `char`.
pub const CHAR: usize = 16;

/// Builtin identifier `self`.
pub const SMALL_SELF: usize = 17;

/// Builtin identifier `Self`.
pub const BIG_SELF: usize = 18;

/// Builtin identifier `sizeof`.
pub const SIZE_OF: usize = 19;

/// Builtin identifier `std`.
pub const STD: usize = 20;

} // verus!

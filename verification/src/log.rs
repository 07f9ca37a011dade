//! Log lines of the command line interface: a prefix, right-aligned in a
//! column of twelve characters, then a message.

use vstd::prelude::*;

use crate::text::{push_char, push_str};

verus! {

/// The width of the prefix column.
pub const PREFIX_WIDTH: usize = 12;

/// `s` right-aligned in a column of `width` characters: spaces before it
/// make up the difference, and a longer `s` is kept whole.
pub open spec fn right_aligned(s: Seq<char>, width: nat) -> Seq<char> {
    if s.len() < width {
        Seq::new((width - s.len()) as nat, |i: int| ' ') + s
    } else {
        s
    }
}

/// A log line: the prefix, already aligned, and the message.
#[derive(Debug, Clone, PartialEq, Eq)]
pub struct LogLine {
    pub prefix: String,
    pub message: String,
}

/// Returns `s` right-aligned in a column of `width` characters.
pub fn right_align(s: &str, width: usize) -> (r: String)
    ensures
        r@ == right_aligned(s@, width as nat),
{
    let n = s.unicode_len();
    let mut r = String::new();
    if n < width {
        let mut i: usize = 0;
        while i < width - n
            invariant
                n < width,
                i <= width - n,
                r@ == Seq::new(i as nat, |j: int| ' '),
            decreases width - n - i,
        {
            push_char(&mut r, ' ');
            i = i + 1;
            assert(r@ =~= Seq::new(i as nat, |j: int| ' '));
        }
    }
    push_str(&mut r, s);
    assert(r@ =~= right_aligned(s@, width as nat));
    r
}

/// Builds the line that logs `message` under `prefix`.
pub fn log_info(prefix: &str, message: &str) -> (r: LogLine)
    ensures
        r.prefix@ == right_aligned(prefix@, PREFIX_WIDTH as nat),
        r.message@ == message@,
{
    let mut m = String::new();
    push_str(&mut m, message);
    assert(m@ =~= message@);
    LogLine { prefix: right_align(prefix, PREFIX_WIDTH), message: m }
}

/// Builds the line that logs `message` under `prefix`, as the commands of
/// the command line interface do.
pub fn log(prefix: &str, message: &str) -> (r: LogLine)
    ensures
        r.prefix@ == right_aligned(prefix@, PREFIX_WIDTH as nat),
        r.message@ == message@,
{
    log_info(prefix, message)
}

} // verus!

//! Settings of the terminal output of diagnostics.

use vstd::prelude::*;

use crate::lexer::char_from_u32;

verus! {

/// Whether to color the output.
#[derive(Copy, Clone, Debug, PartialEq, Eq, Structural)]
pub enum ColorChoice {
    /// Color if the output is a terminal.
    Auto,
    /// Always color, with the console API where there is one.
    Always,
    /// Always color, with ANSI escape sequences.
    AlwaysAnsi,
    /// Never color.
    Never,
}

/// The `--color` argument of the command line interface.
#[derive(Copy, Clone, Debug, PartialEq, Eq, Structural)]
pub struct ColorArg(pub ColorChoice);

/// The code of `c`.
pub open spec fn code_of(c: char) -> u32 {
    c as u32
}

/// `c` with ASCII upper case letters turned to lower case (the letter 32
/// codes further).
pub open spec fn ascii_lowercase(c: char) -> char {
    if 'A' <= c && c <= 'Z' {
        choose|l: char| #[trigger] code_of(l) == code_of(c) + 32
    } else {
        c
    }
}

/// `a` and `b` are equal up to the case of ASCII letters.
pub open spec fn eq_ignoring_ascii_case(a: Seq<char>, b: Seq<char>) -> bool {
    a.len() == b.len() && forall|i: int| 0 <= i < a.len() ==> ascii_lowercase(a[i])
        == ascii_lowercase(b[i])
}

/// Returns `c` with ASCII upper case letters turned to lower case.
fn to_ascii_lowercase(c: char) -> (r: char)
    ensures
        r == ascii_lowercase(c),
{
    if 'A' <= c && c <= 'Z' {
        let v = (c as u32) + 32;
        match char_from_u32(v) {
            Some(lower) => {
                assert(code_of(lower) == code_of(c) + 32);
                lower
            },
            None => c,
        }
    } else {
        c
    }
}

/// Returns `true` if `a` and `b` are equal up to the case of ASCII letters.
fn eq_ignore_ascii_case(a: &str, b: &str) -> (r: bool)
    ensures
        r == eq_ignoring_ascii_case(a@, b@),
{
    let n = a.unicode_len();
    if n != b.unicode_len() {
        return false;
    }
    let mut i: usize = 0;
    while i < n
        invariant
            n == a@.len(),
            n == b@.len(),
            i <= n,
            forall|j: int| 0 <= j < i ==> ascii_lowercase(a@[j]) == ascii_lowercase(b@[j]),
        decreases n - i,
    {
        if to_ascii_lowercase(a.get_char(i)) != to_ascii_lowercase(b.get_char(i)) {
            return false;
        }
        i = i + 1;
    }
    true
}

impl ColorArg {
    /// Parses the argument, whatever the case of its letters: `auto`,
    /// `always`, `ansi` or `never`.
    pub fn from_text(src: &str) -> (r: Result<Self, &'static str>)
        ensures
            eq_ignoring_ascii_case(src@, "auto"@) ==> r == Ok::<Self, &'static str>(ColorArg(ColorChoice::Auto)),
            !eq_ignoring_ascii_case(src@, "auto"@) && eq_ignoring_ascii_case(src@, "always"@) ==> r
                == Ok::<Self, &'static str>(ColorArg(ColorChoice::Always)),
            !eq_ignoring_ascii_case(src@, "auto"@) && !eq_ignoring_ascii_case(src@, "always"@)
                && eq_ignoring_ascii_case(src@, "ansi"@) ==> r == Ok::<Self, &'static str>(
                ColorArg(ColorChoice::AlwaysAnsi),
            ),
            !eq_ignoring_ascii_case(src@, "auto"@) && !eq_ignoring_ascii_case(src@, "always"@)
                && !eq_ignoring_ascii_case(src@, "ansi"@) && eq_ignoring_ascii_case(src@, "never"@)
                ==> r == Ok::<Self, &'static str>(ColorArg(ColorChoice::Never)),
            !eq_ignoring_ascii_case(src@, "auto"@) && !eq_ignoring_ascii_case(src@, "always"@)
                && !eq_ignoring_ascii_case(src@, "ansi"@) && !eq_ignoring_ascii_case(
                src@,
                "never"@,
            ) ==> (r matches Err(e) && e@ == "valid values: auto, always, ansi, never"@),
    {
        if eq_ignore_ascii_case(src, "auto") {
            Ok(ColorArg(ColorChoice::Auto))
        } else if eq_ignore_ascii_case(src, "always") {
            Ok(ColorArg(ColorChoice::Always))
        } else if eq_ignore_ascii_case(src, "ansi") {
            Ok(ColorArg(ColorChoice::AlwaysAnsi))
        } else if eq_ignore_ascii_case(src, "never") {
            Ok(ColorArg(ColorChoice::Never))
        } else {
            Err("valid values: auto, always, ansi, never")
        }
    }
}

} // verus!

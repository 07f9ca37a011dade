//! English text helpers: enumerations ("a, b, or c"), ordinals ("21st"),
//! and plurals of nouns ("candies").

use vstd::prelude::*;
use vstd::string::*;
use vstd::utf8::encode_utf8;

use crate::text::{chars_eq_str, chars_of, push_char, push_str, string_from_chars};

verus! {

/* Enumerations */

/// The text that comes before item `idx` of `len` items in an enumeration
/// joined by the given final words (`" or "` and `", or "`, or their `and`
/// forms).
pub open spec fn separator(idx: int, len: int, two: Seq<char>, many: Seq<char>) -> Seq<char> {
    if idx == 0 {
        Seq::empty()
    } else if idx == len - 1 {
        if len == 2 {
            two
        } else {
            many
        }
    } else {
        ", "@
    }
}

/// The first `n` items of an enumeration, each preceded by its separator.
pub open spec fn enumeration_upto(
    items: Seq<Seq<char>>,
    two: Seq<char>,
    many: Seq<char>,
    n: nat,
) -> Seq<char>
    decreases n,
{
    if n == 0 {
        Seq::empty()
    } else {
        enumeration_upto(items, two, many, (n - 1) as nat) + separator(
            n - 1,
            items.len() as int,
            two,
            many,
        ) + items[n - 1]
    }
}

/// "a", "a or b", "a, b, or c".
pub open spec fn one_of_text(items: Seq<Seq<char>>) -> Seq<char> {
    enumeration_upto(items, " or "@, ", or "@, items.len())
}

/// "a", "a and b", "a, b, and c".
pub open spec fn all_of_text(items: Seq<Seq<char>>) -> Seq<char> {
    enumeration_upto(items, " and "@, ", and "@, items.len())
}

/// The texts of a slice of strings.
pub open spec fn texts(items: Seq<String>) -> Seq<Seq<char>> {
    items.map_values(|s: String| s@)
}

fn enumerate(items: &[String], two: &str, many: &str) -> (r: String)
    ensures
        r@ == enumeration_upto(texts(items@), two@, many@, items@.len()),
{
    let len = items.len();
    let mut r = String::new();
    let mut idx: usize = 0;
    while idx < len
        invariant
            len == items@.len(),
            idx <= len,
            r@ == enumeration_upto(texts(items@), two@, many@, idx as nat),
        decreases len - idx,
    {
        if idx == 0 {
        } else if idx == len - 1 {
            if len == 2 {
                push_str(&mut r, two);
            } else {
                push_str(&mut r, many);
            }
        } else {
            push_str(&mut r, ", ");
        }
        push_str(&mut r, items[idx].as_str());
        idx = idx + 1;
    }
    r
}

/// Formats a list of strings as "a", "a or b", "a, b, or c".
pub fn one_of(items: &[String]) -> (r: String)
    ensures
        r@ == one_of_text(texts(items@)),
{
    enumerate(items, " or ", ", or ")
}

/// Formats a list of strings as "a", "a and b", "a, b, and c".
pub fn all_of(items: &[String]) -> (r: String)
    ensures
        r@ == all_of_text(texts(items@)),
{
    enumerate(items, " and ", ", and ")
}

/* Ordinals */

/// The decimal digit `d` (`0 <= d < 10`) as a character.
pub open spec fn digit_char(d: int) -> char {
    seq!['0', '1', '2', '3', '4', '5', '6', '7', '8', '9'][d]
}

/// The decimal notation of a natural number.
pub open spec fn nat_decimal(n: nat) -> Seq<char>
    decreases n,
{
    if n < 10 {
        seq![digit_char(n as int)]
    } else {
        nat_decimal(n / 10).push(digit_char((n % 10) as int))
    }
}

/// The decimal notation of an integer, with a leading `-` when negative.
pub open spec fn int_decimal(n: int) -> Seq<char> {
    if n < 0 {
        seq!['-'] + nat_decimal((-n) as nat)
    } else {
        nat_decimal(n as nat)
    }
}

/// `s` ends with `t`.
pub open spec fn ends_with(s: Seq<char>, t: Seq<char>) -> bool {
    t.len() <= s.len() && s.subrange(s.len() - t.len(), s.len() as int) == t
}

/// The English ordinal suffix for a number written as `s`.
pub open spec fn ordinal_suffix(s: Seq<char>) -> Seq<char> {
    if ends_with(s, seq!['1']) && !ends_with(s, seq!['1', '1']) {
        "st"@
    } else if ends_with(s, seq!['2']) && !ends_with(s, seq!['1', '2']) {
        "nd"@
    } else if ends_with(s, seq!['3']) && !ends_with(s, seq!['1', '3']) {
        "rd"@
    } else {
        "th"@
    }
}

proof fn lemma_ends_with_one(s: Seq<char>, c: char)
    requires
        s.len() >= 1,
    ensures
        ends_with(s, seq![c]) == (s.last() == c),
{
    let t = s.subrange(s.len() - 1, s.len() as int);
    assert(t =~= seq![s.last()]);
    if s.last() == c {
        assert(t =~= seq![c]);
    } else if ends_with(s, seq![c]) {
        assert(t[0] == seq![c][0]);
    }
}

proof fn lemma_ends_with_two(s: Seq<char>, a: char, b: char)
    requires
        s.len() >= 1,
    ensures
        ends_with(s, seq![a, b]) == (s.len() >= 2 && s[s.len() - 2] == a && s.last() == b),
{
    if s.len() >= 2 {
        let t = s.subrange(s.len() - 2, s.len() as int);
        assert(t =~= seq![s[s.len() - 2], s.last()]);
        if s[s.len() - 2] == a && s.last() == b {
            assert(t =~= seq![a, b]);
        } else if ends_with(s, seq![a, b]) {
            assert(t[0] == seq![a, b][0] && t[1] == seq![a, b][1]);
        }
    }
}

proof fn lemma_nat_decimal_tail(n: nat)
    ensures
        nat_decimal(n).len() >= 1,
        nat_decimal(n).last() == digit_char((n % 10) as int),
        n < 10 ==> nat_decimal(n).len() == 1,
        n >= 10 ==> nat_decimal(n).len() >= 2 && nat_decimal(n)[nat_decimal(n).len() - 2]
            == digit_char(((n / 10) % 10) as int),
    decreases n,
{
    if n >= 10 {
        lemma_nat_decimal_tail(n / 10);
    }
}

/// Newtype wrapper struct that formats integers as an ordinal number.
#[derive(Debug, Clone, Copy, PartialEq, Eq, Hash, Structural)]
pub struct Ordinal(pub i64);

/// Constructs a new instance of [`Ordinal`].
pub fn ordinal(n: i64) -> (r: Ordinal)
    ensures
        r.0 == n,
{
    Ordinal(n)
}

fn digit(d: u64) -> (c: char)
    requires
        d < 10,
    ensures
        c == digit_char(d as int),
{
    match d {
        0 => '0',
        1 => '1',
        2 => '2',
        3 => '3',
        4 => '4',
        5 => '5',
        6 => '6',
        7 => '7',
        8 => '8',
        _ => '9',
    }
}

/// Appends the decimal notation of `m` to `s`.
pub(crate) fn push_decimal(s: &mut String, m: u64)
    ensures
        final(s)@ == old(s)@ + nat_decimal(m as nat),
    decreases m,
{
    if m < 10 {
        push_char(s, digit(m));
    } else {
        push_decimal(s, m / 10);
        push_char(s, digit(m % 10));
        assert(final(s)@ =~= old(s)@ + nat_decimal(m as nat));
    }
}

/// The absolute value of `n`.
fn magnitude(n: i64) -> (m: u64)
    ensures
        m as int == if n < 0 {
            -n
        } else {
            n as int
        },
{
    if n < 0 {
        ((-(n as i128)) as u64)
    } else {
        n as u64
    }
}

impl Ordinal {
    /// Returns the suffix for the ordinal: `st`, `nd`, `rd` or `th`.
    pub fn suffix(&self) -> (r: &'static str)
        ensures
            r@ == ordinal_suffix(int_decimal(self.0 as int)),
    {
        let m = magnitude(self.0);
        let last = m % 10;
        let tens_is_one = m >= 10 && (m / 10) % 10 == 1;
        proof {
            let s = int_decimal(self.0 as int);
            lemma_nat_decimal_tail(m as nat);
            let ds = seq!['0', '1', '2', '3', '4', '5', '6', '7', '8', '9'];
            assert(ds[0] == '0' && ds[1] == '1' && ds[2] == '2' && ds[3] == '3' && ds[4] == '4');
            assert(ds[5] == '5' && ds[6] == '6' && ds[7] == '7' && ds[8] == '8' && ds[9] == '9');
            assert(s.last() == digit_char(last as int));
            lemma_ends_with_one(s, '1');
            lemma_ends_with_one(s, '2');
            lemma_ends_with_one(s, '3');
            lemma_ends_with_two(s, '1', '1');
            lemma_ends_with_two(s, '1', '2');
            lemma_ends_with_two(s, '1', '3');
            // The character before the last digit is `1` exactly when the tens digit is one.
            let before_is_one = s.len() >= 2 && s[s.len() - 2] == '1';
            if m >= 10 {
                assert(s[s.len() - 2] == digit_char(((m / 10) % 10) as int));
                let t = ((m / 10) % 10) as int;
                assert(before_is_one == (t == 1)) by {
                    if t == 0 {} else if t == 1 {} else if t == 2 {} else if t == 3 {} else if t == 4 {}
                    else if t == 5 {} else if t == 6 {} else if t == 7 {} else if t == 8 {} else {}
                }
            } else if s.len() >= 2 {
                assert(s[s.len() - 2] == '-');
            }
            assert(before_is_one == tens_is_one);
            let l = last as int;
            assert((s.last() == '1') == (l == 1) && (s.last() == '2') == (l == 2) && (s.last() == '3')
                == (l == 3)) by {
                if l == 0 {} else if l == 1 {} else if l == 2 {} else if l == 3 {} else if l == 4 {}
                else if l == 5 {} else if l == 6 {} else if l == 7 {} else if l == 8 {} else {}
            }
        }
        if last == 1 && !tens_is_one {
            "st"
        } else if last == 2 && !tens_is_one {
            "nd"
        } else if last == 3 && !tens_is_one {
            "rd"
        } else {
            "th"
        }
    }

    /// Formats the number followed by its ordinal suffix, e.g. `21st`.
    pub fn to_string(&self) -> (r: String)
        ensures
            r@ == int_decimal(self.0 as int) + ordinal_suffix(int_decimal(self.0 as int)),
    {
        let mut r = String::new();
        if self.0 < 0 {
            push_char(&mut r, '-');
        }
        push_decimal(&mut r, magnitude(self.0));
        push_str(&mut r, self.suffix());
        r
    }
}

/* Plurals */

/// `c` is an English vowel letter.
pub open spec fn is_vowel(c: char) -> bool {
    c == 'a' || c == 'e' || c == 'i' || c == 'o' || c == 'u' || c == 'A' || c == 'E' || c == 'I'
        || c == 'O' || c == 'U'
}

/// The plural of a noun that has an irregular one, if it has.
pub open spec fn irregular_plural(noun: Seq<char>) -> Option<Seq<char>> {
    if noun == "index"@ {
        Some("indices"@)
    } else if noun == "analysis"@ {
        Some("analyses"@)
    } else {
        None
    }
}

/// The character that the plural rules read as the one before the last:
/// the character at position (UTF-8 length - 2), where there is one. For
/// ASCII nouns this is the penultimate character.
pub open spec fn penultimate(noun: Seq<char>) -> Option<char> {
    let k = encode_utf8(noun).len() - 2;
    if 0 <= k < noun.len() {
        Some(noun[k])
    } else {
        None
    }
}

/// The nouns that the plural rules accept: nouns with an irregular plural,
/// and nouns of at least two UTF-8 bytes whose rule reads a character before
/// the last where it needs one. The empty noun is not one of them.
pub open spec fn pluralizable(noun: Seq<char>) -> bool {
    ||| irregular_plural(noun) is Some
    ||| encode_utf8(noun).len() >= 2 && (noun.last() == 'y' ==> penultimate(noun) is Some)
}

/// The plural of an English noun.
pub open spec fn plural_of(noun: Seq<char>) -> Seq<char> {
    if irregular_plural(noun) is Some {
        irregular_plural(noun)->0
    } else if noun.last() == 'y' {
        if is_vowel(penultimate(noun)->0) {
            noun + "s"@
        } else {
            noun.drop_last() + "ies"@
        }
    } else if noun.last() == 'f' {
        noun.drop_last() + "ves"@
    } else if noun.last() == 'e' && penultimate(noun) == Some('f') {
        noun.drop_last().drop_last() + "ves"@
    } else {
        noun + "s"@
    }
}

fn is_vowel_char(c: char) -> (r: bool)
    ensures
        r == is_vowel(c),
{
    c == 'a' || c == 'e' || c == 'i' || c == 'o' || c == 'u' || c == 'A' || c == 'E' || c == 'I'
        || c == 'O' || c == 'U'
}

/// The plural rules, stated one by one: `index` and `analysis` have their
/// irregular plurals; a noun ending in `y` after a consonant drops the `y`
/// and takes `ies`, after a vowel it takes `s`; a noun ending in `f` takes
/// `ves` in place of the `f`, one ending in `fe` takes `ves` in place of
/// the `fe`; any other noun takes `s`.
pub proof fn lemma_plural_rules(noun: Seq<char>)
    ensures
        noun == "index"@ ==> plural_of(noun) == "indices"@,
        noun == "analysis"@ ==> plural_of(noun) == "analyses"@,
        irregular_plural(noun) is None && noun.last() == 'y' && penultimate(noun) is Some && !is_vowel(penultimate(noun)->0)
            ==> plural_of(noun) == noun.drop_last() + "ies"@,
        irregular_plural(noun) is None && noun.last() == 'y' && penultimate(noun) is Some && is_vowel(penultimate(noun)->0)
            ==> plural_of(noun) == noun + "s"@,
        irregular_plural(noun) is None && noun.last() == 'f' ==> plural_of(noun) == noun.drop_last() + "ves"@,
        irregular_plural(noun) is None && noun.last() == 'e' && penultimate(noun) == Some('f') ==> plural_of(noun)
            == noun.drop_last().drop_last() + "ves"@,
        irregular_plural(noun) is None && noun.last() != 'y' && noun.last() != 'f' && !(noun.last() == 'e'
            && penultimate(noun) == Some('f')) ==> plural_of(noun) == noun + "s"@,
{
    reveal_strlit("index");
    reveal_strlit("analysis");
    assert("index"@.len() != "analysis"@.len());
}

/// Computes the plural of a noun given as a string slice.
fn pluralize_str(noun: &str) -> (r: String)
    requires
        pluralizable(noun@),
    ensures
        r@ == plural_of(noun@),
        noun@ == "index"@ ==> r@ == "indices"@,
        noun@ == "analysis"@ ==> r@ == "analyses"@,
        irregular_plural(noun@) is None && noun@.last() == 'y' && penultimate(noun@) is Some
            && !is_vowel(penultimate(noun@)->0) ==> r@ == noun@.drop_last() + "ies"@,
        irregular_plural(noun@) is None && noun@.last() == 'y' && penultimate(noun@) is Some
            && is_vowel(penultimate(noun@)->0) ==> r@ == noun@ + "s"@,
        irregular_plural(noun@) is None && noun@.last() == 'f' ==> r@ == noun@.drop_last() + "ves"@,
        irregular_plural(noun@) is None && noun@.last() == 'e' && penultimate(noun@) == Some('f') ==> r@
            == noun@.drop_last().drop_last() + "ves"@,
        irregular_plural(noun@) is None && noun@.last() != 'y' && noun@.last() != 'f' && !(noun@.last() == 'e'
            && penultimate(noun@) == Some('f')) ==> r@ == noun@ + "s"@,
{
    proof {
        reveal_strlit("index");
        reveal_strlit("analysis");
        assert("index"@.len() != "analysis"@.len());
    }
    let chars = chars_of(noun);
    let n = chars.len();
    if chars_eq_str(chars.as_slice(), "index") {
        return String::from_str("indices");
    }
    if chars_eq_str(chars.as_slice(), "analysis") {
        return String::from_str("analyses");
    }
    let byte_len = noun.as_bytes().len();
    let last_char = chars[n - 1];
    let penultimate_char = if byte_len - 2 < n {
        Some(chars[byte_len - 2])
    } else {
        None
    };
    if last_char == 'y' {
        let p = penultimate_char.unwrap();
        if is_vowel_char(p) {
            let mut r = string_from_chars(chars.as_slice());
            push_str(&mut r, "s");
            r
        } else {
            let mut r = string_from_chars(slice_prefix(chars.as_slice(), n - 1));
            push_str(&mut r, "ies");
            proof {
                assert(chars@.take(n - 1) =~= noun@.drop_last());
            }
            r
        }
    } else if last_char == 'f' {
        let mut r = string_from_chars(slice_prefix(chars.as_slice(), n - 1));
        push_str(&mut r, "ves");
        proof {
            assert(chars@.take(n - 1) =~= noun@.drop_last());
        }
        r
    } else if last_char == 'e' && penultimate_char == Some('f') {
        // The penultimate character exists, so the noun has two characters.
        let mut r = string_from_chars(slice_prefix(chars.as_slice(), n - 2));
        push_str(&mut r, "ves");
        proof {
            assert(chars@.take(n - 2) =~= noun@.drop_last().drop_last());
        }
        r
    } else {
        let mut r = string_from_chars(chars.as_slice());
        push_str(&mut r, "s");
        r
    }
}

/// Returns the first `k` elements of a slice.
#[verifier::external_body]
fn slice_prefix(s: &[char], k: usize) -> (r: &[char])
    requires
        k <= s@.len(),
    ensures
        r@ == s@.take(k as int),
{
    &s[..k]
}

/// Provides [`PluralizeExt::pluralize()`] method, to convert a given singular
/// noun into a plural noun.
pub trait PluralizeExt: Sized {
    /// The noun as characters.
    spec fn noun_chars(&self) -> Seq<char>;

    /// Converts a given singular noun into a plural noun.
    fn pluralize(self) -> (r: String)
        requires
            pluralizable(self.noun_chars()),
        ensures
            r@ == plural_of(self.noun_chars()),
    ;
}

impl PluralizeExt for String {
    open spec fn noun_chars(&self) -> Seq<char> {
        self@
    }

    fn pluralize(self) -> (r: String) {
        pluralize_str(self.as_str())
    }
}

impl<'a> PluralizeExt for &'a str {
    open spec fn noun_chars(&self) -> Seq<char> {
        self@
    }

    fn pluralize(self) -> (r: String) {
        pluralize_str(self)
    }
}

} // verus!

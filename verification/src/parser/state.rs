//! The state of the parser: the lexer, the token just read and the one
//! after it, and the diagnostics reported so far.

use vstd::prelude::*;
use vstd::string::*;

use crate::ast::{IdentifierAST, Visibility};
use crate::diagnostic::{Diagnostic, Label, LabelStyle, Severity};
use crate::diagnostics::{BuildDiagnostic, Diagnostics};
use crate::interner::{IdentifierId, IdentifierInterner, PathId};
use crate::interner::{interned_index, interned_view, lemma_intern_keeps_earlier, lemma_intern_then_resolve};
use crate::lexer::{
    char_after_token, identifier_name, lemma_lex_no_comments_progress, lex_no_comments, no_stuck_chars,
    string_after_token, Lexer,
};
use crate::location::{ByteOffset, Location};
use crate::text::push_str;
use crate::token::{lex_error_str, lex_error_text, raw_token_str, raw_token_text, Keyword, LexError, Punctuator, RawToken, Token};

verus! {

/// An error in the source text that the lexer found.
#[derive(Debug, Clone, Copy, PartialEq, Eq, Structural)]
pub struct LexErrorDiagnostic {
    pub error: LexError,
}

impl BuildDiagnostic for LexErrorDiagnostic {
    /// An `E000` error that says what the lexer found, with a primary label
    /// at the error.
    open spec fn describes(&self, d: Diagnostic) -> bool {
        &&& d.severity == Severity::Error
        &&& d.code matches Some(c) && c@ == "E000"@
        &&& d.message@ == lex_error_text(self.error.raw)
        &&& d.labels@.len() == 1
        &&& d.labels@[0].style == LabelStyle::Primary
        &&& d.labels@[0].location == self.error.location
        &&& d.labels@[0].message@ == Seq::<char>::empty()
        &&& d.notes@.len() == 0
    }

    fn build(self) -> (r: Diagnostic) {
        let mut labels: Vec<Label> = Vec::new();
        labels.push(Label::primary(self.error.location));
        let r = Diagnostic::error().with_message(String::from_str(lex_error_str(self.error.raw))).with_code(
            String::from_str("E000"),
        ).with_labels(labels);
        r
    }
}

/// A token that the parser did not expect where it found it.
#[derive(Debug, Clone, PartialEq, Eq)]
pub struct UnexpectedToken {
    /// The end of the token before the unexpected one.
    pub offset: ByteOffset,
    /// The unexpected token.
    pub got: Token,
    /// What the parser expected.
    pub expected: String,
}

/// The location of the byte at `offset` in the file (an empty one at the
/// very end of the address space).
pub open spec fn byte_location(filepath: PathId, offset: ByteOffset) -> Location {
    Location { filepath, start: offset, end: offset }.start_byte_of()
}

impl BuildDiagnostic for UnexpectedToken {
    /// An `E001` error that says what was expected and what was found, with
    /// a primary label right after the token before and a secondary label at
    /// the unexpected token.
    open spec fn describes(&self, d: Diagnostic) -> bool {
        &&& d.severity == Severity::Error
        &&& d.code matches Some(c) && c@ == "E001"@
        &&& d.message@ == "expected "@ + self.expected@ + ", found "@ + raw_token_text(self.got.raw)
        &&& d.labels@.len() == 2
        &&& d.labels@[0].style == LabelStyle::Primary
        &&& d.labels@[0].location == byte_location(self.got.location.filepath, self.offset)
        &&& d.labels@[0].message@ == "expected "@ + self.expected@
        &&& d.labels@[1].style == LabelStyle::Secondary
        &&& d.labels@[1].location == self.got.location
        &&& d.labels@[1].message@ == "unexpected token"@
        &&& d.notes@.len() == 0
    }

    fn build(self) -> (r: Diagnostic) {
        let mut message = String::new();
        push_str(&mut message, "expected ");
        push_str(&mut message, self.expected.as_str());
        push_str(&mut message, ", found ");
        push_str(&mut message, raw_token_str(self.got.raw));
        let mut primary = String::new();
        push_str(&mut primary, "expected ");
        push_str(&mut primary, self.expected.as_str());
        let at = Location { filepath: self.got.location.filepath, start: self.offset, end: self.offset };
        let mut labels: Vec<Label> = Vec::new();
        labels.push(Label::primary(at.start_byte_location()).with_message(primary));
        labels.push(
            Label::secondary(self.got.location).with_message(String::from_str("unexpected token")),
        );
        assert(message@ =~= "expected "@ + self.expected@ + ", found "@ + raw_token_text(self.got.raw));
        Diagnostic::error().with_message(message).with_code(String::from_str("E001")).with_labels(labels)
    }
}

/// The diagnostics after the token `t` is checked for a lexing error: one
/// more that describes it if it is an error token.
pub open spec fn checked_token(before: Seq<Diagnostic>, after: Seq<Diagnostic>, t: Token) -> bool {
    match t.raw {
        RawToken::Error(e) => {
            &&& after.len() == before.len() + 1
            &&& after.drop_last() == before
            &&& (LexErrorDiagnostic { error: LexError { raw: e, location: t.location } }).describes(
                after.last(),
            )
        },
        _ => after == before,
    }
}

/// The diagnostics after an unexpected token is reported: one more that
/// describes it.
pub open spec fn reported_unexpected(
    before: Seq<Diagnostic>,
    after: Seq<Diagnostic>,
    offset: ByteOffset,
    got: Token,
    expected: Seq<char>,
) -> bool {
    &&& after.len() == before.len() + 1
    &&& after.drop_last() == before
    &&& exists|e: String|
        e@ == expected && #[trigger] (UnexpectedToken { offset, got, expected: e }).describes(
            after.last(),
        )
}

/// Represents a parse state.
pub struct ParseState<'s> {
    /// Lexer that is used for parsing.
    lexer: Lexer<'s>,
    /// Current token.
    current_token: Token,
    /// Next token.
    next_token: Token,
    /// Diagnostics that is emitted during parsing.
    diagnostics: Diagnostics,
    /// The index of the character from which the lexer read the next token.
    next_from: Ghost<int>,
}

impl<'s> ParseState<'s> {
    /// The token read last.
    pub closed spec fn current(&self) -> Token {
        self.current_token
    }

    /// The token after the one read last.
    pub closed spec fn next(&self) -> Token {
        self.next_token
    }

    /// The index of the character the lexer is at, after the next token.
    pub closed spec fn position(&self) -> int {
        self.lexer.position()
    }

    /// The characters of the source.
    pub closed spec fn text(&self) -> Seq<char> {
        self.lexer.text()
    }

    /// The file being parsed.
    pub closed spec fn file(&self) -> PathId {
        self.lexer.file()
    }

    /// The ID of the identifier that the lexer read last.
    pub closed spec fn last_identifier(&self) -> IdentifierId {
        self.lexer.last_identifier()
    }

    /// The names of the identifiers interned so far, each at the position
    /// its ID stands for.
    pub closed spec fn names(&self) -> Seq<Seq<char>> {
        self.lexer.identifier_names()
    }

    /// The character that the lexer read last in a character literal.
    pub closed spec fn last_char(&self) -> char {
        self.lexer.last_char()
    }

    /// The characters of the string literal that the lexer read last,
    /// unless they were taken.
    pub closed spec fn scanned_string(&self) -> Seq<char> {
        self.lexer.scanned_string_view()
    }

    /// The diagnostics reported so far.
    pub closed spec fn reported(&self) -> Seq<Diagnostic> {
        self.diagnostics.diagnostics@
    }

    /// The bytes of the source.
    pub closed spec fn source_bytes(&self) -> Seq<u8> {
        self.lexer.source_str().spec_bytes()
    }

    /// What is left to parse: twice the characters left, and one more while
    /// the next token is not the end of the file.
    pub open spec fn measure(&self) -> int {
        2 * (self.text().len() - self.position()) + if self.next().raw != RawToken::EndOfFile {
            1int
        } else {
            0int
        }
    }

    /// The lexer and the diagnostics are well formed, the lexer can read
    /// every token left, and the next token is the one the lexer read last.
    pub closed spec fn wf(&self) -> bool {
        &&& self.lexer.wf()
        &&& self.diagnostics.wf()
        &&& no_stuck_chars(self.lexer.text())
        &&& self.lexer.identifier_names().len() + (self.lexer.text().len() - self.lexer.position()) + 3
            < usize::MAX
        &&& self.next_token.raw == RawToken::EndOfFile ==> self.lexer.position()
            == self.lexer.text().len()
        &&& 0 <= self.lexer.position() <= self.lexer.text().len()
        &&& 0 <= self.next_from@ <= self.lexer.text().len()
        &&& self.next_token == lex_no_comments(self.lexer.file(), self.lexer.text(), self.next_from@).0
        &&& self.lexer.position() == lex_no_comments(self.lexer.file(), self.lexer.text(), self.next_from@).1
        &&& self.next_token.raw == RawToken::Identifier ==> resolves_to(
            self.lexer.identifier_names(),
            self.lexer.last_identifier(),
            identifier_text_from(self.lexer.file(), self.lexer.text(), self.next_from@),
        )
    }

    /// The index of the character from which the next token was read.
    pub closed spec fn next_from(&self) -> int {
        self.next_from@
    }

    /// The next token is the one read from where it starts, the lexer is
    /// right after it, and the lexer moves forward on every character.
    pub proof fn lemma_next_from(&self)
        requires
            self.wf(),
        ensures
            0 <= self.next_from() <= self.text().len(),
            self.next() == token_from(self.file(), self.text(), self.next_from()),
            self.position() == after_token(self.file(), self.text(), self.next_from()),
            no_stuck_chars(self.text()),
    {
    }

    /// Reads the token after the next one, with what it takes to keep the
    /// state well formed.
    fn read_token(lexer: &mut Lexer<'s>, Ghost(bound): Ghost<int>) -> (r: Token)
        requires
            old(lexer).wf(),
            no_stuck_chars(old(lexer).text()),
            0 <= old(lexer).position() <= old(lexer).text().len(),
            old(lexer).identifier_names().len() + (old(lexer).text().len() - old(lexer).position()) + 3
                < bound,
            bound <= usize::MAX,
        ensures
            final(lexer).wf(),
            final(lexer).text() == old(lexer).text(),
            final(lexer).file() == old(lexer).file(),
            final(lexer).source_str() == old(lexer).source_str(),
            ({
                let (t, resume, start) = lex_no_comments(
                    old(lexer).file(),
                    old(lexer).text(),
                    old(lexer).position(),
                );
                &&& r == t
                &&& final(lexer).position() == resume
                &&& final(lexer).scanned_string_view() == string_after_token(
                    old(lexer).file(),
                    old(lexer).text(),
                    start,
                    old(lexer).scanned_string_view(),
                )
                &&& final(lexer).last_char() == char_after_token(
                    old(lexer).file(),
                    old(lexer).text(),
                    start,
                    old(lexer).last_char(),
                )
            }),
            old(lexer).position() <= final(lexer).position() <= old(lexer).text().len(),
            r.raw == RawToken::EndOfFile ==> final(lexer).position() == old(lexer).text().len(),
            r.raw != RawToken::EndOfFile ==> old(lexer).position() < final(lexer).position(),
            final(lexer).identifier_names().len() + (final(lexer).text().len() - final(lexer).position())
                + 3 < bound,
            old(lexer).identifier_names().is_prefix_of(final(lexer).identifier_names()),
            r.raw == RawToken::Identifier ==> resolves_to(
                final(lexer).identifier_names(),
                final(lexer).last_identifier(),
                identifier_text_from(old(lexer).file(), old(lexer).text(), old(lexer).position()),
            ),
    {
        proof {
            lemma_lex_no_comments_progress(old(lexer).file(), old(lexer).text(), old(lexer).position());
        }
        let ghost before = *lexer;
        let t = lexer.next_no_comments();
        proof {
            let (_, _, start) = lex_no_comments(before.file(), before.text(), before.position());
            before.lemma_buffers_names(lexer, t, start);
            before.lemma_buffers_literals(lexer, t, start);
            before.lemma_buffers_identifier(lexer, t, start);
            let name = identifier_name(before.text(), start);
            lemma_intern_keeps_earlier(before.identifier_names(), name);
            lemma_intern_then_resolve(before.identifier_names(), name);
            if t.raw == RawToken::Identifier {
                assert(before.identifier_names().is_prefix_of(lexer.identifier_names()));
            } else {
                assert(before.identifier_names().is_prefix_of(lexer.identifier_names()));
            }
        }
        t
    }
}

/// `after` is `before` moved one token forward: the next token became the
/// current one, the lexer read the one after it, and a lexing error in the
/// token that became current was reported.
pub open spec fn advanced(before: ParseState, after: ParseState) -> bool {
    let (t, resume, start) = lex_no_comments(before.file(), before.text(), before.position());
    &&& after.text() == before.text()
    &&& after.file() == before.file()
    &&& after.current() == before.next()
    &&& after.next() == t
    &&& after.position() == resume
    &&& after.next_from() == before.position()
    &&& checked_token(before.reported(), after.reported(), before.next())
    &&& after.scanned_string() == string_after_token(
        before.file(),
        before.text(),
        start,
        before.scanned_string(),
    )
    &&& after.last_char() == char_after_token(before.file(), before.text(), start, before.last_char())
    &&& before.names().is_prefix_of(after.names())
}

/// The string buffer once the token after the next one is read.
pub open spec fn string_buffer_after_advance(s: ParseState) -> Seq<char> {
    let (t, resume, start) = lex_no_comments(s.file(), s.text(), s.position());
    string_after_token(s.file(), s.text(), start, s.scanned_string())
}

/// The last character read in a character literal once the token after
/// the next one is read.
pub open spec fn char_buffer_after_advance(s: ParseState) -> char {
    let (t, resume, start) = lex_no_comments(s.file(), s.text(), s.position());
    char_after_token(s.file(), s.text(), start, s.last_char())
}

/// The token after the next one.
pub open spec fn second_token(s: ParseState) -> Token {
    lex_no_comments(s.file(), s.text(), s.position()).0
}

/// Where the token `k + 1` tokens after the next one is read from.
pub open spec fn later_start(s: ParseState, k: nat) -> int
    decreases k,
{
    if k == 0 {
        s.position()
    } else {
        lex_no_comments(s.file(), s.text(), later_start(s, (k - 1) as nat)).1
    }
}

/// The token `k` tokens after the next one, for `k` from 1 on; the first of
/// them is [`second_token`].
pub open spec fn later_token(s: ParseState, k: nat) -> Token
    recommends
        k >= 1,
{
    lex_no_comments(s.file(), s.text(), later_start(s, (k - 1) as nat)).0
}

/// After one token is read, each token after the next one is one place
/// closer.
pub proof fn lemma_later_after_advance(before: ParseState, after: ParseState, k: nat)
    requires
        advanced(before, after),
    ensures
        later_start(after, k) == later_start(before, k + 1),
        k >= 1 ==> later_token(after, k) == later_token(before, k + 1),
        after.next() == later_token(before, 1),
    decreases k,
{
    if k > 0 {
        lemma_later_after_advance(before, after, (k - 1) as nat);
    }
}

/// The first token that is not a comment read from index `p` on.
pub open spec fn token_from(filepath: PathId, text: Seq<char>, p: int) -> Token {
    lex_no_comments(filepath, text, p).0
}

/// The index right after the first token that is not a comment read from
/// index `p` on, where the token after it is read from.
pub open spec fn after_token(filepath: PathId, text: Seq<char>, p: int) -> int {
    lex_no_comments(filepath, text, p).1
}

/// One element of a list read from index `p` on, up to `e`: the list is
/// over after it, or a comma follows and the list ends or goes on there.
pub proof fn lemma_list_step(
    element: spec_fn(int) -> Option<int>,
    closes: spec_fn(RawToken) -> bool,
    f: PathId,
    t: Seq<char>,
    p: int,
)
    requires
        list_items_at(element, closes, f, t, p) is Some,
    ensures
        element(p) matches Some(e) && p < e <= t.len() && (closes(token_from(f, t, e).raw)
            ==> list_items_at(element, closes, f, t, p) == Some((e, 1nat))) && (!closes(
            token_from(f, t, e).raw,
        ) ==> token_from(f, t, e).raw == RawToken::Punctuator(Punctuator::Comma)) && (!closes(
            token_from(f, t, e).raw,
        ) && closes(token_from(f, t, after_token(f, t, e)).raw) ==> list_items_at(
            element,
            closes,
            f,
            t,
            p,
        ) == Some((after_token(f, t, e), 1nat))) && (!closes(token_from(f, t, e).raw) && !closes(
            token_from(f, t, after_token(f, t, e)).raw,
        ) ==> (list_items_at(element, closes, f, t, after_token(f, t, e)) matches Some((z, n))
            && list_items_at(element, closes, f, t, p) == Some((z, n + 1)))),
{
    reveal(list_items_at);
}

/// Where each element of a list read as [`list_items_at`] reads it from
/// index `p` on starts.
#[verifier::opaque]
pub open spec fn list_item_starts(
    element: spec_fn(int) -> Option<int>,
    closes: spec_fn(RawToken) -> bool,
    f: PathId,
    t: Seq<char>,
    p: int,
) -> Seq<int>
    decreases t.len() - p,
{
    match element(p) {
        Some(e) => if p < e <= t.len() && !closes(token_from(f, t, e).raw) && !closes(
            token_from(f, t, after_token(f, t, e)).raw,
        ) && e < after_token(f, t, e) <= t.len() {
            seq![p] + list_item_starts(element, closes, f, t, after_token(f, t, e))
        } else {
            seq![p]
        },
        None => seq![p],
    }
}

/// Where each element of a list that [`list_at`] reads from index `p` on
/// starts.
pub open spec fn list_starts(
    element: spec_fn(int) -> Option<int>,
    closes: spec_fn(RawToken) -> bool,
    f: PathId,
    t: Seq<char>,
    p: int,
) -> Seq<int> {
    if closes(token_from(f, t, p).raw) {
        Seq::empty()
    } else {
        list_item_starts(element, closes, f, t, p)
    }
}

/// The elements of a list are as many as their starts, and the first starts
/// where the list does.
pub proof fn lemma_list_starts(
    element: spec_fn(int) -> Option<int>,
    closes: spec_fn(RawToken) -> bool,
    f: PathId,
    t: Seq<char>,
    p: int,
)
    requires
        list_items_at(element, closes, f, t, p) is Some,
    ensures
        list_item_starts(element, closes, f, t, p).len() == (list_items_at(element, closes, f, t, p)->0).1,
        list_item_starts(element, closes, f, t, p)[0] == p,
        !closes(token_from(f, t, element(p)->0).raw) && !closes(
            token_from(f, t, after_token(f, t, element(p)->0)).raw,
        ) ==> list_item_starts(element, closes, f, t, p) == seq![p] + list_item_starts(
            element,
            closes,
            f,
            t,
            after_token(f, t, element(p)->0),
        ),
    decreases t.len() - p,
{
    reveal(list_items_at);
    reveal(list_item_starts);
    let e = element(p)->0;
    if !closes(token_from(f, t, e).raw) && !closes(token_from(f, t, after_token(f, t, e)).raw) {
        lemma_list_starts(element, closes, f, t, after_token(f, t, e));
    }
}

/// Where the rest of `all` from `i` on is `x` and then `rest`, `x` is at `i`
/// and `rest` is what comes after it.
pub proof fn lemma_seq_step<A>(all: Seq<A>, i: int, rest: Seq<A>, x: A)
    requires
        0 <= i <= all.len(),
        all.subrange(i, all.len() as int) == seq![x] + rest,
    ensures
        i < all.len(),
        all[i] == x,
        rest == all.subrange(i + 1, all.len() as int),
{
    let sub = all.subrange(i, all.len() as int);
    assert(sub[0] == x);
    assert(sub.len() == rest.len() + 1);
    assert(rest =~= all.subrange(i + 1, all.len() as int)) by {
        assert forall|j: int| 0 <= j < rest.len() implies rest[j] == all.subrange(i + 1, all.len() as int)[j] by {
            assert((seq![x] + rest)[j + 1] == rest[j]);
            assert(sub[j + 1] == all[i + j + 1]);
        }
    }
}

/// A list from index `p` on: elements that `element` reads (from where an
/// element starts to where the token after it is read from), separated by
/// commas, with an optional trailing comma, up to a token that `closes`.
/// `None` where the tokens do not form one; otherwise where the closing
/// token is read from, and how many elements came.
#[verifier::opaque]
pub open spec fn list_at(
    element: spec_fn(int) -> Option<int>,
    closes: spec_fn(RawToken) -> bool,
    f: PathId,
    t: Seq<char>,
    p: int,
) -> Option<(int, nat)> {
    if closes(token_from(f, t, p).raw) {
        Some((p, 0))
    } else {
        list_items_at(element, closes, f, t, p)
    }
}

/// The elements of a list from index `p` on, where an element starts, as
/// [`list_at`] reads them.
#[verifier::opaque]
pub open spec fn list_items_at(
    element: spec_fn(int) -> Option<int>,
    closes: spec_fn(RawToken) -> bool,
    f: PathId,
    t: Seq<char>,
    p: int,
) -> Option<(int, nat)>
    decreases t.len() - p,
{
    match element(p) {
        Some(e) => if p < e <= t.len() {
            if closes(token_from(f, t, e).raw) {
                Some((e, 1))
            } else if token_from(f, t, e).raw == RawToken::Punctuator(Punctuator::Comma) {
                let q = after_token(f, t, e);
                if closes(token_from(f, t, q).raw) {
                    Some((q, 1))
                } else if e < q <= t.len() {
                    match list_items_at(element, closes, f, t, q) {
                        Some((z, n)) => Some((z, n + 1)),
                        None => None,
                    }
                } else {
                    None
                }
            } else {
                None
            }
        } else {
            None
        },
        None => None,
    }
}

/// A token other than the end of the file ends after where it was read
/// from, within the text.
pub proof fn lemma_token_progress(filepath: PathId, text: Seq<char>, p: int)
    requires
        0 <= p <= text.len(),
        no_stuck_chars(text),
    ensures
        p <= after_token(filepath, text, p) <= text.len(),
        token_from(filepath, text, p).raw != RawToken::EndOfFile ==> p < after_token(filepath, text, p),
{
    lemma_lex_no_comments_progress(filepath, text, p);
}

/// A parse from `before` to `after` that failed said why: it reported a
/// diagnostic, or it stopped at a token that the lexer read as an error,
/// which is reported once it is read past.
pub open spec fn failure_reported(before: ParseState, after: ParseState) -> bool {
    after.reported().len() > before.reported().len() || after.next().raw is Error
}

/// The lexer reads an error token somewhere in the text.
pub open spec fn lexes_an_error(filepath: PathId, text: Seq<char>) -> bool {
    exists|p: int| 0 <= p <= text.len() && (#[trigger] lex_no_comments(filepath, text, p)).0.raw is Error
}

/// `after` holds the same tokens as `before`, at the same place.
pub open spec fn same_place(before: ParseState, after: ParseState) -> bool {
    &&& after.text() == before.text()
    &&& after.file() == before.file()
    &&& after.current() == before.current()
    &&& after.next() == before.next()
    &&& after.position() == before.position()
    &&& after.next_from() == before.next_from()
    &&& after.last_identifier() == before.last_identifier()
    &&& after.source_bytes() == before.source_bytes()
    &&& after.scanned_string() == before.scanned_string()
    &&& after.last_char() == before.last_char()
    &&& after.names() == before.names()
}

/// `id` stands for `name` among `names`: the name at the position it
/// stands for.
pub open spec fn resolves_to(names: Seq<Seq<char>>, id: IdentifierId, name: Seq<char>) -> bool {
    &&& 1 <= id.0 <= names.len()
    &&& names[id.0 - 1] == name
}

/// The name of the identifier read from index `p` on, skipping comments.
pub open spec fn identifier_text_from(f: PathId, t: Seq<char>, p: int) -> Seq<char> {
    identifier_name(t, lex_no_comments(f, t, p).2)
}

/// `identifier` is the identifier token read from index `q` on: at its
/// location, with the ID that stands for its name among `names`.
pub open spec fn identifier_read_from(
    names: Seq<Seq<char>>,
    identifier: IdentifierAST,
    f: PathId,
    t: Seq<char>,
    q: int,
) -> bool {
    &&& identifier.location == token_from(f, t, q).location
    &&& resolves_to(names, identifier.id, identifier_text_from(f, t, q))
}

/// An ID that stands for a name keeps standing for it as names are added.
pub proof fn lemma_resolves_later(a: Seq<Seq<char>>, b: Seq<Seq<char>>, id: IdentifierId, name: Seq<char>)
    requires
        a.is_prefix_of(b),
        resolves_to(a, id, name),
    ensures
        resolves_to(b, id, name),
{
    assert(b.subrange(0, a.len() as int)[id.0 - 1] == b[id.0 - 1]);
}

impl<'s> ParseState<'s> {
    /// Creates an initial parse state from file source: the first token is
    /// both the current and the next one, and a lexing error in it is
    /// reported.
    pub fn new(
        filepath: PathId,
        source: &'s str,
        diagnostics: Diagnostics,
        identifiers: IdentifierInterner,
    ) -> (r: Self)
        requires
            source.spec_bytes().len() + 2 < usize::MAX,
            identifiers.wf(),
            identifiers.view().len() + source@.len() + 4 < usize::MAX,
            no_stuck_chars(source@),
            diagnostics.wf(),
        ensures
            r.wf(),
            r.text() == source@,
            r.file() == filepath,
            r.next() == lex_no_comments(filepath, source@, 0).0,
            r.position() == lex_no_comments(filepath, source@, 0).1,
            r.current() == r.next(),
            r.next_from() == 0,
            checked_token(diagnostics.diagnostics@, r.reported(), r.next()),
    {
        let mut lexer = Lexer::new(filepath, source, identifiers);
        let current_token = Self::read_token(&mut lexer, Ghost(usize::MAX as int));
        let next_token = current_token;
        let mut state = ParseState { lexer, current_token, next_token, diagnostics, next_from: Ghost(0) };
        state.check_next_token();
        state
    }

    /// Gives back the diagnostics and the identifier interner.
    pub fn finish(self) -> (r: (Diagnostics, IdentifierInterner))
        requires
            self.wf(),
        ensures
            r.0.diagnostics@ == self.reported(),
            r.0.wf(),
            r.1.wf(),
    {
        (self.diagnostics, self.lexer.into_identifiers())
    }

    /// Adds diagnostic if the next token has lex error in itself.
    fn check_next_token(&mut self)
        requires
            old(self).wf(),
        ensures
            final(self).wf(),
            same_place(*old(self), *final(self)),
            checked_token(old(self).reported(), final(self).reported(), old(self).next()),
    {
        if let RawToken::Error(error) = self.next_token.raw {
            self.diagnostics.add_diagnostic(
                LexErrorDiagnostic { error: LexError { location: self.next_token.location, raw: error } },
            );
        }
    }

    /// Advances to the next token (skips comment tokens).
    pub fn advance(&mut self)
        requires
            old(self).wf(),
        ensures
            final(self).wf(),
            advanced(*old(self), *final(self)),
            old(self).position() <= final(self).position(),
            final(self).measure() <= old(self).measure(),
            old(self).next().raw != RawToken::EndOfFile ==> final(self).measure() < old(self).measure(),
            old(self).reported().is_prefix_of(final(self).reported()),
            final(self).source_bytes() == old(self).source_bytes(),
    {
        self.check_next_token();
        self.current_token = self.next_token;
        self.next_from = Ghost(self.lexer.position());
        self.next_token = Self::read_token(&mut self.lexer, Ghost(usize::MAX as int));
    }

    /// Checks if the next token is `expected`: an error token fails
    /// silently, as it was reported when it was read, and any other
    /// unexpected one is reported.
    pub fn expect(&mut self, expected: RawToken) -> (r: Option<()>)
        requires
            old(self).wf(),
        ensures
            final(self).wf(),
            same_place(*old(self), *final(self)),
            r is None ==> failure_reported(*old(self), *final(self)),
            old(self).next().raw is Error ==> r is None && final(self).reported() == old(self).reported(),
            !(old(self).next().raw is Error) && old(self).next().raw == expected ==> r is Some
                && final(self).reported() == old(self).reported(),
            !(old(self).next().raw is Error) && old(self).next().raw != expected ==> r is None
                && reported_unexpected(
                old(self).reported(),
                final(self).reported(),
                old(self).current().location.end,
                old(self).next(),
                raw_token_text(expected),
            ),
    {
        if let RawToken::Error(_) = self.next_token.raw {
            return None;
        }
        if self.next_token.raw == expected {
            Some(())
        } else {
            self.diagnostics.add_diagnostic(
                UnexpectedToken {
                    offset: self.current_token.location.end,
                    got: self.next_token,
                    expected: String::from_str(raw_token_str(expected)),
                },
            );
            None
        }
    }

    /// Checks if the next token is `expected` and advances past it.
    pub fn consume(&mut self, expected: RawToken) -> (r: Option<()>)
        requires
            old(self).wf(),
        ensures
            final(self).wf(),
            final(self).text() == old(self).text(),
            final(self).file() == old(self).file(),
            old(self).next().raw == expected ==> (r is Some <==> !(expected is Error)),
            r is Some ==> advanced(*old(self), *final(self)) && old(self).next().raw == expected
                && final(self).measure() < old(self).measure() + if expected == RawToken::EndOfFile {
                1int
            } else {
                0int
            },
            r is None ==> same_place(*old(self), *final(self)) && failure_reported(*old(self), *final(self)),
            !(old(self).next().raw is Error) && old(self).next().raw != expected ==> r is None
                && reported_unexpected(
                old(self).reported(),
                final(self).reported(),
                old(self).current().location.end,
                old(self).next(),
                raw_token_text(expected),
            ),
            final(self).measure() <= old(self).measure(),
            old(self).position() <= final(self).position(),
            old(self).reported().is_prefix_of(final(self).reported()),
    {
        match self.expect(expected) {
            Some(()) => {
                self.advance();
                Some(())
            },
            None => None,
        }
    }

    /// The next token is one that the lexer reads somewhere in the text.
    pub proof fn lemma_next_is_lexed(&self)
        requires
            self.wf(),
        ensures
            self.next().raw is Error ==> lexes_an_error(self.file(), self.text()),
    {
        if self.next().raw is Error {
            assert(lex_no_comments(self.file(), self.text(), self.next_from@).0.raw is Error);
        }
    }

    /// Something is left to parse or nothing is; never less.
    pub proof fn lemma_measure_nonneg(&self)
        requires
            self.wf(),
        ensures
            self.measure() >= 0,
    {
    }

    /// Whether a byte of the source in `start..end` is a comma.
    pub fn text_has_comma(&self, start: ByteOffset, end: ByteOffset) -> (r: bool)
        ensures
            r == crate::parser::types::has_comma_between(self.source_bytes(), start.0 as int, end.0 as int),
    {
        let bytes = self.lexer.source_text().as_bytes();
        let mut i = start.0;
        while i < end.0 && i < bytes.len()
            invariant
                bytes@ == self.source_bytes(),
                start.0 <= i,
                forall|j: int| start.0 <= j < i && 0 <= j < bytes@.len() ==> bytes@[j] != 0x2cu8,
            decreases end.0 - i,
        {
            if bytes[i] == 0x2cu8 {
                assert(bytes@[i as int] == 0x2cu8);
                return true;
            }
            i += 1;
        }
        false
    }

    /// Reports the next token as unexpected where the parser expected what
    /// `expected` says.
    pub fn report_unexpected(&mut self, expected: String)
        requires
            old(self).wf(),
        ensures
            final(self).wf(),
            same_place(*old(self), *final(self)),
            reported_unexpected(
                old(self).reported(),
                final(self).reported(),
                old(self).current().location.end,
                old(self).next(),
                expected@,
            ),
    {
        self.diagnostics.add_diagnostic(
            UnexpectedToken { offset: self.current_token.location.end, got: self.next_token, expected },
        );
    }

    /// Takes the string that the lexer read last in a string literal,
    /// leaving its buffer empty.
    pub fn take_scanned_string(&mut self) -> (r: String)
        requires
            old(self).wf(),
        ensures
            r@ == old(self).scanned_string(),
            final(self).scanned_string() == Seq::<char>::empty(),
            final(self).last_char() == old(self).last_char(),
            final(self).wf(),
            final(self).text() == old(self).text(),
            final(self).file() == old(self).file(),
            final(self).current() == old(self).current(),
            final(self).next() == old(self).next(),
            final(self).position() == old(self).position(),
            final(self).reported() == old(self).reported(),
            final(self).source_bytes() == old(self).source_bytes(),
            final(self).names() == old(self).names(),
            final(self).last_identifier() == old(self).last_identifier(),
            final(self).next_from() == old(self).next_from(),
    {
        self.lexer.scanned_string()
    }

    /// Returns the character that the lexer read last in a character
    /// literal.
    pub fn scanned_char(&self) -> (r: char)
        ensures
            r == self.last_char(),
    {
        self.lexer.last_char_value()
    }

    /// Returns the bytes of the source.
    pub fn source_text_bytes(&self) -> (r: &'s [u8])
        ensures
            r@ == self.source_bytes(),
    {
        self.lexer.source_text().as_bytes()
    }

    /// Reports an integer literal that does not fit a `u64`.
    pub fn add_diagnostic_integer_overflow(&mut self, diagnostic: crate::parser::literal::IntegerOverflow)
        requires
            old(self).wf(),
        ensures
            final(self).wf(),
            same_place(*old(self), *final(self)),
            final(self).reported().drop_last() == old(self).reported(),
            final(self).reported().len() == old(self).reported().len() + 1,
            diagnostic.describes(final(self).reported().last()),
    {
        self.diagnostics.add_diagnostic(diagnostic);
    }

    /// Reports a float literal whose text is not a float.
    pub fn add_diagnostic_float_overflow(&mut self, diagnostic: crate::parser::literal::FloatOverflow)
        requires
            old(self).wf(),
        ensures
            final(self).wf(),
            same_place(*old(self), *final(self)),
            final(self).reported().drop_last() == old(self).reported(),
            final(self).reported().len() == old(self).reported().len() + 1,
            diagnostic.describes(final(self).reported().last()),
    {
        self.diagnostics.add_diagnostic(diagnostic);
    }

    /// Returns the ID of the identifier that the lexer read last.
    pub fn last_identifier_id(&self) -> (r: IdentifierId)
        ensures
            r == self.last_identifier(),
    {
        self.lexer.last_identifier_id()
    }

    /// Returns the kind of the current token.
    pub fn current_token_raw(&self) -> (r: RawToken)
        ensures
            r == self.current().raw,
    {
        self.current_token.raw
    }

    /// Returns the kind of the next token.
    pub fn next_token_raw(&self) -> (r: RawToken)
        ensures
            r == self.next().raw,
    {
        self.next_token.raw
    }

    /// Returns the location of the current token.
    pub fn current_location(&self) -> (r: Location)
        ensures
            r == self.current().location,
    {
        self.current_token.location
    }

    /// Returns the location of the next token.
    pub fn next_location(&self) -> (r: Location)
        ensures
            r == self.next().location,
    {
        self.next_token.location
    }

    /// Creates a new location with the parser state's file and the given
    /// starting and ending byte offsets.
    pub fn make_location(&self, start: ByteOffset, end: ByteOffset) -> (r: Location)
        ensures
            r == (Location { filepath: self.file(), start, end }),
    {
        Location { filepath: self.lexer.file_id(), start, end }
    }

    /// Creates a new location with the state's file that starts at the
    /// given offset and ends where the current token ends.
    pub fn location_from(&self, start_offset: ByteOffset) -> (r: Location)
        ensures
            r == (Location { filepath: self.file(), start: start_offset, end: self.current().location.end }),
    {
        self.make_location(start_offset, self.current_token.location.end)
    }

    /// Checks if the next token is an identifier, advances past it and
    /// returns it with its ID; otherwise reports it as unexpected.
    pub fn consume_identifier(&mut self) -> (r: Option<IdentifierAST>)
        requires
            old(self).wf(),
        ensures
            final(self).wf(),
            old(self).next().raw == RawToken::Identifier ==> r == Some(
                IdentifierAST { location: old(self).next().location, id: old(self).last_identifier() },
            ) && advanced(*old(self), *final(self)) && final(self).measure() < old(self).measure(),
            old(self).next().raw != RawToken::Identifier ==> r is None && same_place(
                *old(self),
                *final(self),
            ) && reported_unexpected(
                old(self).reported(),
                final(self).reported(),
                old(self).current().location.end,
                old(self).next(),
                "identifier"@,
            ),
            r is None ==> failure_reported(*old(self), *final(self)),
            final(self).measure() <= old(self).measure(),
            old(self).position() <= final(self).position(),
            old(self).reported().is_prefix_of(final(self).reported()),
            r matches Some(identifier) ==> resolves_to(
                final(self).names(),
                identifier.id,
                identifier_text_from(old(self).file(), old(self).text(), old(self).next_from()),
            ),
    {
        proof {
            if self.next_token.raw == RawToken::Identifier {
                assert(resolves_to(
                    self.names(),
                    self.last_identifier(),
                    identifier_text_from(self.file(), self.text(), self.next_from()),
                ));
            }
        }
        let ghost s0 = *self;
        if self.next_token.raw == RawToken::Identifier {
            let identifier = IdentifierAST {
                location: self.next_token.location,
                id: self.lexer.last_identifier_id(),
            };
            self.advance();
            proof {
                lemma_resolves_later(
                    s0.names(),
                    self.names(),
                    identifier.id,
                    identifier_text_from(s0.file(), s0.text(), s0.next_from()),
                );
            }
            Some(identifier)
        } else {
            self.diagnostics.add_diagnostic(
                UnexpectedToken {
                    offset: self.current_token.location.end,
                    got: self.next_token,
                    expected: String::from_str("identifier"),
                },
            );
            None
        }
    }

    /// Parses a visibility qualifier: `pub` gives a public visibility at the
    /// keyword, anything else a private one and nothing is read.
    pub fn parse_visibility(&mut self) -> (r: Visibility)
        requires
            old(self).wf(),
        ensures
            final(self).wf(),
            old(self).next().raw == RawToken::Keyword(Keyword::Pub) ==> r == Visibility::Public(
                old(self).next().location,
            ) && advanced(*old(self), *final(self)),
            old(self).next().raw != RawToken::Keyword(Keyword::Pub) ==> r == Visibility::Private
                && *final(self) == *old(self),
            final(self).measure() <= old(self).measure(),
    {
        if self.next_token.raw == RawToken::Keyword(Keyword::Pub) {
            self.advance();
            Visibility::Public(self.current_token.location)
        } else {
            Visibility::Private
        }
    }

    /// Returns the file being parsed.
    pub fn file_id(&self) -> (r: PathId)
        ensures
            r == self.file(),
    {
        self.lexer.file_id()
    }

    /// Returns the source text.
    pub fn source(&self) -> (r: &'s str)
        ensures
            r.spec_bytes() == self.source_bytes(),
    {
        self.lexer.source_text()
    }

    /// Reports a visibility qualifier that has no effect.
    pub fn report_unnecessary_visibility(
        &mut self,
        diagnostic: crate::parser::UnnecessaryVisibilityQualifierDiagnostic,
    )
        requires
            old(self).wf(),
        ensures
            final(self).wf(),
            same_place(*old(self), *final(self)),
            final(self).reported().drop_last() == old(self).reported(),
            final(self).reported().len() == old(self).reported().len() + 1,
            diagnostic.describes(final(self).reported().last()),
    {
        self.diagnostics.add_diagnostic(diagnostic);
    }
}

} // verus!

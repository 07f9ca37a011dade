//! Parsing paths and types: type constructors, tuples, function types,
//! interface objects, type arguments, bounds, generic parameters and where
//! predicates.

use vstd::prelude::*;

use super::state::{
    after_token, failure_reported, identifier_read_from, identifier_text_from, lemma_list_step, lemma_resolves_later,
    lemma_token_progress, list_at, list_items_at, token_from, reported_unexpected, same_place, ParseState,
};
use crate::ast::{GenericParameter, IdentifierAST, ImportPath, Path, Type, TypeConstructor, WherePredicate};
use crate::interner::PathId;
use crate::location::Location;
use crate::token::{raw_token_str, raw_token_text, Keyword, Punctuator, RawToken};

verus! {

/// `after` comes from `before` by parsing: the same text and file, no more
/// left to parse, and the diagnostics of `before` followed by new ones.
pub open spec fn moved_on(before: ParseState, after: ParseState) -> bool {
    &&& after.text() == before.text()
    &&& after.file() == before.file()
    &&& after.measure() <= before.measure()
    &&& before.position() <= after.position()
    &&& before.reported().is_prefix_of(after.reported())
    &&& before.names().is_prefix_of(after.names())
}

/// A parsed node with this location covers the tokens read from `before`
/// to `after`: from the start of the first one to the end of the last one,
/// and at least one token was read.
pub open spec fn spans(location: Location, before: ParseState, after: ParseState) -> bool {
    &&& location.start == before.next().location.start
    &&& location.end == after.current().location.end
    &&& after.measure() < before.measure()
}

/// A sequence that extends a prefix of another extends that other too.
proof fn lemma_prefix_trans<A>(a: Seq<A>, b: Seq<A>, c: Seq<A>)
    requires
        a.is_prefix_of(b),
        b.is_prefix_of(c),
    ensures
        a.is_prefix_of(c),
{
    assert forall|i: int| 0 <= i < a.len() implies a[i] == c.subrange(0, a.len() as int)[i] by {
        assert(a[i] == b.subrange(0, a.len() as int)[i]);
        assert(b[i] == c.subrange(0, b.len() as int)[i]);
    }
    assert(a =~= c.subrange(0, a.len() as int));
}

/// Moving on is transitive.
pub proof fn lemma_moved_on_trans(a: ParseState, b: ParseState, c: ParseState)
    requires
        moved_on(a, b),
        moved_on(b, c),
    ensures
        moved_on(a, c),
{
    lemma_prefix_trans(a.reported(), b.reported(), c.reported());
    lemma_prefix_trans(a.names(), b.names(), c.names());
}

/// Whether `raw` can start a type.
pub open spec fn starts_type(raw: RawToken) -> bool {
    ||| raw == RawToken::Punctuator(Punctuator::OpenParent)
    ||| raw == RawToken::Identifier
    ||| raw == RawToken::Keyword(Keyword::Dyn)
    ||| raw == RawToken::Punctuator(Punctuator::Underscore)
    ||| raw == RawToken::Keyword(Keyword::Fun)
}

/// The kind of type that the first token decides: `(` a tuple or a
/// parenthesized type, an identifier a type constructor, `dyn` an
/// interface object type, `_` the underscore type and `fun` a function type.
pub open spec fn type_fits_first_token(raw: RawToken, r: Option<Type>) -> bool {
    if raw == RawToken::Punctuator(Punctuator::OpenParent) {
        r matches Some(ty) ==> (ty is Tuple || ty is Parenthesized)
    } else if raw == RawToken::Identifier {
        r matches Some(ty) ==> ty is Constructor
    } else if raw == RawToken::Keyword(Keyword::Dyn) {
        r matches Some(ty) && ty is InterfaceObject
    } else if raw == RawToken::Punctuator(Punctuator::Underscore) {
        r matches Some(ty) && ty is Underscore
    } else if raw == RawToken::Keyword(Keyword::Fun) {
        r matches Some(ty) ==> ty is Function
    } else {
        r is None
    }
}

/// Whether a byte of `bytes` in `start..end` is a comma.
pub open spec fn has_comma_between(bytes: Seq<u8>, start: int, end: int) -> bool {
    exists|i: int| start <= i < end && 0 <= i < bytes.len() && bytes[i] == 0x2cu8
}

/// The rest of a path from index `p` on: `.` and an identifier, any
/// number of times. `None` where a `.` is not followed by an identifier;
/// otherwise where the token after the rest is read from, and how many
/// identifiers the rest holds.
pub open spec fn path_tail(f: PathId, s: Seq<char>, p: int) -> Option<(int, nat)>
    decreases s.len() - p,
{
    if token_from(f, s, p).raw == RawToken::Punctuator(Punctuator::Dot) {
        let q = after_token(f, s, p);
        if token_from(f, s, q).raw == RawToken::Identifier {
            let q2 = after_token(f, s, q);
            if p < q2 <= s.len() {
                match path_tail(f, s, q2) {
                    Some((e, c)) => Some((e, c + 1)),
                    None => None,
                }
            } else {
                None
            }
        } else {
            None
        }
    } else {
        Some((p, 0))
    }
}

/// A path from index `p` on: identifiers separated by dots. `None` where
/// the tokens do not form one; otherwise where the token after it is read
/// from, and how many identifiers it holds.
pub open spec fn path_at(f: PathId, s: Seq<char>, p: int) -> Option<(int, nat)> {
    if token_from(f, s, p).raw == RawToken::Identifier {
        match path_tail(f, s, after_token(f, s, p)) {
            Some((e, c)) => Some((e, c + 1)),
            None => None,
        }
    } else {
        None
    }
}

/// An import path from index `p` on: a path, then `as` and an identifier
/// if `as` follows. `None` where the tokens do not form one; otherwise
/// where the token after it is read from, and whether it has `as`.
pub open spec fn import_path_at(f: PathId, s: Seq<char>, p: int) -> Option<(int, bool)> {
    match path_at(f, s, p) {
        Some((e, _)) => if token_from(f, s, e).raw == RawToken::Keyword(Keyword::As) {
            let q = after_token(f, s, e);
            if token_from(f, s, q).raw == RawToken::Identifier {
                Some((after_token(f, s, q), true))
            } else {
                None
            }
        } else {
            Some((e, false))
        },
        None => None,
    }
}

/// Where the identifier at position `i` of a path read from index `p` on
/// is read from: each one comes two tokens, a dot and itself, after the
/// one before.
pub open spec fn path_identifier_from(f: PathId, t: Seq<char>, p: int, i: nat) -> int
    decreases i,
{
    if i == 0 {
        p
    } else {
        after_token(f, t, after_token(f, t, path_identifier_from(f, t, p, (i - 1) as nat)))
    }
}

/// The identifiers of a path read from index `p` on are the identifier
/// tokens of the path, in order.
pub open spec fn path_identifiers_read(names: Seq<Seq<char>>, path: Path, f: PathId, t: Seq<char>, p: int) -> bool {
    forall|i: int|
        0 <= i < path.identifiers@.len() ==> #[trigger] identifier_read_from(
            names,
            path.identifiers@[i],
            f,
            t,
            path_identifier_from(f, t, p, i as nat),
        )
}

/// The identifiers of a path stay read from their tokens as names are
/// added.
pub proof fn lemma_path_read_later(
    before: Seq<Seq<char>>,
    after: Seq<Seq<char>>,
    path: Path,
    f: PathId,
    t: Seq<char>,
    p: int,
)
    requires
        before.is_prefix_of(after),
        path_identifiers_read(before, path, f, t, p),
    ensures
        path_identifiers_read(after, path, f, t, p),
{
    assert forall|i: int| 0 <= i < path.identifiers@.len() implies #[trigger] identifier_read_from(
        after,
        path.identifiers@[i],
        f,
        t,
        path_identifier_from(f, t, p, i as nat),
    ) by {
        assert(identifier_read_from(before, path.identifiers@[i], f, t, path_identifier_from(f, t, p, i as nat)));
        lemma_resolves_later(
            before,
            after,
            path.identifiers@[i].id,
            identifier_text_from(f, t, path_identifier_from(f, t, p, i as nat)),
        );
    }
}

/// Identifiers read from a path keep being read from it as names are
/// added, and one more read from the next place joins them.
proof fn lemma_path_identifiers_grow(
    before: Seq<Seq<char>>,
    after: Seq<Seq<char>>,
    identifiers: Seq<IdentifierAST>,
    next: IdentifierAST,
    f: PathId,
    t: Seq<char>,
    p: int,
)
    requires
        before.is_prefix_of(after),
        forall|i: int|
            0 <= i < identifiers.len() ==> #[trigger] identifier_read_from(
                before,
                identifiers[i],
                f,
                t,
                path_identifier_from(f, t, p, i as nat),
            ),
        identifier_read_from(after, next, f, t, path_identifier_from(f, t, p, identifiers.len())),
    ensures
        forall|i: int|
            0 <= i < identifiers.len() + 1 ==> #[trigger] identifier_read_from(
                after,
                identifiers.push(next)[i],
                f,
                t,
                path_identifier_from(f, t, p, i as nat),
            ),
{
    assert forall|i: int| 0 <= i < identifiers.len() + 1 implies #[trigger] identifier_read_from(
        after,
        identifiers.push(next)[i],
        f,
        t,
        path_identifier_from(f, t, p, i as nat),
    ) by {
        if i < identifiers.len() {
            assert(identifiers.push(next)[i] == identifiers[i]);
            assert(identifier_read_from(before, identifiers[i], f, t, path_identifier_from(f, t, p, i as nat)));
            lemma_resolves_later(
                before,
                after,
                identifiers[i].id,
                identifier_text_from(f, t, path_identifier_from(f, t, p, i as nat)),
            );
        }
    }
}

/// Parses a path: identifiers separated by dots.
pub fn parse_path(state: &mut ParseState) -> (r: Option<Path>)
    requires
        old(state).wf(),
    ensures
        final(state).wf(),
        moved_on(*old(state), *final(state)),
        r is None ==> failure_reported(*old(state), *final(state)),
        old(state).next().raw == RawToken::Identifier ==> final(state).measure() < old(state).measure(),
        r matches Some(path) ==> spans(path.location, *old(state), *final(state))
            && path.identifiers@.len() >= 1 && path.location.filepath == old(state).file(),
        match path_at(old(state).file(), old(state).text(), old(state).next_from()) {
            Some((e, c)) => r matches Some(path) && path.identifiers@.len() == c && final(state).next_from()
                == e,
            None => r is None,
        },
        r matches Some(path) ==> path_identifiers_read(
            final(state).names(),
            path,
            old(state).file(),
            old(state).text(),
            old(state).next_from(),
        ),
        old(state).next().raw != RawToken::Identifier ==> r is None && same_place(
            *old(state),
            *final(state),
        ) && reported_unexpected(
            old(state).reported(),
            final(state).reported(),
            old(state).current().location.end,
            old(state).next(),
            "identifier"@,
        ),
{
    let ghost start_state = *state;
    let ghost f = state.file();
    let ghost text = state.text();
    proof {
        state.lemma_next_from();
    }
    let mut identifiers: Vec<crate::ast::IdentifierAST> = Vec::new();
    let first_identifier = match state.consume_identifier() {
        Some(identifier) => identifier,
        None => return None,
    };
    identifiers.push(first_identifier);
    let ghost p = start_state.next_from();
    proof {
        assert(identifier_read_from(state.names(), identifiers@[0], f, text, path_identifier_from(f, text, p, 0)));
    }
    let start = first_identifier.location.start;
    while state.next_token_raw() == RawToken::Punctuator(Punctuator::Dot)
        invariant
            state.wf(),
            start_state == *old(state),
            start_state.next().raw == RawToken::Identifier,
            moved_on(start_state, *state),
            state.measure() < start_state.measure(),
            start == start_state.next().location.start,
            identifiers@.len() >= 1,
            f == start_state.file(),
            text == start_state.text(),
            path_at(f, text, start_state.next_from()) == match path_tail(f, text, state.next_from()) {
                Some((e, c)) => Some((e, c + identifiers@.len())),
                None => None::<(int, nat)>,
            },
            p == start_state.next_from(),
            state.next_from() == after_token(f, text, path_identifier_from(f, text, p, (identifiers@.len() - 1) as nat)),
            forall|i: int|
                0 <= i < identifiers@.len() ==> #[trigger] identifier_read_from(
                    state.names(),
                    identifiers@[i],
                    f,
                    text,
                    path_identifier_from(f, text, p, i as nat),
                ),
        decreases state.measure(),
    {
        let ghost before = *state;
        proof {
            state.lemma_next_from();
            lemma_token_progress(f, text, state.next_from());
        }
        assert(before.next().raw != RawToken::EndOfFile);
        state.advance();
        let ghost middle = *state;
        assert(middle.measure() < before.measure());
        let identifier = state.consume_identifier();
        assert(state.measure() <= middle.measure());
        proof {
            state.lemma_measure_nonneg();
            lemma_moved_on_trans(before, middle, *state);
            lemma_moved_on_trans(start_state, before, *state);
        }
        proof {
            middle.lemma_next_from();
            lemma_token_progress(f, text, middle.next_from());
        }
        let ghost old_identifiers = identifiers@;
        match identifier {
            Some(identifier) => {
                proof {
                    assert(path_identifier_from(f, text, p, old_identifiers.len()) == middle.next_from());
                    lemma_path_identifiers_grow(
                        before.names(),
                        state.names(),
                        old_identifiers,
                        identifier,
                        f,
                        text,
                        p,
                    );
                }
                identifiers.push(identifier);
            },
            None => return None,
        }
        proof {
            assert(identifiers@ == old_identifiers.push(identifiers@[old_identifiers.len() as int]));
        }
    }
    proof {
        state.lemma_next_from();
    }
    Some(Path { location: state.location_from(start), identifiers })
}

/// Parses an import path: a path, then `as` and the name it is imported
/// under, if there is one.
pub fn parse_import_path(state: &mut ParseState) -> (r: Option<ImportPath>)
    requires
        old(state).wf(),
    ensures
        final(state).wf(),
        moved_on(*old(state), *final(state)),
        r is None ==> failure_reported(*old(state), *final(state)),
        r matches Some(import) ==> import.path.location.start == old(state).next().location.start
            && final(state).measure() < old(state).measure(),
        match import_path_at(old(state).file(), old(state).text(), old(state).next_from()) {
            Some((e, renamed)) => r matches Some(import) && (import.as_ is Some) == renamed
                && final(state).next_from() == e,
            None => r is None,
        },
{
    let ghost start_state = *state;
    let path = match parse_path(state) {
        Some(path) => path,
        None => return None,
    };
    proof {
        state.lemma_next_from();
    }
    let as_ = if state.next_token_raw() == RawToken::Keyword(Keyword::As) {
        let ghost before = *state;
        state.advance();
        let ghost middle = *state;
        proof {
            before.lemma_next_from();
            middle.lemma_next_from();
        }
        let name = state.consume_identifier();
        proof {
            lemma_moved_on_trans(start_state, before, middle);
            lemma_moved_on_trans(start_state, middle, *state);
        }
        match name {
            Some(name) => Some(name),
            None => return None,
        }
    } else {
        None
    };
    Some(ImportPath { path, as_ })
}

/// The text that says what a list expected where it found something else:
/// one of its closing tokens or a comma.
pub(crate) fn list_expectation(closing: RawToken) -> (r: String)
    ensures
        r@ == crate::english::one_of_text(seq![raw_token_text(closing), "`,`"@]),
{
    let mut items: Vec<String> = Vec::new();
    items.push(String::from_str(raw_token_str(closing)));
    items.push(String::from_str("`,`"));
    proof {
        assert(crate::english::texts(items@) =~= seq![raw_token_text(closing), "`,`"@]);
    }
    crate::english::one_of(items.as_slice())
}

/// A type from index `q` on that is a path without type arguments; then
/// where the token after it is read from.
#[verifier::opaque]
pub open spec fn path_type_at(f: PathId, t: Seq<char>, q: int) -> Option<int> {
    match path_at(f, t, q) {
        Some((e, _)) => if token_from(f, t, e).raw != RawToken::Punctuator(Punctuator::OpenBracket) {
            Some(e)
        } else {
            None
        },
        None => None,
    }
}

/// [`path_type_at`] as the element of a list.
pub open spec fn path_type_element(f: PathId, t: Seq<char>) -> spec_fn(int) -> Option<int> {
    |q: int| path_type_at(f, t, q)
}

/// Whether a token is `closing`.
pub open spec fn closes_with(closing: RawToken) -> spec_fn(RawToken) -> bool {
    |raw: RawToken| raw == closing
}

/// A type constructor from index `p` on: a path, then, where `[` follows,
/// type arguments that are paths without type arguments, separated by
/// commas, and `]`. Then where the token after it is read from, how many
/// identifiers its path has and how many type arguments it has.
#[verifier::opaque]
pub open spec fn type_constructor_at(f: PathId, t: Seq<char>, p: int) -> Option<(int, nat, nat)> {
    match path_at(f, t, p) {
        Some((e, k)) => if token_from(f, t, e).raw != RawToken::Punctuator(Punctuator::OpenBracket) {
            Some((e, k, 0))
        } else {
            match list_at(
                path_type_element(f, t),
                closes_with(RawToken::Punctuator(Punctuator::CloseBracket)),
                f,
                t,
                after_token(f, t, e),
            ) {
                Some((z, n)) => Some((after_token(f, t, z), k, n)),
                None => None,
            }
        },
        None => None,
    }
}

/// Parses a list of types separated by commas, with an optional trailing
/// comma, up to the closing token, which is left as the next token.
pub fn parse_types_until(state: &mut ParseState, closing: RawToken) -> (r: Option<Vec<Type>>)
    requires
        old(state).wf(),
    ensures
        final(state).wf(),
        moved_on(*old(state), *final(state)),
        r is None ==> failure_reported(*old(state), *final(state)),
        r matches Some(v) ==> (v@.len() == 0 <==> old(state).next().raw == closing),
        r is Some ==> final(state).next().raw == closing,
        list_at(path_type_element(old(state).file(), old(state).text()), closes_with(closing), old(state).file(), old(state).text(), old(state).next_from()) matches Some((z, n)) ==> (r matches Some(v)
            && v@.len() == n && final(state).next_from() == z),
    decreases old(state).measure(), 12int,
{
    proof {
        reveal(path_type_at);
    }
    let ghost start_state = *state;
    let ghost f = start_state.file();
    let ghost t = start_state.text();
    let ghost el = path_type_element(f, t);
    let ghost cl = closes_with(closing);
    let ghost whole = list_at(el, cl, f, t, start_state.next_from());
    proof {
        start_state.lemma_next_from();
        reveal(list_at);
    }
    let mut result: Vec<Type> = Vec::new();
    if state.next_token_raw() == closing {
        return Some(result);
    }
    assert(whole == list_items_at(el, cl, f, t, start_state.next_from()));
    loop
        invariant_except_break
            whole is Some ==> (list_items_at(el, cl, f, t, state.next_from()) matches Some((z, n)) && whole
                == Some((z, n + result@.len()))),
        invariant
            state.wf(),
            start_state == *old(state),
            moved_on(start_state, *state),
            f == start_state.file(),
            t == start_state.text(),
            el == path_type_element(f, t),
            cl == closes_with(closing),
            whole == list_at(el, cl, f, t, start_state.next_from()),
        ensures
            result@.len() > 0,
            state.wf(),
            moved_on(start_state, *state),
            state.next().raw == closing,
            whole is Some ==> whole == Some((state.next_from(), result@.len() as nat)),
        decreases state.measure(),
    {
        let ghost before = *state;
        proof {
            state.lemma_measure_nonneg();
            before.lemma_next_from();
            if whole is Some {
                lemma_list_step(el, cl, f, t, before.next_from());
                reveal(path_type_at);
                assert(el(before.next_from()) == path_type_at(f, t, before.next_from()));
            }
            assert(forall|raw: RawToken| #[trigger] cl(raw) == (raw == closing));
        }
        match parse_type(state) {
            Some(ty) => result.push(ty),
            None => {
                proof {
                    lemma_moved_on_trans(start_state, before, *state);
                }
                return None;
            },
        }
        proof {
            lemma_moved_on_trans(start_state, before, *state);
            state.lemma_next_from();
        }
        if state.next_token_raw() == closing {
            break;
        }
        if state.next_token_raw() != RawToken::Punctuator(Punctuator::Comma) {
            let ghost middle = *state;
            state.report_unexpected(list_expectation(closing));
            proof {
                lemma_moved_on_trans(start_state, middle, *state);
            }
            return None;
        }
        let ghost middle = *state;
        state.advance();
        proof {
            lemma_moved_on_trans(start_state, middle, *state);
            state.lemma_measure_nonneg();
            state.lemma_next_from();
        }
        if state.next_token_raw() == closing {
            break;
        }
    }
    Some(result)
}

/// A type constructor that [`type_constructor_at`] reads starts with an
/// identifier.
pub proof fn lemma_type_constructor_at(f: PathId, t: Seq<char>, p: int)
    requires
        type_constructor_at(f, t, p) is Some,
    ensures
        token_from(f, t, p).raw == RawToken::Identifier,
{
    reveal(type_constructor_at);
}

/// Parses a type.
pub fn parse_type(state: &mut ParseState) -> (r: Option<Type>)
    requires
        old(state).wf(),
    ensures
        final(state).wf(),
        moved_on(*old(state), *final(state)),
        r is None ==> failure_reported(*old(state), *final(state)),
        r matches Some(ty) ==> spans(ty.location_of(), *old(state), *final(state)),
        type_fits_first_token(old(state).next().raw, r),
        !starts_type(old(state).next().raw) ==> same_place(*old(state), *final(state))
            && reported_unexpected(
            old(state).reported(),
            final(state).reported(),
            old(state).current().location.end,
            old(state).next(),
            "type"@,
        ),
        old(state).next().raw == RawToken::Identifier ==> match path_at(
            old(state).file(),
            old(state).text(),
            old(state).next_from(),
        ) {
            Some((e, n)) => token_from(old(state).file(), old(state).text(), e).raw
                != RawToken::Punctuator(Punctuator::OpenBracket) ==> (r matches Some(
                Type::Constructor(c),
            ) && c.path.identifiers@.len() == n && c.arguments@.len() == 0 && final(state).next_from()
                == e),
            None => r is None,
        },
        type_constructor_at(old(state).file(), old(state).text(), old(state).next_from()) matches Some(
            (e, k, n),
        ) ==> (r matches Some(Type::Constructor(c)) && c.path.identifiers@.len() == k && c.arguments@.len()
            == n && final(state).next_from() == e),
        old(state).next().raw == RawToken::Identifier ==> (r matches Some(Type::Constructor(c))
            ==> path_identifiers_read(
            final(state).names(),
            c.path,
            old(state).file(),
            old(state).text(),
            old(state).next_from(),
        )),
        function_type_at(old(state).file(), old(state).text(), old(state).next_from()) matches Some(
            (e, n, has_return),
        ) ==> (r matches Some(Type::Function { parameter_types, return_type, .. })
            && parameter_types@.len() == n && (return_type is Some <==> has_return)
            && final(state).next_from() == e),
    decreases old(state).measure(), 10int,
{
    proof {
        if function_type_at(state.file(), state.text(), state.next_from()) is Some {
            state.lemma_next_from();
            reveal(function_type_at);
        }
        if type_constructor_at(state.file(), state.text(), state.next_from()) is Some {
            lemma_type_constructor_at(state.file(), state.text(), state.next_from());
            state.lemma_next_from();
        }
    }
    let raw = state.next_token_raw();
    if raw == RawToken::Punctuator(Punctuator::OpenParent) {
        parse_parenthesized_or_tuple_type(state)
    } else if raw == RawToken::Identifier {
        match parse_type_constructor(state) {
            Some(constructor) => Some(Type::Constructor(constructor)),
            None => None,
        }
    } else if raw == RawToken::Keyword(Keyword::Dyn) {
        parse_interface_object_type(state)
    } else if raw == RawToken::Punctuator(Punctuator::Underscore) {
        state.advance();
        Some(Type::Underscore { location: state.current_location() })
    } else if raw == RawToken::Keyword(Keyword::Fun) {
        parse_function_type(state)
    } else {
        state.report_unexpected(String::from_str("type"));
        None
    }
}

/// Parses an interface object type: `dyn` and its bounds.
fn parse_interface_object_type(state: &mut ParseState) -> (r: Option<Type>)
    requires
        old(state).wf(),
        old(state).next().raw == RawToken::Keyword(Keyword::Dyn),
    ensures
        final(state).wf(),
        moved_on(*old(state), *final(state)),
        r is None ==> failure_reported(*old(state), *final(state)),
        (r matches Some(ty) && ty is InterfaceObject && spans(ty.location_of(), *old(state), *final(state))),
    decreases old(state).measure(), 9int,
{
    let ghost start_state = *state;
    let start = state.next_location().start;
    state.advance();
    let ghost middle = *state;
    proof {
        state.lemma_measure_nonneg();
    }
    let bounds = parse_bounds(state);
    proof {
        lemma_moved_on_trans(start_state, middle, *state);
    }
    Some(Type::InterfaceObject { location: state.location_from(start), bounds })
}

/// A function type from index `p` on whose parameter types are paths
/// without type arguments: `fun`, the types in parentheses, separated by
/// commas, and `:` and a path as the return type if `:` comes. Then where
/// the token after it is read from, how many parameter types it has and
/// whether it has a return type.
#[verifier::opaque]
pub open spec fn function_type_at(f: PathId, t: Seq<char>, p: int) -> Option<(int, nat, bool)> {
    if token_from(f, t, p).raw == RawToken::Keyword(Keyword::Fun) && token_from(f, t, after_token(f, t, p)).raw
        == RawToken::Punctuator(Punctuator::OpenParent) {
        match list_at(
            path_type_element(f, t),
            closes_with(RawToken::Punctuator(Punctuator::CloseParent)),
            f,
            t,
            after_token(f, t, after_token(f, t, p)),
        ) {
            Some((z, n)) => match super::items::return_type_at(f, t, after_token(f, t, z)) {
                Some((e, has_return)) => Some((e, n, has_return)),
                None => None,
            },
            None => None,
        }
    } else {
        None
    }
}

/// Parses a function type: `fun`, the parameter types in parentheses, and
/// a colon and the return type if there is one.
fn parse_function_type(state: &mut ParseState) -> (r: Option<Type>)
    requires
        old(state).wf(),
        old(state).next().raw == RawToken::Keyword(Keyword::Fun),
    ensures
        final(state).wf(),
        moved_on(*old(state), *final(state)),
        r is None ==> failure_reported(*old(state), *final(state)),
        r matches Some(ty) ==> ty is Function && spans(ty.location_of(), *old(state), *final(state)),
        r matches Some(Type::Function { return_type, .. }) ==> (return_type is None ==> final(state).current().raw
            == RawToken::Punctuator(Punctuator::CloseParent)),
        function_type_at(old(state).file(), old(state).text(), old(state).next_from()) matches Some(
            (e, n, has_return),
        ) ==> (r matches Some(Type::Function { parameter_types, return_type, .. })
            && parameter_types@.len() == n && (return_type is Some <==> has_return)
            && final(state).next_from() == e),
    decreases old(state).measure(), 9int,
{
    let ghost s0 = *state;
    proof {
        s0.lemma_next_from();
        reveal(super::items::return_type_at);
        reveal(function_type_at);
    }
    let start = state.next_location().start;
    state.advance();
    let ghost s1 = *state;
    proof {
        s1.lemma_next_from();
    }
    let opened = state.consume(RawToken::Punctuator(Punctuator::OpenParent));
    let ghost s2 = *state;
    proof {
        lemma_moved_on_trans(s0, s1, s2);
        state.lemma_measure_nonneg();
    }
    if opened.is_none() {
        return None;
    }
    let parameter_types = match parse_types_until(state, RawToken::Punctuator(Punctuator::CloseParent)) {
        Some(types) => types,
        None => {
            proof {
                lemma_moved_on_trans(s0, s2, *state);
            }
            return None;
        },
    };
    let ghost s3 = *state;
    proof {
        s3.lemma_next_from();
    }
    state.advance();
    let ghost s4 = *state;
    proof {
        lemma_moved_on_trans(s0, s2, s3);
        lemma_moved_on_trans(s0, s3, s4);
        state.lemma_measure_nonneg();
        s4.lemma_next_from();
    }
    let return_type = if state.next_token_raw() == RawToken::Punctuator(Punctuator::Colon) {
        state.advance();
        let ghost s5 = *state;
        proof {
            lemma_moved_on_trans(s0, s4, s5);
            state.lemma_measure_nonneg();
            s5.lemma_next_from();
        }
        match parse_type(state) {
            Some(ty) => {
                proof {
                    lemma_moved_on_trans(s0, s5, *state);
                }
                Some(Box::new(ty))
            },
            None => {
                proof {
                    lemma_moved_on_trans(s0, s5, *state);
                }
                return None;
            },
        }
    } else {
        None
    };
    Some(Type::Function { location: state.location_from(start), parameter_types, return_type })
}

/// Parses a parenthesized type or a tuple type: types in parentheses; one
/// type without a comma after it is a parenthesized type.
fn parse_parenthesized_or_tuple_type(state: &mut ParseState) -> (r: Option<Type>)
    requires
        old(state).wf(),
        old(state).next().raw == RawToken::Punctuator(Punctuator::OpenParent),
    ensures
        final(state).wf(),
        moved_on(*old(state), *final(state)),
        r is None ==> failure_reported(*old(state), *final(state)),
        r matches Some(ty) ==> (ty is Tuple || ty is Parenthesized) && spans(
            ty.location_of(),
            *old(state),
            *final(state),
        ),
    decreases old(state).measure(), 9int,
{
    let ghost s0 = *state;
    let start = state.next_location().start;
    state.advance();
    let ghost s1 = *state;
    proof {
        state.lemma_measure_nonneg();
    }
    let mut element_types = match parse_types_until(state, RawToken::Punctuator(Punctuator::CloseParent)) {
        Some(types) => types,
        None => {
            proof {
                lemma_moved_on_trans(s0, s1, *state);
            }
            return None;
        },
    };
    let ghost s2 = *state;
    state.advance();
    proof {
        lemma_moved_on_trans(s0, s1, s2);
        lemma_moved_on_trans(s0, s2, *state);
    }
    let location = state.location_from(start);
    if element_types.len() == 1 {
        let element = element_types.pop().unwrap();
        if state.text_has_comma(element.location().end, state.current_location().end) {
            let mut element_types: Vec<Type> = Vec::new();
            element_types.push(element);
            Some(Type::Tuple { location, element_types })
        } else {
            Some(Type::Parenthesized { location, inner: Box::new(element) })
        }
    } else {
        Some(Type::Tuple { location, element_types })
    }
}

/// Parses the bounds of a type: type constructors separated by `+`. A
/// bound that does not parse is reported and left out.
pub fn parse_bounds(state: &mut ParseState) -> (r: Vec<TypeConstructor>)
    requires
        old(state).wf(),
    ensures
        final(state).wf(),
        moved_on(*old(state), *final(state)),
        old(state).next().raw == RawToken::Identifier ==> final(state).measure() < old(state).measure(),
        r@.len() > 0 ==> final(state).measure() < old(state).measure(),
        forall|i: int| 0 <= i < r@.len() ==> (#[trigger] r@[i]).location.filepath == old(state).file(),
        old(state).next().raw != RawToken::Identifier && old(state).next().raw != RawToken::Punctuator(
            Punctuator::Plus,
        ) ==> r@.len() == 0 && same_place(*old(state), *final(state)) && reported_unexpected(
            old(state).reported(),
            final(state).reported(),
            old(state).current().location.end,
            old(state).next(),
            "identifier"@,
        ),
    decreases old(state).measure(), 9int,
{
    let ghost start_state = *state;
    let mut bounds: Vec<TypeConstructor> = Vec::new();
    if let Some(bound) = parse_type_constructor(state) {
        bounds.push(bound);
    }
    while state.next_token_raw() == RawToken::Punctuator(Punctuator::Plus)
        invariant
            state.wf(),
            start_state == *old(state),
            moved_on(start_state, *state),
            start_state.next().raw == RawToken::Identifier ==> state.measure() < start_state.measure(),
            bounds@.len() > 0 ==> state.measure() < start_state.measure(),
            forall|i: int| 0 <= i < bounds@.len() ==> (#[trigger] bounds@[i]).location.filepath == start_state.file(),
            start_state.next().raw != RawToken::Identifier && start_state.next().raw != RawToken::Punctuator(
                Punctuator::Plus,
            ) ==> bounds@.len() == 0 && same_place(start_state, *state) && reported_unexpected(
                start_state.reported(),
                state.reported(),
                start_state.current().location.end,
                start_state.next(),
                "identifier"@,
            ),
        decreases state.measure(),
    {
        let ghost before = *state;
        state.advance();
        let ghost middle = *state;
        proof {
            state.lemma_measure_nonneg();
        }
        if let Some(bound) = parse_type_constructor(state) {
            bounds.push(bound);
        }
        proof {
            lemma_moved_on_trans(before, middle, *state);
            lemma_moved_on_trans(start_state, before, *state);
            state.lemma_measure_nonneg();
        }
    }
    bounds
}

/// Parses a type constructor: a path and its type arguments, if it has
/// any.
pub fn parse_type_constructor(state: &mut ParseState) -> (r: Option<TypeConstructor>)
    requires
        old(state).wf(),
    ensures
        final(state).wf(),
        moved_on(*old(state), *final(state)),
        r is None ==> failure_reported(*old(state), *final(state)),
        old(state).next().raw == RawToken::Identifier ==> final(state).measure() < old(state).measure(),
        r matches Some(c) ==> spans(c.location, *old(state), *final(state)) && c.location.filepath
            == old(state).file(),
        old(state).next().raw != RawToken::Identifier ==> r is None && same_place(
            *old(state),
            *final(state),
        ) && reported_unexpected(
            old(state).reported(),
            final(state).reported(),
            old(state).current().location.end,
            old(state).next(),
            "identifier"@,
        ),
        match path_at(old(state).file(), old(state).text(), old(state).next_from()) {
            Some((e, n)) => token_from(old(state).file(), old(state).text(), e).raw
                != RawToken::Punctuator(Punctuator::OpenBracket) ==> (r matches Some(c)
                && c.path.identifiers@.len() == n && c.arguments@.len() == 0 && final(state).next_from()
                == e),
            None => r is None,
        },
        type_constructor_at(old(state).file(), old(state).text(), old(state).next_from()) matches Some(
            (e, k, n),
        ) ==> (r matches Some(c) && c.path.identifiers@.len() == k && c.arguments@.len() == n
            && final(state).next_from() == e),
        r matches Some(c) ==> path_identifiers_read(
            final(state).names(),
            c.path,
            old(state).file(),
            old(state).text(),
            old(state).next_from(),
        ),
    decreases old(state).measure(), 8int,
{
    proof {
        reveal(type_constructor_at);
    }
    let ghost s0 = *state;
    let path = match parse_path(state) {
        Some(path) => path,
        None => return None,
    };
    let ghost s1 = *state;
    proof {
        s1.lemma_next_from();
    }
    proof {
        state.lemma_measure_nonneg();
    }
    let arguments = match parse_type_arguments_opt(state) {
        Some(arguments) => arguments,
        None => {
            proof {
                lemma_moved_on_trans(s0, s1, *state);
            }
            return None;
        },
    };
    proof {
        lemma_moved_on_trans(s0, s1, *state);
        lemma_path_read_later(s1.names(), state.names(), path, s0.file(), s0.text(), s0.next_from());
    }
    Some(TypeConstructor { location: state.location_from(path.location.start), path, arguments })
}

/// Parses type arguments if the next token is `[`; otherwise there are
/// none and nothing is read.
pub fn parse_type_arguments_opt(state: &mut ParseState) -> (r: Option<Vec<Type>>)
    requires
        old(state).wf(),
    ensures
        final(state).wf(),
        moved_on(*old(state), *final(state)),
        r is None ==> failure_reported(*old(state), *final(state)),
        old(state).next().raw != RawToken::Punctuator(Punctuator::OpenBracket) ==> (r matches Some(
            arguments,
        ) && arguments@.len() == 0 && *final(state) == *old(state)),
        old(state).next().raw == RawToken::Punctuator(Punctuator::OpenBracket) ==> (list_at(
            path_type_element(old(state).file(), old(state).text()),
            closes_with(RawToken::Punctuator(Punctuator::CloseBracket)),
            old(state).file(),
            old(state).text(),
            after_token(old(state).file(), old(state).text(), old(state).next_from()),
        ) matches Some((z, n)) ==> (r matches Some(v) && v@.len() == n
            && final(state).next_from() == after_token(old(state).file(), old(state).text(), z))),
    decreases old(state).measure(), 7int,
{
    if state.next_token_raw() != RawToken::Punctuator(Punctuator::OpenBracket) {
        return Some(Vec::new());
    }
    parse_type_arguments(state)
}

/// Parses type arguments: types in brackets.
pub fn parse_type_arguments(state: &mut ParseState) -> (r: Option<Vec<Type>>)
    requires
        old(state).wf(),
        old(state).next().raw == RawToken::Punctuator(Punctuator::OpenBracket),
    ensures
        final(state).wf(),
        moved_on(*old(state), *final(state)),
        r is None ==> failure_reported(*old(state), *final(state)),
        r is Some ==> final(state).measure() < old(state).measure() && final(state).current().raw
            == RawToken::Punctuator(Punctuator::CloseBracket),
        list_at(
            path_type_element(old(state).file(), old(state).text()),
            closes_with(RawToken::Punctuator(Punctuator::CloseBracket)),
            old(state).file(),
            old(state).text(),
            after_token(old(state).file(), old(state).text(), old(state).next_from()),
        ) matches Some((z, n)) ==> (r matches Some(v) && v@.len() == n
            && final(state).next_from() == after_token(old(state).file(), old(state).text(), z)),
    decreases old(state).measure(), 6int,
{
    let ghost s0 = *state;
    proof {
        s0.lemma_next_from();
    }
    state.advance();
    let ghost s1 = *state;
    proof {
        state.lemma_measure_nonneg();
    }
    let result = match parse_types_until(state, RawToken::Punctuator(Punctuator::CloseBracket)) {
        Some(types) => types,
        None => {
            proof {
                lemma_moved_on_trans(s0, s1, *state);
            }
            return None;
        },
    };
    let ghost s2 = *state;
    proof {
        s2.lemma_next_from();
    }
    state.advance();
    proof {
        lemma_moved_on_trans(s0, s1, s2);
        lemma_moved_on_trans(s0, s2, *state);
    }
    Some(result)
}

/// How messages name each of the tokens.
pub open spec fn token_texts(tokens: Seq<RawToken>) -> Seq<Seq<char>> {
    tokens.map_values(|t: RawToken| raw_token_text(t))
}

/// The text that says what a list expected where it found something else:
/// one of its closing tokens or a comma.
pub(crate) fn list_expectation_of(closings: &[RawToken]) -> (r: String)
    ensures
        r@ == crate::english::one_of_text(token_texts(closings@).push("`,`"@)),
{
    let mut items: Vec<String> = Vec::new();
    let mut i: usize = 0;
    while i < closings.len()
        invariant
            i <= closings@.len(),
            items@.len() == i,
            forall|j: int| 0 <= j < i ==> #[trigger] items@[j]@ == raw_token_text(closings@[j]),
        decreases closings.len() - i,
    {
        items.push(String::from_str(raw_token_str(closings[i])));
        i += 1;
    }
    items.push(String::from_str("`,`"));
    proof {
        assert(crate::english::texts(items@) =~= token_texts(closings@).push("`,`"@));
    }
    crate::english::one_of(items.as_slice())
}

/// Whether `raw` is one of the closing tokens.
pub(crate) fn is_closing(raw: RawToken, closings: &[RawToken]) -> (r: bool)
    ensures
        r == closings@.contains(raw),
{
    let mut i: usize = 0;
    while i < closings.len()
        invariant
            i <= closings@.len(),
            forall|j: int| 0 <= j < i ==> closings@[j] != raw,
        decreases closings.len() - i,
    {
        if closings[i] == raw {
            assert(closings@[i as int] == raw);
            return true;
        }
        i += 1;
    }
    false
}

/// Parses a generic parameter: its name, `:` and its bounds if it has any,
/// and `=` and its default value if it has one.
fn parse_generic_parameter(state: &mut ParseState) -> (r: Option<GenericParameter>)
    requires
        old(state).wf(),
    ensures
        final(state).wf(),
        moved_on(*old(state), *final(state)),
        r is None ==> failure_reported(*old(state), *final(state)),
        r matches Some(p) ==> p.name.location == old(state).next().location,
{
    let ghost s0 = *state;
    let name = match state.consume_identifier() {
        Some(name) => name,
        None => return None,
    };
    let ghost s1 = *state;
    let bounds = if state.next_token_raw() == RawToken::Punctuator(Punctuator::Colon) {
        state.advance();
        let ghost s2 = *state;
        let bounds = parse_bounds(state);
        proof {
            lemma_moved_on_trans(s1, s2, *state);
        }
        Some(bounds)
    } else {
        None
    };
    let ghost s3 = *state;
    proof {
        lemma_moved_on_trans(s0, s1, s3);
    }
    let default_value = if state.next_token_raw() == RawToken::Punctuator(Punctuator::Eq) {
        state.advance();
        let ghost s4 = *state;
        let ty = parse_type(state);
        proof {
            lemma_moved_on_trans(s3, s4, *state);
            lemma_moved_on_trans(s0, s3, *state);
        }
        match ty {
            Some(ty) => Some(ty),
            None => return None,
        }
    } else {
        None
    };
    Some(GenericParameter { name, bounds, default_value })
}

/// Parses generic parameters if the next token is `[`: parameters
/// separated by commas, with an optional trailing comma, in brackets.
/// Otherwise there are none and nothing is read.
pub fn parse_generic_parameters_opt(state: &mut ParseState) -> (r: Option<Vec<GenericParameter>>)
    requires
        old(state).wf(),
    ensures
        final(state).wf(),
        moved_on(*old(state), *final(state)),
        r is None ==> failure_reported(*old(state), *final(state)),
        old(state).next().raw != RawToken::Punctuator(Punctuator::OpenBracket) ==> (r matches Some(
            parameters,
        ) && parameters@.len() == 0 && *final(state) == *old(state)),
        old(state).next().raw == RawToken::Punctuator(Punctuator::OpenBracket) && r is Some
            ==> final(state).current().raw == RawToken::Punctuator(Punctuator::CloseBracket),
{
    let closing = RawToken::Punctuator(Punctuator::CloseBracket);
    let mut result: Vec<GenericParameter> = Vec::new();
    if state.next_token_raw() != RawToken::Punctuator(Punctuator::OpenBracket) {
        return Some(result);
    }
    let ghost s0 = *state;
    state.advance();
    let ghost start_state = *state;
    if state.next_token_raw() != closing {
        loop
            invariant
                state.wf(),
                s0 == *old(state),
                s0.next().raw == RawToken::Punctuator(Punctuator::OpenBracket),
                moved_on(s0, start_state),
                moved_on(start_state, *state),
                closing == RawToken::Punctuator(Punctuator::CloseBracket),
            ensures
                state.wf(),
                moved_on(start_state, *state),
                state.next().raw == closing,
            decreases state.measure(),
        {
            let ghost before = *state;
            match parse_generic_parameter(state) {
                Some(parameter) => result.push(parameter),
                None => {
                    proof {
                        lemma_moved_on_trans(start_state, before, *state);
                        lemma_moved_on_trans(s0, start_state, *state);
                    }
                    return None;
                },
            }
            proof {
                lemma_moved_on_trans(start_state, before, *state);
            }
            if state.next_token_raw() == closing {
                break;
            }
            if state.next_token_raw() != RawToken::Punctuator(Punctuator::Comma) {
                let ghost middle = *state;
                state.report_unexpected(list_expectation(closing));
                proof {
                    lemma_moved_on_trans(start_state, middle, *state);
                    lemma_moved_on_trans(s0, start_state, *state);
                }
                return None;
            }
            let ghost middle = *state;
            state.advance();
            proof {
                lemma_moved_on_trans(start_state, middle, *state);
                state.lemma_measure_nonneg();
            }
            if state.next_token_raw() == closing {
                break;
            }
        }
    }
    let ghost s1 = *state;
    state.advance();
    proof {
        lemma_moved_on_trans(s0, start_state, s1);
        lemma_moved_on_trans(s0, s1, *state);
    }
    Some(result)
}

/// Parses a where predicate: a type, `:` and its bounds.
fn parse_where_predicate(state: &mut ParseState) -> (r: Option<WherePredicate>)
    requires
        old(state).wf(),
    ensures
        final(state).wf(),
        moved_on(*old(state), *final(state)),
        r is None ==> failure_reported(*old(state), *final(state)),
        r is Some ==> final(state).measure() < old(state).measure(),
{
    let ghost s0 = *state;
    let ty = match parse_type(state) {
        Some(ty) => ty,
        None => return None,
    };
    let ghost s1 = *state;
    let colon = state.consume(RawToken::Punctuator(Punctuator::Colon));
    let ghost s2 = *state;
    proof {
        lemma_moved_on_trans(s0, s1, s2);
    }
    if colon.is_none() {
        return None;
    }
    let bounds = parse_bounds(state);
    proof {
        lemma_moved_on_trans(s0, s2, *state);
    }
    Some(WherePredicate { ty, bounds })
}

/// Parses where predicates if the next token is `where`: predicates
/// separated by commas, with an optional trailing comma, up to `{` or `;`,
/// which is left as the next token. Otherwise there are none and nothing
/// is read.
pub fn parse_where_predicates_opt(state: &mut ParseState) -> (r: Option<Vec<WherePredicate>>)
    requires
        old(state).wf(),
    ensures
        final(state).wf(),
        moved_on(*old(state), *final(state)),
        r is None ==> failure_reported(*old(state), *final(state)),
        old(state).next().raw != RawToken::Keyword(Keyword::Where) ==> (r matches Some(predicates)
            && predicates@.len() == 0 && *final(state) == *old(state)),
        old(state).next().raw == RawToken::Keyword(Keyword::Where) && r is Some ==> (final(state).next().raw
            == RawToken::Punctuator(Punctuator::OpenBrace) || final(state).next().raw
            == RawToken::Punctuator(Punctuator::Semicolon)),
{
    let mut result: Vec<WherePredicate> = Vec::new();
    if state.next_token_raw() != RawToken::Keyword(Keyword::Where) {
        return Some(result);
    }
    let closings = [RawToken::Punctuator(Punctuator::OpenBrace), RawToken::Punctuator(Punctuator::Semicolon)];
    let ghost s0 = *state;
    state.advance();
    let ghost start_state = *state;
    proof {
        assert(closings@ =~= seq![RawToken::Punctuator(Punctuator::OpenBrace), RawToken::Punctuator(Punctuator::Semicolon)]);
    }
    if is_closing(state.next_token_raw(), &closings) {
        return Some(result);
    }
    loop
        invariant
            state.wf(),
            s0 == *old(state),
            s0.next().raw == RawToken::Keyword(Keyword::Where),
            moved_on(s0, *state),
            closings@ =~= seq![RawToken::Punctuator(Punctuator::OpenBrace), RawToken::Punctuator(Punctuator::Semicolon)],
        ensures
            state.wf(),
            moved_on(s0, *state),
            state.next().raw == RawToken::Punctuator(Punctuator::OpenBrace) || state.next().raw
                == RawToken::Punctuator(Punctuator::Semicolon),
        decreases state.measure(),
    {
        let ghost before = *state;
        match parse_where_predicate(state) {
            Some(predicate) => result.push(predicate),
            None => {
                proof {
                    lemma_moved_on_trans(s0, before, *state);
                }
                return None;
            },
        }
        proof {
            lemma_moved_on_trans(s0, before, *state);
            state.lemma_measure_nonneg();
        }
        if is_closing(state.next_token_raw(), &closings) {
            break;
        }
        if state.next_token_raw() != RawToken::Punctuator(Punctuator::Comma) {
            let ghost middle = *state;
            state.report_unexpected(list_expectation_of(&closings));
            proof {
                lemma_moved_on_trans(s0, middle, *state);
            }
            return None;
        }
        let ghost middle = *state;
        state.advance();
        proof {
            lemma_moved_on_trans(s0, middle, *state);
            state.lemma_measure_nonneg();
        }
        if is_closing(state.next_token_raw(), &closings) {
            break;
        }
    }
    Some(result)
}

} // verus!

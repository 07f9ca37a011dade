//! Parsing module items: imports, functions, structs, tuple-like structs,
//! enums, interfaces and type aliases, and the items of a whole module.

use vstd::prelude::*;

use super::expression::parse_statements_block;
use super::pattern::parse_pattern;
use super::state::{
    advanced, after_token, failure_reported, identifier_read_from, identifier_text_from, later_start, lemma_list_step,
    lemma_list_starts, lemma_resolves_later, lemma_seq_step, lemma_token_progress, list_at, list_item_starts,
    list_items_at, list_starts, reported_unexpected, same_place,
    second_token, token_from, ParseState,
};
use super::types::{
    import_path_at, is_closing, lemma_moved_on_trans, lemma_path_read_later, list_expectation_of, moved_on,
    parse_bounds, path_at, path_identifiers_read, path_type_at, path_type_element, closes_with,
    parse_generic_parameters_opt, parse_import_path, parse_type, parse_type_constructor,
    parse_where_predicates_opt,
};
use super::{UnnecessaryVisibilityQualifierContext, UnnecessaryVisibilityQualifierDiagnostic};
use crate::ast::{
    IdentifierAST, Enum, Pattern, EnumItem, Function, FunctionParameter, FunctionSignature, Interface, ModuleItem,
    ModuleItemKind, NotSelfFunctionParameter, SelfFunctionParameter, Struct, StructField, TupleField,
    Statement, TupleLikeStruct, Type, TypeAlias, TypeConstructor, Visibility, WherePredicate,
};
use crate::diagnostics::BuildDiagnostic;
use crate::english::{one_of, one_of_text, texts};
use crate::interner::builtin_identifiers::SMALL_SELF;
use crate::interner::{IdentifierId, PathId};
use crate::text::{push_str, str_get};
use crate::token::{raw_token_str, raw_token_text, Keyword, Punctuator, RawToken};

verus! {

/// Whether `raw` is where parsing resumes after an item that did not
/// parse: a keyword that starts an item other than a function, or the end
/// of the file.
pub open spec fn resumes_items(raw: RawToken) -> bool {
    ||| raw == RawToken::Keyword(Keyword::Enum)
    ||| raw == RawToken::Keyword(Keyword::Import)
    ||| raw == RawToken::Keyword(Keyword::Struct)
    ||| raw == RawToken::Keyword(Keyword::Type)
    ||| raw == RawToken::Keyword(Keyword::Interface)
    ||| raw == RawToken::EndOfFile
}

/// The token of a doc comment: of the whole module, or of the item that
/// follows it.
pub open spec fn doc_comment_token(global: bool) -> RawToken {
    if global {
        RawToken::GlobalDocComment
    } else {
        RawToken::LocalDocComment
    }
}

/// Reads the doc comments that come next, of the module if `global` and
/// of an item otherwise, and gives their texts one after another; `None`,
/// reading nothing, where none comes next. A comment whose location is not
/// a range of the source between character boundaries adds no text.
pub fn parse_docstring(state: &mut ParseState, global: bool) -> (r: Option<String>)
    requires
        old(state).wf(),
    ensures
        final(state).wf(),
        moved_on(*old(state), *final(state)),
        old(state).next().raw != doc_comment_token(global) ==> r is None && *final(state) == *old(state),
        old(state).next().raw == doc_comment_token(global) ==> r is Some && final(state).measure() < old(
            state,
        ).measure() && final(state).next().raw != doc_comment_token(global),
{
    let kind = if global {
        RawToken::GlobalDocComment
    } else {
        RawToken::LocalDocComment
    };
    if state.next_token_raw() != kind {
        return None;
    }
    let ghost s0 = *state;
    let mut docstring = String::new();
    while state.next_token_raw() == kind
        invariant
            state.wf(),
            moved_on(s0, *state),
            s0.next().raw == kind,
            kind == doc_comment_token(global),
            kind != RawToken::EndOfFile,
            state.measure() < s0.measure() || *state == s0,
        ensures
            state.wf(),
            moved_on(s0, *state),
            state.measure() < s0.measure(),
            state.next().raw != kind,
        decreases state.measure(),
    {
        let ghost before = *state;
        state.advance();
        proof {
            lemma_moved_on_trans(s0, before, *state);
            state.lemma_measure_nonneg();
        }
        let location = state.current_location();
        match str_get(state.source(), location.start.0, location.end.0) {
            Some(text) => push_str(&mut docstring, text),
            None => {},
        }
    }
    Some(docstring)
}

/// Skips tokens up to where parsing resumes after an item that did not
/// parse.
pub fn skip_to_next_item(state: &mut ParseState)
    requires
        old(state).wf(),
    ensures
        final(state).wf(),
        moved_on(*old(state), *final(state)),
        resumes_items(final(state).next().raw),
        !resumes_items(old(state).next().raw) ==> final(state).measure() < old(state).measure(),
        resumes_items(old(state).next().raw) ==> *final(state) == *old(state),
        old(state).next().raw is Error ==> final(state).reported().len() > old(state).reported().len(),
{
    let ghost s0 = *state;
    loop
        invariant
            state.wf(),
            moved_on(s0, *state),
            !resumes_items(s0.next().raw) ==> state.measure() < s0.measure() || *state == s0,
            resumes_items(s0.next().raw) ==> *state == s0,
            s0.next().raw is Error ==> state.reported().len() > s0.reported().len() || *state == s0,
        ensures
            state.wf(),
            moved_on(s0, *state),
            resumes_items(state.next().raw),
            !resumes_items(s0.next().raw) ==> state.measure() < s0.measure(),
            resumes_items(s0.next().raw) ==> *state == s0,
            s0.next().raw is Error ==> state.reported().len() > s0.reported().len(),
        decreases state.measure(),
    {
        let raw = state.next_token_raw();
        if raw == RawToken::Keyword(Keyword::Enum) || raw == RawToken::Keyword(Keyword::Import) || raw
            == RawToken::Keyword(Keyword::Struct) || raw == RawToken::Keyword(Keyword::Type) || raw
            == RawToken::Keyword(Keyword::Interface) || raw == RawToken::EndOfFile {
            break;
        }
        let ghost before = *state;
        state.advance();
        proof {
            lemma_moved_on_trans(s0, before, *state);
            state.lemma_measure_nonneg();
        }
    }
}

/// An import from index `p` on: `import`, an import path and `;`. `None`
/// where the tokens do not form one; otherwise where the token after it is
/// read from.
pub open spec fn import_item_at(f: PathId, s: Seq<char>, p: int) -> Option<int> {
    if token_from(f, s, p).raw == RawToken::Keyword(Keyword::Import) {
        match import_path_at(f, s, after_token(f, s, p)) {
            Some((e, _)) => if token_from(f, s, e).raw == RawToken::Punctuator(Punctuator::Semicolon) {
                Some(after_token(f, s, e))
            } else {
                None
            },
            None => None,
        }
    } else {
        None
    }
}

/// The kind of a module item.
pub open spec fn item_kind(item: ModuleItem) -> ModuleItemKind {
    match item {
        ModuleItem::Enum(_) => ModuleItemKind::Enum,
        ModuleItem::Function(_) => ModuleItemKind::Function,
        ModuleItem::Import { .. } => ModuleItemKind::Import,
        ModuleItem::Interface(_) => ModuleItemKind::Interface,
        ModuleItem::Struct(_) => ModuleItemKind::Struct,
        ModuleItem::TupleLikeStruct(_) => ModuleItemKind::TupleLikeStruct,
        ModuleItem::TypeAlias(_) => ModuleItemKind::TypeAlias,
    }
}

/// An import, a function of the form that [`function_at`] reads or a
/// struct of the form that [`struct_at`] reads, from index `p` on: where
/// the token after it is read from, and its kind.
#[verifier::opaque]
pub open spec fn item_at(f: PathId, s: Seq<char>, p: int) -> Option<(int, ModuleItemKind)> {
    match import_item_at(f, s, p) {
        Some(e) => Some((e, ModuleItemKind::Import)),
        None => match function_at(f, s, p) {
            Some((e, _, _, _)) => Some((e, ModuleItemKind::Function)),
            None => match struct_at(f, s, p) {
                Some((e, _, _)) => Some((e, ModuleItemKind::Struct)),
                None => None,
            },
        },
    }
}

/// The kinds of the items that [`item_at`] reads one after another from
/// index `p` on.
#[verifier::opaque]
pub open spec fn leading_items(f: PathId, s: Seq<char>, p: int) -> Seq<ModuleItemKind>
    decreases s.len() - p,
{
    match item_at(f, s, p) {
        Some((e, k)) => if p < e <= s.len() {
            seq![k] + leading_items(f, s, e)
        } else {
            Seq::empty()
        },
        None => Seq::empty(),
    }
}

/// The first of the items that [`leading_items`] reads, and the rest.
pub proof fn lemma_leading_items(f: PathId, s: Seq<char>, p: int)
    ensures
        leading_items(f, s, p) == match item_at(f, s, p) {
            Some((e, k)) => if p < e <= s.len() {
                seq![k] + leading_items(f, s, e)
            } else {
                Seq::empty()
            },
            None => Seq::empty(),
        },
        item_at(f, s, p) matches Some((e, k)) ==> (k == ModuleItemKind::Import && import_item_at(f, s, p)
            == Some(e)) || (k == ModuleItemKind::Function && import_item_at(f, s, p) is None && function_at(
            f,
            s,
            p,
        ) is Some && (function_at(f, s, p)->0).0 == e) || (k == ModuleItemKind::Struct && import_item_at(
            f,
            s,
            p,
        ) is None && function_at(f, s, p) is None && struct_at(f, s, p) is Some && (struct_at(f, s, p)->0).0
            == e),
        item_at(f, s, p) is None ==> import_item_at(f, s, p) is None && function_at(f, s, p) is None
            && struct_at(f, s, p) is None,
{
    reveal(leading_items);
    reveal(item_at);
}

/// Where the rest of `kinds` from `i` on is `k` and then `rest`, `k` is at
/// `i` and `rest` is what comes after it.
proof fn lemma_chain_step(kinds: Seq<ModuleItemKind>, i: int, rest: Seq<ModuleItemKind>, k: ModuleItemKind)
    requires
        0 <= i <= kinds.len(),
        kinds.subrange(i, kinds.len() as int) == seq![k] + rest,
    ensures
        i < kinds.len(),
        kinds[i] == k,
        rest == kinds.subrange(i + 1, kinds.len() as int),
{
    let sub = kinds.subrange(i, kinds.len() as int);
    assert(sub[0] == k);
    assert(sub.len() == rest.len() + 1);
    assert(rest =~= kinds.subrange(i + 1, kinds.len() as int)) by {
        assert forall|j: int| 0 <= j < rest.len() implies rest[j] == kinds.subrange(i + 1, kinds.len() as int)[j] by {
            assert((seq![k] + rest)[j + 1] == rest[j]);
            assert(sub[j + 1] == kinds[i + j + 1]);
        }
    }
}

/// The first items of `items` are of the kinds `kinds`, in order.
pub open spec fn kinds_lead(items: Seq<ModuleItem>, kinds: Seq<ModuleItemKind>) -> bool {
    &&& items.len() >= kinds.len()
    &&& forall|i: int| 0 <= i < kinds.len() ==> #[trigger] item_kind(items[i]) == kinds[i]
}

/// Parses an import: `import`, the import path and `;`. A `pub` before it
/// is reported, as it makes nothing public.
#[verifier::spinoff_prover]
#[verifier::rlimit(40)]
fn parse_import(state: &mut ParseState, visibility: Visibility) -> (r: Option<ModuleItem>)
    requires
        old(state).wf(),
        old(state).next().raw == RawToken::Keyword(Keyword::Import),
    ensures
        final(state).wf(),
        moved_on(*old(state), *final(state)),
        r is None ==> failure_reported(*old(state), *final(state)),
        final(state).measure() < old(state).measure(),
        r matches Some(item) ==> (item matches ModuleItem::Import { location, .. } && location.start
            == old(state).next().location.start),
        visibility matches Visibility::Public(l) ==> final(state).reported().len() > old(
            state,
        ).reported().len() && (UnnecessaryVisibilityQualifierDiagnostic {
            location: l,
            context: UnnecessaryVisibilityQualifierContext::Import,
        }).describes(final(state).reported()[old(state).reported().len() as int]),
        match import_item_at(old(state).file(), old(state).text(), old(state).next_from()) {
            Some(e) => r matches Some(item) && item is Import && final(state).next_from() == e,
            None => r is None,
        },
{
    let ghost s0 = *state;
    let start = state.next_location().start;
    if let Visibility::Public(location) = visibility {
        state.report_unnecessary_visibility(
            UnnecessaryVisibilityQualifierDiagnostic {
                location,
                context: UnnecessaryVisibilityQualifierContext::Import,
            },
        );
    }
    let ghost s1 = *state;
    proof {
        assert(s0.reported().is_prefix_of(s1.reported()));
    }
    state.advance();
    let ghost s2 = *state;
    proof {
        s0.lemma_next_from();
        s2.lemma_next_from();
    }
    let path = parse_import_path(state);
    let ghost s3 = *state;
    proof {
        s3.lemma_next_from();
    }
    proof {
        lemma_moved_on_trans(s0, s1, s2);
        lemma_moved_on_trans(s0, s2, s3);
    }
    let path = match path {
        Some(path) => path,
        None => return None,
    };
    let semicolon = state.consume(RawToken::Punctuator(Punctuator::Semicolon));
    proof {
        lemma_moved_on_trans(s0, s3, *state);
    }
    match semicolon {
        Some(()) => Some(ModuleItem::Import { path, location: state.location_from(start) }),
        None => None,
    }
}

/// Parses a field of a struct: its name, `:` and its type.
fn parse_struct_field(state: &mut ParseState, visibility: Visibility, docstring: Option<String>) -> (r:
    Option<StructField>)
    requires
        old(state).wf(),
    ensures
        final(state).wf(),
        moved_on(*old(state), *final(state)),
        r is None ==> failure_reported(*old(state), *final(state)),
        r is Some ==> final(state).measure() < old(state).measure(),
        r matches Some(field) ==> field.visibility == visibility && field.docstring == docstring
            && field.name.location == old(state).next().location,
        param_at(old(state).file(), old(state).text(), old(state).next_from()) matches Some(e) ==> (r is Some
            && final(state).next_from() == e),
        param_at(old(state).file(), old(state).text(), old(state).next_from()) is Some ==> (r matches Some(field)
            && field_read(final(state).names(), field, old(state).file(), old(state).text(), old(state).next_from())),
{
    let ghost s0 = *state;
    let ghost f = s0.file();
    let ghost t = s0.text();
    let ghost p = s0.next_from();
    proof {
        reveal(param_at);
        reveal(field_read);
        s0.lemma_next_from();
        assert(token_start(f, t, p, 1) == s0.position());
        assert(token_start(f, t, p, 2) == after_token(f, t, s0.position()));
    }
    let name = match state.consume_identifier() {
        Some(name) => name,
        None => return None,
    };
    let ghost s1 = *state;
    proof {
        s1.lemma_next_from();
    }
    let colon = state.consume(RawToken::Punctuator(Punctuator::Colon));
    let ghost s2 = *state;
    proof {
        lemma_moved_on_trans(s0, s1, s2);
    }
    if colon.is_none() {
        return None;
    }
    proof {
        s2.lemma_next_from();
    }
    let ty = parse_type(state);
    proof {
        lemma_moved_on_trans(s0, s2, *state);
        lemma_moved_on_trans(s1, s2, *state);
        lemma_resolves_later(s1.names(), state.names(), name.id, identifier_text_from(f, t, p));
    }
    match ty {
        Some(ty) => Some(StructField { visibility, name, ty, docstring }),
        None => None,
    }
}

/// Parses a field of a struct with its doc comment and its visibility.
fn parse_documented_struct_field(state: &mut ParseState) -> (r: Option<StructField>)
    requires
        old(state).wf(),
    ensures
        final(state).wf(),
        moved_on(*old(state), *final(state)),
        r is None ==> failure_reported(*old(state), *final(state)),
        r is Some ==> final(state).measure() < old(state).measure(),
        param_at(old(state).file(), old(state).text(), old(state).next_from()) matches Some(e) ==> (r is Some
            && final(state).next_from() == e),
        param_at(old(state).file(), old(state).text(), old(state).next_from()) is Some ==> (r matches Some(field)
            && field_read(final(state).names(), field, old(state).file(), old(state).text(), old(state).next_from())),
{
    let ghost s0 = *state;
    proof {
        s0.lemma_next_from();
        if param_at(s0.file(), s0.text(), s0.next_from()) is Some {
            reveal(param_at);
        }
    }
    let docstring = parse_docstring(state, false);
    let ghost s1 = *state;
    let visibility = state.parse_visibility();
    let ghost s2 = *state;
    let field = parse_struct_field(state, visibility, docstring);
    proof {
        lemma_moved_on_trans(s0, s1, s2);
        lemma_moved_on_trans(s0, s2, *state);
    }
    field
}

/// Parses fields of a struct separated by commas, with an optional
/// trailing comma, up to one of the closing tokens, which is left as the
/// next token.
fn parse_struct_fields_until(state: &mut ParseState, closings: &[RawToken]) -> (r: Option<Vec<StructField>>)
    requires
        old(state).wf(),
    ensures
        final(state).wf(),
        moved_on(*old(state), *final(state)),
        r is None ==> failure_reported(*old(state), *final(state)),
        r matches Some(v) ==> (v@.len() == 0 <==> closings@.contains(old(state).next().raw)),
        r is Some ==> closings@.contains(final(state).next().raw),
        closings@.contains(old(state).next().raw) ==> r is Some && *final(state) == *old(state),
        list_at(param_element(old(state).file(), old(state).text()), closes_any(closings@), old(state).file(), old(state).text(), old(state).next_from()) matches Some((z, n)) ==> (r matches Some(v)
            && v@.len() == n && final(state).next_from() == z),
        list_at(param_element(old(state).file(), old(state).text()), closes_any(closings@), old(state).file(), old(state).text(), old(state).next_from()) is Some ==> (r matches Some(v)
            && fields_read(
            final(state).names(),
            v@,
            old(state).file(),
            old(state).text(),
            list_starts(param_element(old(state).file(), old(state).text()), closes_any(closings@), old(state).file(), old(state).text(), old(state).next_from()),
        )),
{
    let ghost start_state = *state;
    let ghost f = start_state.file();
    let ghost t = start_state.text();
    let ghost el = param_element(f, t);
    let ghost cl = closes_any(closings@);
    let ghost whole = list_at(el, cl, f, t, start_state.next_from());
    let ghost starts = list_starts(el, cl, f, t, start_state.next_from());
    proof {
        start_state.lemma_next_from();
        reveal(list_at);
    }
    assert(fields_read(start_state.names(), Seq::empty(), f, t, starts)) by {
        reveal(fields_read);
    }
    let mut result: Vec<StructField> = Vec::new();
    if is_closing(state.next_token_raw(), closings) {
        return Some(result);
    }
    assert(whole == list_items_at(el, cl, f, t, start_state.next_from()));
    loop
        invariant_except_break
            whole is Some ==> (list_items_at(el, cl, f, t, state.next_from()) matches Some((z, n)) && whole
                == Some((z, n + result@.len()))),
            whole is Some ==> list_item_starts(el, cl, f, t, state.next_from()) == starts.subrange(
                result@.len() as int,
                starts.len() as int,
            ),
        invariant
            starts == list_starts(el, cl, f, t, start_state.next_from()),
            whole is Some ==> fields_read(state.names(), result@, f, t, starts),
            whole is Some ==> result@.len() <= starts.len(),
            state.wf(),
            start_state == *old(state),
            moved_on(start_state, *state),
            !closings@.contains(start_state.next().raw),
            f == start_state.file(),
            t == start_state.text(),
            el == param_element(f, t),
            cl == closes_any(closings@),
            whole == list_at(el, cl, f, t, start_state.next_from()),
        ensures
            result@.len() > 0,
            state.wf(),
            moved_on(start_state, *state),
            closings@.contains(state.next().raw),
            whole is Some ==> whole == Some((state.next_from(), result@.len() as nat)),
            whole is Some ==> fields_read(state.names(), result@, f, t, starts),
        decreases state.measure(),
    {
        let ghost before = *state;
        proof {
            before.lemma_next_from();
            if whole is Some {
                lemma_list_step(el, cl, f, t, before.next_from());
                lemma_list_starts(el, cl, f, t, before.next_from());
                assert(el(before.next_from()) == param_at(f, t, before.next_from()));
                assert(starts[result@.len() as int] == before.next_from());
            }
            assert(forall|raw: RawToken| #[trigger] cl(raw) == closings@.contains(raw));
        }
        let ghost old_result = result@;
        match parse_documented_struct_field(state) {
            Some(field) => {
                proof {
                    if whole is Some {
                        lemma_fields_grow(before.names(), state.names(), old_result, Some(field), f, t, starts);
                    }
                }
                result.push(field);
            },
            None => {
                proof {
                    lemma_moved_on_trans(start_state, before, *state);
                }
                return None;
            },
        }
        proof {
            lemma_moved_on_trans(start_state, before, *state);
            state.lemma_next_from();
        }
        if is_closing(state.next_token_raw(), closings) {
            break;
        }
        if state.next_token_raw() != RawToken::Punctuator(Punctuator::Comma) {
            let ghost middle = *state;
            state.report_unexpected(list_expectation_of(closings));
            proof {
                lemma_moved_on_trans(start_state, middle, *state);
            }
            return None;
        }
        let ghost middle = *state;
        state.advance();
        proof {
            lemma_moved_on_trans(start_state, middle, *state);
            state.lemma_measure_nonneg();
            state.lemma_next_from();
            if whole is Some {
                lemma_fields_grow(middle.names(), state.names(), result@, None, f, t, starts);
                if !cl(state.next().raw) {
                    lemma_seq_step(
                        starts,
                        old_result.len() as int,
                        list_item_starts(el, cl, f, t, state.next_from()),
                        before.next_from(),
                    );
                }
            }
        }
        if is_closing(state.next_token_raw(), closings) {
            break;
        }
    }
    Some(result)
}

/// Parses the fields of a struct in braces.
fn parse_struct_fields_block(state: &mut ParseState) -> (r: Option<Vec<StructField>>)
    requires
        old(state).wf(),
    ensures
        final(state).wf(),
        moved_on(*old(state), *final(state)),
        r is None ==> failure_reported(*old(state), *final(state)),
        r is Some ==> final(state).measure() < old(state).measure(),
{
    let ghost s0 = *state;
    let opened = state.consume(RawToken::Punctuator(Punctuator::OpenBrace));
    let ghost s1 = *state;
    if opened.is_none() {
        return None;
    }
    let closings = [RawToken::Punctuator(Punctuator::CloseBrace)];
    let fields = parse_struct_fields_until(state, &closings);
    let ghost s2 = *state;
    proof {
        lemma_moved_on_trans(s0, s1, s2);
    }
    let fields = match fields {
        Some(fields) => fields,
        None => return None,
    };
    state.advance();
    proof {
        lemma_moved_on_trans(s0, s2, *state);
    }
    Some(fields)
}

/// Parses a field of a tuple-like struct or enum item: its visibility and
/// its type.
fn parse_tuple_field(state: &mut ParseState) -> (r: Option<TupleField>)
    requires
        old(state).wf(),
    ensures
        final(state).wf(),
        moved_on(*old(state), *final(state)),
        r is None ==> failure_reported(*old(state), *final(state)),
        r is Some ==> final(state).measure() < old(state).measure(),
        path_type_at(old(state).file(), old(state).text(), old(state).next_from()) matches Some(e) ==> (r is Some
            && final(state).next_from() == e),
{
    let ghost s0 = *state;
    proof {
        s0.lemma_next_from();
        reveal(path_type_at);
    }
    let visibility = state.parse_visibility();
    let ghost s1 = *state;
    let ty = parse_type(state);
    proof {
        lemma_moved_on_trans(s0, s1, *state);
    }
    match ty {
        Some(ty) => Some(TupleField { visibility, ty }),
        None => None,
    }
}

/// Parses the fields of a tuple-like struct or enum item: fields separated
/// by commas, with an optional trailing comma, in parentheses.
#[verifier::spinoff_prover]
#[verifier::rlimit(60)]
fn parse_tuple_fields(state: &mut ParseState) -> (r: Option<Vec<TupleField>>)
    requires
        old(state).wf(),
        old(state).next().raw == RawToken::Punctuator(Punctuator::OpenParent),
    ensures
        final(state).wf(),
        moved_on(*old(state), *final(state)),
        r is None ==> failure_reported(*old(state), *final(state)),
        r matches Some(v) ==> (v@.len() == 0 <==> second_token(*old(state)).raw == RawToken::Punctuator(Punctuator::CloseParent)),
        final(state).measure() < old(state).measure(),
        list_at(
            path_type_element(old(state).file(), old(state).text()),
            closes_with(RawToken::Punctuator(Punctuator::CloseParent)),
            old(state).file(),
            old(state).text(),
            after_token(old(state).file(), old(state).text(), old(state).next_from()),
        ) matches Some((z, n)) ==> (r matches Some(v) && v@.len() == n && final(state).next_from() == after_token(
            old(state).file(),
            old(state).text(),
            z,
        )),
{
    let ghost s0 = *state;
    proof {
        s0.lemma_next_from();
    }
    state.advance();
    let ghost start_state = *state;
    let ghost f = start_state.file();
    let ghost t = start_state.text();
    let ghost el = path_type_element(f, t);
    let ghost cl = closes_with(RawToken::Punctuator(Punctuator::CloseParent));
    let ghost whole = list_at(el, cl, f, t, start_state.next_from());
    proof {
        start_state.lemma_next_from();
        reveal(list_at);
        assert(forall|raw: RawToken| #[trigger] cl(raw) == (raw == RawToken::Punctuator(Punctuator::CloseParent)));
    }
    let closings = [RawToken::Punctuator(Punctuator::CloseParent)];
    assert(closings@[0] == RawToken::Punctuator(Punctuator::CloseParent));
    let mut result: Vec<TupleField> = Vec::new();
    if !is_closing(state.next_token_raw(), &closings) {
        assert(whole == list_items_at(el, cl, f, t, start_state.next_from()));
        loop
            invariant_except_break
                whole is Some ==> (list_items_at(el, cl, f, t, state.next_from()) matches Some((z, n)) && whole
                    == Some((z, n + result@.len()))),
            invariant
                f == start_state.file(),
                t == start_state.text(),
                el == path_type_element(f, t),
                cl == closes_with(RawToken::Punctuator(Punctuator::CloseParent)),
                whole == list_at(el, cl, f, t, start_state.next_from()),
                start_state.next_from() == after_token(s0.file(), s0.text(), s0.next_from()),
                f == s0.file(),
                t == s0.text(),
                closings@ =~= seq![RawToken::Punctuator(Punctuator::CloseParent)],
                state.wf(),
                s0 == *old(state),
                moved_on(s0, start_state),
                start_state.measure() < s0.measure(),
                moved_on(start_state, *state),
            ensures
                whole is Some ==> whole == Some((state.next_from(), result@.len() as nat)),
                result@.len() > 0,
                state.wf(),
                moved_on(start_state, *state),
                closings@.contains(state.next().raw),
            decreases state.measure(),
        {
            let ghost before = *state;
            proof {
                before.lemma_next_from();
                if whole is Some {
                    lemma_list_step(el, cl, f, t, before.next_from());
                    assert(el(before.next_from()) == path_type_at(f, t, before.next_from()));
                }
                assert(forall|raw: RawToken| #[trigger] cl(raw) == (raw == RawToken::Punctuator(Punctuator::CloseParent)));
            }
            match parse_tuple_field(state) {
                Some(field) => result.push(field),
                None => {
                    proof {
                        lemma_moved_on_trans(start_state, before, *state);
                        lemma_moved_on_trans(s0, start_state, *state);
                    }
                    return None;
                },
            }
            proof {
                lemma_moved_on_trans(start_state, before, *state);
                state.lemma_next_from();
                assert(closings@[0] == RawToken::Punctuator(Punctuator::CloseParent));
            }
            if is_closing(state.next_token_raw(), &closings) {
                break;
            }
            if state.next_token_raw() != RawToken::Punctuator(Punctuator::Comma) {
                let ghost middle = *state;
                state.report_unexpected(list_expectation_of(&closings));
                proof {
                    lemma_moved_on_trans(start_state, middle, *state);
                    lemma_moved_on_trans(s0, start_state, *state);
                }
                return None;
            }
            let ghost middle = *state;
            state.advance();
            proof {
                lemma_moved_on_trans(start_state, middle, *state);
                state.lemma_measure_nonneg();
                state.lemma_next_from();
                assert(closings@[0] == RawToken::Punctuator(Punctuator::CloseParent));
            }
            if is_closing(state.next_token_raw(), &closings) {
                break;
            }
        }
    }
    let ghost s1 = *state;
    proof {
        s1.lemma_next_from();
    }
    state.advance();
    proof {
        lemma_moved_on_trans(s0, start_state, s1);
        lemma_moved_on_trans(s0, s1, *state);
    }
    Some(result)
}

/// Parses the interfaces that a type implements: type constructors
/// separated by commas, with an optional trailing comma, up to one of the
/// closing tokens, which is left as the next token.
fn parse_implements_until(state: &mut ParseState, closings: &[RawToken]) -> (r: Option<Vec<TypeConstructor>>)
    requires
        old(state).wf(),
    ensures
        final(state).wf(),
        moved_on(*old(state), *final(state)),
        r is None ==> failure_reported(*old(state), *final(state)),
        r matches Some(v) ==> (v@.len() == 0 <==> closings@.contains(old(state).next().raw)),
        r is Some ==> closings@.contains(final(state).next().raw),
{
    let ghost start_state = *state;
    let mut result: Vec<TypeConstructor> = Vec::new();
    if is_closing(state.next_token_raw(), closings) {
        return Some(result);
    }
    loop
        invariant
            state.wf(),
            start_state == *old(state),
            moved_on(start_state, *state),
        ensures
            result@.len() > 0,
            state.wf(),
            moved_on(start_state, *state),
            closings@.contains(state.next().raw),
        decreases state.measure(),
    {
        let ghost before = *state;
        match parse_type_constructor(state) {
            Some(constructor) => result.push(constructor),
            None => {
                proof {
                    lemma_moved_on_trans(start_state, before, *state);
                }
                return None;
            },
        }
        proof {
            lemma_moved_on_trans(start_state, before, *state);
        }
        if is_closing(state.next_token_raw(), closings) {
            break;
        }
        if state.next_token_raw() != RawToken::Punctuator(Punctuator::Comma) {
            let ghost middle = *state;
            state.report_unexpected(list_expectation_of(closings));
            proof {
                lemma_moved_on_trans(start_state, middle, *state);
            }
            return None;
        }
        let ghost middle = *state;
        state.advance();
        proof {
            lemma_moved_on_trans(start_state, middle, *state);
            state.lemma_measure_nonneg();
        }
        if is_closing(state.next_token_raw(), closings) {
            break;
        }
    }
    Some(result)
}

/// Parses `implements` and the interfaces up to one of the closing tokens
/// if the next token is `implements`; otherwise there are none and nothing
/// is read.
fn parse_implements_opt(state: &mut ParseState, closings: &[RawToken]) -> (r: Option<
    Option<Vec<TypeConstructor>>,
>)
    requires
        old(state).wf(),
    ensures
        final(state).wf(),
        moved_on(*old(state), *final(state)),
        r is None ==> failure_reported(*old(state), *final(state)),
        old(state).next().raw != RawToken::Keyword(Keyword::Implements) ==> r == Some(
            None::<Vec<TypeConstructor>>,
        ) && *final(state) == *old(state),
        old(state).next().raw == RawToken::Keyword(Keyword::Implements) && r is Some ==> r->0 is Some
            && closings@.contains(final(state).next().raw),
{
    if state.next_token_raw() != RawToken::Keyword(Keyword::Implements) {
        return Some(None);
    }
    let ghost s0 = *state;
    state.advance();
    let ghost s1 = *state;
    let implements = parse_implements_until(state, closings);
    proof {
        lemma_moved_on_trans(s0, s1, *state);
    }
    match implements {
        Some(implements) => Some(Some(implements)),
        None => None,
    }
}

/// Parses an item of an enum: its doc comment and name, then its fields
/// in braces or parentheses if it has any.
fn parse_enum_item(state: &mut ParseState) -> (r: Option<EnumItem>)
    requires
        old(state).wf(),
    ensures
        final(state).wf(),
        moved_on(*old(state), *final(state)),
        r is None ==> failure_reported(*old(state), *final(state)),
        r is Some ==> final(state).measure() < old(state).measure(),
        old(state).next().raw == RawToken::Identifier ==> (r matches Some(item) ==> if second_token(
            *old(state),
        ).raw == RawToken::Punctuator(Punctuator::OpenParent) {
            item is TupleLike
        } else if second_token(*old(state)).raw == RawToken::Punctuator(Punctuator::OpenBrace) {
            item is Struct
        } else {
            item is Just
        }),
        old(state).next().raw == RawToken::Identifier && second_token(*old(state)).raw
            == RawToken::Punctuator(Punctuator::OpenParent) ==> (list_at(
            path_type_element(old(state).file(), old(state).text()),
            closes_with(RawToken::Punctuator(Punctuator::CloseParent)),
            old(state).file(),
            old(state).text(),
            after_token(
                old(state).file(),
                old(state).text(),
                after_token(old(state).file(), old(state).text(), old(state).next_from()),
            ),
        ) matches Some((z, n)) ==> (r matches Some(EnumItem::TupleLike { fields, .. }) && fields@.len() == n
            && final(state).next_from() == after_token(old(state).file(), old(state).text(), z))),
{
    let ghost s0 = *state;
    proof {
        s0.lemma_next_from();
    }
    let docstring = parse_docstring(state, false);
    let ghost s1 = *state;
    let name = state.consume_identifier();
    let ghost s2 = *state;
    proof {
        lemma_moved_on_trans(s0, s1, s2);
    }
    let name = match name {
        Some(name) => name,
        None => return None,
    };
    proof {
        s2.lemma_next_from();
    }
    if state.next_token_raw() == RawToken::Punctuator(Punctuator::OpenBrace) {
        let fields = parse_struct_fields_block(state);
        proof {
            lemma_moved_on_trans(s0, s2, *state);
        }
        match fields {
            Some(fields) => Some(EnumItem::Struct { name, fields, docstring }),
            None => None,
        }
    } else if state.next_token_raw() == RawToken::Punctuator(Punctuator::OpenParent) {
        let fields = parse_tuple_fields(state);
        proof {
            lemma_moved_on_trans(s0, s2, *state);
        }
        match fields {
            Some(fields) => Some(EnumItem::TupleLike { name, fields, docstring }),
            None => None,
        }
    } else {
        Some(EnumItem::Just { name, docstring })
    }
}

/// Parses items of an enum separated by commas, with an optional trailing
/// comma, up to one of the closing tokens, which is left as the next
/// token.
fn parse_enum_items_until(state: &mut ParseState, closings: &[RawToken]) -> (r: Option<Vec<EnumItem>>)
    requires
        old(state).wf(),
    ensures
        final(state).wf(),
        moved_on(*old(state), *final(state)),
        r is None ==> failure_reported(*old(state), *final(state)),
        r matches Some(v) ==> (v@.len() == 0 <==> closings@.contains(old(state).next().raw)),
        r is Some ==> closings@.contains(final(state).next().raw),
{
    let ghost start_state = *state;
    let mut result: Vec<EnumItem> = Vec::new();
    if is_closing(state.next_token_raw(), closings) {
        return Some(result);
    }
    loop
        invariant
            state.wf(),
            start_state == *old(state),
            moved_on(start_state, *state),
        ensures
            result@.len() > 0,
            state.wf(),
            moved_on(start_state, *state),
            closings@.contains(state.next().raw),
        decreases state.measure(),
    {
        let ghost before = *state;
        match parse_enum_item(state) {
            Some(item) => result.push(item),
            None => {
                proof {
                    lemma_moved_on_trans(start_state, before, *state);
                }
                return None;
            },
        }
        proof {
            lemma_moved_on_trans(start_state, before, *state);
        }
        if is_closing(state.next_token_raw(), closings) {
            break;
        }
        if state.next_token_raw() != RawToken::Punctuator(Punctuator::Comma) {
            let ghost middle = *state;
            state.report_unexpected(list_expectation_of(closings));
            proof {
                lemma_moved_on_trans(start_state, middle, *state);
            }
            return None;
        }
        let ghost middle = *state;
        state.advance();
        proof {
            lemma_moved_on_trans(start_state, middle, *state);
            state.lemma_measure_nonneg();
        }
        if is_closing(state.next_token_raw(), closings) {
            break;
        }
    }
    Some(result)
}

/// A parameter from index `p` on whose name is one identifier and whose
/// type is a path: the name, `:` and the path; then where the token after
/// it is read from.
#[verifier::opaque]
pub open spec fn param_at(f: PathId, t: Seq<char>, p: int) -> Option<int> {
    if raw_at(f, t, p, 0) == RawToken::Identifier && raw_at(f, t, p, 1) == RawToken::Punctuator(
        Punctuator::Colon,
    ) {
        match path_at(f, t, token_start(f, t, p, 2)) {
            Some((e, _)) => if token_from(f, t, e).raw != RawToken::Punctuator(Punctuator::OpenBracket) {
                Some(e)
            } else {
                None
            },
            None => None,
        }
    } else {
        None
    }
}

/// `param` is the parameter read from index `q` on, as [`param_at`]
/// reads it: a name and a path type, or `self` and a path type. Its
/// identifiers are the tokens that spell them.
#[verifier::opaque]
pub open spec fn parameter_read(names: Seq<Seq<char>>, param: FunctionParameter, f: PathId, t: Seq<char>, q: int) -> bool {
    match param {
        FunctionParameter::NotSelfParameter(np) => {
            &&& np.pattern matches Pattern::Identifier { identifier, .. } && identifier_read_from(
                names,
                identifier,
                f,
                t,
                q,
            )
            &&& np.ty matches Type::Constructor(c) && path_identifiers_read(names, c.path, f, t, token_start(f, t, q, 2))
        },
        FunctionParameter::SelfParameter(sp) => sp.ty matches Some(Type::Constructor(c)) && path_identifiers_read(
            names,
            c.path,
            f,
            t,
            token_start(f, t, q, 2),
        ),
    }
}

/// `field` is the field read from index `q` on, as [`param_at`] reads
/// it: its name and its path type are the tokens that spell them.
#[verifier::opaque]
pub open spec fn field_read(names: Seq<Seq<char>>, field: StructField, f: PathId, t: Seq<char>, q: int) -> bool {
    &&& identifier_read_from(names, field.name, f, t, q)
    &&& field.ty matches Type::Constructor(c) && path_identifiers_read(names, c.path, f, t, token_start(f, t, q, 2))
}

/// A parameter stays read from its tokens as names are added.
pub proof fn lemma_parameter_read_later(
    a: Seq<Seq<char>>,
    b: Seq<Seq<char>>,
    param: FunctionParameter,
    f: PathId,
    t: Seq<char>,
    q: int,
)
    requires
        a.is_prefix_of(b),
        parameter_read(a, param, f, t, q),
    ensures
        parameter_read(b, param, f, t, q),
{
    reveal(parameter_read);
    match param {
        FunctionParameter::NotSelfParameter(np) => {
            if let Pattern::Identifier { identifier, .. } = np.pattern {
                lemma_resolves_later(a, b, identifier.id, identifier_text_from(f, t, q));
            }
            if let Type::Constructor(c) = np.ty {
                lemma_path_read_later(a, b, c.path, f, t, token_start(f, t, q, 2));
            }
        },
        FunctionParameter::SelfParameter(sp) => {
            if let Some(Type::Constructor(c)) = sp.ty {
                lemma_path_read_later(a, b, c.path, f, t, token_start(f, t, q, 2));
            }
        },
    }
}

/// The parameters in `params` are read from the places in `starts`.
#[verifier::opaque]
pub open spec fn parameters_read(
    names: Seq<Seq<char>>,
    params: Seq<FunctionParameter>,
    f: PathId,
    t: Seq<char>,
    starts: Seq<int>,
) -> bool {
    &&& params.len() <= starts.len()
    &&& forall|i: int| 0 <= i < params.len() ==> #[trigger] parameter_read(names, params[i], f, t, starts[i])
}

/// Parameters stay read from their places as names are added, and one
/// more read from the next place joins them.
proof fn lemma_parameters_grow(
    a: Seq<Seq<char>>,
    b: Seq<Seq<char>>,
    params: Seq<FunctionParameter>,
    next: Option<FunctionParameter>,
    f: PathId,
    t: Seq<char>,
    starts: Seq<int>,
)
    requires
        a.is_prefix_of(b),
        parameters_read(a, params, f, t, starts),
        next matches Some(p) ==> params.len() < starts.len() && parameter_read(b, p, f, t, starts[params.len() as int]),
    ensures
        parameters_read(
            b,
            match next {
                Some(p) => params.push(p),
                None => params,
            },
            f,
            t,
            starts,
        ),
{
    reveal(parameters_read);
    assert forall|i: int| 0 <= i < params.len() implies #[trigger] parameter_read(b, params[i], f, t, starts[i]) by {
        lemma_parameter_read_later(a, b, params[i], f, t, starts[i]);
    }
    if let Some(p) = next {
        assert forall|i: int| 0 <= i < params.len() + 1 implies #[trigger] parameter_read(
            b,
            params.push(p)[i],
            f,
            t,
            starts[i],
        ) by {
            if i < params.len() {
                assert(params.push(p)[i] == params[i]);
            }
        }
    }
}

/// A field stays read from its tokens as names are added.
pub proof fn lemma_field_read_later(a: Seq<Seq<char>>, b: Seq<Seq<char>>, field: StructField, f: PathId, t: Seq<char>, q: int)
    requires
        a.is_prefix_of(b),
        field_read(a, field, f, t, q),
    ensures
        field_read(b, field, f, t, q),
{
    reveal(field_read);
    lemma_resolves_later(a, b, field.name.id, identifier_text_from(f, t, q));
    if let Type::Constructor(c) = field.ty {
        lemma_path_read_later(a, b, c.path, f, t, token_start(f, t, q, 2));
    }
}

/// The fields in `fields` are read from the places in `starts`.
#[verifier::opaque]
pub open spec fn fields_read(names: Seq<Seq<char>>, fields: Seq<StructField>, f: PathId, t: Seq<char>, starts: Seq<int>) -> bool {
    &&& fields.len() <= starts.len()
    &&& forall|i: int| 0 <= i < fields.len() ==> #[trigger] field_read(names, fields[i], f, t, starts[i])
}

/// Fields stay read from their places as names are added, and one more
/// read from the next place joins them.
proof fn lemma_fields_grow(
    a: Seq<Seq<char>>,
    b: Seq<Seq<char>>,
    fields: Seq<StructField>,
    next: Option<StructField>,
    f: PathId,
    t: Seq<char>,
    starts: Seq<int>,
)
    requires
        a.is_prefix_of(b),
        fields_read(a, fields, f, t, starts),
        next matches Some(x) ==> fields.len() < starts.len() && field_read(b, x, f, t, starts[fields.len() as int]),
    ensures
        fields_read(
            b,
            match next {
                Some(x) => fields.push(x),
                None => fields,
            },
            f,
            t,
            starts,
        ),
{
    reveal(fields_read);
    assert forall|i: int| 0 <= i < fields.len() implies #[trigger] field_read(b, fields[i], f, t, starts[i]) by {
        lemma_field_read_later(a, b, fields[i], f, t, starts[i]);
    }
    if let Some(x) = next {
        assert forall|i: int| 0 <= i < fields.len() + 1 implies #[trigger] field_read(
            b,
            fields.push(x)[i],
            f,
            t,
            starts[i],
        ) by {
            if i < fields.len() {
                assert(fields.push(x)[i] == fields[i]);
            }
        }
    }
}

/// [`param_at`] as the element of a list.
pub open spec fn param_element(f: PathId, t: Seq<char>) -> spec_fn(int) -> Option<int> {
    |q: int| param_at(f, t, q)
}

/// Whether a token is one of `closings`.
pub open spec fn closes_any(closings: Seq<RawToken>) -> spec_fn(RawToken) -> bool {
    |raw: RawToken| closings.contains(raw)
}

/// Whether a token is `)`.
pub open spec fn closes_parent() -> spec_fn(RawToken) -> bool {
    |raw: RawToken| raw == RawToken::Punctuator(Punctuator::CloseParent)
}

/// Parses a parameter of a function. Where the identifier that the lexer
/// read last is `self`, it is a `self` parameter: the next token, then `:`
/// and its type if it has one. Otherwise it is a pattern, `:` and a type.
fn parse_function_parameter(state: &mut ParseState) -> (r: Option<FunctionParameter>)
    requires
        old(state).wf(),
    ensures
        final(state).wf(),
        moved_on(*old(state), *final(state)),
        r is None ==> failure_reported(*old(state), *final(state)),
        r matches Some(p) ==> (p is SelfParameter <==> old(state).last_identifier() == IdentifierId(
            SMALL_SELF,
        )),
        param_at(old(state).file(), old(state).text(), old(state).next_from()) matches Some(e) ==> (r is Some
            && final(state).next_from() == e),
        param_at(old(state).file(), old(state).text(), old(state).next_from()) is Some ==> (r matches Some(param)
            && parameter_read(final(state).names(), param, old(state).file(), old(state).text(), old(state).next_from())),
{
    let ghost s0 = *state;
    let ghost f = s0.file();
    let ghost t = s0.text();
    let ghost p = s0.next_from();
    let ghost simple = param_at(f, t, p) is Some;
    proof {
        reveal(param_at);
        reveal(parameter_read);
        if simple {
            s0.lemma_next_from();
            assert(token_start(f, t, p, 1) == s0.position());
            assert(token_start(f, t, p, 2) == after_token(f, t, s0.position()));
            assert(path_at(f, t, p) == Some((s0.position(), 1nat))) by {
                assert(token_from(f, t, s0.position()).raw == RawToken::Punctuator(Punctuator::Colon));
            }
        }
    }
    if state.last_identifier_id() == IdentifierId(SMALL_SELF) {
        state.advance();
        let ghost s1 = *state;
        let self_location = state.current_location();
        let ty = if state.next_token_raw() == RawToken::Punctuator(Punctuator::Colon) {
            state.advance();
            let ghost s2 = *state;
            proof {
                if simple {
                    s1.lemma_next_from();
                    s2.lemma_next_from();
                }
            }
            let ty = parse_type(state);
            proof {
                lemma_moved_on_trans(s0, s1, s2);
                lemma_moved_on_trans(s0, s2, *state);
            }
            match ty {
                Some(ty) => Some(ty),
                None => return None,
            }
        } else {
            None
        };
        Some(FunctionParameter::SelfParameter(SelfFunctionParameter { self_location, ty }))
    } else {
        let pattern = parse_pattern(state);
        let ghost s1 = *state;
        let pattern = match pattern {
            Some(pattern) => pattern,
            None => return None,
        };
        proof {
            if simple {
                s1.lemma_next_from();
            }
        }
        let colon = state.consume(RawToken::Punctuator(Punctuator::Colon));
        let ghost s2 = *state;
        proof {
            lemma_moved_on_trans(s0, s1, s2);
        }
        if colon.is_none() {
            return None;
        }
        proof {
            if simple {
                s2.lemma_next_from();
            }
        }
        let ty = parse_type(state);
        proof {
            lemma_moved_on_trans(s0, s2, *state);
            if simple {
                lemma_moved_on_trans(s1, s2, *state);
                if let Pattern::Identifier { identifier, .. } = pattern {
                    lemma_resolves_later(s1.names(), state.names(), identifier.id, identifier_text_from(f, t, p));
                }
            }
        }
        match ty {
            Some(ty) => Some(FunctionParameter::NotSelfParameter(NotSelfFunctionParameter { pattern, ty })),
            None => None,
        }
    }
}

/// Parses parameters of a function separated by commas, with an optional
/// trailing comma, up to `)`, which is left as the next token.
#[verifier::rlimit(60)]
fn parse_function_parameters(state: &mut ParseState) -> (r: Option<Vec<FunctionParameter>>)
    requires
        old(state).wf(),
    ensures
        final(state).wf(),
        moved_on(*old(state), *final(state)),
        r is None ==> failure_reported(*old(state), *final(state)),
        r matches Some(v) ==> (v@.len() == 0 <==> old(state).next().raw == RawToken::Punctuator(Punctuator::CloseParent)),
        r is Some ==> final(state).next().raw == RawToken::Punctuator(Punctuator::CloseParent),
        old(state).next().raw == RawToken::Punctuator(Punctuator::CloseParent) ==> r is Some
            && *final(state) == *old(state),
        list_at(param_element(old(state).file(), old(state).text()), closes_parent(), old(state).file(), old(state).text(), old(state).next_from()) matches Some((z, n)) ==> (r matches Some(v)
            && v@.len() == n && final(state).next_from() == z),
        list_at(param_element(old(state).file(), old(state).text()), closes_parent(), old(state).file(), old(state).text(), old(state).next_from()) is Some ==> (r matches Some(v)
            && parameters_read(
            final(state).names(),
            v@,
            old(state).file(),
            old(state).text(),
            list_starts(param_element(old(state).file(), old(state).text()), closes_parent(), old(state).file(), old(state).text(), old(state).next_from()),
        )),
{
    let closings = [RawToken::Punctuator(Punctuator::CloseParent)];
    let ghost start_state = *state;
    let ghost f = start_state.file();
    let ghost t = start_state.text();
    let ghost el = param_element(f, t);
    let ghost cl = closes_parent();
    let ghost whole = list_at(el, cl, f, t, start_state.next_from());
    let ghost starts = list_starts(el, cl, f, t, start_state.next_from());
    proof {
        start_state.lemma_next_from();
        reveal(list_at);
    }
    assert(parameters_read(start_state.names(), Seq::empty(), f, t, starts)) by {
        reveal(parameters_read);
    }
    let mut result: Vec<FunctionParameter> = Vec::new();
    if is_closing(state.next_token_raw(), &closings) {
        return Some(result);
    }
    assert(whole == list_items_at(el, cl, f, t, start_state.next_from()));
    loop
        invariant_except_break
            whole is Some ==> (list_items_at(el, cl, f, t, state.next_from()) matches Some((z, n)) && whole
                == Some((z, n + result@.len()))),
            whole is Some ==> list_item_starts(el, cl, f, t, state.next_from()) == starts.subrange(
                result@.len() as int,
                starts.len() as int,
            ),
        invariant
            starts == list_starts(el, cl, f, t, start_state.next_from()),
            whole is Some ==> parameters_read(state.names(), result@, f, t, starts),
            whole is Some ==> result@.len() <= starts.len(),
            state.wf(),
            start_state == *old(state),
            moved_on(start_state, *state),
            closings@ =~= seq![RawToken::Punctuator(Punctuator::CloseParent)],
            start_state.next().raw != RawToken::Punctuator(Punctuator::CloseParent),
            f == start_state.file(),
            t == start_state.text(),
            el == param_element(f, t),
            cl == closes_parent(),
            whole == list_at(el, cl, f, t, start_state.next_from()),
        ensures
            result@.len() > 0,
            state.wf(),
            moved_on(start_state, *state),
            state.next().raw == RawToken::Punctuator(Punctuator::CloseParent),
            whole is Some ==> whole == Some((state.next_from(), result@.len() as nat)),
            whole is Some ==> parameters_read(state.names(), result@, f, t, starts),
        decreases state.measure(),
    {
        let ghost before = *state;
        proof {
            before.lemma_next_from();
            if whole is Some {
                lemma_list_step(el, cl, f, t, before.next_from());
                lemma_list_starts(el, cl, f, t, before.next_from());
                assert(el(before.next_from()) == param_at(f, t, before.next_from()));
                assert(starts[result@.len() as int] == before.next_from());
            }
            assert(forall|raw: RawToken| #[trigger] cl(raw) == (raw == RawToken::Punctuator(Punctuator::CloseParent)));
        }
        let ghost old_result = result@;
        match parse_function_parameter(state) {
            Some(parameter) => {
                proof {
                    if whole is Some {
                        lemma_parameters_grow(before.names(), state.names(), old_result, Some(parameter), f, t, starts);
                    }
                }
                result.push(parameter);
            },
            None => {
                proof {
                    lemma_moved_on_trans(start_state, before, *state);
                }
                return None;
            },
        }
        proof {
            lemma_moved_on_trans(start_state, before, *state);
            state.lemma_next_from();
            assert(closings@[0] == RawToken::Punctuator(Punctuator::CloseParent));
        }
        if is_closing(state.next_token_raw(), &closings) {
            break;
        }
        if state.next_token_raw() != RawToken::Punctuator(Punctuator::Comma) {
            let ghost middle = *state;
            state.report_unexpected(list_expectation_of(&closings));
            proof {
                lemma_moved_on_trans(start_state, middle, *state);
            }
            return None;
        }
        let ghost middle = *state;
        state.advance();
        proof {
            lemma_moved_on_trans(start_state, middle, *state);
            state.lemma_measure_nonneg();
            state.lemma_next_from();
            assert(closings@[0] == RawToken::Punctuator(Punctuator::CloseParent));
            if whole is Some {
                lemma_parameters_grow(middle.names(), state.names(), result@, None, f, t, starts);
                if !cl(state.next().raw) {
                    lemma_seq_step(
                        starts,
                        old_result.len() as int,
                        list_item_starts(el, cl, f, t, state.next_from()),
                        before.next_from(),
                    );
                }
            }
        }
        if is_closing(state.next_token_raw(), &closings) {
            break;
        }
    }
    Some(result)
}

/// What a function body expects where it finds something else.
pub open spec fn body_expectation() -> Seq<char> {
    one_of_text(
        seq![
            raw_token_text(RawToken::Punctuator(Punctuator::Semicolon)),
            raw_token_text(RawToken::Punctuator(Punctuator::OpenBrace)),
        ],
    )
}

fn body_expectation_text() -> (r: String)
    ensures
        r@ == body_expectation(),
{
    let mut items: Vec<String> = Vec::new();
    items.push(String::from_str(raw_token_str(RawToken::Punctuator(Punctuator::Semicolon))));
    items.push(String::from_str(raw_token_str(RawToken::Punctuator(Punctuator::OpenBrace))));
    proof {
        assert(texts(items@) =~= seq![
            raw_token_text(RawToken::Punctuator(Punctuator::Semicolon)),
            raw_token_text(RawToken::Punctuator(Punctuator::OpenBrace)),
        ]);
    }
    one_of(items.as_slice())
}

/// Where the token `n` tokens after the one read from index `p` is read
/// from.
pub open spec fn token_start(f: PathId, t: Seq<char>, p: int, n: nat) -> int
    decreases n,
{
    if n == 0 {
        p
    } else {
        after_token(f, t, token_start(f, t, p, (n - 1) as nat))
    }
}

/// The tokens after the next one are those read on from where the next
/// one is read from.
pub proof fn lemma_later_tokens(s: ParseState, k: nat)
    requires
        s.wf(),
    ensures
        later_start(s, k) == token_start(s.file(), s.text(), s.next_from(), k + 1),
    decreases k,
{
    let f = s.file();
    let t = s.text();
    let p = s.next_from();
    if k == 0 {
        s.lemma_next_from();
        assert(token_start(f, t, p, 1) == after_token(f, t, token_start(f, t, p, 0)));
    } else {
        lemma_later_tokens(s, (k - 1) as nat);
        assert(token_start(f, t, p, k + 1) == after_token(f, t, token_start(f, t, p, k)));
    }
}

/// The kind of the token `n` tokens after the one read from index `p`.
pub open spec fn raw_at(f: PathId, t: Seq<char>, p: int, n: nat) -> RawToken {
    token_from(f, t, token_start(f, t, p, n)).raw
}

/// An optional return type from index `q` on: `:` and a path without type
/// arguments, or nothing; then where the token after it is read from and
/// whether it is there.
#[verifier::opaque]
pub open spec fn return_type_at(f: PathId, t: Seq<char>, q: int) -> Option<(int, bool)> {
    if token_from(f, t, q).raw == RawToken::Punctuator(Punctuator::Colon) {
        match path_at(f, t, after_token(f, t, q)) {
            Some((e, _)) => if token_from(f, t, e).raw != RawToken::Punctuator(Punctuator::OpenBracket) {
                Some((e, true))
            } else {
                None
            },
            None => None,
        }
    } else {
        Some((q, false))
    }
}

/// A function body from index `q` on that is `;` or an empty block; then
/// where the token after it is read from and whether it is a block.
#[verifier::opaque]
pub open spec fn empty_body_at(f: PathId, t: Seq<char>, q: int) -> Option<(int, bool)> {
    if token_from(f, t, q).raw == RawToken::Punctuator(Punctuator::Semicolon) {
        Some((after_token(f, t, q), false))
    } else if token_from(f, t, q).raw == RawToken::Punctuator(Punctuator::OpenBrace) && token_from(
        f,
        t,
        after_token(f, t, q),
    ).raw == RawToken::Punctuator(Punctuator::CloseBrace) {
        Some((after_token(f, t, after_token(f, t, q)), true))
    } else {
        None
    }
}

/// A function from index `p` on without generic parameters or `where`,
/// whose parameters are names with path types, whose return type, if any,
/// is a path, and whose body is `;` or an empty block: `fun`, its name, the
/// parameters in parentheses, the return type and the body. Then where the
/// token after it is read from, how many parameters it has, whether it has
/// a return type and whether it has a body.
#[verifier::opaque]
pub open spec fn function_at(f: PathId, t: Seq<char>, p: int) -> Option<(int, nat, bool, bool)> {
    if raw_at(f, t, p, 0) == RawToken::Keyword(Keyword::Fun) && raw_at(f, t, p, 1) == RawToken::Identifier
        && raw_at(f, t, p, 2) == RawToken::Punctuator(Punctuator::OpenParent) {
        match list_at(param_element(f, t), closes_parent(), f, t, token_start(f, t, p, 3)) {
            Some((z, n)) => match return_type_at(f, t, after_token(f, t, z)) {
                Some((q, has_return)) => match empty_body_at(f, t, q) {
                    Some((e, block)) => Some((e, n, has_return, block)),
                    None => None,
                },
                None => None,
            },
            None => None,
        }
    } else {
        None
    }
}

/// The parts of a function that [`function_at`] reads.
pub proof fn lemma_function_at(f: PathId, t: Seq<char>, p: int)
    requires
        function_at(f, t, p) is Some,
    ensures
        raw_at(f, t, p, 0) == RawToken::Keyword(Keyword::Fun),
        raw_at(f, t, p, 1) == RawToken::Identifier,
        raw_at(f, t, p, 2) == RawToken::Punctuator(Punctuator::OpenParent),
        list_at(param_element(f, t), closes_parent(), f, t, token_start(f, t, p, 3)) matches Some((z, n))
            && return_type_at(f, t, after_token(f, t, z)) matches Some((q, has_return)) && empty_body_at(
            f,
            t,
            q,
        ) matches Some((e, has_body)) && function_at(f, t, p) == Some((e, n, has_return, has_body)),
{
    reveal(function_at);
}

/// A body that [`empty_body_at`] reads starts with `;` or `{`.
pub proof fn lemma_empty_body_start(f: PathId, t: Seq<char>, q: int)
    requires
        empty_body_at(f, t, q) is Some,
    ensures
        token_from(f, t, q).raw == RawToken::Punctuator(Punctuator::Semicolon) || token_from(f, t, q).raw
            == RawToken::Punctuator(Punctuator::OpenBrace),
{
    reveal(empty_body_at);
}

/// Parses `:` and the return type of a function if `:` comes; otherwise
/// there is none and nothing is read.
fn parse_return_type_opt(state: &mut ParseState) -> (r: Option<Option<Type>>)
    requires
        old(state).wf(),
    ensures
        final(state).wf(),
        moved_on(*old(state), *final(state)),
        r is None ==> failure_reported(*old(state), *final(state)),
        return_type_at(old(state).file(), old(state).text(), old(state).next_from()) matches Some((q, has_return))
            ==> (r matches Some(return_type) && (return_type is Some <==> has_return) && final(state).next_from() == q),
{
    let ghost s0 = *state;
    proof {
        s0.lemma_next_from();
        reveal(return_type_at);
    }
    if state.next_token_raw() == RawToken::Punctuator(Punctuator::Colon) {
        state.advance();
        let ghost s1 = *state;
        let ty = parse_type(state);
        proof {
            lemma_moved_on_trans(s0, s1, *state);
        }
        match ty {
            Some(ty) => Some(Some(ty)),
            None => None,
        }
    } else {
        Some(None)
    }
}

/// Parses the body of a function: `;` for none, or a block of statements.
fn parse_function_body(state: &mut ParseState) -> (r: Option<Option<Vec<Statement>>>)
    requires
        old(state).wf(),
    ensures
        final(state).wf(),
        moved_on(*old(state), *final(state)),
        r is None ==> failure_reported(*old(state), *final(state)),
        empty_body_at(old(state).file(), old(state).text(), old(state).next_from()) matches Some((e, has_body))
            ==> (r matches Some(body) && (body is Some <==> has_body) && (body matches Some(block)
            ==> block@.len() == 0) && final(state).next_from() == e),
{
    let ghost s0 = *state;
    proof {
        s0.lemma_next_from();
        reveal(empty_body_at);
        assert(later_start(s0, 0) == s0.position());
        assert(later_start(s0, 1) == after_token(s0.file(), s0.text(), s0.position()));
    }
    if state.next_token_raw() == RawToken::Punctuator(Punctuator::Semicolon) {
        state.advance();
        Some(None)
    } else if state.next_token_raw() == RawToken::Punctuator(Punctuator::OpenBrace) {
        let block = parse_statements_block(state);
        match block {
            Some(block) => Some(Some(block)),
            None => None,
        }
    } else {
        state.report_unexpected(body_expectation_text());
        None
    }
}

/// Parses what follows the parameters of a function: `:` and the return
/// type if there is one, where predicates, and `;` or a block of statements
/// as its body.
fn parse_function_rest(state: &mut ParseState) -> (r: Option<(Option<Type>, Vec<WherePredicate>, Option<Vec<Statement>>)>)
    requires
        old(state).wf(),
    ensures
        final(state).wf(),
        moved_on(*old(state), *final(state)),
        r is None ==> failure_reported(*old(state), *final(state)),
        match return_type_at(old(state).file(), old(state).text(), old(state).next_from()) {
            Some((q, has_return)) => match empty_body_at(old(state).file(), old(state).text(), q) {
                Some((e, has_body)) => r matches Some((return_type, where_predicates, body)) && (return_type is Some
                    <==> has_return) && where_predicates@.len() == 0 && (body is Some <==> has_body) && (
                body matches Some(block) ==> block@.len() == 0) && final(state).next_from() == e,
                None => true,
            },
            None => true,
        },
{
    let ghost s0 = *state;
    let return_type = parse_return_type_opt(state);
    let ghost s1 = *state;
    let return_type = match return_type {
        Some(return_type) => return_type,
        None => return None,
    };
    proof {
        s1.lemma_next_from();
        if return_type_at(s0.file(), s0.text(), s0.next_from()) is Some {
            let (q, _) = return_type_at(s0.file(), s0.text(), s0.next_from())->0;
            if empty_body_at(s0.file(), s0.text(), q) is Some {
                lemma_empty_body_start(s0.file(), s0.text(), q);
            }
        }
    }
    let where_predicates = parse_where_predicates_opt(state);
    let ghost s2 = *state;
    proof {
        lemma_moved_on_trans(s0, s1, s2);
    }
    let where_predicates = match where_predicates {
        Some(where_predicates) => where_predicates,
        None => return None,
    };
    let body = parse_function_body(state);
    proof {
        lemma_moved_on_trans(s0, s2, *state);
    }
    match body {
        Some(body) => Some((return_type, where_predicates, body)),
        None => None,
    }
}

/// The name read right after the first token of `s0`, into `s2`, is
/// still read from there in `s3`, with names added on the way.
proof fn name_read_later(s0: ParseState, s1: ParseState, s2: ParseState, s3: ParseState, name: IdentifierAST)
    requires
        s0.wf(),
        advanced(s0, s1),
        s1.wf(),
        name.location == s1.next().location,
        crate::parser::state::resolves_to(s2.names(), name.id, identifier_text_from(s1.file(), s1.text(), s1.next_from())),
        moved_on(s2, s3),
    ensures
        identifier_read_from(s3.names(), name, s0.file(), s0.text(), after_token(s0.file(), s0.text(), s0.next_from())),
{
    s0.lemma_next_from();
    s1.lemma_next_from();
    lemma_resolves_later(s2.names(), s3.names(), name.id, identifier_text_from(s1.file(), s1.text(), s1.next_from()));
}

/// Parses a function: `fun`, its name, generic parameters, parameters in
/// parentheses, `:` and the return type if there is one, where predicates,
/// and `;` or a block of statements as its body. A function of the form
/// that [`function_at`] reads always parses, as that form says.
pub fn parse_function(state: &mut ParseState, visibility: Visibility, docstring: Option<String>) -> (r:
    Option<Function>)
    requires
        old(state).wf(),
    ensures
        final(state).wf(),
        moved_on(*old(state), *final(state)),
        r is None ==> failure_reported(*old(state), *final(state)),
        old(state).next().raw == RawToken::Keyword(Keyword::Fun) ==> final(state).measure() < old(
            state,
        ).measure(),
        r matches Some(f) ==> old(state).next().raw == RawToken::Keyword(Keyword::Fun)
            && f.signature.visibility == visibility && f.signature.docstring == docstring
            && f.signature.name.location == second_token(*old(state)).location,
        r matches Some(f) ==> identifier_read_from(
            final(state).names(),
            f.signature.name,
            old(state).file(),
            old(state).text(),
            after_token(old(state).file(), old(state).text(), old(state).next_from()),
        ),
        old(state).next().raw != RawToken::Keyword(Keyword::Fun) && !(old(state).next().raw is Error)
            ==> r is None && same_place(*old(state), *final(state)) && reported_unexpected(
            old(state).reported(),
            final(state).reported(),
            old(state).current().location.end,
            old(state).next(),
            raw_token_text(RawToken::Keyword(Keyword::Fun)),
        ),
        function_at(old(state).file(), old(state).text(), old(state).next_from()) matches Some(
            (e, n, has_return, has_body),
        ) ==> (r matches Some(function) && function.signature.generic_parameters@.len() == 0
            && function.signature.parameters@.len() == n && (function.signature.return_type is Some
            <==> has_return) && function.signature.where_predicates@.len() == 0 && (function.body is Some
            <==> has_body) && (function.body matches Some(block) ==> block@.len() == 0)
            && final(state).next_from() == e),
        function_at(old(state).file(), old(state).text(), old(state).next_from()) is Some ==> (r matches Some(
            function,
        ) && parameters_read(
            final(state).names(),
            function.signature.parameters@,
            old(state).file(),
            old(state).text(),
            list_starts(
                param_element(old(state).file(), old(state).text()),
                closes_parent(),
                old(state).file(),
                old(state).text(),
                token_start(old(state).file(), old(state).text(), old(state).next_from(), 3),
            ),
        )),
{
    let ghost s0 = *state;
    let ghost f = s0.file();
    let ghost t = s0.text();
    let ghost p = s0.next_from();
    let ghost bare = function_at(f, t, p) is Some;
    proof {
        if bare {
            lemma_function_at(f, t, p);
            s0.lemma_next_from();
        }
    }
    if state.consume(RawToken::Keyword(Keyword::Fun)).is_none() {
        return None;
    }
    let ghost s1 = *state;
    proof {
        if bare {
            s1.lemma_next_from();
            assert(token_start(f, t, p, 1) == s1.next_from());
        }
    }
    let name = state.consume_identifier();
    let ghost s2 = *state;
    proof {
        lemma_moved_on_trans(s0, s1, s2);
        if bare {
            s2.lemma_next_from();
            assert(token_start(f, t, p, 2) == s2.next_from());
        }
    }
    let name = match name {
        Some(name) => name,
        None => return None,
    };
    let generic_parameters = parse_generic_parameters_opt(state);
    let ghost s3 = *state;
    proof {
        lemma_moved_on_trans(s0, s2, s3);
    }
    let generic_parameters = match generic_parameters {
        Some(generic_parameters) => generic_parameters,
        None => return None,
    };
    let opened = state.consume(RawToken::Punctuator(Punctuator::OpenParent));
    let ghost s4 = *state;
    proof {
        lemma_moved_on_trans(s0, s3, s4);
        if bare {
            s4.lemma_next_from();
            assert(token_start(f, t, p, 3) == s4.next_from());
        }
    }
    if opened.is_none() {
        return None;
    }
    let parameters = parse_function_parameters(state);
    let ghost s5 = *state;
    proof {
        lemma_moved_on_trans(s0, s4, s5);
    }
    let parameters = match parameters {
        Some(parameters) => parameters,
        None => return None,
    };
    state.advance();
    let ghost s6 = *state;
    proof {
        lemma_moved_on_trans(s0, s5, s6);
        if bare {
            s5.lemma_next_from();
            s6.lemma_next_from();
        }
    }
    let rest = parse_function_rest(state);
    proof {
        lemma_moved_on_trans(s0, s6, *state);
    }
    let (return_type, where_predicates, body) = match rest {
        Some(rest) => rest,
        None => return None,
    };
    proof {
        lemma_moved_on_trans(s2, s3, s4);
        lemma_moved_on_trans(s2, s4, s5);
        lemma_moved_on_trans(s2, s5, s6);
        lemma_moved_on_trans(s2, s6, *state);
        name_read_later(s0, s1, s2, *state, name);
        if bare {
            lemma_moved_on_trans(s5, s6, *state);
            lemma_parameters_grow(
                s5.names(),
                state.names(),
                parameters@,
                None,
                f,
                t,
                list_starts(param_element(f, t), closes_parent(), f, t, token_start(f, t, p, 3)),
            );
        }
    }
    Some(
        Function {
            signature: FunctionSignature {
                visibility,
                name,
                generic_parameters,
                parameters,
                return_type,
                where_predicates,
                docstring,
            },
            body,
        },
    )
}

/// Parses a type alias: `type`, its name, generic parameters, `=`, the
/// type and `;`.
#[verifier::spinoff_prover]
#[verifier::rlimit(60)]
fn parse_type_alias(state: &mut ParseState, visibility: Visibility, docstring: Option<String>) -> (r:
    Option<ModuleItem>)
    requires
        old(state).wf(),
        old(state).next().raw == RawToken::Keyword(Keyword::Type),
    ensures
        final(state).wf(),
        moved_on(*old(state), *final(state)),
        r is None ==> failure_reported(*old(state), *final(state)),
        final(state).measure() < old(state).measure(),
        r matches Some(item) ==> (item matches ModuleItem::TypeAlias(alias) && alias.visibility == visibility
            && alias.docstring == docstring && alias.name.location == second_token(*old(state)).location),
        match plain_alias_at(old(state).file(), old(state).text(), old(state).next_from()) {
            Some(n) => r matches Some(ModuleItem::TypeAlias(alias)) && alias.generic_parameters@.len() == 0
                && (alias.value matches Type::Constructor(c) && c.path.identifiers@.len() == n
                && c.arguments@.len() == 0),
            None => true,
        },
{
    let ghost s0 = *state;
    let ghost f = s0.file();
    let ghost t = s0.text();
    let ghost p = s0.next_from();
    let ghost plain = plain_alias_at(f, t, p) is Some;
    proof {
        if plain {
            s0.lemma_next_from();
        }
    }
    state.advance();
    let ghost s1 = *state;
    proof {
        if plain {
            s1.lemma_next_from();
            assert(token_start(f, t, p, 1) == s1.next_from());
        }
    }
    let name = state.consume_identifier();
    let ghost s2 = *state;
    proof {
        lemma_moved_on_trans(s0, s1, s2);
        if plain {
            s2.lemma_next_from();
            assert(token_start(f, t, p, 2) == s2.next_from());
        }
    }
    let name = match name {
        Some(name) => name,
        None => return None,
    };
    let generic_parameters = parse_generic_parameters_opt(state);
    let ghost s3 = *state;
    proof {
        lemma_moved_on_trans(s0, s2, s3);
    }
    let generic_parameters = match generic_parameters {
        Some(generic_parameters) => generic_parameters,
        None => return None,
    };
    let eq = state.consume(RawToken::Punctuator(Punctuator::Eq));
    let ghost s4 = *state;
    proof {
        lemma_moved_on_trans(s0, s3, s4);
    }
    if eq.is_none() {
        return None;
    }
    proof {
        if plain {
            s4.lemma_next_from();
            assert(token_start(f, t, p, 3) == s4.next_from());
        }
    }
    let value = parse_type(state);
    let ghost s5 = *state;
    proof {
        if plain {
            s5.lemma_next_from();
        }
    }
    proof {
        lemma_moved_on_trans(s0, s4, s5);
    }
    let value = match value {
        Some(value) => value,
        None => return None,
    };
    let semicolon = state.consume(RawToken::Punctuator(Punctuator::Semicolon));
    proof {
        lemma_moved_on_trans(s0, s5, *state);
    }
    match semicolon {
        Some(()) => Some(
            ModuleItem::TypeAlias(TypeAlias { visibility, name, generic_parameters, value, docstring }),
        ),
        None => None,
    }
}

/// A type alias without generic parameters whose type is a path, from
/// index `p` on: `type`, its name, `=`, the path and `;`; then how many
/// identifiers the path has.
pub open spec fn plain_alias_at(f: PathId, t: Seq<char>, p: int) -> Option<nat> {
    if raw_at(f, t, p, 0) == RawToken::Keyword(Keyword::Type) && raw_at(f, t, p, 1) == RawToken::Identifier
        && raw_at(f, t, p, 2) == RawToken::Punctuator(Punctuator::Eq) && raw_at(f, t, p, 3)
        == RawToken::Identifier {
        match path_at(f, t, token_start(f, t, p, 3)) {
            Some((e, n)) => if token_from(f, t, e).raw == RawToken::Punctuator(Punctuator::Semicolon) {
                Some(n)
            } else {
                None
            },
            None => None,
        }
    } else {
        None
    }
}

/// Parses an interface: `interface`, its name, generic parameters, `:`
/// and the interfaces it inherits if there are any, where predicates, and
/// its methods in braces. A `pub` before a method is reported, as every
/// method of an interface is public.
fn parse_interface(state: &mut ParseState, visibility: Visibility, docstring: Option<String>) -> (r:
    Option<ModuleItem>)
    requires
        old(state).wf(),
        old(state).next().raw == RawToken::Keyword(Keyword::Interface),
    ensures
        final(state).wf(),
        moved_on(*old(state), *final(state)),
        r is None ==> failure_reported(*old(state), *final(state)),
        final(state).measure() < old(state).measure(),
        r matches Some(item) ==> (item matches ModuleItem::Interface(interface) && interface.visibility
            == visibility && interface.docstring == docstring && interface.name.location
            == second_token(*old(state)).location),
{
    let ghost s0 = *state;
    state.advance();
    let ghost s1 = *state;
    let name = state.consume_identifier();
    let ghost s2 = *state;
    proof {
        lemma_moved_on_trans(s0, s1, s2);
    }
    let name = match name {
        Some(name) => name,
        None => return None,
    };
    let generic_parameters = parse_generic_parameters_opt(state);
    let ghost s3 = *state;
    proof {
        lemma_moved_on_trans(s0, s2, s3);
    }
    let generic_parameters = match generic_parameters {
        Some(generic_parameters) => generic_parameters,
        None => return None,
    };
    let inherits = if state.next_token_raw() == RawToken::Punctuator(Punctuator::Colon) {
        state.advance();
        let ghost s4 = *state;
        let bounds = parse_bounds(state);
        proof {
            lemma_moved_on_trans(s0, s3, s4);
            lemma_moved_on_trans(s0, s4, *state);
        }
        Some(bounds)
    } else {
        None
    };
    let ghost s5 = *state;
    let where_predicates = parse_where_predicates_opt(state);
    let ghost s6 = *state;
    proof {
        lemma_moved_on_trans(s0, s5, s6);
    }
    let where_predicates = match where_predicates {
        Some(where_predicates) => where_predicates,
        None => return None,
    };
    let opened = state.consume(RawToken::Punctuator(Punctuator::OpenBrace));
    let ghost s7 = *state;
    proof {
        lemma_moved_on_trans(s0, s6, s7);
    }
    if opened.is_none() {
        return None;
    }
    let mut methods: Vec<Function> = Vec::new();
    loop
        invariant
            state.wf(),
            s0 == *old(state),
            moved_on(s0, *state),
            state.measure() < s0.measure(),
        ensures
            state.wf(),
            moved_on(s0, *state),
            state.measure() < s0.measure(),
        decreases state.measure(),
    {
        if state.next_token_raw() == RawToken::Punctuator(Punctuator::CloseBrace) {
            break;
        }
        let ghost b0 = *state;
        let method_docstring = parse_docstring(state, false);
        let ghost b1 = *state;
        let method_visibility = state.parse_visibility();
        let ghost b2 = *state;
        let method = parse_function(state, method_visibility, method_docstring);
        let ghost b3 = *state;
        proof {
            lemma_moved_on_trans(b0, b1, b2);
            lemma_moved_on_trans(b0, b2, b3);
            lemma_moved_on_trans(s0, b0, b3);
        }
        let method = match method {
            Some(method) => method,
            None => return None,
        };
        if let Visibility::Public(location) = method.signature.visibility {
            state.report_unnecessary_visibility(
                UnnecessaryVisibilityQualifierDiagnostic {
                    location,
                    context: UnnecessaryVisibilityQualifierContext::InterfaceMethod {
                        name_location: method.signature.name.location,
                    },
                },
            );
            proof {
                assert(b3.reported().is_prefix_of(state.reported()));
                lemma_moved_on_trans(s0, b3, *state);
            }
        }
        methods.push(method);
        proof {
            state.lemma_measure_nonneg();
        }
    }
    let ghost s8 = *state;
    state.advance();
    proof {
        lemma_moved_on_trans(s0, s8, *state);
    }
    Some(
        ModuleItem::Interface(
            Interface {
                visibility,
                name,
                generic_parameters,
                where_predicates,
                methods,
                inherits,
                docstring,
            },
        ),
    )
}

/// Parses an enum: `enum`, its name, generic parameters, `implements` and
/// interfaces if there are any, where predicates, then in braces its items
/// and its methods. Where a method does not parse, the tokens up to the
/// next item are skipped.
fn parse_enum(state: &mut ParseState, visibility: Visibility, docstring: Option<String>) -> (r: Option<
    ModuleItem,
>)
    requires
        old(state).wf(),
        old(state).next().raw == RawToken::Keyword(Keyword::Enum),
    ensures
        final(state).wf(),
        moved_on(*old(state), *final(state)),
        r is None ==> failure_reported(*old(state), *final(state)),
        final(state).measure() < old(state).measure(),
        r matches Some(item) ==> (item matches ModuleItem::Enum(e) && e.visibility == visibility
            && e.docstring == docstring && e.name.location == second_token(*old(state)).location),
{
    let ghost s0 = *state;
    state.advance();
    let ghost s1 = *state;
    let name = state.consume_identifier();
    let ghost s2 = *state;
    proof {
        lemma_moved_on_trans(s0, s1, s2);
    }
    let name = match name {
        Some(name) => name,
        None => return None,
    };
    let generic_parameters = parse_generic_parameters_opt(state);
    let ghost s3 = *state;
    proof {
        lemma_moved_on_trans(s0, s2, s3);
    }
    let generic_parameters = match generic_parameters {
        Some(generic_parameters) => generic_parameters,
        None => return None,
    };
    let implements_closings = [RawToken::Keyword(Keyword::Where), RawToken::Punctuator(Punctuator::OpenBrace)];
    let implements = parse_implements_opt(state, &implements_closings);
    let ghost s4 = *state;
    proof {
        lemma_moved_on_trans(s0, s3, s4);
    }
    let implements = match implements {
        Some(implements) => implements,
        None => return None,
    };
    let where_predicates = parse_where_predicates_opt(state);
    let ghost s5 = *state;
    proof {
        lemma_moved_on_trans(s0, s4, s5);
    }
    let where_predicates = match where_predicates {
        Some(where_predicates) => where_predicates,
        None => return None,
    };
    let opened = state.consume(RawToken::Punctuator(Punctuator::OpenBrace));
    let ghost s6 = *state;
    proof {
        lemma_moved_on_trans(s0, s5, s6);
    }
    if opened.is_none() {
        return None;
    }
    let items_closings = [
        RawToken::Punctuator(Punctuator::CloseBrace),
        RawToken::Keyword(Keyword::Fun),
        RawToken::Keyword(Keyword::Pub),
    ];
    let items = parse_enum_items_until(state, &items_closings);
    let ghost s7 = *state;
    proof {
        lemma_moved_on_trans(s0, s6, s7);
    }
    let items = match items {
        Some(items) => items,
        None => return None,
    };
    let mut methods: Vec<Function> = Vec::new();
    loop
        invariant
            state.wf(),
            s0 == *old(state),
            moved_on(s0, *state),
            state.measure() < s0.measure(),
        ensures
            state.wf(),
            moved_on(s0, *state),
            state.measure() < s0.measure(),
        decreases state.measure(),
    {
        if state.next_token_raw() == RawToken::Punctuator(Punctuator::CloseBrace) {
            break;
        }
        let ghost b0 = *state;
        let method_docstring = parse_docstring(state, false);
        let ghost b1 = *state;
        let method_visibility = state.parse_visibility();
        let ghost b2 = *state;
        let method = parse_function(state, method_visibility, method_docstring);
        let ghost b3 = *state;
        proof {
            lemma_moved_on_trans(b0, b1, b2);
            lemma_moved_on_trans(b0, b2, b3);
            lemma_moved_on_trans(s0, b0, b3);
        }
        match method {
            Some(method) => methods.push(method),
            None => {
                skip_to_next_item(state);
                proof {
                    lemma_moved_on_trans(s0, b3, *state);
                }
                return None;
            },
        }
        proof {
            state.lemma_measure_nonneg();
        }
    }
    let ghost s8 = *state;
    state.advance();
    proof {
        lemma_moved_on_trans(s0, s8, *state);
    }
    Some(
        ModuleItem::Enum(
            Enum {
                visibility,
                name,
                generic_parameters,
                where_predicates,
                items,
                methods,
                implements,
                docstring,
            },
        ),
    )
}

/// What a struct expects after its header where it finds something else.
pub open spec fn struct_body_expectation() -> Seq<char> {
    one_of_text(
        seq![
            raw_token_text(RawToken::Punctuator(Punctuator::Semicolon)),
            raw_token_text(RawToken::Punctuator(Punctuator::OpenParent)),
            raw_token_text(RawToken::Punctuator(Punctuator::OpenBrace)),
        ],
    )
}

fn struct_body_expectation_text() -> (r: String)
    ensures
        r@ == struct_body_expectation(),
{
    let mut items: Vec<String> = Vec::new();
    items.push(String::from_str(raw_token_str(RawToken::Punctuator(Punctuator::Semicolon))));
    items.push(String::from_str(raw_token_str(RawToken::Punctuator(Punctuator::OpenParent))));
    items.push(String::from_str(raw_token_str(RawToken::Punctuator(Punctuator::OpenBrace))));
    proof {
        assert(texts(items@) =~= seq![
            raw_token_text(RawToken::Punctuator(Punctuator::Semicolon)),
            raw_token_text(RawToken::Punctuator(Punctuator::OpenParent)),
            raw_token_text(RawToken::Punctuator(Punctuator::OpenBrace)),
        ]);
    }
    one_of(items.as_slice())
}

/// Parses methods, each with its doc comment and visibility, up to `}`,
/// which is left as the next token. `visibility_first` says whether the
/// visibility comes before the doc comment.
#[verifier::spinoff_prover]
#[verifier::rlimit(60)]
fn parse_methods(state: &mut ParseState, visibility_first: bool) -> (r: Option<Vec<Function>>)
    requires
        old(state).wf(),
    ensures
        final(state).wf(),
        moved_on(*old(state), *final(state)),
        r is None ==> failure_reported(*old(state), *final(state)),
        r is Some ==> final(state).next().raw == RawToken::Punctuator(Punctuator::CloseBrace),
        methods_at(old(state).file(), old(state).text(), old(state).next_from()) matches Some((w, m)) ==> (
        r matches Some(v) && v@.len() == m && final(state).next_from() == w),
{
    let ghost s0 = *state;
    let ghost f = s0.file();
    let ghost t = s0.text();
    let ghost whole = methods_at(f, t, s0.next_from());
    let mut methods: Vec<Function> = Vec::new();
    loop
        invariant_except_break
            whole is Some ==> (methods_at(f, t, state.next_from()) matches Some((w, m)) && whole == Some(
                (w, m + methods@.len()),
            )),
        invariant
            state.wf(),
            s0 == *old(state),
            moved_on(s0, *state),
            f == s0.file(),
            t == s0.text(),
            whole == methods_at(f, t, s0.next_from()),
        ensures
            state.wf(),
            moved_on(s0, *state),
            state.next().raw == RawToken::Punctuator(Punctuator::CloseBrace),
            whole is Some ==> whole == Some((state.next_from(), methods@.len() as nat)),
        decreases state.measure(),
    {
        proof {
            state.lemma_next_from();
            lemma_methods_at(f, t, state.next_from());
            if methods_at(f, t, state.next_from()) is Some && function_at(f, t, state.next_from()) is Some {
                lemma_function_at(f, t, state.next_from());
            }
        }
        if state.next_token_raw() == RawToken::Punctuator(Punctuator::CloseBrace) {
            break;
        }
        let ghost b0 = *state;
        let (method_visibility, method_docstring) = if visibility_first {
            let method_visibility = state.parse_visibility();
            let method_docstring = parse_docstring(state, false);
            (method_visibility, method_docstring)
        } else {
            let method_docstring = parse_docstring(state, false);
            let method_visibility = state.parse_visibility();
            (method_visibility, method_docstring)
        };
        let ghost b1 = *state;
        let method = parse_function(state, method_visibility, method_docstring);
        proof {
            lemma_moved_on_trans(b0, b1, *state);
            lemma_moved_on_trans(s0, b0, *state);
            state.lemma_measure_nonneg();
        }
        match method {
            Some(method) => methods.push(method),
            None => return None,
        }
    }
    Some(methods)
}

/// Methods from index `p` on, each a function of the form that
/// [`function_at`] reads, up to `}`: where that `}` is read from, and how
/// many methods came.
#[verifier::opaque]
pub open spec fn methods_at(f: PathId, t: Seq<char>, p: int) -> Option<(int, nat)>
    decreases t.len() - p,
{
    if token_from(f, t, p).raw == RawToken::Punctuator(Punctuator::CloseBrace) {
        Some((p, 0))
    } else {
        match function_at(f, t, p) {
            Some((e, _, _, _)) => if p < e <= t.len() {
                match methods_at(f, t, e) {
                    Some((w, m)) => Some((w, m + 1)),
                    None => None,
                }
            } else {
                None
            },
            None => None,
        }
    }
}

/// The first of the methods that [`methods_at`] reads, and the rest.
pub proof fn lemma_methods_at(f: PathId, t: Seq<char>, p: int)
    ensures
        methods_at(f, t, p) == if token_from(f, t, p).raw == RawToken::Punctuator(Punctuator::CloseBrace) {
            Some((p, 0nat))
        } else {
            match function_at(f, t, p) {
                Some((e, _, _, _)) => if p < e <= t.len() {
                    match methods_at(f, t, e) {
                        Some((w, m)) => Some((w, m + 1)),
                        None => None,
                    }
                } else {
                    None
                },
                None => None,
            }
        },
{
    reveal(methods_at);
}

/// Whether a token ends the fields of a struct in braces.
pub open spec fn closes_fields() -> spec_fn(RawToken) -> bool {
    |raw: RawToken| ends_struct_fields(raw)
}

/// The braces of a struct from index `b` on, where `{` is read from: its
/// fields, each a name with a path type, separated by commas, then its
/// methods, each a function of the form that [`function_at`] reads, and
/// `}`. Then where the token after `}` is read from, how many fields and
/// how many methods came.
pub open spec fn struct_body_at(f: PathId, t: Seq<char>, b: int) -> Option<(int, nat, nat)> {
    match list_at(param_element(f, t), closes_fields(), f, t, after_token(f, t, b)) {
        Some((z, n)) => match methods_at(f, t, z) {
            Some((w, m)) => Some((after_token(f, t, w), n, m)),
            None => None,
        },
        None => None,
    }
}

/// Parses the braces of a struct: `{`, its fields, its methods and `}`.
/// There are no fields exactly where the token after `{` ends them.
#[verifier::spinoff_prover]
#[verifier::rlimit(80)]
fn parse_struct_braces(state: &mut ParseState) -> (r: Option<(Vec<StructField>, Vec<Function>)>)
    requires
        old(state).wf(),
        old(state).next().raw == RawToken::Punctuator(Punctuator::OpenBrace),
    ensures
        final(state).wf(),
        moved_on(*old(state), *final(state)),
        r is None ==> failure_reported(*old(state), *final(state)),
        r matches Some((fields, _)) ==> (fields@.len() == 0 <==> ends_struct_fields(
            second_token(*old(state)).raw,
        )),
        second_token(*old(state)).raw == RawToken::Punctuator(Punctuator::CloseBrace) ==> (r matches Some(
            (fields, methods),
        ) && fields@.len() == 0 && methods@.len() == 0),
        struct_body_at(old(state).file(), old(state).text(), old(state).next_from()) matches Some((e, n, m))
            ==> (r matches Some((fields, methods)) && fields@.len() == n && methods@.len() == m
            && final(state).next_from() == e),
        struct_body_at(old(state).file(), old(state).text(), old(state).next_from()) is Some ==> (r matches Some(
            (fields, _),
        ) && fields_read(
            final(state).names(),
            fields@,
            old(state).file(),
            old(state).text(),
            list_starts(
                param_element(old(state).file(), old(state).text()),
                closes_fields(),
                old(state).file(),
                old(state).text(),
                after_token(old(state).file(), old(state).text(), old(state).next_from()),
            ),
        )),
{
    let ghost s0 = *state;
    proof {
        s0.lemma_next_from();
    }
    state.advance();
    let ghost s1 = *state;
    let fields_closings = [
        RawToken::Punctuator(Punctuator::CloseBrace),
        RawToken::Keyword(Keyword::Fun),
        RawToken::Keyword(Keyword::Pub),
    ];
    assert(forall|raw: RawToken| fields_closings@.contains(raw) <==> ends_struct_fields(raw)) by {
        assert forall|raw: RawToken| ends_struct_fields(raw) implies fields_closings@.contains(raw) by {
            if raw == RawToken::Punctuator(Punctuator::CloseBrace) {
                assert(fields_closings@[0] == raw);
            } else if raw == RawToken::Keyword(Keyword::Fun) {
                assert(fields_closings@[1] == raw);
            } else {
                assert(fields_closings@[2] == raw);
            }
        }
    }
    assert(closes_any(fields_closings@) =~= closes_fields());
    let fields = parse_struct_fields_until(state, &fields_closings);
    let ghost s2 = *state;
    proof {
        lemma_moved_on_trans(s0, s1, s2);
        s2.lemma_next_from();
        lemma_methods_at(s2.file(), s2.text(), s2.next_from());
    }
    let fields = match fields {
        Some(fields) => fields,
        None => return None,
    };
    let mut methods: Vec<Function> = Vec::new();
    if state.next_token_raw() == RawToken::Keyword(Keyword::Fun) || state.next_token_raw()
        == RawToken::Keyword(Keyword::Pub) {
        methods = match parse_methods(state, false) {
            Some(methods) => methods,
            None => {
                proof {
                    lemma_moved_on_trans(s0, s2, *state);
                }
                return None;
            },
        };
    }
    let ghost s3 = *state;
    proof {
        s3.lemma_next_from();
    }
    state.advance();
    proof {
        lemma_moved_on_trans(s0, s2, s3);
        lemma_moved_on_trans(s0, s3, *state);
        lemma_moved_on_trans(s2, s3, *state);
        if struct_body_at(s0.file(), s0.text(), s0.next_from()) is Some {
            lemma_fields_grow(
                s2.names(),
                state.names(),
                fields@,
                None,
                s0.file(),
                s0.text(),
                list_starts(param_element(s0.file(), s0.text()), closes_fields(), s0.file(), s0.text(), s1.next_from()),
            );
        }
    }
    Some((fields, methods))
}

/// Parses a struct: `struct`, its name, generic parameters, `implements`
/// and interfaces if there are any, and where predicates. Then, where
/// neither of the last two came, `(` starts a tuple-like struct: its fields
/// in parentheses, `implements` and interfaces, where predicates, and its
/// methods in braces unless `;` comes, after which one more token is read.
/// Otherwise `{` starts the fields and then the methods of a struct. A
/// struct of its name and `{}` alone always parses, with nothing in it.
fn parse_struct(state: &mut ParseState, visibility: Visibility, docstring: Option<String>) -> (r: Option<
    ModuleItem,
>)
    requires
        old(state).wf(),
        old(state).next().raw == RawToken::Keyword(Keyword::Struct),
    ensures
        final(state).wf(),
        moved_on(*old(state), *final(state)),
        r is None ==> failure_reported(*old(state), *final(state)),
        final(state).measure() < old(state).measure(),
        r matches Some(item) ==> match item {
            ModuleItem::Struct(s) => s.visibility == visibility && s.docstring == docstring
                && s.name.location == second_token(*old(state)).location,
            ModuleItem::TupleLikeStruct(s) => s.visibility == visibility && s.docstring == docstring
                && s.name.location == second_token(*old(state)).location,
            _ => false,
        },
        r matches Some(ModuleItem::Struct(st)) ==> identifier_read_from(
            final(state).names(),
            st.name,
            old(state).file(),
            old(state).text(),
            after_token(old(state).file(), old(state).text(), old(state).next_from()),
        ),
        struct_fields_follow(old(state).file(), old(state).text(), old(state).next_from(), r),
        struct_at(old(state).file(), old(state).text(), old(state).next_from()) matches Some((e, n, m)) ==> (
        r matches Some(ModuleItem::Struct(st)) && st.fields@.len() == n && st.methods@.len() == m
            && st.generic_parameters@.len() == 0 && st.implements is None && st.where_predicates@.len() == 0
            && final(state).next_from() == e),
        struct_at(old(state).file(), old(state).text(), old(state).next_from()) is Some ==> (r matches Some(
            ModuleItem::Struct(st),
        ) && fields_read(
            final(state).names(),
            st.fields@,
            old(state).file(),
            old(state).text(),
            list_starts(
                param_element(old(state).file(), old(state).text()),
                closes_fields(),
                old(state).file(),
                old(state).text(),
                after_token(
                    old(state).file(),
                    old(state).text(),
                    token_start(old(state).file(), old(state).text(), old(state).next_from(), 2),
                ),
            ),
        )),
{
    let ghost s0 = *state;
    let ghost f = s0.file();
    let ghost t = s0.text();
    let ghost p = s0.next_from();
    let ghost empty = struct_at(f, t, p) is Some;
    proof {
        if empty {
            lemma_struct_at(f, t, p);
            s0.lemma_next_from();
        }
    }
    state.advance();
    let ghost s1 = *state;
    proof {
        if empty {
            s1.lemma_next_from();
            assert(token_start(f, t, p, 1) == s1.next_from());
        }
    }
    let name = state.consume_identifier();
    let ghost s2 = *state;
    proof {
        lemma_moved_on_trans(s0, s1, s2);
        if empty {
            s2.lemma_next_from();
            assert(token_start(f, t, p, 2) == s2.next_from());
        }
    }
    let name = match name {
        Some(name) => name,
        None => return None,
    };
    let generic_parameters = parse_generic_parameters_opt(state);
    let ghost s3 = *state;
    proof {
        lemma_moved_on_trans(s0, s2, s3);
    }
    let generic_parameters = match generic_parameters {
        Some(generic_parameters) => generic_parameters,
        None => return None,
    };
    let implements_closings = [
        RawToken::Keyword(Keyword::Where),
        RawToken::Punctuator(Punctuator::Semicolon),
        RawToken::Punctuator(Punctuator::OpenBrace),
    ];
    let implements = parse_implements_opt(state, &implements_closings);
    let ghost s4 = *state;
    proof {
        lemma_moved_on_trans(s0, s3, s4);
    }
    let implements = match implements {
        Some(implements) => implements,
        None => return None,
    };
    let where_predicates = parse_where_predicates_opt(state);
    let ghost s5 = *state;
    proof {
        lemma_moved_on_trans(s0, s4, s5);
    }
    let where_predicates = match where_predicates {
        Some(where_predicates) => where_predicates,
        None => return None,
    };
    if state.next_token_raw() == RawToken::Punctuator(Punctuator::OpenParent) && where_predicates.len()
        == 0 && implements.is_none() {
        let fields = parse_tuple_fields(state);
        let ghost s6 = *state;
        proof {
            lemma_moved_on_trans(s0, s5, s6);
        }
        let fields = match fields {
            Some(fields) => fields,
            None => return None,
        };
        let implements = parse_implements_opt(state, &implements_closings);
        let ghost s7 = *state;
        proof {
            lemma_moved_on_trans(s0, s6, s7);
        }
        let implements = match implements {
            Some(implements) => implements,
            None => return None,
        };
        let where_predicates = parse_where_predicates_opt(state);
        let ghost s8 = *state;
        proof {
            lemma_moved_on_trans(s0, s7, s8);
        }
        let where_predicates = match where_predicates {
            Some(where_predicates) => where_predicates,
            None => return None,
        };
        let mut methods: Vec<Function> = Vec::new();
        if state.next_token_raw() != RawToken::Punctuator(Punctuator::Semicolon) {
            let opened = state.consume(RawToken::Punctuator(Punctuator::OpenBrace));
            let ghost s9 = *state;
            proof {
                lemma_moved_on_trans(s0, s8, s9);
            }
            if opened.is_none() {
                return None;
            }
            methods = match parse_methods(state, true) {
                Some(methods) => methods,
                None => {
                    proof {
                        lemma_moved_on_trans(s0, s9, *state);
                    }
                    return None;
                },
            };
            let ghost s10 = *state;
            state.advance();
            proof {
                lemma_moved_on_trans(s0, s9, s10);
                lemma_moved_on_trans(s0, s10, *state);
            }
        }
        let ghost s11 = *state;
        state.advance();
        proof {
            lemma_moved_on_trans(s0, s11, *state);
        }
        Some(
            ModuleItem::TupleLikeStruct(
                TupleLikeStruct {
                    visibility,
                    name,
                    generic_parameters,
                    where_predicates,
                    fields,
                    methods,
                    implements,
                    docstring,
                },
            ),
        )
    } else if state.next_token_raw() == RawToken::Punctuator(Punctuator::OpenBrace) {
        let braces = parse_struct_braces(state);
        proof {
            lemma_moved_on_trans(s0, s5, *state);
            let f = s0.file();
            let t = s0.text();
            let brace = after_token(f, t, after_token(f, t, s0.next_from()));
            assert(token_from(f, t, brace).raw == RawToken::Punctuator(Punctuator::OpenBrace)
                ==> second_token(s5) == token_from(f, t, after_token(f, t, brace))) by {
                s0.lemma_next_from();
                s1.lemma_next_from();
                s2.lemma_next_from();
            }
        }
        let (fields, methods) = match braces {
            Some(braces) => braces,
            None => return None,
        };
        proof {
            lemma_moved_on_trans(s2, s3, s4);
            lemma_moved_on_trans(s2, s4, s5);
            lemma_moved_on_trans(s2, s5, *state);
            name_read_later(s0, s1, s2, *state, name);
        }
        Some(
            ModuleItem::Struct(
                Struct {
                    visibility,
                    name,
                    generic_parameters,
                    where_predicates,
                    fields,
                    methods,
                    implements,
                    docstring,
                },
            ),
        )
    } else {
        state.report_unexpected(struct_body_expectation_text());
        proof {
            lemma_moved_on_trans(s0, s5, *state);
        }
        None
    }
}

/// A struct from index `p` on without generic parameters, `implements` or
/// `where`, and with braces that [`struct_body_at`] reads: `struct`, its
/// name and the braces. Then where the token after it is read from, how
/// many fields and how many methods it has.
#[verifier::opaque]
pub open spec fn struct_at(f: PathId, t: Seq<char>, p: int) -> Option<(int, nat, nat)> {
    if raw_at(f, t, p, 0) == RawToken::Keyword(Keyword::Struct) && raw_at(f, t, p, 1) == RawToken::Identifier
        && raw_at(f, t, p, 2) == RawToken::Punctuator(Punctuator::OpenBrace) {
        struct_body_at(f, t, token_start(f, t, p, 2))
    } else {
        None
    }
}

/// The parts of a struct that [`struct_at`] reads.
pub proof fn lemma_struct_at(f: PathId, t: Seq<char>, p: int)
    requires
        struct_at(f, t, p) is Some,
    ensures
        raw_at(f, t, p, 0) == RawToken::Keyword(Keyword::Struct),
        raw_at(f, t, p, 1) == RawToken::Identifier,
        raw_at(f, t, p, 2) == RawToken::Punctuator(Punctuator::OpenBrace),
        struct_at(f, t, p) == struct_body_at(f, t, token_start(f, t, p, 2)),
{
    reveal(struct_at);
}

/// Whether `raw` ends the fields of a struct in braces: `}`, or `fun` or
/// `pub`, which start its methods.
pub open spec fn ends_struct_fields(raw: RawToken) -> bool {
    ||| raw == RawToken::Punctuator(Punctuator::CloseBrace)
    ||| raw == RawToken::Keyword(Keyword::Fun)
    ||| raw == RawToken::Keyword(Keyword::Pub)
}

/// Of a struct read from index `p` on whose name is followed by `{`: it
/// has no fields exactly where the token after that `{` ends the fields.
pub open spec fn struct_fields_follow(f: PathId, t: Seq<char>, p: int, r: Option<ModuleItem>) -> bool {
    let brace = after_token(f, t, after_token(f, t, p));
    token_from(f, t, brace).raw == RawToken::Punctuator(Punctuator::OpenBrace) ==> (r matches Some(
        ModuleItem::Struct(st),
    ) ==> (st.fields@.len() == 0 <==> ends_struct_fields(token_from(f, t, after_token(f, t, brace)).raw)))
}

/// The kind of item that a first token other than a doc comment or `pub`
/// decides: `enum`, `import`, `struct` (a struct or a tuple-like struct),
/// `interface`, `fun` and `type` start their kind of item, and no item
/// starts with any other token.
pub open spec fn item_fits_first_token(raw: RawToken, r: Option<ModuleItem>) -> bool {
    if raw == RawToken::LocalDocComment || raw == RawToken::Keyword(Keyword::Pub) {
        true
    } else if raw == RawToken::Keyword(Keyword::Enum) {
        r matches Some(item) ==> item is Enum
    } else if raw == RawToken::Keyword(Keyword::Import) {
        r matches Some(item) ==> item is Import
    } else if raw == RawToken::Keyword(Keyword::Struct) {
        r matches Some(item) ==> (item is Struct || item is TupleLikeStruct)
    } else if raw == RawToken::Keyword(Keyword::Interface) {
        r matches Some(item) ==> item is Interface
    } else if raw == RawToken::Keyword(Keyword::Fun) {
        r matches Some(item) ==> item is Function
    } else if raw == RawToken::Keyword(Keyword::Type) {
        r matches Some(item) ==> item is TypeAlias
    } else {
        r is None
    }
}

/// Parses a module item with its doc comment and visibility. Where the
/// item does not parse, or no item starts where one should, the tokens up
/// to the next item are skipped and nothing is returned. Unless at the end
/// of the file, at least one token is read.
pub fn parse_item(state: &mut ParseState) -> (r: Option<ModuleItem>)
    requires
        old(state).wf(),
    ensures
        final(state).wf(),
        moved_on(*old(state), *final(state)),
        r is None ==> failure_reported(*old(state), *final(state)),
        old(state).next().raw != RawToken::EndOfFile ==> final(state).measure() < old(state).measure(),
        item_fits_first_token(old(state).next().raw, r),
        old(state).next().raw == RawToken::Keyword(Keyword::Import) ==> match import_item_at(
            old(state).file(),
            old(state).text(),
            old(state).next_from(),
        ) {
            Some(e) => r matches Some(item) && item is Import && final(state).next_from() == e,
            None => r is None,
        },
        old(state).next().raw == RawToken::Keyword(Keyword::Struct) ==> struct_fields_follow(
            old(state).file(),
            old(state).text(),
            old(state).next_from(),
            r,
        ),
        function_at(old(state).file(), old(state).text(), old(state).next_from()) matches Some(
            (e, n, has_return, has_body),
        ) ==> (r matches Some(ModuleItem::Function(function)) && function.signature.parameters@.len() == n
            && (function.signature.return_type is Some <==> has_return) && (function.body is Some <==> has_body)
            && final(state).next_from() == e),
        struct_at(old(state).file(), old(state).text(), old(state).next_from()) matches Some((e, n, m)) ==> (
        r matches Some(ModuleItem::Struct(st)) && st.fields@.len() == n && st.methods@.len() == m
            && final(state).next_from() == e),
        match plain_alias_at(old(state).file(), old(state).text(), old(state).next_from()) {
            Some(n) => r matches Some(ModuleItem::TypeAlias(alias)) && (alias.value matches Type::Constructor(
                c,
            ) && c.path.identifiers@.len() == n),
            None => true,
        },
{
    let ghost s0 = *state;
    proof {
        s0.lemma_next_from();
        if function_at(s0.file(), s0.text(), s0.next_from()) is Some {
            lemma_function_at(s0.file(), s0.text(), s0.next_from());
        }
        if struct_at(s0.file(), s0.text(), s0.next_from()) is Some {
            lemma_struct_at(s0.file(), s0.text(), s0.next_from());
        }
    }
    let docstring = parse_docstring(state, false);
    let ghost s1 = *state;
    let visibility = state.parse_visibility();
    let ghost s2 = *state;
    proof {
        lemma_moved_on_trans(s0, s1, s2);
    }
    let raw = state.next_token_raw();
    let item = if raw == RawToken::Keyword(Keyword::Enum) {
        parse_enum(state, visibility, docstring)
    } else if raw == RawToken::Keyword(Keyword::Import) {
        parse_import(state, visibility)
    } else if raw == RawToken::Keyword(Keyword::Struct) {
        parse_struct(state, visibility, docstring)
    } else if raw == RawToken::Keyword(Keyword::Interface) {
        parse_interface(state, visibility, docstring)
    } else if raw == RawToken::Keyword(Keyword::Fun) {
        match parse_function(state, visibility, docstring) {
            Some(function) => Some(ModuleItem::Function(function)),
            None => None,
        }
    } else if raw == RawToken::Keyword(Keyword::Type) {
        parse_type_alias(state, visibility, docstring)
    } else {
        state.report_unexpected(String::from_str("module item"));
        let ghost s3 = *state;
        skip_to_next_item(state);
        proof {
            lemma_moved_on_trans(s0, s2, s3);
            lemma_moved_on_trans(s0, s3, *state);
        }
        return None;
    };
    let ghost s4 = *state;
    proof {
        lemma_moved_on_trans(s0, s2, s4);
    }
    match item {
        Some(item) => Some(item),
        None => {
            skip_to_next_item(state);
            proof {
                lemma_moved_on_trans(s0, s4, *state);
            }
            None
        },
    }
}

/// Parses module items up to the end of the file; items that do not parse
/// are left out. The items that [`item_at`] reads one after another where
/// it starts give the first items, one each and in order.
pub fn parse_items(state: &mut ParseState) -> (r: Vec<ModuleItem>)
    requires
        old(state).wf(),
    ensures
        final(state).wf(),
        moved_on(*old(state), *final(state)),
        final(state).next().raw == RawToken::EndOfFile,
        kinds_lead(r@, leading_items(old(state).file(), old(state).text(), old(state).next_from())),
{
    let ghost s0 = *state;
    let ghost f = s0.file();
    let ghost text = s0.text();
    let ghost kinds = leading_items(f, text, s0.next_from());
    let ghost mut in_chain = true;
    let mut items: Vec<ModuleItem> = Vec::new();
    while state.next_token_raw() != RawToken::EndOfFile
        invariant
            state.wf(),
            moved_on(s0, *state),
            f == s0.file(),
            text == s0.text(),
            in_chain ==> items@.len() <= kinds.len() && leading_items(f, text, state.next_from())
                == kinds.subrange(items@.len() as int, kinds.len() as int),
            !in_chain ==> items@.len() >= kinds.len(),
            forall|i: int| 0 <= i < kinds.len() && i < items@.len() ==> #[trigger] item_kind(items@[i])
                == kinds[i],
        decreases state.measure(),
    {
        let ghost before = *state;
        proof {
            before.lemma_next_from();
            lemma_leading_items(f, text, before.next_from());
            if in_chain && leading_items(f, text, before.next_from()).len() == 0 {
                assert(kinds.subrange(items@.len() as int, kinds.len() as int).len() == 0);
                in_chain = false;
            }
        }
        let ghost len0 = items@.len();
        let parsed = parse_item(state);
        proof {
            if in_chain {
                let (e, k) = item_at(f, text, before.next_from())->0;
                assert(parsed matches Some(item) && item_kind(item) == k && state.next_from() == e) by {
                    if import_item_at(f, text, before.next_from()) is None {
                        if function_at(f, text, before.next_from()) is Some {
                            lemma_function_at(f, text, before.next_from());
                        } else {
                            lemma_struct_at(f, text, before.next_from());
                        }
                    }
                }
                lemma_chain_step(kinds, len0 as int, leading_items(f, text, e), k);
            }
        }
        if let Some(item) = parsed {
            items.push(item);
        }
        proof {
            lemma_moved_on_trans(s0, before, *state);
            state.lemma_measure_nonneg();
        }
    }
    proof {
        state.lemma_next_from();
        lemma_leading_items(f, text, state.next_from());
        if in_chain {
            if function_at(f, text, state.next_from()) is Some {
                lemma_function_at(f, text, state.next_from());
            }
            if struct_at(f, text, state.next_from()) is Some {
                lemma_struct_at(f, text, state.next_from());
            }
            assert(leading_items(f, text, state.next_from()).len() == 0);
        }
    }
    items
}

} // verus!

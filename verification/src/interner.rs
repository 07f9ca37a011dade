//! String interning: every distinct string gets one symbol, and the symbol
//! gives the string back.
//!
//! ```txt
//! "test" -> intern -> Id(1)
//! "halo" -> intern -> Id(2)
//! "test" -> intern -> Id(1)
//!
//! Id(1) -> resolve -> "test"
//! Id(2) -> resolve -> "halo"
//! ```

use vstd::prelude::*;
use vstd::string::*;
use vstd::utf8::{
    encode_utf8, encode_utf8_decode_utf8, encode_utf8_first_scalar, encode_utf8_valid_utf8,
    encode_scalar, is_char_boundary, pop_first_scalar,
};

use crate::text::{push_str, str_get};

pub mod builtin_identifiers;

verus! {

/* Symbols */

/// A trait, that is implemented for types which represent unique IDs of
/// interned objects in [`Interner`]: each symbol stands for a position in
/// the interner's storage.
pub trait SymbolId: Copy + Sized {
    /// The symbol stands for a storage position.
    spec fn has_index(self) -> bool;

    /// The storage position the symbol stands for.
    spec fn index_of(self) -> int;

    /// A symbol exists for storage position `index`.
    spec fn fits(index: int) -> bool;

    /// The symbol for storage position `index`.
    spec fn symbol_at(index: int) -> Self;

    /// The symbol for a position stands for that position.
    proof fn lemma_round_trip(index: int)
        requires
            0 <= index,
            Self::fits(index),
        ensures
            Self::symbol_at(index).has_index(),
            Self::symbol_at(index).index_of() == index,
    ;

    /// Every position below one that has a symbol has a symbol too.
    proof fn lemma_fits_below(index: int, bound: int)
        requires
            0 <= index <= bound,
            Self::fits(bound),
        ensures
            Self::fits(index),
    ;

    /// Returns an index of the symbol in the interner memory storage.
    fn to_storage_index(self) -> (r: usize)
        requires
            self.has_index(),
        ensures
            r == self.index_of(),
    ;

    /// Returns an interned symbol id from the index in the interner memory storage.
    fn from_storage_index(index: usize) -> (r: Self)
        requires
            Self::fits(index as int),
        ensures
            r == Self::symbol_at(index as int),
    ;
}

/// Represents unique symbol corresponding to some interned identifier.
#[derive(Debug, Clone, Copy, PartialEq, Eq, Hash, Structural)]
pub struct IdentifierId(pub usize);

/// The number of the identifier ID that never exists in the
/// [`IdentifierInterner`]: `IdentifierId(DUMMY_IDENTIFIER_ID)`.
pub const DUMMY_IDENTIFIER_ID: usize = 0;

/// ID of a path in the [`PathInterner`].
#[derive(Debug, Clone, Copy, PartialEq, Eq, Hash, Structural)]
pub struct PathId(pub usize);

/// The number of the path ID that never exists in the [`PathInterner`]:
/// `PathId(DUMMY_PATH_ID)`.
pub const DUMMY_PATH_ID: usize = 0;

impl SymbolId for IdentifierId {
    open spec fn has_index(self) -> bool {
        self.0 >= 1
    }

    open spec fn index_of(self) -> int {
        self.0 - 1
    }

    open spec fn fits(index: int) -> bool {
        index < usize::MAX
    }

    open spec fn symbol_at(index: int) -> Self {
        IdentifierId((index + 1) as usize)
    }

    proof fn lemma_round_trip(index: int) {
    }

    proof fn lemma_fits_below(index: int, bound: int) {
    }

    fn to_storage_index(self) -> (r: usize) {
        self.0 - 1
    }

    fn from_storage_index(index: usize) -> (r: Self) {
        IdentifierId(index + 1)
    }
}

impl SymbolId for PathId {
    open spec fn has_index(self) -> bool {
        self.0 >= 1
    }

    open spec fn index_of(self) -> int {
        self.0 - 1
    }

    open spec fn fits(index: int) -> bool {
        index < usize::MAX
    }

    open spec fn symbol_at(index: int) -> Self {
        PathId((index + 1) as usize)
    }

    proof fn lemma_round_trip(index: int) {
    }

    proof fn lemma_fits_below(index: int, bound: int) {
    }

    fn to_storage_index(self) -> (r: usize) {
        self.0 - 1
    }

    fn from_storage_index(index: usize) -> (r: Self) {
        PathId(index + 1)
    }
}

impl SymbolId for usize {
    open spec fn has_index(self) -> bool {
        true
    }

    open spec fn index_of(self) -> int {
        self as int
    }

    open spec fn fits(index: int) -> bool {
        index <= usize::MAX
    }

    open spec fn symbol_at(index: int) -> Self {
        index as usize
    }

    proof fn lemma_round_trip(index: int) {
    }

    proof fn lemma_fits_below(index: int, bound: int) {
    }

    fn to_storage_index(self) -> (r: usize) {
        self
    }

    fn from_storage_index(index: usize) -> (r: Self) {
        index
    }
}

impl SymbolId for u64 {
    open spec fn has_index(self) -> bool {
        self <= usize::MAX
    }

    open spec fn index_of(self) -> int {
        self as int
    }

    open spec fn fits(index: int) -> bool {
        index <= usize::MAX
    }

    open spec fn symbol_at(index: int) -> Self {
        index as u64
    }

    proof fn lemma_round_trip(index: int) {
    }

    proof fn lemma_fits_below(index: int, bound: int) {
    }

    fn to_storage_index(self) -> (r: usize) {
        self as usize
    }

    fn from_storage_index(index: usize) -> (r: Self) {
        index as u64
    }
}

impl SymbolId for u32 {
    open spec fn has_index(self) -> bool {
        true
    }

    open spec fn index_of(self) -> int {
        self as int
    }

    open spec fn fits(index: int) -> bool {
        index <= u32::MAX
    }

    open spec fn symbol_at(index: int) -> Self {
        index as u32
    }

    proof fn lemma_round_trip(index: int) {
    }

    proof fn lemma_fits_below(index: int, bound: int) {
    }

    fn to_storage_index(self) -> (r: usize) {
        self as usize
    }

    fn from_storage_index(index: usize) -> (r: Self) {
        index as u32
    }
}

/* UTF-8 facts about concatenated strings */

/// The encoding of a concatenation is the concatenation of the encodings.
pub proof fn lemma_encode_concat(a: Seq<char>, b: Seq<char>)
    ensures
        encode_utf8(a + b) == encode_utf8(a) + encode_utf8(b),
    decreases a.len(),
{
    if a.len() == 0 {
        assert(a + b =~= b);
        assert(encode_utf8(a) + encode_utf8(b) =~= encode_utf8(b));
    } else {
        assert((a + b).drop_first() =~= a.drop_first() + b);
        lemma_encode_concat(a.drop_first(), b);
        assert(encode_utf8(a + b) =~= encode_utf8(a) + encode_utf8(b));
    }
}

/// The end of the encoding of a prefix is a character boundary.
pub proof fn lemma_boundary_after_prefix(a: Seq<char>, b: Seq<char>)
    ensures
        is_char_boundary(encode_utf8(a + b), encode_utf8(a).len() as int),
    decreases a.len(),
{
    let bytes = encode_utf8(a + b);
    encode_utf8_valid_utf8(a + b);
    if a.len() == 0 {
    } else {
        lemma_encode_concat(a, b);
        encode_utf8_first_scalar(a + b);
        let rest = (a + b).drop_first();
        assert(rest =~= a.drop_first() + b);
        assert(pop_first_scalar(bytes) =~= encode_utf8(rest));
        lemma_boundary_after_prefix(a.drop_first(), b);
        encode_utf8_valid_utf8(rest);
        assert(encode_utf8(a).len() == encode_scalar(a[0] as u32).len() + encode_utf8(
            a.drop_first(),
        ).len());
    }
}

/// Encoding is one to one.
pub proof fn lemma_encode_injective(a: Seq<char>, b: Seq<char>)
    requires
        encode_utf8(a) == encode_utf8(b),
    ensures
        a == b,
{
    encode_utf8_decode_utf8(a);
    encode_utf8_decode_utf8(b);
}

/* Storage */

/// The first `n` strings of `strings` written one after another.
pub open spec fn concat_upto(strings: Seq<Seq<char>>, n: nat) -> Seq<char>
    decreases n,
{
    if n == 0 {
        Seq::empty()
    } else {
        concat_upto(strings, (n - 1) as nat) + strings[n - 1]
    }
}

/// Concatenating fewer strings gives a prefix of concatenating more.
pub proof fn lemma_concat_prefix(strings: Seq<Seq<char>>, k: nat, n: nat)
    requires
        k <= n <= strings.len(),
    ensures
        concat_upto(strings, n) =~= concat_upto(strings, k) + concat_upto(strings, n).skip(
            concat_upto(strings, k).len() as int,
        ),
        concat_upto(strings, k).len() <= concat_upto(strings, n).len(),
    decreases n,
{
    if k < n {
        lemma_concat_prefix(strings, k, (n - 1) as nat);
    }
}

/// Concatenations agree on the strings they share.
pub proof fn lemma_concat_same(s: Seq<Seq<char>>, t: Seq<Seq<char>>, n: nat)
    requires
        n <= s.len(),
        n <= t.len(),
        s.take(n as int) == t.take(n as int),
    ensures
        concat_upto(s, n) == concat_upto(t, n),
    decreases n,
{
    if n > 0 {
        assert(s.take(n - 1) =~= s.take(n as int).take(n - 1));
        assert(t.take(n - 1) =~= t.take(n as int).take(n - 1));
        assert(s[n - 1] == s.take(n as int)[n - 1]);
        assert(t[n - 1] == t.take(n as int)[n - 1]);
        lemma_concat_same(s, t, (n - 1) as nat);
    }
}

/// Storage for interned strings: all of them written one after another in
/// one buffer, with the byte offset at which each one ends.
struct InternerStorage {
    /// The byte offset at which each interned string ends.
    ends: Vec<usize>,
    /// All interned strings live here.
    storage: String,
    /// The interned strings, in the order they were interned.
    strings: Ghost<Seq<Seq<char>>>,
}

/// Represents a location of an interned string inside the storage buffer.
#[derive(Debug, Copy, Clone, PartialEq, Eq, Structural)]
struct Span {
    start: usize,
    end: usize,
}

impl InternerStorage {
    /// The buffer holds the strings one after another, and the ends mark
    /// where each one ends.
    spec fn wf(&self) -> bool {
        &&& self.ends@.len() == self.strings@.len()
        &&& self.storage@ == concat_upto(self.strings@, self.strings@.len())
        &&& forall|i: int|
            0 <= i < self.ends@.len() ==> #[trigger] self.ends@[i] == encode_utf8(
                concat_upto(self.strings@, (i + 1) as nat),
            ).len()
    }

    fn new() -> (r: Self)
        ensures
            r.wf(),
            r.strings@ == Seq::<Seq<char>>::empty(),
    {
        InternerStorage { ends: Vec::new(), storage: String::new(), strings: Ghost(Seq::empty()) }
    }

    fn with_capacity(capacity: usize) -> (r: Self)
        ensures
            r.wf(),
            r.strings@ == Seq::<Seq<char>>::empty(),
    {
        InternerStorage {
            ends: Vec::with_capacity(capacity),
            storage: String::new(),
            strings: Ghost(Seq::empty()),
        }
    }

    /// Returns the index of the next string.
    fn next_index(&self) -> (r: usize)
        requires
            self.wf(),
        ensures
            r == self.strings@.len(),
    {
        self.ends.len()
    }

    /// Pushes the string into the buffer and returns its index.
    fn push(&mut self, string: &str) -> (r: usize)
        requires
            old(self).wf(),
        ensures
            final(self).wf(),
            final(self).strings@ == old(self).strings@.push(string@),
            r == old(self).strings@.len(),
    {
        let ghost old_strings = self.strings@;
        push_str(&mut self.storage, string);
        let end = self.storage.as_str().as_bytes().len();
        let index = self.ends.len();
        self.ends.push(end);
        self.strings = Ghost(old_strings.push(string@));
        proof {
            let n = old_strings.len();
            let ss = self.strings@;
            assert(ss.take(n as int) =~= old_strings.take(n as int));
            lemma_concat_same(ss, old_strings, n);
            assert(self.storage@ == concat_upto(ss, (n + 1) as nat));
            assert forall|i: int| 0 <= i < self.ends@.len() implies #[trigger] self.ends@[i]
                == encode_utf8(concat_upto(ss, (i + 1) as nat)).len() by {
                if i < n {
                    assert(ss.take(i + 1) =~= old_strings.take(i + 1));
                    lemma_concat_same(ss, old_strings, (i + 1) as nat);
                }
            }
        }
        index
    }

    /// Returns the byte span of the string with the given index, if any.
    fn span_of(&self, index: usize) -> (r: Option<Span>)
        requires
            self.wf(),
        ensures
            index >= self.strings@.len() ==> r is None,
            index < self.strings@.len() ==> (r matches Some(span) && span.start == encode_utf8(
                concat_upto(self.strings@, index as nat),
            ).len() && span.end == self.ends@[index as int]),
    {
        if index < self.ends.len() {
            let end = self.ends[index];
            let start = if index == 0 {
                0
            } else {
                self.ends[index - 1]
            };
            Some(Span { start, end })
        } else {
            None
        }
    }

    /// Returns the string at the given span of a stored string.
    fn str_at(&self, index: Ghost<int>, span: Span) -> (r: &str)
        requires
            self.wf(),
            0 <= index@ < self.strings@.len(),
            span.start == encode_utf8(concat_upto(self.strings@, index@ as nat)).len(),
            span.end == self.ends@[index@],
        ensures
            r@ == self.strings@[index@],
    {
        proof {
            let ss = self.strings@;
            let i = index@;
            let n = ss.len();
            let a = concat_upto(ss, i as nat);
            let b = concat_upto(ss, (i + 1) as nat);
            let all = concat_upto(ss, n);
            lemma_concat_prefix(ss, i as nat, n);
            lemma_concat_prefix(ss, (i + 1) as nat, n);
            let rest_a = all.skip(a.len() as int);
            let rest_b = all.skip(b.len() as int);
            lemma_boundary_after_prefix(a, rest_a);
            lemma_boundary_after_prefix(b, rest_b);
            lemma_encode_concat(a, ss[i]);
            lemma_encode_concat(b, rest_b);
            assert(b == a + ss[i]);
            assert(encode_utf8(all).subrange(span.start as int, span.end as int) =~= encode_utf8(
                ss[i],
            ));
        }
        let r = str_get(self.storage.as_str(), span.start, span.end);
        let t = r.unwrap();
        proof {
            lemma_encode_injective(t@, self.strings@[index@]);
        }
        t
    }

    /// Resolves the string with the given index.
    fn resolve(&self, index: usize) -> (r: Option<&str>)
        requires
            self.wf(),
        ensures
            index >= self.strings@.len() ==> r is None,
            index < self.strings@.len() ==> (r matches Some(t) && t@ == self.strings@[index as int]),
    {
        match self.span_of(index) {
            Some(span) => Some(self.str_at(Ghost(index as int), span)),
            None => None,
        }
    }
}

/* Deduplication table */

/// The table that finds the storage index of an interned string: a
/// `hashbrown::HashMap` from each interned string to its index.
#[verifier::external_body]
pub struct DedupTable {
    table: hashbrown::HashMap<String, usize>,
}

/// The entries of a deduplication table, by the text of their keys.
pub uninterp spec fn dedup_entries(table: DedupTable) -> Map<Seq<char>, usize>;

/// `hashbrown::HashMap::new`: creates an empty map.
#[verifier::external_body]
fn dedup_new() -> (r: DedupTable)
    ensures
        dedup_entries(r) =~= Map::empty(),
{
    DedupTable { table: hashbrown::HashMap::new() }
}

/// `hashbrown::HashMap::with_capacity`: creates an empty map with room for
/// `capacity` entries.
#[verifier::external_body]
fn dedup_with_capacity(capacity: usize) -> (r: DedupTable)
    ensures
        dedup_entries(r) =~= Map::empty(),
{
    DedupTable { table: hashbrown::HashMap::with_capacity(capacity) }
}

/// `hashbrown::HashMap::get`: the value stored under the key that equals
/// `key` (String keys compare and hash by their text), if any.
#[verifier::external_body]
fn dedup_get(table: &DedupTable, key: &str) -> (r: Option<usize>)
    ensures
        dedup_entries(*table).dom().contains(key@) ==> r == Some(dedup_entries(*table)[key@]),
        !dedup_entries(*table).dom().contains(key@) ==> r is None,
{
    table.table.get(key).copied()
}

/// `hashbrown::HashMap::insert`: stores `value` under `key`, replacing the
/// value stored under an equal key, and returns the replaced value.
#[verifier::external_body]
fn dedup_insert(table: &mut DedupTable, key: String, value: usize) -> (r: Option<usize>)
    ensures
        dedup_entries(*final(table)) == dedup_entries(*old(table)).insert(key@, value),
        dedup_entries(*old(table)).dom().contains(key@) ==> r == Some(
            dedup_entries(*old(table))[key@],
        ),
        !dedup_entries(*old(table)).dom().contains(key@) ==> r is None,
{
    table.table.insert(key, value)
}

/// `hashbrown::HashMap::len`: the number of entries.
#[verifier::external_body]
fn dedup_len(table: &DedupTable) -> (r: usize)
    ensures
        r == dedup_entries(*table).dom().len(),
{
    table.table.len()
}

/* Interner */

/// The position of `s` in `strings`, where it occurs.
pub open spec fn position_of(strings: Seq<Seq<char>>, s: Seq<char>) -> int {
    choose|i: int| 0 <= i < strings.len() && strings[i] == s
}

/// The interned strings after interning `s`: unchanged if `s` is among
/// them, else `s` is added after all others.
pub open spec fn interned_view(strings: Seq<Seq<char>>, s: Seq<char>) -> Seq<Seq<char>> {
    if strings.contains(s) {
        strings
    } else {
        strings.push(s)
    }
}

/// The storage position that interning `s` gives: where it already is, or
/// the next free one.
pub open spec fn interned_index(strings: Seq<Seq<char>>, s: Seq<char>) -> int {
    if strings.contains(s) {
        position_of(strings, s)
    } else {
        strings.len() as int
    }
}

/// Interning a string and resolving its position gives the string back.
pub proof fn lemma_intern_then_resolve(strings: Seq<Seq<char>>, s: Seq<char>)
    ensures
        0 <= interned_index(strings, s) < interned_view(strings, s).len(),
        interned_view(strings, s)[interned_index(strings, s)] == s,
{
}

/// Interning the same string twice changes nothing the second time and
/// gives the same position.
pub proof fn lemma_intern_idempotent(strings: Seq<Seq<char>>, s: Seq<char>)
    requires
        strings.no_duplicates(),
    ensures
        interned_view(interned_view(strings, s), s) == interned_view(strings, s),
        interned_index(interned_view(strings, s), s) == interned_index(strings, s),
{
    let v1 = interned_view(strings, s);
    assert(v1[interned_index(strings, s)] == s);
    assert(v1.contains(s));
    let p = position_of(v1, s);
    assert(v1[p] == s);
    assert(v1.no_duplicates()) by {
        if !strings.contains(s) {
            assert forall|a: int, b: int| 0 <= a < v1.len() && 0 <= b < v1.len() && a != b
                implies v1[a] != v1[b] by {
                if a < strings.len() && b < strings.len() {
                } else if a < strings.len() {
                    assert(strings[a] != s);
                } else if b < strings.len() {
                    assert(strings[b] != s);
                }
            }
        }
    }
}

/// Two strings interned one after the other get the same position exactly
/// when they are equal.
pub proof fn lemma_intern_injective(strings: Seq<Seq<char>>, s: Seq<char>, t: Seq<char>)
    requires
        strings.no_duplicates(),
    ensures
        (interned_index(interned_view(strings, s), t) == interned_index(strings, s)) <==> (s
            == t),
{
    lemma_intern_idempotent(strings, s);
    lemma_intern_then_resolve(strings, s);
    lemma_intern_then_resolve(interned_view(strings, s), t);
}

/// Interning keeps every string already interned at its position.
pub proof fn lemma_intern_keeps_earlier(strings: Seq<Seq<char>>, s: Seq<char>)
    ensures
        strings.len() <= interned_view(strings, s).len() <= strings.len() + 1,
        forall|i: int|
            0 <= i < strings.len() ==> #[trigger] interned_view(strings, s)[i] == strings[i],
{
}

/// # String Interner
///
/// Data structure that allows to resolve/intern strings. Interning stores
/// a single copy of each distinct string and gives it a symbol; the symbol
/// resolves back to the string.
pub struct Interner<S: SymbolId> {
    dedup: DedupTable,
    backend: InternerStorage,
    marker: core::marker::PhantomData<S>,
}

impl<S: SymbolId> Interner<S> {
    /// The interned strings, in the order they were interned: the string
    /// at position `i` has the symbol `S::symbol_at(i)`.
    pub closed spec fn view(&self) -> Seq<Seq<char>> {
        self.backend.strings@
    }

    /// The storage is consistent, every string is interned once, and the
    /// table maps each string to its position.
    pub closed spec fn wf(&self) -> bool {
        &&& self.backend.wf()
        &&& self.view().no_duplicates()
        &&& dedup_entries(self.dedup).dom() == self.view().to_set()
        &&& forall|i: int|
            0 <= i < self.view().len() ==> dedup_entries(self.dedup)[#[trigger] self.view()[i]] == i
    }

    /// Creates a new empty [`Interner`].
    pub fn new() -> (r: Self)
        ensures
            r.wf(),
            r.view() == Seq::<Seq<char>>::empty(),
    {
        let r = Interner {
            dedup: dedup_new(),
            backend: InternerStorage::new(),
            marker: core::marker::PhantomData,
        };
        assert(r.view().to_set() =~= Set::empty());
        r
    }

    /// Creates a new empty `Interner` with room for `capacity` strings.
    pub fn with_capacity(capacity: usize) -> (r: Self)
        ensures
            r.wf(),
            r.view() == Seq::<Seq<char>>::empty(),
    {
        let r = Interner {
            dedup: dedup_with_capacity(capacity),
            backend: InternerStorage::with_capacity(capacity),
            marker: core::marker::PhantomData,
        };
        assert(r.view().to_set() =~= Set::empty());
        r
    }

    /// Returns the number of symbols/strings interned by the interner.
    pub fn len(&self) -> (r: usize)
        requires
            self.wf(),
        ensures
            r == self.view().len(),
    {
        proof {
            self.view().unique_seq_to_set();
        }
        dedup_len(&self.dedup)
    }

    /// Interns the given string and returns a corresponding symbol: the
    /// symbol it already has, or a new one after all others.
    pub fn get_or_intern(&mut self, string: &str) -> (r: S)
        requires
            old(self).wf(),
            S::fits(old(self).view().len() as int),
        ensures
            final(self).wf(),
            final(self).view() == interned_view(old(self).view(), string@),
            r == S::symbol_at(interned_index(old(self).view(), string@)),
            old(self).view().contains(string@) ==> {
                &&& final(self).view() == old(self).view()
                &&& r == S::symbol_at(position_of(old(self).view(), string@))
                &&& old(self).view()[position_of(old(self).view(), string@)] == string@
            },
            !old(self).view().contains(string@) ==> {
                &&& final(self).view() == old(self).view().push(string@)
                &&& r == S::symbol_at(old(self).view().len() as int)
            },
    {
        match dedup_get(&self.dedup, string) {
            Some(index) => {
                proof {
                    let v = self.view();
                    let k = choose|k: int| 0 <= k < v.len() && v[k] == string@;
                    assert(v[k] == string@ && index == k);
                    assert(v.contains(string@));
                    let p = position_of(v, string@);
                    assert(v[p] == string@);
                    assert(p == k) by {
                        if p != k {
                            assert(v[p] == v[k]);
                        }
                    }
                    S::lemma_fits_below(k, v.len() as int);
                }
                S::from_storage_index(index)
            },
            None => {
                let ghost old_view = self.view();
                proof {
                    assert(!old_view.contains(string@)) by {
                        if old_view.contains(string@) {
                            let k = choose|k: int| 0 <= k < old_view.len() && old_view[k] == string@;
                            assert(old_view.to_set().contains(string@));
                        }
                    }
                }
                let index = self.backend.push(string);
                let _ = dedup_insert(&mut self.dedup, String::from_str(string), index);
                proof {
                    let v = self.view();
                    old_view.lemma_push_to_set_commute(string@);
                    assert(v.no_duplicates()) by {
                        assert forall|a: int, b: int| 0 <= a < v.len() && 0 <= b < v.len() && a != b
                            implies v[a] != v[b] by {
                            if a < old_view.len() && b < old_view.len() {
                                assert(v[a] == old_view[a] && v[b] == old_view[b]);
                            } else if a < old_view.len() {
                                assert(v[a] == old_view[a]);
                            } else if b < old_view.len() {
                                assert(v[b] == old_view[b]);
                            }
                        }
                    }
                    assert forall|i: int| 0 <= i < v.len() implies dedup_entries(self.dedup)[#[trigger] v[i]]
                        == i by {
                        if i < old_view.len() {
                            assert(v[i] == old_view[i]);
                            assert(old_view[i] != string@);
                        }
                    }
                }
                S::from_storage_index(index)
            },
        }
    }

    /// Returns the string for the given symbol if any.
    pub fn resolve(&self, symbol: S) -> (r: Option<&str>)
        requires
            self.wf(),
            symbol.has_index(),
        ensures
            0 <= symbol.index_of() < self.view().len() ==> (r matches Some(t) && t@
                == self.view()[symbol.index_of()]),
            !(0 <= symbol.index_of() < self.view().len()) ==> r is None,
    {
        let index = symbol.to_storage_index();
        self.backend.resolve(index)
    }
}

} // verus!

verus! {

/* Identifier interner */

/// The builtin identifiers, in the order of their IDs (`int8` has the ID
/// 1, `std` the ID 20).
pub open spec fn builtin_identifier_names() -> Seq<Seq<char>> {
    seq![
        "int8"@, "int16"@, "int32"@, "int64"@, "uint8"@, "uint16"@, "uint32"@, "uint64"@,
        "float32"@, "float64"@, "isize"@, "usize"@, "bool"@, "String"@, "List"@, "char"@,
        "self"@, "Self"@, "sizeof"@, "std"@,
    ]
}

/// # Identifier Interner
///
/// Data structure that allows to resolve/intern identifiers. The only
/// difference between identifier interner and a string interner is that
/// the former contains builtin identifiers (see [`builtin_identifiers`]).
pub struct IdentifierInterner(Interner<IdentifierId>);

impl IdentifierInterner {
    /// The interned identifiers: the one at position `i` has the ID `i + 1`.
    pub closed spec fn view(&self) -> Seq<Seq<char>> {
        self.0.view()
    }

    /// The underlying interner is well formed.
    pub closed spec fn wf(&self) -> bool {
        self.0.wf()
    }

    /// Creates a new [`IdentifierInterner`], that **already contains builtin
    /// identifiers**.
    #[verifier::spinoff_prover]
    #[verifier::rlimit(100)]
    pub fn new() -> (r: Self)
        ensures
            r.wf(),
            r.view() == builtin_identifier_names(),
    {
        let mut interner: Interner<IdentifierId> = Interner::new();
        assert(!interner.view().contains("int8"@)) by {
            reveal_strlit("int8");
            lemma_not_contained_by_signature(interner.view(), "int8"@);
        }
        intern_builtin(&mut interner, "int8");
        assert(!interner.view().contains("int16"@)) by {
            reveal_strlit("int8");
            reveal_strlit("int16");
            lemma_not_contained_by_signature(interner.view(), "int16"@);
        }
        intern_builtin(&mut interner, "int16");
        assert(!interner.view().contains("int32"@)) by {
            reveal_strlit("int8");
            reveal_strlit("int16");
            reveal_strlit("int32");
            lemma_not_contained_by_signature(interner.view(), "int32"@);
        }
        intern_builtin(&mut interner, "int32");
        assert(!interner.view().contains("int64"@)) by {
            reveal_strlit("int8");
            reveal_strlit("int16");
            reveal_strlit("int32");
            reveal_strlit("int64");
            lemma_not_contained_by_signature(interner.view(), "int64"@);
        }
        intern_builtin(&mut interner, "int64");
        assert(!interner.view().contains("uint8"@)) by {
            reveal_strlit("int8");
            reveal_strlit("int16");
            reveal_strlit("int32");
            reveal_strlit("int64");
            reveal_strlit("uint8");
            lemma_not_contained_by_signature(interner.view(), "uint8"@);
        }
        intern_builtin(&mut interner, "uint8");
        assert(!interner.view().contains("uint16"@)) by {
            reveal_strlit("int8");
            reveal_strlit("int16");
            reveal_strlit("int32");
            reveal_strlit("int64");
            reveal_strlit("uint8");
            reveal_strlit("uint16");
            lemma_not_contained_by_signature(interner.view(), "uint16"@);
        }
        intern_builtin(&mut interner, "uint16");
        assert(!interner.view().contains("uint32"@)) by {
            reveal_strlit("int8");
            reveal_strlit("int16");
            reveal_strlit("int32");
            reveal_strlit("int64");
            reveal_strlit("uint8");
            reveal_strlit("uint16");
            reveal_strlit("uint32");
            lemma_not_contained_by_signature(interner.view(), "uint32"@);
        }
        intern_builtin(&mut interner, "uint32");
        assert(!interner.view().contains("uint64"@)) by {
            reveal_strlit("int8");
            reveal_strlit("int16");
            reveal_strlit("int32");
            reveal_strlit("int64");
            reveal_strlit("uint8");
            reveal_strlit("uint16");
            reveal_strlit("uint32");
            reveal_strlit("uint64");
            lemma_not_contained_by_signature(interner.view(), "uint64"@);
        }
        intern_builtin(&mut interner, "uint64");
        assert(!interner.view().contains("float32"@)) by {
            reveal_strlit("int8");
            reveal_strlit("int16");
            reveal_strlit("int32");
            reveal_strlit("int64");
            reveal_strlit("uint8");
            reveal_strlit("uint16");
            reveal_strlit("uint32");
            reveal_strlit("uint64");
            reveal_strlit("float32");
            lemma_not_contained_by_signature(interner.view(), "float32"@);
        }
        intern_builtin(&mut interner, "float32");
        assert(!interner.view().contains("float64"@)) by {
            reveal_strlit("int8");
            reveal_strlit("int16");
            reveal_strlit("int32");
            reveal_strlit("int64");
            reveal_strlit("uint8");
            reveal_strlit("uint16");
            reveal_strlit("uint32");
            reveal_strlit("uint64");
            reveal_strlit("float32");
            reveal_strlit("float64");
            lemma_not_contained_by_signature(interner.view(), "float64"@);
        }
        intern_builtin(&mut interner, "float64");
        assert(!interner.view().contains("isize"@)) by {
            reveal_strlit("int8");
            reveal_strlit("int16");
            reveal_strlit("int32");
            reveal_strlit("int64");
            reveal_strlit("uint8");
            reveal_strlit("uint16");
            reveal_strlit("uint32");
            reveal_strlit("uint64");
            reveal_strlit("float32");
            reveal_strlit("float64");
            reveal_strlit("isize");
            lemma_not_contained_by_signature(interner.view(), "isize"@);
        }
        intern_builtin(&mut interner, "isize");
        assert(!interner.view().contains("usize"@)) by {
            reveal_strlit("int8");
            reveal_strlit("int16");
            reveal_strlit("int32");
            reveal_strlit("int64");
            reveal_strlit("uint8");
            reveal_strlit("uint16");
            reveal_strlit("uint32");
            reveal_strlit("uint64");
            reveal_strlit("float32");
            reveal_strlit("float64");
            reveal_strlit("isize");
            reveal_strlit("usize");
            lemma_not_contained_by_signature(interner.view(), "usize"@);
        }
        intern_builtin(&mut interner, "usize");
        assert(!interner.view().contains("bool"@)) by {
            reveal_strlit("int8");
            reveal_strlit("int16");
            reveal_strlit("int32");
            reveal_strlit("int64");
            reveal_strlit("uint8");
            reveal_strlit("uint16");
            reveal_strlit("uint32");
            reveal_strlit("uint64");
            reveal_strlit("float32");
            reveal_strlit("float64");
            reveal_strlit("isize");
            reveal_strlit("usize");
            reveal_strlit("bool");
            lemma_not_contained_by_signature(interner.view(), "bool"@);
        }
        intern_builtin(&mut interner, "bool");
        assert(!interner.view().contains("String"@)) by {
            reveal_strlit("int8");
            reveal_strlit("int16");
            reveal_strlit("int32");
            reveal_strlit("int64");
            reveal_strlit("uint8");
            reveal_strlit("uint16");
            reveal_strlit("uint32");
            reveal_strlit("uint64");
            reveal_strlit("float32");
            reveal_strlit("float64");
            reveal_strlit("isize");
            reveal_strlit("usize");
            reveal_strlit("bool");
            reveal_strlit("String");
            lemma_not_contained_by_signature(interner.view(), "String"@);
        }
        intern_builtin(&mut interner, "String");
        assert(!interner.view().contains("List"@)) by {
            reveal_strlit("int8");
            reveal_strlit("int16");
            reveal_strlit("int32");
            reveal_strlit("int64");
            reveal_strlit("uint8");
            reveal_strlit("uint16");
            reveal_strlit("uint32");
            reveal_strlit("uint64");
            reveal_strlit("float32");
            reveal_strlit("float64");
            reveal_strlit("isize");
            reveal_strlit("usize");
            reveal_strlit("bool");
            reveal_strlit("String");
            reveal_strlit("List");
            lemma_not_contained_by_signature(interner.view(), "List"@);
        }
        intern_builtin(&mut interner, "List");
        assert(!interner.view().contains("char"@)) by {
            reveal_strlit("int8");
            reveal_strlit("int16");
            reveal_strlit("int32");
            reveal_strlit("int64");
            reveal_strlit("uint8");
            reveal_strlit("uint16");
            reveal_strlit("uint32");
            reveal_strlit("uint64");
            reveal_strlit("float32");
            reveal_strlit("float64");
            reveal_strlit("isize");
            reveal_strlit("usize");
            reveal_strlit("bool");
            reveal_strlit("String");
            reveal_strlit("List");
            reveal_strlit("char");
            lemma_not_contained_by_signature(interner.view(), "char"@);
        }
        intern_builtin(&mut interner, "char");
        assert(!interner.view().contains("self"@)) by {
            reveal_strlit("int8");
            reveal_strlit("int16");
            reveal_strlit("int32");
            reveal_strlit("int64");
            reveal_strlit("uint8");
            reveal_strlit("uint16");
            reveal_strlit("uint32");
            reveal_strlit("uint64");
            reveal_strlit("float32");
            reveal_strlit("float64");
            reveal_strlit("isize");
            reveal_strlit("usize");
            reveal_strlit("bool");
            reveal_strlit("String");
            reveal_strlit("List");
            reveal_strlit("char");
            reveal_strlit("self");
            lemma_not_contained_by_signature(interner.view(), "self"@);
        }
        intern_builtin(&mut interner, "self");
        assert(!interner.view().contains("Self"@)) by {
            reveal_strlit("int8");
            reveal_strlit("int16");
            reveal_strlit("int32");
            reveal_strlit("int64");
            reveal_strlit("uint8");
            reveal_strlit("uint16");
            reveal_strlit("uint32");
            reveal_strlit("uint64");
            reveal_strlit("float32");
            reveal_strlit("float64");
            reveal_strlit("isize");
            reveal_strlit("usize");
            reveal_strlit("bool");
            reveal_strlit("String");
            reveal_strlit("List");
            reveal_strlit("char");
            reveal_strlit("self");
            reveal_strlit("Self");
            lemma_not_contained_by_signature(interner.view(), "Self"@);
        }
        intern_builtin(&mut interner, "Self");
        assert(!interner.view().contains("sizeof"@)) by {
            reveal_strlit("int8");
            reveal_strlit("int16");
            reveal_strlit("int32");
            reveal_strlit("int64");
            reveal_strlit("uint8");
            reveal_strlit("uint16");
            reveal_strlit("uint32");
            reveal_strlit("uint64");
            reveal_strlit("float32");
            reveal_strlit("float64");
            reveal_strlit("isize");
            reveal_strlit("usize");
            reveal_strlit("bool");
            reveal_strlit("String");
            reveal_strlit("List");
            reveal_strlit("char");
            reveal_strlit("self");
            reveal_strlit("Self");
            reveal_strlit("sizeof");
            lemma_not_contained_by_signature(interner.view(), "sizeof"@);
        }
        intern_builtin(&mut interner, "sizeof");
        assert(!interner.view().contains("std"@)) by {
            reveal_strlit("int8");
            reveal_strlit("int16");
            reveal_strlit("int32");
            reveal_strlit("int64");
            reveal_strlit("uint8");
            reveal_strlit("uint16");
            reveal_strlit("uint32");
            reveal_strlit("uint64");
            reveal_strlit("float32");
            reveal_strlit("float64");
            reveal_strlit("isize");
            reveal_strlit("usize");
            reveal_strlit("bool");
            reveal_strlit("String");
            reveal_strlit("List");
            reveal_strlit("char");
            reveal_strlit("self");
            reveal_strlit("Self");
            reveal_strlit("sizeof");
            reveal_strlit("std");
            lemma_not_contained_by_signature(interner.view(), "std"@);
        }
        intern_builtin(&mut interner, "std");
        assert(interner.view() =~= builtin_identifier_names());
        IdentifierInterner(interner)
    }
}

impl IdentifierInterner {
    /// Returns the number of identifiers interned by the interner.
    pub fn len(&self) -> (r: usize)
        requires
            self.wf(),
        ensures
            r == self.view().len(),
    {
        self.0.len()
    }

    /// Interns the given identifier (if it doesn't exist) and returns a
    /// corresponding symbol.
    pub fn get_or_intern(&mut self, identifier: &str) -> (r: IdentifierId)
        requires
            old(self).wf(),
            old(self).view().len() < usize::MAX - 1,
        ensures
            final(self).wf(),
            final(self).view() == interned_view(old(self).view(), identifier@),
            r == IdentifierId::symbol_at(interned_index(old(self).view(), identifier@)),
    {
        self.0.get_or_intern(identifier)
    }

    /// Returns the string for the given symbol if any: none for
    /// `DUMMY_IDENTIFIER_ID` and for IDs that were not given out.
    pub fn resolve_or_none(&self, id: IdentifierId) -> (r: Option<&str>)
        requires
            self.wf(),
        ensures
            (1 <= id.0 <= self.view().len()) ==> (r matches Some(t) && t@ == self.view()[id.0 - 1]),
            !(1 <= id.0 <= self.view().len()) ==> r is None,
    {
        if id.0 == DUMMY_IDENTIFIER_ID {
            None
        } else {
            self.0.resolve(id)
        }
    }

    /// Returns the string for the given identifier; the identifier must
    /// have been interned.
    pub fn resolve(&self, id: IdentifierId) -> (r: &str)
        requires
            self.wf(),
            1 <= id.0 <= self.view().len(),
        ensures
            r@ == self.view()[id.0 - 1],
    {
        self.resolve_or_none(id).unwrap()
    }
}

/// Storage for file paths (to avoid copying and for fast comparing,
/// basically the same motivation as with [`IdentifierInterner`]). Paths are
/// kept as UTF-8 text.
///
/// The IDs that correspond to file paths have a type of [`PathId`].
pub struct PathInterner(Interner<PathId>);

impl PathInterner {
    /// The interned paths: the one at position `i` has the ID `i + 1`.
    pub closed spec fn view(&self) -> Seq<Seq<char>> {
        self.0.view()
    }

    /// The underlying interner is well formed.
    pub closed spec fn wf(&self) -> bool {
        self.0.wf()
    }

    /// Creates a new empty file path storage.
    pub fn new() -> (r: Self)
        ensures
            r.wf(),
            r.view() == Seq::<Seq<char>>::empty(),
    {
        PathInterner(Interner::new())
    }

    /// Adds a path to the interner and returns its ID.
    pub fn get_or_intern(&mut self, path: &str) -> (r: PathId)
        requires
            old(self).wf(),
            old(self).view().len() < usize::MAX - 1,
        ensures
            final(self).wf(),
            final(self).view() == interned_view(old(self).view(), path@),
            r == PathId::symbol_at(interned_index(old(self).view(), path@)),
    {
        self.0.get_or_intern(path)
    }

    /// Resolves a path stored in the storage: none for `DUMMY_PATH_ID` and
    /// for IDs that were not given out.
    pub fn resolve_or_none(&self, id: PathId) -> (r: Option<&str>)
        requires
            self.wf(),
        ensures
            (1 <= id.0 <= self.view().len()) ==> (r matches Some(t) && t@ == self.view()[id.0 - 1]),
            !(1 <= id.0 <= self.view().len()) ==> r is None,
    {
        if id.0 == DUMMY_PATH_ID {
            None
        } else {
            self.0.resolve(id)
        }
    }

    /// Resolves a path stored in the storage; the path must have been
    /// interned.
    pub fn resolve(&self, id: PathId) -> (r: &str)
        requires
            self.wf(),
            1 <= id.0 <= self.view().len(),
        ensures
            r@ == self.view()[id.0 - 1],
    {
        self.resolve_or_none(id).unwrap()
    }
}

/// Interning then resolving gives the identifier back: for every interner
/// state and identifier, the ID that interning gives resolves to it.
pub proof fn lemma_identifier_round_trip(names: Seq<Seq<char>>, s: Seq<char>)
    requires
        names.len() < usize::MAX - 1,
    ensures
        ({
            let id = IdentifierId::symbol_at(interned_index(names, s));
            &&& 1 <= id.0 <= interned_view(names, s).len()
            &&& interned_view(names, s)[id.0 - 1] == s
        }),
{
    lemma_intern_then_resolve(names, s);
}

/// A summary of a short name: its length, first and last characters.
spec fn signature(x: Seq<char>) -> (int, char, char) {
    (x.len() as int, x[0], x[x.len() - 1])
}

/// A sequence does not contain a name whose signature differs from those of
/// all its elements.
proof fn lemma_not_contained_by_signature(s: Seq<Seq<char>>, x: Seq<char>)
    requires
        forall|i: int| 0 <= i < s.len() ==> signature(#[trigger] s[i]) != signature(x),
    ensures
        !s.contains(x),
{
}

/// Interns an identifier that is not interned yet, after all others.
fn intern_builtin(interner: &mut Interner<IdentifierId>, name: &str)
    requires
        old(interner).wf(),
        !old(interner).view().contains(name@),
        old(interner).view().len() < 20,
    ensures
        final(interner).wf(),
        final(interner).view() == old(interner).view().push(name@),
{
    interner.get_or_intern(name);
}

} // verus!

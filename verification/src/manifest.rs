//! The package manifest (`package.toml`), which contains information about
//! the package and its dependencies.

use vstd::prelude::*;

use crate::token::str_eq;

verus! {

/// Represents dependency (value part of the key-value pair in the
/// `[dependencies]` section of the manifest).
#[derive(Debug, Clone, PartialEq, Eq, Default)]
pub struct TomlDependency {
    /// The version of the dependency.
    pub version: Option<String>,
    /// The path to the local dependency's folder.
    pub path: Option<String>,
    /// The author of the dependency.
    pub author: Option<String>,
}

impl TomlDependency {
    /// Returns a new empty toml dependency struct.
    pub fn new() -> (r: Self)
        ensures
            r.version is None,
            r.path is None,
            r.author is None,
    {
        TomlDependency { version: None, path: None, author: None }
    }

    /// Builds a new toml dependency struct with a given version.
    pub fn with_version(self, version: String) -> (r: Self)
        ensures
            r.version == Some(version),
            r.path == self.path,
            r.author == self.author,
    {
        TomlDependency { version: Some(version), ..self }
    }

    /// Builds a new toml dependency struct with a given path.
    pub fn with_path(self, path: String) -> (r: Self)
        ensures
            r.version == self.version,
            r.path == Some(path),
            r.author == self.author,
    {
        TomlDependency { path: Some(path), ..self }
    }

    /// Builds a new toml dependency struct with a given author.
    pub fn with_author(self, author: String) -> (r: Self)
        ensures
            r.version == self.version,
            r.path == self.path,
            r.author == Some(author),
    {
        TomlDependency { author: Some(author), ..self }
    }
}

/// Represents data in the `[package]` section of the manifest.
#[derive(Debug, Clone, PartialEq, Eq)]
pub struct TomlPackage {
    /// The name of the package.
    pub name: String,
    /// The latest version of the package.
    pub version: String,
    /// The description of the package.
    pub description: Option<String>,
    /// The license of the package.
    pub license: Option<String>,
    /// Author of the package.
    pub author: Option<String>,
    /// Link to the repository of the package.
    pub repository: Option<String>,
    /// Keywords associated with the package.
    pub keywords: Option<Vec<String>>,
    /// Categories associated with the package.
    pub categories: Option<Vec<String>>,
}

impl TomlPackage {
    /// Returns a new toml package struct with a given name and version;
    /// other fields are set with the `with_*` methods.
    pub fn new(name: String, version: String) -> (r: Self)
        ensures
            r.name == name,
            r.version == version,
            r.description is None,
            r.license is None,
            r.author is None,
            r.repository is None,
            r.keywords is None,
            r.categories is None,
    {
        TomlPackage {
            name,
            version,
            description: None,
            license: None,
            author: None,
            repository: None,
            keywords: None,
            categories: None,
        }
    }

    /// Builds a new toml package struct with a given description.
    pub fn with_description(self, description: String) -> (r: Self)
        ensures
            r == (TomlPackage { description: Some(description), ..self }),
    {
        TomlPackage { description: Some(description), ..self }
    }

    /// Builds a new toml package struct with a given license.
    pub fn with_license(self, license: String) -> (r: Self)
        ensures
            r == (TomlPackage { license: Some(license), ..self }),
    {
        TomlPackage { license: Some(license), ..self }
    }

    /// Builds a new toml package struct with a given author.
    pub fn with_author(self, author: String) -> (r: Self)
        ensures
            r == (TomlPackage { author: Some(author), ..self }),
    {
        TomlPackage { author: Some(author), ..self }
    }

    /// Builds a new toml package struct with a given repository.
    pub fn with_repository(self, repository: String) -> (r: Self)
        ensures
            r == (TomlPackage { repository: Some(repository), ..self }),
    {
        TomlPackage { repository: Some(repository), ..self }
    }

    /// Builds a new toml package struct with given keywords.
    pub fn with_keywords(self, keywords: Vec<String>) -> (r: Self)
        ensures
            r == (TomlPackage { keywords: Some(keywords), ..self }),
    {
        TomlPackage { keywords: Some(keywords), ..self }
    }

    /// Builds a new toml package struct with given categories.
    pub fn with_categories(self, categories: Vec<String>) -> (r: Self)
        ensures
            r == (TomlPackage { categories: Some(categories), ..self }),
    {
        TomlPackage { categories: Some(categories), ..self }
    }
}

/* Dependencies, ordered by name */

/// `a` comes strictly before `b` in lexicographic order of characters.
pub open spec fn lex_lt(a: Seq<char>, b: Seq<char>) -> bool
    decreases a.len(),
{
    if a.len() == 0 {
        b.len() > 0
    } else if b.len() == 0 {
        false
    } else if a[0] != b[0] {
        a[0] < b[0]
    } else {
        lex_lt(a.drop_first(), b.drop_first())
    }
}

/// Returns `true` if `a` comes strictly before `b` in lexicographic order
/// of characters (the order of `String`).
pub fn str_lt(a: &str, b: &str) -> (r: bool)
    ensures
        r == lex_lt(a@, b@),
{
    let n = a.unicode_len();
    let m = b.unicode_len();
    let mut i: usize = 0;
    assert(a@.skip(0) =~= a@);
    assert(b@.skip(0) =~= b@);
    while i < n && i < m
        invariant
            n == a@.len(),
            m == b@.len(),
            i <= n,
            i <= m,
            lex_lt(a@, b@) == lex_lt(a@.skip(i as int), b@.skip(i as int)),
        decreases n - i,
    {
        let x = a.get_char(i);
        let y = b.get_char(i);
        proof {
            assert(a@.skip(i as int)[0] == x);
            assert(b@.skip(i as int)[0] == y);
            assert(a@.skip(i as int).drop_first() =~= a@.skip(i + 1));
            assert(b@.skip(i as int).drop_first() =~= b@.skip(i + 1));
        }
        if x != y {
            return x < y;
        }
        i = i + 1;
    }
    proof {
        assert(a@.skip(i as int).len() == n - i);
        assert(b@.skip(i as int).len() == m - i);
    }
    i == n && i < m
}

/// The dependencies named by `entries`, each by the last entry with its
/// name.
pub open spec fn dependency_map(entries: Seq<(String, TomlDependency)>) -> Map<Seq<char>, TomlDependency>
    decreases entries.len(),
{
    if entries.len() == 0 {
        Map::empty()
    } else {
        dependency_map(entries.drop_last()).insert(entries.last().0@, entries.last().1)
    }
}

/// The names in `entries` are in strictly increasing order, so that no name
/// occurs twice.
pub open spec fn ordered_by_name(entries: Seq<(String, TomlDependency)>) -> bool {
    &&& forall|i: int| 0 <= i < entries.len() - 1 ==> lex_lt(
        #[trigger] entries[i].0@,
        entries[i + 1].0@,
    )
    &&& forall|i: int, j: int|
        0 <= i < entries.len() && 0 <= j < entries.len() && i != j ==> entries[i].0@
            != entries[j].0@
}

/// The dependencies that a list of entries with distinct names holds.
pub open spec fn entries_map(entries: Seq<(String, TomlDependency)>) -> Map<Seq<char>, TomlDependency> {
    Map::new(
        |k: Seq<char>| exists|i: int| 0 <= i < entries.len() && #[trigger] entries[i].0@ == k,
        |k: Seq<char>|
            entries[choose|i: int| 0 <= i < entries.len() && #[trigger] entries[i].0@ == k].1,
    )
}

/// A character is not less than itself, so no string is less than itself.
proof fn lemma_lex_lt_irreflexive(a: Seq<char>)
    ensures
        !lex_lt(a, a),
    decreases a.len(),
{
    if a.len() > 0 {
        lemma_lex_lt_irreflexive(a.drop_first());
    }
}

/// Two different strings are ordered one way or the other.
proof fn lemma_lex_lt_total(a: Seq<char>, b: Seq<char>)
    requires
        a != b,
    ensures
        lex_lt(a, b) || lex_lt(b, a),
    decreases a.len(),
{
    if a.len() > 0 && b.len() > 0 && a[0] == b[0] {
        if a.drop_first() == b.drop_first() {
            assert(a =~= seq![a[0]] + a.drop_first());
            assert(b =~= seq![b[0]] + b.drop_first());
        }
        lemma_lex_lt_total(a.drop_first(), b.drop_first());
    } else if a.len() == 0 && b.len() == 0 {
        assert(a =~= b);
    }
}

/// In an ordered list, each entry is what the map holds under its name.
proof fn lemma_entries_map_at(entries: Seq<(String, TomlDependency)>, i: int)
    requires
        ordered_by_name(entries),
        0 <= i < entries.len(),
    ensures
        entries_map(entries).contains_key(entries[i].0@),
        entries_map(entries)[entries[i].0@] == entries[i].1,
{
    let k = entries[i].0@;
    assert(entries[i].0@ == k);
    let j = choose|j: int| 0 <= j < entries.len() && #[trigger] entries[j].0@ == k;
    assert(j == i);
}

/// Stores the dependency `dependency` under `name` in the ordered list
/// `entries`: it replaces the entry with that name, or goes where the order
/// puts it.
fn insert_dependency(entries: &mut Vec<(String, TomlDependency)>, name: String, dependency: TomlDependency)
    requires
        ordered_by_name(old(entries)@),
    ensures
        ordered_by_name(final(entries)@),
        entries_map(final(entries)@) == entries_map(old(entries)@).insert(name@, dependency),
{
    let ghost before = entries@;
    let mut i: usize = 0;
    while i < entries.len()
        invariant
            entries@ == before,
            before == old(entries)@,
            ordered_by_name(before),
            i <= before.len(),
            forall|j: int| 0 <= j < i ==> before[j].0@ != name@,
        decreases before.len() - i,
    {
        if str_eq(entries[i].0.as_str(), name.as_str()) {
            let ghost k = name@;
            entries.set(i, (name, dependency));
            proof {
                let after = entries@;
                assert(forall|j: int| 0 <= j < after.len() && j != i ==> #[trigger] after[j] == before[j]);
                assert(ordered_by_name(after)) by {
                    assert forall|j: int| 0 <= j < after.len() - 1 implies lex_lt(
                        #[trigger] after[j].0@,
                        after[j + 1].0@,
                    ) by {
                        assert(lex_lt(before[j].0@, before[j + 1].0@));
                    }
                    assert forall|a: int, b: int|
                        0 <= a < after.len() && 0 <= b < after.len() && a != b implies after[a].0@
                        != after[b].0@ by {
                        assert(before[a].0@ != before[b].0@);
                    }
                }
                assert(entries_map(after) =~= entries_map(before).insert(k, dependency)) by {
                    lemma_entries_map_at(after, i as int);
                    assert forall|key: Seq<char>| #[trigger] entries_map(after).contains_key(key)
                        implies entries_map(before).insert(k, dependency).contains_key(key) by {
                        let j = choose|j: int| 0 <= j < after.len() && #[trigger] after[j].0@ == key;
                        if j != i {
                            lemma_entries_map_at(before, j);
                        }
                    }
                    assert forall|key: Seq<char>| #[trigger] entries_map(before).insert(k, dependency).contains_key(key)
                        implies entries_map(after).contains_key(key) && entries_map(after)[key]
                        == entries_map(before).insert(k, dependency)[key] by {
                        if key != k {
                            let j = choose|j: int| 0 <= j < before.len() && #[trigger] before[j].0@ == key;
                            lemma_entries_map_at(before, j);
                            assert(j != i);
                            assert(after[j] == before[j]);
                            lemma_entries_map_at(after, j);
                        }
                    }
                }
            }
            return;
        }
        i = i + 1;
    }
    let mut position: usize = 0;
    while position < entries.len() && str_lt(entries[position].0.as_str(), name.as_str())
        invariant
            entries@ == before,
            position <= before.len(),
            forall|j: int| 0 <= j < position ==> lex_lt(#[trigger] before[j].0@, name@),
        decreases before.len() - position,
    {
        position = position + 1;
    }
    let ghost k = name@;
    entries.insert(position, (name, dependency));
    proof {
        let after = entries@;
        assert(after.len() == before.len() + 1);
        assert forall|j: int| 0 <= j < position implies #[trigger] after[j] == before[j] by {}
        assert forall|j: int| position < j < after.len() implies #[trigger] after[j] == before[j - 1] by {}
        assert(after[position as int].0@ == k);
        if position < before.len() {
            assert(!lex_lt(before[position as int].0@, k));
            assert(before[position as int].0@ != k);
            lemma_lex_lt_total(before[position as int].0@, k);
        }
        assert(ordered_by_name(after)) by {
            assert forall|j: int| 0 <= j < after.len() - 1 implies lex_lt(
                #[trigger] after[j].0@,
                after[j + 1].0@,
            ) by {
                if j + 1 < position {
                    assert(lex_lt(before[j].0@, before[j + 1].0@));
                } else if j + 1 == position {
                    assert(after[j] == before[j]);
                } else if j == position {
                    assert(after[j + 1] == before[j]);
                } else {
                    assert(after[j] == before[j - 1]);
                    assert(after[j + 1] == before[j]);
                    assert(lex_lt(before[j - 1].0@, before[j].0@));
                }
            }
            assert forall|a: int, b: int|
                0 <= a < after.len() && 0 <= b < after.len() && a != b implies after[a].0@
                != after[b].0@ by {
                if a == position {
                    if b < position {
                        assert(before[b].0@ != k);
                    } else {
                        assert(before[b - 1].0@ != k);
                    }
                } else if b == position {
                    if a < position {
                        assert(before[a].0@ != k);
                    } else {
                        assert(before[a - 1].0@ != k);
                    }
                } else {
                    let ia = if a < position { a } else { a - 1 };
                    let ib = if b < position { b } else { b - 1 };
                    assert(after[a] == before[ia]);
                    assert(after[b] == before[ib]);
                    assert(before[ia].0@ != before[ib].0@);
                }
            }
        }
        assert(entries_map(after) =~= entries_map(before).insert(k, dependency)) by {
            lemma_entries_map_at(after, position as int);
            assert forall|key: Seq<char>| #[trigger] entries_map(after).contains_key(key)
                implies entries_map(before).insert(k, dependency).contains_key(key) by {
                let j = choose|j: int| 0 <= j < after.len() && #[trigger] after[j].0@ == key;
                if j < position {
                    lemma_entries_map_at(before, j);
                } else if j > position {
                    lemma_entries_map_at(before, j - 1);
                }
            }
            assert forall|key: Seq<char>| #[trigger] entries_map(before).insert(k, dependency).contains_key(key)
                implies entries_map(after).contains_key(key) && entries_map(after)[key]
                == entries_map(before).insert(k, dependency)[key] by {
                if key != k {
                    let j = choose|j: int| 0 <= j < before.len() && #[trigger] before[j].0@ == key;
                    lemma_entries_map_at(before, j);
                    if j < position {
                        lemma_entries_map_at(after, j);
                    } else {
                        lemma_entries_map_at(after, j + 1);
                    }
                }
            }
        }
    }
}

/// Describes the package manifest, which contains information about the
/// package.
#[derive(Debug, Clone, PartialEq, Eq)]
pub struct TomlManifest {
    /// The `[package]` section of the manifest.
    pub package: TomlPackage,
    /// The `[dependencies]` section of the manifest, ordered by name.
    pub dependencies: Option<Vec<(String, TomlDependency)>>,
}

impl TomlManifest {
    /// Returns a new toml manifest struct with a given package.
    pub fn new(package: TomlPackage) -> (r: Self)
        ensures
            r.package == package,
            r.dependencies is None,
    {
        TomlManifest { package, dependencies: None }
    }

    /// Returns a new toml manifest struct with given dependencies: each name
    /// once, in order, with the last dependency given for it.
    pub fn with_dependencies(self, dependencies: Vec<(String, TomlDependency)>) -> (r: Self)
        ensures
            r.package == self.package,
            r.dependencies matches Some(entries) && ordered_by_name(entries@) && entries_map(
                entries@,
            ) == dependency_map(dependencies@),
    {
        let ghost given = dependencies@;
        let mut entries: Vec<(String, TomlDependency)> = Vec::new();
        proof {
            assert(entries_map(entries@) =~= Map::empty());
            assert(given.take(0) =~= Seq::empty());
        }
        for entry in it: dependencies
            invariant
                it.seq() == given,
                ordered_by_name(entries@),
                entries_map(entries@) == dependency_map(given.take(it.index() as int)),
        {
            let ghost k = it.index() as int;
            let (name, dependency) = entry;
            insert_dependency(&mut entries, name, dependency);
            proof {
                assert(entry == given[k]);
                assert(given.take(k + 1).drop_last() =~= given.take(k));
                assert(given.take(k + 1).last() == given[k]);
            }
        }
        proof {
            assert(given.take(given.len() as int) =~= given);
        }
        TomlManifest { package: self.package, dependencies: Some(entries) }
    }
}

} // verus!

verus! {

/// A cycle in the dependencies of packages: the packages along the cycle.
#[derive(Debug, Clone, PartialEq, Eq)]
pub struct DependencyCycleError {
    pub traceback: Vec<TomlPackage>,
}

} // verus!

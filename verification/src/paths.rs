//! Paths of a workspace, a project and a package, written as UTF-8 text
//! with `/` as separator.

use vstd::prelude::*;

use crate::text::push_str;

verus! {

/// `path` with `part` appended, as `Path::join` does for relative and
/// absolute parts on Unix: an absolute part replaces the path, an empty
/// path gives the part, and otherwise a `/` separates the two unless the
/// path already ends with one.
pub open spec fn joined(path: Seq<char>, part: Seq<char>) -> Seq<char> {
    if part.len() > 0 && part[0] == '/' {
        part
    } else if path.len() == 0 {
        part
    } else if path[path.len() - 1] == '/' {
        path + part
    } else {
        path + seq!['/'] + part
    }
}

/// Appends `part` to `path` (see [`joined`]).
pub fn join(path: &str, part: &str) -> (r: String)
    ensures
        r@ == joined(path@, part@),
{
    let n = path.unicode_len();
    if part.unicode_len() > 0 && part.get_char(0) == '/' {
        let mut r = String::new();
        push_str(&mut r, part);
        assert(r@ =~= part@);
        return r;
    }
    let mut r = String::new();
    push_str(&mut r, path);
    if n > 0 && path.get_char(n - 1) != '/' {
        let mut separator = String::new();
        crate::text::push_char(&mut separator, '/');
        push_str(&mut r, separator.as_str());
    }
    push_str(&mut r, part);
    assert(r@ =~= joined(path@, part@));
    r
}

/// Reads the configuration of a package.
#[derive(Debug, Clone)]
pub struct PackageConfigReader {
    package_path: String,
}

impl PackageConfigReader {
    /// The path of the package.
    pub closed spec fn view(&self) -> Seq<char> {
        self.package_path@
    }

    /// Creates a reader for the package at `package_path`.
    pub fn new(package_path: String) -> (r: Self)
        ensures
            r.view() == package_path@,
    {
        PackageConfigReader { package_path }
    }

    /// Returns the path of the package.
    pub fn package_path(&self) -> (r: &String)
        ensures
            r@ == self.view(),
    {
        &self.package_path
    }
}

/// Resolves basic paths for a given project root path.
#[derive(Debug, Clone)]
pub struct ProjectPathResolver<'workspace> {
    root: &'workspace str,
}

impl<'workspace> ProjectPathResolver<'workspace> {
    /// The root of the project.
    pub closed spec fn view(&self) -> Seq<char> {
        self.root@
    }

    /// Creates a resolver for the project at `root`.
    pub fn new(root: &'workspace str) -> (r: Self)
        ensures
            r.view() == root@,
    {
        ProjectPathResolver { root }
    }

    /// Returns the root of the project.
    pub fn root(&self) -> (r: &'workspace str)
        ensures
            r@ == self.view(),
    {
        self.root
    }

    /// Returns the path of the project configuration: `project.toml`.
    pub fn config(&self) -> (r: String)
        ensures
            r@ == joined(self.view(), "project.toml"@),
    {
        join(self.root, "project.toml")
    }

    /// Returns the path of the readme: `README.md`.
    pub fn readme(&self) -> (r: String)
        ensures
            r@ == joined(self.view(), "README.md"@),
    {
        join(self.root, "README.md")
    }

    /// Returns the path of the source directory: `src`.
    pub fn src_directory(&self) -> (r: String)
        ensures
            r@ == joined(self.view(), "src"@),
    {
        join(self.root, "src")
    }

    /// Returns the path of the build directory: `build`.
    pub fn build_directory(&self) -> (r: String)
        ensures
            r@ == joined(self.view(), "build"@),
    {
        join(self.root, "build")
    }

    /// Returns the build directory of the project named `project_name`.
    pub fn project_build_directory(&self, project_name: &str) -> (r: String)
        ensures
            r@ == joined(joined(self.view(), "build"@), project_name@),
    {
        let build = self.build_directory();
        join(build.as_str(), project_name)
    }
}

/// Resolves basic paths for a given package root path.
#[derive(Debug, Clone)]
pub struct PackagePathResolver<'p> {
    root: &'p str,
}

impl<'p> PackagePathResolver<'p> {
    /// The root of the package.
    pub closed spec fn view(&self) -> Seq<char> {
        self.root@
    }

    /// Creates a resolver for the package at `root`.
    pub fn new(root: &'p str) -> (r: Self)
        ensures
            r.view() == root@,
    {
        PackagePathResolver { root }
    }

    /// Returns the root of the package.
    pub fn root(&self) -> (r: &'p str)
        ensures
            r@ == self.view(),
    {
        self.root
    }

    /// Returns the path of the readme: `README.md`.
    pub fn readme(&self) -> (r: String)
        ensures
            r@ == joined(self.view(), "README.md"@),
    {
        join(self.root, "README.md")
    }

    /// Returns the path of the package manifest: `package.toml`.
    pub fn manifest(&self) -> (r: String)
        ensures
            r@ == joined(self.view(), "package.toml"@),
    {
        join(self.root, "package.toml")
    }

    /// Returns the path of the source directory: `src`.
    pub fn source_directory(&self) -> (r: String)
        ensures
            r@ == joined(self.view(), "src"@),
    {
        join(self.root, "src")
    }

    /// Returns the path of the build directory: `build`.
    pub fn build_directory(&self) -> (r: String)
        ensures
            r@ == joined(self.view(), "build"@),
    {
        join(self.root, "build")
    }
}

} // verus!

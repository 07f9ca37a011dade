//! Paths of a project that owns its root path, with XML configuration
//! files.

use vstd::prelude::*;

use crate::paths::{join, joined};

verus! {

/// Resolves basic paths for a given project root, with one configuration
/// file for the project and one per built package.
#[derive(Debug, Clone)]
pub struct ProjectPathResolver {
    root: String,
}

impl ProjectPathResolver {
    /// The root of the project.
    pub closed spec fn view(&self) -> Seq<char> {
        self.root@
    }

    /// Creates a resolver for the project at `root`.
    pub fn new(root: String) -> (r: Self)
        ensures
            r.view() == root@,
    {
        ProjectPathResolver { root }
    }

    /// Returns the root of the workspace.
    pub fn root(&self) -> (r: &String)
        ensures
            r@ == self.view(),
    {
        &self.root
    }

    /// Returns the path of the project configuration: `config.xml`.
    pub fn root_config(&self) -> (r: String)
        ensures
            r@ == joined(self.view(), "config.xml"@),
    {
        join(self.root.as_str(), "config.xml")
    }

    /// Returns the path of the readme: `README.md`.
    pub fn readme(&self) -> (r: String)
        ensures
            r@ == joined(self.view(), "README.md"@),
    {
        join(self.root.as_str(), "README.md")
    }

    /// Returns the path of the source directory: `src`.
    pub fn src_directory(&self) -> (r: String)
        ensures
            r@ == joined(self.view(), "src"@),
    {
        join(self.root.as_str(), "src")
    }

    /// Returns the path of the build directory: `build`.
    pub fn build_directory(&self) -> (r: String)
        ensures
            r@ == joined(self.view(), "build"@),
    {
        join(self.root.as_str(), "build")
    }

    /// Returns the build directory of the package named `package_name`.
    pub fn build_package_directory(&self, package_name: &str) -> (r: String)
        ensures
            r@ == joined(joined(self.view(), "build"@), package_name@),
    {
        let build = self.build_directory();
        join(build.as_str(), package_name)
    }

    /// Returns the configuration of the built package named `package_name`.
    pub fn build_package_config(&self, package_name: &str) -> (r: String)
        ensures
            r@ == joined(joined(joined(self.view(), "build"@), package_name@), "config.xml"@),
    {
        let directory = self.build_package_directory(package_name);
        join(directory.as_str(), "config.xml")
    }
}

} // verus!

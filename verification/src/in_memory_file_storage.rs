//! Defines a [`InMemoryFileStorage`], to avoid rereading files in some situtations.

use vstd::prelude::*;

use crate::database::identifier_map::KeyMap;
use crate::in_memory_file::InMemoryFile;
use crate::interner::PathId;

verus! {

/// Whether the storage can hold the file: its length and line table agree
/// with its source, and neither its length nor its number of lines is the
/// largest `usize`, so that a line or column number one past them exists.
pub open spec fn storable(file: InMemoryFile) -> bool {
    &&& file.wf()
    &&& file.source_len < usize::MAX
    &&& file.line_starts@.len() < usize::MAX
}

/// # In-memory file storage.
///
/// The storage can be used for example when emitting some diagnostics, to
/// avoid rereading the same file multiple times.
///
/// The storage is instantiated only 2 times throughout the compilation:
///
/// - The first time happens when the compiler needs to parse files which requires
/// reads.
/// - The second time happens when diagnostics needs to be emitted. It being
/// separate from the first one prevents storing the whole project storage with
/// files from the whole dependency tree throughout the compilation.
#[derive(Debug)]
pub struct InMemoryFileStorage(KeyMap<PathId, InMemoryFile>);

impl InMemoryFileStorage {
    #[verifier::type_invariant]
    spec fn files_are_storable(&self) -> bool {
        forall|path: PathId| #[trigger] self.0@.contains_key(path) ==> storable(self.0@[path])
    }

    /// The files of the storage, by path.
    pub closed spec fn view(&self) -> Map<PathId, InMemoryFile> {
        self.0@
    }

    /// Creates an empty storage.
    pub fn new() -> (r: Self)
        ensures
            r@ == Map::<PathId, InMemoryFile>::empty(),
    {
        InMemoryFileStorage(KeyMap::new())
    }

    /// Adds a file into the storage, in place of the one it had for the
    /// path.
    pub fn add_file(&mut self, path: PathId, file: InMemoryFile)
        requires
            storable(file),
        ensures
            final(self)@ == old(self)@.insert(path, file),
    {
        proof {
            use_type_invariant(&*self);
        }
        let mut files = KeyMap::new();
        std::mem::swap(&mut files, &mut self.0);
        files.insert(path, file);
        self.0 = files;
    }

    /// Adds a file into the storage if it does not have one for the path.
    pub fn add_file_if_not_exists(&mut self, path: PathId, file: InMemoryFile)
        requires
            storable(file),
        ensures
            final(self)@ == (if old(self)@.contains_key(path) {
                old(self)@
            } else {
                old(self)@.insert(path, file)
            }),
    {
        if !self.0.contains_key(path) {
            self.add_file(path, file);
        }
    }

    /// Resolves a file from the storage by its path id.
    pub fn resolve_file(&self, path: PathId) -> (r: Option<&InMemoryFile>)
        ensures
            r == (if self@.contains_key(path) {
                Some(&self@[path])
            } else {
                None
            }),
            r matches Some(file) ==> storable(*file),
    {
        proof {
            use_type_invariant(self);
        }
        self.0.get_ref(path)
    }
}

} // verus!

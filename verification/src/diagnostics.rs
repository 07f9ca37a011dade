//! Collections of diagnostics and the files they involve.

use vstd::prelude::*;

use crate::diagnostic::{Diagnostic, Severity};
use crate::interner::PathId;

verus! {

/// Returns `true` if the given [`Severity`] is fatal.
pub open spec fn fatal(severity: Severity) -> bool {
    severity == Severity::Error || severity == Severity::Bug
}

/// Returns `true` if the given [`Severity`] is fatal (an error or a bug).
pub fn is_fatal_severity(severity: Severity) -> (r: bool)
    ensures
        r == fatal(severity),
{
    match severity {
        Severity::Error | Severity::Bug => true,
        _ => false,
    }
}

/// Builds a diagnostic struct.
pub trait BuildDiagnostic: Sized {
    /// `d` is the diagnostic that [`BuildDiagnostic::build`] gives.
    spec fn describes(&self, d: Diagnostic) -> bool;

    /// Convert [`self`] into [`Diagnostic`].
    fn build(self) -> (r: Diagnostic)
        ensures
            self.describes(r),
    ;
}

impl BuildDiagnostic for Diagnostic {
    open spec fn describes(&self, d: Diagnostic) -> bool {
        d == *self
    }

    fn build(self) -> (r: Diagnostic) {
        self
    }
}

/// General status of diagnostics.
#[derive(Debug, Clone, Copy, PartialEq, Eq, Structural)]
pub enum DiagnosticsStatus {
    /// There are no fatal diagnostics.
    Clean,
    /// There are fatal diagnostics.
    Fatal,
}

/// Empty diagnostics manager.
#[derive(Debug, PartialEq, Eq, Clone, Copy, Default, Hash, Structural)]
pub struct EmptyDiagnosticsManager;

/// Empty source file name.
#[derive(Debug, PartialEq, Eq, Clone, Copy, Default, Hash, Structural)]
pub struct EmptyName;

/// Empty source file source.
#[derive(Debug, PartialEq, Eq, Clone, Copy, Default, Hash, Structural)]
pub struct EmptySource;

impl EmptySource {
    /// The source text, which is empty.
    pub fn as_str(&self) -> (r: &'static str)
        ensures
            r@.len() == 0,
    {
        proof {
            reveal_strlit("");
        }
        ""
    }
}

/// Global diagnostics.
#[derive(Debug, Clone, PartialEq, Eq)]
pub struct Diagnostics {
    /// Files that are involved in the diagnostics, each listed once.
    pub files_involved: Vec<PathId>,
    /// Diagnostics.
    pub diagnostics: Vec<Diagnostic>,
}

impl Diagnostics {
    /// The list of involved files names each file at most once.
    pub open spec fn wf(&self) -> bool {
        self.files_involved@.no_duplicates()
    }

    /// The set of files involved in the diagnostics.
    pub open spec fn files(&self) -> Set<PathId> {
        self.files_involved@.to_set()
    }

    /// No diagnostic is fatal.
    pub open spec fn all_ok(&self) -> bool {
        forall|i: int| 0 <= i < self.diagnostics@.len() ==> !fatal(#[trigger] self.diagnostics@[i].severity)
    }

    /// Creates a new instance of [`Diagnostics`].
    pub fn new() -> (r: Self)
        ensures
            r.wf(),
            r.files_involved@.len() == 0,
            r.diagnostics@.len() == 0,
    {
        Diagnostics { files_involved: Vec::new(), diagnostics: Vec::new() }
    }

    /// Records a file as involved.
    fn involve_file(&mut self, file: PathId)
        requires
            old(self).wf(),
        ensures
            final(self).wf(),
            final(self).files() == old(self).files().insert(file),
            final(self).diagnostics == old(self).diagnostics,
    {
        let mut i: usize = 0;
        while i < self.files_involved.len()
            invariant
                self.wf(),
                self == old(self),
                i <= self.files_involved@.len(),
                forall|j: int| 0 <= j < i ==> self.files_involved@[j] != file,
            decreases self.files_involved@.len() - i,
        {
            if self.files_involved[i] == file {
                proof {
                    assert(self.files().insert(file) =~= self.files());
                }
                return;
            }
            i = i + 1;
        }
        let ghost before = self.files_involved@;
        self.files_involved.push(file);
        proof {
            before.lemma_push_to_set_commute(file);
            assert(!before.contains(file));
            assert(self.files_involved@.no_duplicates()) by {
                assert forall|a: int, b: int|
                    0 <= a < self.files_involved@.len() && 0 <= b < self.files_involved@.len() && a
                        != b implies self.files_involved@[a] != self.files_involved@[b] by {
                    if a < before.len() && b < before.len() {
                    } else if a < before.len() {
                        assert(before[a] == self.files_involved@[a]);
                    } else if b < before.len() {
                        assert(before[b] == self.files_involved@[b]);
                    }
                }
            }
        }
    }

    /// Adds a diagnostic and records the files that its labels point into.
    pub fn add_diagnostic<D: BuildDiagnostic>(&mut self, diagnostic: D)
        requires
            old(self).wf(),
        ensures
            final(self).wf(),
            final(self).diagnostics@.len() == old(self).diagnostics@.len() + 1,
            final(self).diagnostics@.drop_last() == old(self).diagnostics@,
            diagnostic.describes(final(self).diagnostics@.last()),
            final(self).files() == old(self).files() + final(self).diagnostics@.last().label_files().to_set(),
    {
        let diagnostic = diagnostic.build();
        let files = diagnostic.files_involved();
        let mut i: usize = 0;
        while i < files.len()
            invariant
                self.wf(),
                files@ == diagnostic.label_files(),
                i <= files@.len(),
                self.diagnostics == old(self).diagnostics,
                self.files() == old(self).files() + files@.take(i as int).to_set(),
            decreases files@.len() - i,
        {
            self.involve_file(files[i]);
            proof {
                assert(files@.take(i + 1) =~= files@.take(i as int).push(files@[i as int]));
                files@.take(i as int).lemma_push_to_set_commute(files@[i as int]);
                assert(self.files() =~= old(self).files() + files@.take(i + 1).to_set());
            }
            i = i + 1;
        }
        assert(files@.take(files@.len() as int) =~= files@);
        self.diagnostics.push(diagnostic);
        assert(self.diagnostics@.drop_last() =~= old(self).diagnostics@);
    }

    /// Returns `true` if no diagnostic is fatal.
    pub fn is_ok(&self) -> (r: bool)
        ensures
            r == self.all_ok(),
    {
        let mut i: usize = 0;
        while i < self.diagnostics.len()
            invariant
                i <= self.diagnostics@.len(),
                forall|j: int| 0 <= j < i ==> !fatal(#[trigger] self.diagnostics@[j].severity),
            decreases self.diagnostics@.len() - i,
        {
            if is_fatal_severity(self.diagnostics[i].severity) {
                return false;
            }
            i = i + 1;
        }
        true
    }

    /// Returns `true` if some diagnostic is fatal.
    pub fn is_fatal(&self) -> (r: bool)
        ensures
            r == !self.all_ok(),
    {
        !self.is_ok()
    }
}

} // verus!

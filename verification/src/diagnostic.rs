//! Diagnostic data structures: severities, labels, and diagnostics.

use vstd::prelude::*;

use crate::interner::PathId;
use crate::location::Location;

verus! {

/// A severity level for diagnostic messages, ordered from `Help` (lowest)
/// to `Bug` (highest).
#[derive(Copy, Clone, Hash, Debug, PartialEq, Eq, PartialOrd, Ord, Structural)]
pub enum Severity {
    /// A help message.
    Help,
    /// A note.
    Note,
    /// A warning.
    Warning,
    /// An error.
    Error,
    /// An unexpected bug.
    Bug,
}

/// A style of a diagnostic label.
#[derive(Copy, Clone, Debug, PartialEq, Eq, Structural)]
pub enum LabelStyle {
    /// Labels that describe the primary cause of a diagnostic.
    Primary,
    /// Labels that provide additional context for a diagnostic.
    Secondary,
}

/// A label describing an underlined region of code associated with a diagnostic.
#[derive(Clone, Debug, PartialEq, Eq)]
pub struct Label {
    /// The style of the label.
    pub style: LabelStyle,
    /// The location of the snippet.
    pub location: Location,
    /// An optional message to provide some additional information for the
    /// underlined code. These should not include line breaks.
    pub message: String,
}

impl Label {
    /// Create a new label with an empty message.
    pub fn new(style: LabelStyle, location: Location) -> (r: Self)
        ensures
            r.style == style,
            r.location == location,
            r.message@ == Seq::<char>::empty(),
    {
        Label { style, location, message: String::new() }
    }

    /// Create a new label with a style of [`LabelStyle::Primary`].
    pub fn primary(location: Location) -> (r: Self)
        ensures
            r.style == LabelStyle::Primary,
            r.location == location,
            r.message@ == Seq::<char>::empty(),
    {
        Self::new(LabelStyle::Primary, location)
    }

    /// Create a new label with a style of [`LabelStyle::Secondary`].
    pub fn secondary(location: Location) -> (r: Self)
        ensures
            r.style == LabelStyle::Secondary,
            r.location == location,
            r.message@ == Seq::<char>::empty(),
    {
        Self::new(LabelStyle::Secondary, location)
    }

    /// Sets the message of the label.
    pub fn with_message(self, message: String) -> (r: Self)
        ensures
            r.style == self.style,
            r.location == self.location,
            r.message@ == message@,
    {
        Label { message, ..self }
    }
}

/// Represents a diagnostic message that can provide information like errors and
/// warnings to the user.
#[derive(Clone, Debug, PartialEq, Eq)]
pub struct Diagnostic {
    /// The overall severity of the diagnostic
    pub severity: Severity,
    /// An optional code that identifies this diagnostic.
    pub code: Option<String>,
    /// The main message associated with this diagnostic.
    pub message: String,
    /// Source labels that describe the cause of the diagnostic.
    pub labels: Vec<Label>,
    /// Notes that are associated with the primary cause of the diagnostic.
    pub notes: Vec<String>,
}

impl Diagnostic {
    /// The diagnostic has the given severity and nothing else yet.
    pub open spec fn is_empty_with(&self, severity: Severity) -> bool {
        &&& self.severity == severity
        &&& self.code is None
        &&& self.message@ == Seq::<char>::empty()
        &&& self.labels@.len() == 0
        &&& self.notes@.len() == 0
    }

    /// Create a new diagnostic.
    pub fn new(severity: Severity) -> (r: Self)
        ensures
            r.is_empty_with(severity),
    {
        Diagnostic {
            severity,
            code: None,
            message: String::new(),
            labels: Vec::new(),
            notes: Vec::new(),
        }
    }

    /// Create a new diagnostic with a severity of [`Severity::Bug`].
    pub fn bug() -> (r: Self)
        ensures
            r.is_empty_with(Severity::Bug),
    {
        Self::new(Severity::Bug)
    }

    /// Create a new diagnostic with a severity of [`Severity::Error`].
    pub fn error() -> (r: Self)
        ensures
            r.is_empty_with(Severity::Error),
    {
        Self::new(Severity::Error)
    }

    /// Create a new diagnostic with a severity of [`Severity::Warning`].
    pub fn warning() -> (r: Self)
        ensures
            r.is_empty_with(Severity::Warning),
    {
        Self::new(Severity::Warning)
    }

    /// Create a new diagnostic with a severity of [`Severity::Note`].
    pub fn note() -> (r: Self)
        ensures
            r.is_empty_with(Severity::Note),
    {
        Self::new(Severity::Note)
    }

    /// Create a new diagnostic with a severity of [`Severity::Help`].
    pub fn help() -> (r: Self)
        ensures
            r.is_empty_with(Severity::Help),
    {
        Self::new(Severity::Help)
    }

    /// Set the error code of the diagnostic.
    pub fn with_code(self, code: String) -> (r: Self)
        ensures
            r.severity == self.severity,
            r.code matches Some(c) && c@ == code@,
            r.message == self.message,
            r.labels == self.labels,
            r.notes == self.notes,
    {
        Diagnostic { code: Some(code), ..self }
    }

    /// Set the message of the diagnostic.
    pub fn with_message(self, message: String) -> (r: Self)
        ensures
            r.severity == self.severity,
            r.code == self.code,
            r.message@ == message@,
            r.labels == self.labels,
            r.notes == self.notes,
    {
        Diagnostic { message, ..self }
    }

    /// Add a label to the diagnostic.
    pub fn with_label(self, label: Label) -> (r: Self)
        ensures
            r.severity == self.severity,
            r.code == self.code,
            r.message == self.message,
            r.labels@ == self.labels@.push(label),
            r.notes == self.notes,
    {
        let mut d = self;
        d.labels.push(label);
        d
    }

    /// Add some labels to the diagnostic.
    pub fn with_labels(self, labels: Vec<Label>) -> (r: Self)
        ensures
            r.severity == self.severity,
            r.code == self.code,
            r.message == self.message,
            r.labels@ == self.labels@ + labels@,
            r.notes == self.notes,
    {
        let mut d = self;
        let mut labels = labels;
        d.labels.append(&mut labels);
        d
    }

    /// Add some notes to the diagnostic.
    pub fn with_notes(self, notes: Vec<String>) -> (r: Self)
        ensures
            r.severity == self.severity,
            r.code == self.code,
            r.message == self.message,
            r.labels == self.labels,
            r.notes@ == self.notes@ + notes@,
    {
        let mut d = self;
        let mut notes = notes;
        d.notes.append(&mut notes);
        d
    }

    /// The files that the labels of the diagnostic point into, in label order.
    pub open spec fn label_files(&self) -> Seq<PathId> {
        self.labels@.map_values(|l: Label| l.location.filepath)
    }

    /// Returns the files involved in the diagnostic.
    pub fn files_involved(&self) -> (r: Vec<PathId>)
        ensures
            r@ == self.label_files(),
    {
        let mut r: Vec<PathId> = Vec::new();
        let mut i: usize = 0;
        while i < self.labels.len()
            invariant
                i <= self.labels@.len(),
                r@ == self.label_files().take(i as int),
            decreases self.labels@.len() - i,
        {
            r.push(self.labels[i].location.filepath);
            i = i + 1;
            assert(r@ =~= self.label_files().take(i as int));
        }
        assert(self.label_files().take(i as int) =~= self.label_files());
        r
    }
}

} // verus!

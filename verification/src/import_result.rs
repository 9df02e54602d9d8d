//! The report of a run: which fields were created and which were not, and why.

use vstd::prelude::*;

verus! {

/// One field in the report: its label and, where it was not created, the error.
#[derive(Debug, PartialEq, Eq)]
pub struct ImportResult {
    pub label: String,
    pub error: Option<String>,
}

/// One field in the report as plain values.
pub struct ImportResultView {
    pub label: Seq<char>,
    pub error: Option<Seq<char>>,
}

impl View for ImportResult {
    type V = ImportResultView;

    open spec fn view(&self) -> ImportResultView {
        ImportResultView {
            label: self.label@,
            error: match self.error {
                Some(text) => Some(text@),
                None => None,
            },
        }
    }
}

/// The report: the fields that were created and those that were not, each list in
/// the order in which the fields were handled.
#[derive(Debug, PartialEq, Eq)]
pub struct ImportResults {
    successful: Vec<ImportResult>,
    failed: Vec<ImportResult>,
}

/// The report as plain values.
pub struct ImportResultsView {
    pub successful: Seq<ImportResultView>,
    pub failed: Seq<ImportResultView>,
}

/// Entries as plain values.
pub open spec fn entries_view(entries: Seq<ImportResult>) -> Seq<ImportResultView> {
    entries.map_values(|entry: ImportResult| entry@)
}

impl View for ImportResults {
    type V = ImportResultsView;

    closed spec fn view(&self) -> ImportResultsView {
        ImportResultsView {
            successful: entries_view(self.successful@),
            failed: entries_view(self.failed@),
        }
    }
}

impl ImportResultsView {
    /// The report of a run in which nothing was handled yet.
    pub open spec fn empty() -> ImportResultsView {
        ImportResultsView { successful: Seq::empty(), failed: Seq::empty() }
    }

    /// The report with one more field that was created.
    pub open spec fn with_success(self, label: Seq<char>) -> ImportResultsView {
        ImportResultsView {
            successful: self.successful.push(ImportResultView { label, error: None }),
            failed: self.failed,
        }
    }

    /// The report with one more field that was not created.
    pub open spec fn with_failure(self, label: Seq<char>, error: Seq<char>) -> ImportResultsView {
        ImportResultsView {
            successful: self.successful,
            failed: self.failed.push(ImportResultView { label, error: Some(error) }),
        }
    }

    /// The report with one more field, created where `error` is `None`.
    pub open spec fn with_outcome(
        self,
        label: Seq<char>,
        error: Option<Seq<char>>,
    ) -> ImportResultsView {
        match error {
            None => self.with_success(label),
            Some(text) => self.with_failure(label, text),
        }
    }

    /// The number of fields in the report.
    pub open spec fn total(self) -> nat {
        self.successful.len() + self.failed.len()
    }
}

impl ImportResults {
    /// A report without fields.
    pub fn new() -> (results: ImportResults)
        ensures
            results@ == ImportResultsView::empty(),
    {
        let results = ImportResults { successful: Vec::new(), failed: Vec::new() };
        proof {
            assert(entries_view(results.failed@) =~= Seq::empty());
        }
        results
    }

    /// Adds a field that was created, behind those that are there.
    pub fn add_success(&mut self, label: String)
        ensures
            final(self)@ == old(self)@.with_success(label@),
    {
        let ghost before = entries_view(self.successful@);
        let entry = ImportResult { label, error: None };
        self.successful.push(entry);
        proof {
            assert(entries_view(self.successful@) =~= before.push(entry@));
        }
    }

    /// Adds a field that was not created, with the error, behind those that are
    /// there.
    pub fn add_failure(&mut self, label: String, error: String)
        ensures
            final(self)@ == old(self)@.with_failure(label@, error@),
    {
        let ghost before = entries_view(self.failed@);
        let entry = ImportResult { label, error: Some(error) };
        self.failed.push(entry);
        proof {
            assert(entries_view(self.failed@) =~= before.push(entry@));
        }
    }

    /// The fields that were created.
    pub fn successful(&self) -> (entries: &Vec<ImportResult>)
        ensures
            entries_view(entries@) == self@.successful,
    {
        &self.successful
    }

    /// The fields that were not created.
    pub fn failed(&self) -> (entries: &Vec<ImportResult>)
        ensures
            entries_view(entries@) == self@.failed,
    {
        &self.failed
    }
}

} // verus!

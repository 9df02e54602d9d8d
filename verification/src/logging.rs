//! What is written to the log about a run, and which old log files may go.
//!
//! No file is touched here. The caller lists the log files with the times at which
//! they were last modified, and removes those that [`logs_to_remove`] names.

use vstd::prelude::*;
use vstd::string::StringExecFns;
use crate::import_result::{entries_view, ImportResultView, ImportResults, ImportResultsView};

verus! {

/// For how many days a log file is kept at least.
pub const MAX_LOG_DAYS: i64 = 7;

/// How many of the newest log files are kept whatever their age.
pub const MAX_LOGS: usize = 100;

/// One line for the log: its text, and whether it reports an error.
#[derive(Debug, PartialEq, Eq)]
pub struct LogLine {
    pub is_error: bool,
    pub text: String,
}

/// A line as plain values.
pub struct LogLineView {
    pub is_error: bool,
    pub text: Seq<char>,
}

impl View for LogLine {
    type V = LogLineView;

    open spec fn view(&self) -> LogLineView {
        LogLineView { is_error: self.is_error, text: self.text@ }
    }
}

/// Lines as plain values.
pub open spec fn lines_view(lines: Seq<LogLine>) -> Seq<LogLineView> {
    lines.map_values(|line: LogLine| line@)
}

/// The rule that frames the summary.
pub open spec fn rule() -> Seq<char> {
    "================================================================================"@
}

/// The line for a field that was created.
pub open spec fn success_line(entry: ImportResultView) -> LogLineView {
    LogLineView { is_error: false, text: "✓ Successfully imported: "@ + entry.label }
}

/// The line for a field that was not created; an entry without an error is told as
/// an unknown error.
pub open spec fn failure_line(entry: ImportResultView) -> LogLineView {
    LogLineView {
        is_error: true,
        text: "✗ Failed to import: "@ + entry.label + " ("@ + match entry.error {
            Some(text) => text,
            None => "Unknown error"@,
        } + ")"@,
    }
}

/// The summary of a report: a heading between two rules, a line for every field
/// that was created, a line for every field that was not, and a closing rule.
pub open spec fn summary_of(results: ImportResultsView) -> Seq<LogLineView> {
    seq![
        LogLineView { is_error: false, text: "\n"@ + rule() },
        LogLineView { is_error: false, text: "Import Results Summary"@ },
        LogLineView { is_error: false, text: rule() },
    ] + results.successful.map_values(|entry: ImportResultView| success_line(entry))
        + results.failed.map_values(|entry: ImportResultView| failure_line(entry)) + seq![
        LogLineView { is_error: false, text: "\n"@ + rule() },
    ]
}

/// A line that reports no error.
fn info(text: String) -> (line: LogLine)
    ensures
        line@ == (LogLineView { is_error: false, text: text@ }),
{
    LogLine { is_error: false, text }
}

/// A rule, behind a line break where `spaced` says so.
fn rule_line(spaced: bool) -> (line: LogLine)
    ensures
        line@ == (LogLineView { is_error: false, text: if spaced {
            "\n"@ + rule()
        } else {
            rule()
        } }),
{
    let mut text = String::from_str(if spaced {
        "\n"
    } else {
        ""
    });
    proof {
        reveal_strlit("");
    }
    text.append(
        "================================================================================",
    );
    info(text)
}

/// The lines that the log gets about a report.
pub fn log_import_result(result: &ImportResults) -> (lines: Vec<LogLine>)
    ensures
        lines_view(lines@) == summary_of(result@),
{
    let mut lines: Vec<LogLine> = Vec::new();
    lines.push(rule_line(true));
    lines.push(info(String::from_str("Import Results Summary")));
    lines.push(rule_line(false));
    let ghost head = lines_view(lines@);
    assert(head =~= seq![
        LogLineView { is_error: false, text: "\n"@ + rule() },
        LogLineView { is_error: false, text: "Import Results Summary"@ },
        LogLineView { is_error: false, text: rule() },
    ]);
    let successful = result.successful();
    let ghost created = result@.successful;
    let mut i: usize = 0;
    while i < successful.len()
        invariant
            i <= successful.len(),
            created == entries_view(successful@),
            lines_view(lines@) == head + created.take(i as int).map_values(
                |entry: ImportResultView| success_line(entry),
            ),
        decreases successful.len() - i,
    {
        let ghost before = lines_view(lines@);
        let mut text = String::from_str("✓ Successfully imported: ");
        text.append(successful[i].label.as_str());
        let line = info(text);
        lines.push(line);
        proof {
            assert(lines_view(lines@) =~= before.push(line@));
            assert(created.take(i + 1).map_values(|entry: ImportResultView| success_line(entry))
                =~= created.take(i as int).map_values(
                |entry: ImportResultView| success_line(entry),
            ).push(success_line(created[i as int])));
        }
        i = i + 1;
    }
    let ghost middle = lines_view(lines@);
    let failed = result.failed();
    let ghost refused = result@.failed;
    let mut j: usize = 0;
    while j < failed.len()
        invariant
            j <= failed.len(),
            refused == entries_view(failed@),
            lines_view(lines@) == middle + refused.take(j as int).map_values(
                |entry: ImportResultView| failure_line(entry),
            ),
        decreases failed.len() - j,
    {
        let ghost before = lines_view(lines@);
        let mut text = String::from_str("✗ Failed to import: ");
        text.append(failed[j].label.as_str());
        text.append(" (");
        match &failed[j].error {
            Some(error) => text.append(error.as_str()),
            None => text.append("Unknown error"),
        }
        text.append(")");
        let line = LogLine { is_error: true, text };
        lines.push(line);
        proof {
            assert(lines_view(lines@) =~= before.push(line@));
            assert(refused.take(j + 1).map_values(|entry: ImportResultView| failure_line(entry))
                =~= refused.take(j as int).map_values(
                |entry: ImportResultView| failure_line(entry),
            ).push(failure_line(refused[j as int])));
        }
        j = j + 1;
    }
    let ghost body = lines_view(lines@);
    let end = rule_line(true);
    lines.push(end);
    proof {
        assert(lines_view(lines@) =~= body.push(end@));
    }
    lines
}

/// Whether a file modified at `a` is newer than one modified at `b`. A file whose
/// time is not known counts as older than any whose time is.
pub open spec fn newer(a: Option<i64>, b: Option<i64>) -> bool {
    match (a, b) {
        (Some(x), Some(y)) => x > y,
        (Some(_), None) => true,
        _ => false,
    }
}

/// Whether the file at `j` comes before the file at `i` when the files are put
/// newest first and files of one time keep their order.
pub open spec fn comes_before(modified: Seq<Option<i64>>, j: int, i: int) -> bool {
    newer(modified[j], modified[i]) || (modified[j] == modified[i] && j < i)
}

/// How many of the first `n` files come before the file at `i`.
pub open spec fn count_before(modified: Seq<Option<i64>>, i: int, n: int) -> nat
    decreases n,
{
    if n <= 0 {
        0
    } else {
        count_before(modified, i, n - 1) + if comes_before(modified, n - 1, i) {
            1nat
        } else {
            0nat
        }
    }
}

/// The place of the file at `i` when the files are put newest first: how many files
/// come before it.
pub open spec fn place(modified: Seq<Option<i64>>, i: int) -> nat {
    count_before(modified, i, modified.len() as int)
}

/// Whether the file at `i` may go: it is not among the `MAX_LOGS` newest, and it is
/// known to be modified before `cutoff`.
pub open spec fn removable(modified: Seq<Option<i64>>, cutoff: i64, i: int) -> bool {
    &&& place(modified, i) >= MAX_LOGS
    &&& modified[i] matches Some(time)
    &&& time < cutoff
}

/// Decides whether the file at `j` comes before the file at `i`.
fn is_before(modified: &Vec<Option<i64>>, j: usize, i: usize) -> (before: bool)
    requires
        j < modified.len(),
        i < modified.len(),
    ensures
        before == comes_before(modified@, j as int, i as int),
{
    match (modified[j], modified[i]) {
        (Some(x), Some(y)) => x > y || (x == y && j < i),
        (Some(_), None) => true,
        (None, Some(_)) => false,
        (None, None) => j < i,
    }
}

/// The log files that may go, by their indices in `modified` in rising order:
/// those that are not among the `MAX_LOGS` newest and were modified before `cutoff`.
/// `modified` holds for each file the time at which it was last modified, or `None`
/// where that is not known.
pub fn logs_to_remove(modified: &Vec<Option<i64>>, cutoff: i64) -> (indices: Vec<usize>)
    ensures
        forall|k: int|
            0 <= k < indices.len() ==> (#[trigger] indices[k]) < modified.len() && removable(
                modified@,
                cutoff,
                indices[k] as int,
            ),
        forall|k: int, l: int| 0 <= k < l < indices.len() ==> indices[k] < indices[l],
        forall|i: int|
            0 <= i < modified.len() && removable(modified@, cutoff, i) ==> indices@.contains(
                i as usize,
            ),
{
    let mut indices: Vec<usize> = Vec::new();
    let mut i: usize = 0;
    while i < modified.len()
        invariant
            i <= modified.len(),
            forall|k: int|
                0 <= k < indices.len() ==> (#[trigger] indices[k]) < i && removable(
                    modified@,
                    cutoff,
                    indices[k] as int,
                ),
            forall|k: int, l: int| 0 <= k < l < indices.len() ==> indices[k] < indices[l],
            forall|m: int|
                0 <= m < i && removable(modified@, cutoff, m) ==> indices@.contains(m as usize),
        decreases modified.len() - i,
    {
        let old_enough = match modified[i] {
            Some(time) => time < cutoff,
            None => false,
        };
        let mut before: usize = 0;
        let mut j: usize = 0;
        while j < modified.len()
            invariant
                j <= modified.len(),
                i < modified.len(),
                before == count_before(modified@, i as int, j as int),
                before <= j,
            decreases modified.len() - j,
        {
            if is_before(modified, j, i) {
                before = before + 1;
            }
            j = j + 1;
        }
        let ghost earlier = indices@;
        if old_enough && before >= MAX_LOGS {
            indices.push(i);
            proof {
                assert(indices@[earlier.len() as int] == i);
                assert forall|m: int|
                    0 <= m < i + 1 && removable(modified@, cutoff, m) implies indices@.contains(
                    m as usize,
                ) by {
                    if m < i {
                        let k = choose|k: int| 0 <= k < earlier.len() && earlier[k] == m as usize;
                        assert(indices@[k] == m as usize);
                    }
                }
            }
        }
        i = i + 1;
    }
    indices
}

} // verus!

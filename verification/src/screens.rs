//! The course of a run over the fields: what to do next, and what a choice or an
//! outcome changes.
//!
//! Nothing is printed, asked or sent here. [`ScreenManager::next_action`] says what
//! is due: to ask the user about a field, to submit one, or nothing more. The caller
//! does that and reports back with [`ScreenManager::decide`] or
//! [`ScreenManager::record`]. A run over all fields never ends before the last field
//! because one of them failed.

use vstd::prelude::*;
use crate::error::CustomError;
use crate::field::Field;
use crate::import_result::{ImportResultView, ImportResults, ImportResultsView};
use crate::text::{same_text, trim, trimmed};

verus! {

/// What the user wants of the program.
#[derive(Debug, Clone, Copy, PartialEq, Eq, Structural)]
pub enum RunMode {
    Import,
    Debug,
    Quit,
}

/// What the user wants done with one field.
#[derive(Debug, Clone, Copy, PartialEq, Eq, Structural)]
pub enum DebugAction {
    Process,
    Skip,
    Quit,
}

/// What is due in a run: to ask about the field at an index, to submit it, or
/// nothing.
#[derive(Debug, Clone, Copy, PartialEq, Eq, Structural)]
pub enum RunAction {
    Prompt(usize),
    Submit(usize),
    Done,
}

/// The mode that a line of input chooses: `1`, `2` or `3`, with whitespace around
/// it or without; any other line chooses none.
pub open spec fn run_mode_of(input: Seq<char>) -> Option<RunMode> {
    if trimmed(input) == "1"@ {
        Some(RunMode::Import)
    } else if trimmed(input) == "2"@ {
        Some(RunMode::Debug)
    } else if trimmed(input) == "3"@ {
        Some(RunMode::Quit)
    } else {
        None
    }
}

/// The action that a line of input chooses, in the same way.
pub open spec fn debug_action_of(input: Seq<char>) -> Option<DebugAction> {
    if trimmed(input) == "1"@ {
        Some(DebugAction::Process)
    } else if trimmed(input) == "2"@ {
        Some(DebugAction::Skip)
    } else if trimmed(input) == "3"@ {
        Some(DebugAction::Quit)
    } else {
        None
    }
}

/// The state of a run: how many fields are behind it, whether the user is asked
/// about every field and is being asked now, whether the user ended it, and the
/// report so far.
#[derive(Debug)]
pub struct ImportRun {
    debug: bool,
    position: usize,
    choosing: bool,
    stopped: bool,
    results: ImportResults,
}

/// The state of a run as plain values.
pub struct ImportRunView {
    pub debug: bool,
    pub position: nat,
    pub choosing: bool,
    pub stopped: bool,
    pub results: ImportResultsView,
}

impl View for ImportRun {
    type V = ImportRunView;

    closed spec fn view(&self) -> ImportRunView {
        ImportRunView {
            debug: self.debug,
            position: self.position as nat,
            choosing: self.choosing,
            stopped: self.stopped,
            results: self.results@,
        }
    }
}

impl ImportRunView {
    /// A run before its first field.
    pub open spec fn start(debug: bool) -> ImportRunView {
        ImportRunView {
            debug,
            position: 0,
            choosing: debug,
            stopped: false,
            results: ImportResultsView::empty(),
        }
    }

    /// Whether a field is due, of `count` fields in all.
    pub open spec fn pending(self, count: nat) -> bool {
        !self.stopped && self.position < count
    }

    /// Whether the user is to be asked about the field that is due.
    pub open spec fn asks(self, count: nat) -> bool {
        self.pending(count) && self.choosing
    }

    /// Whether the field that is due is to be submitted.
    pub open spec fn submits(self, count: nat) -> bool {
        self.pending(count) && !self.choosing
    }

    /// The run after the user's choice. To process the field makes it due for
    /// submission, to skip it passes on to the next, to quit ends the run. Where the
    /// user was not asked, nothing changes.
    pub open spec fn chosen(self, count: nat, choice: DebugAction) -> ImportRunView {
        if !self.asks(count) {
            self
        } else {
            match choice {
                DebugAction::Process => ImportRunView {
                    debug: self.debug,
                    position: self.position,
                    choosing: false,
                    stopped: self.stopped,
                    results: self.results,
                },
                DebugAction::Skip => ImportRunView {
                    debug: self.debug,
                    position: self.position + 1,
                    choosing: self.choosing,
                    stopped: self.stopped,
                    results: self.results,
                },
                DebugAction::Quit => ImportRunView {
                    debug: self.debug,
                    position: self.position,
                    choosing: self.choosing,
                    stopped: true,
                    results: self.results,
                },
            }
        }
    }

    /// The run after it was ended: nothing is due any more, and the report stays.
    pub open spec fn halted(self) -> ImportRunView {
        ImportRunView {
            debug: self.debug,
            position: self.position,
            choosing: self.choosing,
            stopped: true,
            results: self.results,
        }
    }

    /// The run after the outcome of a submission: the field that was due enters the
    /// report, as created where `error` is `None` and as failed with the error where
    /// not, and the next field is due. Where no submission was due, nothing changes.
    pub open spec fn recorded(
        self,
        labels: Seq<Seq<char>>,
        error: Option<Seq<char>>,
    ) -> ImportRunView {
        if !self.submits(labels.len()) {
            self
        } else {
            ImportRunView {
                debug: self.debug,
                position: self.position + 1,
                choosing: self.debug,
                stopped: self.stopped,
                results: self.results.with_outcome(labels[self.position as int], error),
            }
        }
    }
}

/// The labels of fields, in their order.
pub open spec fn labels_of(fields: Seq<Field>) -> Seq<Seq<char>> {
    fields.map_values(|field: Field| field@.label)
}

/// What an outcome adds to the report: nothing for success, the error's message for
/// a failure.
pub open spec fn outcome_error(outcome: Result<(), CustomError>) -> Option<Seq<char>> {
    match outcome {
        Ok(_) => None,
        Err(e) => Some(e@.message()),
    }
}

/// Outcomes as what they add to the report.
pub open spec fn outcome_errors(outcomes: Seq<Result<(), CustomError>>) -> Seq<Option<Seq<char>>> {
    outcomes.map_values(|outcome: Result<(), CustomError>| outcome_error(outcome))
}

/// The run over all fields after the outcomes of its first submissions, one outcome
/// for each field from the first on.
pub open spec fn import_run(labels: Seq<Seq<char>>, errors: Seq<Option<Seq<char>>>) -> ImportRunView
    decreases errors.len(),
{
    if errors.len() == 0 {
        ImportRunView::start(false)
    } else {
        import_run(labels, errors.drop_last()).recorded(labels, errors.last())
    }
}

/// How many of the outcomes are failures.
pub open spec fn failures_in(errors: Seq<Option<Seq<char>>>) -> nat
    decreases errors.len(),
{
    if errors.len() == 0 {
        0
    } else {
        failures_in(errors.drop_last()) + if errors.last() is Some {
            1nat
        } else {
            0nat
        }
    }
}

/// After as many outcomes as there are fields or fewer, every field that was
/// submitted stands in the report once, in exactly one of the two lists: a created
/// one among the successes, a failed one with its error among the failures, each
/// behind those that were handled before it. No outcome ends the run.
pub proof fn lemma_import_run_reports_each_field_once(
    labels: Seq<Seq<char>>,
    errors: Seq<Option<Seq<char>>>,
)
    requires
        errors.len() <= labels.len(),
    ensures
        ({
            let run = import_run(labels, errors);
            &&& run.position == errors.len()
            &&& !run.stopped
            &&& !run.choosing
            &&& !run.debug
            &&& run.results.failed.len() == failures_in(errors)
            &&& run.results.successful.len() == errors.len() - failures_in(errors)
            &&& forall|i: int|
                0 <= i < errors.len() && (#[trigger] errors[i]) is None
                    ==> run.results.successful[i - failures_in(errors.take(i))] == (
                ImportResultView { label: labels[i], error: None })
            &&& forall|i: int|
                0 <= i < errors.len() && (#[trigger] errors[i]) is Some
                    ==> run.results.failed[failures_in(errors.take(i)) as int] == (
                ImportResultView { label: labels[i], error: errors[i] })
        }),
{
    let run = import_run(labels, errors);
    lemma_import_run_counts(labels, errors);
    assert forall|i: int| 0 <= i < errors.len() && (#[trigger] errors[i]) is None implies {
        run.results.successful[i - failures_in(errors.take(i))] == (
        ImportResultView { label: labels[i], error: None })
    } by {
        lemma_import_run_places(labels, errors, i);
    }
    assert forall|i: int| 0 <= i < errors.len() && (#[trigger] errors[i]) is Some implies {
        run.results.failed[failures_in(errors.take(i)) as int] == (
        ImportResultView { label: labels[i], error: errors[i] })
    } by {
        lemma_import_run_places(labels, errors, i);
    }
}

/// How far a run over all fields has come after some outcomes, and how long the two
/// lists of its report are.
proof fn lemma_import_run_counts(labels: Seq<Seq<char>>, errors: Seq<Option<Seq<char>>>)
    requires
        errors.len() <= labels.len(),
    ensures
        import_run(labels, errors).position == errors.len(),
        !import_run(labels, errors).stopped,
        !import_run(labels, errors).choosing,
        !import_run(labels, errors).debug,
        import_run(labels, errors).results.failed.len() == failures_in(errors),
        import_run(labels, errors).results.successful.len() == errors.len() - failures_in(errors),
    decreases errors.len(),
{
    if errors.len() > 0 {
        lemma_import_run_counts(labels, errors.drop_last());
        lemma_failures_in_bounded(errors.drop_last());
    }
}

/// Where the field at `i` stands in the report of a run over all fields.
proof fn lemma_import_run_places(labels: Seq<Seq<char>>, errors: Seq<Option<Seq<char>>>, i: int)
    requires
        errors.len() <= labels.len(),
        0 <= i < errors.len(),
    ensures
        errors[i] is None ==> import_run(labels, errors).results.successful[i - failures_in(
            errors.take(i),
        )] == (ImportResultView { label: labels[i], error: None }),
        errors[i] is Some ==> import_run(labels, errors).results.failed[failures_in(
            errors.take(i),
        ) as int] == (ImportResultView { label: labels[i], error: errors[i] }),
    decreases errors.len(),
{
    let before = errors.drop_last();
    lemma_import_run_counts(labels, before);
    lemma_failures_in_bounded(before);
    if i < errors.len() - 1 {
        lemma_import_run_places(labels, before, i);
        assert(before.take(i) =~= errors.take(i));
        lemma_place_in_bounds(before, i);
    }
}

/// The place of an outcome in its list lies within the list.
proof fn lemma_place_in_bounds(errors: Seq<Option<Seq<char>>>, i: int)
    requires
        0 <= i < errors.len(),
    ensures
        errors[i] is None ==> 0 <= i - failures_in(errors.take(i)) < errors.len() - failures_in(
            errors,
        ),
        errors[i] is Some ==> failures_in(errors.take(i)) < failures_in(errors),
{
    lemma_failures_in_grows(errors, i + 1);
    lemma_failures_in_bounded(errors.take(i));
    assert(errors.take(i + 1).drop_last() =~= errors.take(i));
}

/// There are no more failures than outcomes.
proof fn lemma_failures_in_bounded(errors: Seq<Option<Seq<char>>>)
    ensures
        failures_in(errors) <= errors.len(),
    decreases errors.len(),
{
    if errors.len() > 0 {
        lemma_failures_in_bounded(errors.drop_last());
    }
}

/// The first outcomes hold no more failures than all of them, and leave at least as
/// many successes behind them as there are among them.
proof fn lemma_failures_in_grows(errors: Seq<Option<Seq<char>>>, k: int)
    requires
        0 <= k <= errors.len(),
    ensures
        failures_in(errors.take(k)) <= failures_in(errors),
        k - failures_in(errors.take(k)) <= errors.len() - failures_in(errors),
    decreases errors.len() - k,
{
    if k == errors.len() {
        assert(errors.take(k) =~= errors);
    } else {
        lemma_failures_in_grows(errors.drop_last(), k);
        assert(errors.drop_last().take(k) =~= errors.take(k));
    }
}

/// Where only the outcome at `k` is a failure, there is none before it and one in
/// all.
proof fn lemma_single_failure(errors: Seq<Option<Seq<char>>>, k: int, j: int)
    requires
        0 <= k < errors.len(),
        0 <= j <= errors.len(),
        forall|i: int| 0 <= i < errors.len() ==> ((#[trigger] errors[i]) is Some <==> i == k),
    ensures
        failures_in(errors.take(j)) == if j <= k {
            0nat
        } else {
            1nat
        },
    decreases j,
{
    if j > 0 {
        lemma_single_failure(errors, k, j - 1);
        assert(errors.take(j).drop_last() =~= errors.take(j - 1));
    }
}

/// Of a run over all fields in which the submission of the field at `k` fails and
/// every other succeeds, the report holds every other field as created and the one
/// failure with the label of the field at `k` and its error. All fields were
/// submitted and nothing is due any more: the failure did not end the run.
pub proof fn lemma_one_failure_among_successes(
    labels: Seq<Seq<char>>,
    errors: Seq<Option<Seq<char>>>,
    k: int,
)
    requires
        errors.len() == labels.len(),
        0 <= k < labels.len(),
        forall|i: int| 0 <= i < errors.len() ==> ((#[trigger] errors[i]) is Some <==> i == k),
    ensures
        ({
            let run = import_run(labels, errors);
            &&& run.results.successful.len() == labels.len() - 1
            &&& run.results.failed.len() == 1
            &&& run.results.failed[0] == (ImportResultView { label: labels[k], error: errors[k] })
            &&& run.position == labels.len()
            &&& !run.pending(labels.len())
            &&& forall|i: int|
                0 <= i < k ==> (#[trigger] run.results.successful[i]).label == labels[i]
            &&& forall|i: int|
                k <= i < labels.len() - 1 ==> (#[trigger] run.results.successful[i]).label
                    == labels[i + 1]
        }),
{
    let run = import_run(labels, errors);
    lemma_import_run_reports_each_field_once(labels, errors);
    lemma_single_failure(errors, k, errors.len() as int);
    assert(errors.take(errors.len() as int) =~= errors);
    lemma_single_failure(errors, k, k);
    assert forall|i: int| 0 <= i < k implies (#[trigger] run.results.successful[i]).label
        == labels[i] by {
        lemma_single_failure(errors, k, i);
        assert(errors[i] is None);
    }
    assert forall|i: int| k <= i < labels.len() - 1 implies {
        (#[trigger] run.results.successful[i]).label == labels[i + 1]
    } by {
        lemma_single_failure(errors, k, i + 1);
        assert(errors[i + 1] is None);
    }
}

/// The fields of a run and the course through them.
#[derive(Debug)]
pub struct ScreenManager {
    fields: Vec<Field>,
}

impl View for ScreenManager {
    type V = Seq<Field>;

    closed spec fn view(&self) -> Seq<Field> {
        self.fields@
    }
}

/// Which of the three choices a line of input makes, if any.
fn menu_choice(input: &str) -> (choice: Option<u8>)
    ensures
        choice == if trimmed(input@) == "1"@ {
            Some(1u8)
        } else if trimmed(input@) == "2"@ {
            Some(2u8)
        } else if trimmed(input@) == "3"@ {
            Some(3u8)
        } else {
            None
        },
{
    let line = trim(input);
    if same_text(line, "1") {
        Some(1)
    } else if same_text(line, "2") {
        Some(2)
    } else if same_text(line, "3") {
        Some(3)
    } else {
        None
    }
}

impl RunMode {
    /// The mode that a line of input chooses; `None` where it chooses none.
    pub fn from_choice(input: &str) -> (mode: Option<RunMode>)
        ensures
            mode == run_mode_of(input@),
    {
        match menu_choice(input) {
            Some(1) => Some(RunMode::Import),
            Some(2) => Some(RunMode::Debug),
            Some(3) => Some(RunMode::Quit),
            _ => None,
        }
    }
}

impl DebugAction {
    /// The action that a line of input chooses; `None` where it chooses none.
    pub fn from_choice(input: &str) -> (action: Option<DebugAction>)
        ensures
            action == debug_action_of(input@),
    {
        match menu_choice(input) {
            Some(1) => Some(DebugAction::Process),
            Some(2) => Some(DebugAction::Skip),
            Some(3) => Some(DebugAction::Quit),
            _ => None,
        }
    }
}

impl ImportRun {
    /// The report so far.
    pub fn results(&self) -> (results: &ImportResults)
        ensures
            results@ == self@.results,
    {
        &self.results
    }

    /// The report, at the end of the run.
    pub fn into_results(self) -> (results: ImportResults)
        ensures
            results@ == self@.results,
    {
        self.results
    }

    /// How many fields are behind the run: submitted or skipped.
    pub fn position(&self) -> (position: usize)
        ensures
            position == self@.position,
    {
        self.position
    }
}

impl ScreenManager {
    /// The course through the given fields.
    pub fn new(fields: Vec<Field>) -> (screens: ScreenManager)
        ensures
            screens@ == fields@,
    {
        ScreenManager { fields }
    }

    /// The fields.
    pub fn fields(&self) -> (fields: &Vec<Field>)
        ensures
            fields@ == self@,
    {
        &self.fields
    }

    /// The mode that the user's line of input chooses; `None` means to ask again.
    pub fn get_run_mode(&self, input: &str) -> (mode: Option<RunMode>)
        ensures
            mode == run_mode_of(input@),
    {
        RunMode::from_choice(input)
    }

    /// Starts a run that submits every field, one after the other in their order.
    pub fn process_all_fields(&self) -> (run: ImportRun)
        ensures
            run@ == ImportRunView::start(false),
    {
        ImportRun {
            debug: false,
            position: 0,
            choosing: false,
            stopped: false,
            results: ImportResults::new(),
        }
    }

    /// Starts a run that asks the user about every field before anything is done
    /// with it.
    pub fn debug_mode(&self) -> (run: ImportRun)
        ensures
            run@ == ImportRunView::start(true),
    {
        ImportRun {
            debug: true,
            position: 0,
            choosing: true,
            stopped: false,
            results: ImportResults::new(),
        }
    }

    /// What is due in the run: to ask about the field that is due, to submit it, or
    /// nothing where no field is due.
    pub fn next_action(&self, run: &ImportRun) -> (action: RunAction)
        ensures
            match action {
                RunAction::Prompt(index) => run@.asks(self@.len()) && index == run@.position,
                RunAction::Submit(index) => run@.submits(self@.len()) && index == run@.position,
                RunAction::Done => !run@.pending(self@.len()),
            },
    {
        if run.stopped || run.position >= self.fields.len() {
            RunAction::Done
        } else if run.choosing {
            RunAction::Prompt(run.position)
        } else {
            RunAction::Submit(run.position)
        }
    }

    /// Takes the user's choice for the field that the user was asked about. Returns
    /// whether a choice was due; where none was, the run is unchanged.
    pub fn decide(&self, run: &mut ImportRun, choice: DebugAction) -> (due: bool)
        ensures
            due == old(run)@.asks(self@.len()),
            final(run)@ == old(run)@.chosen(self@.len(), choice),
    {
        if run.stopped || run.position >= self.fields.len() || !run.choosing {
            return false;
        }
        match choice {
            DebugAction::Process => {
                run.choosing = false;
            },
            DebugAction::Skip => {
                run.position = run.position + 1;
            },
            DebugAction::Quit => {
                run.stopped = true;
            },
        }
        true
    }

    /// Ends the run: nothing is due after this.
    pub fn stop(&self, run: &mut ImportRun)
        ensures
            final(run)@ == old(run)@.halted(),
    {
        run.stopped = true;
    }

    /// Takes the outcome of the submission that was due: the field enters the report
    /// as created, or as failed with the error's message, and the run goes on to the
    /// next field either way. Returns whether a submission was due; where none was,
    /// the run is unchanged.
    pub fn record(&self, run: &mut ImportRun, outcome: Result<(), CustomError>) -> (due: bool)
        ensures
            due == old(run)@.submits(self@.len()),
            final(run)@ == old(run)@.recorded(labels_of(self@), outcome_error(outcome)),
    {
        if run.stopped || run.position >= self.fields.len() || run.choosing {
            return false;
        }
        let label = self.fields[run.position].label().clone();
        match outcome {
            Ok(_) => {
                run.results.add_success(label);
            },
            Err(e) => {
                let message = e.message();
                run.results.add_failure(label, message);
            },
        }
        run.position = run.position + 1;
        run.choosing = run.debug;
        true
    }

    /// The report of a whole run over all fields, from the outcomes of their
    /// submissions in order. Of more outcomes than fields the surplus is left aside;
    /// of fewer, the fields without an outcome do not enter the report.
    pub fn report(&self, outcomes: Vec<Result<(), CustomError>>) -> (results: ImportResults)
        ensures
            results@ == import_run(
                labels_of(self@),
                outcome_errors(outcomes@).take(
                    if outcomes.len() <= self@.len() {
                        outcomes.len() as int
                    } else {
                        self@.len() as int
                    },
                ),
            ).results,
    {
        let ghost labels = labels_of(self@);
        let ghost errors = outcome_errors(outcomes@);
        let count = outcomes.len();
        let mut run = self.process_all_fields();
        let mut handled: usize = 0;
        for outcome in it: outcomes
            invariant
                labels == labels_of(self@),
                errors == outcome_errors(it.seq()),
                count == it.seq().len(),
                it.index() <= count,
                handled == if it.index() <= self@.len() {
                    it.index()
                } else {
                    self@.len() as int
                },
                run@ == import_run(labels, errors.take(handled as int)),
        {
            proof {
                lemma_import_run_reports_each_field_once(labels, errors.take(handled as int));
            }
            if handled < self.fields.len() {
                proof {
                    assert(errors.take(handled + 1).drop_last() =~= errors.take(handled as int));
                }
                self.record(&mut run, outcome);
                handled = handled + 1;
            }
        }
        run.into_results()
    }
}

} // verus!

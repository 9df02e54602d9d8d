use field_import::error::{ApiErrorKind, AuthErrorKind, CustomError};
use field_import::field::Field;
use field_import::import_result::{ImportResult, ImportResults};
use field_import::screens::{DebugAction, RunAction, RunMode, ScreenManager};

fn fields(count: usize) -> Vec<Field> {
    (0..count)
        .map(|i| Field::new(format!("f{}", i), format!("Label {}", i), 0, 0, "".to_string()))
        .collect()
}

fn failure(label: &str) -> CustomError {
    CustomError::ApiError(ApiErrorKind::FieldCreationFailed(
        label.to_string(),
        "Status: 500, Error: boom".to_string(),
    ))
}

fn created(label: &str) -> ImportResult {
    ImportResult { label: label.to_string(), error: None }
}

#[test]
fn one_failure_among_successes_does_not_end_the_run() {
    for count in 1..=6usize {
        for k in 0..count {
            let screens = ScreenManager::new(fields(count));
            let mut run = screens.process_all_fields();
            let mut submitted = Vec::new();
            loop {
                match screens.next_action(&run) {
                    RunAction::Submit(index) => {
                        submitted.push(index);
                        let outcome = if index == k {
                            Err(failure(&format!("Label {}", index)))
                        } else {
                            Ok(())
                        };
                        assert!(screens.record(&mut run, outcome));
                    }
                    RunAction::Prompt(_) => panic!("asked in a run over all fields"),
                    RunAction::Done => break,
                }
            }
            assert_eq!(submitted, (0..count).collect::<Vec<usize>>());
            assert_eq!(run.position(), count);
            let results = run.into_results();
            assert_eq!(results.successful().len(), count - 1);
            assert_eq!(results.failed().len(), 1);
            assert_eq!(results.failed()[0].label, format!("Label {}", k));
            assert_eq!(
                results.failed()[0].error,
                Some(format!(
                    "Failed to create field 'Label {}': Status: 500, Error: boom",
                    k
                ))
            );
            let expected: Vec<ImportResult> = (0..count)
                .filter(|i| *i != k)
                .map(|i| created(&format!("Label {}", i)))
                .collect();
            assert_eq!(results.successful(), &expected);
        }
    }
}

#[test]
fn every_field_enters_the_report_once() {
    let screens = ScreenManager::new(fields(5));
    let outcomes = vec![
        Ok(()),
        Err(failure("Label 1")),
        Err(CustomError::AuthError(AuthErrorKind::NetworkError("down".to_string()))),
        Ok(()),
        Ok(()),
    ];
    let results = screens.report(outcomes);
    assert_eq!(
        results.successful(),
        &vec![created("Label 0"), created("Label 3"), created("Label 4")]
    );
    assert_eq!(
        results.failed(),
        &vec![
            ImportResult {
                label: "Label 1".to_string(),
                error: Some(
                    "Failed to create field 'Label 1': Status: 500, Error: boom".to_string()
                ),
            },
            ImportResult {
                label: "Label 2".to_string(),
                error: Some("Network error during authentication: down".to_string()),
            },
        ]
    );
}

#[test]
fn a_report_takes_no_more_outcomes_than_there_are_fields() {
    let screens = ScreenManager::new(fields(2));
    let results = screens.report(vec![Ok(()), Ok(()), Err(failure("x")), Ok(())]);
    assert_eq!(results.successful().len(), 2);
    assert!(results.failed().is_empty());
    let short = screens.report(vec![Err(failure("x"))]);
    assert!(short.successful().is_empty());
    assert_eq!(short.failed().len(), 1);
    assert_eq!(short.failed()[0].label, "Label 0");
    let none = ScreenManager::new(Vec::new()).report(vec![Ok(())]);
    assert!(none.successful().is_empty() && none.failed().is_empty());
}

#[test]
fn an_outcome_that_is_not_due_changes_nothing() {
    let screens = ScreenManager::new(fields(1));
    let mut run = screens.process_all_fields();
    assert!(!screens.decide(&mut run, DebugAction::Quit));
    assert_eq!(screens.next_action(&run), RunAction::Submit(0));
    assert!(screens.record(&mut run, Ok(())));
    assert_eq!(screens.next_action(&run), RunAction::Done);
    assert!(!screens.record(&mut run, Ok(())));
    assert!(!screens.decide(&mut run, DebugAction::Process));
    assert_eq!(run.position(), 1);
    assert_eq!(run.results().successful().len(), 1);
}

#[test]
fn debug_mode_asks_before_every_field() {
    let screens = ScreenManager::new(fields(4));
    let mut run = screens.debug_mode();
    assert_eq!(screens.next_action(&run), RunAction::Prompt(0));
    assert!(!screens.record(&mut run, Ok(())));
    assert!(screens.decide(&mut run, DebugAction::Process));
    assert_eq!(screens.next_action(&run), RunAction::Submit(0));
    assert!(!screens.decide(&mut run, DebugAction::Skip));
    assert!(screens.record(&mut run, Ok(())));
    assert_eq!(screens.next_action(&run), RunAction::Prompt(1));
    assert!(screens.decide(&mut run, DebugAction::Skip));
    assert_eq!(screens.next_action(&run), RunAction::Prompt(2));
    assert!(screens.decide(&mut run, DebugAction::Process));
    assert!(screens.record(&mut run, Err(failure("Label 2"))));
    assert_eq!(screens.next_action(&run), RunAction::Prompt(3));
    assert!(screens.decide(&mut run, DebugAction::Quit));
    assert_eq!(screens.next_action(&run), RunAction::Done);
    assert!(!screens.decide(&mut run, DebugAction::Process));
    let results = run.into_results();
    assert_eq!(results.successful(), &vec![created("Label 0")]);
    assert_eq!(results.failed().len(), 1);
    assert_eq!(results.failed()[0].label, "Label 2");
}

#[test]
fn a_line_of_input_chooses_the_mode() {
    let screens = ScreenManager::new(Vec::new());
    assert_eq!(screens.get_run_mode("1"), Some(RunMode::Import));
    assert_eq!(screens.get_run_mode("2\n"), Some(RunMode::Debug));
    assert_eq!(screens.get_run_mode("  3 \r\n"), Some(RunMode::Quit));
    for input in ["", "\n", "4", "0", "11", "1 2", "one", "+1", "01"] {
        assert_eq!(screens.get_run_mode(input), None, "{:?}", input);
    }
    assert_eq!(RunMode::from_choice(" 2 "), Some(RunMode::Debug));
    assert_eq!(RunMode::from_choice("22"), None);
    assert_eq!(DebugAction::from_choice("1\n"), Some(DebugAction::Process));
    assert_eq!(DebugAction::from_choice(" 2"), Some(DebugAction::Skip));
    assert_eq!(DebugAction::from_choice("3"), Some(DebugAction::Quit));
    assert_eq!(DebugAction::from_choice("q"), None);
}

#[test]
fn a_report_grows_at_its_end() {
    let mut results = ImportResults::new();
    assert!(results.successful().is_empty());
    assert!(results.failed().is_empty());
    results.add_success("A".to_string());
    results.add_failure("B".to_string(), "why".to_string());
    results.add_success("C".to_string());
    assert_eq!(results.successful(), &vec![created("A"), created("C")]);
    assert_eq!(
        results.failed(),
        &vec![ImportResult { label: "B".to_string(), error: Some("why".to_string()) }]
    );
}

#[test]
fn the_fields_of_a_run_are_kept() {
    let screens = ScreenManager::new(fields(3));
    assert_eq!(screens.fields().len(), 3);
    assert_eq!(screens.fields()[2].label(), "Label 2");
}

use field_import::import_result::ImportResults;
use field_import::logging::{log_import_result, logs_to_remove, LogLine, MAX_LOGS, MAX_LOG_DAYS};

fn info(text: &str) -> LogLine {
    LogLine { is_error: false, text: text.to_string() }
}

#[test]
fn the_summary_frames_a_line_for_every_field() {
    let mut results = ImportResults::new();
    results.add_success("Age".to_string());
    results.add_failure("Colour".to_string(), "Status: 500".to_string());
    results.add_success("Notes".to_string());
    let rule = "=".repeat(80);
    assert_eq!(
        log_import_result(&results),
        vec![
            info(&format!("\n{}", rule)),
            info("Import Results Summary"),
            info(&rule),
            info("✓ Successfully imported: Age"),
            info("✓ Successfully imported: Notes"),
            LogLine { is_error: true, text: "✗ Failed to import: Colour (Status: 500)".to_string() },
            info(&format!("\n{}", rule)),
        ]
    );
}

#[test]
fn the_summary_of_an_empty_report_is_the_frame() {
    let rule = "=".repeat(80);
    assert_eq!(
        log_import_result(&ImportResults::new()),
        vec![
            info(&format!("\n{}", rule)),
            info("Import Results Summary"),
            info(&rule),
            info(&format!("\n{}", rule)),
        ]
    );
}

fn expected_removals(modified: &[Option<i64>], cutoff: i64) -> Vec<usize> {
    let mut order: Vec<usize> = (0..modified.len()).collect();
    order.sort_by(|a, b| modified[*b].cmp(&modified[*a]));
    let mut gone: Vec<usize> = order
        .into_iter()
        .skip(100)
        .filter(|i| match modified[*i] {
            Some(time) => time < cutoff,
            None => false,
        })
        .collect();
    gone.sort();
    gone
}

#[test]
fn the_hundred_newest_logs_stay_whatever_their_age() {
    assert_eq!(MAX_LOGS, 100);
    assert_eq!(MAX_LOG_DAYS, 7);
    let modified: Vec<Option<i64>> = (0..100).map(|i| Some(i as i64)).collect();
    assert!(logs_to_remove(&modified, 1_000_000).is_empty());
    assert!(logs_to_remove(&Vec::new(), 0).is_empty());
}

#[test]
fn beyond_the_hundred_newest_only_old_logs_go() {
    let modified: Vec<Option<i64>> = (0..150).map(|i| Some(i as i64)).collect();
    assert_eq!(logs_to_remove(&modified, 1_000), (0..50).collect::<Vec<usize>>());
    assert_eq!(logs_to_remove(&modified, 20), (0..20).collect::<Vec<usize>>());
    assert_eq!(logs_to_remove(&modified, 0), Vec::<usize>::new());
    let reversed: Vec<Option<i64>> = (0..150).rev().map(|i| Some(i as i64)).collect();
    assert_eq!(logs_to_remove(&reversed, 30), (120..150).collect::<Vec<usize>>());
}

#[test]
fn logs_of_unknown_age_count_as_oldest_and_stay() {
    let mut modified: Vec<Option<i64>> = vec![None; 10];
    modified.extend((0..120).map(|i| Some(i as i64)));
    assert_eq!(logs_to_remove(&modified, 1_000), (10..30).collect::<Vec<usize>>());
}

#[test]
fn removals_agree_with_sorting_newest_first() {
    let mut state: u64 = 12345;
    for round in 0..40usize {
        let length = 90 + round * 3;
        let mut modified = Vec::new();
        for _ in 0..length {
            state = state.wrapping_mul(6364136223846793005).wrapping_add(1442695040888963407);
            let draw = (state >> 33) % 60;
            modified.push(if draw < 5 { None } else { Some(draw as i64) });
        }
        for cutoff in [0i64, 10, 30, 59, 100] {
            assert_eq!(logs_to_remove(&modified, cutoff), expected_removals(&modified, cutoff));
        }
    }
}

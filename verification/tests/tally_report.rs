use mgit::outcome::Outcome;
use mgit::record::ExecutionResult;
use mgit::report::{announce_line, summary_line};
use mgit::tally::{aggregate, Tally};

fn result_with(outcome: Outcome) -> ExecutionResult {
    ExecutionResult { path: String::from("/tmp/repo"), outcome, output: String::new() }
}

#[test]
fn aggregate_counts_each_class() {
    let results = vec![
        result_with(Outcome::Success),
        result_with(Outcome::NonZeroExit),
        result_with(Outcome::Success),
        result_with(Outcome::SpawnOrWaitError),
        result_with(Outcome::Success),
    ];
    let t = aggregate(&results);
    assert_eq!(t.success, 3);
    assert_eq!(t.failed, 1);
    assert_eq!(t.errors, 1);
}

#[test]
fn counters_sum_to_record_count() {
    let results = vec![
        result_with(Outcome::NonZeroExit),
        result_with(Outcome::SpawnOrWaitError),
        result_with(Outcome::Success),
        result_with(Outcome::NonZeroExit),
    ];
    let t = aggregate(&results);
    assert_eq!(t.success + t.failed + t.errors, results.len());
}

#[test]
fn all_success_tally() {
    let results = vec![
        result_with(Outcome::Success),
        result_with(Outcome::Success),
        result_with(Outcome::Success),
    ];
    let t = aggregate(&results);
    assert_eq!(t.success, 3);
    assert_eq!(t.failed, 0);
    assert_eq!(t.errors, 0);
    assert_eq!(summary_line(&t), "Success: 3");
}

#[test]
fn all_nonzero_tally() {
    let results = vec![result_with(Outcome::NonZeroExit), result_with(Outcome::NonZeroExit)];
    let t = aggregate(&results);
    assert_eq!(t.failed, 2);
    assert_eq!(summary_line(&t), "Success: 0, Warnings: 2");
}

#[test]
fn all_spawn_errors_tally() {
    let results = vec![result_with(Outcome::SpawnOrWaitError), result_with(Outcome::SpawnOrWaitError)];
    let t = aggregate(&results);
    assert_eq!(t.errors, 2);
    assert_eq!(summary_line(&t), "Success: 0, Errors: 2");
}

#[test]
fn aggregation_is_deterministic() {
    let results = vec![
        result_with(Outcome::Success),
        result_with(Outcome::NonZeroExit),
        result_with(Outcome::SpawnOrWaitError),
        result_with(Outcome::Success),
    ];
    let first = aggregate(&results);
    let second = aggregate(&results);
    assert_eq!(first.success, second.success);
    assert_eq!(first.failed, second.failed);
    assert_eq!(first.errors, second.errors);
}

#[test]
fn record_increments_one_counter() {
    let mut t = Tally::new();
    t.record(Outcome::Success);
    t.record(Outcome::Success);
    t.record(Outcome::SpawnOrWaitError);
    assert_eq!(t.success, 2);
    assert_eq!(t.failed, 0);
    assert_eq!(t.errors, 1);
}

#[test]
fn summary_shows_every_nonzero_segment() {
    let t = Tally { success: 1, failed: 2, errors: 3 };
    assert_eq!(summary_line(&t), "Success: 1, Warnings: 2, Errors: 3");
}

#[test]
fn summary_hides_zero_segments() {
    let t = Tally { success: 0, failed: 0, errors: 0 };
    assert_eq!(summary_line(&t), "Success: 0");
    let t2 = Tally { success: 4, failed: 0, errors: 1 };
    assert_eq!(summary_line(&t2), "Success: 4, Errors: 1");
}

#[test]
fn announce_joins_arguments_with_spaces() {
    let args = vec![String::from("status"), String::from("-s")];
    assert_eq!(announce_line(&args, 2), "Running 'git status -s' on 2 projects.");
}

#[test]
fn announce_single_argument() {
    let args = vec![String::from("fetch")];
    assert_eq!(announce_line(&args, 12), "Running 'git fetch' on 12 projects.");
}

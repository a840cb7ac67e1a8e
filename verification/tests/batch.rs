use branch_prune::batch::{BatchResult, Failure, Outcome};

fn failure(name: &str, reason: &str) -> Failure {
    Failure { name: name.to_string(), reason: reason.to_string() }
}

#[test]
fn new_result_counts_nothing() {
    let result = BatchResult::new();
    assert_eq!(result.successes(), 0);
    assert!(result.failures().is_empty());
}

#[test]
fn recording_a_deletion_counts_one_success() {
    let mut result = BatchResult::new();
    result.record("feature-a".to_string(), Outcome::Deleted);
    assert_eq!(result.successes(), 1);
    assert!(result.failures().is_empty());
}

#[test]
fn recording_a_failure_keeps_name_and_reason() {
    let mut result = BatchResult::new();
    result.record("feature-b".to_string(), Outcome::Failed("not merged".to_string()));
    assert_eq!(result.successes(), 0);
    assert_eq!(result.failures(), &vec![failure("feature-b", "not merged")]);
}

#[test]
fn failures_are_kept_in_the_order_of_the_attempts() {
    let mut result = BatchResult::new();
    result.record("c".to_string(), Outcome::Failed("third".to_string()));
    result.record("a".to_string(), Outcome::Deleted);
    result.record("b".to_string(), Outcome::Failed("first".to_string()));
    result.record("d".to_string(), Outcome::Deleted);
    assert_eq!(result.successes(), 2);
    assert_eq!(result.failures(), &vec![failure("c", "third"), failure("b", "first")]);
}

#[test]
fn successes_and_failures_add_up_to_the_attempts() {
    let mut result = BatchResult::new();
    let outcomes = [true, false, true, true, false, false, true];
    for (i, deleted) in outcomes.iter().enumerate() {
        let outcome =
            if *deleted { Outcome::Deleted } else { Outcome::Failed(format!("reason {}", i)) };
        result.record(format!("branch-{}", i), outcome);
        assert_eq!(result.successes() + result.failures().len(), i + 1);
    }
    assert_eq!(result.successes(), 4);
    assert_eq!(result.failures().len(), 3);
}

#[test]
fn one_failure_among_successes_wherever_it_stands() {
    let names = ["a", "b", "c", "d"];
    for failing in 0..names.len() {
        let mut result = BatchResult::new();
        for (i, name) in names.iter().enumerate() {
            let outcome = if i == failing {
                Outcome::Failed("refused".to_string())
            } else {
                Outcome::Deleted
            };
            result.record(name.to_string(), outcome);
        }
        assert_eq!(result.successes(), names.len() - 1);
        assert_eq!(result.failures(), &vec![failure(names[failing], "refused")]);
    }
}

#[test]
fn a_failure_may_have_an_empty_reason() {
    let mut result = BatchResult::new();
    result.record("x".to_string(), Outcome::Failed(String::new()));
    assert_eq!(result.failures(), &vec![failure("x", "")]);
}

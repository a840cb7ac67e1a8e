use branch_prune::batch::{BatchResult, Failure, Outcome};
use branch_prune::workflow::{Action, Event, Phase, Step, Workflow};

fn strings(items: &[&str]) -> Vec<String> {
    items.iter().map(|item| item.to_string()).collect()
}

fn listed(branches: &[&str], head: Option<&str>) -> Event {
    Event::Listed { branches: strings(branches), head: head.map(|name| name.to_string()) }
}

fn select(items: &[&str]) -> Action {
    Action::Select {
        prompt: "Select branches to delete (Space to select, Enter to confirm)".to_string(),
        items: strings(items),
    }
}

fn confirm() -> Action {
    Action::Confirm {
        prompt: "Are you sure you want to delete these branches?".to_string(),
        default: false,
    }
}

fn delete(branch: &str) -> Action {
    Action::Delete { branch: branch.to_string() }
}

fn failed(reason: &str) -> Event {
    Event::Attempted(Outcome::Failed(reason.to_string()))
}

/// Feeds the events one after the other and gathers all the lines and all
/// the actions that come back.
fn drive(workflow: Workflow, events: Vec<Event>) -> (Workflow, Vec<String>, Vec<Action>) {
    let mut workflow = workflow;
    let mut output = Vec::new();
    let mut actions = Vec::new();
    for event in events {
        let step = workflow.step(event);
        workflow = step.workflow;
        output.extend(step.output);
        actions.push(step.action);
    }
    (workflow, output, actions)
}

fn confirming(branches: &[&str], head: &str, indices: Vec<usize>) -> Workflow {
    let (workflow, _, actions) =
        drive(Workflow::new(), vec![listed(branches, Some(head)), Event::Selected(indices)]);
    assert_eq!(actions.last(), Some(&confirm()));
    workflow
}

#[test]
fn a_new_run_awaits_the_listing() {
    let workflow = Workflow::new();
    assert_eq!(workflow.phase(), Phase::Listing);
    assert_eq!(workflow.awaited(), Action::List);
    assert!(workflow.deletable().is_empty());
    assert!(workflow.selected().is_empty());
    assert_eq!(workflow.result(), &BatchResult::new());
}

#[test]
fn listing_offers_all_but_the_current_branch() {
    let step = Workflow::new().step(listed(&["main", "feature-a", "feature-b"], Some("main")));
    assert_eq!(step.action, select(&["feature-a", "feature-b"]));
    assert!(step.output.is_empty());
    assert_eq!(step.workflow.phase(), Phase::Selecting);
    assert_eq!(step.workflow.current(), &Some("main".to_string()));
    assert_eq!(step.workflow.deletable(), &strings(&["feature-a", "feature-b"]));
}

#[test]
fn listing_with_detached_head_offers_every_branch() {
    let step = Workflow::new().step(listed(&["main", "feature-a"], None));
    assert_eq!(step.action, select(&["main", "feature-a"]));
    assert_eq!(step.workflow.current(), &None);
    assert_eq!(step.workflow.deletable(), &strings(&["main", "feature-a"]));
}

#[test]
fn listing_with_detached_head_offers_a_branch_named_like_head() {
    let step = Workflow::new().step(listed(&["HEAD", "topic"], None));
    assert_eq!(step.action, select(&["HEAD", "topic"]));
    assert!(step.output.is_empty());
    assert_eq!(step.workflow.phase(), Phase::Selecting);
    assert_eq!(step.workflow.deletable(), &strings(&["HEAD", "topic"]));
}

#[test]
fn listing_with_detached_head_and_only_a_branch_named_like_head_goes_on() {
    let step = Workflow::new().step(listed(&["HEAD"], None));
    assert_eq!(step.action, select(&["HEAD"]));
    assert_eq!(step.workflow.phase(), Phase::Selecting);
    let (workflow, _, actions) = drive(
        step.workflow,
        vec![Event::Selected(vec![0]), Event::Confirmed(true), Event::Attempted(Outcome::Deleted)],
    );
    assert_eq!(actions, vec![confirm(), delete("HEAD"), Action::Stop]);
    assert_eq!(workflow.result().successes(), 1);
}

#[test]
fn listing_with_detached_head_and_no_branch_ends_the_run() {
    let step = Workflow::new().step(listed(&[], None));
    assert_eq!(step.output, strings(&["No branches available for deletion."]));
    assert_eq!(step.action, Action::Stop);
    assert_eq!(step.workflow.phase(), Phase::Finished);
}

#[test]
fn a_current_branch_named_like_head_is_held_back() {
    let step = Workflow::new().step(listed(&["HEAD", "topic"], Some("HEAD")));
    assert_eq!(step.action, select(&["topic"]));
    assert_eq!(step.workflow.current(), &Some("HEAD".to_string()));
}

#[test]
fn nothing_deletable_ends_the_run_without_a_prompt() {
    let step = Workflow::new().step(listed(&["main"], Some("main")));
    assert_eq!(step.output, strings(&["No branches available for deletion."]));
    assert_eq!(step.action, Action::Stop);
    assert_eq!(step.workflow.phase(), Phase::Finished);
}

#[test]
fn an_empty_repository_ends_the_run_without_a_prompt() {
    let step = Workflow::new().step(listed(&[], Some("main")));
    assert_eq!(step.output, strings(&["No branches available for deletion."]));
    assert_eq!(step.action, Action::Stop);
    assert_eq!(step.workflow.phase(), Phase::Finished);
}

#[test]
fn an_empty_selection_ends_the_run_without_confirmation() {
    let (workflow, output, actions) = drive(
        Workflow::new(),
        vec![listed(&["main", "feature-a", "feature-b"], Some("main")), Event::Selected(vec![])],
    );
    assert_eq!(output, strings(&["No branches selected."]));
    assert_eq!(actions, vec![select(&["feature-a", "feature-b"]), Action::Stop]);
    assert_eq!(workflow.phase(), Phase::Finished);
    assert_eq!(workflow.result(), &BatchResult::new());
}

#[test]
fn a_selection_is_shown_in_full_before_the_confirmation() {
    let (workflow, output, actions) = drive(
        Workflow::new(),
        vec![
            listed(&["main", "feature-a", "feature-b", "feature-c"], Some("main")),
            Event::Selected(vec![0, 2]),
        ],
    );
    assert_eq!(
        output,
        strings(&["", "The following branches will be deleted:", "- feature-a", "- feature-c"])
    );
    assert_eq!(actions[1], confirm());
    assert_eq!(workflow.phase(), Phase::Confirming);
    assert_eq!(workflow.selected(), &strings(&["feature-a", "feature-c"]));
}

#[test]
fn a_selection_outside_the_offer_is_not_taken() {
    let offered = Workflow::new().step(listed(&["main", "a", "b"], Some("main"))).workflow;
    let step = offered.step(Event::Selected(vec![0, 2]));
    assert_eq!(step.action, select(&["a", "b"]));
    assert!(step.output.is_empty());
    assert_eq!(step.workflow.phase(), Phase::Selecting);
    assert!(step.workflow.selected().is_empty());
}

#[test]
fn both_selected_and_confirmed_and_deleted() {
    let (workflow, output, actions) = drive(
        Workflow::new(),
        vec![
            listed(&["main", "feature-a", "feature-b"], Some("main")),
            Event::Selected(vec![0, 1]),
            Event::Confirmed(true),
            Event::Attempted(Outcome::Deleted),
            Event::Attempted(Outcome::Deleted),
        ],
    );
    assert_eq!(
        actions,
        vec![
            select(&["feature-a", "feature-b"]),
            confirm(),
            delete("feature-a"),
            delete("feature-b"),
            Action::Stop,
        ]
    );
    assert_eq!(
        output,
        strings(&[
            "",
            "The following branches will be deleted:",
            "- feature-a",
            "- feature-b",
            "Deleted 'feature-a'",
            "Deleted 'feature-b'",
            "",
            "Results:",
            "Success: 2 branch(es)",
        ])
    );
    assert_eq!(workflow.phase(), Phase::Finished);
    assert_eq!(workflow.result().successes(), 2);
    assert!(workflow.result().failures().is_empty());
}

#[test]
fn one_selected_and_declined() {
    let (workflow, output, actions) = drive(
        Workflow::new(),
        vec![
            listed(&["main", "feature-a", "feature-b"], Some("main")),
            Event::Selected(vec![0]),
            Event::Confirmed(false),
        ],
    );
    assert_eq!(actions, vec![select(&["feature-a", "feature-b"]), confirm(), Action::Stop]);
    assert_eq!(
        output,
        strings(&[
            "",
            "The following branches will be deleted:",
            "- feature-a",
            "Operation cancelled.",
        ])
    );
    assert_eq!(workflow.phase(), Phase::Finished);
    assert_eq!(workflow.result(), &BatchResult::new());
}

#[test]
fn second_deletion_fails() {
    let (workflow, output, actions) = drive(
        Workflow::new(),
        vec![
            listed(&["main", "feature-a", "feature-b"], Some("main")),
            Event::Selected(vec![0, 1]),
            Event::Confirmed(true),
            Event::Attempted(Outcome::Deleted),
            failed("branch 'feature-b' is not fully merged"),
        ],
    );
    assert_eq!(actions[2..], [delete("feature-a"), delete("feature-b"), Action::Stop]);
    assert_eq!(
        output[4..],
        strings(&[
            "Deleted 'feature-a'",
            "Failed to delete 'feature-b'",
            "",
            "Results:",
            "Success: 1 branch(es)",
            "Failed: 1 branch(es)",
            "",
            "Error details:",
            "- feature-b: branch 'feature-b' is not fully merged",
        ])
    );
    assert_eq!(workflow.phase(), Phase::Finished);
    assert_eq!(workflow.result().successes(), 1);
    assert_eq!(
        workflow.result().failures(),
        &vec![Failure {
            name: "feature-b".to_string(),
            reason: "branch 'feature-b' is not fully merged".to_string(),
        }]
    );
}

#[test]
fn a_failure_does_not_stop_the_batch_wherever_it_stands() {
    let names = ["a", "b", "c", "d"];
    for failing in 0..names.len() {
        let start = confirming(&["main", "a", "b", "c", "d"], "main", vec![0, 1, 2, 3]);
        let mut events = vec![Event::Confirmed(true)];
        for i in 0..names.len() {
            events.push(if i == failing { failed("refused") } else {
                Event::Attempted(Outcome::Deleted)
            });
        }
        let (workflow, output, actions) = drive(start, events);
        assert_eq!(
            actions,
            vec![delete("a"), delete("b"), delete("c"), delete("d"), Action::Stop]
        );
        assert_eq!(workflow.result().successes(), names.len() - 1);
        assert_eq!(
            workflow.result().failures(),
            &vec![Failure { name: names[failing].to_string(), reason: "refused".to_string() }]
        );
        for (i, name) in names.iter().enumerate() {
            let notice = if i == failing {
                format!("Failed to delete '{}'", name)
            } else {
                format!("Deleted '{}'", name)
            };
            assert_eq!(output[i], notice);
        }
        assert_eq!(output[names.len() + 2], "Success: 3 branch(es)");
        assert_eq!(output[names.len() + 3], "Failed: 1 branch(es)");
        assert_eq!(output[names.len() + 6], format!("- {}: refused", names[failing]));
        assert_eq!(output.len(), names.len() + 7);
    }
}

#[test]
fn every_deletion_may_fail() {
    let start = confirming(&["main", "a", "b"], "main", vec![0, 1]);
    let (workflow, output, actions) =
        drive(start, vec![Event::Confirmed(true), failed("first"), failed("second")]);
    assert_eq!(actions, vec![delete("a"), delete("b"), Action::Stop]);
    assert_eq!(workflow.result().successes(), 0);
    assert_eq!(workflow.result().failures().len(), 2);
    assert_eq!(
        output,
        strings(&[
            "Failed to delete 'a'",
            "Failed to delete 'b'",
            "",
            "Results:",
            "Success: 0 branch(es)",
            "Failed: 2 branch(es)",
            "",
            "Error details:",
            "- a: first",
            "- b: second",
        ])
    );
}

#[test]
fn deletions_follow_the_order_of_the_selection() {
    let start = confirming(&["main", "a", "b", "c"], "main", vec![2, 0]);
    assert_eq!(start.selected(), &strings(&["c", "a"]));
    let (_, output, actions) = drive(
        start,
        vec![Event::Confirmed(true), Event::Attempted(Outcome::Deleted), failed("no")],
    );
    assert_eq!(actions, vec![delete("c"), delete("a"), Action::Stop]);
    assert_eq!(output[0], "Deleted 'c'");
    assert_eq!(output[1], "Failed to delete 'a'");
}

#[test]
fn the_summary_comes_once_after_the_last_notice() {
    let start = confirming(&["main", "a", "b", "c"], "main", vec![0, 1, 2]);
    let step = start.step(Event::Confirmed(true));
    assert!(step.output.is_empty());
    let step = step.workflow.step(Event::Attempted(Outcome::Deleted));
    assert_eq!(step.output, strings(&["Deleted 'a'"]));
    let step = step.workflow.step(failed("no"));
    assert_eq!(step.output, strings(&["Failed to delete 'b'"]));
    let step = step.workflow.step(Event::Attempted(Outcome::Deleted));
    assert_eq!(
        step.output,
        strings(&[
            "Deleted 'c'",
            "",
            "Results:",
            "Success: 2 branch(es)",
            "Failed: 1 branch(es)",
            "",
            "Error details:",
            "- b: no",
        ])
    );
    assert_eq!(step.action, Action::Stop);
}

#[test]
fn the_current_branch_is_never_asked_to_be_deleted() {
    let (_, _, actions) = drive(
        Workflow::new(),
        vec![
            listed(&["a", "main", "b"], Some("main")),
            Event::Selected(vec![0, 1]),
            Event::Confirmed(true),
            Event::Attempted(Outcome::Deleted),
            Event::Attempted(Outcome::Deleted),
        ],
    );
    assert!(!actions.contains(&delete("main")));
    assert_eq!(actions[2..], [delete("a"), delete("b"), Action::Stop]);
}

#[test]
fn an_event_that_is_not_awaited_changes_nothing() {
    let step = Workflow::new().step(Event::Confirmed(true));
    assert_eq!(
        step,
        Step { workflow: Workflow::new(), output: Vec::new(), action: Action::List }
    );
    let step = Workflow::new().step(Event::Attempted(Outcome::Deleted));
    assert_eq!(step.action, Action::List);
    assert_eq!(step.workflow.result(), &BatchResult::new());

    let start = confirming(&["main", "a"], "main", vec![0]);
    let step = start.step(Event::Attempted(Outcome::Deleted));
    assert_eq!(step.action, confirm());
    assert!(step.output.is_empty());
    assert_eq!(step.workflow.phase(), Phase::Confirming);
    assert_eq!(step.workflow.result(), &BatchResult::new());

    let step = step.workflow.step(listed(&["x", "y"], Some("x")));
    assert_eq!(step.action, confirm());
    assert_eq!(step.workflow.deletable(), &strings(&["a"]));
}

#[test]
fn while_deleting_the_pending_deletion_is_asked_again() {
    let start = confirming(&["main", "a", "b"], "main", vec![0, 1]);
    let step = start.step(Event::Confirmed(true));
    assert_eq!(step.workflow.awaited(), delete("a"));
    let step = step.workflow.step(Event::Confirmed(true));
    assert_eq!(step.action, delete("a"));
    assert!(step.output.is_empty());
    let step = step.workflow.step(Event::Attempted(Outcome::Deleted));
    assert_eq!(step.action, delete("b"));
    assert_eq!(step.workflow.awaited(), delete("b"));
    let step = step.workflow.step(Event::Selected(vec![0]));
    assert_eq!(step.action, delete("b"));
    assert_eq!(step.workflow.result().successes(), 1);
}

#[test]
fn a_finished_run_only_stops() {
    let start = confirming(&["main", "a"], "main", vec![0]);
    let finished = start.step(Event::Confirmed(false)).workflow;
    let (workflow, output, actions) = drive(
        finished,
        vec![
            Event::Confirmed(true),
            Event::Attempted(Outcome::Deleted),
            Event::Selected(vec![0]),
            listed(&["main", "a"], Some("main")),
            failed("late"),
        ],
    );
    assert!(output.is_empty());
    assert_eq!(
        actions,
        vec![Action::Stop, Action::Stop, Action::Stop, Action::Stop, Action::Stop]
    );
    assert_eq!(workflow.phase(), Phase::Finished);
    assert_eq!(workflow.awaited(), Action::Stop);
    assert_eq!(workflow.result(), &BatchResult::new());
}

#[test]
fn the_awaited_action_follows_the_phase() {
    let workflow = Workflow::new();
    assert_eq!(workflow.awaited(), Action::List);
    let workflow = workflow.step(listed(&["main", "a", "b"], Some("main"))).workflow;
    assert_eq!(workflow.awaited(), select(&["a", "b"]));
    let workflow = workflow.step(Event::Selected(vec![1])).workflow;
    assert_eq!(workflow.awaited(), confirm());
    let workflow = workflow.step(Event::Confirmed(true)).workflow;
    assert_eq!(workflow.awaited(), delete("b"));
    let workflow = workflow.step(Event::Attempted(Outcome::Deleted)).workflow;
    assert_eq!(workflow.awaited(), Action::Stop);
}

#[test]
fn the_same_branch_selected_twice_is_attempted_twice() {
    let start = confirming(&["main", "a"], "main", vec![0, 0]);
    let (workflow, _, actions) = drive(
        start,
        vec![Event::Confirmed(true), Event::Attempted(Outcome::Deleted), failed("already gone")],
    );
    assert_eq!(actions, vec![delete("a"), delete("a"), Action::Stop]);
    assert_eq!(workflow.result().successes() + workflow.result().failures().len(), 2);
}

#[test]
fn the_same_events_lead_to_the_same_run() {
    let events = || {
        vec![
            listed(&["main", "a", "b"], Some("main")),
            Event::Selected(vec![1, 0]),
            Event::Confirmed(true),
            failed("x"),
            Event::Attempted(Outcome::Deleted),
        ]
    };
    assert_eq!(drive(Workflow::new(), events()), drive(Workflow::new(), events()));
}

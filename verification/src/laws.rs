//! What holds of every run.

use vstd::prelude::*;
use crate::batch::{
    lemma_tally_accounts_for_every_attempt, lemma_tally_single_failure, tally, FailureView,
    OutcomeView, Tally,
};
use crate::candidates::{lemma_current_is_never_deletable, offered, Name};
use crate::report::{cancelled_text, no_candidates_text, nothing_selected_text, summary, Line};
use crate::workflow::{ActionView, EventView, Machine, Phase, Trace};

verus! {

/// The events of a batch: one attempt for each outcome, in order.
pub open spec fn attempts(outcomes: Seq<OutcomeView>) -> Seq<EventView> {
    Seq::new(outcomes.len(), |k: int| EventView::Attempted(outcomes[k]))
}

/// The notices of a batch: one for each outcome, in order, each naming the
/// branch that was attempted.
pub open spec fn notices(names: Seq<Name>, outcomes: Seq<OutcomeView>) -> Seq<Line> {
    Seq::new(outcomes.len(), |k: int| Machine::notice(names[k], outcomes[k]))
}

/// The deletions of branches `from` to `to - 1` of `names`, in order.
pub open spec fn deletions(names: Seq<Name>, from: int, to: int) -> Seq<ActionView> {
    Seq::new((to - from) as nat, |k: int| ActionView::Delete { branch: names[from + k] })
}

/// A run begins in a state that a run can reach.
pub proof fn lemma_initial_is_well_formed()
    ensures
        Machine::initial().wf(),
{
}

/// No event leads out of the states that a run can reach.
pub proof fn lemma_step_keeps_well_formed(machine: Machine, event: EventView)
    requires
        machine.wf(),
    ensures
        machine.step(event).next.wf(),
{
    if machine.awaits(event) {
        match event {
            EventView::Listed { branches, head } => {
                if let Some(current) = head {
                    lemma_current_is_never_deletable(branches, current);
                }
            },
            EventView::Selected(indices) => {
                let selected = machine.chosen(indices);
                assert forall|k: int| 0 <= k < selected.len() implies machine.deletable.contains(
                    #[trigger] selected[k],
                ) by {
                    assert(machine.deletable[indices[k] as int] == selected[k]);
                }
            },
            EventView::Confirmed(_) => {},
            EventView::Attempted(_) => {},
        }
    }
}

/// A run only moves forward: no event leads back to an earlier phase.
pub proof fn lemma_phases_only_advance(machine: Machine, event: EventView)
    ensures
        machine.phase.rank() <= machine.step(event).next.phase.rank(),
{
}

/// The deletable branches are a snapshot: once the listing is in, no event
/// changes them, nor which branch is the current one.
pub proof fn lemma_snapshot_is_kept(machine: Machine, event: EventView)
    requires
        machine.phase != Phase::Listing,
    ensures
        machine.step(event).next.deletable == machine.deletable,
        machine.step(event).next.current == machine.current,
{
}

/// Once the selection is made, no event changes it.
pub proof fn lemma_selection_is_kept(machine: Machine, event: EventView)
    requires
        machine.phase != Phase::Listing,
        machine.phase != Phase::Selecting,
    ensures
        machine.step(event).next.selected == machine.selected,
{
}

/// The branch that the machine asks to delete is always one of the branches
/// that were offered, and never the current branch.
pub proof fn lemma_current_branch_is_never_deleted(machine: Machine, event: EventView)
    requires
        machine.wf(),
    ensures
        machine.step(event).action matches ActionView::Delete { branch } ==> {
            &&& machine.current != Some(branch)
            &&& machine.deletable.contains(branch)
            &&& machine.selected.contains(branch)
        },
{
    let step = machine.step(event);
    if let ActionView::Delete { branch } = step.action {
        let at = if machine.awaits(event) {
            step.next.tally.attempts() as int
        } else {
            machine.tally.attempts() as int
        };
        assert(machine.selected[at] == branch);
    }
}

/// A finished run stays finished: whatever is reported to it, it shows
/// nothing, changes nothing and asks for nothing.
pub proof fn lemma_finished_is_final(machine: Machine, events: Seq<EventView>)
    requires
        machine.phase == Phase::Finished,
    ensures
        machine.run(events).last == machine,
        machine.run(events).output == Seq::<Line>::empty(),
        machine.run(events).actions.len() == events.len(),
        forall|k: int|
            0 <= k < events.len() ==> #[trigger] machine.run(events).actions[k] == ActionView::Stop,
    decreases events.len(),
{
    if events.len() > 0 {
        lemma_finished_is_final(machine, events.drop_last());
    }
}

/// Where no branch is deletable, the run reports so and ends at once: the
/// operator is asked nothing, then or later.
pub proof fn lemma_nothing_deletable_ends_the_run(
    branches: Seq<Name>,
    head: Option<Name>,
    later: Seq<EventView>,
)
    requires
        offered(branches, head).len() == 0,
    ensures
        ({
            let step = Machine::initial().step(EventView::Listed { branches, head });
            &&& step.output == seq![no_candidates_text()]
            &&& step.action == ActionView::Stop
            &&& step.next.phase == Phase::Finished
            &&& forall|k: int|
                0 <= k < later.len() ==> #[trigger] step.next.run(later).actions[k]
                    == ActionView::Stop
        }),
{
    let step = Machine::initial().step(EventView::Listed { branches, head });
    lemma_finished_is_final(step.next, later);
}

/// Where the operator selects nothing, the run reports so and ends at once:
/// no confirmation is asked and nothing is deleted, then or later.
pub proof fn lemma_nothing_selected_ends_the_run(machine: Machine, later: Seq<EventView>)
    requires
        machine.wf(),
        machine.phase == Phase::Selecting,
    ensures
        ({
            let step = machine.step(EventView::Selected(Seq::empty()));
            &&& step.output == seq![nothing_selected_text()]
            &&& step.action == ActionView::Stop
            &&& step.next.phase == Phase::Finished
            &&& step.next.tally == Tally::empty()
            &&& forall|k: int|
                0 <= k < later.len() ==> #[trigger] step.next.run(later).actions[k]
                    == ActionView::Stop
        }),
{
    let step = machine.step(EventView::Selected(Seq::empty()));
    lemma_finished_is_final(step.next, later);
}

/// Where the operator declines the confirmation, the run reports so and ends
/// at once: no deletion is asked for, then or later, for any selected branch.
pub proof fn lemma_declined_confirmation_deletes_nothing(machine: Machine, later: Seq<EventView>)
    requires
        machine.wf(),
        machine.phase == Phase::Confirming,
    ensures
        ({
            let step = machine.step(EventView::Confirmed(false));
            &&& step.output == seq![cancelled_text()]
            &&& step.action == ActionView::Stop
            &&& step.next.phase == Phase::Finished
            &&& step.next.tally == Tally::empty()
            &&& forall|k: int|
                0 <= k < later.len() ==> #[trigger] step.next.run(later).actions[k]
                    == ActionView::Stop
        }),
{
    let step = machine.step(EventView::Confirmed(false));
    lemma_finished_is_final(step.next, later);
}

/// While a batch is under way, every outcome reported leads to the deletion
/// of the next selected branch: after `n` outcomes, fewer than there are
/// selected branches, the machine has tallied them, shown their notices and
/// asked for the deletion of branches `1` to `n`.
pub proof fn lemma_batch_goes_on(machine: Machine, outcomes: Seq<OutcomeView>)
    requires
        machine.wf(),
        machine.phase == Phase::Deleting,
        machine.tally == Tally::empty(),
        outcomes.len() < machine.selected.len(),
    ensures
        machine.run(attempts(outcomes)) == (Trace {
            last: Machine { tally: tally(machine.selected, outcomes), ..machine },
            output: notices(machine.selected, outcomes),
            actions: deletions(machine.selected, 1, outcomes.len() as int + 1),
        }),
    decreases outcomes.len(),
{
    let names = machine.selected;
    let trace = machine.run(attempts(outcomes));
    if outcomes.len() == 0 {
        assert(trace.last =~= Machine { tally: tally(names, outcomes), ..machine });
        assert(trace.output =~= notices(names, outcomes));
        assert(trace.actions =~= deletions(names, 1, 1));
    } else {
        let earlier = outcomes.drop_last();
        lemma_batch_goes_on(machine, earlier);
        lemma_tally_accounts_for_every_attempt(names, earlier);
        lemma_tally_accounts_for_every_attempt(names, outcomes);
        assert(attempts(outcomes).drop_last() =~= attempts(earlier));
        assert(attempts(outcomes).last() == EventView::Attempted(outcomes.last()));
        let before = machine.run(attempts(earlier));
        let step = before.last.step(EventView::Attempted(outcomes.last()));
        assert(step.next =~= Machine { tally: tally(names, outcomes), ..machine });
        assert(trace.last =~= Machine { tally: tally(names, outcomes), ..machine });
        assert(trace.output =~= notices(names, outcomes));
        assert(trace.actions =~= deletions(names, 1, outcomes.len() as int + 1));
    }
}

/// Once the confirmation is granted, every selected branch is attempted, in
/// the order of the selection, whatever came of the ones before: the machine
/// asks for the deletion of each of them in turn and then stops. By then it
/// has tallied every outcome, so that successes and failures together are as
/// many as the selected branches, and it has shown one notice for each
/// attempt and, after the last one, the summary.
pub proof fn lemma_batch_attempts_every_selected_branch(
    machine: Machine,
    outcomes: Seq<OutcomeView>,
)
    requires
        machine.wf(),
        machine.phase == Phase::Confirming,
        outcomes.len() == machine.selected.len(),
    ensures
        ({
            let granted = machine.step(EventView::Confirmed(true));
            let batch = granted.next.run(attempts(outcomes));
            let result = tally(machine.selected, outcomes);
            &&& granted.output == Seq::<Line>::empty()
            &&& seq![granted.action] + batch.actions == deletions(
                machine.selected,
                0,
                machine.selected.len() as int,
            ).push(ActionView::Stop)
            &&& batch.output == notices(machine.selected, outcomes) + summary(result)
            &&& batch.last == Machine { phase: Phase::Finished, tally: result, ..machine }
            &&& result.attempts() == machine.selected.len()
        }),
{
    let names = machine.selected;
    let granted = machine.step(EventView::Confirmed(true));
    let start = granted.next;
    let batch = start.run(attempts(outcomes));
    let result = tally(names, outcomes);
    let earlier = outcomes.drop_last();
    lemma_batch_goes_on(start, earlier);
    lemma_tally_accounts_for_every_attempt(names, earlier);
    lemma_tally_accounts_for_every_attempt(names, outcomes);
    assert(attempts(outcomes).drop_last() =~= attempts(earlier));
    assert(attempts(outcomes).last() == EventView::Attempted(outcomes.last()));
    let before = start.run(attempts(earlier));
    let step = before.last.step(EventView::Attempted(outcomes.last()));
    assert(step.next =~= Machine { phase: Phase::Finished, tally: result, ..machine });
    assert(batch.last =~= Machine { phase: Phase::Finished, tally: result, ..machine });
    assert(batch.output =~= notices(names, outcomes) + summary(result));
    assert(seq![granted.action] + batch.actions =~= deletions(names, 0, names.len() as int).push(
        ActionView::Stop,
    ));
}

/// One failure does not stop a batch. Where the deletion of branch `i` fails
/// and the deletions of all other selected branches succeed, wherever `i`
/// stands in the selection: every selected branch is still attempted, all
/// the others are counted as successes, and the one failure listed names
/// branch `i` with its reason.
pub proof fn lemma_one_failure_spares_the_rest(
    machine: Machine,
    outcomes: Seq<OutcomeView>,
    i: int,
)
    requires
        machine.wf(),
        machine.phase == Phase::Confirming,
        outcomes.len() == machine.selected.len(),
        0 <= i < outcomes.len(),
        outcomes[i] is Failed,
        forall|j: int| 0 <= j < outcomes.len() && j != i ==> outcomes[j] is Deleted,
    ensures
        ({
            let granted = machine.step(EventView::Confirmed(true));
            let batch = granted.next.run(attempts(outcomes));
            &&& seq![granted.action] + batch.actions == deletions(
                machine.selected,
                0,
                machine.selected.len() as int,
            ).push(ActionView::Stop)
            &&& batch.last.phase == Phase::Finished
            &&& batch.last.tally.successes == machine.selected.len() - 1
            &&& batch.last.tally.failures == seq![
                FailureView { name: machine.selected[i], reason: outcomes[i]->Failed_0 },
            ]
        }),
{
    lemma_batch_attempts_every_selected_branch(machine, outcomes);
    lemma_tally_single_failure(machine.selected, outcomes, i);
}

} // verus!

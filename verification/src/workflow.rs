//! The run as a state machine.
//!
//! A run lists the local branches, offers all but the current one for
//! selection, asks once for confirmation and then attempts each selected
//! branch in turn, whatever came of the one before. The machine decides; a
//! driver acts. The driver performs the [`Action`] that the machine asks for
//! and reports what happened as an [`Event`]; [`Workflow::step`] answers with
//! the lines to show and the next action. [`Action::Stop`] ends the run.
//!
//! The machine rests only where it waits for the driver. Filtering the
//! listing and summing up the batch need nothing from outside, so they are
//! part of the steps that take the listing and the last outcome.
//!
//! An event that the machine is not waiting for changes nothing: the machine
//! answers with the action it still awaits. The same holds of a selection
//! that points outside the branches on offer.

use vstd::prelude::*;
use crate::batch::{BatchResult, Outcome, OutcomeView, Tally};
use crate::candidates::{
    lemma_current_is_never_deletable, offered, offered_candidates, Name,
};
use crate::report::{
    announcement, announcement_lines, cancelled_text, confirmation_prompt,
    confirmation_prompt_text, deleted_notice, deleted_notice_string, failed_notice,
    failed_notice_string, no_candidates_text, nothing_selected_text, selection_prompt,
    selection_prompt_text, summary, summary_lines, Line,
};

verus! {

/// Where a run stands.
#[derive(Debug, Clone, Copy, PartialEq, Eq, Structural)]
pub enum Phase {
    /// The local branches and the current branch are being read.
    Listing,
    /// The operator is choosing among the deletable branches.
    Selecting,
    /// The operator is looking over the selection before confirming it.
    Confirming,
    /// The selected branches are being deleted, one at a time.
    Deleting,
    /// The run is over.
    Finished,
}

impl Phase {
    /// The place of the phase in the course of a run.
    pub open spec fn rank(self) -> nat {
        match self {
            Phase::Listing => 0,
            Phase::Selecting => 1,
            Phase::Confirming => 2,
            Phase::Deleting => 3,
            Phase::Finished => 4,
        }
    }
}

/// What the driver reports to the machine.
#[derive(Debug, PartialEq, Eq)]
pub enum Event {
    /// The repository was read: its local branches, in the order of the
    /// backend, and the name of the branch that `HEAD` points at; `None`
    /// where it points at no branch, or at one whose name cannot be read.
    Listed { branches: Vec<String>, head: Option<String> },
    /// The operator chose the branches at these positions among the items
    /// offered.
    Selected(Vec<usize>),
    /// The operator answered the confirmation.
    Confirmed(bool),
    /// The deletion that was asked for ended.
    Attempted(Outcome),
}

/// An [`Event`] as the contracts see it.
pub enum EventView {
    Listed { branches: Seq<Name>, head: Option<Name> },
    Selected(Seq<usize>),
    Confirmed(bool),
    Attempted(OutcomeView),
}

impl View for Event {
    type V = EventView;

    open spec fn view(&self) -> EventView {
        match self {
            Event::Listed { branches, head } => EventView::Listed {
                branches: branches.deep_view(),
                head: head.deep_view(),
            },
            Event::Selected(indices) => EventView::Selected(indices@),
            Event::Confirmed(yes) => EventView::Confirmed(*yes),
            Event::Attempted(outcome) => EventView::Attempted(outcome@),
        }
    }
}

/// What the machine asks the driver to do.
#[derive(Debug, PartialEq, Eq)]
pub enum Action {
    /// Read the local branches and the current branch; answer with
    /// [`Event::Listed`].
    List,
    /// Let the operator choose any number of `items`, under this prompt;
    /// answer with [`Event::Selected`].
    Select { prompt: String, items: Vec<String> },
    /// Ask the operator once, with this prompt, whether to go ahead, and
    /// suggest `default` as the answer; answer with [`Event::Confirmed`].
    Confirm { prompt: String, default: bool },
    /// Delete this one local branch; answer with [`Event::Attempted`].
    Delete { branch: String },
    /// Nothing is left to do: the run ends, and it ends well.
    Stop,
}

/// An [`Action`] as the contracts see it.
pub enum ActionView {
    List,
    Select { prompt: Line, items: Seq<Name> },
    Confirm { prompt: Line, default: bool },
    Delete { branch: Name },
    Stop,
}

impl View for Action {
    type V = ActionView;

    open spec fn view(&self) -> ActionView {
        match self {
            Action::List => ActionView::List,
            Action::Select { prompt, items } => ActionView::Select {
                prompt: prompt@,
                items: items.deep_view(),
            },
            Action::Confirm { prompt, default } => ActionView::Confirm {
                prompt: prompt@,
                default: *default,
            },
            Action::Delete { branch } => ActionView::Delete { branch: branch@ },
            Action::Stop => ActionView::Stop,
        }
    }
}

/// The state of a run, as the contracts see it.
#[verifier::ext_equal]
pub struct Machine {
    pub phase: Phase,
    /// The current branch, once listed, if there is one.
    pub current: Option<Name>,
    /// The branches offered for deletion: a snapshot, taken once.
    pub deletable: Seq<Name>,
    /// The branches that the operator chose, in the order of the selection.
    pub selected: Seq<Name>,
    /// What came of the deletions attempted so far.
    pub tally: Tally,
}

/// What one event leads to: the next state, the lines to show, in order, and
/// the action to perform after showing them.
#[verifier::ext_equal]
pub struct Transition {
    pub next: Machine,
    pub output: Seq<Line>,
    pub action: ActionView,
}

impl Machine {
    /// The state in which every run begins.
    pub open spec fn initial() -> Machine {
        Machine {
            phase: Phase::Listing,
            current: None,
            deletable: Seq::empty(),
            selected: Seq::empty(),
            tally: Tally::empty(),
        }
    }

    /// What holds of every state that a run can reach.
    pub open spec fn wf(self) -> bool {
        &&& self.current matches Some(current) ==> !self.deletable.contains(current)
        &&& forall|k: int|
            0 <= k < self.selected.len() ==> self.deletable.contains(#[trigger] self.selected[k])
        &&& match self.phase {
            Phase::Listing => self.deletable.len() == 0 && self.selected.len() == 0 && self.tally
                == Tally::empty(),
            Phase::Selecting => self.deletable.len() > 0 && self.selected.len() == 0 && self.tally
                == Tally::empty(),
            Phase::Confirming => self.selected.len() > 0 && self.tally == Tally::empty(),
            Phase::Deleting => self.tally.attempts() < self.selected.len(),
            Phase::Finished => self.tally == Tally::empty() || self.tally.attempts()
                == self.selected.len(),
        }
    }

    /// The selection among `items`.
    pub open spec fn select(items: Seq<Name>) -> ActionView {
        ActionView::Select { prompt: selection_prompt_text(), items }
    }

    /// The confirmation. The answer that it suggests is "no".
    pub open spec fn confirm() -> ActionView {
        ActionView::Confirm { prompt: confirmation_prompt_text(), default: false }
    }

    /// The action whose result the machine is waiting for.
    pub open spec fn awaited(self) -> ActionView {
        match self.phase {
            Phase::Listing => ActionView::List,
            Phase::Selecting => Self::select(self.deletable),
            Phase::Confirming => Self::confirm(),
            Phase::Deleting => ActionView::Delete {
                branch: self.selected[self.tally.attempts() as int],
            },
            Phase::Finished => ActionView::Stop,
        }
    }

    /// Every position of the selection points at an offered branch.
    pub open spec fn offers(self, indices: Seq<usize>) -> bool {
        forall|k: int| 0 <= k < indices.len() ==> (#[trigger] indices[k]) < self.deletable.len()
    }

    /// The branches at the selected positions, in the order of the selection.
    pub open spec fn chosen(self, indices: Seq<usize>) -> Seq<Name> {
        Seq::new(indices.len(), |k: int| self.deletable[indices[k] as int])
    }

    /// The event answers the action that the machine awaits.
    pub open spec fn awaits(self, event: EventView) -> bool {
        match (self.phase, event) {
            (Phase::Listing, EventView::Listed { .. }) => true,
            (Phase::Selecting, EventView::Selected(indices)) => self.offers(indices),
            (Phase::Confirming, EventView::Confirmed(_)) => true,
            (Phase::Deleting, EventView::Attempted(_)) => true,
            _ => false,
        }
    }

    /// The end of the run, with a last report.
    pub open spec fn finish(self, report: Line) -> Transition {
        Transition {
            next: Machine { phase: Phase::Finished, ..self },
            output: seq![report],
            action: ActionView::Stop,
        }
    }

    /// After listing: without a deletable branch the run ends; otherwise the
    /// deletable branches are offered for selection.
    pub open spec fn listed(self, branches: Seq<Name>, head: Option<Name>) -> Transition {
        let candidates = offered(branches, head);
        let next = Machine { current: head, deletable: candidates, ..self };
        if candidates.len() == 0 {
            next.finish(no_candidates_text())
        } else {
            Transition {
                next: Machine { phase: Phase::Selecting, ..next },
                output: Seq::empty(),
                action: Self::select(candidates),
            }
        }
    }

    /// After selecting: without a selected branch the run ends; otherwise the
    /// selection is shown in full and the confirmation asked.
    pub open spec fn chose(self, indices: Seq<usize>) -> Transition {
        if indices.len() == 0 {
            self.finish(nothing_selected_text())
        } else {
            let selected = self.chosen(indices);
            Transition {
                next: Machine { phase: Phase::Confirming, selected, ..self },
                output: announcement(selected),
                action: Self::confirm(),
            }
        }
    }

    /// After the confirmation: declined, the run ends and nothing is
    /// deleted; granted, the first selected branch is to be deleted.
    pub open spec fn confirmed(self, yes: bool) -> Transition {
        if yes {
            Transition {
                next: Machine { phase: Phase::Deleting, ..self },
                output: Seq::empty(),
                action: ActionView::Delete { branch: self.selected[0] },
            }
        } else {
            self.finish(cancelled_text())
        }
    }

    /// The notice of one attempt.
    pub open spec fn notice(branch: Name, outcome: OutcomeView) -> Line {
        match outcome {
            OutcomeView::Deleted => deleted_notice(branch),
            OutcomeView::Failed(_) => failed_notice(branch),
        }
    }

    /// After an attempt: the outcome is tallied and noticed; then the next
    /// selected branch is to be deleted, whatever the outcome was, or, after
    /// the last one, the summary follows and the run ends.
    pub open spec fn attempted(self, outcome: OutcomeView) -> Transition {
        let branch = self.selected[self.tally.attempts() as int];
        let tally = self.tally.record(branch, outcome);
        let notice = seq![Self::notice(branch, outcome)];
        if tally.attempts() < self.selected.len() {
            Transition {
                next: Machine { tally, ..self },
                output: notice,
                action: ActionView::Delete { branch: self.selected[tally.attempts() as int] },
            }
        } else {
            Transition {
                next: Machine { phase: Phase::Finished, tally, ..self },
                output: notice + summary(tally),
                action: ActionView::Stop,
            }
        }
    }

    /// What `event` leads to in this state.
    pub open spec fn step(self, event: EventView) -> Transition {
        if !self.awaits(event) {
            Transition { next: self, output: Seq::empty(), action: self.awaited() }
        } else {
            match event {
                EventView::Listed { branches, head } => self.listed(branches, head),
                EventView::Selected(indices) => self.chose(indices),
                EventView::Confirmed(yes) => self.confirmed(yes),
                EventView::Attempted(outcome) => self.attempted(outcome),
            }
        }
    }
}

/// What a sequence of events leads to: the state after the last one, and all
/// the lines and all the actions that the machine answered with, in order.
#[verifier::ext_equal]
pub struct Trace {
    pub last: Machine,
    pub output: Seq<Line>,
    pub actions: Seq<ActionView>,
}

impl Machine {
    /// What `events`, taken one after the other, lead to from this state.
    pub open spec fn run(self, events: Seq<EventView>) -> Trace
        decreases events.len(),
    {
        if events.len() == 0 {
            Trace { last: self, output: Seq::empty(), actions: Seq::empty() }
        } else {
            let before = self.run(events.drop_last());
            let step = before.last.step(events.last());
            Trace {
                last: step.next,
                output: before.output + step.output,
                actions: before.actions.push(step.action),
            }
        }
    }
}

/// A run in progress.
#[derive(Debug, PartialEq, Eq)]
pub struct Workflow {
    phase: Phase,
    current: Option<String>,
    deletable: Vec<String>,
    selected: Vec<String>,
    result: BatchResult,
}

impl View for Workflow {
    type V = Machine;

    closed spec fn view(&self) -> Machine {
        Machine {
            phase: self.phase,
            current: self.current.deep_view(),
            deletable: self.deletable.deep_view(),
            selected: self.selected.deep_view(),
            tally: self.result@,
        }
    }
}

/// The answer of the machine to one event.
#[derive(Debug, PartialEq, Eq)]
pub struct Step {
    /// The run, one event later.
    pub workflow: Workflow,
    /// The lines to show, in order, before anything else is done.
    pub output: Vec<String>,
    /// What to do next.
    pub action: Action,
}

impl View for Step {
    type V = Transition;

    open spec fn view(&self) -> Transition {
        Transition {
            next: self.workflow@,
            output: self.output.deep_view(),
            action: self.action@,
        }
    }
}

impl Workflow {
    #[verifier::type_invariant]
    spec fn well_formed(self) -> bool {
        self@.wf()
    }

    /// A run that has not begun: it awaits the listing.
    pub fn new() -> (workflow: Workflow)
        ensures
            workflow@ == Machine::initial(),
            workflow@.wf(),
    {
        let workflow = Workflow {
            phase: Phase::Listing,
            current: None,
            deletable: Vec::new(),
            selected: Vec::new(),
            result: BatchResult::new(),
        };
        assert(workflow.deletable.deep_view() =~= Seq::<Name>::empty());
        assert(workflow.selected.deep_view() =~= Seq::<Name>::empty());
        workflow
    }

    /// The action whose result the run is waiting for.
    pub fn awaited(&self) -> (action: Action)
        ensures
            action@ == self@.awaited(),
    {
        proof {
            use_type_invariant(self);
        }
        match self.phase {
            Phase::Listing => Action::List,
            Phase::Selecting => select(copy_names(&self.deletable)),
            Phase::Confirming => confirm(),
            Phase::Deleting => {
                let at = self.attempts();
                Action::Delete { branch: self.selected[at].clone() }
            },
            Phase::Finished => Action::Stop,
        }
    }

    /// Takes the run one event further. The run that comes back is again in
    /// a state that a run can reach.
    pub fn step(self, event: Event) -> (step: Step)
        ensures
            step@ == self@.step(event@),
            self@.wf(),
            step.workflow@.wf(),
    {
        proof {
            use_type_invariant(&self);
        }
        match event {
            Event::Listed { branches, head } => {
                if self.phase == Phase::Listing {
                    self.listed(branches, head)
                } else {
                    self.unmoved()
                }
            },
            Event::Selected(indices) => {
                if self.phase == Phase::Selecting && all_below(&indices, self.deletable.len()) {
                    self.chose(indices)
                } else {
                    self.unmoved()
                }
            },
            Event::Confirmed(yes) => {
                if self.phase == Phase::Confirming {
                    self.confirmed(yes)
                } else {
                    self.unmoved()
                }
            },
            Event::Attempted(outcome) => {
                if self.phase == Phase::Deleting {
                    self.attempted(outcome)
                } else {
                    self.unmoved()
                }
            },
        }
    }

    fn attempts(&self) -> (attempts: usize)
        ensures
            attempts == self@.tally.attempts(),
            attempts <= self.selected.len(),
            self.selected.len() == self@.selected.len(),
    {
        proof {
            use_type_invariant(self);
        }
        let failures = self.result.failures();
        assert(failures.deep_view().len() == failures.len());
        assert(self.selected.deep_view().len() == self.selected.len());
        self.result.successes() + failures.len()
    }

    fn unmoved(self) -> (step: Step)
        ensures
            step@ == (Transition {
                next: self@,
                output: Seq::empty(),
                action: self@.awaited(),
            }),
    {
        let action = self.awaited();
        let output: Vec<String> = Vec::new();
        assert(output.deep_view() =~= Seq::<Line>::empty());
        Step { workflow: self, output, action }
    }

    fn finish(self, report: &str) -> (step: Step)
        requires
            self@.tally == Tally::empty() || self@.tally.attempts() == self@.selected.len(),
        ensures
            step@ == self@.finish(report@),
    {
        proof {
            use_type_invariant(&self);
        }
        let mut output: Vec<String> = Vec::new();
        output.push(report.to_owned());
        assert(output.deep_view() =~= seq![report@]);
        let workflow = Workflow {
            phase: Phase::Finished,
            current: self.current,
            deletable: self.deletable,
            selected: self.selected,
            result: self.result,
        };
        Step { workflow, output, action: Action::Stop }
    }

    fn listed(self, branches: Vec<String>, head: Option<String>) -> (step: Step)
        requires
            self@.phase == Phase::Listing,
        ensures
            step@ == self@.listed(branches.deep_view(), head.deep_view()),
    {
        proof {
            use_type_invariant(&self);
        }
        let ghost listing = branches.deep_view();
        let candidates = offered_candidates(branches, &head);
        proof {
            if let Some(current) = head.deep_view() {
                lemma_current_is_never_deletable(listing, current);
            }
        }
        if candidates.len() == 0 {
            let next = Workflow {
                phase: Phase::Listing,
                current: head,
                deletable: candidates,
                selected: self.selected,
                result: self.result,
            };
            next.finish("No branches available for deletion.")
        } else {
            let items = copy_names(&candidates);
            let workflow = Workflow {
                phase: Phase::Selecting,
                current: head,
                deletable: candidates,
                selected: self.selected,
                result: self.result,
            };
            let output: Vec<String> = Vec::new();
            assert(output.deep_view() =~= Seq::<Line>::empty());
            Step { workflow, output, action: select(items) }
        }
    }

    fn chose(self, indices: Vec<usize>) -> (step: Step)
        requires
            self@.phase == Phase::Selecting,
            self@.offers(indices@),
        ensures
            step@ == self@.chose(indices@),
    {
        proof {
            use_type_invariant(&self);
        }
        if indices.len() == 0 {
            return self.finish("No branches selected.");
        }
        let mut selected: Vec<String> = Vec::new();
        let mut k: usize = 0;
        while k < indices.len()
            invariant
                k <= indices.len(),
                self@.offers(indices@),
                selected.len() == k,
                forall|j: int|
                    0 <= j < k ==> (#[trigger] selected[j])@ == self.deletable[indices[j] as int]@,
            decreases indices.len() - k,
        {
            selected.push(self.deletable[indices[k]].clone());
            k += 1;
        }
        proof {
            assert(selected.deep_view() =~= self@.chosen(indices@));
            assert forall|j: int| 0 <= j < selected.len() implies self@.deletable.contains(
                #[trigger] selected.deep_view()[j],
            ) by {
                assert(self@.deletable[indices[j] as int] == selected.deep_view()[j]);
            }
        }
        let output = announcement_lines(&selected);
        let workflow = Workflow {
            phase: Phase::Confirming,
            current: self.current,
            deletable: self.deletable,
            selected,
            result: self.result,
        };
        Step { workflow, output, action: confirm() }
    }

    fn confirmed(self, yes: bool) -> (step: Step)
        requires
            self@.phase == Phase::Confirming,
        ensures
            step@ == self@.confirmed(yes),
    {
        proof {
            use_type_invariant(&self);
        }
        if !yes {
            return self.finish("Operation cancelled.");
        }
        let branch = self.selected[0].clone();
        let workflow = Workflow {
            phase: Phase::Deleting,
            current: self.current,
            deletable: self.deletable,
            selected: self.selected,
            result: self.result,
        };
        let output: Vec<String> = Vec::new();
        assert(output.deep_view() =~= Seq::<Line>::empty());
        Step { workflow, output, action: Action::Delete { branch } }
    }

    fn attempted(self, outcome: Outcome) -> (step: Step)
        requires
            self@.phase == Phase::Deleting,
        ensures
            step@ == self@.attempted(outcome@),
    {
        proof {
            use_type_invariant(&self);
        }
        let at = self.attempts();
        let branch = self.selected[at].clone();
        let notice = match &outcome {
            Outcome::Deleted => deleted_notice_string(branch.as_str()),
            Outcome::Failed(_) => failed_notice_string(branch.as_str()),
        };
        let mut output: Vec<String> = Vec::new();
        output.push(notice);
        assert(output.deep_view() =~= seq![Machine::notice(branch@, outcome@)]);
        let mut result = self.result;
        result.record(branch, outcome);
        let attempts = at + 1;
        if attempts < self.selected.len() {
            let next = self.selected[attempts].clone();
            let workflow = Workflow {
                phase: Phase::Deleting,
                current: self.current,
                deletable: self.deletable,
                selected: self.selected,
                result,
            };
            Step { workflow, output, action: Action::Delete { branch: next } }
        } else {
            let ghost notice_lines = output.deep_view();
            let mut lines = summary_lines(&result);
            let ghost summary_part = lines.deep_view();
            output.append(&mut lines);
            assert(output.deep_view() =~= notice_lines + summary_part);
            let workflow = Workflow {
                phase: Phase::Finished,
                current: self.current,
                deletable: self.deletable,
                selected: self.selected,
                result,
            };
            Step { workflow, output, action: Action::Stop }
        }
    }

    /// Where the run stands.
    pub fn phase(&self) -> (phase: Phase)
        ensures
            phase == self@.phase,
    {
        self.phase
    }

    /// The current branch, once listed, if there is one.
    pub fn current(&self) -> (current: &Option<String>)
        ensures
            current.deep_view() == self@.current,
    {
        &self.current
    }

    /// The branches offered for deletion.
    pub fn deletable(&self) -> (offered: &Vec<String>)
        ensures
            offered.deep_view() == self@.deletable,
    {
        &self.deletable
    }

    /// The branches that the operator chose, in the order of the selection.
    pub fn selected(&self) -> (selected: &Vec<String>)
        ensures
            selected.deep_view() == self@.selected,
    {
        &self.selected
    }

    /// What came of the deletions attempted so far.
    pub fn result(&self) -> (result: &BatchResult)
        ensures
            result@ == self@.tally,
    {
        &self.result
    }
}

fn select(items: Vec<String>) -> (action: Action)
    ensures
        action@ == Machine::select(items.deep_view()),
{
    Action::Select { prompt: selection_prompt().to_owned(), items }
}

fn confirm() -> (action: Action)
    ensures
        action@ == Machine::confirm(),
{
    Action::Confirm { prompt: confirmation_prompt().to_owned(), default: false }
}

fn copy_names(names: &Vec<String>) -> (copy: Vec<String>)
    ensures
        copy.deep_view() == names.deep_view(),
{
    let mut copy: Vec<String> = Vec::new();
    let mut i: usize = 0;
    while i < names.len()
        invariant
            i <= names.len(),
            copy.len() == i,
            forall|j: int| 0 <= j < i ==> (#[trigger] copy[j])@ == names[j]@,
        decreases names.len() - i,
    {
        copy.push(names[i].clone());
        i += 1;
    }
    assert(copy.deep_view() =~= names.deep_view());
    copy
}

fn all_below(indices: &Vec<usize>, bound: usize) -> (below: bool)
    ensures
        below <==> forall|k: int| 0 <= k < indices.len() ==> (#[trigger] indices[k]) < bound,
{
    let mut k: usize = 0;
    while k < indices.len()
        invariant
            k <= indices.len(),
            forall|j: int| 0 <= j < k ==> (#[trigger] indices[j]) < bound,
        decreases indices.len() - k,
    {
        if indices[k] >= bound {
            return false;
        }
        k += 1;
    }
    true
}

} // verus!

//! The tally of a batch of deletions.
//!
//! Every selected branch is attempted on its own. What came of each attempt
//! is an [`Outcome`]; a [`BatchResult`] counts the successes and keeps the
//! failures, in the order of the attempts.

use vstd::prelude::*;
use crate::candidates::Name;

verus! {

/// What came of the attempt to delete one branch.
#[derive(Debug, PartialEq, Eq)]
pub enum Outcome {
    /// The branch is gone.
    Deleted,
    /// The backend refused; the text says why.
    Failed(String),
}

/// An [`Outcome`] as the contracts see it.
pub enum OutcomeView {
    Deleted,
    Failed(Seq<char>),
}

impl View for Outcome {
    type V = OutcomeView;

    open spec fn view(&self) -> OutcomeView {
        match self {
            Outcome::Deleted => OutcomeView::Deleted,
            Outcome::Failed(reason) => OutcomeView::Failed(reason@),
        }
    }
}

/// A branch that could not be deleted, with the reason given by the backend.
#[derive(Debug, PartialEq, Eq)]
pub struct Failure {
    pub name: String,
    pub reason: String,
}

/// A [`Failure`] as the contracts see it.
pub struct FailureView {
    pub name: Name,
    pub reason: Seq<char>,
}

impl View for Failure {
    type V = FailureView;

    open spec fn view(&self) -> FailureView {
        FailureView { name: self.name@, reason: self.reason@ }
    }
}

/// The mathematical tally: how many deletions succeeded, and which failed.
#[verifier::ext_equal]
pub struct Tally {
    pub successes: nat,
    pub failures: Seq<FailureView>,
}

impl Tally {
    /// The tally before any attempt.
    pub open spec fn empty() -> Tally {
        Tally { successes: 0, failures: Seq::empty() }
    }

    /// The number of attempts that the tally accounts for.
    pub open spec fn attempts(self) -> nat {
        self.successes + self.failures.len()
    }

    /// The tally after one more attempt, on branch `name`, ended in `outcome`.
    pub open spec fn record(self, name: Name, outcome: OutcomeView) -> Tally {
        match outcome {
            OutcomeView::Deleted => Tally { successes: self.successes + 1, ..self },
            OutcomeView::Failed(reason) => Tally {
                failures: self.failures.push(FailureView { name, reason }),
                ..self
            },
        }
    }
}

/// The tally of a batch: branch `names[i]` was attempted with `outcomes[i]`,
/// for each `i` below `outcomes.len()`, in that order.
pub open spec fn tally(names: Seq<Name>, outcomes: Seq<OutcomeView>) -> Tally
    recommends
        outcomes.len() <= names.len(),
    decreases outcomes.len(),
{
    if outcomes.len() == 0 {
        Tally::empty()
    } else {
        tally(names, outcomes.drop_last()).record(
            names[outcomes.len() - 1],
            outcomes.last(),
        )
    }
}

/// The result of a batch of deletions.
#[derive(Debug, PartialEq, Eq)]
pub struct BatchResult {
    successes: usize,
    failures: Vec<Failure>,
}

impl View for BatchResult {
    type V = Tally;

    closed spec fn view(&self) -> Tally {
        Tally { successes: self.successes as nat, failures: self.failures.deep_view() }
    }
}

impl DeepView for Failure {
    type V = FailureView;

    open spec fn deep_view(&self) -> FailureView {
        self@
    }
}

impl BatchResult {
    /// The result of a batch in which nothing has been attempted yet.
    pub fn new() -> (result: BatchResult)
        ensures
            result@ == Tally::empty(),
    {
        let result = BatchResult { successes: 0, failures: Vec::new() };
        assert(result.failures.deep_view() =~= Seq::<FailureView>::empty());
        result
    }

    /// Accounts for one more attempt: the deletion of `name` ended in `outcome`.
    pub fn record(&mut self, name: String, outcome: Outcome)
        requires
            outcome is Deleted ==> old(self)@.successes < usize::MAX,
        ensures
            final(self)@ == old(self)@.record(name@, outcome@),
    {
        match outcome {
            Outcome::Deleted => {
                self.successes = self.successes + 1;
            },
            Outcome::Failed(reason) => {
                let ghost before = self.failures.deep_view();
                let ghost entry = FailureView { name: name@, reason: reason@ };
                self.failures.push(Failure { name, reason });
                assert(self.failures.deep_view() =~= before.push(entry));
            },
        }
    }

    /// The number of branches that were deleted.
    pub fn successes(&self) -> (n: usize)
        ensures
            n == self@.successes,
    {
        self.successes
    }

    /// The branches that could not be deleted, in the order of the attempts.
    pub fn failures(&self) -> (failures: &Vec<Failure>)
        ensures
            failures.deep_view() == self@.failures,
    {
        &self.failures
    }
}

/// Every attempt is either a success or a failure: the tally of a batch
/// accounts for exactly as many attempts as there were outcomes.
pub proof fn lemma_tally_accounts_for_every_attempt(names: Seq<Name>, outcomes: Seq<OutcomeView>)
    ensures
        tally(names, outcomes).attempts() == outcomes.len(),
    decreases outcomes.len(),
{
    if outcomes.len() > 0 {
        lemma_tally_accounts_for_every_attempt(names, outcomes.drop_last());
    }
}

/// A batch in which every deletion succeeds counts them all and lists no failure.
pub proof fn lemma_tally_all_deleted(names: Seq<Name>, outcomes: Seq<OutcomeView>)
    requires
        forall|j: int| 0 <= j < outcomes.len() ==> outcomes[j] is Deleted,
    ensures
        tally(names, outcomes) == (Tally { successes: outcomes.len(), failures: Seq::empty() }),
    decreases outcomes.len(),
{
    if outcomes.len() > 0 {
        lemma_tally_all_deleted(names, outcomes.drop_last());
    }
}

/// One failure does not touch the others: where the deletion of branch `i`
/// fails and all others of a batch of `outcomes.len()` succeed, wherever `i`
/// stands, all the others are counted as successes and the one failure listed
/// names branch `i` with its reason.
pub proof fn lemma_tally_single_failure(names: Seq<Name>, outcomes: Seq<OutcomeView>, i: int)
    requires
        0 <= i < outcomes.len(),
        outcomes[i] is Failed,
        forall|j: int| 0 <= j < outcomes.len() && j != i ==> outcomes[j] is Deleted,
    ensures
        tally(names, outcomes).successes == outcomes.len() - 1,
        tally(names, outcomes).failures == seq![
            FailureView { name: names[i], reason: outcomes[i]->Failed_0 },
        ],
    decreases outcomes.len(),
{
    let rest = outcomes.drop_last();
    if i == outcomes.len() - 1 {
        lemma_tally_all_deleted(names, rest);
        assert(tally(names, outcomes).failures =~= seq![
            FailureView { name: names[i], reason: outcomes[i]->Failed_0 },
        ]);
    } else {
        lemma_tally_single_failure(names, rest, i);
    }
}

} // verus!

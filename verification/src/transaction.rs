//! The course of one transaction: which action comes next, given how the
//! actions before it went.
//!
//! The statements of a setup or of a write are run inside one transaction.
//! This module decides; the caller performs each action against the
//! database and reports whether it succeeded.

use vstd::prelude::*;

verus! {

/// How a transaction ended.
#[derive(Clone, Copy, Debug, PartialEq, Eq, Structural)]
pub enum Outcome {
    /// Every statement was executed and the transaction was committed.
    Committed,
    /// The transaction could not be opened.
    BeginFailed,
    /// The statement at this place failed; the transaction was rolled back.
    StatementFailed(usize),
    /// Every statement was executed, but the commit failed.
    CommitFailed,
}

/// What the caller is to do next.
#[derive(Clone, Copy, Debug, PartialEq, Eq, Structural)]
pub enum Action {
    /// Open the transaction.
    Begin,
    /// Execute the statement at this place.
    Execute(usize),
    /// Commit the transaction.
    Commit,
    /// Roll the transaction back.
    Rollback,
    /// Nothing more: the transaction ended in this way.
    Finish(Outcome),
}

/// Where a transaction stands: at the action that is to be performed next.
#[derive(Clone, Copy, Debug, PartialEq, Eq, Structural)]
pub enum Phase {
    /// The transaction is to be opened.
    Opening,
    /// The statement at this place is to be executed.
    Executing(usize),
    /// The transaction is to be committed.
    Committing,
    /// The statement at this place failed; the transaction is to be rolled
    /// back.
    RollingBack(usize),
    /// The transaction has ended.
    Finished(Outcome),
}

/// The action that is performed in a phase.
pub open spec fn action_of(phase: Phase) -> Action {
    match phase {
        Phase::Opening => Action::Begin,
        Phase::Executing(i) => Action::Execute(i),
        Phase::Committing => Action::Commit,
        Phase::RollingBack(_) => Action::Rollback,
        Phase::Finished(outcome) => Action::Finish(outcome),
    }
}

/// The phase that follows `phase` in a transaction of `total` statements,
/// when the action of `phase` succeeded (`ok`) or failed.
///
/// A failed statement leads to the rollback, whose own success does not
/// matter. Nothing follows the end.
pub open spec fn next_phase(total: usize, phase: Phase, ok: bool) -> Phase {
    match phase {
        Phase::Opening => if !ok {
            Phase::Finished(Outcome::BeginFailed)
        } else if total == 0 {
            Phase::Committing
        } else {
            Phase::Executing(0)
        },
        Phase::Executing(i) => if !ok {
            Phase::RollingBack(i)
        } else if i + 1 < total {
            Phase::Executing((i + 1) as usize)
        } else {
            Phase::Committing
        },
        Phase::Committing => Phase::Finished(
            if ok {
                Outcome::Committed
            } else {
                Outcome::CommitFailed
            },
        ),
        Phase::RollingBack(i) => Phase::Finished(Outcome::StatementFailed(i)),
        Phase::Finished(outcome) => Phase::Finished(outcome),
    }
}

/// The phase a transaction of `total` statements has reached after the
/// reports `events`, the first of which is that on opening it.
pub open spec fn run(total: usize, events: Seq<bool>) -> Phase
    decreases events.len(),
{
    if events.len() == 0 {
        Phase::Opening
    } else {
        next_phase(total, run(total, events.drop_last()), events.last())
    }
}

/// The first `n` reports are all of success.
pub open spec fn all_succeeded(events: Seq<bool>, n: nat) -> bool {
    n <= events.len() && forall|k: int| 0 <= k < n ==> events[k]
}

/// What the reports must have been for a transaction to stand where it
/// stands.
pub open spec fn explains(total: usize, events: Seq<bool>, phase: Phase) -> bool {
    match phase {
        Phase::Opening => events.len() == 0,
        Phase::Executing(i) => i < total && events.len() == i + 1 && all_succeeded(
            events,
            (i + 1) as nat,
        ),
        Phase::Committing => events.len() == total + 1 && all_succeeded(
            events,
            (total + 1) as nat,
        ),
        Phase::RollingBack(i) => i < total && events.len() == i + 2 && all_succeeded(
            events,
            (i + 1) as nat,
        ) && !events[i + 1],
        Phase::Finished(Outcome::Committed) => all_succeeded(events, (total + 2) as nat),
        Phase::Finished(Outcome::BeginFailed) => events.len() >= 1 && !events[0],
        Phase::Finished(Outcome::StatementFailed(i)) => i < total && events.len() >= i + 3
            && all_succeeded(events, (i + 1) as nat) && !events[i + 1],
        Phase::Finished(Outcome::CommitFailed) => events.len() >= total + 2 && all_succeeded(
            events,
            (total + 1) as nat,
        ) && !events[total + 1],
    }
}

/// Wherever a transaction stands, the reports so far explain it.
pub proof fn lemma_run_explained(total: usize, events: Seq<bool>)
    ensures
        explains(total, events, run(total, events)),
    decreases events.len(),
{
    if events.len() > 0 {
        let before = events.drop_last();
        lemma_run_explained(total, before);
        assert(forall|k: int| 0 <= k < before.len() ==> before[k] == events[k]);
        assert(events.last() == events[events.len() - 1]);
        assert(run(total, events) == next_phase(total, run(total, before), events.last()));
    }
}

/// A transaction is committed if and only if opening it, each of its
/// statements and the commit all succeeded: where any of them failed,
/// nothing is committed.
pub proof fn lemma_commits_iff_all_succeed(total: usize, events: Seq<bool>)
    ensures
        run(total, events) == Phase::Finished(Outcome::Committed) <==> all_succeeded(
            events,
            (total + 2) as nat,
        ),
{
    lemma_run_explained(total, events);
}

/// A statement is only executed after the transaction was opened and every
/// statement before it succeeded, and the commit only after all of them did.
pub proof fn lemma_order_of_actions(total: usize, events: Seq<bool>)
    ensures
        forall|i: usize|
            action_of(run(total, events)) == Action::Execute(i) ==> i < total && all_succeeded(
                events,
                (i + 1) as nat,
            ),
        action_of(run(total, events)) == Action::Commit ==> all_succeeded(
            events,
            (total + 1) as nat,
        ),
{
    lemma_run_explained(total, events);
}

/// A failed statement is followed by the rollback and by nothing else: the
/// transaction ends with that statement's failure.
pub proof fn lemma_failure_rolls_back(total: usize, events: Seq<bool>, i: usize)
    requires
        run(total, events) == Phase::Executing(i),
    ensures
        action_of(run(total, events.push(false))) == Action::Rollback,
        forall|ok: bool|
            run(total, events.push(false).push(ok)) == Phase::Finished(
                Outcome::StatementFailed(i),
            ),
{
    let failed = events.push(false);
    assert(failed.drop_last() =~= events);
    assert forall|ok: bool|
        run(total, failed.push(ok)) == Phase::Finished(Outcome::StatementFailed(i)) by {
        assert(failed.push(ok).drop_last() =~= failed);
    }
}

/// A transaction of `total` statements has ended after `total + 3` reports
/// at the latest.
pub proof fn lemma_run_ends(total: usize, events: Seq<bool>)
    requires
        events.len() >= total + 3,
    ensures
        run(total, events) is Finished,
{
    lemma_run_explained(total, events);
}

/// One transaction in progress.
#[derive(Debug)]
pub struct Transaction {
    total: usize,
    phase: Phase,
}

impl Transaction {
    #[verifier::type_invariant]
    spec fn well_formed(&self) -> bool {
        match self.phase {
            Phase::Executing(i) => i < self.total,
            _ => true,
        }
    }

    /// The number of statements of the transaction.
    pub closed spec fn total(&self) -> usize {
        self.total
    }

    /// Where the transaction stands.
    pub closed spec fn phase(&self) -> Phase {
        self.phase
    }

    /// A transaction of `total` statements that is yet to be opened.
    pub fn new(total: usize) -> (out: Self)
        ensures
            out.total() == total,
            out.phase() == Phase::Opening,
    {
        Transaction { total, phase: Phase::Opening }
    }

    /// What is to be done next.
    pub fn action(&self) -> (out: Action)
        ensures
            out == action_of(self.phase()),
    {
        match self.phase {
            Phase::Opening => Action::Begin,
            Phase::Executing(i) => Action::Execute(i),
            Phase::Committing => Action::Commit,
            Phase::RollingBack(_) => Action::Rollback,
            Phase::Finished(outcome) => Action::Finish(outcome),
        }
    }

    /// How the transaction ended, once it has.
    pub fn outcome(&self) -> (out: Option<Outcome>)
        ensures
            out == match self.phase() {
                Phase::Finished(outcome) => Some(outcome),
                _ => None,
            },
    {
        match self.phase {
            Phase::Finished(outcome) => Some(outcome),
            _ => None,
        }
    }

    /// Takes the report on the action that [`action`](Self::action) named:
    /// `ok` says whether it succeeded.
    pub fn report(&mut self, ok: bool)
        ensures
            final(self).total() == old(self).total(),
            final(self).phase() == next_phase(old(self).total(), old(self).phase(), ok),
    {
        proof {
            use_type_invariant(&*self);
        }
        let next = match self.phase {
            Phase::Opening => if !ok {
                Phase::Finished(Outcome::BeginFailed)
            } else if self.total == 0 {
                Phase::Committing
            } else {
                Phase::Executing(0)
            },
            Phase::Executing(i) => if !ok {
                Phase::RollingBack(i)
            } else if i + 1 < self.total {
                Phase::Executing(i + 1)
            } else {
                Phase::Committing
            },
            Phase::Committing => Phase::Finished(
                if ok {
                    Outcome::Committed
                } else {
                    Outcome::CommitFailed
                },
            ),
            Phase::RollingBack(i) => Phase::Finished(Outcome::StatementFailed(i)),
            Phase::Finished(outcome) => Phase::Finished(outcome),
        };
        self.phase = next;
    }
}

} // verus!

//! Applying a plan: one session, a lock timeout set first, then the
//! statements in order, until one fails.

use vstd::prelude::*;

verus! {

/// The lock timeout set on the session, in milliseconds, so that a
/// statement blocked by another transaction fails instead of waiting.
pub const LOCK_TIMEOUT_MS: u64 = 5000;

/// Where the application of a plan of `total` statements stands.
#[derive(Clone, Copy, Debug, PartialEq, Eq, Structural)]
pub enum Progress {
    /// The session is open; nothing was sent yet.
    Opened,
    /// The lock timeout is set and the first `done` statements succeeded.
    Running { done: usize },
    /// Every statement succeeded.
    Finished,
    /// Setting the lock timeout failed; no statement was sent.
    NotStarted,
    /// The statement at `at` failed; those before it stay applied, and
    /// those after it were not sent.
    Stopped { at: usize },
}

/// What to send to the database next.
#[derive(Clone, Copy, Debug, PartialEq, Eq, Structural)]
pub enum Action {
    /// Set the session's lock timeout to this many milliseconds.
    SetLockTimeout(u64),
    /// Send the statement at this place of the plan.
    Execute(usize),
    /// Nothing more: the application is over.
    Done,
}

/// How the last action went.
#[derive(Clone, Copy, Debug, PartialEq, Eq, Structural)]
pub enum Outcome {
    Succeeded,
    Failed,
}

/// The state is one that a plan of `total` statements can be in.
pub open spec fn valid(total: usize, p: Progress) -> bool {
    match p {
        Progress::Running { done } => done < total,
        Progress::Stopped { at } => at < total,
        _ => true,
    }
}

/// What is sent in a state: the lock timeout first, then the statement
/// after those that succeeded, and nothing once the application is over.
pub open spec fn action_of(p: Progress) -> Action {
    match p {
        Progress::Opened => Action::SetLockTimeout(LOCK_TIMEOUT_MS),
        Progress::Running { done } => Action::Execute(done),
        _ => Action::Done,
    }
}

/// The state after the action of state `p` went as `outcome` says, for a
/// plan of `total` statements.
pub open spec fn step(total: usize, p: Progress, outcome: Outcome) -> Progress {
    match p {
        Progress::Opened => match outcome {
            Outcome::Failed => Progress::NotStarted,
            Outcome::Succeeded => if total == 0 {
                Progress::Finished
            } else {
                Progress::Running { done: 0 }
            },
        },
        Progress::Running { done } => match outcome {
            Outcome::Failed => Progress::Stopped { at: done },
            Outcome::Succeeded => if done + 1 >= total {
                Progress::Finished
            } else {
                Progress::Running { done: (done + 1) as usize }
            },
        },
        _ => p,
    }
}

/// The state in which the application of a plan starts.
pub fn begin() -> (r: Progress)
    ensures
        r == Progress::Opened,
{
    Progress::Opened
}

/// What to send to the database in this state.
pub fn next_action(p: Progress) -> (r: Action)
    ensures
        r == action_of(p),
{
    match p {
        Progress::Opened => Action::SetLockTimeout(LOCK_TIMEOUT_MS),
        Progress::Running { done } => Action::Execute(done),
        _ => Action::Done,
    }
}

/// The state that follows, given how the action of this state went. A
/// failure ends the application at once: nothing is sent after it, and
/// nothing that was applied is undone.
pub fn advance(total: usize, p: Progress, outcome: Outcome) -> (r: Progress)
    ensures
        r == step(total, p, outcome),
        valid(total, p) ==> valid(total, r),
{
    match p {
        Progress::Opened => match outcome {
            Outcome::Failed => Progress::NotStarted,
            Outcome::Succeeded => if total == 0 {
                Progress::Finished
            } else {
                Progress::Running { done: 0 }
            },
        },
        Progress::Running { done } => match outcome {
            Outcome::Failed => Progress::Stopped { at: done },
            Outcome::Succeeded => if total == 0 || done >= total - 1 {
                Progress::Finished
            } else {
                Progress::Running { done: done + 1 }
            },
        },
        _ => p,
    }
}

/// The state after a run of outcomes, one for each action taken from the
/// start.
pub open spec fn run(total: usize, outcomes: Seq<Outcome>) -> Progress
    decreases outcomes.len(),
{
    if outcomes.len() == 0 {
        Progress::Opened
    } else {
        step(total, run(total, outcomes.drop_last()), outcomes.last())
    }
}

/// Statements are sent strictly in order and only while all went well:
/// whenever the statement at `i` is the next to send, the lock timeout was
/// set first and the `i` statements before it followed, all with success.
pub proof fn lemma_in_order(total: usize, outcomes: Seq<Outcome>, i: usize)
    requires
        action_of(run(total, outcomes)) == Action::Execute(i),
    ensures
        outcomes.len() == i + 1,
        i < total,
        forall|k: int| 0 <= k < outcomes.len() ==> outcomes[k] == Outcome::Succeeded,
    decreases outcomes.len(),
{
    lemma_run_valid(total, outcomes);
    if outcomes.len() > 0 {
        let before = outcomes.drop_last();
        lemma_run_valid(total, before);
        match run(total, before) {
            Progress::Opened => {
                lemma_opened(total, before);
            },
            Progress::Running { done } => {
                lemma_in_order(total, before, done);
            },
            _ => {},
        }
        assert forall|k: int| 0 <= k < outcomes.len() implies outcomes[k]
            == Outcome::Succeeded by {
            if k < before.len() {
                assert(before[k] == outcomes[k]);
            }
        }
    }
}

/// Only before anything was sent is the state `Opened`.
pub proof fn lemma_opened(total: usize, outcomes: Seq<Outcome>)
    requires
        run(total, outcomes) == Progress::Opened,
    ensures
        outcomes.len() == 0,
{
}

/// Every state reached is one that the plan can be in.
pub proof fn lemma_run_valid(total: usize, outcomes: Seq<Outcome>)
    ensures
        valid(total, run(total, outcomes)),
    decreases outcomes.len(),
{
    if outcomes.len() > 0 {
        lemma_run_valid(total, outcomes.drop_last());
    }
}

/// Once an action failed, nothing more is sent, whatever follows.
pub proof fn lemma_stops_at_failure(total: usize, outcomes: Seq<Outcome>, k: int)
    requires
        0 <= k < outcomes.len(),
        outcomes[k] == Outcome::Failed,
    ensures
        action_of(run(total, outcomes)) == Action::Done,
    decreases outcomes.len(),
{
    let before = outcomes.drop_last();
    if k < before.len() {
        assert(before[k] == outcomes[k]);
        lemma_stops_at_failure(total, before, k);
    }
}

} // verus!

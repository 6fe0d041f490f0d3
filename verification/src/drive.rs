//! One synchronisation cycle for one drive, and one round of cycles over all
//! drives.
//!
//! The program around the library asks the change tracker about a drive and
//! hands the answer to [`Atrain::sync_drive`], which says how the cycle goes
//! on. A [`Round`] says which cycle to start next and when to wait, so that
//! at most [`CONCURRENCY`] cycles run at a time.

use vstd::prelude::*;
use crate::autoscan::{trigger_path, Autoscan, AutoscanError, Method, Reply, Request};
use crate::changes::{events_of, ChangedPath};
use crate::payload::{create_payload, reduce};
use crate::{Atrain, Error};

verus! {

/// How many cycles of one round may run at a time.
pub const CONCURRENCY: usize = 5;

/// What the change tracker answered when asked about a drive.
#[derive(Debug)]
pub enum SyncOutcome {
    /// The tracker has read the whole drive anew; there is no list of
    /// changes.
    FullRebuild,
    /// The tracker has found these changes since it last looked.
    PartialChanges(Vec<ChangedPath>),
    /// The tracker met trouble that will pass by itself.
    RecoverableError,
    /// The tracker failed.
    FatalError(Error),
}

impl SyncOutcome {
    /// The outcome that an error of the tracker stands for: an incomplete
    /// list of changes is trouble that will pass, any other error is a
    /// failure.
    pub fn from_error(partial_change_list: bool, cause: String) -> (outcome: SyncOutcome)
        ensures
            outcome == if partial_change_list {
                SyncOutcome::RecoverableError
            } else {
                SyncOutcome::FatalError(Error::Bernard(cause))
            },
    {
        if partial_change_list {
            SyncOutcome::RecoverableError
        } else {
            SyncOutcome::FatalError(Error::Bernard(cause))
        }
    }
}

/// How a cycle goes on once the tracker has answered.
#[derive(Debug)]
pub enum Step {
    /// The cycle is over with this result. `warning` asks for a word in the
    /// log: the cycle went well only in that its trouble will pass.
    End { result: Result<(), Error>, warning: bool },
    /// The scanner has to be told; the cycle ends as [`Atrain::notified`]
    /// says of the reply.
    Notify(Request),
}

impl Atrain {
    /// Says how the cycle of the drive `drive_id` goes on after the tracker
    /// has answered with `outcome`.
    ///
    /// The scanner is told only of changes that touch a folder. A drive that
    /// was read anew, and trouble that will pass, end the cycle well; a
    /// failure of the tracker ends it with that failure.
    pub fn sync_drive(&self, drive_id: &str, outcome: SyncOutcome) -> (step: Step)
        ensures
            match outcome {
                SyncOutcome::FullRebuild => step == (Step::End { result: Ok(()), warning: false }),
                SyncOutcome::PartialChanges(changes) => if reduce(events_of(changes@)).is_empty() {
                    step == (Step::End { result: Ok(()), warning: false })
                } else {
                    &&& step matches Step::Notify(request)
                    &&& request.method == Method::Post
                    &&& request.path@ == trigger_path(drive_id@)
                    &&& request.auth == self.autoscan.auth
                    &&& request.body matches Some(payload)
                    &&& payload@ == reduce(events_of(changes@))
                },
                SyncOutcome::RecoverableError => step == (Step::End {
                    result: Ok(()),
                    warning: true,
                }),
                SyncOutcome::FatalError(cause) => step == (Step::End {
                    result: Err(cause),
                    warning: false,
                }),
            },
            step matches Step::Notify(request) ==> {
                &&& outcome is PartialChanges
                &&& request.body matches Some(payload)
                &&& !payload@.is_empty()
            },
            outcome is FullRebuild || outcome is RecoverableError ==> step matches Step::End {
                result: Ok(_),
                ..
            },
    {
        match outcome {
            SyncOutcome::FullRebuild => Step::End { result: Ok(()), warning: false },
            SyncOutcome::PartialChanges(changes) => {
                let payload = create_payload(changes);
                if payload.is_empty() {
                    Step::End { result: Ok(()), warning: false }
                } else {
                    Step::Notify(self.autoscan.send_payload(drive_id, payload))
                }
            },
            SyncOutcome::RecoverableError => Step::End { result: Ok(()), warning: true },
            SyncOutcome::FatalError(cause) => Step::End { result: Err(cause), warning: false },
        }
    }

    /// Says how a cycle ends once the scanner has answered: well if it took
    /// the changes, else with the scanner's failure. Nothing is sent again
    /// before the next round.
    pub fn notified(reply: Reply) -> (result: Result<(), Error>)
        ensures
            result == if reply.accepted() {
                Ok::<(), Error>(())
            } else {
                Err(Error::AutoscanUnavailable(AutoscanError::Network(reply)))
            },
    {
        match Autoscan::delivered(reply) {
            Ok(()) => Ok(()),
            Err(err) => Err(Error::AutoscanUnavailable(err)),
        }
    }

    /// Begins a round: one cycle for each drive of the registry.
    pub fn sync(&self) -> (round: Round)
        ensures
            round@ == RoundState::fresh(self.drives@.len()),
    {
        Round::new(self.drives.len())
    }
}

/// What to do next in a round.
#[derive(Debug, Clone, Copy, PartialEq, Eq, Structural)]
pub enum Turn {
    /// Start the cycle of the drive at this place in the registry.
    Start(usize),
    /// Wait for one of the running cycles to end.
    Wait,
    /// Every cycle has ended: the round is over.
    Finish,
}

/// Where a round stands.
pub struct RoundState {
    /// How many drives the round is about.
    pub total: nat,
    /// How many cycles have been started.
    pub started: nat,
    /// How many cycles have ended.
    pub finished: nat,
    /// The failure of the first cycle that failed.
    pub failure: Option<Error>,
}

impl RoundState {
    /// A round over `total` drives in which nothing has happened yet.
    pub open spec fn fresh(total: nat) -> RoundState {
        RoundState { total, started: 0, finished: 0, failure: None }
    }

    /// No cycle has ended before it was started, none was started beyond the
    /// registry, and no more than the ceiling are running.
    pub open spec fn valid(self) -> bool {
        &&& self.finished <= self.started <= self.total
        &&& self.started - self.finished <= CONCURRENCY
    }

    /// How many cycles are running.
    pub open spec fn running(self) -> int {
        self.started - self.finished
    }

    /// What to do next: start the next drive's cycle while there is one and
    /// room for it, else wait for the running ones, and finish once all have
    /// ended. Whether a cycle has failed plays no part.
    pub open spec fn turn(self) -> Turn {
        if self.started < self.total && self.running() < CONCURRENCY {
            Turn::Start(self.started as usize)
        } else if self.finished < self.started {
            Turn::Wait
        } else {
            Turn::Finish
        }
    }

    /// The round after its turn was taken: a cycle that was to start is now
    /// running.
    pub open spec fn taken(self) -> RoundState {
        if self.turn() is Start {
            RoundState { started: self.started + 1, ..self }
        } else {
            self
        }
    }

    /// The round after one of its running cycles has ended with `result`.
    /// The first failure is kept. With no cycle running nothing changes.
    pub open spec fn completed(self, result: Result<(), Error>) -> RoundState {
        if self.running() > 0 {
            RoundState {
                finished: self.finished + 1,
                failure: match (self.failure, result) {
                    (None, Err(error)) => Some(error),
                    _ => self.failure,
                },
                ..self
            }
        } else {
            self
        }
    }

    /// The result of the round: the first failure, if any cycle failed.
    pub open spec fn outcome(self) -> Result<(), Error> {
        match self.failure {
            Some(error) => Err(error),
            None => Ok(()),
        }
    }
}

/// A round of cycles, one for each drive.
#[derive(Debug)]
pub struct Round {
    total: usize,
    started: usize,
    finished: usize,
    failure: Option<Error>,
}

impl View for Round {
    type V = RoundState;

    closed spec fn view(&self) -> RoundState {
        RoundState {
            total: self.total as nat,
            started: self.started as nat,
            finished: self.finished as nat,
            failure: self.failure,
        }
    }
}

impl Round {
    #[verifier::type_invariant]
    spec fn valid(&self) -> bool {
        self@.valid()
    }

    /// A round over `total` drives.
    pub fn new(total: usize) -> (round: Round)
        ensures
            round@ == RoundState::fresh(total as nat),
    {
        Round { total, started: 0, finished: 0, failure: None }
    }

    /// Says what to do next, and counts a cycle that is to start as running.
    pub fn next(&mut self) -> (turn: Turn)
        ensures
            old(self)@.valid(),
            turn == old(self)@.turn(),
            final(self)@ == old(self)@.taken(),
    {
        proof {
            use_type_invariant(&*self);
        }
        if self.started < self.total && self.started - self.finished < CONCURRENCY {
            let place: usize = self.started;
            self.started = place + 1;
            Turn::Start(place)
        } else if self.finished < self.started {
            Turn::Wait
        } else {
            Turn::Finish
        }
    }

    /// Takes note that one of the running cycles has ended with `result`.
    pub fn complete(&mut self, result: Result<(), Error>)
        ensures
            old(self)@.valid(),
            final(self)@ == old(self)@.completed(result),
    {
        proof {
            use_type_invariant(&*self);
        }
        if self.finished < self.started {
            self.finished = self.finished + 1;
            if self.failure.is_none() {
                if let Err(error) = result {
                    self.failure = Some(error);
                }
            }
        }
    }

    /// The result of the round so far: the first failure, if any cycle
    /// failed. It is the result of the round once the turn is
    /// [`Turn::Finish`].
    pub fn outcome(self) -> (result: Result<(), Error>)
        ensures
            result == self@.outcome(),
    {
        match self.failure {
            Some(error) => Err(error),
            None => Ok(()),
        }
    }
}

/// The failure of the first of `results` that is one.
pub open spec fn first_failure(results: Seq<Result<(), Error>>) -> Option<Error>
    decreases results.len(),
{
    if results.len() == 0 {
        None
    } else {
        match results[0] {
            Err(error) => Some(error),
            Ok(_) => first_failure(results.drop_first()),
        }
    }
}

/// The round after it was played on from `state`: each turn is taken as it
/// comes, and the cycles end in the order and with the results of `results`.
pub open spec fn played(state: RoundState, results: Seq<Result<(), Error>>) -> RoundState
    decreases results.len(), state.total - state.started,
{
    match state.turn() {
        Turn::Start(_) => played(state.taken(), results),
        Turn::Wait => if results.len() > 0 {
            played(state.completed(results[0]), results.drop_first())
        } else {
            state
        },
        Turn::Finish => state,
    }
}

/// A round never has more cycles running than the ceiling allows: it starts
/// within it, and neither a turn nor the end of a cycle leads out of it.
pub proof fn lemma_round_keeps_ceiling(state: RoundState, result: Result<(), Error>)
    requires
        state.valid(),
    ensures
        RoundState::fresh(state.total).valid(),
        state.taken().valid(),
        state.completed(result).valid(),
        state.running() <= CONCURRENCY,
{
}

/// A cycle that fails holds up no other: after it, the round takes the turn
/// that it would take had the cycle ended well.
pub proof fn lemma_failure_cancels_nothing(state: RoundState, error: Error)
    ensures
        state.completed(Err(error)).turn() == state.completed(Ok(())).turn(),
        state.completed(Err(error)).started == state.completed(Ok(())).started,
        state.completed(Err(error)).finished == state.completed(Ok(())).finished,
{
}

/// A failure is never lost: the round fails with the failure of a cycle, and
/// stays failed with its first failure whatever follows.
pub proof fn lemma_failure_is_kept(state: RoundState, error: Error, later: Result<(), Error>)
    ensures
        state.running() > 0 ==> state.completed(Err(error)).outcome() is Err,
        state.running() > 0 && state.failure is None ==> state.completed(Err(error)).outcome()
            == Err::<(), Error>(error),
        state.outcome() is Err ==> state.completed(later).outcome() == state.outcome(),
        state.taken().outcome() == state.outcome(),
{
}

/// A cycle that ends well fails no round: the round's result is what it was.
pub proof fn lemma_success_fails_nothing(state: RoundState)
    ensures
        state.completed(Ok(())).outcome() == state.outcome(),
{
}

/// The round is over when the cycle of every drive has ended, and not
/// before.
pub proof fn lemma_round_ends_with_last_cycle(state: RoundState)
    requires
        state.valid(),
    ensures
        state.turn() is Finish <==> state.finished == state.total,
{
}

/// Whatever the results, a round runs to its end: every drive's cycle is
/// started and ends, the ceiling holds throughout, and the round fails with
/// its first failure if and only if a cycle failed.
pub proof fn lemma_round_runs_to_the_end(state: RoundState, results: Seq<Result<(), Error>>)
    requires
        state.valid(),
        results.len() == state.total - state.finished,
    ensures
        played(state, results).valid(),
        played(state, results).turn() is Finish,
        played(state, results).total == state.total,
        played(state, results).started == state.total,
        played(state, results).finished == state.total,
        played(state, results).failure == if state.failure is Some {
            state.failure
        } else {
            first_failure(results)
        },
    decreases results.len(), state.total - state.started,
{
    match state.turn() {
        Turn::Start(_) => {
            lemma_round_runs_to_the_end(state.taken(), results);
        },
        Turn::Wait => {
            lemma_round_runs_to_the_end(state.completed(results[0]), results.drop_first());
        },
        Turn::Finish => {},
    }
}

} // verus!

//! The loop that runs round after round until it is told to stop.
//!
//! The loop is a machine: [`Atrain::tick`] takes where the loop stands and
//! what has happened, and says where it stands now and what to do.

use vstd::prelude::*;
use crate::{Atrain, Error};

verus! {

/// How many seconds lie between the end of a round and the start of the
/// next.
pub const INTERVAL: u64 = 60;

/// Where the loop stands.
#[derive(Debug, PartialEq, Eq)]
pub enum TickState {
    /// No round is under way: the loop has just begun, or it sleeps.
    Idle,
    /// A round is under way. `cancelled` holds once the loop was told to
    /// stop.
    Syncing { cancelled: bool },
    /// The change tracker is being shut down; the loop then ends with this
    /// result.
    Closing(Result<(), Error>),
    /// The loop has ended.
    Stopped,
}

/// What has happened.
#[derive(Debug)]
pub enum Event {
    /// It is time for a round: the loop begins, or the interval has passed.
    Due,
    /// The round has ended with this result.
    Synced(Result<(), Error>),
    /// The loop was told to stop.
    Cancelled,
    /// The change tracker has shut down.
    Closed,
}

/// What to do.
#[derive(Debug)]
pub enum Action {
    /// Run a round over all drives, then report [`Event::Synced`].
    Sync,
    /// Sleep for this many seconds, then report [`Event::Due`].
    Sleep(u64),
    /// Shut the change tracker down, then report [`Event::Closed`].
    Close,
    /// Leave the loop with this result.
    Exit(Result<(), Error>),
    /// Go on with what is under way.
    Wait,
}

/// The loop's rule.
///
/// A round starts when it is due. When it has ended well the loop sleeps for
/// [`INTERVAL`] seconds; when it has failed the loop ends at once with the
/// failure. Told to stop, the loop starts no other round: it lets a round
/// that is under way end, shuts the change tracker down, and ends with the
/// result of that round. What happens out of turn changes nothing.
pub open spec fn step(state: TickState, event: Event) -> (TickState, Action) {
    match (state, event) {
        (TickState::Idle, Event::Due) => (TickState::Syncing { cancelled: false }, Action::Sync),
        (TickState::Idle, Event::Cancelled) => (TickState::Closing(Ok(())), Action::Close),
        (TickState::Syncing { cancelled: false }, Event::Synced(Ok(_))) => (
            TickState::Idle,
            Action::Sleep(INTERVAL),
        ),
        (TickState::Syncing { cancelled: false }, Event::Synced(Err(error))) => (
            TickState::Stopped,
            Action::Exit(Err(error)),
        ),
        (TickState::Syncing { cancelled: true }, Event::Synced(result)) => (
            TickState::Closing(result),
            Action::Close,
        ),
        (TickState::Syncing { .. }, Event::Cancelled) => (
            TickState::Syncing { cancelled: true },
            Action::Wait,
        ),
        (TickState::Closing(result), Event::Closed) => (TickState::Stopped, Action::Exit(result)),
        _ => (state, Action::Wait),
    }
}

/// Whether the loop was told to stop, or has ended, as far as its state
/// shows.
pub open spec fn stopping(state: TickState) -> bool {
    state != TickState::Idle && state != (TickState::Syncing { cancelled: false })
}

impl Atrain {
    /// Takes the loop one step on: from where it stands and what has
    /// happened to where it stands now and what to do. The loop begins in
    /// [`TickState::Idle`], and its first event is [`Event::Due`].
    pub fn tick(state: TickState, event: Event) -> (next: (TickState, Action))
        ensures
            next == step(state, event),
    {
        match (state, event) {
            (TickState::Idle, Event::Due) => (TickState::Syncing { cancelled: false }, Action::Sync),
            (TickState::Idle, Event::Cancelled) => (TickState::Closing(Ok(())), Action::Close),
            (TickState::Syncing { cancelled: false }, Event::Synced(Ok(()))) => (
                TickState::Idle,
                Action::Sleep(INTERVAL),
            ),
            (TickState::Syncing { cancelled: false }, Event::Synced(Err(error))) => (
                TickState::Stopped,
                Action::Exit(Err(error)),
            ),
            (TickState::Syncing { cancelled: true }, Event::Synced(result)) => (
                TickState::Closing(result),
                Action::Close,
            ),
            (TickState::Syncing { .. }, Event::Cancelled) => (
                TickState::Syncing { cancelled: true },
                Action::Wait,
            ),
            (TickState::Closing(result), Event::Closed) => (
                TickState::Stopped,
                Action::Exit(result),
            ),
            (state, _) => (state, Action::Wait),
        }
    }
}

/// Once the loop was told to stop it starts no round and does not go to
/// sleep, whatever happens, and it does not forget that it was told.
pub proof fn lemma_no_round_after_cancel(state: TickState, event: Event)
    ensures
        stopping(step(state, Event::Cancelled).0),
        stopping(state) ==> {
            &&& stopping(step(state, event).0)
            &&& !(step(state, event).1 is Sync)
            &&& !(step(state, event).1 is Sleep)
        },
{
}

/// A round that is under way when the loop is told to stop is left to end.
/// The loop then shuts the tracker down and ends with the result of that
/// round, failure or not.
pub proof fn lemma_round_in_flight_completes(cancelled: bool, result: Result<(), Error>)
    ensures
        step(TickState::Syncing { cancelled }, Event::Cancelled) == (
            TickState::Syncing { cancelled: true },
            Action::Wait,
        ),
        step(TickState::Syncing { cancelled: true }, Event::Synced(result)) == (
            TickState::Closing(result),
            Action::Close,
        ),
        step(TickState::Closing(result), Event::Closed) == (TickState::Stopped, Action::Exit(result)),
{
}

/// A round that fails ends the loop with its failure: no other round is
/// tried, and once the loop has ended nothing goes on.
pub proof fn lemma_failure_ends_the_loop(cancelled: bool, error: Error, event: Event)
    ensures
        step(TickState::Syncing { cancelled: false }, Event::Synced(Err(error))) == (
            TickState::Stopped,
            Action::Exit(Err(error)),
        ),
        stopping(step(TickState::Syncing { cancelled }, Event::Synced(Err(error))).0),
        step(TickState::Stopped, event) == (TickState::Stopped, Action::Wait),
{
}

} // verus!

use vstd::prelude::*;
use crate::error::ImuError;

verus! {

/// What the polling loop does about a failure.
#[derive(Clone, Copy, Debug, PartialEq, Eq, Structural)]
pub enum RecoveryAction {
    /// Count a dropped sample and poll again.
    CountDrop,
    /// Run a bring-up on the engine that is there; escalate to
    /// `Reinitialize` if that fails.
    LocalReset,
    /// Discard the engine and the bus handle and build both anew, with
    /// backoff, until it succeeds or the caller cancels.
    Reinitialize,
}

/// The action for each kind of failure.
pub open spec fn recovery_for(e: ImuError) -> RecoveryAction {
    match e {
        ImuError::Timeout => RecoveryAction::CountDrop,
        ImuError::SensorReset | ImuError::Comm | ImuError::Protocol(_) => RecoveryAction::LocalReset,
        ImuError::Bus | ImuError::ProductId => RecoveryAction::Reinitialize,
    }
}

/// Classifies a failure reported by the engine or the transport.
pub fn classify_error(e: ImuError) -> (r: RecoveryAction)
    ensures
        r == recovery_for(e),
{
    match e {
        ImuError::Timeout => RecoveryAction::CountDrop,
        ImuError::SensorReset | ImuError::Comm | ImuError::Protocol(_) => RecoveryAction::LocalReset,
        ImuError::Bus | ImuError::ProductId => RecoveryAction::Reinitialize,
    }
}

/// Pause before a local reset after a communication error, in milliseconds.
pub const COMM_RESET_PAUSE_MS: u64 = 10;

/// How long to pause before the local reset that `e` calls for: a short
/// pause after a communication error, none otherwise.
pub fn pause_before_reset_ms(e: ImuError) -> (r: u64)
    ensures
        r == if e == ImuError::Comm { COMM_RESET_PAUSE_MS } else { 0 },
{
    if e == ImuError::Comm {
        COMM_RESET_PAUSE_MS
    } else {
        0
    }
}

/// What follows a local reset: nothing when it succeeded, a full
/// reinitialization when it failed.
pub fn after_local_reset(succeeded: bool) -> (r: Option<RecoveryAction>)
    ensures
        r == if succeeded { None } else { Some(RecoveryAction::Reinitialize) },
{
    if succeeded {
        None
    } else {
        Some(RecoveryAction::Reinitialize)
    }
}

/// First wait between reinitialization attempts, in milliseconds.
pub const INITIAL_BACKOFF_MS: u64 = 100;

/// Longest wait between reinitialization attempts, in milliseconds.
pub const MAX_BACKOFF_MS: u64 = 2000;

/// Longest single read while polling, in milliseconds.
pub const MAX_POLL_WAIT_MS: u64 = 250;

/// The wait after `current`: doubled, capped at `MAX_BACKOFF_MS`.
pub fn next_backoff_ms(current: u64) -> (r: u64)
    ensures
        r == if 2 * current > MAX_BACKOFF_MS { MAX_BACKOFF_MS as int } else { 2 * current },
{
    if current > MAX_BACKOFF_MS / 2 {
        MAX_BACKOFF_MS
    } else {
        current * 2
    }
}

/// The backoff before attempt `n` (counting from zero).
pub open spec fn backoff_schedule(n: nat) -> int
    decreases n,
{
    if n == 0 {
        INITIAL_BACKOFF_MS as int
    } else {
        let prev = backoff_schedule((n - 1) as nat);
        if 2 * prev > MAX_BACKOFF_MS {
            MAX_BACKOFF_MS as int
        } else {
            2 * prev
        }
    }
}

/// Starting from `INITIAL_BACKOFF_MS` and applying `next_backoff_ms`, the
/// wait never drops below the first one nor exceeds `MAX_BACKOFF_MS`, and it
/// never shrinks from one attempt to the next.
pub proof fn lemma_backoff_bounded(n: nat)
    ensures
        INITIAL_BACKOFF_MS <= backoff_schedule(n) <= MAX_BACKOFF_MS,
        backoff_schedule(n) <= backoff_schedule(n + 1),
    decreases n,
{
    if n > 0 {
        lemma_backoff_bounded((n - 1) as nat);
    }
}

/// How long the next read may wait when `remaining_ms` of the poll budget
/// are left: at most `MAX_POLL_WAIT_MS`.
pub fn poll_wait_ms(remaining_ms: u64) -> (r: u8)
    ensures
        r as int == if remaining_ms > MAX_POLL_WAIT_MS { MAX_POLL_WAIT_MS as int } else { remaining_ms as int },
{
    if remaining_ms > MAX_POLL_WAIT_MS {
        MAX_POLL_WAIT_MS as u8
    } else {
        remaining_ms as u8
    }
}

} // verus!

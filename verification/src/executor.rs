use std::sync::atomic::{AtomicUsize, Ordering};
use vstd::prelude::*;

verus! {

/// A task that is not queued and not being polled.
pub const TASK_IDLE: usize = 0;

/// A task that is queued or being polled.
pub const POLLING: usize = 1;

/// A task that was woken while being polled: it must be polled again.
pub const NOTIFIED: usize = 2;

/// A task whose future has finished.
pub const COMPLETED: usize = 3;

/// What a worker does with a task whose poll returned pending, once it has
/// read the task's state.
#[derive(PartialEq, Eq, Structural, Clone, Copy)]
pub enum PendingDecision {
    /// The task was not woken meanwhile: try to mark it idle.
    TryPark,
    /// The task was woken meanwhile: mark it polling and poll it again.
    Repoll,
    /// The state is one a pending task can never be in.
    Corrupt,
}

/// The decision for a pending task whose state reads `observed`.
pub open spec fn pending_decision_spec(observed: usize) -> PendingDecision {
    if observed == POLLING {
        PendingDecision::TryPark
    } else if observed == NOTIFIED {
        PendingDecision::Repoll
    } else {
        PendingDecision::Corrupt
    }
}

/// The decision for a pending task whose state reads `observed`.
pub fn pending_decision(observed: usize) -> (r: PendingDecision)
    ensures
        r == pending_decision_spec(observed),
{
    if observed == POLLING {
        PendingDecision::TryPark
    } else if observed == NOTIFIED {
        PendingDecision::Repoll
    } else {
        PendingDecision::Corrupt
    }
}

/// How one round of settling a pending task ended.
#[derive(PartialEq, Eq, Structural, Clone, Copy)]
pub enum Settled {
    /// The task is idle; the worker lets go of it.
    Parked,
    /// The task was woken meanwhile; it is polling again and must be polled.
    Repoll,
    /// The state changed under the worker; settle again.
    Retry,
    /// The state is one a pending task can never be in.
    Corrupt,
}

/// The outcome of settling a task whose state read `observed`, where
/// `exchanged` tells whether a compare-exchange was made and whether it won: a
/// polling task is parked exactly when its compare-exchange to idle wins and
/// is retried when it loses; a notified task is polled again; anything else is
/// corrupt. Only a polling task is compare-exchanged.
pub open spec fn settles_as(observed: usize, exchanged: Option<bool>, r: Settled) -> bool {
    match pending_decision_spec(observed) {
        PendingDecision::TryPark => match exchanged {
            Some(won) => r == (if won {
                Settled::Parked
            } else {
                Settled::Retry
            }),
            None => false,
        },
        PendingDecision::Repoll => exchanged is None && r == Settled::Repoll,
        PendingDecision::Corrupt => exchanged is None && r == Settled::Corrupt,
    }
}

/// One round of settling a task whose poll returned pending: a task still in
/// `POLLING` goes to `TASK_IDLE` by compare-exchange (and the round is retried
/// if the state changed in between), a `NOTIFIED` task goes back to `POLLING`
/// to be polled again. Returns the outcome, the state it read, and whether a
/// compare-exchange was made and won. Whether it wins depends on other
/// threads and is left open.
pub fn settle_pending(state: &AtomicUsize) -> (r: (Settled, usize, Option<bool>))
    ensures
        settles_as(r.1, r.2, r.0),
{
    let observed = state.load(Ordering::SeqCst);
    match pending_decision(observed) {
        PendingDecision::TryPark => {
            match state.compare_exchange(POLLING, TASK_IDLE, Ordering::SeqCst, Ordering::SeqCst) {
                Ok(_) => (Settled::Parked, observed, Some(true)),
                Err(_) => (Settled::Retry, observed, Some(false)),
            }
        },
        PendingDecision::Repoll => {
            state.store(POLLING, Ordering::SeqCst);
            (Settled::Repoll, observed, None)
        },
        PendingDecision::Corrupt => (Settled::Corrupt, observed, None),
    }
}

/// What a wake does to a task whose state reads `observed`.
#[derive(PartialEq, Eq, Structural, Clone, Copy)]
pub enum WakeDecision {
    /// The task is idle: claim it (idle to polling) and queue it.
    TryEnqueue,
    /// The task is queued or being polled: flag it (polling to notified) so
    /// that the worker polls it again instead of parking it.
    TryNotify,
    /// The task is already flagged, or finished: nothing to do.
    Ignore,
    /// The state is not one of the task states.
    Corrupt,
}

/// The decision of a wake for a task whose state reads `observed`.
pub open spec fn wake_decision_spec(observed: usize) -> WakeDecision {
    if observed == TASK_IDLE {
        WakeDecision::TryEnqueue
    } else if observed == POLLING {
        WakeDecision::TryNotify
    } else if observed == NOTIFIED || observed == COMPLETED {
        WakeDecision::Ignore
    } else {
        WakeDecision::Corrupt
    }
}

/// The decision of a wake for a task whose state reads `observed`.
pub fn wake_decision(observed: usize) -> (r: WakeDecision)
    ensures
        r == wake_decision_spec(observed),
{
    if observed == TASK_IDLE {
        WakeDecision::TryEnqueue
    } else if observed == POLLING {
        WakeDecision::TryNotify
    } else if observed == NOTIFIED || observed == COMPLETED {
        WakeDecision::Ignore
    } else {
        WakeDecision::Corrupt
    }
}

/// How one round of waking a task ended.
#[derive(PartialEq, Eq, Structural, Clone, Copy)]
pub enum Woken {
    /// The task was claimed: the waker must queue it and wake a worker.
    Enqueue,
    /// The task was flagged for another poll.
    Notified,
    /// Nothing to do.
    Ignored,
    /// The state changed under the waker; wake again.
    Retry,
    /// The state is not one of the task states.
    Corrupt,
}

/// The outcome of waking a task whose state read `observed`, where
/// `exchanged` tells whether a compare-exchange was made and whether it won:
/// an idle task is queued exactly when its compare-exchange to polling wins, a
/// polling task is flagged exactly when its compare-exchange to notified wins,
/// each is retried when it loses; a flagged or finished task is left alone,
/// and anything else is corrupt.
pub open spec fn wakes_as(observed: usize, exchanged: Option<bool>, r: Woken) -> bool {
    match wake_decision_spec(observed) {
        WakeDecision::TryEnqueue => match exchanged {
            Some(won) => r == (if won {
                Woken::Enqueue
            } else {
                Woken::Retry
            }),
            None => false,
        },
        WakeDecision::TryNotify => match exchanged {
            Some(won) => r == (if won {
                Woken::Notified
            } else {
                Woken::Retry
            }),
            None => false,
        },
        WakeDecision::Ignore => exchanged is None && r == Woken::Ignored,
        WakeDecision::Corrupt => exchanged is None && r == Woken::Corrupt,
    }
}

/// One round of waking a task: an idle task is claimed for the queue by
/// compare-exchange to `POLLING`, a polling task is flagged `NOTIFIED` by
/// compare-exchange; a lost compare-exchange asks for another round. Returns
/// the outcome, the state it read, and whether a compare-exchange was made and
/// won. Whether it wins depends on other threads and is left open.
pub fn wake_task(state: &AtomicUsize) -> (r: (Woken, usize, Option<bool>))
    ensures
        wakes_as(r.1, r.2, r.0),
{
    let observed = state.load(Ordering::SeqCst);
    match wake_decision(observed) {
        WakeDecision::TryEnqueue => {
            match state.compare_exchange(TASK_IDLE, POLLING, Ordering::SeqCst, Ordering::SeqCst) {
                Ok(_) => (Woken::Enqueue, observed, Some(true)),
                Err(_) => (Woken::Retry, observed, Some(false)),
            }
        },
        WakeDecision::TryNotify => {
            match state.compare_exchange(POLLING, NOTIFIED, Ordering::SeqCst, Ordering::SeqCst) {
                Ok(_) => (Woken::Notified, observed, Some(true)),
                Err(_) => (Woken::Retry, observed, Some(false)),
            }
        },
        WakeDecision::Ignore => (Woken::Ignored, observed, None),
        WakeDecision::Corrupt => (Woken::Corrupt, observed, None),
    }
}

/// Marks a task whose future finished as completed.
pub fn complete(state: &AtomicUsize) {
    state.store(COMPLETED, Ordering::SeqCst);
}

} // verus!

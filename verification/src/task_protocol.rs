use crate::executor::{
    pending_decision_spec, wake_decision_spec, PendingDecision, WakeDecision, COMPLETED, NOTIFIED,
    POLLING, TASK_IDLE,
};
use vstd::prelude::*;

verus! {

/// A snapshot of one task: its state word, how many copies of it sit in the
/// run queues, and whether a worker is polling it.
pub struct TaskModel {
    pub state: usize,
    pub queued: nat,
    pub running: bool,
}

/// One atomic action on a task.
pub enum TaskEvent {
    /// A waker reads the state and acts on it by compare-exchange.
    Wake,
    /// A worker takes the task out of a queue and starts polling it.
    Dequeue,
    /// The poll finished: the output is sent and the task completes.
    PollReady,
    /// The poll returned pending: the worker settles the task.
    PollPending,
}

/// A freshly spawned task: polling, one copy queued, no worker on it.
pub open spec fn task_spawned() -> TaskModel {
    TaskModel { state: POLLING, queued: 1, running: false }
}

/// The effect of `event` on `t`, or `None` where it cannot happen.
pub open spec fn task_next(t: TaskModel, event: TaskEvent) -> Option<TaskModel> {
    match event {
        TaskEvent::Wake => match wake_decision_spec(t.state) {
            WakeDecision::TryEnqueue => Some(TaskModel { state: POLLING, queued: t.queued + 1, ..t }),
            WakeDecision::TryNotify => Some(TaskModel { state: NOTIFIED, ..t }),
            WakeDecision::Ignore => Some(t),
            WakeDecision::Corrupt => None,
        },
        TaskEvent::Dequeue => if t.queued > 0 && !t.running {
            Some(TaskModel { queued: (t.queued - 1) as nat, running: true, ..t })
        } else {
            None
        },
        TaskEvent::PollReady => if t.running {
            Some(TaskModel { state: COMPLETED, running: false, ..t })
        } else {
            None
        },
        TaskEvent::PollPending => if t.running {
            match pending_decision_spec(t.state) {
                PendingDecision::TryPark => Some(TaskModel { state: TASK_IDLE, running: false, ..t }),
                PendingDecision::Repoll => Some(TaskModel { state: POLLING, ..t }),
                PendingDecision::Corrupt => None,
            }
        } else {
            None
        },
    }
}

/// The invariant of a task: a queued or running task is polling or notified,
/// it is then in exactly one place (one queue entry, or one worker), and an
/// idle or completed task is neither queued nor polled.
pub open spec fn task_inv(t: TaskModel) -> bool {
    if t.state == POLLING || t.state == NOTIFIED {
        t.queued + (if t.running { 1nat } else { 0nat }) == 1
    } else {
        (t.state == TASK_IDLE || t.state == COMPLETED) && t.queued == 0 && !t.running
    }
}

/// A spawned task satisfies the invariant.
pub proof fn lemma_task_spawned()
    ensures
        task_inv(task_spawned()),
{
}

/// Every wake, dequeue and poll outcome keeps the invariant, and none of them
/// meets a corrupt state.
pub proof fn lemma_task_step(t: TaskModel, event: TaskEvent)
    requires
        task_inv(t),
        event is Wake || (event is Dequeue && t.queued > 0 && !t.running) || ((event is PollReady
            || event is PollPending) && t.running),
    ensures
        task_next(t, event) is Some,
        task_inv(task_next(t, event)->0),
{
}

/// A task never sits in a queue twice, and never sits in a queue while a
/// worker polls it.
pub proof fn lemma_task_queued_once(t: TaskModel)
    requires
        task_inv(t),
    ensures
        t.queued <= 1,
        t.running ==> t.queued == 0,
{
}

/// A completed task is never queued again: every later wake leaves it alone.
pub proof fn lemma_completed_stays(t: TaskModel)
    requires
        task_inv(t),
        t.state == COMPLETED,
    ensures
        task_next(t, TaskEvent::Wake) == Some(t),
{
}

/// No wake is lost while a task is polled: a wake that arrives during the poll
/// makes the worker poll the task again instead of parking it.
pub proof fn lemma_wake_during_poll_repolls(t: TaskModel)
    requires
        task_inv(t),
        t.running,
        t.state == POLLING,
    ensures
        ({
            let woken = task_next(t, TaskEvent::Wake)->0;
            &&& woken.state == NOTIFIED
            &&& task_next(woken, TaskEvent::PollPending)->0.running
            &&& task_next(woken, TaskEvent::PollPending)->0.state == POLLING
        }),
{
}

/// A wake of an idle task queues it exactly once.
pub proof fn lemma_wake_idle_enqueues(t: TaskModel)
    requires
        task_inv(t),
        t.state == TASK_IDLE,
    ensures
        task_next(t, TaskEvent::Wake)->0 == (TaskModel { state: POLLING, queued: 1, running: false }),
{
}

} // verus!

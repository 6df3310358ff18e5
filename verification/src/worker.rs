use vstd::prelude::*;

verus! {

/// The two run queues of the runtime.
#[derive(PartialEq, Eq, Structural, Clone, Copy)]
pub enum Queue {
    /// Tasks spawned as blocking.
    Low,
    /// Tasks spawned as regular.
    High,
}

/// The two kinds of worker thread.
#[derive(PartialEq, Eq, Structural, Clone, Copy)]
pub enum WorkerKind {
    /// The blocking worker: serves the low queue first.
    Blocking,
    /// A regular worker: serves the high queue first.
    Regular,
}

/// Where a worker stands in its scheduling loop.
#[derive(PartialEq, Eq, Structural, Clone, Copy)]
pub enum Phase {
    /// About to learn whether the runtime is still running.
    Start,
    /// Running every task of its own queue.
    DrainOwn,
    /// Own queue empty: trying one task of the other queue.
    TakeOther,
    /// The runtime stopped: running what is left in its own queue.
    FinalDrain,
    /// The thread has ended.
    Stopped,
}

/// What the worker thread learnt by performing the last action.
#[derive(PartialEq, Eq, Structural, Clone, Copy)]
pub enum Observation {
    /// The value of the runtime's running flag.
    Running(bool),
    /// Whether the pop found a task (which the worker then ran).
    Popped(bool),
}

/// What the worker thread must do next.
#[derive(PartialEq, Eq, Structural, Clone, Copy)]
pub enum Action {
    /// Read the running flag.
    CheckRunning,
    /// Pop a task from the queue and run it if there was one.
    Pop(Queue),
    /// Sleep until woken, then read the running flag.
    Sleep,
    /// End the thread.
    Exit,
}

/// The queue a worker of `kind` serves first.
pub open spec fn own_queue(kind: WorkerKind) -> Queue {
    match kind {
        WorkerKind::Blocking => Queue::Low,
        WorkerKind::Regular => Queue::High,
    }
}

/// The queue a worker of `kind` helps with when its own is empty.
pub open spec fn other_queue(kind: WorkerKind) -> Queue {
    match kind {
        WorkerKind::Blocking => Queue::High,
        WorkerKind::Regular => Queue::Low,
    }
}

/// Whether `obs` is what the action issued on entering `phase` yields.
pub open spec fn expects(phase: Phase, obs: Observation) -> bool {
    match phase {
        Phase::Start => obs is Running,
        Phase::DrainOwn | Phase::TakeOther | Phase::FinalDrain => obs is Popped,
        Phase::Stopped => false,
    }
}

/// The scheduling decision of a worker.
pub open spec fn worker_step(kind: WorkerKind, phase: Phase, obs: Observation) -> (Phase, Action) {
    match (phase, obs) {
        (Phase::Start, Observation::Running(true)) => (Phase::DrainOwn, Action::Pop(own_queue(kind))),
        (Phase::Start, Observation::Running(false)) => (
            Phase::FinalDrain,
            Action::Pop(own_queue(kind)),
        ),
        (Phase::DrainOwn, Observation::Popped(true)) => (
            Phase::DrainOwn,
            Action::Pop(own_queue(kind)),
        ),
        (Phase::DrainOwn, Observation::Popped(false)) => (
            Phase::TakeOther,
            Action::Pop(other_queue(kind)),
        ),
        (Phase::TakeOther, Observation::Popped(true)) => (Phase::Start, Action::CheckRunning),
        (Phase::TakeOther, Observation::Popped(false)) => (Phase::Start, Action::Sleep),
        (Phase::FinalDrain, Observation::Popped(true)) => (
            Phase::FinalDrain,
            Action::Pop(own_queue(kind)),
        ),
        (Phase::FinalDrain, Observation::Popped(false)) => (Phase::Stopped, Action::Exit),
        _ => (Phase::Stopped, Action::Exit),
    }
}

/// The phase and action a worker thread begins with.
pub fn worker_begin() -> (r: (Phase, Action))
    ensures
        r == (Phase::Start, Action::CheckRunning),
{
    (Phase::Start, Action::CheckRunning)
}

/// The next phase and action of a worker of `kind` in `phase` that observed `obs`.
pub fn worker_next(kind: WorkerKind, phase: Phase, obs: Observation) -> (r: (Phase, Action))
    requires
        expects(phase, obs),
    ensures
        r == worker_step(kind, phase, obs),
{
    let own = match kind {
        WorkerKind::Blocking => Queue::Low,
        WorkerKind::Regular => Queue::High,
    };
    let other = match kind {
        WorkerKind::Blocking => Queue::High,
        WorkerKind::Regular => Queue::Low,
    };
    match phase {
        Phase::Start => match obs {
            Observation::Running(true) => (Phase::DrainOwn, Action::Pop(own)),
            _ => (Phase::FinalDrain, Action::Pop(own)),
        },
        Phase::DrainOwn => match obs {
            Observation::Popped(true) => (Phase::DrainOwn, Action::Pop(own)),
            _ => (Phase::TakeOther, Action::Pop(other)),
        },
        Phase::TakeOther => match obs {
            Observation::Popped(true) => (Phase::Start, Action::CheckRunning),
            _ => (Phase::Start, Action::Sleep),
        },
        Phase::FinalDrain => match obs {
            Observation::Popped(true) => (Phase::FinalDrain, Action::Pop(own)),
            _ => (Phase::Stopped, Action::Exit),
        },
        Phase::Stopped => (Phase::Stopped, Action::Exit),
    }
}

/// The phase a worker of `kind` reaches from `phase` through the observations
/// `obs`, stopping early at an observation its phase does not expect.
pub open spec fn worker_run(kind: WorkerKind, phase: Phase, obs: Seq<Observation>) -> Phase
    decreases obs.len(),
{
    if obs.len() == 0 || !expects(phase, obs[0]) {
        phase
    } else {
        worker_run(kind, worker_step(kind, phase, obs[0]).0, obs.drop_first())
    }
}

/// A worker ends its thread only after it read the running flag as false and
/// then found its own queue empty.
pub proof fn lemma_exit_after_stop_and_drain(kind: WorkerKind, phase: Phase, obs: Observation)
    requires
        expects(phase, obs),
        worker_step(kind, phase, obs).1 == Action::Exit,
    ensures
        phase == Phase::FinalDrain,
        obs == Observation::Popped(false),
{
}

/// After the running flag reads false, a worker only pops its own queue.
pub proof fn lemma_final_drain_own_queue(kind: WorkerKind, phase: Phase, obs: Observation)
    requires
        expects(phase, obs),
        worker_step(kind, phase, obs).0 == Phase::FinalDrain,
    ensures
        worker_step(kind, phase, obs).1 == Action::Pop(own_queue(kind)),
        (phase == Phase::Start && obs == Observation::Running(false)) || (phase
            == Phase::FinalDrain && obs == Observation::Popped(true)),
{
}

/// A worker that starts running and only ever reads the running flag as true
/// never stops.
pub proof fn lemma_no_stop_while_running(kind: WorkerKind, phase: Phase, obs: Seq<Observation>)
    requires
        phase != Phase::FinalDrain,
        phase != Phase::Stopped,
        forall|i: int| 0 <= i < obs.len() ==> obs[i] != Observation::Running(false),
    ensures
        worker_run(kind, phase, obs) != Phase::Stopped,
        worker_run(kind, phase, obs) != Phase::FinalDrain,
    decreases obs.len(),
{
    if obs.len() == 0 || !expects(phase, obs[0]) {
    } else {
        let next = worker_step(kind, phase, obs[0]).0;
        assert(obs[0] != Observation::Running(false));
        assert forall|i: int| 0 <= i < obs.drop_first().len() implies obs.drop_first()[i]
            != Observation::Running(false) by {
            assert(obs.drop_first()[i] == obs[i + 1]);
        }
        lemma_no_stop_while_running(kind, next, obs.drop_first());
    }
}

/// Between two reads of the running flag, a running worker empties its own
/// queue before it tries the other one.
pub proof fn lemma_own_queue_first(kind: WorkerKind, phase: Phase, obs: Observation)
    requires
        expects(phase, obs),
        worker_step(kind, phase, obs).1 == Action::Pop(other_queue(kind)),
    ensures
        phase == Phase::DrainOwn,
        obs == Observation::Popped(false),
{
}

/// The phases a worker of `kind` passes through from `phase`: entry `i` is
/// the phase in which it receives `obs[i]`. The trace ends at the first
/// observation its phase does not expect (after `Exit`, none is expected).
pub open spec fn worker_phases(kind: WorkerKind, phase: Phase, obs: Seq<Observation>) -> Seq<Phase>
    decreases obs.len(),
{
    if obs.len() == 0 || !expects(phase, obs[0]) {
        Seq::empty()
    } else {
        seq![phase] + worker_phases(kind, worker_step(kind, phase, obs[0]).0, obs.drop_first())
    }
}

/// The action a worker takes on receiving `obs[i]` in the trace `phases`.
pub open spec fn worker_action_at(
    kind: WorkerKind,
    phases: Seq<Phase>,
    obs: Seq<Observation>,
    i: int,
) -> Action {
    worker_step(kind, phases[i], obs[i]).1
}

proof fn lemma_phases_shape(kind: WorkerKind, phase: Phase, obs: Seq<Observation>)
    ensures
        ({
            let ps = worker_phases(kind, phase, obs);
            &&& ps.len() <= obs.len()
            &&& ps.len() > 0 ==> ps[0] == phase
            &&& forall|i: int| 0 <= i < ps.len() ==> expects(#[trigger] ps[i], obs[i])
            &&& forall|i: int|
                0 < i < ps.len() ==> #[trigger] ps[i] == worker_step(kind, ps[i - 1], obs[i - 1]).0
        }),
    decreases obs.len(),
{
    if obs.len() == 0 || !expects(phase, obs[0]) {
    } else {
        let next = worker_step(kind, phase, obs[0]).0;
        let rest = worker_phases(kind, next, obs.drop_first());
        lemma_phases_shape(kind, next, obs.drop_first());
        let ps = worker_phases(kind, phase, obs);
        assert(ps == seq![phase] + rest);
        assert forall|i: int| 0 <= i < ps.len() implies expects(#[trigger] ps[i], obs[i]) by {
            if i > 0 {
                assert(ps[i] == rest[i - 1]);
                assert(obs[i] == obs.drop_first()[i - 1]);
            }
        }
        assert forall|i: int| 0 < i < ps.len() implies #[trigger] ps[i] == worker_step(
            kind,
            ps[i - 1],
            obs[i - 1],
        ).0 by {
            assert(ps[i] == rest[i - 1]);
            if i > 1 {
                assert(ps[i - 1] == rest[i - 2]);
                assert(obs[i - 1] == obs.drop_first()[i - 2]);
                assert(rest[i - 1] == worker_step(kind, rest[i - 2], obs.drop_first()[i - 2]).0);
            }
        }
    }
}

proof fn lemma_stays_in_final_drain(
    kind: WorkerKind,
    phase: Phase,
    obs: Seq<Observation>,
    j: int,
    i: int,
)
    requires
        0 <= j < i < worker_phases(kind, phase, obs).len(),
        obs[j] == Observation::Running(false),
    ensures
        worker_phases(kind, phase, obs)[i] == Phase::FinalDrain,
    decreases i - j,
{
    let ps = worker_phases(kind, phase, obs);
    lemma_phases_shape(kind, phase, obs);
    assert(expects(ps[i], obs[i]));
    assert(ps[i] == worker_step(kind, ps[i - 1], obs[i - 1]).0);
    if i == j + 1 {
        assert(expects(ps[j], obs[j]));
    } else {
        lemma_stays_in_final_drain(kind, phase, obs, j, i - 1);
        assert(expects(ps[i - 1], obs[i - 1]));
    }
}

proof fn lemma_schedule_at(kind: WorkerKind, obs: Seq<Observation>, i: int)
    requires
        0 <= i < worker_phases(kind, Phase::Start, obs).len(),
    ensures
        ({
            let ps = worker_phases(kind, Phase::Start, obs);
            let a = worker_action_at(kind, ps, obs, i);
            &&& a == Action::Pop(other_queue(kind)) ==> ps[i] == Phase::DrainOwn && obs[i]
                == Observation::Popped(false)
            &&& a == Action::Sleep ==> 1 <= i && ps[i] == Phase::TakeOther && obs[i]
                == Observation::Popped(false) && ps[i - 1] == Phase::DrainOwn && obs[i - 1]
                == Observation::Popped(false)
            &&& a == Action::Exit ==> ps[i] == Phase::FinalDrain && obs[i] == Observation::Popped(
                false,
            ) && i == ps.len() - 1
        }),
{
    let ps = worker_phases(kind, Phase::Start, obs);
    lemma_phases_shape(kind, Phase::Start, obs);
    assert(expects(ps[i], obs[i]));
    if i > 0 {
        assert(ps[i] == worker_step(kind, ps[i - 1], obs[i - 1]).0);
        assert(expects(ps[i - 1], obs[i - 1]));
    }
    if i + 1 < ps.len() {
        assert(ps[i + 1] == worker_step(kind, ps[i], obs[i]).0);
        assert(expects(ps[i + 1], obs[i + 1]));
    }
}

/// The scheduling law of a worker that starts its loop: in every round it
/// empties its own queue before it takes from the other one; it sleeps only
/// after finding both queues empty; once it reads the running flag as false
/// it pops only its own queue; and it exits only when that queue is found
/// empty, as its last action.
pub proof fn lemma_worker_schedule(kind: WorkerKind, obs: Seq<Observation>)
    ensures
        ({
            let ps = worker_phases(kind, Phase::Start, obs);
            &&& forall|i: int|
                0 <= i < ps.len() && #[trigger] worker_action_at(kind, ps, obs, i) == Action::Pop(
                    other_queue(kind),
                ) ==> ps[i] == Phase::DrainOwn && obs[i] == Observation::Popped(false)
            &&& forall|i: int|
                0 <= i < ps.len() && #[trigger] worker_action_at(kind, ps, obs, i) == Action::Sleep
                    ==> 1 <= i && ps[i] == Phase::TakeOther && obs[i] == Observation::Popped(false)
                    && ps[i - 1] == Phase::DrainOwn && obs[i - 1] == Observation::Popped(false)
            &&& forall|j: int, i: int|
                #![trigger worker_action_at(kind, ps, obs, i), obs[j]]
                0 <= j < i < ps.len() && obs[j] == Observation::Running(false) ==> (
                worker_action_at(kind, ps, obs, i) == Action::Pop(own_queue(kind))
                    || worker_action_at(kind, ps, obs, i) == Action::Exit)
            &&& forall|i: int|
                0 <= i < ps.len() && #[trigger] worker_action_at(kind, ps, obs, i) == Action::Exit
                    ==> ps[i] == Phase::FinalDrain && obs[i] == Observation::Popped(false) && i
                    == ps.len() - 1
        }),
{
    let ps = worker_phases(kind, Phase::Start, obs);
    assert forall|i: int| 0 <= i < ps.len() implies {
        let a = #[trigger] worker_action_at(kind, ps, obs, i);
        &&& a == Action::Pop(other_queue(kind)) ==> ps[i] == Phase::DrainOwn && obs[i]
            == Observation::Popped(false)
        &&& a == Action::Sleep ==> 1 <= i && ps[i] == Phase::TakeOther && obs[i]
            == Observation::Popped(false) && ps[i - 1] == Phase::DrainOwn && obs[i - 1]
            == Observation::Popped(false)
        &&& a == Action::Exit ==> ps[i] == Phase::FinalDrain && obs[i] == Observation::Popped(
            false,
        ) && i == ps.len() - 1
    } by {
        lemma_schedule_at(kind, obs, i);
    }
    assert forall|j: int, i: int|
        #![trigger worker_action_at(kind, ps, obs, i), obs[j]]
        0 <= j < i < ps.len() && obs[j] == Observation::Running(false) implies (
        worker_action_at(kind, ps, obs, i) == Action::Pop(own_queue(kind))
            || worker_action_at(kind, ps, obs, i) == Action::Exit) by {
        lemma_stays_in_final_drain(kind, Phase::Start, obs, j, i);
        lemma_phases_shape(kind, Phase::Start, obs);
        assert(expects(ps[i], obs[i]));
    }
}

} // verus!

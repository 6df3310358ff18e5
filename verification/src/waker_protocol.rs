use crate::atomicwaker::{waker_claims_slot, IDLE, UPDATING, WAKING};
use vstd::prelude::*;

verus! {

/// Where the task side of an [`crate::AtomicWaker`] stands in
/// `try_update`, with the waker it is installing.
pub enum TaskSide {
    /// Not touching the slot.
    Idle,
    /// Won the slot (state went from idle to updating); about to write `w`.
    Installing(int),
    /// Wrote `w`; about to try to return the state to idle.
    Installed(int),
    /// Found the waking bit set after writing `w`; about to take and wake it.
    HandingOff(int),
    /// Delivered the wake; about to reset the state to idle.
    Releasing,
}

/// Where the reactor side of an [`crate::AtomicWaker`] stands in `wake`.
pub enum ReactorSide {
    /// Not touching the slot.
    Idle,
    /// Set the waking bit on an idle slot; about to take and wake the waker.
    Taking,
    /// Delivered the wake; about to reset the state to idle.
    Releasing,
}

/// A snapshot of the shared slot and of both sides, with the record of the
/// wakers woken so far and whether a wake request is still owed a delivery.
pub struct ProtocolState {
    pub bits: u8,
    pub slot: Option<int>,
    pub task: TaskSide,
    pub reactor: ReactorSide,
    pub woken: Seq<int>,
    pub owed: bool,
}

/// One atomic action of either side.
pub enum ProtocolStep {
    /// The task side's compare-exchange from idle to updating, offering `w`.
    TaskClaim(int),
    /// The task side writes its waker into the slot.
    TaskWrite,
    /// The task side's compare-exchange from updating back to idle.
    TaskFinish,
    /// The task side takes the slot and wakes what it holds.
    TaskHandOff,
    /// The task side stores idle.
    TaskRelease,
    /// The reactor's fetch-or of the waking bit.
    ReactorRequest,
    /// The reactor takes the slot and wakes what it holds.
    ReactorTake,
    /// The reactor stores idle.
    ReactorRelease,
}

/// The state byte after the waking bit is or-ed into `bits`.
pub open spec fn with_waking(bits: u8) -> u8 {
    if bits >= WAKING {
        bits
    } else {
        (bits + WAKING) as u8
    }
}

/// For the states the protocol reaches, setting the waking bit is a bitwise or.
pub proof fn lemma_with_waking_is_or(bits: u8)
    requires
        bits < 4,
    ensures
        with_waking(bits) == bits | 2u8,
{
    assert(bits < 4 ==> (if bits >= 2 { bits } else { (bits + 2) as u8 }) == bits | 2u8)
        by (bit_vector);
}

/// Takes the slot's waker (if any), records it as woken and clears the slot.
pub open spec fn deliver(s: ProtocolState) -> ProtocolState {
    ProtocolState {
        slot: None,
        woken: match s.slot {
            Some(w) => s.woken.push(w),
            None => s.woken,
        },
        owed: false,
        ..s
    }
}

/// The effect of `step` on `s`, or `None` where the side is not at that step.
pub open spec fn protocol_next(s: ProtocolState, step: ProtocolStep) -> Option<ProtocolState> {
    match step {
        ProtocolStep::TaskClaim(w) => match s.task {
            TaskSide::Idle => if s.bits == IDLE {
                Some(ProtocolState { bits: UPDATING, task: TaskSide::Installing(w), ..s })
            } else {
                Some(s)
            },
            _ => None,
        },
        ProtocolStep::TaskWrite => match s.task {
            TaskSide::Installing(w) => Some(
                ProtocolState { slot: Some(w), task: TaskSide::Installed(w), ..s },
            ),
            _ => None,
        },
        ProtocolStep::TaskFinish => match s.task {
            TaskSide::Installed(w) => if s.bits == UPDATING {
                Some(ProtocolState { bits: IDLE, task: TaskSide::Idle, ..s })
            } else {
                Some(ProtocolState { task: TaskSide::HandingOff(w), ..s })
            },
            _ => None,
        },
        ProtocolStep::TaskHandOff => match s.task {
            TaskSide::HandingOff(_) => Some(
                ProtocolState { task: TaskSide::Releasing, ..deliver(s) },
            ),
            _ => None,
        },
        ProtocolStep::TaskRelease => match s.task {
            TaskSide::Releasing => Some(ProtocolState { bits: IDLE, task: TaskSide::Idle, ..s }),
            _ => None,
        },
        ProtocolStep::ReactorRequest => match s.reactor {
            ReactorSide::Idle => Some(
                ProtocolState {
                    bits: with_waking(s.bits),
                    reactor: if waker_claims_slot(s.bits) {
                        ReactorSide::Taking
                    } else {
                        ReactorSide::Idle
                    },
                    owed: s.owed || s.bits == IDLE || s.bits == UPDATING,
                    ..s
                },
            ),
            _ => None,
        },
        ProtocolStep::ReactorTake => match s.reactor {
            ReactorSide::Taking => Some(
                ProtocolState { reactor: ReactorSide::Releasing, ..deliver(s) },
            ),
            _ => None,
        },
        ProtocolStep::ReactorRelease => match s.reactor {
            ReactorSide::Releasing => Some(
                ProtocolState { bits: IDLE, reactor: ReactorSide::Idle, ..s },
            ),
            _ => None,
        },
    }
}

/// A fresh slot: idle, both sides idle, nothing woken, nothing owed.
pub open spec fn protocol_init(slot: Option<int>) -> ProtocolState {
    ProtocolState {
        bits: IDLE,
        slot,
        task: TaskSide::Idle,
        reactor: ReactorSide::Idle,
        woken: Seq::empty(),
        owed: false,
    }
}

/// Whether the task side is between winning the slot and handing it back.
pub open spec fn task_holds_slot(t: TaskSide) -> bool {
    !(t is Idle)
}

/// The invariant of the protocol: the state byte tells exactly which side
/// holds the slot, the two sides never hold it together, a waker that the
/// task side wrote stays in the slot until it is woken, and an owed wake is
/// always in the hands of a side that will deliver it.
pub open spec fn protocol_inv(s: ProtocolState) -> bool {
    &&& match (s.task, s.reactor) {
        (TaskSide::Idle, ReactorSide::Idle) => s.bits == IDLE && !s.owed,
        (TaskSide::Idle, ReactorSide::Taking) => s.bits == WAKING && s.owed,
        (TaskSide::Idle, ReactorSide::Releasing) => s.bits == WAKING && !s.owed && s.slot is None,
        (TaskSide::Installing(_), ReactorSide::Idle) => (s.bits == UPDATING && !s.owed) || (s.bits
            == 3 && s.owed),
        (TaskSide::Installed(w), ReactorSide::Idle) => s.slot == Some(w) && ((s.bits == UPDATING
            && !s.owed) || (s.bits == 3 && s.owed)),
        (TaskSide::HandingOff(w), ReactorSide::Idle) => s.slot == Some(w) && s.bits == 3 && s.owed,
        (TaskSide::Releasing, ReactorSide::Idle) => s.bits == 3 && !s.owed && s.slot is None,
        _ => false,
    }
}

/// The fresh slot satisfies the invariant.
pub proof fn lemma_protocol_init(slot: Option<int>)
    ensures
        protocol_inv(protocol_init(slot)),
{
}

/// Every step of either side keeps the invariant.
pub proof fn lemma_protocol_step(s: ProtocolState, step: ProtocolStep)
    requires
        protocol_inv(s),
        protocol_next(s, step) is Some,
    ensures
        protocol_inv(protocol_next(s, step)->0),
{
}

/// The two sides never hold the slot at the same time: while the reactor
/// takes or releases, the task side is idle, and while the task side installs
/// or hands off, the reactor is idle.
pub proof fn lemma_exclusive_slot(s: ProtocolState)
    requires
        protocol_inv(s),
    ensures
        !(s.reactor is Idle) ==> s.task is Idle,
        task_holds_slot(s.task) ==> s.reactor is Idle,
{
}

/// When both sides are idle the state byte is idle and no wake is owed: every
/// wake requested so far has been delivered.
pub proof fn lemma_quiescent(s: ProtocolState)
    requires
        protocol_inv(s),
        s.task is Idle,
        s.reactor is Idle,
    ensures
        s.bits == IDLE,
        !s.owed,
{
}

/// No wake request is lost: an owed wake is held either by the reactor, about
/// to take the slot, or by the task side, whose return to idle must fail on the
/// waking bit and hand the wake to the waker it just installed.
pub proof fn lemma_owed_wake_is_delivered(s: ProtocolState)
    requires
        protocol_inv(s),
        s.owed,
    ensures
        s.reactor is Taking || (s.bits == 3 && (s.task is Installing || s.task is Installed
            || s.task is HandingOff)),
        s.task is Installed ==> protocol_next(s, ProtocolStep::TaskFinish)->0.task is HandingOff,
{
}

/// A wake request that neither side takes up finds nothing left to wake: it
/// comes while a delivery is already owed, or after one has emptied the slot.
pub proof fn lemma_absorbed_request(s: ProtocolState)
    requires
        protocol_inv(s),
        s.reactor is Idle,
        !waker_claims_slot(s.bits),
        s.bits != UPDATING,
    ensures
        s.owed || s.slot is None,
{
}

/// A hand-off by the task side wakes exactly the waker it installed.
pub proof fn lemma_hand_off_wakes_installed(s: ProtocolState, w: int)
    requires
        protocol_inv(s),
        s.task == TaskSide::HandingOff(w),
    ensures
        protocol_next(s, ProtocolStep::TaskHandOff)->0.woken == s.woken.push(w),
        protocol_next(s, ProtocolStep::TaskHandOff)->0.slot is None,
{
}

/// A wake request on an idle slot is taken up by the reactor, which then wakes
/// the waker the slot holds; the task side cannot replace it in between.
pub proof fn lemma_idle_request_wakes_slot(s: ProtocolState, w: int)
    requires
        protocol_inv(s),
        s.task is Idle,
        s.reactor is Idle,
        s.slot == Some(w),
    ensures
        ({
            let s1 = protocol_next(s, ProtocolStep::ReactorRequest)->0;
            &&& s1.reactor is Taking
            &&& protocol_next(s1, ProtocolStep::TaskClaim(w))->0 == s1
            &&& protocol_next(s1, ProtocolStep::ReactorTake)->0.woken == s.woken.push(w)
        }),
{
}

} // verus!

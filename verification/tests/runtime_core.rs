use async_runtime::atomicwaker::{dispatch_event, AtomicWaker, Torque};
use async_runtime::executor::{
    complete, pending_decision, settle_pending, wake_decision, wake_task, PendingDecision,
    Settled, WakeDecision, Woken, COMPLETED, NOTIFIED, POLLING, TASK_IDLE,
};
use async_runtime::io::{
    accept_step, register_step, stream_step, ConnectProgress, IoErrorKind, IoStep, RegisterStep,
};
use async_runtime::layout::TokenLayout;
use async_runtime::runtime::{shutdown_result, Runtime, WorkerMeta};
use async_runtime::worker::{worker_begin, worker_next, Action, Observation, Phase, Queue, WorkerKind};
use std::sync::atomic::{AtomicUsize, Ordering};
use std::sync::Arc;
use std::task::{Wake, Waker};

struct CountingWake {
    count: AtomicUsize,
}

impl Wake for CountingWake {
    fn wake(self: Arc<Self>) {
        self.count.fetch_add(1, Ordering::SeqCst);
    }
}

fn counting_waker() -> (Arc<CountingWake>, Waker) {
    let inner = Arc::new(CountingWake { count: AtomicUsize::new(0) });
    let waker = Waker::from(Arc::clone(&inner));
    (inner, waker)
}

fn update(torque: &Torque, index: usize, waker: Waker) -> bool {
    let mut w = waker;
    loop {
        match torque.try_update(index, w) {
            Ok(found) => return found,
            Err(back) => w = back,
        }
    }
}

#[test]
fn builder_splits_below_allowed() {
    let rt = Runtime::builder(8).high_priority_threads(3).build();
    assert_eq!(rt.high_threads(), 3);
    assert_eq!(rt.low_threads(), 5);
}

#[test]
fn builder_caps_at_allowed() {
    let rt = Runtime::builder(8).high_priority_threads(8).build();
    assert_eq!(rt.high_threads(), 7);
    assert_eq!(rt.low_threads(), 1);
    let rt = Runtime::builder(4).high_priority_threads(100).build();
    assert_eq!(rt.high_threads(), 3);
    assert_eq!(rt.low_threads(), 1);
}

#[test]
fn builder_defaults_to_one_each() {
    let rt = Runtime::builder(16).build();
    assert_eq!(rt.high_threads(), 1);
    assert_eq!(rt.low_threads(), 1);
}

#[test]
fn builder_zero_regular_threads() {
    let rt = Runtime::builder(2).high_priority_threads(0).build();
    assert_eq!(rt.high_threads(), 0);
    assert_eq!(rt.low_threads(), 2);
}

#[test]
fn builder_single_thread_machine() {
    let rt = Runtime::builder(1).high_priority_threads(1).build();
    assert_eq!(rt.high_threads(), 0);
    assert_eq!(rt.low_threads(), 1);
}

#[test]
fn layout_thread_tokens() {
    let layout = TokenLayout::new(8);
    assert_eq!(layout.blocking_worker(), 0);
    assert_eq!(layout.regular_worker(3), 3);
    assert_eq!(layout.reactor(), 8);
    assert_eq!(layout.key_of(0), None);
    assert_eq!(layout.key_of(8), None);
}

#[test]
fn layout_source_round_trip() {
    let layout = TokenLayout::new(8);
    assert_eq!(layout.source(0), Some(9));
    assert_eq!(layout.source(5), Some(14));
    assert_eq!(layout.key_of(9), Some(0));
    assert_eq!(layout.key_of(14), Some(5));
    let t = layout.source(1234).unwrap();
    assert_eq!(layout.key_of(t), Some(1234));
}

#[test]
fn layout_source_overflow() {
    let layout = TokenLayout::new(8);
    assert_eq!(layout.source(usize::MAX - 9), Some(usize::MAX));
    assert_eq!(layout.source(usize::MAX - 8), None);
    assert_eq!(TokenLayout::new(usize::MAX).source(0), None);
}

#[test]
fn atomic_waker_wakes_once() {
    let (count, waker) = counting_waker();
    let cell = AtomicWaker::new_with_waker(waker);
    cell.wake();
    assert_eq!(count.count.load(Ordering::SeqCst), 1);
    // The wake consumed the waker: another wake finds the slot empty.
    cell.wake();
    assert_eq!(count.count.load(Ordering::SeqCst), 1);
}

#[test]
fn atomic_waker_wakes_latest() {
    let (first, w1) = counting_waker();
    let (second, w2) = counting_waker();
    let cell = AtomicWaker::new();
    cell.wake();
    assert!(cell.try_update(w1).is_ok());
    assert!(cell.try_update(w2).is_ok());
    cell.wake();
    assert_eq!(first.count.load(Ordering::SeqCst), 0);
    assert_eq!(second.count.load(Ordering::SeqCst), 1);
}

#[test]
fn torque_registers_and_wakes() {
    let mut torque = Torque::new();
    let (count, waker) = counting_waker();
    let a = torque.insert(waker);
    let b = torque.insert_without_waker();
    assert_ne!(a, b);
    assert!(torque.contains(a));
    assert!(torque.contains(b));
    assert!(torque.wake(a));
    assert_eq!(count.count.load(Ordering::SeqCst), 1);
    assert!(torque.wake(b));
    let (count_b, waker_b) = counting_waker();
    assert!(update(&torque, b, waker_b));
    assert!(torque.wake(b));
    assert_eq!(count_b.count.load(Ordering::SeqCst), 1);
}

#[test]
fn torque_missing_slot() {
    let mut torque = Torque::new();
    let key = torque.insert_without_waker();
    torque.remove(key);
    assert!(!torque.contains(key));
    assert!(!torque.wake(key));
    let (count, waker) = counting_waker();
    assert_eq!(torque.try_update(key, waker).ok(), Some(false));
    assert_eq!(count.count.load(Ordering::SeqCst), 0);
}

#[test]
fn torque_reuses_freed_key() {
    let mut torque = Torque::new();
    let a = torque.insert_without_waker();
    let b = torque.insert_without_waker();
    torque.remove(a);
    let c = torque.insert_without_waker();
    assert!(torque.contains(b));
    assert!(torque.contains(c));
    assert_ne!(b, c);
}

#[test]
fn worker_regular_loop() {
    let (phase, action) = worker_begin();
    assert!(phase == Phase::Start && action == Action::CheckRunning);
    let (phase, action) = worker_next(WorkerKind::Regular, phase, Observation::Running(true));
    assert!(phase == Phase::DrainOwn && action == Action::Pop(Queue::High));
    let (phase, action) = worker_next(WorkerKind::Regular, phase, Observation::Popped(true));
    assert!(phase == Phase::DrainOwn && action == Action::Pop(Queue::High));
    let (phase, action) = worker_next(WorkerKind::Regular, phase, Observation::Popped(false));
    assert!(phase == Phase::TakeOther && action == Action::Pop(Queue::Low));
    let (phase, action) = worker_next(WorkerKind::Regular, phase, Observation::Popped(false));
    assert!(phase == Phase::Start && action == Action::Sleep);
    let (phase, action) = worker_next(WorkerKind::Regular, phase, Observation::Running(false));
    assert!(phase == Phase::FinalDrain && action == Action::Pop(Queue::High));
    let (phase, action) = worker_next(WorkerKind::Regular, phase, Observation::Popped(true));
    assert!(phase == Phase::FinalDrain && action == Action::Pop(Queue::High));
    let (phase, action) = worker_next(WorkerKind::Regular, phase, Observation::Popped(false));
    assert!(phase == Phase::Stopped && action == Action::Exit);
}

#[test]
fn worker_blocking_loop() {
    let (phase, _) = worker_begin();
    let (phase, action) = worker_next(WorkerKind::Blocking, phase, Observation::Running(true));
    assert!(phase == Phase::DrainOwn && action == Action::Pop(Queue::Low));
    let (phase, action) = worker_next(WorkerKind::Blocking, phase, Observation::Popped(false));
    assert!(phase == Phase::TakeOther && action == Action::Pop(Queue::High));
    let (phase, action) = worker_next(WorkerKind::Blocking, phase, Observation::Popped(true));
    assert!(phase == Phase::Start && action == Action::CheckRunning);
}

#[test]
fn task_pending_decisions() {
    assert!(pending_decision(POLLING) == PendingDecision::TryPark);
    assert!(pending_decision(NOTIFIED) == PendingDecision::Repoll);
    assert!(pending_decision(TASK_IDLE) == PendingDecision::Corrupt);
    assert!(pending_decision(COMPLETED) == PendingDecision::Corrupt);
}

#[test]
fn task_settle_pending() {
    let state = AtomicUsize::new(POLLING);
    assert!(settle_pending(&state) == (Settled::Parked, POLLING, Some(true)));
    assert_eq!(state.load(Ordering::SeqCst), TASK_IDLE);
    let state = AtomicUsize::new(NOTIFIED);
    assert!(settle_pending(&state) == (Settled::Repoll, NOTIFIED, None));
    assert_eq!(state.load(Ordering::SeqCst), POLLING);
    let state = AtomicUsize::new(COMPLETED);
    assert!(settle_pending(&state) == (Settled::Corrupt, COMPLETED, None));
    complete(&state);
    assert_eq!(state.load(Ordering::SeqCst), COMPLETED);
}

#[test]
fn task_wake_decisions() {
    assert!(wake_decision(TASK_IDLE) == WakeDecision::TryEnqueue);
    assert!(wake_decision(POLLING) == WakeDecision::TryNotify);
    assert!(wake_decision(NOTIFIED) == WakeDecision::Ignore);
    assert!(wake_decision(COMPLETED) == WakeDecision::Ignore);
    assert!(wake_decision(7) == WakeDecision::Corrupt);
    let state = AtomicUsize::new(TASK_IDLE);
    assert!(wake_task(&state) == (Woken::Enqueue, TASK_IDLE, Some(true)));
    assert_eq!(state.load(Ordering::SeqCst), POLLING);
    assert!(wake_task(&state) == (Woken::Notified, POLLING, Some(true)));
    assert_eq!(state.load(Ordering::SeqCst), NOTIFIED);
    assert!(wake_task(&state) == (Woken::Ignored, NOTIFIED, None));
    assert_eq!(state.load(Ordering::SeqCst), NOTIFIED);
}

#[test]
fn stream_steps() {
    assert!(stream_step::<usize>(Ok(5)) == IoStep::Ready(5));
    assert!(stream_step::<usize>(Err(IoErrorKind::WouldBlock)) == IoStep::Pending);
    assert!(stream_step::<usize>(Err(IoErrorKind::Interrupted)) == IoStep::Reschedule);
    assert!(stream_step::<usize>(Err(IoErrorKind::Other)) == IoStep::Fail);
    assert!(stream_step::<usize>(Err(IoErrorKind::NotConnected)) == IoStep::Fail);
}

#[test]
fn accept_steps() {
    assert!(accept_step::<u8>(Ok(1)) == IoStep::Ready(1));
    assert!(accept_step::<u8>(Err(IoErrorKind::WouldBlock)) == IoStep::Pending);
    assert!(accept_step::<u8>(Err(IoErrorKind::Interrupted)) == IoStep::Fail);
    assert!(register_step(Ok(())) == RegisterStep::Done);
    assert!(register_step(Err(IoErrorKind::Interrupted)) == RegisterStep::Retry);
    assert!(register_step(Err(IoErrorKind::WouldBlock)) == RegisterStep::Fail);
}

#[test]
fn connect_progress() {
    let mut progress = ConnectProgress::new();
    assert!(progress.is_first_poll());
    assert_eq!(progress.token(), None);
    assert!(progress.registered(12, Err(IoErrorKind::Interrupted)) == IoStep::Reschedule);
    assert!(progress.is_first_poll());
    assert_eq!(progress.token(), Some(12));
    assert!(progress.registered(13, Ok(())) == IoStep::Pending);
    assert!(!progress.is_first_poll());
    assert_eq!(progress.token(), Some(13));
    assert!(progress.probe(Ok(false)) == IoStep::Ready(()));
    assert!(progress.probe(Ok(true)) == IoStep::Fail);
    assert!(progress.probe(Err(IoErrorKind::WouldBlock)) == IoStep::Fail);
    assert!(progress.peer(Ok(())) == IoStep::Ready(()));
    assert!(progress.peer(Err(IoErrorKind::NotConnected)) == IoStep::Pending);
    assert!(progress.peer(Err(IoErrorKind::Other)) == IoStep::Fail);
}

#[test]
fn connect_registration_failure() {
    let mut progress = ConnectProgress::new();
    assert!(progress.registered(9, Err(IoErrorKind::Other)) == IoStep::Fail);
    assert!(progress.is_first_poll());
}

#[test]
fn shutdown_counts_failed_joins() {
    assert_eq!(shutdown_result(&vec![]), Ok(()));
    assert_eq!(shutdown_result(&vec![true, true, true]), Ok(()));
    assert_eq!(shutdown_result(&vec![true, false, true, false]), Err(2));
    assert_eq!(shutdown_result(&vec![false]), Err(1));
}

#[test]
fn worker_meta_picks_in_range() {
    // One event loop per waker, as each worker thread has its own.
    let polls: Vec<mio::Poll> = (0..5).map(|_| mio::Poll::new().unwrap()).collect();
    let mut wakers = Vec::new();
    for i in 1..=3 {
        wakers.push(Arc::new(mio::Waker::new(polls[i].registry(), mio::Token(i)).unwrap()));
    }
    let blocking = Arc::new(mio::Waker::new(polls[0].registry(), mio::Token(0)).unwrap());
    let reactor = mio::Waker::new(polls[4].registry(), mio::Token(4)).unwrap();
    let meta = WorkerMeta::new(wakers, blocking, reactor);
    assert_eq!(meta.capacity(), 3);
    for _ in 0..100 {
        let i = meta.pick_worker();
        assert!(i < 3);
        let _ = meta.regular_waker(i);
    }
    let _ = meta.blocking_waker();
    meta.wake_all();
}

fn assert_shareable<T: Send + Sync>() {}

#[test]
fn registry_is_shareable_between_threads() {
    assert_shareable::<Torque>();
    assert_shareable::<AtomicWaker>();
    assert_shareable::<WorkerMeta>();
}

#[test]
fn reactor_dispatches_socket_events() {
    let layout = TokenLayout::new(4);
    let mut torque = Torque::new();
    let (count, waker) = counting_waker();
    let key = torque.insert(waker);
    let token = layout.source(key).unwrap();
    assert!(!dispatch_event(&layout, &torque, 0));
    assert!(!dispatch_event(&layout, &torque, 4));
    assert_eq!(count.count.load(Ordering::SeqCst), 0);
    assert!(dispatch_event(&layout, &torque, token));
    assert_eq!(count.count.load(Ordering::SeqCst), 1);
    assert!(!dispatch_event(&layout, &torque, token + 1));
}

#[test]
fn torque_hands_out_keys_in_order() {
    let mut torque = Torque::new();
    assert_eq!(torque.insert_without_waker(), 0);
    assert_eq!(torque.insert_without_waker(), 1);
    torque.remove(0);
    assert_eq!(torque.insert_without_waker(), 0);
    assert_eq!(torque.insert_without_waker(), 2);
}

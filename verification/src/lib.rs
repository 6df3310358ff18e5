//! Verified core of a multi-threaded asynchronous runtime.
//!
//! The library holds the decisions of the runtime: how the worker pool is
//! configured, how event tokens are laid out, the waker hand-off between
//! the reactor and the tasks, the registry of readiness wakers, the
//! state machine of a task, the scheduling loop of each worker and the outcome
//! of every socket operation. The threads, the event loop and the sockets
//! themselves are driven around it.
//!
//! The waker hand-off protocol and the task state machine are proved as
//! models (`waker_protocol`, `task_protocol`) over the same decision
//! functions that the executable code calls. That the executable code, which
//! works on std atomics, refines those models is not proved: the atomics carry
//! no value specification here, so the link rests on reading the code.

pub mod atomicwaker;
pub mod executor;
pub mod io;
pub mod layout;
pub mod runtime;
pub mod task_protocol;
pub mod waker_protocol;
pub mod worker;

pub use crate::atomicwaker::{AtomicWaker, Torque};
pub use crate::io::{ConnectProgress, IoErrorKind, IoStep};
pub use crate::layout::TokenLayout;
pub use crate::runtime::{Runtime, RuntimeBuilder, WorkerMeta};

# async_runtime

A multi-threaded asynchronous runtime whose decisions are verified with Verus.

`src/` is the verified library:

- `runtime` — runtime configuration (`Runtime`, `RuntimeBuilder`), the worker
  wakers (`WorkerMeta`) and the result of a shutdown;
- `layout` — how event tokens are shared between worker threads, the reactor
  and registered sockets;
- `atomicwaker` — the waker slot shared by a task and the reactor
  (`AtomicWaker`), the registry of slots (`Torque`) and the reactor's event
  dispatch;
- `waker_protocol` — a model of the slot's hand-off protocol and its proofs;
- `executor`, `task_protocol` — the state word of a task and a model of it
  with its proofs;
- `worker` — the scheduling loop of a worker thread;
- `io` — the outcome of every socket operation and the progress of a
  connection.

The two models share their decision functions with the executable code, but
that the code on std atomics refines them is not proved: the atomics carry no
value specification, so that link rests on reading the code.

`app/` runs the threads, the event loop (mio), the run queues (flume), the
socket futures (futures-util traits) and the hyper integration on top of it.

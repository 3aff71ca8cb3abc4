# scx_sched

The decisions of two sched_ext schedulers for Linux, verified with Verus.

- `cosmos` is a deadline scheduler: it looks for an idle CPU first, keeps a task
  on its CPU while that is not busy, and otherwise queues it by a deadline that
  favours tasks that wake up often and run briefly.
- `simple` has one shared queue, ordered by arrival or by virtual time.

A scheduler cannot decide without asking the kernel: whether a CPU is idle, how
long a queue is, whether a queue could be created. The library therefore makes
its decisions in steps. A callback starts with a function that returns either a
question or a result, such as `Enqueue::Searching` or `Enqueue::Done`; the answer
goes into the function for the next step. Tasks, masks and settings come in as
plain values.

| Place | Contents |
| --- | --- |
| `src/defs.rs`, `src/arith.rs`, `src/cpumask.rs` | constants, clock and averages, CPU sets |
| `src/cosmos/state.rs`, `task.rs`, `topology.rs`, `weight.rs` | state, tasks, CPUs and nodes, slices and deadlines |
| `src/cosmos/idle.rs`, `select.rs`, `enqueue.rs` | the search for an idle CPU and the placement of tasks |
| `src/cosmos/tick.rs`, `dispatch.rs`, `account.rs`, `lifecycle.rs` | preemption, dispatch, accounting, start and set-up |
| `src/cosmos/idle_laws.rs`, `placement_laws.rs` | what holds of every search and placement |
| `src/simple.rs` | the scheduler with one queue |
| `app/` | the callbacks that the kernel calls |

Sums and products that could leave 64 bits are excluded by preconditions. Slices,
deadlines, statistics and the callbacks have a function that tests them first,
such as `task_slice_fits` or `stopping_fits`.

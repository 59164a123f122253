# experiments

Experiments with hand-made futures and a small async runtime, with their
decision logic verified by Verus.

- `src/` is the verified library:
  - `channel`: the trusted layer over `std::sync::mpsc`, with a ghost
    record on each end (which receiver a sender feeds, what it sent, what
    each receive came back with);
  - `sleep`: the cancelable channel (`RtSender`, `RtWaiter`, `WaitResult`)
    and a sleep future driven by a helper thread, as a state machine;
  - `sleep2`: a sleep whose state is shared with its helper thread, with
    its transitions and their laws;
  - `runtime`: task ids, the task map, task handles, the steps of the
    event loop (with the events each step queues and the outputs it hands
    on), and racing a future against a cancel signal;
  - `scoped`: setting a slot for a scope (one runtime per thread);
  - `multi`: spawning with a choice of polling on the spot first;
  - `fullscan`: how a port scan is split into batches.
- `app/` is the program around it: threads, locks, wakers, tokio, and the
  demos (`flavors`, `multi`, `runtime`, `fullscan`, `spawn`, `sysinfo`,
  `wgpu`).
- `tests/` exercises the library on concrete values.

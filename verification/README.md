# haven_react

The decision core of a ReAct agent loop, verified with Verus.

- `src/` is the verified library: run budgets and lifecycle boundaries,
  response classification and the retry cycle, tool-batch admission,
  confirmation resume and result ordering, schema repair of tool inputs,
  the run driver state machine, context injection (sanitizing,
  deduplication and projection), transcript state and
  branch points, snapshot throttling and recovery, streaming checkpoints and
  the stall watchdog, metrics histograms, and the bounded per-session caches.
  Calls into `serde_json` and `sha2` go through small trusted wrappers whose
  contracts are stated next to them.
- `app/` is the runtime edge: the run loop that performs the verified run
  driver's actions (through a host-supplied runtime), clocks, the tool-batch
  lock set, snapshot buffers behind a mutex, and conversion of
  `serde_json::Value`.
- `tests/` exercises the library from outside.

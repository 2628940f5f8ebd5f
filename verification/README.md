# redis_lock

A distributed lock on Redis, verified with Verus.

- `src/option.rs` — lock, pool and multi-node options, their defaults,
  builders and repair rules, with the laws the repaired options satisfy.
- `src/text.rs` — decimal rendering of integers and its injectivity.
- `src/utils.rs` — the process-and-thread tag, the lock token and the task
  counter that numbers locks; tokens of different tasks never coincide.
- `src/command.rs` — the Redis commands, pipelines and script calls the lock
  sends, built through the `redis` crate and described by their argument
  bytes.
- `src/lock.rs` — the single-node lock: key, token, the requests sent to
  Redis, how each reply is read, and the decisions of `lock` (one attempt or
  polling), of the watchdog and of `unlock`.
- `src/redlock.rs` — the multi-node lock: which node sets are accepted, and
  the majority rule that decides whether it was taken.
- `app/` — the program around the library: connection pools, the round trips
  to Redis, timers, the watchdog task, and process and thread identifiers.

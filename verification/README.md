# dir_watcher

A directory watcher whose decisions are verified with Verus.

- `src/` is the verified library:
  - `options.rs`: `Options`, the builder-style configuration of a monitor.
  - `event.rs`: the kinds of file-system events, the kinds that each `MonitorMode`
    drops, and `EventFilter`, which routes every reported event (forward, drop for its
    kind, drop for its path).
  - `paths.rs`: paths as text; joining and prefix tests go through `PathType` of
    `dusa_collection_utils` and `std::path::Path`.
  - `monitor.rs`: `RawFileMonitor`, the monitor's bookkeeping (pausing, poisoning,
    recorded errors, a missing target directory) and the health check, a state machine
    that tells the runtime what to inspect or repair next.
- `app/` is the asynchronous runtime, its own `RawFileMonitor` with async `new`, `start`,
  `health_check` and `subscribe`: the `notify` watcher, tokio channels and the
  event-loop task. It performs what the library asks for and reports back.
- `tests/` runs the library on concrete values.

# qubit_progress

Lifecycle-safe progress reporting for one long-running operation, with its
rules proved by Verus.

An operation declares its metrics once (stable ID, display name, optional
total). It then owns the dynamic counts of each metric, admits or rejects each
transition of work between the not-started, active and terminal states, and
produces complete, immutable events: every event carries the operation's
identifier, a delivery sequence, its phase, the correlation attributes, one
consistent snapshot per metric and the elapsed time.

## Layout

- `src/` is the verified library.
  - `metric.rs`: metric metadata, counts and the transition rules
    (`MetricCounts::apply`), with laws on conservation, limits and rollback.
  - `progress.rs`: the operation state machine (`ProgressBuilder`,
    `Progress`): start, metric updates, due-based and immediate reports,
    terminal phases and checked finish, with laws relating them.
  - `event.rs`, `event_record.rs`, `duration_text.rs`: events, reading an
    event back from its recorded fields, and the integer-unit duration text.
  - `operation_attributes.rs`, `validation.rs`, `text.rs`: attributes kept in
    key order, configuration validation and the text helpers they use.
  - `internal/`: the lifecycle gate that admits updates.
  - `model/`: self-describing progress events that carry their own schema.
  - `error/`: every error type, each with an exact message.
  - `progress_counters.rs`, `logger_progress_reporter.rs`,
    `no_op_progress_reporter.rs`: plain counters and reporter configuration.
- `app/` is ordinary Rust around the library: reporters, the clock, shared
  metric handles behind a lock, the background reporting thread, JSON
  encoding with serde, and the `f64` progress ratios.
- `tests/` exercises the library on concrete values.

Elapsed times and intervals are whole nanoseconds (`u128`) in the library;
`app/` converts them to and from `std::time::Duration`.

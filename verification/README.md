# ephemeropt

An ephemeral `Option` for Rust, verified with Verus. An `EphemeralOption`
takes a lifetime and a value, and reverts to `None` once the lifetime has run
out; the value itself stays until it is overwritten, taken, or dropped.

- `src/model.rs`: the abstract state (`Model`, `Phase`) and the spec functions
  that the contracts are written in.
- `src/option.rs`: `EphemeralOption` and its operations. Each operation that
  looks at the clock has an `_at` form taking the time (nanoseconds on the
  option's own clock, which starts with `new`, or else with the first call of
  `insert`, `get_or_insert`, `replace` or `reset_timer`) as an argument; the
  plain form reads the monotonic clock and calls it.
- `src/clock.rs`: the calls into `std::time` that read the clock or count
  the nanoseconds of a `Duration` (`duration_nanos`).
- `src/trace.rs`: sequences of operations, as their contracts describe them.
- `src/laws.rs`: properties across operations, proved over the model.

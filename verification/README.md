# edgewarden

Cloud-managed edge proxy appliance: the dataplane serves from the
last-known-good policy unconditionally, and the cloud is advisory. This
crate is its core, written in Verus: every decision the appliance and its
control plane take is an executable function with a contract, and the
properties the design rests on are proof functions.

## Layout

- `src/` — the verified library.
  - `state` — desired vs reported state, idempotent reconciliation, the
    last-known-good store; at-least-once delivery laws.
  - `registry` — the control plane's fleet roster, monotonic desired
    sequence, snapshots, and what `Register`, `Heartbeat` and `Watch`
    answer.
  - `agent` — what the edge does with each control-plane answer, and the
    reconnect decision.
  - `ota` — the A/B update state machine, journaled step by step, with
    downgrade refusal; `version` orders dotted release versions.
  - `rollout` — canary rings and health gates that latch a pause.
  - `backoff` — jittered exponential reconnect backoff.
  - `health` — health assessment and the fail-open bypass policy.
  - `proxy` — connection limits and counters.
  - `procfs` — resident memory from a process status text.
  - `ieee` — ordering of binary64 values held by their bits.
  - `crypto`, `clock`, `text` — digests and signatures, durations and the
    wall clock, decimal text.
- `tests/` — the test suite.
- `app/` — the binaries (`control-plane`, `edge-agent`, `edge-proxy`,
  `storm`): sockets, files, HTTP, Prometheus metrics and the floating-point
  formatting the library does not hold.

## Checking

Verify the library with Verus; build and test with the crate's
`Cargo.toml`. The app is a separate crate over the library.

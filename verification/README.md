# aegisflow-core

A deny-by-default policy runtime for tool requests proposed by AI agents,
verified with Verus. Planners propose typed requests; only the policy engine
authorizes them. Secret-to-network and untrusted-to-sensitive flows are denied
structurally, sensitive operations need short-lived capabilities, and every
decision can be recorded in a hash-linked audit chain.

Layout:

- `src/labels.rs` – data labels and operations.
- `src/capability.rs` – capabilities scoped to an operation, a subject and an expiry.
- `src/policy.rs` – tool requests, the policy verdict as a spec function, the
  executable evaluator proved against it, and the policy's laws.
- `src/audit.rs` – the audit chain: append, verify, and the tamper-evidence law.
- `src/encoding.rs`, `src/digest.rs` – byte framing, hex text, SHA-256.
- `src/clock.rs` – the system clock.
- `src/workflow.rs`, `src/service.rs` – the evaluation steps of the command-line
  tool and of the HTTP service. Each has a `_with_readings` form that takes the
  two clock readings (capability issue, request evaluation) as arguments and
  whose result is fixed by them; the plain form reads the clock and calls it.
- `app/` – the command-line tool (`aegisflow ...`) and the HTTP service
  (`aegisflow serve`), which parse, print and serve around the library.

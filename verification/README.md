# worldcompute

The verified core of the World Compute volunteer-compute agent and
coordinator, written in Verus.

- `src/` is the library, and Verus verifies every function in it against
  its contract: job-submission policy, manifest validation, attestation
  parsing and checks, result quorum and audit selection, the Raft log of the shard
  coordinator, the broker's roster, rate limiting, the REST gateway's routing
  and authentication, sandbox egress and GPU passthrough decisions, the
  Firecracker API requests, NAT classification and STUN framing, relay
  reservations, certificate issuance and rotation, the artifact registry and
  telemetry redaction. A few functions, such as reading the clock, promise
  nothing of their result, since any value is possible. Public proof functions named `law_*` state properties
  that hold across calls.
- `src/external.rs` (and two wrappers in `verification/attestation.rs` and
  `telemetry/redaction.rs`) hold the trusted items: the calls into outside
  crates and into std whose contracts are believed, each with a doc comment
  saying what it claims.
- `app/` is ordinary Rust around the library: the sandbox drivers that run
  hypervisor processes, network I/O over UDP and libp2p, the DNS-over-HTTPS
  resolver, clocks, logging, serde copies of wire messages, and the parts
  that compute in floating point.
- `tests/` exercise the library from outside.

Not included: the WebAssembly sandbox (its runtime, wasmtime, is not among
the dependencies, and the content store it loads modules from is not part of
this repository) and OpenTelemetry trace export (its crates are not
linked; logging is JSON only). The job priority score in `app/priority.rs`
takes the NCU signal as an argument, because the credit ledger that defines
it is not part of this repository.

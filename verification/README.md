# rspeed

A network speed tester: it probes latency (HTTP round trips, falling back to
TCP connects), then measures download and upload throughput over parallel
connections, against Cloudflare's speed test service or a user-supplied HTTP
server, and prints the result as JSON.

- `src/` is the library, verified with Verus: configuration and its
  validation, error classification and exit codes, endpoint derivation, the
  latency probe and session state machines, the metrics counters with their
  warm-up baseline, and the order statistics of the results.
- `app/` is the program around it: command-line parsing, the Tokio runtime,
  HTTP and TCP transports, the shared metrics handle and its ticking task,
  and the floating-point conversion of byte counts into Mbps and milliseconds.
- `tests/` exercises the library on concrete values.

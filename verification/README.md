# haproxy-otel

Verified core of an OpenTelemetry tracing module for HAProxy.

- `src/` (verified with Verus): `text` (string helpers), `layer` (which
  events are written for a configured log level, how an event's fields
  become a message, the written line), `setup` (log buffer, filter level,
  the subscriber's `EnvFilter`), `config` (exporter options, export header
  map, registration messages).
- `app/`: the Lua entry point `register` and the `tracing` subscriber
  plumbing (`Layer` and `Visit` impls, global state, stderr).
- `tests/`: tests of the library on concrete values.

# plugin3-hosts

The host shim layer of a coding-agent plugin: it detects which agent host
runs it, routes each hook event to that host's shim, and writes the JSON
envelope the host expects. Only the `ClaudeCode` host has a real shim;
`Cursor` and `Aider` are stubs answered with `{"unsupported":"<Host>/<Event>"}`.

## Layout

- `src/` — the verified library (Verus):
  - `host.rs`: `Host`, `Event`, the `EnvSource` seam, detection precedence,
    debug and kebab-case wire names;
  - `canonical.rs`: the host-independent payloads and responses, and the JSON
    text of each response;
  - `claude_code.rs`: the `ClaudeCode` shim handlers;
  - `dispatch.rs`: `emit_to`, the routing entry point, and the stub envelope;
  - `json.rs`: JSON string literals (escaped by `serde_json`) and decimal
    numerals.
- `app/` — plain Rust around the library: reads the process environment,
  parses host JSON into the canonical payloads with `serde`, and turns the
  library's JSON text back into `serde_json::Value`s.
- `tests/` — integration tests.

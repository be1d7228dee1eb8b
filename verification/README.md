# luna

A small Lua runtime host. The library under `src/` holds the decisions of
the host, each with a contract proved by Verus:

- `engine` — options of the sandboxed engine, its errors, the execution
  guard that stops a script when it runs out of instructions or time, the
  check of the Lua build, and the log level.
- `embed` — the embedding API: configuration, errors, version tags and the
  check of a reported Lua version.
- `ffi` — a flat configuration record and an error for foreign callers.
- `modules` — the registry of host modules, generic over the initialiser
  type, which runs initialisers in registration order.
- `server` — the rewriting of route paths from `:name` to `{name}`, the
  route table and the status of a table answer.
- `cli` — the first command-line argument and the lines typed at the
  prompt.

`app/` is the program around it: it builds Lua states with `mlua`, runs
chunks on Tokio, serves routes with axum, fetches with ureq and logs with
tracing, and hands the library plain values.

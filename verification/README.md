# aegis_daemon

The daemon of an orchestrator of agents: the rules behind its HTTP API, its
command-line client, its billing, its relay and edge roles, and the upkeep of its
containers. The rules are verified with Verus; the shell around them is ordinary Rust.

## Layout

- `src/` is the verified library. Every public function states in its `ensures` what it
  returns; functions named `law_*` state what holds across several of them.
  - `handlers/` decides on requests. A request that needs the outside world several
    times is a value with a `step` function: it takes what was learnt last and says what
    to do next. A request that needs it once is a pair: one function says what to call,
    the other turns what came of the call into the answer.
  - `client`, `client_requests`, `install`, `daemon`, `log_sanitize` serve the command
    line.
  - `relay_server`, `edge_lifecycle`, `cluster_helpers`, `container_helpers`, `ports` and
    `operator_read_models` serve the node.
  - `identity`, `tenancy`, `http`, `json`, `text`, `string_map` hold the values that the
    rest works on.
  - `primitives` and `json_value` are what the library takes from other crates without
    proof: hashes, signatures, encodings, identifiers, chance, the calendar's writing,
    what a header takes, and JSON as it is parsed and laid out.
- `app/` reads and sends: axum handlers, the payment provider, files, processes, sockets.
  It performs what a `step` asks for and hands back what came of it. The services of the
  orchestrator itself stand there as traits.
- `tests/` runs the library on values.

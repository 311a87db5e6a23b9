# mcp_compliance_rust

The decision logic of the MCP compliance test server and test client, verified
with Verus.

- `src/` is the verified library:
  - `scenarios` — the scenario catalogue; picking a client's scenario and
    checking a server name against it.
  - `catalog`, `reply`, `request`, `server`, `eval` — what the three test
    servers (CalcServer, FileServer, ErrorServer) answer to each request, and
    the state they keep (per-client trigonometry flag, special number).
  - `rpc` — which input lines are requests, and the JSON-RPC errors.
  - `client` — each scenario as a state machine: the requests it sends and
    how it judges the responses.
  - `laws` — properties across requests: reading back writes, `cos`/`sin`
    disabled until `set_trig_allowed(true)`, which requests leave the state
    alone, listed tools/resources/prompts are served, request ids, promised
    values that must arrive, the concurrent sums 3, 7 and 11 in any order, and
    client/server agreement on the scenarios.
  - `text` — string helpers (decimal rendering, joining, comparison).
- `app/` is the program around it: argument parsing, stdin/stdout and process
  handling, JSON encoding and decoding, logging, and the floating-point tools.
  It runs as `test-server` or `test-client`, by program name or first argument.
- `tests/` exercises the library on concrete values.

# tmcp

The verified core of a Model Context Protocol (MCP) library: the JSON-RPC
message types, request/response correlation, error mapping, capability
gating, the decisions of the streamable HTTP transport and of its OAuth
support, tool-schema editing, the descriptors of the server macros, and the
surface digest. All of `src/` is checked by Verus, against the contracts its
functions state.

- `src/` — the library, with its specifications and proofs. Calls into
  outside crates (`serde_json`, `url`, `http`, `heck`, `sha2`, `subtle`, `syn`) stand
  behind small trusted wrappers whose contracts are documented where they are
  declared.
- `tests/` — ordinary Rust tests that run the library with the real outside
  crates linked.
- `app/` — the I/O around the library: header maps, the Rhai engine, the OAuth
  loopback listener (on `tokio`), and the conversion of JSON documents (tool
  schemas, results, parameters) to and from `serde_json` values.

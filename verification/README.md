# navitime-mcp

An MCP (Model Context Protocol) server that offers one tool,
`search_transit_route`, which finds train and walking routes in Japan
between two coordinates through the Navitime Route Transit API on RapidAPI.

## Layout

- `src/` — the verified library (Verus):
  - `json.rs` — JSON values as the protocol handles them, member lookup, builders;
  - `mcp.rs` — JSON-RPC request dispatch and every reply the server sends;
  - `search.rs` — coordinate checks and the departure time of a search;
  - `format.rs` — the text that shows a search result;
  - `decimal.rs` — decimal text of integers;
  - `text.rs` — blank input lines;
  - `error.rs`, `models.rs` — errors and the route search result;
  - `rapidapi.rs` — the query of a request to the Navitime API and the status that carries routes.
- `app/` — the program: standard input and output, JSON parsing and printing
  with `serde_json`, the HTTP client (`reqwest`) and the `tokio` runtime.
- `tests/` — tests of the library.

Set `TOKEN_RAPIDAPI` to a RapidAPI key before starting the server.

# fantrax_mcp

The logic of a fantasy-baseball MCP server for Fantrax leagues, written in
Verus. The functions of `src/` carry contracts that the verifier proves,
except a few small trusted calls into std (case mapping, `String::push`),
chrono (date parsing and stepping) and reqwest (reading an HTTP error): each
is declared with a contract that Verus takes on trust, and the logic around
them is proved against those contracts.

- `analysis` — platoon matchups (batter side vs. pitcher hand), start/sit
  recommendations, and the lineup ranking, with laws on the ranking
  (a permutation, best matchup first, more slots only extend it,
  re-ranking a lineup changes nothing).
- `briefing` — the morning briefing's layers: box-score snippets, injury and
  platoon action items, and the handling of roster players that cannot be
  resolved to MLB IDs.
- `mlb`, `fantrax`, `projections` — parsers for the MLB Stats API and Fantrax
  responses, over the JSON model in `json`.
- `db`, `server`, `config`, `dates` — cache and ledger rules, tool helpers,
  configuration and date handling.
- `text`, `types` — string helpers and the ID newtypes.

`app/` is the program around the library: the MCP server (rmcp, axum), the
HTTP clients (reqwest), the SQLite database (rusqlite), configuration loading
and the floating-point figures (innings pitched, standings points,
projections). `tests/` exercises the library on concrete values.

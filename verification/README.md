# pgui

The core of a PostgreSQL and MySQL client, verified with Verus.

## Layout

- `src/` — the verified library.
  - `text` — string utilities over `Seq<char>` views (trimming, prefixes,
    splitting, decimal rendering and parsing).
  - `storage` — saved connections: drivers, SSL modes, connect options,
    the mapping to and from SQLite rows, keyring entry names, migrations.
  - `ssh` — tunnel configuration and the decisions of the tunnel worker
    (agent authentication, accept loop, byte pipes).
  - `database` — statement classification, automatic row limits, cell
    decoding choices and result assembly for both engines; schema helpers;
    the connection manager's decisions.
  - `agent` — the conversation state of the model agent: steps, tool
    results, reading replies.
  - `sql` — AI code actions and completions for the SQL editor.
  - `state`, `workspace` — the connection lifecycle, the connection form,
    the results table and the window layout.
- `tests/` — tests of the library.
- `app/` — the program around it: SQLite and keyring access, sqlx pools,
  the SSH tunnel threads, HTTP calls to the model API, JSON forms of the
  library's types, and a command-line entry point.

## Configuration

- `ANTHROPIC_API_KEY` — enables the agent features.
- `PGUI_MODEL` — the model identifier the agent features use.

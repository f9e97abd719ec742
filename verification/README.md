# arena

A verified library for an [Arena PLM](https://www.arenasolutions.com/) client: an MCP server
whose tools call the Arena REST API, and the logic of a desktop app (a back end that runs
an assistant and an Arena worker, and a web front end that browses items, changes and bills
of materials and shows the assistant's chat and logs).

- `src/` is the library, written in Verus: every request a tool makes, the session's login
  and retry rules, the back end's state machine, the front end's state and event handling,
  the stable sort of the item table, the bill-of-materials tree, and the incremental log
  parser, each with its contract.
- `app/` is the MCP server program: it reads credentials from the environment, serves the
  tools over standard input and output, and carries out the HTTP exchanges that the
  library's session steps ask for.
- `tests/` runs the library on concrete inputs.

Environment variables of the server: `ARENA_EMAIL`, `ARENA_PASSWORD`, `ARENA_WORKSPACE_ID`
(optional) and `ARENA_BASE_URL` (optional, default `https://api.arenasolutions.com/v1`).

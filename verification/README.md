# mcd-cli

A command-line client for McDonald's China MCP server (`https://mcp.mcd.cn`):
find stores, browse menus, price and place orders, manage coupons and the
points mall, either by subcommands or through an interactive menu.

Layout:

- `src/` — the verified library.
  - `text.rs`: trimming typed lines, optional answers, decimal numbers with a
    fallback, yes/no confirmation.
  - `json.rs`: reading item lists (JSON text) through `serde_json`.
  - `call.rs`: the MCP tool calls and the arguments each request sends.
  - `command.rs`: token and server selection, and what each subcommand does.
  - `display.rs`: what is shown of a tool result.
  - `session.rs`: the interactive session as a state machine (`Dialog`).
  - `laws.rs`: properties of the session proved over its transitions.
- `app/` — the program: argument parsing, terminal I/O, the configuration
  file and the HTTP transport; it drives the library.
- `tests/` — tests of the library on concrete values.

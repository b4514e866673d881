# coordinator

A coordinator for distributed entities. Each coordinator starts entity processes,
keeps the table of its own entities (which register their TCP port once they are
up), keeps a directory of where entities of other coordinators live, and routes a
message for an entity either over TCP to a local entity or over HTTP to the
coordinator that holds it.

- `src/` is the library, proved with Verus: the entity table and directory
  (`coordinator.rs`, `table.rs`), registration, message routing and directory
  sharing, command-line reading (`cli.rs`), decimal text and its parsing
  (`text.rs`), entity ids (`ids.rs`), HTTP status text (`status.rs`), and the laws
  that relate these operations, among them the invariant of every reachable state
  (`laws.rs`).
- `app/` is the program around it: the HTTP server, the entity processes, the TCP
  and HTTP calls, and the JSON forms of the library's records.

```bash
cargo run -- 9000 --entities 3        # coordinator with three entities
cargo run -- 9001 9000 --entities 2   # a second one, sharing its directory with 9000
```

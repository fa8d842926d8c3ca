# kindlebridge

Host side of a development bridge for Kindle devices: a command line tool, a local
server that the tool talks to over JSON-RPC, and the sessions that the server keeps
with devices. The logic is written in Verus; every function of the library is proved
against its contract.

## Layout

- `src/` is the library.
  - `runtime`, `provider`, `host_rpc`: devices that live in memory, the requests that
    they serve, and how requests are dispatched. `runtime/laws.rs` says what holds
    across requests.
  - `device_session`, `link`, `usb_recovery`, `sync_client`, `push_stream`,
    `pull_stream`, `device_registry`: devices behind live links, from the opening
    handshake to file transfers.
  - `client_runtime`, `sync_operation`: the shells and transfers that one client of the
    server has open.
  - `lifecycle`, `endpoint`, `service`: meeting, replacing and starting the shared
    server, and how long it stays.
  - `cli`: the commands of the tool, one module for each group, with the shell
    (`shell`, `terminal`), the development loop (`development`, `watch`) and directory
    transfers (`local_tree`, `remote_tree`, `sync`, `directory_pull`).
  - `tcp_probe`, `usb_bench`, `probe`: the link probes.
  - `text`, `number`, `path`, `table`, `sorting`, `bytes`, `codec`: what the rest is
    built on. `codec` and `text` hold the calls into other crates and the standard
    library whose contracts are taken on trust.
- `tests/` runs the library from outside.
- `app/` holds the programs around it: arguments, files, sockets, processes and JSON.

## How it is stated

Types with text in them have a model, `XView`, in which text is a sequence of
characters, and contracts speak of models. What a request, an answer or an event makes
of a state is a spec function; the executable functions are proved to compute it. The
outside world comes in as plain values: what was read, what a call returned, what time
it is. Where waiting or input and output alternate with decisions, the decisions are a
state machine that says what to do next.

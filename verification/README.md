# colabrodo

A library for the NOODLES protocol (collaborative 3D scenes over
websockets), written in Verus: the message formats, the component lists of
server and client, the client's delegates, tables and their signals, mesh
buffers, session recording and replay. Each public function carries a
contract, and Verus proves the code against it.

## Layout

- `src/` — the verified library.
  - `value.rs`, `value_tools.rs`, `cbor.rs`: CBOR data items, their model,
    the codecs between items and protocol types, and reading items from bytes.
  - `common.rs`, `nooid.rs`, `types.rs`, `components.rs`, `component_codec.rs`,
    `message_codec.rs`, `state_codec.rs`: identifiers, message kinds and the
    component states with their encodings.
  - `server_*.rs`, `component_list.rs`, `announce.rs`, `invoke.rs`,
    `buffer_builder.rs`: the server's state, its component lists and what it
    broadcasts, method invocation and mesh building.
  - `client_*.rs`, `mapped_client.rs`, `root_message.rs`, `cli_state.rs`: the
    client's delegates and how each message from the server reaches them.
  - `table*.rs`, `selections.rs`: tables, their subscriptions and signals.
  - `recording.rs`, `recorder.rs`, `replay.rs`: session files.
- `tests/` — tests run against the compiled library.
- `app/` — the programs' edges: websockets, files, prompts, and the
  conversion of values to and from bytes for writing.

Outside crates used by the library sit behind small trusted wrappers whose
contracts state what the crate's documentation promises: `indexmap` for the
ordered component lists, `uuid` for invocation identifiers, `url` for
resource locations, `bytemuck` for index buffers and `ciborium` for reading
CBOR.

# tauri_plugin_bin_ipc

A binary IPC bridge between a web view and Rust commands, with its core
verified in Verus.

- `src/` is the verified library: parsing of request paths and URLs
  (`request_path`, `request_url`, over the UTF-8 bytes of the text), the
  integer forms that std's parsers accept (`int_parse`), slot storage
  (`slots`, `connection`), the arena of sessions with keyed ids
  (`secure_arena_id`, `secure_arena`), the request/response endpoint as a
  state machine (`protocol`), the values that generated command code uses
  (`bin_ipc_error`, `command_support`, `commands`, `event_emitter`), the
  decisions of the command macros (`codegen`), and the properties that span
  several operations (`laws`).
- `app/` holds what runs around it: serde forms, error texts, the async
  channels, the endpoint driver, and the token generation of the macros.
- `tests/` runs the library on concrete values.

//! Verified core of a binary IPC bridge: request routing, session
//! bookkeeping with unguessable identifiers, and the small value types
//! that the command dispatcher hands around.

pub mod bin_ipc_error;
pub mod codegen;
pub mod connection;
pub mod command_support;
pub mod commands;
pub mod event_emitter;
pub mod int_parse;
pub mod protocol;
pub mod request_path;
pub mod request_url;
pub mod secure_arena;
pub mod secure_arena_id;
pub mod slots;
pub mod text;
pub mod laws;

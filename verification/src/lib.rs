//! Client core of a small end-to-end messenger: the session transport and
//! protocol-dispatch layer, together with the local identity data model it
//! depends on.
//!
//! The library turns raw text frames into dispatched protocol events, models
//! the credential store and the bounded outbound queue, and frames the JSON
//! payloads that leave the client. All I/O — the socket, the HTTP bootstrap
//! call, the terminal — lives outside the library and hands it plain values.

pub mod auth_commands;

pub mod db;

pub mod establish_websocket;

pub mod json_in;

pub mod json_out;

pub mod json_structures;

pub mod manage_keys;

pub mod messages;

pub mod outbound;

pub mod session_manager;

pub mod text;

pub mod to_server;

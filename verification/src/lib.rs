//! A small JSON-RPC server over HTTP/1: one request per connection, one handler
//! for every call.
//!
//! `common` holds the values of one exchange, `service` the handler, `server`
//! the connection that takes what was read and says what to do next. `text` and
//! `json` serve them: text operations, and what is taken from `serde_json`.

pub mod common;
pub mod json;
pub mod server;
pub mod service;
pub mod text;

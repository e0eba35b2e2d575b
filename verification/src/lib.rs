//! A small secrets store: API keys that identify a caller, values encrypted
//! under a server-wide master key, and the decisions made by the HTTP server
//! and its command-line client, each stated and proved with Verus.

pub mod key_value;
pub mod encoding;
pub mod api_key;
pub mod cipher;
pub mod db;
pub mod api;
pub mod client;
pub mod cli;
pub mod server;

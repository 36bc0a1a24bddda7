//! The message-dispatch core of a language server.
//!
//! A client speaks to the server in JSON-RPC messages. This library takes the
//! text of one message at a time and says what the server does with it: it
//! reads the envelope ([`server::RawMessage`]), looks the method up in the
//! registry ([`server::Method`]), keeps to the lifecycle of `initialize`,
//! `shutdown` and `exit` ([`server::LsState`]), and gives back what to send
//! and what to do next ([`server::LsService`]). It reads from no stream and
//! writes to none: that is left to the program around it.
//!
//! Everything here is verified but the calls into the crates that read and
//! write JSON text ([`json`]), make JSON-RPC errors ([`jsonrpc`]) and read
//! URIs ([`uri`]); of what those calls return, the contracts say what their
//! documentation says, and no more.

pub mod analysis;
pub mod decimal;
pub mod json;
pub mod jsonrpc;
pub mod lsp_data;
pub mod racer;
pub mod server;
pub mod span;
pub mod uri;

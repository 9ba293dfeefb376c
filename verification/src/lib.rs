//! Clipboard synchronisation between a local clipboard and a remote store.
//!
//! The crate holds the decisions of the synchronisation engine as verified,
//! side-effect free code: which observed value is accepted, when the
//! quiescence window forbids a new update, and what has to be written to
//! which side. Talking to the clipboard and to the network is left to the
//! caller, who feeds the observed values in and carries the requested
//! effects out.
//!
//! - [`clipboard`]: the engine and the model of its reconciliation cycle.
//! - [`laws`]: what holds of the engine over every run.
//! - [`api`]: the state of the client of the remote store and the judgement
//!   of its replies.
//! - [`config`]: the settings and the list of recent servers.
//! - [`qrcode`]: the address of the server as a QR code, and back.
//! - [`error`], [`text`]: the failures and the text helpers that the others
//!   share.

pub mod error;
pub mod text;
pub mod api;
pub mod clipboard;
pub mod laws;
pub mod config;
pub mod qrcode;

//! Client-side logic of the Urbit HTTP API: channel framing, server-sent event
//! parsing, poke and subscription bookkeeping, and small text utilities.

pub mod config;
pub mod error;
pub mod event;
pub mod json;
pub mod sse;
pub mod text;
pub mod urbit;
pub mod utils;

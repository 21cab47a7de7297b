//! Authentication and authorization core for an HTTP API: password hashing,
//! signed session tokens, the per-request authentication gate, and the login
//! flow, together with the data model and input payloads they act on.
//!
//! The crate is organized so that every decision made during admission or
//! login is a verified function from plain values to plain values; the
//! surrounding process (HTTP, storage, clocks behind the scenes) hands values
//! in and carries the results out.

pub mod date;
pub mod digits;
pub mod errors;
pub mod event;
pub mod gate;
pub mod hasher;
pub mod login;
pub mod model;
pub mod payload;
pub mod settings;
pub mod token;

//! Fermix for Linux: the client library behind the desktop window.
//!
//! It contains no engine, writes no unit and holds no secret: everything it
//! shows and changes goes to the daemon over the management protocol. This
//! crate is the part that decides — the vocabularies the daemon publishes, the
//! client's negotiation and epochs, the framing, the models behind every
//! surface — and each of those decisions is proved against its contract.

pub mod actions;
pub mod capture;
pub mod cli;
pub mod bytes;
pub mod copy;
pub mod fixtures;
pub mod text;
pub mod management;
pub mod metrics;
pub mod motion;
pub mod paths;
pub mod registry;
pub mod runtime;
pub mod models;
pub mod service;

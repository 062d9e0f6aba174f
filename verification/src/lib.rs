//! Verified core of an event collector service: node identity, destination
//! bookkeeping, request decisions for the HTTP API, delivery planning and the
//! retry round for pending events.

pub mod config;
pub mod models;
pub mod api;
pub mod broker;
pub mod retry;
pub mod server;
pub mod text;

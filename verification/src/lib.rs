//! A verified core for a small authenticated model-inference gateway.
//!
//! The library covers the decision logic of the system: the shared-secret
//! auth gate, the construction of the gateway's HTTP responses, the startup
//! state machine that orders install, spawn, pull and list before serving,
//! and a model of the runtime's provisioning store. The surrounding process
//! (subprocess management, the HTTP server, the runtime client) lives in the
//! accompanying application crate and hands this library plain values.

pub mod auth;
pub mod bootstrap;
pub mod config;
pub mod gateway;
pub mod provision;

//! Event filtering, log-line rendering and configuration handling for an
//! OpenTelemetry tracing module that runs inside HAProxy.

pub mod text;
pub mod layer;
pub mod setup;
pub mod config;

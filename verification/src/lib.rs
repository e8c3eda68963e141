//! Discovery, connection-health and port-resolution core for a locally
//! installed browser-automation client that exposes an HTTP control API.
//!
//! The library holds the decision logic of the subsystem: process-name
//! matching, diagnostic-tool output parsing, the resolution-strategy
//! pipeline, the path/port cache, connection diagnosis and the monitor's
//! bookkeeping. All operating-system work (process enumeration, filesystem
//! walks, HTTP probes) happens outside and hands the library plain values.

pub mod cache;
pub mod config;
pub mod cookies;
pub mod json;
pub mod launcher;
pub mod locations;
pub mod monitor;
pub mod names;
pub mod netscan;
pub mod numbers;
pub mod ports;
pub mod process;
pub mod registry;
pub mod resolver;
pub mod status;
pub mod text;

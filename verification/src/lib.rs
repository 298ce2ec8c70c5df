//! Pulsar: profile import, storage layout and connection orchestration
//! decisions for OpenVPN-over-Cloak connections.

pub mod cli;
pub mod clock;
pub mod connector;
pub mod error;
pub mod import;
pub mod logging;
pub mod paths;
pub mod pattern;
pub mod platform;
pub mod process;
pub mod profile;
pub mod report;
pub mod text;

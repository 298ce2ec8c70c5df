//! The library's error type.

use vstd::prelude::*;

verus! {

/// `std::io::Error`, carried opaquely inside [`PulsarError`].
#[verifier::external_type_specification]
#[verifier::external_body]
pub struct ExIoError(std::io::Error);

/// `serde_json::Error`, carried opaquely inside [`PulsarError`].
#[verifier::external_type_specification]
#[verifier::external_body]
pub struct ExJsonError(serde_json::Error);

/// `regex::Error`, carried opaquely inside [`PulsarError`].
#[verifier::external_type_specification]
#[verifier::external_body]
pub struct ExRegexError(regex::Error);

/// Everything that can go wrong in Pulsar.
#[derive(Debug)]
pub enum PulsarError {
    ProfileNotFound(String),
    ProfileAlreadyExists(String),
    InvalidProfileName(String),
    BinaryMissing(String),
    BinaryNotExecutable(String),
    PlatformNotSupported(String),
    InvalidAmneziaProfile(String),
    MissingCloakConfig,
    MissingOpenVpnConfig,
    InvalidCloakConfig(String),
    ProcessStartFailed { process: String, source: std::io::Error },
    ProcessExited { process: String, code: i32 },
    ConnectionFailed(String),
    NotConnected,
    AlreadyConnected,
    CloakReadyTimeout { host: String, port: u16, timeout: u64 },
    ConfigDirNotWritable(String),
    Io(std::io::Error),
    Json(serde_json::Error),
    Regex(regex::Error),
    /// The system clock reads before the Unix epoch, or beyond the range of
    /// dates that can be stamped.
    InvalidSystemTime,
}

} // verus!

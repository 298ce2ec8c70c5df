//! Connectors: what runs a connection of a given protocol.

pub mod openvpn_cloak;

use vstd::prelude::*;

use crate::paths::path_join;
use crate::platform::BinaryPaths;
use crate::profile::model::{Profile, ProtocolType};
use crate::profile::store::{spec_file_name, ProfileFile, ProfileStore};
use openvpn_cloak::OpenVpnCloakConnector;

verus! {

/// Where a connection stands.
#[derive(Debug, Clone, Copy, PartialEq, Eq, Structural)]
pub enum ConnectionStatus {
    Disconnected,
    Connecting,
    Connected,
}

impl ConnectionStatus {
    /// The status as shown to users.
    pub fn as_str(&self) -> (s: &'static str)
        ensures
            *self == ConnectionStatus::Disconnected ==> s@ == "Disconnected"@,
            *self == ConnectionStatus::Connecting ==> s@ == "Connecting"@,
            *self == ConnectionStatus::Connected ==> s@ == "Connected"@,
    {
        match self {
            ConnectionStatus::Disconnected => "Disconnected",
            ConnectionStatus::Connecting => "Connecting",
            ConnectionStatus::Connected => "Connected",
        }
    }
}

/// The integer code of a status, for storing it in an atomic cell.
pub open spec fn spec_status_code(s: ConnectionStatus) -> i32 {
    match s {
        ConnectionStatus::Disconnected => 0,
        ConnectionStatus::Connecting => 1,
        ConnectionStatus::Connected => 2,
    }
}

/// The status a code stands for; a code that stands for none reads as
/// `Disconnected`.
pub open spec fn spec_status_from_code(code: i32) -> ConnectionStatus {
    if code == 1 {
        ConnectionStatus::Connecting
    } else if code == 2 {
        ConnectionStatus::Connected
    } else {
        ConnectionStatus::Disconnected
    }
}

/// The integer code of `s`.
pub fn status_code(s: ConnectionStatus) -> (c: i32)
    ensures
        c == spec_status_code(s),
{
    match s {
        ConnectionStatus::Disconnected => 0,
        ConnectionStatus::Connecting => 1,
        ConnectionStatus::Connected => 2,
    }
}

/// The status stored as `code`.
pub fn status_from_code(code: i32) -> (s: ConnectionStatus)
    ensures
        s == spec_status_from_code(code),
{
    if code == 1 {
        ConnectionStatus::Connecting
    } else if code == 2 {
        ConnectionStatus::Connected
    } else {
        ConnectionStatus::Disconnected
    }
}

/// Storing a status as its code and reading the code back gives the status.
pub proof fn lemma_status_code_roundtrip(s: ConnectionStatus)
    ensures
        spec_status_from_code(spec_status_code(s)) == s,
{
}

/// What a connector needs to know to run a connection.
#[derive(Debug)]
pub struct ConnectorConfig {
    pub profile_name: String,
    pub openvpn_config_path: String,
    pub cloak_config_path: String,
    pub ck_client_path: String,
    pub openvpn_bin_path: String,
    pub local_cloak_port: u16,
    pub use_system_binaries: bool,
}

/// The settings for connecting to profile `profile`, stored in `store` under
/// `name`, with the programs `binaries`.
pub fn connector_config_for(
    store: &ProfileStore,
    name: &str,
    profile: &Profile,
    binaries: &BinaryPaths,
    use_system_binaries: bool,
) -> (c: ConnectorConfig)
    ensures
        c.profile_name@ == profile.name@,
        c.openvpn_config_path@ == path_join(
            path_join(store@, name@),
            spec_file_name(ProfileFile::OpenVpnConfig),
        ),
        c.cloak_config_path@ == path_join(
            path_join(store@, name@),
            spec_file_name(ProfileFile::CloakConfig),
        ),
        c.ck_client_path@ == binaries.ck_client@,
        c.openvpn_bin_path@ == binaries.openvpn@,
        c.local_cloak_port == profile.local_cloak_port,
        c.use_system_binaries == use_system_binaries,
{
    ConnectorConfig {
        profile_name: profile.name.clone(),
        openvpn_config_path: store.file_path(name, ProfileFile::OpenVpnConfig),
        cloak_config_path: store.file_path(name, ProfileFile::CloakConfig),
        ck_client_path: binaries.ck_client.clone(),
        openvpn_bin_path: binaries.openvpn.clone(),
        local_cloak_port: profile.local_cloak_port,
        use_system_binaries,
    }
}

/// What every connector reports about itself.
pub trait Connector {
    /// The protocol the connector speaks.
    fn protocol_type(&self) -> ProtocolType;

    /// Where its connection stands.
    fn status(&self) -> ConnectionStatus;
}

/// The connector for `protocol_type`, set up with `config`.
pub fn create_connector(protocol_type: ProtocolType, config: ConnectorConfig) -> (c:
    OpenVpnCloakConnector)
    ensures
        c.settings() == config,
        c.current_status() == ConnectionStatus::Disconnected,
        c.is_idle(),
{
    match protocol_type {
        ProtocolType::OpenvpnCloak => OpenVpnCloakConnector::new(
            config.profile_name,
            config.openvpn_config_path,
            config.cloak_config_path,
            config.ck_client_path,
            config.openvpn_bin_path,
            config.local_cloak_port,
            config.use_system_binaries,
        ),
    }
}

} // verus!

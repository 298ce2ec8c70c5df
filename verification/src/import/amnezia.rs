//! Importing AmneziaVPN backups.
//!
//! A backup is JSON whose `Servers/serversList` entry is itself JSON text: a
//! list of servers, each with containers. The `amnezia-openvpn-cloak`
//! container holds the Cloak configuration and the OpenVPN configuration,
//! each again as JSON text. The import runs in stages; between two stages the
//! caller decodes the JSON text that the previous stage handed out into the
//! plain types below (or an error message) and passes it to the next stage:
//!
//! 1. [`servers_list_json`]: the decoded backup → the servers-list text;
//! 2. [`servers_from`]: the decoded servers list → the servers;
//! 3. [`find_openvpn_cloak_container`]: the servers → the container's entries;
//! 4. [`cloak_json_of`], then [`cloak_config_from`]: the Cloak configuration;
//! 5. [`openvpn_json_of`], then [`openvpn_config_from`]: the OpenVPN text;
//! 6. [`amnezia_profile_data`]: the profile.

use vstd::prelude::*;

use crate::clock::{is_rfc3339_stamp, now_rfc3339};
use crate::error::PulsarError;
use crate::import::remote::{
    find_remote_directive, remote_from_captures, spec_remote_host, spec_remote_port,
    REMOTE_DIRECTIVE_PATTERN,
};
use crate::pattern::{regex_captures, regex_compiles};
use crate::profile::model::{
    join, missing_required_fields, name_if_empty, CloakConfig, Profile, ProfileData, ProtocolType,
};
use crate::text::{
    concat, decimal, lemma_parse_decimal_roundtrip, parse_u16, spec_parse_u16, str_eq, to_string,
};

verus! {

/// The top level of a backup: `Servers/serversList`, JSON text.
#[derive(Debug)]
pub struct AmneziaBackup {
    pub servers_list: Option<String>,
}

/// A server of the servers list.
#[derive(Debug)]
pub struct AmneziaServer {
    pub containers: Vec<AmneziaContainer>,
}

/// A container of a server.
#[derive(Debug)]
pub struct AmneziaContainer {
    pub container: Option<String>,
    pub cloak: Option<AmneziaCloakEntry>,
    pub openvpn: Option<AmneziaOpenVpnEntry>,
}

/// The Cloak entry of a container: `last_config`, JSON text.
#[derive(Debug)]
pub struct AmneziaCloakEntry {
    pub last_config: Option<String>,
}

/// The OpenVPN entry of a container: `last_config`, JSON text.
#[derive(Debug)]
pub struct AmneziaOpenVpnEntry {
    pub last_config: Option<String>,
}

/// The decoded OpenVPN `last_config`: the configuration text under `config`.
#[derive(Debug)]
pub struct OpenVpnLastConfig {
    pub config: Option<String>,
}

/// The decoded Cloak `last_config`, every field optional.
#[derive(Debug)]
pub struct CloakRawConfig {
    pub browser_sig: Option<String>,
    pub encryption_method: Option<String>,
    pub num_conn: Option<u32>,
    pub proxy_method: Option<String>,
    pub public_key: Option<String>,
    pub remote_host: Option<String>,
    pub remote_port: Option<String>,
    pub server_name: Option<String>,
    pub stream_timeout: Option<u32>,
    pub transport: Option<String>,
    pub uid: Option<String>,
}

/// The text of an optional string field, empty when absent.
pub open spec fn text_or_empty(o: Option<String>) -> Seq<char> {
    match o {
        Some(s) => s@,
        None => Seq::empty(),
    }
}

fn take_or_empty(o: Option<String>) -> (s: String)
    ensures
        s@ == text_or_empty(o),
{
    match o {
        Some(s) => s,
        None => String::new(),
    }
}

/// `c` is the configuration that `raw` stands for: absent text fields are
/// empty, an absent `NumConn` is 1 and an absent `StreamTimeout` is 300.
pub open spec fn config_of_raw(c: CloakConfig, raw: CloakRawConfig) -> bool {
    &&& c.browser_sig@ == text_or_empty(raw.browser_sig)
    &&& c.encryption_method@ == text_or_empty(raw.encryption_method)
    &&& c.num_conn == (match raw.num_conn {
        Some(n) => n,
        None => 1,
    })
    &&& c.proxy_method@ == text_or_empty(raw.proxy_method)
    &&& c.public_key@ == text_or_empty(raw.public_key)
    &&& c.remote_host@ == text_or_empty(raw.remote_host)
    &&& c.remote_port@ == text_or_empty(raw.remote_port)
    &&& c.server_name@ == text_or_empty(raw.server_name)
    &&& c.stream_timeout == (match raw.stream_timeout {
        Some(n) => n,
        None => 300,
    })
    &&& c.transport@ == text_or_empty(raw.transport)
    &&& c.uid@ == text_or_empty(raw.uid)
}

/// A decoded Cloak configuration is carried over field by field: every text
/// field present keeps its text, an absent one is empty, and absent
/// `NumConn` and `StreamTimeout` become 1 and 300.
pub proof fn lemma_cloak_fields_carried_over(c: CloakConfig, raw: CloakRawConfig)
    requires
        config_of_raw(c, raw),
    ensures
        raw.browser_sig matches Some(t) ==> c.browser_sig@ == t@,
        raw.browser_sig is None ==> c.browser_sig@.len() == 0,
        raw.encryption_method matches Some(t) ==> c.encryption_method@ == t@,
        raw.encryption_method is None ==> c.encryption_method@.len() == 0,
        raw.proxy_method matches Some(t) ==> c.proxy_method@ == t@,
        raw.proxy_method is None ==> c.proxy_method@.len() == 0,
        raw.public_key matches Some(t) ==> c.public_key@ == t@,
        raw.public_key is None ==> c.public_key@.len() == 0,
        raw.remote_host matches Some(t) ==> c.remote_host@ == t@,
        raw.remote_host is None ==> c.remote_host@.len() == 0,
        raw.remote_port matches Some(t) ==> c.remote_port@ == t@,
        raw.remote_port is None ==> c.remote_port@.len() == 0,
        raw.server_name matches Some(t) ==> c.server_name@ == t@,
        raw.server_name is None ==> c.server_name@.len() == 0,
        raw.transport matches Some(t) ==> c.transport@ == t@,
        raw.transport is None ==> c.transport@.len() == 0,
        raw.uid matches Some(t) ==> c.uid@ == t@,
        raw.uid is None ==> c.uid@.len() == 0,
        raw.num_conn matches Some(n) ==> c.num_conn == n,
        raw.num_conn is None ==> c.num_conn == 1,
        raw.stream_timeout matches Some(n) ==> c.stream_timeout == n,
        raw.stream_timeout is None ==> c.stream_timeout == 300,
{
}

/// The required Cloak fields that `raw` leaves absent or empty.
pub open spec fn missing_required_raw(raw: CloakRawConfig) -> Seq<Seq<char>> {
    name_if_empty(text_or_empty(raw.public_key), "PublicKey"@) + name_if_empty(
        text_or_empty(raw.uid),
        "UID"@,
    ) + name_if_empty(text_or_empty(raw.remote_host), "RemoteHost"@) + name_if_empty(
        text_or_empty(raw.remote_port),
        "RemotePort"@,
    ) + name_if_empty(text_or_empty(raw.proxy_method), "ProxyMethod"@)
}

impl CloakConfig {
    /// The configuration that `raw` stands for, with the defaults filled in.
    pub fn from_raw(raw: CloakRawConfig) -> (c: CloakConfig)
        ensures
            config_of_raw(c, raw),
            missing_required_fields(c) == missing_required_raw(raw),
            raw.browser_sig matches Some(t) ==> c.browser_sig@ == t@,
            raw.browser_sig is None ==> c.browser_sig@.len() == 0,
            raw.encryption_method matches Some(t) ==> c.encryption_method@ == t@,
            raw.encryption_method is None ==> c.encryption_method@.len() == 0,
            raw.proxy_method matches Some(t) ==> c.proxy_method@ == t@,
            raw.proxy_method is None ==> c.proxy_method@.len() == 0,
            raw.public_key matches Some(t) ==> c.public_key@ == t@,
            raw.public_key is None ==> c.public_key@.len() == 0,
            raw.remote_host matches Some(t) ==> c.remote_host@ == t@,
            raw.remote_host is None ==> c.remote_host@.len() == 0,
            raw.remote_port matches Some(t) ==> c.remote_port@ == t@,
            raw.remote_port is None ==> c.remote_port@.len() == 0,
            raw.server_name matches Some(t) ==> c.server_name@ == t@,
            raw.server_name is None ==> c.server_name@.len() == 0,
            raw.transport matches Some(t) ==> c.transport@ == t@,
            raw.transport is None ==> c.transport@.len() == 0,
            raw.uid matches Some(t) ==> c.uid@ == t@,
            raw.uid is None ==> c.uid@.len() == 0,
            raw.num_conn matches Some(n) ==> c.num_conn == n,
            raw.num_conn is None ==> c.num_conn == 1,
            raw.stream_timeout matches Some(n) ==> c.stream_timeout == n,
            raw.stream_timeout is None ==> c.stream_timeout == 300,
    {
        let c = CloakConfig {
            browser_sig: take_or_empty(raw.browser_sig),
            encryption_method: take_or_empty(raw.encryption_method),
            num_conn: match raw.num_conn {
                Some(n) => n,
                None => 1,
            },
            proxy_method: take_or_empty(raw.proxy_method),
            public_key: take_or_empty(raw.public_key),
            remote_host: take_or_empty(raw.remote_host),
            remote_port: take_or_empty(raw.remote_port),
            server_name: take_or_empty(raw.server_name),
            stream_timeout: match raw.stream_timeout {
                Some(n) => n,
                None => 300,
            },
            transport: take_or_empty(raw.transport),
            uid: take_or_empty(raw.uid),
        };
        c
    }
}

/// Stage 1: the servers-list text of a decoded backup (`parsed`, or the
/// decoder's error message).
pub fn servers_list_json(parsed: Result<AmneziaBackup, String>) -> (r: Result<String, PulsarError>)
    ensures
        parsed matches Err(e) ==> (r matches Err(PulsarError::InvalidAmneziaProfile(m)) && m@
            == "Invalid backup JSON: "@ + e@),
        parsed matches Ok(b) ==> (match b.servers_list {
            Some(s) => r matches Ok(t) && t == s,
            None => r matches Err(PulsarError::InvalidAmneziaProfile(m)) && m@
                == "Missing Servers/serversList"@,
        }),
{
    match parsed {
        Err(e) => Err(PulsarError::InvalidAmneziaProfile(concat("Invalid backup JSON: ", e.as_str()))),
        Ok(b) => match b.servers_list {
            Some(s) => Ok(s),
            None => Err(
                PulsarError::InvalidAmneziaProfile(to_string("Missing Servers/serversList")),
            ),
        },
    }
}

/// Stage 2: the servers of a decoded servers list (`parsed`, or the
/// decoder's error message).
pub fn servers_from(parsed: Result<Vec<AmneziaServer>, String>) -> (r: Result<
    Vec<AmneziaServer>,
    PulsarError,
>)
    ensures
        parsed matches Err(e) ==> (r matches Err(PulsarError::InvalidAmneziaProfile(m)) && m@
            == "Invalid servers list JSON: "@ + e@),
        parsed matches Ok(s) ==> r matches Ok(t) && t@ == s@,
{
    match parsed {
        Err(e) => Err(
            PulsarError::InvalidAmneziaProfile(concat("Invalid servers list JSON: ", e.as_str())),
        ),
        Ok(s) => Ok(s),
    }
}

/// The name of the container kind that Pulsar imports.
pub open spec fn openvpn_cloak_container_name() -> Seq<char> {
    "amnezia-openvpn-cloak"@
}

/// A container named `amnezia-openvpn-cloak` with both a Cloak and an
/// OpenVPN entry.
pub open spec fn is_openvpn_cloak_container(c: AmneziaContainer) -> bool {
    &&& c.container matches Some(n) && n@ == openvpn_cloak_container_name()
    &&& c.cloak is Some
    &&& c.openvpn is Some
}

/// Container `k` of server `s` exists and is an OpenVPN-over-Cloak container.
pub open spec fn qualifies_at(servers: Seq<AmneziaServer>, s: int, k: int) -> bool {
    &&& 0 <= s < servers.len()
    &&& 0 <= k < servers[s].containers@.len()
    &&& is_openvpn_cloak_container(servers[s].containers@[k])
}

/// Position `(s1, k1)` comes before `(s2, k2)`: servers in order, and the
/// containers of a server in order.
pub open spec fn comes_before(s1: int, k1: int, s2: int, k2: int) -> bool {
    s1 < s2 || (s1 == s2 && k1 < k2)
}

fn copy_cloak_entry(e: &AmneziaCloakEntry) -> (r: AmneziaCloakEntry)
    ensures
        r == *e,
{
    AmneziaCloakEntry {
        last_config: match &e.last_config {
            Some(s) => Some(s.clone()),
            None => None,
        },
    }
}

fn copy_openvpn_entry(e: &AmneziaOpenVpnEntry) -> (r: AmneziaOpenVpnEntry)
    ensures
        r == *e,
{
    AmneziaOpenVpnEntry {
        last_config: match &e.last_config {
            Some(s) => Some(s.clone()),
            None => None,
        },
    }
}

/// Container `k` of server `s` is the first OpenVPN-over-Cloak container.
pub open spec fn first_qualifying(servers: Seq<AmneziaServer>, s: int, k: int) -> bool {
    &&& qualifies_at(servers, s, k)
    &&& forall|s2: int, k2: int| qualifies_at(servers, s2, k2) ==> !comes_before(s2, k2, s, k)
}

/// Stage 3: the Cloak and OpenVPN entries of the first OpenVPN-over-Cloak
/// container, taking servers in order and each server's containers in order.
pub fn find_openvpn_cloak_container(servers: &Vec<AmneziaServer>) -> (r: Result<
    (AmneziaCloakEntry, AmneziaOpenVpnEntry),
    PulsarError,
>)
    ensures
        r is Err <==> !exists|s: int, k: int| qualifies_at(servers@, s, k),
        r is Err ==> (r matches Err(PulsarError::InvalidAmneziaProfile(m)) && m@
            == "No amnezia-openvpn-cloak container found"@),
        r matches Ok((ce, oe)) ==> exists|s: int, k: int|
            {
                &&& #[trigger] first_qualifying(servers@, s, k)
                &&& ce == servers@[s].containers@[k].cloak.unwrap()
                &&& oe == servers@[s].containers@[k].openvpn.unwrap()
            },
{
    let mut si: usize = 0;
    while si < servers.len()
        invariant
            si <= servers@.len(),
            forall|s: int, k: int| qualifies_at(servers@, s, k) ==> s >= si,
        decreases servers@.len() - si,
    {
        let containers = &servers[si].containers;
        let mut ci: usize = 0;
        while ci < containers.len()
            invariant
                si < servers@.len(),
                containers == servers@[si as int].containers,
                ci <= containers@.len(),
                forall|s: int, k: int|
                    qualifies_at(servers@, s, k) ==> s > si || (s == si && k >= ci),
            decreases containers@.len() - ci,
        {
            let c = &containers[ci];
            let named = match &c.container {
                Some(n) => str_eq(n.as_str(), "amnezia-openvpn-cloak"),
                None => false,
            };
            if named {
                match (&c.cloak, &c.openvpn) {
                    (Some(ce), Some(oe)) => {
                        assert(qualifies_at(servers@, si as int, ci as int));
                        assert(first_qualifying(servers@, si as int, ci as int));
                        return Ok((copy_cloak_entry(ce), copy_openvpn_entry(oe)));
                    },
                    _ => {},
                }
            }
            assert(!qualifies_at(servers@, si as int, ci as int));
            ci = ci + 1;
        }
        si = si + 1;
    }
    Err(
        PulsarError::InvalidAmneziaProfile(to_string("No amnezia-openvpn-cloak container found")),
    )
}

/// Stage 4a: the Cloak `last_config` text of the container's Cloak entry.
pub fn cloak_json_of(entry: &AmneziaCloakEntry) -> (r: Result<String, PulsarError>)
    ensures
        entry.last_config matches Some(s) ==> r matches Ok(t) && t@ == s@,
        entry.last_config is None ==> (r matches Err(PulsarError::InvalidCloakConfig(m)) && m@
            == "Missing cloak last_config"@),
{
    match &entry.last_config {
        Some(s) => Ok(s.clone()),
        None => Err(PulsarError::InvalidCloakConfig(to_string("Missing cloak last_config"))),
    }
}

/// Stage 4b: the Cloak configuration from its decoded `last_config`
/// (`parsed`, or the decoder's error message), defaults filled in and the
/// required fields checked.
pub fn cloak_config_from(parsed: Result<CloakRawConfig, String>) -> (r: Result<
    CloakConfig,
    PulsarError,
>)
    ensures
        parsed matches Err(e) ==> (r matches Err(PulsarError::InvalidCloakConfig(m)) && m@
            == "Invalid JSON: "@ + e@),
        parsed matches Ok(raw) ==> {
            &&& r is Ok <==> missing_required_raw(raw).len() == 0
            &&& r matches Ok(c) ==> config_of_raw(c, raw)
            &&& r is Err ==> (r matches Err(PulsarError::InvalidCloakConfig(m)) && m@
                == "Missing required fields: "@ + join(missing_required_raw(raw), ", "@))
        },
{
    match parsed {
        Err(e) => Err(PulsarError::InvalidCloakConfig(concat("Invalid JSON: ", e.as_str()))),
        Ok(raw) => {
            let config = CloakConfig::from_raw(raw);
            match config.validate() {
                Ok(()) => Ok(config),
                Err(e) => Err(e),
            }
        },
    }
}

/// Stage 5a: the OpenVPN `last_config` text of the container's OpenVPN entry.
pub fn openvpn_json_of(entry: &AmneziaOpenVpnEntry) -> (r: Result<String, PulsarError>)
    ensures
        entry.last_config matches Some(s) ==> r matches Ok(t) && t@ == s@,
        entry.last_config is None ==> (r matches Err(PulsarError::InvalidAmneziaProfile(m)) && m@
            == "Missing OpenVPN last_config"@),
{
    match &entry.last_config {
        Some(s) => Ok(s.clone()),
        None => Err(PulsarError::InvalidAmneziaProfile(to_string("Missing OpenVPN last_config"))),
    }
}

/// Stage 5b: the OpenVPN configuration text from its decoded `last_config`
/// (`parsed`, or the decoder's error message).
pub fn openvpn_config_from(parsed: Result<OpenVpnLastConfig, String>) -> (r: Result<
    String,
    PulsarError,
>)
    ensures
        parsed matches Err(e) ==> (r matches Err(PulsarError::InvalidAmneziaProfile(m)) && m@
            == "Invalid OpenVPN config JSON: "@ + e@),
        parsed matches Ok(p) ==> (match p.config {
            Some(c) => r matches Ok(t) && t == c,
            None => r matches Err(PulsarError::MissingOpenVpnConfig),
        }),
{
    match parsed {
        Err(e) => Err(
            PulsarError::InvalidAmneziaProfile(concat("Invalid OpenVPN config JSON: ", e.as_str())),
        ),
        Ok(p) => match p.config {
            Some(c) => Ok(c),
            None => Err(PulsarError::MissingOpenVpnConfig),
        },
    }
}

/// The host that a backup's `remote` directive names, or `127.0.0.1`.
pub open spec fn spec_backup_remote_host(openvpn_config: Seq<char>) -> Seq<char> {
    spec_remote_host(regex_captures(REMOTE_DIRECTIVE_PATTERN@, openvpn_config), "127.0.0.1"@)
}

/// The port that a backup's `remote` directive names, or 1194.
pub open spec fn spec_backup_remote_port(openvpn_config: Seq<char>) -> u16 {
    spec_remote_port(regex_captures(REMOTE_DIRECTIVE_PATTERN@, openvpn_config), 1194)
}

/// The remote host and port named by the first `remote <host> <port>` line
/// of an OpenVPN configuration, defaulting to `127.0.0.1` and 1194.
pub fn extract_remote_info(openvpn_config: &str) -> (r: Result<(String, u16), PulsarError>)
    ensures
        r is Ok <==> regex_compiles(REMOTE_DIRECTIVE_PATTERN@),
        r matches Ok((h, p)) ==> h@ == spec_backup_remote_host(openvpn_config@) && p
            == spec_backup_remote_port(openvpn_config@),
        r matches Err(e) ==> e is Regex,
{
    let found = find_remote_directive(openvpn_config)?;
    Ok(remote_from_captures(&found, "127.0.0.1", 1194))
}

/// The profile imported from a backup: `remote_host`/`remote_port` as found
/// in the OpenVPN configuration, except that a local endpoint (`127.0.0.1`,
/// where the Cloak client listens) is replaced by the Cloak server's host and,
/// when it parses, port.
pub open spec fn amnezia_profile_fields(
    p: Profile,
    cloak: CloakConfig,
    found_host: Seq<char>,
    found_port: u16,
) -> bool {
    let is_local = found_host == "127.0.0.1"@;
    &&& p.name@ == Seq::<char>::empty()
    &&& p.protocol_type == ProtocolType::OpenvpnCloak
    &&& p.remote_host@ == if is_local {
        cloak.remote_host@
    } else {
        found_host
    }
    &&& p.remote_port == if is_local {
        match spec_parse_u16(cloak.remote_port@) {
            Some(v) => v,
            None => found_port,
        }
    } else {
        found_port
    }
    &&& p.local_cloak_port == 1194
}

/// Stage 6, given the endpoint found in the OpenVPN configuration and the
/// creation time: the imported profile data (with an empty name).
pub fn amnezia_profile_data_at(
    cloak_config: CloakConfig,
    openvpn_config: String,
    found_host: String,
    found_port: u16,
    created_at: String,
) -> (d: ProfileData)
    ensures
        amnezia_profile_fields(d.profile, cloak_config, found_host@, found_port),
        found_host@ == "127.0.0.1"@ ==> d.profile.remote_host == cloak_config.remote_host,
        found_host@ == "127.0.0.1"@ ==> forall|v: u16|
            cloak_config.remote_port@ == #[trigger] decimal(v as nat) ==> d.profile.remote_port
                == v,
        found_host@ != "127.0.0.1"@ ==> d.profile.remote_host == found_host
            && d.profile.remote_port == found_port,
        d.profile.local_cloak_port == 1194,
        d.profile.created_at == created_at,
        d.openvpn_config == openvpn_config,
        d.cloak_config == cloak_config,
{
    let is_local = str_eq(found_host.as_str(), "127.0.0.1");
    let remote_host = if is_local {
        cloak_config.remote_host.clone()
    } else {
        found_host
    };
    let remote_port = if is_local {
        match parse_u16(cloak_config.remote_port.as_str()) {
            Some(v) => v,
            None => found_port,
        }
    } else {
        found_port
    };
    let profile = Profile {
        name: String::new(),
        protocol_type: ProtocolType::OpenvpnCloak,
        created_at,
        remote_host,
        remote_port,
        local_cloak_port: 1194,
    };
    proof {
        assert forall|v: u16| is_local && cloak_config.remote_port@ == #[trigger] decimal(v as nat)
            implies remote_port == v by {
            lemma_parse_decimal_roundtrip(v);
        }
    }
    ProfileData { profile, openvpn_config, cloak_config }
}

/// A profile imported from a backup whose OpenVPN configuration names the
/// local Cloak endpoint `127.0.0.1` takes the Cloak server's host, and its
/// port when that is written in decimal; any other endpoint found is stored
/// as it is. The local Cloak port is 1194.
pub proof fn lemma_amnezia_profile_endpoint(
    p: Profile,
    cloak: CloakConfig,
    found_host: Seq<char>,
    found_port: u16,
)
    requires
        amnezia_profile_fields(p, cloak, found_host, found_port),
    ensures
        found_host == "127.0.0.1"@ ==> p.remote_host@ == cloak.remote_host@,
        found_host == "127.0.0.1"@ ==> forall|v: u16|
            cloak.remote_port@ == #[trigger] decimal(v as nat) ==> p.remote_port == v,
        found_host != "127.0.0.1"@ ==> p.remote_host@ == found_host && p.remote_port
            == found_port,
        p.local_cloak_port == 1194,
        p.name@.len() == 0,
{
    assert forall|v: u16| found_host == "127.0.0.1"@ && cloak.remote_port@ == #[trigger] decimal(
        v as nat,
    ) implies p.remote_port == v by {
        lemma_parse_decimal_roundtrip(v);
    }
}

/// Stage 6: the imported profile data (with an empty name, stamped with the
/// current time).
pub fn amnezia_profile_data(cloak_config: CloakConfig, openvpn_config: String) -> (r: Result<
    ProfileData,
    PulsarError,
>)
    ensures
        !regex_compiles(REMOTE_DIRECTIVE_PATTERN@) ==> (r matches Err(e) && e is Regex),
        r matches Ok(d) ==> {
            &&& regex_compiles(REMOTE_DIRECTIVE_PATTERN@)
            &&& amnezia_profile_fields(
                d.profile,
                cloak_config,
                spec_backup_remote_host(openvpn_config@),
                spec_backup_remote_port(openvpn_config@),
            )
            &&& is_rfc3339_stamp(d.profile.created_at@)
            &&& d.openvpn_config == openvpn_config
            &&& d.cloak_config == cloak_config
        },
        r matches Err(e) ==> if regex_compiles(REMOTE_DIRECTIVE_PATTERN@) {
            e is InvalidSystemTime
        } else {
            e is Regex
        },
{
    let (host, port) = extract_remote_info(openvpn_config.as_str())?;
    let created_at = match now_rfc3339() {
        Some(t) => t,
        None => {
            return Err(PulsarError::InvalidSystemTime);
        },
    };
    Ok(amnezia_profile_data_at(cloak_config, openvpn_config, host, port, created_at))
}

// ---------------------------------------------------------------------------
// The import as a whole
// ---------------------------------------------------------------------------

/// A JSON document the import needs decoded.
#[derive(Debug, Clone, Copy, PartialEq, Eq, Structural)]
pub enum AmneziaDocument {
    /// The backup itself, as [`AmneziaBackup`].
    Backup,
    /// The servers list, as a list of [`AmneziaServer`].
    ServersList,
    /// The Cloak `last_config`, as [`CloakRawConfig`].
    CloakConfig,
    /// The OpenVPN `last_config`, as [`OpenVpnLastConfig`].
    OpenVpnLastConfig,
}

/// A decoded document.
#[derive(Debug)]
pub enum AmneziaDecoded {
    Backup(AmneziaBackup),
    ServersList(Vec<AmneziaServer>),
    CloakConfig(CloakRawConfig),
    OpenVpnLastConfig(OpenVpnLastConfig),
}

/// Which document `d` is.
pub open spec fn decoded_kind(d: AmneziaDecoded) -> AmneziaDocument {
    match d {
        AmneziaDecoded::Backup(_) => AmneziaDocument::Backup,
        AmneziaDecoded::ServersList(_) => AmneziaDocument::ServersList,
        AmneziaDecoded::CloakConfig(_) => AmneziaDocument::CloakConfig,
        AmneziaDecoded::OpenVpnLastConfig(_) => AmneziaDocument::OpenVpnLastConfig,
    }
}

/// What the import asks for next.
#[derive(Debug)]
pub enum AmneziaNext {
    /// Decode `text` as `document` and pass the outcome to
    /// [`AmneziaImport::advance`].
    Decode { document: AmneziaDocument, text: String },
    /// The import is over.
    Done(Result<ProfileData, PulsarError>),
}

/// Where an AmneziaVPN import stands.
#[derive(Debug)]
pub enum AmneziaImport {
    AwaitingBackup,
    AwaitingServers,
    AwaitingCloak { openvpn_entry: AmneziaOpenVpnEntry },
    AwaitingOpenVpn { cloak_config: CloakConfig },
    Finished,
}

/// The document that `state` waits for.
pub open spec fn awaited(state: AmneziaImport) -> Option<AmneziaDocument> {
    match state {
        AmneziaImport::AwaitingBackup => Some(AmneziaDocument::Backup),
        AmneziaImport::AwaitingServers => Some(AmneziaDocument::ServersList),
        AmneziaImport::AwaitingCloak { .. } => Some(AmneziaDocument::CloakConfig),
        AmneziaImport::AwaitingOpenVpn { .. } => Some(AmneziaDocument::OpenVpnLastConfig),
        AmneziaImport::Finished => None,
    }
}

/// How far an import has got: each step moves strictly forward, so an
/// import asks for at most four documents.
pub open spec fn progress(state: AmneziaImport) -> int {
    match state {
        AmneziaImport::AwaitingBackup => 0,
        AmneziaImport::AwaitingServers => 1,
        AmneziaImport::AwaitingCloak { .. } => 2,
        AmneziaImport::AwaitingOpenVpn { .. } => 3,
        AmneziaImport::Finished => 4,
    }
}

/// The outcome of decoding fits what `state` waits for.
pub open spec fn fits(state: AmneziaImport, decoded: Result<AmneziaDecoded, String>) -> bool {
    &&& awaited(state) is Some
    &&& decoded matches Ok(d) ==> Some(decoded_kind(d)) == awaited(state)
}

/// The next step asks to decode `text` as `document`.
pub open spec fn asks_decode(next: AmneziaNext, document: AmneziaDocument, text: Seq<char>) -> bool {
    next matches AmneziaNext::Decode { document: d, text: t } && d == document && t@ == text
}

/// The import ends with an `InvalidAmneziaProfile` error saying `msg`.
pub open spec fn fails_amnezia(next: AmneziaNext, msg: Seq<char>) -> bool {
    next matches AmneziaNext::Done(Err(PulsarError::InvalidAmneziaProfile(m))) && m@ == msg
}

/// The import ends with an `InvalidCloakConfig` error saying `msg`.
pub open spec fn fails_cloak(next: AmneziaNext, msg: Seq<char>) -> bool {
    next matches AmneziaNext::Done(Err(PulsarError::InvalidCloakConfig(m))) && m@ == msg
}

impl AmneziaImport {
    /// Starts importing the backup `contents`: the backup is to be decoded.
    pub fn begin(contents: &str) -> (r: (AmneziaImport, AmneziaNext))
        ensures
            r.0 == AmneziaImport::AwaitingBackup,
            asks_decode(r.1, AmneziaDocument::Backup, contents@),
    {
        (AmneziaImport::AwaitingBackup, AmneziaNext::Decode { document: AmneziaDocument::Backup, text: to_string(contents) })
    }

    /// Whether `decoded` is the outcome of decoding the document this import
    /// waits for: what [`Self::advance`] requires.
    pub fn accepts(&self, decoded: &Result<AmneziaDecoded, String>) -> (r: bool)
        ensures
            r == fits(*self, *decoded),
    {
        match decoded {
            Err(_) => !matches!(self, AmneziaImport::Finished),
            Ok(d) => match self {
                AmneziaImport::AwaitingBackup => matches!(d, AmneziaDecoded::Backup(_)),
                AmneziaImport::AwaitingServers => matches!(d, AmneziaDecoded::ServersList(_)),
                AmneziaImport::AwaitingCloak { .. } => matches!(d, AmneziaDecoded::CloakConfig(_)),
                AmneziaImport::AwaitingOpenVpn { .. } => matches!(
                    d,
                    AmneziaDecoded::OpenVpnLastConfig(_)
                ),
                AmneziaImport::Finished => false,
            },
        }
    }

    /// Takes the outcome of decoding the document asked for (or the
    /// decoder's error message) and moves the import on.
    pub fn advance(self, decoded: Result<AmneziaDecoded, String>) -> (r: (AmneziaImport, AmneziaNext))
        requires
            fits(self, decoded),
        ensures
            r.1 is Done <==> r.0 == AmneziaImport::Finished,
            progress(r.0) > progress(self),
            r.1 matches AmneziaNext::Decode { document, .. } ==> awaited(r.0) == Some(document),
            // Any decoding failure ends the import, naming the document.
            decoded matches Err(e) ==> match self {
                AmneziaImport::AwaitingBackup => fails_amnezia(r.1, "Invalid backup JSON: "@ + e@),
                AmneziaImport::AwaitingServers => fails_amnezia(r.1, "Invalid servers list JSON: "@ + e@),
                AmneziaImport::AwaitingCloak { .. } => fails_cloak(r.1, "Invalid JSON: "@ + e@),
                _ => fails_amnezia(r.1, "Invalid OpenVPN config JSON: "@ + e@),
            },
            // The backup: its servers list is decoded next.
            decoded matches Ok(AmneziaDecoded::Backup(b)) ==> match b.servers_list {
                Some(t) => r.0 == AmneziaImport::AwaitingServers && asks_decode(
                    r.1,
                    AmneziaDocument::ServersList,
                    t@,
                ),
                None => fails_amnezia(r.1, "Missing Servers/serversList"@),
            },
            // The servers: the Cloak configuration of the first
            // OpenVPN-over-Cloak container is decoded next.
            decoded matches Ok(AmneziaDecoded::ServersList(servers)) ==> {
                &&& (!exists|s: int, k: int| qualifies_at(servers@, s, k)) ==> fails_amnezia(
                    r.1,
                    "No amnezia-openvpn-cloak container found"@,
                )
                &&& forall|s: int, k: int| #[trigger]
                    first_qualifying(servers@, s, k) ==> {
                        let c = servers@[s].containers@[k];
                        match c.cloak.unwrap().last_config {
                            Some(t) => asks_decode(r.1, AmneziaDocument::CloakConfig, t@) && r.0
                                == (AmneziaImport::AwaitingCloak {
                                openvpn_entry: c.openvpn.unwrap(),
                            }),
                            None => fails_cloak(r.1, "Missing cloak last_config"@),
                        }
                    }
            },
            // The Cloak configuration: once checked, the OpenVPN configuration
            // is decoded next.
            decoded matches Ok(AmneziaDecoded::CloakConfig(raw)) ==> {
                &&& missing_required_raw(raw).len() > 0 ==> fails_cloak(
                    r.1,
                    "Missing required fields: "@ + join(missing_required_raw(raw), ", "@),
                )
                &&& missing_required_raw(raw).len() == 0 ==> (self matches AmneziaImport::AwaitingCloak {
                    openvpn_entry,
                } && match openvpn_entry.last_config {
                    Some(t) => asks_decode(r.1, AmneziaDocument::OpenVpnLastConfig, t@)
                        && (r.0 matches AmneziaImport::AwaitingOpenVpn { cloak_config }
                        && config_of_raw(cloak_config, raw)),
                    None => fails_amnezia(r.1, "Missing OpenVPN last_config"@),
                })
            },
            // The OpenVPN configuration: the profile is built.
            decoded matches Ok(AmneziaDecoded::OpenVpnLastConfig(p)) ==> (self matches AmneziaImport::AwaitingOpenVpn {
                cloak_config,
            } && match p.config {
                None => r.1 matches AmneziaNext::Done(Err(PulsarError::MissingOpenVpnConfig)),
                Some(text) => if regex_compiles(REMOTE_DIRECTIVE_PATTERN@) {
                    (r.1 matches AmneziaNext::Done(Ok(d)) && amnezia_profile_fields(
                        d.profile,
                        cloak_config,
                        spec_backup_remote_host(text@),
                        spec_backup_remote_port(text@),
                    ) && is_rfc3339_stamp(d.profile.created_at@) && d.openvpn_config == text
                        && d.cloak_config == cloak_config) || (r.1 matches AmneziaNext::Done(
                        Err(e),
                    ) && e is InvalidSystemTime)
                } else {
                    (r.1 matches AmneziaNext::Done(Err(e)) && e is Regex)
                },
            }),
    {
        match self {
            AmneziaImport::AwaitingBackup => {
                let parsed = match decoded {
                    Ok(AmneziaDecoded::Backup(b)) => Ok(b),
                    Err(e) => Err(e),
                    _ => {
                        proof {
                            assert(false);
                        }
                        return (AmneziaImport::Finished, AmneziaNext::Done(Err(PulsarError::MissingOpenVpnConfig)));
                    },
                };
                match servers_list_json(parsed) {
                    Ok(t) => (AmneziaImport::AwaitingServers, AmneziaNext::Decode { document: AmneziaDocument::ServersList, text: t }),
                    Err(e) => (AmneziaImport::Finished, AmneziaNext::Done(Err(e))),
                }
            },
            AmneziaImport::AwaitingServers => {
                let parsed = match decoded {
                    Ok(AmneziaDecoded::ServersList(s)) => Ok(s),
                    Err(e) => Err(e),
                    _ => {
                        proof {
                            assert(false);
                        }
                        return (AmneziaImport::Finished, AmneziaNext::Done(Err(PulsarError::MissingOpenVpnConfig)));
                    },
                };
                let servers = match servers_from(parsed) {
                    Ok(s) => s,
                    Err(e) => {
                        return (AmneziaImport::Finished, AmneziaNext::Done(Err(e)));
                    },
                };
                let ghost sv = servers@;
                match find_openvpn_cloak_container(&servers) {
                    Err(e) => (AmneziaImport::Finished, AmneziaNext::Done(Err(e))),
                    Ok((ce, oe)) => {
                        proof {
                            let (s0, k0) = choose|s: int, k: int|
                                #[trigger] first_qualifying(sv, s, k) && ce == sv[s].containers@[k].cloak.unwrap()
                                    && oe == sv[s].containers@[k].openvpn.unwrap();
                            assert forall|s: int, k: int| #[trigger]
                                first_qualifying(sv, s, k) implies s == s0 && k == k0 by {
                                assert(!comes_before(s, k, s0, k0));
                                assert(!comes_before(s0, k0, s, k));
                            }
                        }
                        match cloak_json_of(&ce) {
                            Ok(t) => (AmneziaImport::AwaitingCloak { openvpn_entry: oe }, AmneziaNext::Decode { document: AmneziaDocument::CloakConfig, text: t }),
                            Err(e) => (AmneziaImport::Finished, AmneziaNext::Done(Err(e))),
                        }
                    },
                }
            },
            AmneziaImport::AwaitingCloak { openvpn_entry } => {
                let parsed = match decoded {
                    Ok(AmneziaDecoded::CloakConfig(c)) => Ok(c),
                    Err(e) => Err(e),
                    _ => {
                        proof {
                            assert(false);
                        }
                        return (AmneziaImport::Finished, AmneziaNext::Done(Err(PulsarError::MissingOpenVpnConfig)));
                    },
                };
                match cloak_config_from(parsed) {
                    Err(e) => (AmneziaImport::Finished, AmneziaNext::Done(Err(e))),
                    Ok(cloak_config) => match openvpn_json_of(&openvpn_entry) {
                        Ok(t) => (AmneziaImport::AwaitingOpenVpn { cloak_config }, AmneziaNext::Decode { document: AmneziaDocument::OpenVpnLastConfig, text: t }),
                        Err(e) => (AmneziaImport::Finished, AmneziaNext::Done(Err(e))),
                    },
                }
            },
            AmneziaImport::AwaitingOpenVpn { cloak_config } => {
                let parsed = match decoded {
                    Ok(AmneziaDecoded::OpenVpnLastConfig(p)) => Ok(p),
                    Err(e) => Err(e),
                    _ => {
                        proof {
                            assert(false);
                        }
                        return (AmneziaImport::Finished, AmneziaNext::Done(Err(PulsarError::MissingOpenVpnConfig)));
                    },
                };
                match openvpn_config_from(parsed) {
                    Err(e) => (AmneziaImport::Finished, AmneziaNext::Done(Err(e))),
                    Ok(text) => (AmneziaImport::Finished, AmneziaNext::Done(amnezia_profile_data(cloak_config, text))),
                }
            },
            AmneziaImport::Finished => {
                proof {
                    assert(false);
                }
                (AmneziaImport::Finished, AmneziaNext::Done(Err(PulsarError::MissingOpenVpnConfig)))
            },
        }
    }
}

} // verus!

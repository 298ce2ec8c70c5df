//! Importing a profile from a separate OpenVPN configuration and Cloak
//! configuration. The caller reads both files and decodes the Cloak JSON;
//! [`manual_cloak_config`] checks the decoded configuration and
//! [`import_manual`] builds the profile.

use vstd::prelude::*;

use crate::clock::{is_rfc3339_stamp, now_rfc3339};
use crate::error::PulsarError;
use crate::import::remote::{
    find_remote_directive, remote_from_captures, spec_remote_host, spec_remote_port,
    REMOTE_DIRECTIVE_PATTERN,
};
use crate::pattern::{regex_captures, regex_compiles};
use crate::profile::model::{
    join, missing_required_fields, CloakConfig, Profile, ProfileData, ProtocolType,
};
use crate::text::{
    concat, decimal, lemma_parse_decimal_roundtrip, parse_u16, spec_parse_u16, str_eq,
};

verus! {

/// The Cloak configuration decoded from its file (`parsed`, or the decoder's
/// error message), provided its required fields are present.
pub fn manual_cloak_config(parsed: Result<CloakConfig, String>) -> (r: Result<
    CloakConfig,
    PulsarError,
>)
    ensures
        parsed matches Err(e) ==> (r matches Err(PulsarError::InvalidCloakConfig(m)) && m@
            == "Invalid Cloak JSON: "@ + e@),
        parsed matches Ok(c) ==> {
            &&& r is Ok <==> missing_required_fields(c).len() == 0
            &&& r matches Ok(d) ==> d == c
            &&& r is Err ==> (r matches Err(PulsarError::InvalidCloakConfig(m)) && m@
                == "Missing required fields: "@ + join(missing_required_fields(c), ", "@))
        },
{
    match parsed {
        Err(e) => Err(PulsarError::InvalidCloakConfig(concat("Invalid Cloak JSON: ", e.as_str()))),
        Ok(c) => match c.validate() {
            Ok(()) => Ok(c),
            Err(e) => Err(e),
        },
    }
}

/// The host named by the configuration's `remote` directive, or the Cloak
/// server's host.
pub open spec fn spec_manual_remote_host(openvpn_config: Seq<char>, cloak: CloakConfig) -> Seq<char> {
    spec_remote_host(regex_captures(REMOTE_DIRECTIVE_PATTERN@, openvpn_config), cloak.remote_host@)
}

/// The port named by the configuration's `remote` directive, or 443.
pub open spec fn spec_manual_remote_port(openvpn_config: Seq<char>) -> u16 {
    spec_remote_port(regex_captures(REMOTE_DIRECTIVE_PATTERN@, openvpn_config), 443)
}

/// The profile of a manual import: the host found in the OpenVPN
/// configuration unless it is the local endpoint `127.0.0.1`, in which case
/// the Cloak server's host; the Cloak server's port when it parses, else the
/// port found.
pub open spec fn manual_profile_fields(
    p: Profile,
    cloak: CloakConfig,
    found_host: Seq<char>,
    found_port: u16,
) -> bool {
    &&& p.name@ == Seq::<char>::empty()
    &&& p.protocol_type == ProtocolType::OpenvpnCloak
    &&& p.remote_host@ == if found_host == "127.0.0.1"@ {
        cloak.remote_host@
    } else {
        found_host
    }
    &&& p.remote_port == match spec_parse_u16(cloak.remote_port@) {
        Some(v) => v,
        None => found_port,
    }
    &&& p.local_cloak_port == 1194
}

/// The profile data of a manual import, given the endpoint found in the
/// OpenVPN configuration and the creation time (with an empty name).
pub fn manual_profile_data_at(
    openvpn_config: String,
    cloak_config: CloakConfig,
    found_host: String,
    found_port: u16,
    created_at: String,
) -> (d: ProfileData)
    ensures
        manual_profile_fields(d.profile, cloak_config, found_host@, found_port),
        found_host@ == "127.0.0.1"@ ==> d.profile.remote_host == cloak_config.remote_host,
        found_host@ != "127.0.0.1"@ ==> d.profile.remote_host == found_host,
        forall|v: u16|
            cloak_config.remote_port@ == #[trigger] decimal(v as nat) ==> d.profile.remote_port
                == v,
        d.profile.local_cloak_port == 1194,
        d.profile.created_at == created_at,
        d.openvpn_config == openvpn_config,
        d.cloak_config == cloak_config,
{
    let remote_host = if str_eq(found_host.as_str(), "127.0.0.1") {
        cloak_config.remote_host.clone()
    } else {
        found_host
    };
    let remote_port = match parse_u16(cloak_config.remote_port.as_str()) {
        Some(v) => v,
        None => found_port,
    };
    let profile = Profile {
        name: String::new(),
        protocol_type: ProtocolType::OpenvpnCloak,
        created_at,
        remote_host,
        remote_port,
        local_cloak_port: 1194,
    };
    proof {
        assert forall|v: u16| cloak_config.remote_port@ == #[trigger] decimal(v as nat) implies remote_port
            == v by {
            lemma_parse_decimal_roundtrip(v);
        }
    }
    ProfileData { profile, openvpn_config, cloak_config }
}

/// A manual import that finds the local Cloak endpoint `127.0.0.1` in the
/// OpenVPN configuration stores the Cloak server's host; any other host found
/// is stored as it is. A Cloak server port written in decimal is stored as
/// that number, whatever port was found, and the local Cloak port is 1194.
pub proof fn lemma_manual_profile_endpoint(
    p: Profile,
    cloak: CloakConfig,
    found_host: Seq<char>,
    found_port: u16,
)
    requires
        manual_profile_fields(p, cloak, found_host, found_port),
    ensures
        found_host == "127.0.0.1"@ ==> p.remote_host@ == cloak.remote_host@,
        found_host != "127.0.0.1"@ ==> p.remote_host@ == found_host,
        forall|v: u16| cloak.remote_port@ == #[trigger] decimal(v as nat) ==> p.remote_port == v,
        p.local_cloak_port == 1194,
        p.name@.len() == 0,
{
    assert forall|v: u16| cloak.remote_port@ == #[trigger] decimal(v as nat) implies p.remote_port
        == v by {
        lemma_parse_decimal_roundtrip(v);
    }
}

/// The profile data of a manual import from the OpenVPN configuration text
/// and the checked Cloak configuration (with an empty name, stamped with the
/// current time).
pub fn import_manual(openvpn_config: String, cloak_config: CloakConfig) -> (r: Result<
    ProfileData,
    PulsarError,
>)
    ensures
        !regex_compiles(REMOTE_DIRECTIVE_PATTERN@) ==> (r matches Err(e) && e is Regex),
        r matches Ok(d) ==> {
            &&& regex_compiles(REMOTE_DIRECTIVE_PATTERN@)
            &&& is_rfc3339_stamp(d.profile.created_at@)
            &&& spec_manual_remote_host(openvpn_config@, cloak_config) == "127.0.0.1"@
                ==> d.profile.remote_host == cloak_config.remote_host
            &&& spec_manual_remote_host(openvpn_config@, cloak_config) != "127.0.0.1"@
                ==> d.profile.remote_host@ == spec_manual_remote_host(openvpn_config@, cloak_config)
            &&& manual_profile_fields(
                d.profile,
                cloak_config,
                spec_manual_remote_host(openvpn_config@, cloak_config),
                spec_manual_remote_port(openvpn_config@),
            )
            &&& d.openvpn_config == openvpn_config
            &&& d.cloak_config == cloak_config
        },
        r matches Err(e) ==> if regex_compiles(REMOTE_DIRECTIVE_PATTERN@) {
            e is InvalidSystemTime
        } else {
            e is Regex
        },
{
    let found = find_remote_directive(openvpn_config.as_str())?;
    let (host, port) = remote_from_captures(&found, cloak_config.remote_host.as_str(), 443);
    let created_at = match now_rfc3339() {
        Some(t) => t,
        None => {
            return Err(PulsarError::InvalidSystemTime);
        },
    };
    Ok(manual_profile_data_at(openvpn_config, cloak_config, host, port, created_at))
}

} // verus!

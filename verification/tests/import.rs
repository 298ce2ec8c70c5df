use pulsar::error::PulsarError;
use pulsar::import::amnezia::{
    amnezia_profile_data, amnezia_profile_data_at, cloak_config_from, cloak_json_of,
    find_openvpn_cloak_container, openvpn_config_from, openvpn_json_of, servers_from,
    servers_list_json, AmneziaBackup, AmneziaCloakEntry, AmneziaContainer, AmneziaOpenVpnEntry,
    AmneziaServer, CloakRawConfig, OpenVpnLastConfig,
};
use pulsar::import::manual::{import_manual, manual_cloak_config, manual_profile_data_at};
use pulsar::import::remote::{find_remote_directive, remote_from_captures};
use pulsar::profile::model::{CloakConfig, ProtocolType};

fn cloak(remote_host: &str, remote_port: &str) -> CloakConfig {
    CloakConfig {
        browser_sig: "chrome".to_string(),
        encryption_method: "aes-gcm".to_string(),
        num_conn: 1,
        proxy_method: "openvpn".to_string(),
        public_key: "dGVzdA==".to_string(),
        remote_host: remote_host.to_string(),
        remote_port: remote_port.to_string(),
        server_name: "example.com".to_string(),
        stream_timeout: 300,
        transport: "direct".to_string(),
        uid: "dGVzdHVpZA==".to_string(),
    }
}

fn raw_empty() -> CloakRawConfig {
    CloakRawConfig {
        browser_sig: None,
        encryption_method: None,
        num_conn: None,
        proxy_method: None,
        public_key: None,
        remote_host: None,
        remote_port: None,
        server_name: None,
        stream_timeout: None,
        transport: None,
        uid: None,
    }
}

fn container(name: Option<&str>, cloak: Option<&str>, openvpn: Option<&str>) -> AmneziaContainer {
    AmneziaContainer {
        container: name.map(|s| s.to_string()),
        cloak: cloak.map(|s| AmneziaCloakEntry { last_config: Some(s.to_string()) }),
        openvpn: openvpn.map(|s| AmneziaOpenVpnEntry { last_config: Some(s.to_string()) }),
    }
}

#[test]
fn cloak_defaults_fill_absent_fields() {
    let mut raw = raw_empty();
    raw.public_key = Some("k".to_string());
    let c = CloakConfig::from_raw(raw);
    assert_eq!(c.num_conn, 1);
    assert_eq!(c.stream_timeout, 300);
    assert_eq!(c.browser_sig, "");
    assert_eq!(c.public_key, "k");
}

#[test]
fn validate_lists_missing_fields_in_order() {
    let mut c = cloak("", "443");
    c.uid = String::new();
    match c.validate() {
        Err(PulsarError::InvalidCloakConfig(m)) => {
            assert_eq!(m, "Missing required fields: UID, RemoteHost")
        }
        other => panic!("unexpected {other:?}"),
    }
    match cloak_config_from(Ok(raw_empty())) {
        Err(PulsarError::InvalidCloakConfig(m)) => assert_eq!(
            m,
            "Missing required fields: PublicKey, UID, RemoteHost, RemotePort, ProxyMethod"
        ),
        other => panic!("unexpected {other:?}"),
    }
}

#[test]
fn decoding_errors_are_reported_with_their_stage() {
    match servers_list_json(Err("eof".to_string())) {
        Err(PulsarError::InvalidAmneziaProfile(m)) => assert_eq!(m, "Invalid backup JSON: eof"),
        other => panic!("unexpected {other:?}"),
    }
    match servers_list_json(Ok(AmneziaBackup { servers_list: None })) {
        Err(PulsarError::InvalidAmneziaProfile(m)) => assert_eq!(m, "Missing Servers/serversList"),
        other => panic!("unexpected {other:?}"),
    }
    assert_eq!(
        servers_list_json(Ok(AmneziaBackup { servers_list: Some("[]".to_string()) })).unwrap(),
        "[]"
    );
    match servers_from(Err("bad".to_string())) {
        Err(PulsarError::InvalidAmneziaProfile(m)) => assert_eq!(m, "Invalid servers list JSON: bad"),
        other => panic!("unexpected {other:?}"),
    }
    match cloak_config_from(Err("x".to_string())) {
        Err(PulsarError::InvalidCloakConfig(m)) => assert_eq!(m, "Invalid JSON: x"),
        other => panic!("unexpected {other:?}"),
    }
    match openvpn_config_from(Err("y".to_string())) {
        Err(PulsarError::InvalidAmneziaProfile(m)) => assert_eq!(m, "Invalid OpenVPN config JSON: y"),
        other => panic!("unexpected {other:?}"),
    }
    assert!(matches!(
        openvpn_config_from(Ok(OpenVpnLastConfig { config: None })),
        Err(PulsarError::MissingOpenVpnConfig)
    ));
    assert_eq!(
        openvpn_config_from(Ok(OpenVpnLastConfig { config: Some("client".to_string()) })).unwrap(),
        "client"
    );
    match cloak_json_of(&AmneziaCloakEntry { last_config: None }) {
        Err(PulsarError::InvalidCloakConfig(m)) => assert_eq!(m, "Missing cloak last_config"),
        other => panic!("unexpected {other:?}"),
    }
    match openvpn_json_of(&AmneziaOpenVpnEntry { last_config: None }) {
        Err(PulsarError::InvalidAmneziaProfile(m)) => assert_eq!(m, "Missing OpenVPN last_config"),
        other => panic!("unexpected {other:?}"),
    }
}

#[test]
fn the_first_complete_openvpn_cloak_container_is_chosen() {
    let servers = vec![
        AmneziaServer {
            containers: vec![
                container(Some("amnezia-wireguard"), Some("w1"), Some("w2")),
                container(Some("amnezia-openvpn-cloak"), Some("c0"), None),
            ],
        },
        AmneziaServer {
            containers: vec![
                container(None, Some("n1"), Some("n2")),
                container(Some("amnezia-openvpn-cloak"), Some("c1"), Some("o1")),
                container(Some("amnezia-openvpn-cloak"), Some("c2"), Some("o2")),
            ],
        },
    ];
    let (c, o) = find_openvpn_cloak_container(&servers).unwrap();
    assert_eq!(c.last_config.unwrap(), "c1");
    assert_eq!(o.last_config.unwrap(), "o1");

    let none = vec![AmneziaServer { containers: vec![container(Some("amnezia-openvpn-cloak"), None, Some("o"))] }];
    match find_openvpn_cloak_container(&none) {
        Err(PulsarError::InvalidAmneziaProfile(m)) => {
            assert_eq!(m, "No amnezia-openvpn-cloak container found")
        }
        other => panic!("unexpected {other:?}"),
    }
}

#[test]
fn remote_directive_is_found_at_line_start() {
    let found = find_remote_directive("client\n  remote 1.1.1.1 1\nremote example.org 8443\n").unwrap();
    let groups = found.clone().unwrap();
    assert_eq!(groups[1].as_deref(), Some("example.org"));
    assert_eq!(groups[2].as_deref(), Some("8443"));
    assert_eq!(remote_from_captures(&found, "d", 7), ("example.org".to_string(), 8443));
    assert_eq!(remote_from_captures(&None, "d", 7), ("d".to_string(), 7));
    let too_big = find_remote_directive("remote h 70000").unwrap();
    assert_eq!(remote_from_captures(&too_big, "d", 7), ("h".to_string(), 7));
}

#[test]
fn backup_profile_replaces_the_local_endpoint() {
    let d = amnezia_profile_data_at(
        cloak("203.0.113.1", "443"),
        "remote 127.0.0.1 1194".to_string(),
        "127.0.0.1".to_string(),
        1194,
        "t".to_string(),
    );
    assert_eq!(d.profile.remote_host, "203.0.113.1");
    assert_eq!(d.profile.remote_port, 443);
    assert_eq!(d.profile.local_cloak_port, 1194);
    assert_eq!(d.profile.name, "");
    assert_eq!(d.profile.created_at, "t");
    assert_eq!(d.profile.protocol_type, ProtocolType::OpenvpnCloak);

    let e = amnezia_profile_data_at(cloak("203.0.113.1", "443"), String::new(), "10.0.0.1".to_string(), 80, "t".to_string());
    assert_eq!(e.profile.remote_host, "10.0.0.1");
    assert_eq!(e.profile.remote_port, 80);

    let f = amnezia_profile_data(cloak("203.0.113.1", "nope"), "client\nremote 127.0.0.1 1194\n".to_string()).unwrap();
    assert_eq!(f.profile.remote_host, "203.0.113.1");
    assert_eq!(f.profile.remote_port, 1194);
    assert!(!f.profile.created_at.is_empty());
    assert!(f.profile.created_at.contains('T'));
    assert!(f.profile.created_at.ends_with("+00:00"));
}

#[test]
fn manual_import_prefers_the_cloak_port() {
    let d = manual_profile_data_at("client".to_string(), cloak("203.0.113.1", "8443"), "10.0.0.1".to_string(), 443, "t".to_string());
    assert_eq!(d.profile.remote_host, "10.0.0.1");
    assert_eq!(d.profile.remote_port, 8443);
    let e = import_manual("client\ndev tun\n".to_string(), cloak("203.0.113.1", "x")).unwrap();
    assert_eq!(e.profile.remote_host, "203.0.113.1");
    assert_eq!(e.profile.remote_port, 443);
    assert_eq!(e.openvpn_config, "client\ndev tun\n");
    match manual_cloak_config(Err("z".to_string())) {
        Err(PulsarError::InvalidCloakConfig(m)) => assert_eq!(m, "Invalid Cloak JSON: z"),
        other => panic!("unexpected {other:?}"),
    }
    assert!(manual_cloak_config(Ok(cloak("h", "1"))).is_ok());
}

#[test]
fn the_clock_reads_as_an_rfc3339_stamp_in_utc() {
    let t = pulsar::clock::now_rfc3339().unwrap();
    assert!(t.len() >= 25);
    assert_eq!(&t[4..5], "-");
    assert_eq!(&t[10..11], "T");
    assert!(t.ends_with("+00:00"));
    assert!(t.as_str() > "2020-01-01");
}

use pulsar::error::PulsarError;
use pulsar::import::amnezia::{
    AmneziaBackup, AmneziaCloakEntry, AmneziaContainer, AmneziaDecoded, AmneziaDocument,
    AmneziaImport, AmneziaNext, AmneziaOpenVpnEntry, AmneziaServer, CloakRawConfig,
    OpenVpnLastConfig,
};
use pulsar::profile::model::ProtocolType;

fn raw_cloak() -> CloakRawConfig {
    CloakRawConfig {
        browser_sig: Some("chrome".to_string()),
        encryption_method: Some("aes-gcm".to_string()),
        num_conn: None,
        proxy_method: Some("openvpn".to_string()),
        public_key: Some("dGVzdA==".to_string()),
        remote_host: Some("203.0.113.1".to_string()),
        remote_port: Some("443".to_string()),
        server_name: Some("example.com".to_string()),
        stream_timeout: Some(300),
        transport: Some("direct".to_string()),
        uid: Some("dGVzdHVpZA==".to_string()),
    }
}

fn servers() -> Vec<AmneziaServer> {
    vec![AmneziaServer {
        containers: vec![AmneziaContainer {
            container: Some("amnezia-openvpn-cloak".to_string()),
            cloak: Some(AmneziaCloakEntry { last_config: Some("CLOAK".to_string()) }),
            openvpn: Some(AmneziaOpenVpnEntry { last_config: Some("OVPN".to_string()) }),
        }],
    }]
}

fn expect_decode(next: AmneziaNext, document: AmneziaDocument, text: &str) {
    match next {
        AmneziaNext::Decode { document: d, text: t } => {
            assert_eq!(d, document);
            assert_eq!(t, text);
        }
        other => panic!("unexpected {other:?}"),
    }
}

#[test]
fn a_backup_is_imported_document_by_document() {
    let (state, next) = AmneziaImport::begin("BACKUP");
    expect_decode(next, AmneziaDocument::Backup, "BACKUP");
    let (state, next) = state.advance(Ok(AmneziaDecoded::Backup(AmneziaBackup {
        servers_list: Some("SERVERS".to_string()),
    })));
    expect_decode(next, AmneziaDocument::ServersList, "SERVERS");
    let (state, next) = state.advance(Ok(AmneziaDecoded::ServersList(servers())));
    expect_decode(next, AmneziaDocument::CloakConfig, "CLOAK");
    let (state, next) = state.advance(Ok(AmneziaDecoded::CloakConfig(raw_cloak())));
    expect_decode(next, AmneziaDocument::OpenVpnLastConfig, "OVPN");
    let (state, next) = state.advance(Ok(AmneziaDecoded::OpenVpnLastConfig(OpenVpnLastConfig {
        config: Some("client\ndev tun\nremote 127.0.0.1 1194\n".to_string()),
    })));
    assert!(matches!(state, AmneziaImport::Finished));
    match next {
        AmneziaNext::Done(Ok(data)) => {
            assert_eq!(data.profile.protocol_type, ProtocolType::OpenvpnCloak);
            assert_eq!(data.cloak_config.proxy_method, "openvpn");
            assert_eq!(data.cloak_config.remote_host, "203.0.113.1");
            assert_eq!(data.cloak_config.remote_port, "443");
            assert_eq!(data.cloak_config.num_conn, 1);
            assert!(data.openvpn_config.contains("client"));
            assert!(data.openvpn_config.contains("dev tun"));
            assert!(data.openvpn_config.contains("remote 127.0.0.1 1194"));
            assert_eq!(data.profile.remote_host, "203.0.113.1");
            assert_eq!(data.profile.remote_port, 443);
            assert_eq!(data.profile.local_cloak_port, 1194);
        }
        other => panic!("unexpected {other:?}"),
    }
}

#[test]
fn a_decoding_failure_ends_the_import() {
    let (state, _) = AmneziaImport::begin("{");
    let (state, next) = state.advance(Err("EOF while parsing".to_string()));
    assert!(matches!(state, AmneziaImport::Finished));
    match next {
        AmneziaNext::Done(Err(PulsarError::InvalidAmneziaProfile(m))) => {
            assert_eq!(m, "Invalid backup JSON: EOF while parsing")
        }
        other => panic!("unexpected {other:?}"),
    }
}

#[test]
fn an_incomplete_cloak_configuration_ends_the_import() {
    let state = AmneziaImport::AwaitingCloak {
        openvpn_entry: AmneziaOpenVpnEntry { last_config: Some("OVPN".to_string()) },
    };
    let mut raw = raw_cloak();
    raw.uid = None;
    raw.public_key = Some(String::new());
    match state.advance(Ok(AmneziaDecoded::CloakConfig(raw))).1 {
        AmneziaNext::Done(Err(PulsarError::InvalidCloakConfig(m))) => {
            assert_eq!(m, "Missing required fields: PublicKey, UID")
        }
        other => panic!("unexpected {other:?}"),
    }
    let state = AmneziaImport::AwaitingCloak { openvpn_entry: AmneziaOpenVpnEntry { last_config: None } };
    match state.advance(Ok(AmneziaDecoded::CloakConfig(raw_cloak()))).1 {
        AmneziaNext::Done(Err(PulsarError::InvalidAmneziaProfile(m))) => {
            assert_eq!(m, "Missing OpenVPN last_config")
        }
        other => panic!("unexpected {other:?}"),
    }
}

#[test]
fn a_backup_without_the_container_is_refused() {
    let state = AmneziaImport::AwaitingServers;
    match state.advance(Ok(AmneziaDecoded::ServersList(Vec::new()))).1 {
        AmneziaNext::Done(Err(PulsarError::InvalidAmneziaProfile(m))) => {
            assert_eq!(m, "No amnezia-openvpn-cloak container found")
        }
        other => panic!("unexpected {other:?}"),
    }
}

#[test]
fn an_import_accepts_only_the_document_it_waits_for() {
    let (state, _) = AmneziaImport::begin("BACKUP");
    assert!(state.accepts(&Ok(AmneziaDecoded::Backup(AmneziaBackup { servers_list: None }))));
    assert!(state.accepts(&Err("bad".to_string())));
    assert!(!state.accepts(&Ok(AmneziaDecoded::ServersList(servers()))));
    let (state, _) = state.advance(Err("bad".to_string()));
    assert!(matches!(state, AmneziaImport::Finished));
    assert!(!state.accepts(&Err("bad".to_string())));
}

use pulsar::import::amnezia::{cloak_config_from, openvpn_config_from, CloakRawConfig, OpenVpnLastConfig};

fn text_field(value: &serde_json::Value, key: &str) -> Option<String> {
    value.get(key).and_then(|v| v.as_str()).map(|s| s.to_string())
}

fn number_field(value: &serde_json::Value, key: &str) -> Option<u32> {
    value.get(key).and_then(|v| v.as_u64()).map(|n| n as u32)
}

fn decode_cloak(json: &str) -> Result<CloakRawConfig, String> {
    let value: serde_json::Value = serde_json::from_str(json).map_err(|e| e.to_string())?;
    Ok(CloakRawConfig {
        browser_sig: text_field(&value, "BrowserSig"),
        encryption_method: text_field(&value, "EncryptionMethod"),
        num_conn: number_field(&value, "NumConn"),
        proxy_method: text_field(&value, "ProxyMethod"),
        public_key: text_field(&value, "PublicKey"),
        remote_host: text_field(&value, "RemoteHost"),
        remote_port: text_field(&value, "RemotePort"),
        server_name: text_field(&value, "ServerName"),
        stream_timeout: number_field(&value, "StreamTimeout"),
        transport: text_field(&value, "Transport"),
        uid: text_field(&value, "UID"),
    })
}

fn decode_openvpn(json: &str) -> Result<OpenVpnLastConfig, String> {
    let value: serde_json::Value = serde_json::from_str(json).map_err(|e| e.to_string())?;
    Ok(OpenVpnLastConfig { config: text_field(&value, "config") })
}

#[test]
fn test_parse_cloak_config_valid() {
    let json = r#"{
        "BrowserSig": "chrome",
        "EncryptionMethod": "aes-gcm",
        "NumConn": 1,
        "ProxyMethod": "openvpn",
        "PublicKey": "dGVzdA==",
        "RemoteHost": "1.2.3.4",
        "RemotePort": "443",
        "ServerName": "example.com",
        "StreamTimeout": 300,
        "Transport": "direct",
        "UID": "dGVzdHVpZA=="
    }"#;
    let config = cloak_config_from(decode_cloak(json)).unwrap();
    assert_eq!(config.public_key, "dGVzdA==");
    assert_eq!(config.proxy_method, "openvpn");
}

#[test]
fn test_parse_cloak_config_missing_required() {
    let json = r#"{
        "BrowserSig": "chrome"
    }"#;
    let result = cloak_config_from(decode_cloak(json));
    assert!(result.is_err());
}

#[test]
fn test_parse_openvpn_config() {
    let json = r#"{"config": "client\ndev tun", "clientId": "test"}"#;
    let config = openvpn_config_from(decode_openvpn(json)).unwrap();
    assert!(config.contains("client"));
}

#[test]
fn malformed_cloak_json_is_reported_as_invalid() {
    let result = cloak_config_from(decode_cloak("{not json"));
    assert!(result.is_err());
}

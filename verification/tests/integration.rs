use pulsar::import::amnezia::extract_remote_info;
use pulsar::platform::Platform;
use pulsar::profile::model::{CloakConfig, Profile};

#[test]
fn test_platform_dir_names() {
    assert_eq!(Platform::MacOSX86_64.dir_name(), "macos-x86_64");
    assert_eq!(Platform::MacOSAarch64.dir_name(), "macos-aarch64");
    assert_eq!(Platform::LinuxX86_64.dir_name(), "linux-x86_64");
}

#[test]
fn test_supported_platforms() {
    assert!(Platform::MacOSX86_64.is_supported());
    assert!(Platform::MacOSAarch64.is_supported());
    assert!(Platform::LinuxX86_64.is_supported());
}

#[test]
fn test_extract_remote_info() {
    let config = "client\ndev tun\nremote 10.0.0.1 443\n";
    let (host, port) = extract_remote_info(config).unwrap();
    assert_eq!(host, "10.0.0.1");
    assert_eq!(port, 443);
}

#[test]
fn test_extract_remote_info_defaults() {
    let config = "client\ndev tun\n";
    let (host, port) = extract_remote_info(config).unwrap();
    assert_eq!(host, "127.0.0.1");
    assert_eq!(port, 1194);
}

#[test]
fn test_cloak_config_validate() {
    let valid = CloakConfig {
        browser_sig: "chrome".to_string(),
        encryption_method: "aes-gcm".to_string(),
        num_conn: 1,
        proxy_method: "openvpn".to_string(),
        public_key: "dGVzdA==".to_string(),
        remote_host: "1.2.3.4".to_string(),
        remote_port: "443".to_string(),
        server_name: "example.com".to_string(),
        stream_timeout: 300,
        transport: "direct".to_string(),
        uid: "dGVzdHVpZA==".to_string(),
    };
    assert!(valid.validate().is_ok());

    let missing_fields = CloakConfig {
        public_key: String::new(),
        uid: String::new(),
        remote_host: String::new(),
        remote_port: String::new(),
        proxy_method: String::new(),
        ..valid.clone()
    };
    assert!(missing_fields.validate().is_err());
}

#[test]
fn test_profile_name_validation() {
    assert!(Profile::sanitize_name("home").is_ok());
    assert!(Profile::sanitize_name("my-server-1").is_ok());
    assert!(Profile::sanitize_name("vpn_work").is_ok());
    assert!(Profile::sanitize_name("").is_err());
    assert!(Profile::sanitize_name("has space").is_err());
    assert!(Profile::sanitize_name("has/slash").is_err());
}

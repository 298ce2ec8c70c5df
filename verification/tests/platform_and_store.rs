use pulsar::error::PulsarError;
use pulsar::platform::{
    bundled_binary_paths, check_executable_mode, require_binaries_present, system_binaries,
    Platform,
};
use pulsar::profile::model::{Profile, ProtocolType};
use pulsar::profile::store::{sort_by_name, ProfileFile, ProfileStore};

#[test]
fn platform_from_os_and_arch() {
    assert_eq!(Platform::from_os_arch("linux", "x86_64").unwrap(), Platform::LinuxX86_64);
    assert_eq!(Platform::from_os_arch("macos", "aarch64").unwrap(), Platform::MacOSAarch64);
    assert_eq!(Platform::from_os_arch("macos", "x86_64").unwrap(), Platform::MacOSX86_64);
    match Platform::from_os_arch("windows", "x86_64") {
        Err(PulsarError::PlatformNotSupported(m)) => assert_eq!(m, "windows x86_64"),
        other => panic!("unexpected {other:?}"),
    }
}

#[test]
fn bundled_binaries_sit_next_to_the_executable() {
    let b = bundled_binary_paths("/opt/pulsar/pulsar", Platform::LinuxX86_64).unwrap();
    assert_eq!(b.ck_client, "/opt/pulsar/bundled/linux-x86_64/ck-client");
    assert_eq!(b.openvpn, "/opt/pulsar/bundled/linux-x86_64/openvpn");
    match bundled_binary_paths("/", Platform::LinuxX86_64) {
        Err(PulsarError::BinaryMissing(m)) => assert_eq!(m, "Cannot determine executable directory"),
        other => panic!("unexpected {other:?}"),
    }
    let s = system_binaries();
    assert_eq!(s.ck_client, "ck-client");
    assert_eq!(s.openvpn, "openvpn");
}

#[test]
fn missing_binaries_are_named() {
    let b = bundled_binary_paths("/x/pulsar", Platform::MacOSX86_64).unwrap();
    match require_binaries_present(b, false, false) {
        Err(PulsarError::BinaryMissing(m)) => assert_eq!(m, "/x/bundled/macos-x86_64/ck-client"),
        other => panic!("unexpected {other:?}"),
    }
    let b = bundled_binary_paths("/x/pulsar", Platform::MacOSX86_64).unwrap();
    match require_binaries_present(b, true, false) {
        Err(PulsarError::BinaryMissing(m)) => assert_eq!(m, "/x/bundled/macos-x86_64/openvpn"),
        other => panic!("unexpected {other:?}"),
    }
    let b = bundled_binary_paths("/x/pulsar", Platform::MacOSX86_64).unwrap();
    assert!(require_binaries_present(b, true, true).is_ok());
}

#[test]
fn executable_bits() {
    assert!(check_executable_mode("/b", 0o755).is_ok());
    assert!(check_executable_mode("/b", 0o100644).is_err());
    assert!(check_executable_mode("/b", 0o001).is_ok());
    match check_executable_mode("/b", 0o644) {
        Err(PulsarError::BinaryNotExecutable(m)) => assert_eq!(m, "/b"),
        other => panic!("unexpected {other:?}"),
    }
}

#[test]
fn store_under_config_dir() {
    let store = ProfileStore::new("/home/u/.config");
    assert_eq!(store.base_dir(), "/home/u/.config/pulsar/profiles");
}

#[test]
fn store_layout() {
    let store = ProfileStore::with_base_dir("/cfg/pulsar/profiles".to_string());
    assert_eq!(store.base_dir(), "/cfg/pulsar/profiles");
    assert_eq!(store.profile_dir("home"), "/cfg/pulsar/profiles/home");
    assert_eq!(store.file_path("home", ProfileFile::Metadata), "/cfg/pulsar/profiles/home/profile.json");
    assert_eq!(store.file_path("home", ProfileFile::OpenVpnConfig), "/cfg/pulsar/profiles/home/openvpn.ovpn");
    assert_eq!(store.file_path("home", ProfileFile::CloakConfig), "/cfg/pulsar/profiles/home/cloak.json");
}

#[test]
fn store_rules() {
    assert!(ProfileStore::check_can_save("dup", false).is_ok());
    match ProfileStore::check_can_save("dup", true) {
        Err(PulsarError::ProfileAlreadyExists(n)) => assert_eq!(n, "dup"),
        other => panic!("unexpected {other:?}"),
    }
    match ProfileStore::check_readable("nonexistent", ProfileFile::Metadata, false) {
        Err(PulsarError::ProfileNotFound(n)) => assert_eq!(n, "nonexistent"),
        other => panic!("unexpected {other:?}"),
    }
    assert!(matches!(
        ProfileStore::check_readable("a", ProfileFile::OpenVpnConfig, false),
        Err(PulsarError::MissingOpenVpnConfig)
    ));
    assert!(matches!(
        ProfileStore::check_readable("a", ProfileFile::CloakConfig, false),
        Err(PulsarError::MissingCloakConfig)
    ));
    assert!(ProfileStore::check_readable("a", ProfileFile::CloakConfig, true).is_ok());
    assert!(matches!(ProfileStore::check_can_delete("a", false), Err(PulsarError::ProfileNotFound(_))));
    assert!(ProfileStore::check_can_delete("a", true).is_ok());
}

fn profile(name: &str) -> Profile {
    Profile {
        name: name.to_string(),
        protocol_type: ProtocolType::OpenvpnCloak,
        created_at: "2026-01-01T00:00:00Z".to_string(),
        remote_host: "1.2.3.4".to_string(),
        remote_port: 443,
        local_cloak_port: 1194,
    }
}

#[test]
fn profiles_are_listed_by_name() {
    let sorted = sort_by_name(vec![profile("charlie"), profile("alpha"), profile("bravo")]);
    let names: Vec<_> = sorted.iter().map(|p| p.name.as_str()).collect();
    assert_eq!(names, ["alpha", "bravo", "charlie"]);
    let sorted = sort_by_name(vec![profile("b"), profile("B"), profile("ab"), profile("a"), profile("é")]);
    let names: Vec<_> = sorted.iter().map(|p| p.name.clone()).collect();
    let mut expected = names.clone();
    expected.sort();
    assert_eq!(names, expected);
    assert!(sort_by_name(Vec::new()).is_empty());
}

#[test]
fn profiles_of_the_same_name_keep_their_order() {
    let mut first = profile("same");
    first.remote_host = "first".to_string();
    let mut second = profile("same");
    second.remote_host = "second".to_string();
    let sorted = sort_by_name(vec![profile("z"), first, profile("a"), second]);
    let hosts: Vec<_> = sorted.iter().map(|p| (p.name.as_str(), p.remote_host.as_str())).collect();
    assert_eq!(hosts, [("a", "1.2.3.4"), ("same", "first"), ("same", "second"), ("z", "1.2.3.4")]);
}

// The store's rules and ordering, with the inputs of the on-disk scenarios;
// whether a profile exists on disk is passed in as it would be found.

#[test]
fn test_save_duplicate_fails() {
    let store = ProfileStore::with_base_dir("/tmp/profiles".to_string());
    let data_name = "dup";
    assert!(ProfileStore::check_can_save(data_name, false).is_ok());
    assert_eq!(store.file_path(data_name, ProfileFile::Metadata), "/tmp/profiles/dup/profile.json");
    let result = ProfileStore::check_can_save(data_name, true);
    assert!(result.is_err());
}

#[test]
fn test_load_nonexistent() {
    let result = ProfileStore::check_readable("nonexistent", ProfileFile::Metadata, false);
    assert!(result.is_err());
}

#[test]
fn test_list_profiles() {
    let mut stored = Vec::new();
    for name in &["charlie", "alpha", "bravo"] {
        stored.push(Profile {
            name: name.to_string(),
            protocol_type: ProtocolType::OpenvpnCloak,
            created_at: "2026-01-01T00:00:00Z".to_string(),
            remote_host: "1.2.3.4".to_string(),
            remote_port: 443,
            local_cloak_port: 1194,
        });
    }

    let list = sort_by_name(stored);
    assert_eq!(list.len(), 3);
    assert_eq!(list[0].name, "alpha");
    assert_eq!(list[1].name, "bravo");
    assert_eq!(list[2].name, "charlie");
}

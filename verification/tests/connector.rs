use pulsar::connector::openvpn_cloak::{ConnectAction, ConnectEvent, ConnectPhase, OpenVpnCloakConnector, ProcessRole};
use pulsar::connector::{
    connector_config_for, create_connector, status_code, status_from_code, ConnectionStatus,
    Connector, ConnectorConfig,
};
use pulsar::error::PulsarError;
use pulsar::platform::BinaryPaths;
use pulsar::process::supervisor::{exit_report, ProcessSupervisor};
use pulsar::profile::model::{Profile, ProtocolType};
use pulsar::profile::store::ProfileStore;

fn connector(use_system: bool) -> OpenVpnCloakConnector {
    create_connector(
        ProtocolType::OpenvpnCloak,
        ConnectorConfig {
            profile_name: "home".to_string(),
            openvpn_config_path: "/p/home/openvpn.ovpn".to_string(),
            cloak_config_path: "/p/home/cloak.json".to_string(),
            ck_client_path: "/b/ck-client".to_string(),
            openvpn_bin_path: "/b/openvpn".to_string(),
            local_cloak_port: 1194,
            use_system_binaries: use_system,
        },
    )
}

#[test]
fn a_connection_runs_in_order() {
    let mut c = connector(false);
    assert_eq!(c.status(), ConnectionStatus::Disconnected);
    assert_eq!(c.protocol_type(), ProtocolType::OpenvpnCloak);
    match c.step(ConnectEvent::Begin) {
        ConnectAction::Spawn { role, program, args } => {
            assert_eq!(role, ProcessRole::Cloak);
            assert_eq!(program, "/b/ck-client");
            assert_eq!(args, ["-c", "/p/home/cloak.json", "-l", "1194"]);
        }
        other => panic!("unexpected {other:?}"),
    }
    assert_eq!(c.status(), ConnectionStatus::Connecting);
    match c.step(ConnectEvent::Spawned) {
        ConnectAction::ProbeCloak { host, port } => {
            assert_eq!(host, "127.0.0.1");
            assert_eq!(port, 1194);
        }
        other => panic!("unexpected {other:?}"),
    }
    match c.step(ConnectEvent::CloakUnreachable { elapsed_nanos: 5 }) {
        ConnectAction::Pause { millis } => assert_eq!(millis, 100),
        other => panic!("unexpected {other:?}"),
    }
    assert!(matches!(c.step(ConnectEvent::PauseOver), ConnectAction::ProbeCloak { .. }));
    match c.step(ConnectEvent::CloakReachable) {
        ConnectAction::Spawn { role, program, args } => {
            assert_eq!(role, ProcessRole::OpenVpn);
            assert_eq!(program, "/b/openvpn");
            assert_eq!(args, ["--config", "/p/home/openvpn.ovpn"]);
        }
        other => panic!("unexpected {other:?}"),
    }
    assert_eq!(c.status(), ConnectionStatus::Connecting);
    assert!(matches!(c.step(ConnectEvent::Spawned), ConnectAction::WaitForExit));
    assert_eq!(c.status(), ConnectionStatus::Connected);
    assert!(matches!(c.step(ConnectEvent::ProcessExited), ConnectAction::StopAll));
    assert_eq!(c.status(), ConnectionStatus::Disconnected);
    assert!(matches!(c.step(ConnectEvent::AllStopped), ConnectAction::Finish(Ok(()))));
    assert_eq!(c.phase(), ConnectPhase::Done);
}

#[test]
fn process_names() {
    assert_eq!(ProcessRole::Cloak.process_name(), "cloak");
    assert_eq!(ProcessRole::OpenVpn.process_name(), "openvpn");
}

#[test]
fn system_binaries_are_run_by_name() {
    let mut c = connector(true);
    match c.step(ConnectEvent::Begin) {
        ConnectAction::Spawn { program, .. } => assert_eq!(program, "ck-client"),
        other => panic!("unexpected {other:?}"),
    }
    c.step(ConnectEvent::Spawned);
    match c.step(ConnectEvent::CloakReachable) {
        ConnectAction::Spawn { program, .. } => assert_eq!(program, "openvpn"),
        other => panic!("unexpected {other:?}"),
    }
}

#[test]
fn cloak_that_never_answers_times_out() {
    let mut c = connector(false);
    c.step(ConnectEvent::Begin);
    c.step(ConnectEvent::Spawned);
    assert!(matches!(
        c.step(ConnectEvent::CloakUnreachable { elapsed_nanos: 30_000_000_000 }),
        ConnectAction::Pause { .. }
    ));
    c.step(ConnectEvent::PauseOver);
    match c.step(ConnectEvent::CloakUnreachable { elapsed_nanos: 30_000_000_001 }) {
        ConnectAction::Finish(Err(PulsarError::CloakReadyTimeout { host, port, timeout })) => {
            assert_eq!(host, "127.0.0.1");
            assert_eq!(port, 1194);
            assert_eq!(timeout, 30);
        }
        other => panic!("unexpected {other:?}"),
    }
    assert_eq!(c.phase(), ConnectPhase::Done);
    assert_eq!(c.status(), ConnectionStatus::Connecting);
}

#[test]
fn a_process_that_cannot_start_ends_the_attempt() {
    let mut c = connector(false);
    c.step(ConnectEvent::Begin);
    let err = std::io::Error::new(std::io::ErrorKind::NotFound, "no such file");
    match c.step(ConnectEvent::SpawnFailed(err)) {
        ConnectAction::Finish(Err(PulsarError::ProcessStartFailed { process, source })) => {
            assert_eq!(process, "ck-client");
            assert_eq!(source.kind(), std::io::ErrorKind::NotFound);
        }
        other => panic!("unexpected {other:?}"),
    }
    let mut c = connector(false);
    c.step(ConnectEvent::Begin);
    c.step(ConnectEvent::Spawned);
    c.step(ConnectEvent::CloakReachable);
    let err = std::io::Error::new(std::io::ErrorKind::PermissionDenied, "denied");
    match c.step(ConnectEvent::SpawnFailed(err)) {
        ConnectAction::Finish(Err(PulsarError::ProcessStartFailed { process, .. })) => {
            assert_eq!(process, "openvpn")
        }
        other => panic!("unexpected {other:?}"),
    }
}

#[test]
fn stopping_disconnects() {
    let mut c = connector(false);
    c.step(ConnectEvent::Begin);
    c.record_stopped();
    assert_eq!(c.status(), ConnectionStatus::Disconnected);
}

#[test]
fn status_codes_roundtrip() {
    for s in [ConnectionStatus::Disconnected, ConnectionStatus::Connecting, ConnectionStatus::Connected] {
        assert_eq!(status_from_code(status_code(s)), s);
    }
    assert_eq!(status_code(ConnectionStatus::Connected), 2);
    assert_eq!(status_from_code(7), ConnectionStatus::Disconnected);
    assert_eq!(status_from_code(-1), ConnectionStatus::Disconnected);
    assert_eq!(ConnectionStatus::Connecting.as_str(), "Connecting");
}

#[test]
fn connector_settings_come_from_the_store_and_profile() {
    let store = ProfileStore::with_base_dir("/cfg/profiles".to_string());
    let profile = Profile {
        name: "home".to_string(),
        protocol_type: ProtocolType::OpenvpnCloak,
        created_at: String::new(),
        remote_host: "1.2.3.4".to_string(),
        remote_port: 443,
        local_cloak_port: 2000,
    };
    let bins = BinaryPaths { ck_client: "/b/ck".to_string(), openvpn: "/b/ov".to_string() };
    let cfg = connector_config_for(&store, "home", &profile, &bins, false);
    assert_eq!(cfg.profile_name, "home");
    assert_eq!(cfg.openvpn_config_path, "/cfg/profiles/home/openvpn.ovpn");
    assert_eq!(cfg.cloak_config_path, "/cfg/profiles/home/cloak.json");
    assert_eq!(cfg.ck_client_path, "/b/ck");
    assert_eq!(cfg.openvpn_bin_path, "/b/ov");
    assert_eq!(cfg.local_cloak_port, 2000);
    assert!(!cfg.use_system_binaries);
}

#[test]
fn processes_stop_in_reverse_start_order() {
    let mut s: ProcessSupervisor<&str> = ProcessSupervisor::new();
    assert!(s.is_empty());
    s.add("cloak");
    s.add("openvpn");
    assert_eq!(s.len(), 2);
    assert_eq!(s.take_for_shutdown(), vec!["openvpn", "cloak"]);
    assert!(s.is_empty());
}

#[test]
fn exit_reports() {
    assert_eq!(exit_report("cloak", true, Some(0)), Ok(()));
    assert_eq!(
        exit_report("openvpn", false, Some(1)),
        Err("openvpn exited with code Some(1)".to_string())
    );
    assert_eq!(exit_report("cloak", false, None), Err("cloak exited with code None".to_string()));
    assert_eq!(
        exit_report("x", false, Some(i32::MIN)),
        Err(format!("x exited with code {:?}", Some(i32::MIN)))
    );
}

#[test]
fn a_connector_accepts_only_the_events_of_its_phase() {
    let mut c = connector(false);
    assert!(c.accepts(&ConnectEvent::Begin));
    assert!(!c.accepts(&ConnectEvent::Spawned));
    c.step(ConnectEvent::Begin);
    assert!(c.accepts(&ConnectEvent::Spawned));
    assert!(!c.accepts(&ConnectEvent::Begin));
    assert!(!c.accepts(&ConnectEvent::AllStopped));
}

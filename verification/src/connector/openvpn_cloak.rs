//! The OpenVPN-over-Cloak connector.
//!
//! A connection runs in this order: start `ck-client`, poll its local port
//! until it accepts TCP connections (every 100 ms, for at most 30 s), start
//! `openvpn`, wait until either process exits, then stop both, `openvpn`
//! first. The connector decides; the caller performs: it feeds each outcome
//! to [`OpenVpnCloakConnector::step`] as a [`ConnectEvent`] and carries out
//! the [`ConnectAction`] that comes back, until that action is `Finish`.

use vstd::prelude::*;

use crate::connector::{ConnectionStatus, Connector, ConnectorConfig};
use crate::error::PulsarError;
use crate::profile::model::ProtocolType;
use crate::text::{decimal, decimal_string, to_string};

verus! {

/// How long the Cloak client may take to accept connections, in seconds.
pub const CLOAK_READY_TIMEOUT_SECS: u64 = 30;

/// How long to wait between two attempts to reach the Cloak client, in
/// milliseconds.
pub const CLOAK_POLL_INTERVAL_MS: u64 = 100;

/// The readiness timeout in nanoseconds.
pub open spec fn cloak_ready_timeout_nanos() -> u128 {
    30_000_000_000
}

/// The address the Cloak client listens on.
pub open spec fn cloak_host() -> Seq<char> {
    "127.0.0.1"@
}

/// Where a connection attempt stands.
#[derive(Debug, Clone, Copy, PartialEq, Eq, Structural)]
pub enum ConnectPhase {
    /// Nothing started yet.
    Idle,
    /// `ck-client` is being started.
    StartingCloak,
    /// Trying to reach `ck-client`.
    AwaitingCloak,
    /// Waiting before the next attempt to reach `ck-client`.
    PollPause,
    /// `openvpn` is being started.
    StartingOpenVpn,
    /// Both processes run; waiting for one of them to exit.
    Running,
    /// Stopping both processes.
    ShuttingDown,
    /// The attempt is over.
    Done,
}

/// The two processes of a connection.
#[derive(Debug, Clone, Copy, PartialEq, Eq, Structural)]
pub enum ProcessRole {
    /// `ck-client`, started first and stopped last.
    Cloak,
    /// `openvpn`.
    OpenVpn,
}

impl ProcessRole {
    /// The name the process is supervised under.
    pub fn process_name(&self) -> (s: &'static str)
        ensures
            *self == ProcessRole::Cloak ==> s@ == "cloak"@,
            *self == ProcessRole::OpenVpn ==> s@ == "openvpn"@,
    {
        match self {
            ProcessRole::Cloak => "cloak",
            ProcessRole::OpenVpn => "openvpn",
        }
    }
}

/// What happened since the last step.
#[derive(Debug)]
pub enum ConnectEvent {
    /// The connection is to be started.
    Begin,
    /// The process asked for was started.
    Spawned,
    /// The process asked for could not be started.
    SpawnFailed(std::io::Error),
    /// A TCP connection to the Cloak client succeeded.
    CloakReachable,
    /// A TCP connection to the Cloak client failed; `elapsed_nanos` is the
    /// time since the first attempt.
    CloakUnreachable { elapsed_nanos: u128 },
    /// The pause between attempts is over.
    PauseOver,
    /// One of the running processes exited.
    ProcessExited,
    /// Every process has been stopped.
    AllStopped,
}

/// What the caller is to do next.
#[derive(Debug)]
pub enum ConnectAction {
    /// Start `program` with `args` as the process `role`, output piped.
    Spawn { role: ProcessRole, program: String, args: Vec<String> },
    /// Try a TCP connection to `host:port`.
    ProbeCloak { host: String, port: u16 },
    /// Wait `millis` milliseconds.
    Pause { millis: u64 },
    /// Wait until one of the running processes exits.
    WaitForExit,
    /// Stop every process, the most recently started first.
    StopAll,
    /// The attempt is over, with this outcome.
    Finish(Result<(), PulsarError>),
}

/// The kind of an event, without its data.
#[derive(Debug, Clone, Copy, PartialEq, Eq, Structural)]
pub enum EventKind {
    Begin,
    Spawned,
    SpawnFailed,
    CloakReachable,
    CloakUnreachable,
    PauseOver,
    ProcessExited,
    AllStopped,
}

/// The kind of `e`.
pub open spec fn event_kind(e: ConnectEvent) -> EventKind {
    match e {
        ConnectEvent::Begin => EventKind::Begin,
        ConnectEvent::Spawned => EventKind::Spawned,
        ConnectEvent::SpawnFailed(_) => EventKind::SpawnFailed,
        ConnectEvent::CloakReachable => EventKind::CloakReachable,
        ConnectEvent::CloakUnreachable { .. } => EventKind::CloakUnreachable,
        ConnectEvent::PauseOver => EventKind::PauseOver,
        ConnectEvent::ProcessExited => EventKind::ProcessExited,
        ConnectEvent::AllStopped => EventKind::AllStopped,
    }
}

/// The events that can happen in `phase`.
pub open spec fn expects(phase: ConnectPhase, k: EventKind) -> bool {
    match phase {
        ConnectPhase::Idle => k == EventKind::Begin,
        ConnectPhase::StartingCloak => k == EventKind::Spawned || k == EventKind::SpawnFailed,
        ConnectPhase::AwaitingCloak => k == EventKind::CloakReachable || k
            == EventKind::CloakUnreachable,
        ConnectPhase::PollPause => k == EventKind::PauseOver,
        ConnectPhase::StartingOpenVpn => k == EventKind::Spawned || k == EventKind::SpawnFailed,
        ConnectPhase::Running => k == EventKind::ProcessExited,
        ConnectPhase::ShuttingDown => k == EventKind::AllStopped,
        ConnectPhase::Done => false,
    }
}

/// The phase after event kind `k` in `phase`; `timed_out` tells whether a
/// failed attempt to reach the Cloak client came after the timeout.
pub open spec fn next_phase(phase: ConnectPhase, k: EventKind, timed_out: bool) -> ConnectPhase {
    match phase {
        ConnectPhase::Idle => ConnectPhase::StartingCloak,
        ConnectPhase::StartingCloak => if k == EventKind::Spawned {
            ConnectPhase::AwaitingCloak
        } else {
            ConnectPhase::Done
        },
        ConnectPhase::AwaitingCloak => if k == EventKind::CloakReachable {
            ConnectPhase::StartingOpenVpn
        } else if timed_out {
            ConnectPhase::Done
        } else {
            ConnectPhase::PollPause
        },
        ConnectPhase::PollPause => ConnectPhase::AwaitingCloak,
        ConnectPhase::StartingOpenVpn => if k == EventKind::Spawned {
            ConnectPhase::Running
        } else {
            ConnectPhase::Done
        },
        ConnectPhase::Running => ConnectPhase::ShuttingDown,
        ConnectPhase::ShuttingDown => ConnectPhase::Done,
        ConnectPhase::Done => ConnectPhase::Done,
    }
}

/// The status after event kind `k` in `phase`, starting from `status`:
/// `Connecting` once started, `Connected` once `openvpn` runs,
/// `Disconnected` once a process has exited; a failure leaves it as it was.
pub open spec fn next_status(phase: ConnectPhase, k: EventKind, status: ConnectionStatus) -> ConnectionStatus {
    if phase == ConnectPhase::Idle {
        ConnectionStatus::Connecting
    } else if phase == ConnectPhase::StartingOpenVpn && k == EventKind::Spawned {
        ConnectionStatus::Connected
    } else if phase == ConnectPhase::Running {
        ConnectionStatus::Disconnected
    } else {
        status
    }
}

/// A failed attempt to reach the Cloak client came after the timeout.
pub open spec fn is_timed_out(e: ConnectEvent) -> bool {
    e matches ConnectEvent::CloakUnreachable { elapsed_nanos } && elapsed_nanos
        > cloak_ready_timeout_nanos()
}

/// The OpenVPN-over-Cloak connector of one profile.
pub struct OpenVpnCloakConnector {
    config: ConnectorConfig,
    status: ConnectionStatus,
    phase: ConnectPhase,
}

impl OpenVpnCloakConnector {
    /// The settings the connector was created with.
    pub closed spec fn settings(&self) -> ConnectorConfig {
        self.config
    }

    /// The connection status.
    pub closed spec fn current_status(&self) -> ConnectionStatus {
        self.status
    }

    /// Where the connection attempt stands.
    pub closed spec fn current_phase(&self) -> ConnectPhase {
        self.phase
    }

    /// Nothing has been started yet.
    pub open spec fn is_idle(&self) -> bool {
        self.current_phase() == ConnectPhase::Idle
    }

    /// The program run for `ck-client`: found on the search path with
    /// `use_system_binaries`, else the configured path.
    pub open spec fn cloak_program(&self) -> Seq<char> {
        if self.settings().use_system_binaries {
            "ck-client"@
        } else {
            self.settings().ck_client_path@
        }
    }

    /// The program run for `openvpn`, chosen likewise.
    pub open spec fn openvpn_program(&self) -> Seq<char> {
        if self.settings().use_system_binaries {
            "openvpn"@
        } else {
            self.settings().openvpn_bin_path@
        }
    }

    /// A new connector, idle and disconnected.
    pub fn new(
        profile_name: String,
        openvpn_config_path: String,
        cloak_config_path: String,
        ck_client_path: String,
        openvpn_bin_path: String,
        local_cloak_port: u16,
        use_system_binaries: bool,
    ) -> (c: Self)
        ensures
            c.settings() == (ConnectorConfig {
                profile_name,
                openvpn_config_path,
                cloak_config_path,
                ck_client_path,
                openvpn_bin_path,
                local_cloak_port,
                use_system_binaries,
            }),
            c.current_status() == ConnectionStatus::Disconnected,
            c.is_idle(),
    {
        OpenVpnCloakConnector {
            config: ConnectorConfig {
                profile_name,
                openvpn_config_path,
                cloak_config_path,
                ck_client_path,
                openvpn_bin_path,
                local_cloak_port,
                use_system_binaries,
            },
            status: ConnectionStatus::Disconnected,
            phase: ConnectPhase::Idle,
        }
    }

    /// The name of the profile being connected.
    pub fn profile_name(&self) -> (r: &String)
        ensures
            r@ == self.settings().profile_name@,
    {
        &self.config.profile_name
    }

    /// The local port of the Cloak client.
    pub fn local_cloak_port(&self) -> (r: u16)
        ensures
            r == self.settings().local_cloak_port,
    {
        self.config.local_cloak_port
    }

    /// Where the connection attempt stands.
    pub fn phase(&self) -> (p: ConnectPhase)
        ensures
            p == self.current_phase(),
    {
        self.phase
    }

    /// Whether the connector takes `event` in the phase it is in: what
    /// [`Self::step`] requires.
    pub fn accepts(&self, event: &ConnectEvent) -> (r: bool)
        ensures
            r == expects(self.current_phase(), event_kind(*event)),
    {
        match self.phase {
            ConnectPhase::Idle => matches!(event, ConnectEvent::Begin),
            ConnectPhase::StartingCloak | ConnectPhase::StartingOpenVpn => matches!(
                event,
                ConnectEvent::Spawned | ConnectEvent::SpawnFailed(_)
            ),
            ConnectPhase::AwaitingCloak => matches!(
                event,
                ConnectEvent::CloakReachable | ConnectEvent::CloakUnreachable { .. }
            ),
            ConnectPhase::PollPause => matches!(event, ConnectEvent::PauseOver),
            ConnectPhase::Running => matches!(event, ConnectEvent::ProcessExited),
            ConnectPhase::ShuttingDown => matches!(event, ConnectEvent::AllStopped),
            ConnectPhase::Done => false,
        }
    }

    /// Records that every process was stopped from outside the connection
    /// attempt (`stop`): the connection is then disconnected.
    pub fn record_stopped(&mut self)
        ensures
            final(self).current_status() == ConnectionStatus::Disconnected,
            final(self).settings() == old(self).settings(),
            final(self).current_phase() == old(self).current_phase(),
    {
        self.status = ConnectionStatus::Disconnected;
    }

    fn cloak_spawn(&self) -> (a: ConnectAction)
        ensures
            a matches ConnectAction::Spawn { role, program, args } && role == ProcessRole::Cloak
                && program@ == self.cloak_program() && args@.len() == 4 && args@[0]@ == "-c"@
                && args@[1]@ == self.settings().cloak_config_path@ && args@[2]@ == "-l"@
                && args@[3]@ == decimal(self.settings().local_cloak_port as nat),
    {
        let program = if self.config.use_system_binaries {
            to_string("ck-client")
        } else {
            self.config.ck_client_path.clone()
        };
        let mut args: Vec<String> = Vec::new();
        args.push(to_string("-c"));
        args.push(self.config.cloak_config_path.clone());
        args.push(to_string("-l"));
        args.push(decimal_string(self.config.local_cloak_port as u64));
        ConnectAction::Spawn { role: ProcessRole::Cloak, program, args }
    }

    fn openvpn_spawn(&self) -> (a: ConnectAction)
        ensures
            a matches ConnectAction::Spawn { role, program, args } && role == ProcessRole::OpenVpn
                && program@ == self.openvpn_program() && args@.len() == 2 && args@[0]@
                == "--config"@ && args@[1]@ == self.settings().openvpn_config_path@,
    {
        let program = if self.config.use_system_binaries {
            to_string("openvpn")
        } else {
            self.config.openvpn_bin_path.clone()
        };
        let mut args: Vec<String> = Vec::new();
        args.push(to_string("--config"));
        args.push(self.config.openvpn_config_path.clone());
        ConnectAction::Spawn { role: ProcessRole::OpenVpn, program, args }
    }

    fn probe(&self) -> (a: ConnectAction)
        ensures
            a matches ConnectAction::ProbeCloak { host, port } && host@ == cloak_host() && port
                == self.settings().local_cloak_port,
    {
        ConnectAction::ProbeCloak {
            host: to_string("127.0.0.1"),
            port: self.config.local_cloak_port,
        }
    }

    /// Takes one step of the connection attempt on `event`, and says what
    /// the caller is to do next.
    pub fn step(&mut self, event: ConnectEvent) -> (a: ConnectAction)
        requires
            expects(old(self).current_phase(), event_kind(event)),
        ensures
            final(self).settings() == old(self).settings(),
            final(self).current_phase() == next_phase(
                old(self).current_phase(),
                event_kind(event),
                is_timed_out(event),
            ),
            final(self).current_status() == next_status(
                old(self).current_phase(),
                event_kind(event),
                old(self).current_status(),
            ),
            // Starting: ck-client first.
            old(self).current_phase() == ConnectPhase::Idle ==> (a matches ConnectAction::Spawn {
                role,
                program,
                args,
            } && role == ProcessRole::Cloak && program@ == old(self).cloak_program() && args@.len()
                == 4 && args@[0]@ == "-c"@ && args@[1]@ == old(self).settings().cloak_config_path@
                && args@[2]@ == "-l"@ && args@[3]@ == decimal(
                old(self).settings().local_cloak_port as nat,
            )),
            // ck-client could not be started.
            old(self).current_phase() == ConnectPhase::StartingCloak ==> (event matches ConnectEvent::SpawnFailed(
                err,
            ) ==> a matches ConnectAction::Finish(Err(PulsarError::ProcessStartFailed {
                process,
                source,
            })) && process@ == "ck-client"@ && source == err),
            // Probing the Cloak client, first after it started, then after each pause.
            (old(self).current_phase() == ConnectPhase::StartingCloak && event_kind(event)
                == EventKind::Spawned) || old(self).current_phase() == ConnectPhase::PollPause ==> (
            a matches ConnectAction::ProbeCloak { host, port } && host@ == cloak_host() && port
                == old(self).settings().local_cloak_port),
            // The Cloak client is ready: start openvpn.
            old(self).current_phase() == ConnectPhase::AwaitingCloak && event_kind(event)
                == EventKind::CloakReachable ==> (a matches ConnectAction::Spawn {
                role,
                program,
                args,
            } && role == ProcessRole::OpenVpn && program@ == old(self).openvpn_program()
                && args@.len() == 2 && args@[0]@ == "--config"@ && args@[1]@ == old(
                self,
            ).settings().openvpn_config_path@),
            // Not ready yet: pause, or give up after the timeout.
            old(self).current_phase() == ConnectPhase::AwaitingCloak && event_kind(event)
                == EventKind::CloakUnreachable ==> if is_timed_out(event) {
                a matches ConnectAction::Finish(Err(PulsarError::CloakReadyTimeout {
                    host,
                    port,
                    timeout,
                })) && host@ == cloak_host() && port == old(self).settings().local_cloak_port
                    && timeout == 30
            } else {
                a matches ConnectAction::Pause { millis } && millis == 100
            },
            // openvpn could not be started.
            old(self).current_phase() == ConnectPhase::StartingOpenVpn ==> (event matches ConnectEvent::SpawnFailed(
                err,
            ) ==> a matches ConnectAction::Finish(Err(PulsarError::ProcessStartFailed {
                process,
                source,
            })) && process@ == "openvpn"@ && source == err),
            // Connected: wait for an exit.
            old(self).current_phase() == ConnectPhase::StartingOpenVpn && event_kind(event)
                == EventKind::Spawned ==> a matches ConnectAction::WaitForExit,
            // A process exited: stop everything.
            old(self).current_phase() == ConnectPhase::Running ==> a matches ConnectAction::StopAll,
            // Everything stopped: done.
            old(self).current_phase() == ConnectPhase::ShuttingDown ==> a matches ConnectAction::Finish(
                Ok(()),
            ),
    {
        match self.phase {
            ConnectPhase::Idle => {
                self.status = ConnectionStatus::Connecting;
                self.phase = ConnectPhase::StartingCloak;
                self.cloak_spawn()
            },
            ConnectPhase::StartingCloak => match event {
                ConnectEvent::SpawnFailed(source) => {
                    self.phase = ConnectPhase::Done;
                    ConnectAction::Finish(
                        Err(PulsarError::ProcessStartFailed { process: to_string("ck-client"), source }),
                    )
                },
                _ => {
                    self.phase = ConnectPhase::AwaitingCloak;
                    self.probe()
                },
            },
            ConnectPhase::AwaitingCloak => match event {
                ConnectEvent::CloakUnreachable { elapsed_nanos } => {
                    if elapsed_nanos > 30_000_000_000u128 {
                        self.phase = ConnectPhase::Done;
                        ConnectAction::Finish(
                            Err(
                                PulsarError::CloakReadyTimeout {
                                    host: to_string("127.0.0.1"),
                                    port: self.config.local_cloak_port,
                                    timeout: CLOAK_READY_TIMEOUT_SECS,
                                },
                            ),
                        )
                    } else {
                        self.phase = ConnectPhase::PollPause;
                        ConnectAction::Pause { millis: CLOAK_POLL_INTERVAL_MS }
                    }
                },
                _ => {
                    self.phase = ConnectPhase::StartingOpenVpn;
                    self.openvpn_spawn()
                },
            },
            ConnectPhase::PollPause => {
                self.phase = ConnectPhase::AwaitingCloak;
                self.probe()
            },
            ConnectPhase::StartingOpenVpn => match event {
                ConnectEvent::SpawnFailed(source) => {
                    self.phase = ConnectPhase::Done;
                    ConnectAction::Finish(
                        Err(PulsarError::ProcessStartFailed { process: to_string("openvpn"), source }),
                    )
                },
                _ => {
                    self.status = ConnectionStatus::Connected;
                    self.phase = ConnectPhase::Running;
                    ConnectAction::WaitForExit
                },
            },
            ConnectPhase::Running => {
                self.status = ConnectionStatus::Disconnected;
                self.phase = ConnectPhase::ShuttingDown;
                ConnectAction::StopAll
            },
            ConnectPhase::ShuttingDown => {
                self.phase = ConnectPhase::Done;
                ConnectAction::Finish(Ok(()))
            },
            ConnectPhase::Done => ConnectAction::Finish(Ok(())),
        }
    }
}

impl Connector for OpenVpnCloakConnector {
    fn protocol_type(&self) -> (p: ProtocolType)
        ensures
            p == ProtocolType::OpenvpnCloak,
    {
        ProtocolType::OpenvpnCloak
    }

    fn status(&self) -> (s: ConnectionStatus)
        ensures
            s == self.current_status(),
    {
        self.status
    }
}

/// The status that goes with each phase of an attempt that nothing outside
/// it has interfered with.
pub open spec fn status_fits_phase(phase: ConnectPhase, status: ConnectionStatus) -> bool {
    match phase {
        ConnectPhase::Idle => status == ConnectionStatus::Disconnected,
        ConnectPhase::StartingCloak | ConnectPhase::AwaitingCloak | ConnectPhase::PollPause
        | ConnectPhase::StartingOpenVpn => status == ConnectionStatus::Connecting,
        ConnectPhase::Running => status == ConnectionStatus::Connected,
        ConnectPhase::ShuttingDown => status == ConnectionStatus::Disconnected,
        ConnectPhase::Done => status == ConnectionStatus::Connecting || status
            == ConnectionStatus::Disconnected,
    }
}

/// Every step keeps the status in line with the phase: `Connecting` from the
/// start until `openvpn` runs, `Connected` while both processes run,
/// `Disconnected` once one has exited; a failed attempt ends `Connecting`.
pub proof fn lemma_step_keeps_status_fitting(
    phase: ConnectPhase,
    k: EventKind,
    timed_out: bool,
    status: ConnectionStatus,
)
    requires
        expects(phase, k),
        status_fits_phase(phase, status),
    ensures
        status_fits_phase(next_phase(phase, k, timed_out), next_status(phase, k, status)),
{
}

/// `openvpn` is started only right after the Cloak client was reached.
pub proof fn lemma_openvpn_starts_only_after_cloak_ready(
    phase: ConnectPhase,
    k: EventKind,
    timed_out: bool,
)
    requires
        expects(phase, k),
        next_phase(phase, k, timed_out) == ConnectPhase::StartingOpenVpn,
    ensures
        phase == ConnectPhase::AwaitingCloak,
        k == EventKind::CloakReachable,
{
}

/// A connection becomes `Connected` only when `openvpn` has started.
pub proof fn lemma_connected_only_once_openvpn_runs(
    phase: ConnectPhase,
    k: EventKind,
    status: ConnectionStatus,
)
    requires
        expects(phase, k),
        status != ConnectionStatus::Connected,
        next_status(phase, k, status) == ConnectionStatus::Connected,
    ensures
        phase == ConnectPhase::StartingOpenVpn,
        k == EventKind::Spawned,
{
}

/// While the Cloak client cannot be reached, polling goes on (pause, then a
/// new attempt) until an attempt fails after the timeout, which ends the
/// connection attempt.
pub proof fn lemma_poll_until_timeout(timed_out: bool)
    ensures
        next_phase(ConnectPhase::AwaitingCloak, EventKind::CloakUnreachable, timed_out) == if timed_out {
            ConnectPhase::Done
        } else {
            ConnectPhase::PollPause
        },
        next_phase(ConnectPhase::PollPause, EventKind::PauseOver, timed_out)
            == ConnectPhase::AwaitingCloak,
{
}

/// Once over, an attempt takes no further events.
pub proof fn lemma_done_is_final(k: EventKind)
    ensures
        !expects(ConnectPhase::Done, k),
{
}


// ---------------------------------------------------------------------------
// Whole connection attempts
// ---------------------------------------------------------------------------

/// The phase after the events of `run`, from a new (idle) connector. A run
/// lists the kind of each event fed to `step`, in order, each with whether it
/// was a failed attempt to reach the Cloak client after the timeout.
pub open spec fn run_phase(run: Seq<(EventKind, bool)>) -> ConnectPhase
    decreases run.len(),
{
    if run.len() == 0 {
        ConnectPhase::Idle
    } else {
        next_phase(run_phase(run.drop_last()), run.last().0, run.last().1)
    }
}

/// The status after the events of `run`, from a new (disconnected)
/// connector.
pub open spec fn run_status(run: Seq<(EventKind, bool)>) -> ConnectionStatus
    decreases run.len(),
{
    if run.len() == 0 {
        ConnectionStatus::Disconnected
    } else {
        next_status(run_phase(run.drop_last()), run.last().0, run_status(run.drop_last()))
    }
}

/// Each event of `run` is one the connector takes in the phase it was in:
/// the runs that `step`'s `requires` admits.
pub open spec fn valid_run(run: Seq<(EventKind, bool)>) -> bool {
    forall|i: int| 0 <= i < run.len() ==> expects(run_phase(#[trigger] run.take(i)), run[i].0)
}

/// The processes started during `run`, in the order they were started: a
/// `Spawned` event confirms the process that the step before asked for.
pub open spec fn spawned_roles(run: Seq<(EventKind, bool)>) -> Seq<ProcessRole>
    decreases run.len(),
{
    if run.len() == 0 {
        Seq::empty()
    } else {
        let before = spawned_roles(run.drop_last());
        let phase = run_phase(run.drop_last());
        if run.last().0 == EventKind::Spawned && phase == ConnectPhase::StartingCloak {
            before.push(ProcessRole::Cloak)
        } else if run.last().0 == EventKind::Spawned && phase == ConnectPhase::StartingOpenVpn {
            before.push(ProcessRole::OpenVpn)
        } else {
            before
        }
    }
}

/// How far an attempt has got; polling the Cloak client stays at one rank.
pub open spec fn phase_rank(phase: ConnectPhase) -> int {
    match phase {
        ConnectPhase::Idle => 0,
        ConnectPhase::StartingCloak => 1,
        ConnectPhase::AwaitingCloak | ConnectPhase::PollPause => 2,
        ConnectPhase::StartingOpenVpn => 3,
        ConnectPhase::Running => 4,
        ConnectPhase::ShuttingDown => 5,
        ConnectPhase::Done => 6,
    }
}

/// The processes that run in `phase`, in the order they were started.
pub open spec fn roles_running_in(phase: ConnectPhase) -> Seq<ProcessRole> {
    match phase {
        ConnectPhase::Idle | ConnectPhase::StartingCloak => Seq::empty(),
        ConnectPhase::AwaitingCloak | ConnectPhase::PollPause | ConnectPhase::StartingOpenVpn => seq![
            ProcessRole::Cloak,
        ],
        _ => seq![ProcessRole::Cloak, ProcessRole::OpenVpn],
    }
}

proof fn lemma_valid_run_prefix(run: Seq<(EventKind, bool)>, n: int)
    requires
        valid_run(run),
        0 <= n <= run.len(),
    ensures
        valid_run(run.take(n)),
{
    assert forall|i: int| 0 <= i < run.take(n).len() implies expects(
        run_phase(#[trigger] run.take(n).take(i)),
        run.take(n)[i].0,
    ) by {
        assert(run.take(n).take(i) =~= run.take(i));
    }
}

proof fn lemma_run_shape(run: Seq<(EventKind, bool)>)
    requires
        valid_run(run),
    ensures
        status_fits_phase(run_phase(run), run_status(run)),
        run_phase(run) != ConnectPhase::Done ==> spawned_roles(run) == roles_running_in(
            run_phase(run),
        ),
        forall|i: int|
            0 <= i <= run.len() ==> phase_rank(run_phase(#[trigger] run.take(i))) <= phase_rank(
                run_phase(run),
            ),
    decreases run.len(),
{
    if run.len() > 0 {
        let before = run.drop_last();
        lemma_valid_run_prefix(run, run.len() - 1);
        assert(run.take(run.len() - 1) =~= before);
        lemma_run_shape(before);
        let k = run.last().0;
        let t = run.last().1;
        assert(expects(run_phase(before), k));
        lemma_step_keeps_status_fitting(run_phase(before), k, t, run_status(before));
        assert forall|i: int| 0 <= i <= run.len() implies phase_rank(
            run_phase(#[trigger] run.take(i)),
        ) <= phase_rank(run_phase(run)) by {
            if i < run.len() {
                assert(run.take(i) =~= before.take(i));
            } else {
                assert(run.take(i) =~= run);
            }
        }
        assert(spawned_roles(run) =~= roles_running_in(run_phase(run)) || run_phase(run)
            == ConnectPhase::Done);
    } else {
        assert(run.take(0) =~= run);
    }
}

/// A whole connection attempt, run by feeding `step` the events of `run`
/// from a new connector. At every point the status is in line with the
/// phase: `Disconnected` before the start, `Connecting` from the start until
/// `openvpn` is started, `Connected` while both processes run, `Disconnected`
/// once one has exited (a failed attempt ends `Connecting`). The phase only
/// moves forward. An attempt that ends with every process stopped (and so
/// with `Finish(Ok(()))`) saw a process exit, ends `Done` and
/// `Disconnected`, started exactly `ck-client` then `openvpn`, and so stops
/// them newest first: `openvpn`, then `ck-client`.
pub proof fn lemma_connect_run(run: Seq<(EventKind, bool)>)
    requires
        valid_run(run),
    ensures
        forall|i: int|
            0 <= i <= run.len() ==> status_fits_phase(
                run_phase(#[trigger] run.take(i)),
                run_status(run.take(i)),
            ),
        forall|i: int, j: int|
            0 <= i <= j <= run.len() ==> phase_rank(run_phase(#[trigger] run.take(i)))
                <= phase_rank(run_phase(#[trigger] run.take(j))),
        run.len() > 0 && run.last().0 == EventKind::AllStopped ==> {
            &&& run.len() >= 2 && run[run.len() - 2].0 == EventKind::ProcessExited
            &&& run_phase(run) == ConnectPhase::Done
            &&& run_status(run) == ConnectionStatus::Disconnected
            &&& spawned_roles(run) == seq![ProcessRole::Cloak, ProcessRole::OpenVpn]
            &&& spawned_roles(run).reverse() == seq![ProcessRole::OpenVpn, ProcessRole::Cloak]
        },
{
    assert forall|i: int| 0 <= i <= run.len() implies status_fits_phase(
        run_phase(#[trigger] run.take(i)),
        run_status(run.take(i)),
    ) by {
        lemma_valid_run_prefix(run, i);
        lemma_run_shape(run.take(i));
    }
    assert forall|i: int, j: int| 0 <= i <= j <= run.len() implies phase_rank(
        run_phase(#[trigger] run.take(i)),
    ) <= phase_rank(run_phase(#[trigger] run.take(j))) by {
        lemma_valid_run_prefix(run, j);
        lemma_run_shape(run.take(j));
        assert(run.take(j).take(i) =~= run.take(i));
    }
    if run.len() > 0 && run.last().0 == EventKind::AllStopped {
        let before = run.drop_last();
        lemma_valid_run_prefix(run, run.len() - 1);
        assert(run.take(run.len() - 1) =~= before);
        lemma_run_shape(before);
        assert(expects(run_phase(before), EventKind::AllStopped));
        assert(run_phase(before) == ConnectPhase::ShuttingDown);
        assert(before.len() > 0);
        let earlier = before.drop_last();
        assert(before.take(before.len() - 1) =~= earlier);
        assert(run.take(before.len() - 1) =~= earlier);
        assert(expects(run_phase(earlier), before.last().0));
        assert(run_phase(earlier) == ConnectPhase::Running);
        assert(before.last() == run[run.len() - 2]);
        assert(spawned_roles(run) =~= seq![ProcessRole::Cloak, ProcessRole::OpenVpn]);
        assert(spawned_roles(run).reverse() =~= seq![ProcessRole::OpenVpn, ProcessRole::Cloak]);
    }
}

} // verus!

//! The setup of a bastion session, and what follows it: for a new tunnel
//! the reachability probe and the binding of the local port, for a
//! forwarded connection the opening of its channel.
//!
//! The setup is a state machine. Each state names one piece of outside work
//! (`action`); the caller performs it and reports with `step` whether it
//! succeeded, or how it failed. A failed state and the two ready states are final.
use vstd::prelude::*;
use crate::config::{SshAuthMethod, SshTunnelConfig};
use crate::error::TunnelError;
use crate::path::{expand_path, expand_spec};

verus! {

/// Bound on connecting and on the SSH handshake, in milliseconds.
pub const SSH_TIMEOUT_MS: u32 = 10000;

/// First port tried when no local port is configured.
pub const SCAN_FIRST_PORT: u16 = 9000;

/// Last port tried when no local port is configured.
pub const SCAN_LAST_PORT: u16 = 9999;

/// What the session is being set up for.
#[derive(Clone, Copy, Debug, PartialEq, Eq, Structural)]
pub enum Purpose {
    /// Creating a tunnel: probe the target, then bind the local port.
    Create,
    /// Serving one accepted connection: open its channel to the target.
    Forward,
}

/// Where the setup stands.
#[derive(Clone, Debug, PartialEq, Eq)]
pub enum SetupPhase {
    Connect,
    Handshake,
    CheckKeyFile,
    Authenticate,
    VerifyAuth,
    Probe,
    /// Binding `port`; `scanning` when the port was not configured and the
    /// next one is tried on failure.
    Bind { port: u16, scanning: bool },
    ClearTimeout,
    OpenChannel,
    EnterNonBlocking,
    /// A tunnel is ready and its listener is bound to `port`.
    Listening { port: u16 },
    /// A forwarded connection is ready to pump.
    Forwarding,
    Failed { error: TunnelError },
}

/// The outside work that a phase asks for.
#[derive(Debug)]
pub enum SetupAction {
    /// Open a TCP connection to the bastion, bounded by `timeout_ms`, and
    /// start a session on it with the same bound.
    ConnectBastion { host: String, port: u16, timeout_ms: u32 },
    /// Perform the SSH handshake.
    Handshake,
    /// Report whether a file exists at `path`.
    CheckKeyFile { path: String },
    AuthPassword { user: String, password: String },
    AuthKey { user: String, key_path: String, passphrase: Option<String> },
    /// Report whether the session counts itself as authenticated.
    CheckAuthenticated,
    /// Open a direct channel to the target and close it again cleanly; the
    /// session is discarded afterwards.
    ProbeTarget { host: String, port: u16 },
    /// Bind a listener on `127.0.0.1:port` and keep it on success.
    Bind { port: u16 },
    /// Lift the session's timeout; data transfer may idle without bound.
    ClearTimeout,
    OpenChannel { host: String, port: u16 },
    /// Put the local socket and the session into non-blocking mode.
    EnterNonBlocking,
    /// Nothing is left to do: the setup succeeded or failed.
    Finished,
}

/// The state of one session setup.
pub struct SessionSetup {
    pub config: SshTunnelConfig,
    /// The private-key path with a leading `~/` expanded.
    pub key_path: Option<String>,
    pub target_host: String,
    pub target_port: u16,
    pub purpose: Purpose,
    pub phase: SetupPhase,
}

/// Whether the setup has come to an end.
pub open spec fn is_final(phase: SetupPhase) -> bool {
    phase is Listening || phase is Forwarding || phase is Failed
}

/// The phase after the handshake: the chosen credential, or the failure of
/// a missing one.
pub open spec fn auth_phase(s: SessionSetup) -> SetupPhase {
    match s.config.auth_method {
        SshAuthMethod::Password => if s.config.ssh_password is Some {
            SetupPhase::Authenticate
        } else {
            SetupPhase::Failed { error: TunnelError::AuthFailed }
        },
        SshAuthMethod::PrivateKey => if s.key_path is Some {
            SetupPhase::CheckKeyFile
        } else {
            SetupPhase::Failed { error: TunnelError::KeyNotFound { path: None } }
        },
    }
}

/// The first bind of a new tunnel: the configured port alone, or the
/// start of the scan. A configured port zero is refused with `BindFailed`
/// rather than bound: binding port zero makes the system choose another
/// port, which the tunnel could then not report as its own. This is the
/// one configured port that is not bound directly.
pub open spec fn bind_phase(config: SshTunnelConfig) -> SetupPhase {
    match config.local_port {
        Some(p) => if p == 0 {
            SetupPhase::Failed { error: TunnelError::BindFailed { first: 0, last: 0 } }
        } else {
            SetupPhase::Bind { port: p, scanning: false }
        },
        None => SetupPhase::Bind { port: SCAN_FIRST_PORT, scanning: true },
    }
}

/// The phase that follows `s` when its action succeeded (`Ok`) or failed
/// with the message `Err`.
pub open spec fn next_phase(s: SessionSetup, outcome: Result<(), String>) -> SetupPhase {
    let ok = outcome is Ok;
    match s.phase {
        SetupPhase::Connect => if ok {
            SetupPhase::Handshake
        } else {
            SetupPhase::Failed { error: TunnelError::ConnectFailed }
        },
        SetupPhase::Handshake => if ok {
            auth_phase(s)
        } else {
            SetupPhase::Failed { error: TunnelError::HandshakeFailed }
        },
        SetupPhase::CheckKeyFile => if ok {
            SetupPhase::Authenticate
        } else {
            SetupPhase::Failed { error: TunnelError::KeyNotFound { path: s.key_path } }
        },
        SetupPhase::Authenticate => if ok {
            SetupPhase::VerifyAuth
        } else {
            SetupPhase::Failed { error: TunnelError::AuthFailed }
        },
        SetupPhase::VerifyAuth => if !ok {
            SetupPhase::Failed { error: TunnelError::AuthFailed }
        } else if s.purpose == Purpose::Create {
            SetupPhase::Probe
        } else {
            SetupPhase::ClearTimeout
        },
        SetupPhase::Probe => if ok {
            bind_phase(s.config)
        } else {
            SetupPhase::Failed {
                error: TunnelError::ProbeFailed {
                    host: s.target_host,
                    port: s.target_port,
                    cause: outcome->Err_0,
                },
            }
        },
        SetupPhase::Bind { port, scanning } => if ok {
            SetupPhase::Listening { port }
        } else if scanning && port < SCAN_LAST_PORT {
            SetupPhase::Bind { port: (port + 1) as u16, scanning: true }
        } else {
            SetupPhase::Failed {
                error: TunnelError::BindFailed {
                    first: if scanning {
                        SCAN_FIRST_PORT
                    } else {
                        port
                    },
                    last: port,
                },
            }
        },
        SetupPhase::ClearTimeout => SetupPhase::OpenChannel,
        SetupPhase::OpenChannel => if ok {
            SetupPhase::EnterNonBlocking
        } else {
            SetupPhase::Failed { error: TunnelError::ChannelOpenFailed }
        },
        SetupPhase::EnterNonBlocking => if ok {
            SetupPhase::Forwarding
        } else {
            SetupPhase::Failed { error: TunnelError::IoError }
        },
        _ => s.phase,
    }
}

/// The action that `s` asks for.
pub open spec fn action_spec(s: SessionSetup) -> SetupAction {
    match s.phase {
        SetupPhase::Connect => SetupAction::ConnectBastion {
            host: s.config.ssh_host,
            port: s.config.ssh_port,
            timeout_ms: SSH_TIMEOUT_MS,
        },
        SetupPhase::Handshake => SetupAction::Handshake,
        SetupPhase::CheckKeyFile => SetupAction::CheckKeyFile { path: s.key_path->Some_0 },
        SetupPhase::Authenticate => match s.config.auth_method {
            SshAuthMethod::Password => SetupAction::AuthPassword {
                user: s.config.ssh_username,
                password: s.config.ssh_password->Some_0,
            },
            SshAuthMethod::PrivateKey => SetupAction::AuthKey {
                user: s.config.ssh_username,
                key_path: s.key_path->Some_0,
                passphrase: s.config.ssh_passphrase,
            },
        },
        SetupPhase::VerifyAuth => SetupAction::CheckAuthenticated,
        SetupPhase::Probe => SetupAction::ProbeTarget { host: s.target_host, port: s.target_port },
        SetupPhase::Bind { port, scanning } => SetupAction::Bind { port },
        SetupPhase::ClearTimeout => SetupAction::ClearTimeout,
        SetupPhase::OpenChannel => SetupAction::OpenChannel {
            host: s.target_host,
            port: s.target_port,
        },
        SetupPhase::EnterNonBlocking => SetupAction::EnterNonBlocking,
        _ => SetupAction::Finished,
    }
}

/// The phases reached one by one: the credential that a phase needs is
/// there, and a scan stays within its range.
pub open spec fn reachable_phase(s: SessionSetup) -> bool {
    &&& (s.phase is CheckKeyFile ==> s.config.auth_method == SshAuthMethod::PrivateKey
        && s.key_path is Some)
    &&& (s.phase is Authenticate ==> match s.config.auth_method {
        SshAuthMethod::Password => s.config.ssh_password is Some,
        SshAuthMethod::PrivateKey => s.key_path is Some,
    })
    &&& (s.phase matches SetupPhase::Bind { port, scanning } ==> (scanning ==> SCAN_FIRST_PORT
        <= port <= SCAN_LAST_PORT))
}

/// `s` after its action's outcome.
pub open spec fn advance(s: SessionSetup, outcome: Result<(), String>) -> SessionSetup {
    SessionSetup { phase: next_phase(s, outcome), ..s }
}

fn clone_opt(o: &Option<String>) -> (r: Option<String>)
    ensures
        r == *o,
{
    match o {
        Some(v) => Some(v.clone()),
        None => None,
    }
}

impl SessionSetup {
    /// A setup at its start, for `purpose`, towards `target_host:target_port`.
    /// A leading `~/` of the private-key path is expanded against `home`.
    pub fn new(
        config: SshTunnelConfig,
        target_host: String,
        target_port: u16,
        home: Option<&str>,
        purpose: Purpose,
    ) -> (r: SessionSetup)
        ensures
            r.phase == SetupPhase::Connect,
            r.config == config,
            r.target_host == target_host,
            r.target_port == target_port,
            r.purpose == purpose,
            config.ssh_private_key_path is None ==> r.key_path is None,
            config.ssh_private_key_path matches Some(p) ==> r.key_path is Some
                && r.key_path->Some_0@ == expand_spec(p@, match home {
                Some(h) => Some(h@),
                None => None,
            }),
            reachable_phase(r),
    {
        let key_path = match &config.ssh_private_key_path {
            Some(p) => Some(expand_path(p.as_str(), home)),
            None => None,
        };
        SessionSetup { config, key_path, target_host, target_port, purpose, phase: SetupPhase::Connect }
    }

    /// The outside work that the current phase asks for.
    pub fn action(&self) -> (a: SetupAction)
        requires
            reachable_phase(*self),
        ensures
            a == action_spec(*self),
    {
        match &self.phase {
            SetupPhase::Connect => SetupAction::ConnectBastion {
                host: self.config.ssh_host.clone(),
                port: self.config.ssh_port,
                timeout_ms: SSH_TIMEOUT_MS,
            },
            SetupPhase::Handshake => SetupAction::Handshake,
            SetupPhase::CheckKeyFile => {
                let path = clone_opt(&self.key_path);
                SetupAction::CheckKeyFile { path: path.unwrap() }
            },
            SetupPhase::Authenticate => match self.config.auth_method {
                SshAuthMethod::Password => {
                    let password = clone_opt(&self.config.ssh_password);
                    SetupAction::AuthPassword {
                        user: self.config.ssh_username.clone(),
                        password: password.unwrap(),
                    }
                },
                SshAuthMethod::PrivateKey => {
                    let key_path = clone_opt(&self.key_path);
                    SetupAction::AuthKey {
                        user: self.config.ssh_username.clone(),
                        key_path: key_path.unwrap(),
                        passphrase: clone_opt(&self.config.ssh_passphrase),
                    }
                },
            },
            SetupPhase::VerifyAuth => SetupAction::CheckAuthenticated,
            SetupPhase::Probe => SetupAction::ProbeTarget {
                host: self.target_host.clone(),
                port: self.target_port,
            },
            SetupPhase::Bind { port, scanning: _ } => SetupAction::Bind { port: *port },
            SetupPhase::ClearTimeout => SetupAction::ClearTimeout,
            SetupPhase::OpenChannel => SetupAction::OpenChannel {
                host: self.target_host.clone(),
                port: self.target_port,
            },
            SetupPhase::EnterNonBlocking => SetupAction::EnterNonBlocking,
            _ => SetupAction::Finished,
        }
    }

    /// Moves on after the current action succeeded (`Ok`) or failed; a
    /// failure carries the message of the outside library.
    pub fn step(&mut self, outcome: Result<(), String>)
        requires
            reachable_phase(*old(self)),
        ensures
            *final(self) == advance(*old(self), outcome),
            reachable_phase(*final(self)),
    {
        let ok = outcome.is_ok();
        let next = match &self.phase {
            SetupPhase::Connect => if ok {
                SetupPhase::Handshake
            } else {
                SetupPhase::Failed { error: TunnelError::ConnectFailed }
            },
            SetupPhase::Handshake => if !ok {
                SetupPhase::Failed { error: TunnelError::HandshakeFailed }
            } else {
                match self.config.auth_method {
                    SshAuthMethod::Password => if self.config.ssh_password.is_some() {
                        SetupPhase::Authenticate
                    } else {
                        SetupPhase::Failed { error: TunnelError::AuthFailed }
                    },
                    SshAuthMethod::PrivateKey => if self.key_path.is_some() {
                        SetupPhase::CheckKeyFile
                    } else {
                        SetupPhase::Failed { error: TunnelError::KeyNotFound { path: None } }
                    },
                }
            },
            SetupPhase::CheckKeyFile => if ok {
                SetupPhase::Authenticate
            } else {
                SetupPhase::Failed {
                    error: TunnelError::KeyNotFound { path: clone_opt(&self.key_path) },
                }
            },
            SetupPhase::Authenticate => if ok {
                SetupPhase::VerifyAuth
            } else {
                SetupPhase::Failed { error: TunnelError::AuthFailed }
            },
            SetupPhase::VerifyAuth => if !ok {
                SetupPhase::Failed { error: TunnelError::AuthFailed }
            } else if self.purpose == Purpose::Create {
                SetupPhase::Probe
            } else {
                SetupPhase::ClearTimeout
            },
            SetupPhase::Probe => match outcome {
                Err(cause) => SetupPhase::Failed {
                    error: TunnelError::ProbeFailed {
                        host: self.target_host.clone(),
                        port: self.target_port,
                        cause,
                    },
                },
                Ok(()) => match self.config.local_port {
                    Some(p) => if p == 0 {
                        SetupPhase::Failed { error: TunnelError::BindFailed { first: 0, last: 0 } }
                    } else {
                        SetupPhase::Bind { port: p, scanning: false }
                    },
                    None => SetupPhase::Bind { port: SCAN_FIRST_PORT, scanning: true },
                },
            },
            SetupPhase::Bind { port, scanning } => {
                let (port, scanning) = (*port, *scanning);
                if ok {
                    SetupPhase::Listening { port }
                } else if scanning && port < SCAN_LAST_PORT {
                    SetupPhase::Bind { port: port + 1, scanning: true }
                } else {
                    let first = if scanning {
                        SCAN_FIRST_PORT
                    } else {
                        port
                    };
                    SetupPhase::Failed { error: TunnelError::BindFailed { first, last: port } }
                }
            },
            SetupPhase::ClearTimeout => SetupPhase::OpenChannel,
            SetupPhase::OpenChannel => if ok {
                SetupPhase::EnterNonBlocking
            } else {
                SetupPhase::Failed { error: TunnelError::ChannelOpenFailed }
            },
            SetupPhase::EnterNonBlocking => if ok {
                SetupPhase::Forwarding
            } else {
                SetupPhase::Failed { error: TunnelError::IoError }
            },
            _ => {
                return ;
            },
        };
        self.phase = next;
    }

    /// Whether the setup has ended, in success or failure.
    pub fn is_finished(&self) -> (r: bool)
        ensures
            r == is_final(self.phase),
    {
        match &self.phase {
            SetupPhase::Listening { .. } | SetupPhase::Forwarding | SetupPhase::Failed { .. } => true,
            _ => false,
        }
    }

    /// The error that ended the setup, if it failed.
    pub fn failure(&self) -> (r: Option<TunnelError>)
        ensures
            self.phase matches SetupPhase::Failed { error } ==> r == Some(error),
            !(self.phase is Failed) ==> r is None,
    {
        match &self.phase {
            SetupPhase::Failed { error } => Some(error.duplicate()),
            _ => None,
        }
    }
}


/// The setup after the outcomes `outcomes` were reported one by one.
pub open spec fn run(s: SessionSetup, outcomes: Seq<Result<(), String>>) -> SessionSetup
    decreases outcomes.len(),
{
    if outcomes.len() == 0 {
        s
    } else {
        advance(run(s, outcomes.drop_last()), outcomes.last())
    }
}

/// `n` outcomes that all report success.
pub open spec fn successes(n: nat) -> Seq<Result<(), String>> {
    Seq::new(n, |i: int| Ok(()))
}

/// `n` outcomes that all report a failure with the message `cause`.
pub open spec fn failures(n: nat, cause: String) -> Seq<Result<(), String>> {
    Seq::new(n, |i: int| Err(cause))
}

/// The number of successful steps from `Connect` through `VerifyAuth`.
pub open spec fn auth_steps(s: SessionSetup) -> nat {
    match s.config.auth_method {
        SshAuthMethod::Password => 4,
        SshAuthMethod::PrivateKey => 5,
    }
}

/// The configured credential is there: a password, or a private-key path.
pub open spec fn has_credential(s: SessionSetup) -> bool {
    match s.config.auth_method {
        SshAuthMethod::Password => s.config.ssh_password is Some,
        SshAuthMethod::PrivateKey => s.key_path is Some,
    }
}

/// The port that the first bind of a new tunnel tries.
pub open spec fn first_port(config: SshTunnelConfig) -> u16 {
    match config.local_port {
        Some(p) => p,
        None => SCAN_FIRST_PORT,
    }
}

proof fn lemma_run_push(s: SessionSetup, outcomes: Seq<Result<(), String>>, o: Result<(), String>)
    ensures
        run(s, outcomes.push(o)) == advance(run(s, outcomes), o),
{
    assert(outcomes.push(o).drop_last() =~= outcomes);
}

proof fn lemma_run_keeps_settings(s: SessionSetup, outcomes: Seq<Result<(), String>>)
    ensures
        run(s, outcomes) == (SessionSetup { phase: run(s, outcomes).phase, ..s }),
    decreases outcomes.len(),
{
    if outcomes.len() > 0 {
        lemma_run_keeps_settings(s, outcomes.drop_last());
    }
}

proof fn lemma_successes_push(n: nat)
    ensures
        successes(n + 1) =~= successes(n).push(Ok(())),
{
}

proof fn lemma_successes(s: SessionSetup, n: nat)
    ensures
        run(s, successes(0)) == s,
        n >= 1 ==> run(s, successes(1)) == advance(s, Ok(())),
        n >= 2 ==> run(s, successes(2)) == advance(run(s, successes(1)), Ok(())),
        n >= 3 ==> run(s, successes(3)) == advance(run(s, successes(2)), Ok(())),
        n >= 4 ==> run(s, successes(4)) == advance(run(s, successes(3)), Ok(())),
        n >= 5 ==> run(s, successes(5)) == advance(run(s, successes(4)), Ok(())),
{
    assert(successes(0) =~= Seq::<Result<(), String>>::empty());
    lemma_successes_push(0);
    lemma_run_push(s, successes(0), Ok(()));
    lemma_successes_push(1);
    lemma_run_push(s, successes(1), Ok(()));
    lemma_successes_push(2);
    lemma_run_push(s, successes(2), Ok(()));
    lemma_successes_push(3);
    lemma_run_push(s, successes(3), Ok(()));
    lemma_successes_push(4);
    lemma_run_push(s, successes(4), Ok(()));
}

/// Once the setup has ended, further outcomes change nothing.
pub proof fn lemma_final_is_stable(s: SessionSetup, outcomes: Seq<Result<(), String>>)
    requires
        is_final(s.phase),
    ensures
        run(s, outcomes) == s,
    decreases outcomes.len(),
{
    if outcomes.len() > 0 {
        lemma_final_is_stable(s, outcomes.drop_last());
    }
}

/// Running two stretches of outcomes is running the first, then the second.
pub proof fn lemma_run_concat(s: SessionSetup, a: Seq<Result<(), String>>, b: Seq<Result<(), String>>)
    ensures
        run(s, a + b) == run(run(s, a), b),
    decreases b.len(),
{
    if b.len() == 0 {
        assert(a + b =~= a);
    } else {
        assert((a + b).drop_last() =~= a + b.drop_last());
        lemma_run_concat(s, a, b.drop_last());
    }
}

/// A setup that ends in failure leaves no listener behind: no bind in its
/// course succeeded, since a successful bind ends the setup as `Listening`.
pub proof fn lemma_failed_setup_binds_nothing(
    s: SessionSetup,
    outcomes: Seq<Result<(), String>>,
    i: int,
)
    requires
        run(s, outcomes).phase is Failed,
        0 <= i < outcomes.len(),
    ensures
        !(run(s, outcomes.take(i)).phase is Bind && outcomes[i] is Ok),
{
    if run(s, outcomes.take(i)).phase is Bind && outcomes[i] is Ok {
        assert(outcomes.take(i + 1) =~= outcomes.take(i).push(outcomes[i]));
        lemma_run_push(s, outcomes.take(i), outcomes[i]);
        let t = run(s, outcomes.take(i + 1));
        assert(t.phase is Listening);
        assert(outcomes =~= outcomes.take(i + 1) + outcomes.skip(i + 1));
        lemma_run_concat(s, outcomes.take(i + 1), outcomes.skip(i + 1));
        lemma_final_is_stable(t, outcomes.skip(i + 1));
    }
}

/// With its credential present and every step succeeding, a fresh setup
/// is authenticated after `auth_steps` steps and moves on to its purpose.
pub proof fn lemma_authenticates(s: SessionSetup)
    requires
        s.phase == SetupPhase::Connect,
        has_credential(s),
    ensures
        run(s, successes(auth_steps(s))).phase == (if s.purpose == Purpose::Create {
            SetupPhase::Probe
        } else {
            SetupPhase::ClearTimeout
        }),
        run(s, successes(auth_steps(s))) == (SessionSetup {
            phase: run(s, successes(auth_steps(s))).phase,
            ..s
        }),
{
    lemma_successes(s, 5);
    assert(run(s, successes(1)).phase == SetupPhase::Handshake);
    assert(run(s, successes(2)).phase == auth_phase(s));
    assert(run(s, successes(3)).phase == (match s.config.auth_method {
        SshAuthMethod::Password => SetupPhase::VerifyAuth,
        SshAuthMethod::PrivateKey => SetupPhase::Authenticate,
    }));
    lemma_run_keeps_settings(s, successes(auth_steps(s)));
}

/// A valid configuration and a reachable target: when a port is free, the
/// configured one or one of the scan, creating the tunnel succeeds, and its
/// listener is bound to a port that is not zero. With the configured port,
/// or the first port of the scan, free: `n` successes end `Listening` on
/// it. With `j` ports of the scan taken and the next one free: `Listening`
/// on that one.
pub proof fn lemma_create_succeeds(s: SessionSetup, n: nat, j: nat, cause: String)
    requires
        s.phase == SetupPhase::Connect,
        s.purpose == Purpose::Create,
        has_credential(s),
        s.config.local_port != Some(0u16),
        n >= auth_steps(s) + 2,
        j <= (SCAN_LAST_PORT - SCAN_FIRST_PORT) as nat,
    ensures
        run(s, successes(n)).phase == (SetupPhase::Listening { port: first_port(s.config) }),
        first_port(s.config) != 0,
        s.config.local_port is None ==> run(
            s,
            successes(auth_steps(s) + 1) + failures(j, cause) + seq![Ok(())],
        ).phase == (SetupPhase::Listening { port: (SCAN_FIRST_PORT + j) as u16 }),
{
    let k = auth_steps(s);
    lemma_authenticates(s);
    lemma_successes_push(k);
    lemma_run_push(s, successes(k), Ok(()));
    lemma_successes_push(k + 1);
    lemma_run_push(s, successes(k + 1), Ok(()));
    let t = run(s, successes(k + 2));
    assert(successes(n) =~= successes(k + 2) + successes((n - (k + 2)) as nat));
    lemma_run_concat(s, successes(k + 2), successes((n - (k + 2)) as nat));
    lemma_final_is_stable(t, successes((n - (k + 2)) as nat));
    if s.config.local_port is None {
        let b = run(s, successes(k + 1));
        lemma_port_scan(b, j, cause);
        let pre = successes(k + 1) + failures(j, cause);
        lemma_run_concat(s, successes(k + 1), failures(j, cause));
        assert(pre + seq![Ok(())] =~= pre.push(Ok(())));
        lemma_run_push(s, pre, Ok(()));
    }
}

/// A rejected credential ends the setup with `AuthFailed`, whether the
/// authentication call fails or the session then reports itself not
/// authenticated.
pub proof fn lemma_rejected_credential(s: SessionSetup, cause: String)
    requires
        s.phase == SetupPhase::Connect,
        has_credential(s),
    ensures
        run(s, successes((auth_steps(s) - 2) as nat).push(Err(cause))).phase == (
        SetupPhase::Failed { error: TunnelError::AuthFailed }),
        run(s, successes((auth_steps(s) - 1) as nat).push(Err(cause))).phase == (
        SetupPhase::Failed { error: TunnelError::AuthFailed }),
{
    lemma_successes(s, 5);
    lemma_run_push(s, successes(2), Err(cause));
    lemma_run_push(s, successes(3), Err(cause));
    lemma_run_push(s, successes(4), Err(cause));
}

/// Without a password, password authentication fails with `AuthFailed`;
/// without a private-key path key authentication fails with `KeyNotFound`,
/// and when no file lies at the resolved path, with `KeyNotFound` naming
/// that path.
pub proof fn lemma_missing_credential(s: SessionSetup, cause: String)
    requires
        s.phase == SetupPhase::Connect,
    ensures
        s.config.auth_method == SshAuthMethod::Password && s.config.ssh_password is None ==> run(
            s,
            successes(2),
        ).phase == (SetupPhase::Failed { error: TunnelError::AuthFailed }),
        s.config.auth_method == SshAuthMethod::PrivateKey && s.key_path is None ==> run(
            s,
            successes(2),
        ).phase == (SetupPhase::Failed { error: TunnelError::KeyNotFound { path: None } }),
        s.config.auth_method == SshAuthMethod::PrivateKey && s.key_path is Some ==> run(
            s,
            successes(2).push(Err(cause)),
        ).phase == (SetupPhase::Failed { error: TunnelError::KeyNotFound { path: s.key_path } }),
{
    lemma_successes(s, 2);
    lemma_run_push(s, successes(2), Err(cause));
}

/// An authenticated bastion that cannot reach the target: creating the
/// tunnel fails with `ProbeFailed`, naming the target and the cause, the
/// step before the first bind.
pub proof fn lemma_unreachable_target(s: SessionSetup, cause: String)
    requires
        s.phase == SetupPhase::Connect,
        s.purpose == Purpose::Create,
        has_credential(s),
    ensures
        run(s, successes(auth_steps(s)).push(Err(cause))).phase == (SetupPhase::Failed {
            error: TunnelError::ProbeFailed { host: s.target_host, port: s.target_port, cause },
        }),
{
    lemma_authenticates(s);
    lemma_run_push(s, successes(auth_steps(s)), Err(cause));
}

/// A configured port is tried alone: when it cannot be bound, no other
/// port is tried and the setup fails with `BindFailed` naming it.
pub proof fn lemma_configured_port_alone(s: SessionSetup, p: u16, cause: String)
    requires
        s.phase == (SetupPhase::Bind { port: p, scanning: false }),
    ensures
        next_phase(s, Err(cause)) == (SetupPhase::Failed {
            error: TunnelError::BindFailed { first: p, last: p },
        }),
{
}

/// Without a configured port, ports are tried from the first of the scan
/// upwards, one after each failed bind; when the last one fails too, the
/// setup fails with `BindFailed` over the whole range.
pub proof fn lemma_port_scan(s: SessionSetup, k: nat, cause: String)
    requires
        s.phase == (SetupPhase::Bind { port: SCAN_FIRST_PORT, scanning: true }),
        k <= (SCAN_LAST_PORT - SCAN_FIRST_PORT) as nat,
    ensures
        run(s, failures(k, cause)).phase == (SetupPhase::Bind {
            port: (SCAN_FIRST_PORT + k) as u16,
            scanning: true,
        }),
        run(s, failures(k + 1, cause)).phase == (if k == (SCAN_LAST_PORT - SCAN_FIRST_PORT) as nat {
            SetupPhase::Failed {
                error: TunnelError::BindFailed { first: SCAN_FIRST_PORT, last: SCAN_LAST_PORT },
            }
        } else {
            SetupPhase::Bind { port: (SCAN_FIRST_PORT + k + 1) as u16, scanning: true }
        }),
    decreases k,
{
    assert(failures(k + 1, cause) =~= failures(k, cause).push(Err(cause)));
    lemma_run_push(s, failures(k, cause), Err(cause));
    if k == 0 {
        assert(failures(0, cause) =~= Seq::<Result<(), String>>::empty());
    } else {
        lemma_port_scan(s, (k - 1) as nat, cause);
    }
}

/// The phases that the creation of a tunnel passes through, and the
/// errors it can end with.
pub open spec fn create_phase(phase: SetupPhase) -> bool {
    &&& !(phase is ClearTimeout || phase is OpenChannel || phase is EnterNonBlocking
        || phase is Forwarding)
    &&& phase matches SetupPhase::Failed { error } ==> error.is_setup_error()
}

/// Creating a tunnel ends, when it fails, with one of the setup errors
/// from `ConnectFailed` to `BindFailed`; the errors of a forwarded
/// connection never reach the tunnel's owner.
pub proof fn lemma_create_fails_with_setup_error(s: SessionSetup, outcomes: Seq<Result<(), String>>)
    requires
        s.purpose == Purpose::Create,
        create_phase(s.phase),
    ensures
        create_phase(run(s, outcomes).phase),
        run(s, outcomes).phase matches SetupPhase::Failed { error } ==> error.is_setup_error(),
    decreases outcomes.len(),
{
    if outcomes.len() > 0 {
        lemma_create_fails_with_setup_error(s, outcomes.drop_last());
        lemma_run_keeps_settings(s, outcomes.drop_last());
    }
}

} // verus!

use redistal::config::{SshAuthMethod, SshTunnelConfig};
use redistal::error::TunnelError;
use redistal::setup::{Purpose, SessionSetup, SetupAction, SetupPhase};
use redistal::tunnel::SshTunnel;

fn password_config(password: Option<&str>, local_port: Option<u16>) -> SshTunnelConfig {
    SshTunnelConfig {
        enabled: true,
        ssh_host: "bastion.example.com".to_string(),
        ssh_port: 22,
        ssh_username: "deploy".to_string(),
        auth_method: SshAuthMethod::Password,
        ssh_password: password.map(|p| p.to_string()),
        ssh_private_key_path: None,
        ssh_passphrase: None,
        local_port,
    }
}

fn key_config(path: Option<&str>) -> SshTunnelConfig {
    SshTunnelConfig {
        enabled: true,
        ssh_host: "bastion.example.com".to_string(),
        ssh_port: 2222,
        ssh_username: "deploy".to_string(),
        auth_method: SshAuthMethod::PrivateKey,
        ssh_password: None,
        ssh_private_key_path: path.map(|p| p.to_string()),
        ssh_passphrase: Some("secret phrase".to_string()),
        local_port: None,
    }
}

fn create(config: SshTunnelConfig) -> SessionSetup {
    SessionSetup::new(config, "db.internal".to_string(), 6379, Some("/home/deploy"), Purpose::Create)
}

fn outcome(ok: bool) -> Result<(), String> {
    if ok { Ok(()) } else { Err("refused".to_string()) }
}

fn run(setup: &mut SessionSetup, outcomes: &[bool]) {
    for ok in outcomes {
        setup.step(outcome(*ok));
    }
}

#[test]
fn create_with_password_walks_every_phase() {
    let mut s = create(password_config(Some("pw"), Some(15000)));
    match s.action() {
        SetupAction::ConnectBastion { host, port, timeout_ms } => {
            assert_eq!(host, "bastion.example.com");
            assert_eq!(port, 22);
            assert_eq!(timeout_ms, 10000);
        }
        other => panic!("unexpected {:?}", other),
    }
    s.step(Ok(()));
    assert!(matches!(s.action(), SetupAction::Handshake));
    s.step(Ok(()));
    match s.action() {
        SetupAction::AuthPassword { user, password } => {
            assert_eq!(user, "deploy");
            assert_eq!(password, "pw");
        }
        other => panic!("unexpected {:?}", other),
    }
    s.step(Ok(()));
    assert!(matches!(s.action(), SetupAction::CheckAuthenticated));
    s.step(Ok(()));
    match s.action() {
        SetupAction::ProbeTarget { host, port } => {
            assert_eq!(host, "db.internal");
            assert_eq!(port, 6379);
        }
        other => panic!("unexpected {:?}", other),
    }
    s.step(Ok(()));
    assert!(matches!(s.action(), SetupAction::Bind { port: 15000 }));
    s.step(Ok(()));
    assert_eq!(s.phase, SetupPhase::Listening { port: 15000 });
    assert!(s.is_finished());
    assert_eq!(s.failure(), None);
    assert!(matches!(s.action(), SetupAction::Finished));
}

#[test]
fn create_without_port_listens_on_first_scanned_port() {
    let mut s = create(password_config(Some("pw"), None));
    run(&mut s, &[true, true, true, true, true, true]);
    assert_eq!(s.phase, SetupPhase::Listening { port: 9000 });
    let tunnel = SshTunnel::new(&s).unwrap();
    assert_eq!(tunnel.local_port(), 9000);
    assert_ne!(tunnel.local_port(), 0);
}

#[test]
fn scan_moves_to_next_port_after_failed_bind() {
    let mut s = create(password_config(Some("pw"), None));
    run(&mut s, &[true, true, true, true, true]);
    assert!(matches!(s.action(), SetupAction::Bind { port: 9000 }));
    s.step(outcome(false));
    assert!(matches!(s.action(), SetupAction::Bind { port: 9001 }));
    s.step(outcome(false));
    s.step(Ok(()));
    assert_eq!(s.phase, SetupPhase::Listening { port: 9002 });
}

#[test]
fn scan_fails_after_last_port() {
    let mut s = create(password_config(Some("pw"), None));
    run(&mut s, &[true, true, true, true, true]);
    for _ in 0..999 {
        s.step(outcome(false));
    }
    assert!(matches!(s.action(), SetupAction::Bind { port: 9999 }));
    s.step(outcome(false));
    assert_eq!(s.failure(), Some(TunnelError::BindFailed { first: 9000, last: 9999 }));
}

#[test]
fn configured_port_is_not_retried() {
    let mut s = create(password_config(Some("pw"), Some(6380)));
    run(&mut s, &[true, true, true, true, true, false]);
    assert_eq!(s.failure(), Some(TunnelError::BindFailed { first: 6380, last: 6380 }));
}

#[test]
fn configured_port_zero_is_refused() {
    let mut s = create(password_config(Some("pw"), Some(0)));
    let mut binds = 0;
    for _ in 0..5 {
        if matches!(s.action(), SetupAction::Bind { .. }) {
            binds += 1;
        }
        s.step(Ok(()));
    }
    assert_eq!(binds, 0);
    assert_eq!(s.failure(), Some(TunnelError::BindFailed { first: 0, last: 0 }));
}

#[test]
fn unreachable_bastion_fails_to_connect() {
    let mut s = create(password_config(Some("pw"), None));
    s.step(outcome(false));
    assert_eq!(s.failure(), Some(TunnelError::ConnectFailed));
    s.step(Ok(()));
    assert_eq!(s.failure(), Some(TunnelError::ConnectFailed));
}

#[test]
fn failed_handshake() {
    let mut s = create(password_config(Some("pw"), None));
    run(&mut s, &[true, false]);
    assert_eq!(s.failure(), Some(TunnelError::HandshakeFailed));
}

#[test]
fn wrong_password_fails_auth_before_any_bind() {
    let mut s = create(password_config(Some("wrong"), None));
    let mut binds = 0;
    for ok in [true, true, false] {
        if matches!(s.action(), SetupAction::Bind { .. }) {
            binds += 1;
        }
        s.step(outcome(ok));
    }
    assert_eq!(s.failure(), Some(TunnelError::AuthFailed));
    assert_eq!(binds, 0);
}

#[test]
fn unauthenticated_session_fails_auth() {
    let mut s = create(password_config(Some("pw"), None));
    run(&mut s, &[true, true, true, false]);
    assert_eq!(s.failure(), Some(TunnelError::AuthFailed));
}

#[test]
fn missing_password_fails_auth() {
    let mut s = create(password_config(None, None));
    run(&mut s, &[true, true]);
    assert_eq!(s.failure(), Some(TunnelError::AuthFailed));
}

#[test]
fn missing_key_file_is_key_not_found() {
    let mut s = create(key_config(Some("~/.ssh/id_ed25519")));
    run(&mut s, &[true, true]);
    match s.action() {
        SetupAction::CheckKeyFile { path } => assert_eq!(path, "/home/deploy/.ssh/id_ed25519"),
        other => panic!("unexpected {:?}", other),
    }
    s.step(outcome(false));
    assert_eq!(
        s.failure(),
        Some(TunnelError::KeyNotFound { path: Some("/home/deploy/.ssh/id_ed25519".to_string()) })
    );
}

#[test]
fn missing_key_path_is_key_not_found() {
    let mut s = create(key_config(None));
    run(&mut s, &[true, true]);
    assert_eq!(s.failure(), Some(TunnelError::KeyNotFound { path: None }));
}

#[test]
fn rejected_key_fails_auth() {
    let mut s = create(key_config(Some("/keys/id_rsa")));
    run(&mut s, &[true, true, true]);
    match s.action() {
        SetupAction::AuthKey { user, key_path, passphrase } => {
            assert_eq!(user, "deploy");
            assert_eq!(key_path, "/keys/id_rsa");
            assert_eq!(passphrase.as_deref(), Some("secret phrase"));
        }
        other => panic!("unexpected {:?}", other),
    }
    s.step(outcome(false));
    assert_eq!(s.failure(), Some(TunnelError::AuthFailed));
}

#[test]
fn unreachable_target_fails_probe_without_bind() {
    let mut s = create(key_config(Some("/keys/id_rsa")));
    run(&mut s, &[true, true, true, true, true]);
    assert!(matches!(s.action(), SetupAction::ProbeTarget { .. }));
    s.step(Err("Channel open failure: connect failed".to_string()));
    assert_eq!(
        s.failure(),
        Some(TunnelError::ProbeFailed {
            host: "db.internal".to_string(),
            port: 6379,
            cause: "Channel open failure: connect failed".to_string(),
        })
    );
}

#[test]
fn forward_setup_opens_channel() {
    let mut s = SessionSetup::new(
        password_config(Some("pw"), None),
        "db.internal".to_string(),
        6379,
        None,
        Purpose::Forward,
    );
    run(&mut s, &[true, true, true, true]);
    assert!(matches!(s.action(), SetupAction::ClearTimeout));
    s.step(Ok(()));
    match s.action() {
        SetupAction::OpenChannel { host, port } => {
            assert_eq!(host, "db.internal");
            assert_eq!(port, 6379);
        }
        other => panic!("unexpected {:?}", other),
    }
    s.step(Ok(()));
    assert!(matches!(s.action(), SetupAction::EnterNonBlocking));
    s.step(Ok(()));
    assert_eq!(s.phase, SetupPhase::Forwarding);
}

#[test]
fn forward_channel_failure() {
    let mut s = SessionSetup::new(
        password_config(Some("pw"), None),
        "db.internal".to_string(),
        6379,
        None,
        Purpose::Forward,
    );
    run(&mut s, &[true, true, true, true, true, false]);
    assert_eq!(s.failure(), Some(TunnelError::ChannelOpenFailed));
}

#[test]
fn forward_non_blocking_failure_is_io_error() {
    let mut s = SessionSetup::new(
        password_config(Some("pw"), None),
        "db.internal".to_string(),
        6379,
        None,
        Purpose::Forward,
    );
    run(&mut s, &[true, true, true, true, true, true, false]);
    assert_eq!(s.failure(), Some(TunnelError::IoError));
}

#[test]
fn dropping_tunnel_raises_stop_flag() {
    let mut s = create(password_config(Some("pw"), Some(7000)));
    run(&mut s, &[true, true, true, true, true, true]);
    let tunnel = SshTunnel::new(&s).unwrap();
    let flag = tunnel.stop_signal();
    assert!(!flag.is_raised());
    drop(tunnel);
    assert!(flag.is_raised());
}

#[test]
fn stopping_twice_keeps_flag_raised() {
    let mut s = create(password_config(Some("pw"), Some(7001)));
    run(&mut s, &[true, true, true, true, true, true]);
    let mut tunnel = SshTunnel::new(&s).unwrap();
    let flag = tunnel.stop_signal();
    tunnel.stop();
    tunnel.stop();
    assert!(flag.is_raised());
    drop(tunnel);
    assert!(flag.is_raised());
}

#[test]
fn failed_setup_gives_no_tunnel() {
    let mut s = create(password_config(Some("wrong"), Some(7002)));
    run(&mut s, &[true, true, false]);
    match SshTunnel::new(&s) {
        Err(e) => assert_eq!(e, TunnelError::AuthFailed),
        Ok(_) => panic!("a failed setup gave a tunnel"),
    }
    let mut s = create(password_config(Some("pw"), None));
    run(&mut s, &[true, true, true, true]);
    s.step(Err("connect failed".to_string()));
    match SshTunnel::new(&s) {
        Err(e) => assert_eq!(
            e.message(),
            "SSH tunnel probe failed to reach db.internal:6379 from the SSH server: connect failed"
        ),
        Ok(_) => panic!("a failed setup gave a tunnel"),
    }
}

#[test]
fn error_messages() {
    assert_eq!(TunnelError::AuthFailed.message(), "SSH authentication failed");
    assert_eq!(TunnelError::KeyNotFound { path: None }.message(), "SSH private key path required");
    assert_eq!(
        TunnelError::KeyNotFound { path: Some("/k/id".to_string()) }.message(),
        "SSH private key file not found: /k/id"
    );
    assert_eq!(TunnelError::BindFailed { first: 6380, last: 6380 }.message(), "Failed to bind local tunnel port 6380");
    assert_eq!(
        TunnelError::BindFailed { first: 9000, last: 9999 }.message(),
        "No free local tunnel port from 9000 to 9999"
    );
    assert_eq!(TunnelError::ConnectFailed.message(), "SSH connection failed");
    assert_eq!(TunnelError::IoError.message(), "SSH tunnel transfer failed");
}

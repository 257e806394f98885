use redistal::config::{ConnectionConfig, SshAuthMethod, SshTunnelConfig};
use redistal::path::{expand_path, join_path};
use redistal::url::{client_url, decimal_string, test_url};

fn config(username: Option<&str>, password: Option<&str>, tls: bool) -> ConnectionConfig {
    ConnectionConfig {
        id: "c1".to_string(),
        name: "cache".to_string(),
        host: "cache.internal".to_string(),
        port: 6380,
        username: username.map(|s| s.to_string()),
        password: password.map(|s| s.to_string()),
        database: 3,
        use_tls: tls,
        ssh_tunnel: None,
    }
}

fn tunnel(enabled: bool) -> SshTunnelConfig {
    SshTunnelConfig {
        enabled,
        ssh_host: "bastion".to_string(),
        ssh_port: 22,
        ssh_username: "u".to_string(),
        auth_method: SshAuthMethod::Password,
        ssh_password: Some("p".to_string()),
        ssh_private_key_path: None,
        ssh_passphrase: None,
        local_port: None,
    }
}

#[test]
fn decimal_rendering() {
    assert_eq!(decimal_string(0), "0");
    assert_eq!(decimal_string(7), "7");
    assert_eq!(decimal_string(6379), "6379");
    assert_eq!(decimal_string(u64::MAX), "18446744073709551615");
}

#[test]
fn client_url_with_user_and_password() {
    assert_eq!(client_url(&config(Some("admin"), Some("pw"), false), None), "redis://admin:pw@cache.internal:6380/3");
}

#[test]
fn client_url_with_password_only() {
    assert_eq!(client_url(&config(None, Some("pw"), true), None), "rediss://:pw@cache.internal:6380/3");
}

#[test]
fn client_url_with_user_only_has_no_credentials() {
    assert_eq!(client_url(&config(Some("admin"), None, false), None), "redis://cache.internal:6380/3");
}

#[test]
fn client_url_through_tunnel() {
    let mut c = config(None, None, false);
    c.ssh_tunnel = Some(tunnel(true));
    assert_eq!(client_url(&c, Some(9001)), "redis://127.0.0.1:9001/3");
    assert_eq!(client_url(&c, None), "redis://cache.internal:6380/3");
}

#[test]
fn client_url_with_disabled_tunnel_goes_direct() {
    let mut c = config(None, None, false);
    c.ssh_tunnel = Some(tunnel(false));
    assert_eq!(client_url(&c, Some(9001)), "redis://cache.internal:6380/3");
}

#[test]
fn test_url_forms() {
    assert_eq!(test_url(&config(Some("admin"), Some("pw"), false)), "redis://admin:pw@cache.internal:6380/3");
    assert_eq!(test_url(&config(Some("admin"), None, false)), "redis://admin@cache.internal:6380/3");
    assert_eq!(test_url(&config(None, Some("pw"), true)), "rediss://:pw@cache.internal:6380/3");
    assert_eq!(test_url(&config(None, None, false)), "redis://cache.internal:6380/3");
}

#[test]
fn expand_home_path() {
    assert_eq!(expand_path("~/.ssh/id_rsa", Some("/home/me")), "/home/me/.ssh/id_rsa");
    assert_eq!(expand_path("~/.ssh/id_rsa", Some("/home/me/")), "/home/me/.ssh/id_rsa");
    assert_eq!(expand_path("~/.ssh/id_rsa", None), "~/.ssh/id_rsa");
    assert_eq!(expand_path("/etc/key", Some("/home/me")), "/etc/key");
    assert_eq!(expand_path("~user/key", Some("/home/me")), "~user/key");
    assert_eq!(expand_path("~", Some("/home/me")), "~");
    assert_eq!(expand_path("", Some("/home/me")), "");
}

#[test]
fn join_rules() {
    assert_eq!(join_path("/home/me", "/abs"), "/abs");
    assert_eq!(join_path("", "rel"), "rel");
    assert_eq!(join_path("/home/me", ""), "/home/me/");
}

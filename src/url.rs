//! Connection URLs of the database client.
use vstd::prelude::*;
use vstd::string::*;
use crate::config::ConnectionConfig;

verus! {

/// The character of the decimal digit `d`.
pub open spec fn digit_char(d: int) -> char {
    seq!['0', '1', '2', '3', '4', '5', '6', '7', '8', '9'][d]
}

/// The decimal digits of `n`, without leading zeros.
pub open spec fn decimal(n: nat) -> Seq<char>
    decreases n,
{
    if n < 10 {
        seq![digit_char(n as int)]
    } else {
        decimal(n / 10) + seq![digit_char((n % 10) as int)]
    }
}

fn digit_str(d: u64) -> (r: &'static str)
    requires
        d < 10,
    ensures
        r@ == seq![digit_char(d as int)],
{
    let digits = "0123456789";
    proof {
        reveal_strlit("0123456789");
    }
    let r = digits.substring_char(d as usize, (d + 1) as usize);
    assert(r@ =~= seq![digit_char(d as int)]);
    r
}

/// The decimal digits of `n`.
pub fn decimal_string(n: u64) -> (r: String)
    ensures
        r@ == decimal(n as nat),
    decreases n,
{
    if n < 10 {
        String::from_str(digit_str(n))
    } else {
        let mut s = decimal_string(n / 10);
        s.append(digit_str(n % 10));
        s
    }
}

/// `redis` or, over TLS, `rediss`.
pub open spec fn scheme(use_tls: bool) -> Seq<char> {
    if use_tls {
        "rediss"@
    } else {
        "redis"@
    }
}

/// The credentials part of a client URL: `user:password@` or `:password@`;
/// nothing without a password.
pub open spec fn client_auth(config: ConnectionConfig) -> Seq<char> {
    match (config.username, config.password) {
        (Some(u), Some(p)) => u@ + ":"@ + p@ + "@"@,
        (None, Some(p)) => ":"@ + p@ + "@"@,
        _ => Seq::empty(),
    }
}

/// Whether the connection goes through its tunnel: one is configured and
/// enabled, and a live tunnel listens on `tunnel_port`.
pub open spec fn via_tunnel(config: ConnectionConfig, tunnel_port: Option<u16>) -> bool {
    config.ssh_tunnel matches Some(t) && t.enabled && tunnel_port is Some
}

/// `scheme://auth host:port/database`, where host and port are the
/// tunnel's local end when the connection goes through it.
pub open spec fn client_url_spec(config: ConnectionConfig, tunnel_port: Option<u16>) -> Seq<char> {
    let host = if via_tunnel(config, tunnel_port) {
        "127.0.0.1"@
    } else {
        config.host@
    };
    let port = if via_tunnel(config, tunnel_port) {
        tunnel_port->Some_0
    } else {
        config.port
    };
    scheme(config.use_tls) + "://"@ + client_auth(config) + host + ":"@ + decimal(port as nat) + "/"@
        + decimal(config.database as nat)
}

/// The credentials part of a test URL: `user:password@`, `user@`,
/// `:password@`, or nothing.
pub open spec fn test_auth(config: ConnectionConfig) -> Seq<char> {
    match (config.username, config.password) {
        (Some(u), Some(p)) => u@ + ":"@ + p@ + "@"@,
        (Some(u), None) => u@ + "@"@,
        (None, Some(p)) => ":"@ + p@ + "@"@,
        (None, None) => Seq::empty(),
    }
}

/// `scheme://auth host:port/database`, straight to the configured host.
pub open spec fn test_url_spec(config: ConnectionConfig) -> Seq<char> {
    scheme(config.use_tls) + "://"@ + test_auth(config) + config.host@ + ":"@ + decimal(
        config.port as nat,
    ) + "/"@ + decimal(config.database as nat)
}

fn scheme_string(use_tls: bool) -> (r: String)
    ensures
        r@ == scheme(use_tls),
{
    if use_tls {
        String::from_str("rediss")
    } else {
        String::from_str("redis")
    }
}

fn address_tail(mut url: String, host: &str, port: u16, database: u8) -> (r: String)
    ensures
        r@ == url@ + host@ + ":"@ + decimal(port as nat) + "/"@ + decimal(database as nat),
{
    url.append(host);
    url.append(":");
    let p = decimal_string(port as u64);
    url.append(p.as_str());
    url.append("/");
    let d = decimal_string(database as u64);
    url.append(d.as_str());
    url
}

/// The URL that the client connects with; `tunnel_port` is the local port
/// of the connection's live tunnel, if it has one.
pub fn client_url(config: &ConnectionConfig, tunnel_port: Option<u16>) -> (r: String)
    ensures
        r@ == client_url_spec(*config, tunnel_port),
{
    let mut url = scheme_string(config.use_tls);
    url.append("://");
    match (&config.username, &config.password) {
        (Some(u), Some(p)) => {
            url.append(u.as_str());
            url.append(":");
            url.append(p.as_str());
            url.append("@");
        },
        (None, Some(p)) => {
            url.append(":");
            url.append(p.as_str());
            url.append("@");
        },
        _ => {},
    }
    let tunnelled = match (&config.ssh_tunnel, tunnel_port) {
        (Some(t), Some(_)) => t.enabled,
        _ => false,
    };
    let r = if tunnelled {
        address_tail(url, "127.0.0.1", tunnel_port.unwrap(), config.database)
    } else {
        address_tail(url, config.host.as_str(), config.port, config.database)
    };
    assert(r@ =~= client_url_spec(*config, tunnel_port));
    r
}

/// The URL with which a connection is tried out, straight to the
/// configured host.
pub fn test_url(config: &ConnectionConfig) -> (r: String)
    ensures
        r@ == test_url_spec(*config),
{
    let mut url = scheme_string(config.use_tls);
    url.append("://");
    match &config.username {
        Some(u) => {
            url.append(u.as_str());
            match &config.password {
                Some(p) => {
                    url.append(":");
                    url.append(p.as_str());
                },
                None => {},
            }
            url.append("@");
        },
        None => match &config.password {
            Some(p) => {
                url.append(":");
                url.append(p.as_str());
                url.append("@");
            },
            None => {},
        },
    }
    let r = address_tail(url, config.host.as_str(), config.port, config.database);
    assert(r@ =~= test_url_spec(*config));
    r
}

} // verus!

//! Connection settings handed to the library by its caller.
use vstd::prelude::*;

verus! {

/// How the bastion session authenticates.
#[derive(Clone, Copy, Debug, PartialEq, Eq, Structural)]
pub enum SshAuthMethod {
    Password,
    PrivateKey,
}

/// Settings of the SSH bastion through which the target is reached.
#[derive(Clone, Debug)]
pub struct SshTunnelConfig {
    pub enabled: bool,
    pub ssh_host: String,
    pub ssh_port: u16,
    pub ssh_username: String,
    pub auth_method: SshAuthMethod,
    pub ssh_password: Option<String>,
    pub ssh_private_key_path: Option<String>,
    pub ssh_passphrase: Option<String>,
    /// The local port to listen on; when absent one is chosen by scanning.
    pub local_port: Option<u16>,
}

/// Settings of one database connection, possibly reached through a tunnel.
#[derive(Clone, Debug)]
pub struct ConnectionConfig {
    pub id: String,
    pub name: String,
    pub host: String,
    pub port: u16,
    pub username: Option<String>,
    pub password: Option<String>,
    pub database: u8,
    pub use_tls: bool,
    pub ssh_tunnel: Option<SshTunnelConfig>,
}

/// What an attempt to connect reports back.
#[derive(Clone, Debug)]
pub struct ConnectionStatus {
    pub id: String,
    pub connected: bool,
    pub error: Option<String>,
}

} // verus!

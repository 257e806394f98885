//! The ways in which setting up or running a tunnel fails.
use vstd::prelude::*;
use vstd::string::*;
use crate::url::{decimal, decimal_string};

verus! {

/// Failures of the tunnel. Those from `ConnectFailed` to `BindFailed` end
/// the creation of a tunnel; `ChannelOpenFailed` and `IoError` end one
/// forwarded connection only.
#[derive(Clone, Debug, PartialEq, Eq)]
pub enum TunnelError {
    /// The TCP connection to the bastion was refused or timed out.
    ConnectFailed,
    /// The SSH handshake with the bastion failed.
    HandshakeFailed,
    /// A credential was missing or rejected.
    AuthFailed,
    /// The private-key path is missing (`None`) or the resolved path names
    /// no file.
    KeyNotFound { path: Option<String> },
    /// The bastion could not open a channel to the target `host:port`;
    /// `cause` is what the SSH library reported.
    ProbeFailed { host: String, port: u16, cause: String },
    /// No port from `first` to `last` could be bound as the local
    /// listening port.
    BindFailed { first: u16, last: u16 },
    /// A forwarded connection could not open its channel.
    ChannelOpenFailed,
    /// Reading or writing failed while forwarding.
    IoError,
}

fn copy_text(s: &Option<String>) -> (r: Option<String>)
    ensures
        r == *s,
{
    match s {
        Some(v) => Some(v.clone()),
        None => None,
    }
}

impl TunnelError {
    /// A copy of the error.
    pub fn duplicate(&self) -> (r: TunnelError)
        ensures
            r == *self,
    {
        match self {
            TunnelError::ConnectFailed => TunnelError::ConnectFailed,
            TunnelError::HandshakeFailed => TunnelError::HandshakeFailed,
            TunnelError::AuthFailed => TunnelError::AuthFailed,
            TunnelError::KeyNotFound { path } => TunnelError::KeyNotFound { path: copy_text(path) },
            TunnelError::ProbeFailed { host, port, cause } => TunnelError::ProbeFailed {
                host: host.clone(),
                port: *port,
                cause: cause.clone(),
            },
            TunnelError::BindFailed { first, last } => TunnelError::BindFailed {
                first: *first,
                last: *last,
            },
            TunnelError::ChannelOpenFailed => TunnelError::ChannelOpenFailed,
            TunnelError::IoError => TunnelError::IoError,
        }
    }

    /// Whether the error ends the creation of a tunnel, as opposed to a
    /// single forwarded connection.
    pub open spec fn is_setup_error(self) -> bool {
        !(self is ChannelOpenFailed || self is IoError)
    }
}

/// The text that describes an error to the user.
pub open spec fn message_spec(e: TunnelError) -> Seq<char> {
    match e {
        TunnelError::ConnectFailed => "SSH connection failed"@,
        TunnelError::HandshakeFailed => "SSH handshake failed"@,
        TunnelError::AuthFailed => "SSH authentication failed"@,
        TunnelError::KeyNotFound { path } => match path {
            Some(p) => "SSH private key file not found: "@ + p@,
            None => "SSH private key path required"@,
        },
        TunnelError::ProbeFailed { host, port, cause } => "SSH tunnel probe failed to reach "@
            + host@ + ":"@ + decimal(port as nat) + " from the SSH server: "@ + cause@,
        TunnelError::BindFailed { first, last } => if first == last {
            "Failed to bind local tunnel port "@ + decimal(first as nat)
        } else {
            "No free local tunnel port from "@ + decimal(first as nat) + " to "@ + decimal(
                last as nat,
            )
        },
        TunnelError::ChannelOpenFailed => "Failed to create SSH channel"@,
        TunnelError::IoError => "SSH tunnel transfer failed"@,
    }
}

impl TunnelError {
    /// The text that describes the error to the user.
    pub fn message(&self) -> (r: String)
        ensures
            r@ == message_spec(*self),
    {
        match self {
            TunnelError::ConnectFailed => String::from_str("SSH connection failed"),
            TunnelError::HandshakeFailed => String::from_str("SSH handshake failed"),
            TunnelError::AuthFailed => String::from_str("SSH authentication failed"),
            TunnelError::KeyNotFound { path } => match path {
                Some(p) => String::from_str("SSH private key file not found: ").concat(p.as_str()),
                None => String::from_str("SSH private key path required"),
            },
            TunnelError::ProbeFailed { host, port, cause } => {
                let mut m = String::from_str("SSH tunnel probe failed to reach ");
                m.append(host.as_str());
                m.append(":");
                let p = decimal_string(*port as u64);
                m.append(p.as_str());
                m.append(" from the SSH server: ");
                m.append(cause.as_str());
                m
            },
            TunnelError::BindFailed { first, last } => if *first == *last {
                let p = decimal_string(*first as u64);
                String::from_str("Failed to bind local tunnel port ").concat(p.as_str())
            } else {
                let a = decimal_string(*first as u64);
                let b = decimal_string(*last as u64);
                let mut m = String::from_str("No free local tunnel port from ");
                m.append(a.as_str());
                m.append(" to ");
                m.append(b.as_str());
                m
            },
            TunnelError::ChannelOpenFailed => String::from_str("Failed to create SSH channel"),
            TunnelError::IoError => String::from_str("SSH tunnel transfer failed"),
        }
    }
}

} // verus!

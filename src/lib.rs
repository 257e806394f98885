//! Tunnelled access to a database endpoint behind an SSH bastion host, and
//! the client logic around it.
//!
//! The tunnel's decisions are state machines: how a session is set up and
//! authenticated, how the local port is chosen (`setup`), how each accepted
//! connection pumps bytes in both directions (`pump`), and when the accept
//! loop stops (`tunnel`). The program around the library performs the
//! socket and SSH work that each state asks for and reports the outcome.
//!
//! The client side holds the saved connections (`store`), the connection
//! URLs (`url`), and what is read out of server replies (`reply`, `keys`).
pub mod config;
pub mod error;
pub mod keys;
pub mod path;
pub mod pump;
pub mod reply;
pub mod setup;
pub mod store;
pub mod text;
pub mod tunnel;
pub mod url;

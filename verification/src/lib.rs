//! The decision core of an interactive SSH session engine.
//!
//! Everything here is free of I/O: the functions take plain values, decide,
//! and hand plain values back. Opening sockets, running worker threads and
//! emitting events to a user interface is left to the program around this
//! library, which feeds the outcomes of that work back in as events.

use vstd::prelude::*;

pub mod attempt;
pub mod auth;
pub mod calendar;
pub mod channel;
pub mod client;
pub mod coalescer;
pub mod config;
pub mod connect;
pub mod connection;
pub mod keys;
pub mod manager;
pub mod order;
pub mod paths;
pub mod pump;
pub mod session;
pub mod sftp;
pub mod status;
pub mod store;
pub mod text;

verus! {

/// How a stored session authenticates.
#[derive(Debug, Clone, PartialEq, Eq)]
pub enum AuthMethod {
    Password,
    PublicKey { key_path: String },
    Agent,
}

/// What a stored session speaks.
#[derive(Debug, Clone, Copy, PartialEq, Eq)]
pub enum Protocol {
    SSH,
    SFTP,
    Local,
}

/// Where a session stands in its life.
#[derive(Debug, Clone, PartialEq, Eq)]
pub enum ConnectionStatus {
    Connected,
    Disconnected,
    Connecting,
    Error(String),
}

/// A stored session: what the user configured, not a live connection.
#[derive(Debug, Clone, PartialEq, Eq)]
pub struct Session {
    pub id: String,
    pub name: String,
    pub host: String,
    pub port: u16,
    pub username: String,
    pub auth_method: AuthMethod,
    pub protocol: Protocol,
    pub created_at: String,
    pub last_used: Option<String>,
}

/// One row of a remote directory listing.
#[derive(Debug, Clone, PartialEq, Eq)]
pub struct FileItem {
    pub name: String,
    pub path: String,
    pub size: u64,
    pub is_directory: bool,
    pub modified: String,
}

} // verus!

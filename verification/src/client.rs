//! What is known of the SSH client of one session: what it connects to, and
//! whether it is connected.

use vstd::prelude::*;
use crate::config::SshConfig;

verus! {

/// Why a client refused a request.
#[derive(Debug, Clone, Copy, PartialEq, Eq, Structural)]
pub enum ClientError {
    /// A channel was asked of a client that is not connected.
    NotConnected,
}

/// The SSH client of one session.
pub struct SshClient {
    config: SshConfig,
    connected: bool,
}

impl SshClient {
    /// A client for `config`, not yet connected.
    pub fn new(config: SshConfig) -> (client: SshClient)
        ensures
            client.config() == config,
            !client.connected(),
    {
        SshClient { config, connected: false }
    }

    /// What the client connects to.
    pub closed spec fn config(&self) -> SshConfig {
        self.config
    }

    /// Whether the client is connected.
    pub closed spec fn connected(&self) -> bool {
        self.connected
    }

    /// What the client connects to.
    pub fn target(&self) -> (config: &SshConfig)
        ensures
            *config == self.config(),
    {
        &self.config
    }

    /// Takes note of how an attempt to connect and authenticate ended: the
    /// client is connected where it came through, and stays as it was where
    /// it did not.
    pub fn connect(&mut self, came_through: bool)
        ensures
            final(self).config() == old(self).config(),
            final(self).connected() == (old(self).connected() || came_through),
    {
        if came_through {
            self.connected = true;
        }
    }

    /// Whether a channel can be opened: only on a connected client.
    pub fn create_channel(&self) -> (allowed: Result<(), ClientError>)
        ensures
            allowed == if self.connected() {
                Ok::<(), ClientError>(())
            } else {
                Err::<(), ClientError>(ClientError::NotConnected)
            },
    {
        if self.connected {
            Ok(())
        } else {
            Err(ClientError::NotConnected)
        }
    }

    /// Disconnects the client. Says whether there was a connection to end;
    /// disconnecting again ends nothing.
    pub fn disconnect(&mut self) -> (was_connected: bool)
        ensures
            was_connected == old(self).connected(),
            !final(self).connected(),
            final(self).config() == old(self).config(),
    {
        let was_connected = self.connected;
        self.connected = false;
        was_connected
    }

    /// Whether the client is connected.
    pub fn is_connected(&self) -> (yes: bool)
        ensures
            yes == self.connected(),
    {
        self.connected
    }
}

} // verus!

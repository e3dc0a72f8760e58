//! A connect attempt from the first byte to the running shell: its phases,
//! the kind of error that each phase can end in, and the lines that tell the
//! user how far it has come.
//!
//! Nothing is retried here. Whatever fails ends the attempt, is reported
//! once, and is handed back to the caller, who may issue a new connect.

use vstd::prelude::*;
use vstd::string::*;
use crate::auth::{attempt_line, attempt_message, Attempt, AttemptView, AuthError};
use crate::text::{decimal_of, decimal_text};

verus! {

/// Seconds after which an attempt to reach the host is given up. Reads and
/// writes on an established session have no timeout.
pub const CONNECT_TIMEOUT_SECS: u64 = 10;

/// The phases of a connect attempt, in their order.
#[derive(Debug, Clone, Copy, PartialEq, Eq, Structural)]
pub enum ConnectPhase {
    /// Turn the host name and the port into a socket address.
    Resolve,
    /// Open the network stream, within the connect timeout.
    Transport,
    /// Negotiate the protocol.
    Handshake,
    /// Run the authentication chain.
    Authenticate,
    /// Bring up the channel, the pseudo-terminal and the shell.
    Channel,
    /// Start the three workers.
    StartPumps,
}

/// The kinds of error of the engine.
#[derive(Debug, Clone, Copy, PartialEq, Eq, Structural)]
pub enum ErrorKind {
    /// The host could not be resolved or reached.
    Transport,
    /// The protocol negotiation failed.
    Handshake,
    /// Every credential was refused.
    Auth,
    /// The channel, the pseudo-terminal or the shell could not be set up.
    Channel,
    /// A read or a write failed on an established session.
    Io,
}

/// What follows a phase.
#[derive(Debug, Clone, Copy, PartialEq, Eq, Structural)]
pub enum PhaseVerdict {
    /// Go on with this phase.
    Next(ConnectPhase),
    /// The session is connected.
    Connected,
    /// The attempt has ended with an error of this kind.
    Failed(ErrorKind),
}

/// The kind of error in which a failure of `phase` ends.
pub open spec fn error_kind_of(phase: ConnectPhase) -> ErrorKind {
    match phase {
        ConnectPhase::Resolve => ErrorKind::Transport,
        ConnectPhase::Transport => ErrorKind::Transport,
        ConnectPhase::Handshake => ErrorKind::Handshake,
        ConnectPhase::Authenticate => ErrorKind::Auth,
        ConnectPhase::Channel => ErrorKind::Channel,
        ConnectPhase::StartPumps => ErrorKind::Io,
    }
}

/// What follows `phase`, which went through if `ok`.
pub open spec fn phase_verdict(phase: ConnectPhase, ok: bool) -> PhaseVerdict {
    if !ok {
        PhaseVerdict::Failed(error_kind_of(phase))
    } else {
        match phase {
            ConnectPhase::Resolve => PhaseVerdict::Next(ConnectPhase::Transport),
            ConnectPhase::Transport => PhaseVerdict::Next(ConnectPhase::Handshake),
            ConnectPhase::Handshake => PhaseVerdict::Next(ConnectPhase::Authenticate),
            ConnectPhase::Authenticate => PhaseVerdict::Next(ConnectPhase::Channel),
            ConnectPhase::Channel => PhaseVerdict::Next(ConnectPhase::StartPumps),
            ConnectPhase::StartPumps => PhaseVerdict::Connected,
        }
    }
}

/// Decides what follows `phase`: the next phase where it went through, and
/// the end of the attempt where it did not.
pub fn after_phase(phase: ConnectPhase, ok: bool) -> (verdict: PhaseVerdict)
    ensures
        verdict == phase_verdict(phase, ok),
{
    if !ok {
        PhaseVerdict::Failed(
            match phase {
                ConnectPhase::Resolve => ErrorKind::Transport,
                ConnectPhase::Transport => ErrorKind::Transport,
                ConnectPhase::Handshake => ErrorKind::Handshake,
                ConnectPhase::Authenticate => ErrorKind::Auth,
                ConnectPhase::Channel => ErrorKind::Channel,
                ConnectPhase::StartPumps => ErrorKind::Io,
            },
        )
    } else {
        match phase {
            ConnectPhase::Resolve => PhaseVerdict::Next(ConnectPhase::Transport),
            ConnectPhase::Transport => PhaseVerdict::Next(ConnectPhase::Handshake),
            ConnectPhase::Handshake => PhaseVerdict::Next(ConnectPhase::Authenticate),
            ConnectPhase::Authenticate => PhaseVerdict::Next(ConnectPhase::Channel),
            ConnectPhase::Channel => PhaseVerdict::Next(ConnectPhase::StartPumps),
            ConnectPhase::StartPumps => PhaseVerdict::Connected,
        }
    }
}

/// `host:port`.
pub open spec fn address_of(host: Seq<char>, port: u16) -> Seq<char> {
    host + ":"@ + decimal_of(port as nat)
}

/// The address to resolve for `host` and `port`.
pub fn socket_address(host: &str, port: u16) -> (address: String)
    ensures
        address@ == address_of(host@, port),
{
    String::from_str(host).concat(":").concat(decimal_text(port as u64).as_str())
}

/// `user@host`.
pub open spec fn login_of(username: Seq<char>, host: Seq<char>) -> Seq<char> {
    username + "@"@ + host
}

/// The line that opens a connect attempt.
pub fn connecting_message(username: &str, host: &str, port: u16) -> (line: String)
    ensures
        line@ == "Connecting to "@ + login_of(username@, host@) + ":"@ + decimal_of(port as nat),
{
    let line = String::from_str("Connecting to ").concat(username).concat("@").concat(
        host,
    ).concat(":").concat(decimal_text(port as u64).as_str());
    line
}

/// The line that closes a connect attempt that came through.
pub fn connected_message(username: &str, host: &str) -> (line: String)
    ensures
        line@ == "Connected to "@ + login_of(username@, host@),
{
    let line = String::from_str("Connected to ").concat(username).concat("@").concat(host);
    line
}

/// What a failure of `phase` is reported as: what could not be done, and
/// the reason given.
pub open spec fn phase_failure_text(phase: ConnectPhase, reason: Seq<char>) -> Seq<char> {
    (match phase {
        ConnectPhase::Resolve => "Failed to resolve address: "@,
        ConnectPhase::Transport => "Failed to connect: "@,
        ConnectPhase::Handshake => "SSH handshake failed: "@,
        ConnectPhase::Authenticate => "Authentication failed: "@,
        ConnectPhase::Channel => "Failed to set up the terminal: "@,
        ConnectPhase::StartPumps => "Failed to start the session workers: "@,
    }) + reason
}

/// The text of the error for a failure of `phase`.
pub fn phase_failure_message(phase: ConnectPhase, reason: &str) -> (text: String)
    ensures
        text@ == phase_failure_text(phase, reason@),
{
    let head = match phase {
        ConnectPhase::Resolve => "Failed to resolve address: ",
        ConnectPhase::Transport => "Failed to connect: ",
        ConnectPhase::Handshake => "SSH handshake failed: ",
        ConnectPhase::Authenticate => "Authentication failed: ",
        ConnectPhase::Channel => "Failed to set up the terminal: ",
        ConnectPhase::StartPumps => "Failed to start the session workers: ",
    };
    String::from_str(head).concat(reason)
}

/// The lines of `attempts`, one per attempt, each with its number.
pub open spec fn trail_text(attempts: Seq<AttemptView>) -> Seq<char>
    decreases attempts.len(),
{
    if attempts.len() == 0 {
        Seq::empty()
    } else {
        trail_text(attempts.drop_last()) + decimal_of(attempts.len()) + ". "@ + attempt_line(
            attempts.last(),
        ) + "\n"@
    }
}

/// What an exhausted authentication chain is reported as: every attempt in
/// the order in which it was made, and what to check.
pub open spec fn auth_error_text(attempts: Seq<AttemptView>) -> Seq<char> {
    "Authentication failed. Tried:\n"@ + trail_text(attempts)
        + "Please check that the key files exist with permissions 600, are in a supported format, and match the server's authorized_keys"@
}

/// The text of the error for a chain that ran out with the record
/// `attempts`.
pub fn attempts_message(attempts: &Vec<Attempt>) -> (text: String)
    ensures
        text@ == auth_error_text(attempts@.map_values(|a: Attempt| a@)),
{
    let ghost views = attempts@.map_values(|a: Attempt| a@);
    let mut text = String::from_str("Authentication failed. Tried:\n");
    let mut i: usize = 0;
    while i < attempts.len()
        invariant
            i <= attempts.len(),
            views == attempts@.map_values(|a: Attempt| a@),
            text@ == "Authentication failed. Tried:\n"@ + trail_text(views.take(i as int)),
        decreases attempts.len() - i,
    {
        let ghost head = views.take(i as int);
        let ghost more = views.take(i + 1);
        proof {
            assert(more.drop_last() =~= head);
        }
        let number = decimal_text((i + 1) as u64);
        let line = attempt_message(&attempts[i]);
        text = text.concat(number.as_str()).concat(". ").concat(line.as_str()).concat("\n");
        i = i + 1;
    }
    assert(views.take(views.len() as int) =~= views);
    text.concat(
        "Please check that the key files exist with permissions 600, are in a supported format, and match the server's authorized_keys",
    )
}

/// The text of the error for an exhausted authentication chain.
pub fn auth_error_message(error: &AuthError) -> (text: String)
    ensures
        text@ == auth_error_text(error@),
{
    attempts_message(&error.attempts)
}

/// Why a connect attempt ended without a connection.
#[derive(Debug, Clone, PartialEq, Eq)]
pub enum ConnectError {
    /// The identifier has a connection already; nothing was tried.
    AlreadyConnected,
    /// The host could not be resolved or reached; the text says why.
    Transport(String),
    /// The protocol negotiation failed; the text says why.
    Handshake(String),
    /// Every credential was refused.
    Auth(AuthError),
    /// The channel, the pseudo-terminal or the shell could not be set up;
    /// the text says which and why.
    Channel(String),
    /// The workers could not be started; the text says why.
    Io(String),
}

/// The text of `error` for the user.
pub fn connect_error_message(error: &ConnectError) -> (text: String)
    ensures
        text@ == match error {
            ConnectError::AlreadyConnected => "Session is already connected"@,
            ConnectError::Transport(reason) => reason@,
            ConnectError::Handshake(reason) => reason@,
            ConnectError::Auth(trail) => auth_error_text(trail@),
            ConnectError::Channel(reason) => reason@,
            ConnectError::Io(reason) => reason@,
        },
{
    match error {
        ConnectError::AlreadyConnected => String::from_str("Session is already connected"),
        ConnectError::Transport(reason) => reason.clone(),
        ConnectError::Handshake(reason) => reason.clone(),
        ConnectError::Auth(trail) => auth_error_message(trail),
        ConnectError::Channel(reason) => reason.clone(),
        ConnectError::Io(reason) => reason.clone(),
    }
}

} // verus!

//! The table of sessions that the user has set up, each with what it is,
//! where it stands, and which parts of it are up.
//!
//! The table holds no sockets and no terminals: the program around this
//! library keeps those, and tells the table what it has brought up and what
//! it has torn down.

use vstd::prelude::*;
use vstd::string::*;
use crate::channel::TerminalSize;
use crate::config::SshConfig;
use crate::text::str_equal;

verus! {

/// Where a session of the table stands.
#[derive(Debug, Clone, PartialEq, Eq)]
pub enum SessionStatus {
    Disconnected,
    Connecting,
    Connected,
    Error(String),
}

/// What a session connects to.
#[derive(Debug, Clone, PartialEq, Eq)]
pub enum SessionType {
    /// A remote shell over SSH.
    Ssh(SshConfig),
    /// A shell on this machine; `shell` names the program, where the user
    /// chose one.
    Local { shell: Option<String> },
}

/// A session as the user sees it.
#[derive(Debug, Clone, PartialEq, Eq)]
pub struct SessionInfo {
    pub id: String,
    pub name: String,
    pub session_type: SessionType,
    pub status: SessionStatus,
    pub created_at: String,
    pub last_connected: Option<String>,
}

/// The kind of terminal that a session runs.
#[derive(Debug, Clone, Copy, PartialEq, Eq, Structural)]
pub enum TerminalType {
    Ssh,
    Local,
}

/// A terminal that runs: its kind and its size.
#[derive(Debug, Clone, Copy, PartialEq, Eq, Structural)]
pub struct Terminal {
    pub kind: TerminalType,
    pub size: TerminalSize,
}

/// A session of the table: what the user sees of it, and which of its parts
/// are up.
#[derive(Debug, Clone, PartialEq, Eq)]
pub struct ActiveSession {
    pub info: SessionInfo,
    /// Whether an SSH client is connected.
    pub ssh_client: bool,
    /// The terminal, where one runs.
    pub terminal: Option<Terminal>,
    /// Whether an SFTP client is up.
    pub sftp_client: bool,
}

/// Why the table refused a request.
#[derive(Debug, Clone, Copy, PartialEq, Eq, Structural)]
pub enum SessionError {
    /// The identifier is not in the table.
    SessionNotFound,
    /// The session runs no terminal.
    NoActiveTerminal,
    /// SFTP was asked of a session without an SSH client.
    SftpNeedsSsh,
    /// A listing was asked of a session without an SFTP client.
    NoSftpSession,
}

/// What is to be torn down when a session is disconnected.
#[derive(Debug, Clone, Copy, PartialEq, Eq, Structural)]
pub struct Teardown {
    /// Disconnect the SSH client.
    pub ssh_client: bool,
    /// Close this terminal: an SSH terminal by ending its channel, a local
    /// one by killing its shell.
    pub terminal: Option<TerminalType>,
}

/// The text of `error` for the user.
pub fn session_error_message(error: SessionError) -> (text: &'static str)
    ensures
        text@ == match error {
            SessionError::SessionNotFound => "Session not found"@,
            SessionError::NoActiveTerminal => "No active terminal"@,
            SessionError::SftpNeedsSsh => "SFTP is only available for SSH sessions"@,
            SessionError::NoSftpSession => "No SFTP session available"@,
        },
{
    match error {
        SessionError::SessionNotFound => "Session not found",
        SessionError::NoActiveTerminal => "No active terminal",
        SessionError::SftpNeedsSsh => "SFTP is only available for SSH sessions",
        SessionError::NoSftpSession => "No SFTP session available",
    }
}

/// Index of the first session with the identifier `id`, or the number of
/// sessions where there is none.
pub open spec fn index_of(sessions: Seq<ActiveSession>, id: Seq<char>) -> int
    decreases sessions.len(),
{
    if sessions.len() == 0 {
        0
    } else if sessions[0].info.id@ == id {
        0
    } else {
        1 + index_of(sessions.drop_first(), id)
    }
}

/// Whether `id` is in the table.
pub open spec fn knows(sessions: Seq<ActiveSession>, id: Seq<char>) -> bool {
    index_of(sessions, id) < sessions.len()
}

/// `index_of` is the one index that holds `id` with no session of that
/// identifier before it.
pub proof fn lemma_index_is(sessions: Seq<ActiveSession>, id: Seq<char>, k: int)
    requires
        0 <= k <= sessions.len(),
        forall|j: int| 0 <= j < k ==> (#[trigger] sessions[j]).info.id@ != id,
        k < sessions.len() ==> sessions[k].info.id@ == id,
    ensures
        index_of(sessions, id) == k,
    decreases sessions.len(),
{
    if sessions.len() > 0 && k > 0 {
        lemma_index_is(sessions.drop_first(), id, k - 1);
    }
}

/// A session that has just been set up: nothing of it is up.
pub open spec fn idle(info: SessionInfo) -> ActiveSession {
    ActiveSession { info, ssh_client: false, terminal: None, sftp_client: false }
}

/// `session` with the status `status`.
pub open spec fn with_status(session: ActiveSession, status: SessionStatus) -> ActiveSession {
    ActiveSession { info: SessionInfo { status, ..session.info }, ..session }
}

/// The kind of terminal that a session of type `session_type` runs.
pub open spec fn terminal_of(session_type: SessionType) -> TerminalType {
    match session_type {
        SessionType::Ssh(_) => TerminalType::Ssh,
        SessionType::Local { .. } => TerminalType::Local,
    }
}

/// `session` once it is connected at the time `now`: its terminal runs at
/// the default size, and an SSH session has its client.
pub open spec fn brought_up(session: ActiveSession, now: String) -> ActiveSession {
    ActiveSession {
        info: SessionInfo {
            status: SessionStatus::Connected,
            last_connected: Some(now),
            ..session.info
        },
        ssh_client: session.info.session_type is Ssh,
        terminal: Some(
            Terminal {
                kind: terminal_of(session.info.session_type),
                size: TerminalSize { cols: 80, rows: 24, width: 640, height: 480 },
            },
        ),
        sftp_client: session.sftp_client,
    }
}

/// `session` once it is disconnected: nothing of it is up.
pub open spec fn torn_down(session: ActiveSession) -> ActiveSession {
    ActiveSession {
        info: SessionInfo { status: SessionStatus::Disconnected, ..session.info },
        ssh_client: false,
        terminal: None,
        sftp_client: false,
    }
}

/// The table of sessions.
pub struct SessionManager {
    sessions: Vec<ActiveSession>,
}

impl View for SessionManager {
    type V = Seq<ActiveSession>;

    closed spec fn view(&self) -> Seq<ActiveSession> {
        self.sessions@
    }
}

impl SessionManager {
    /// An empty table.
    pub fn new() -> (table: SessionManager)
        ensures
            table@.len() == 0,
    {
        SessionManager { sessions: Vec::new() }
    }

    fn find(&self, session_id: &str) -> (at: usize)
        ensures
            at == index_of(self@, session_id@),
            at <= self@.len(),
    {
        let mut at: usize = 0;
        while at < self.sessions.len() && !str_equal(
            self.sessions[at].info.id.as_str(),
            session_id,
        )
            invariant
                at <= self.sessions.len(),
                forall|j: int| 0 <= j < at ==> (#[trigger] self@[j]).info.id@ != session_id@,
            decreases self.sessions.len() - at,
        {
            at = at + 1;
        }
        proof {
            lemma_index_is(self@, session_id@, at as int);
        }
        at
    }

    /// Puts a session into the table, with nothing of it up, and hands back
    /// its identifier. A session that the table holds under the same
    /// identifier is replaced.
    pub fn create_session(&mut self, session_info: SessionInfo) -> (id: String)
        ensures
            id@ == session_info.id@,
            final(self)@ == if knows(old(self)@, session_info.id@) {
                old(self)@.update(index_of(old(self)@, session_info.id@), idle(session_info))
            } else {
                old(self)@.push(idle(session_info))
            },
    {
        let id = session_info.id.clone();
        let at = self.find(id.as_str());
        let session = ActiveSession {
            info: session_info,
            ssh_client: false,
            terminal: None,
            sftp_client: false,
        };
        if at < self.sessions.len() {
            self.sessions.set(at, session);
        } else {
            self.sessions.push(session);
        }
        id
    }

    /// Begins to connect the session: its status becomes `Connecting`.
    /// Hands back what the session connects to.
    pub fn connect_session(&mut self, session_id: &str) -> (target: Result<
        &SessionType,
        SessionError,
    >)
        ensures
            ({
                let at = index_of(old(self)@, session_id@);
                if knows(old(self)@, session_id@) {
                    &&& final(self)@ == old(self)@.update(
                        at,
                        with_status(old(self)@[at], SessionStatus::Connecting),
                    )
                    &&& target matches Ok(kind) && *kind == old(self)@[at].info.session_type
                } else {
                    &&& final(self)@ == old(self)@
                    &&& target matches Err(SessionError::SessionNotFound)
                }
            }),
    {
        let at = self.find(session_id);
        if at >= self.sessions.len() {
            return Err(SessionError::SessionNotFound);
        }
        self.sessions[at].info.status = SessionStatus::Connecting;
        Ok(&self.sessions[at].info.session_type)
    }

    /// Takes note of how the connect attempt of the session ended. A
    /// session that came up is `Connected`, with `now` as the time of its
    /// last connect, its terminal at the default size, and, for an SSH
    /// session, its client. A session that did not is in `Error`, with the
    /// reason as message.
    pub fn finish_connect(&mut self, session_id: &str, outcome: Result<(), String>, now: String)
        -> (done: Result<(), SessionError>)
        ensures
            ({
                let at = index_of(old(self)@, session_id@);
                if knows(old(self)@, session_id@) {
                    &&& done is Ok
                    &&& final(self)@ == old(self)@.update(
                        at,
                        match outcome {
                            Ok(_) => brought_up(old(self)@[at], now),
                            Err(why) => with_status(old(self)@[at], SessionStatus::Error(why)),
                        },
                    )
                } else {
                    &&& final(self)@ == old(self)@
                    &&& done matches Err(SessionError::SessionNotFound)
                }
            }),
    {
        let at = self.find(session_id);
        if at >= self.sessions.len() {
            return Err(SessionError::SessionNotFound);
        }
        match outcome {
            Ok(_) => {
                let kind = match self.sessions[at].info.session_type {
                    SessionType::Ssh(_) => TerminalType::Ssh,
                    SessionType::Local { .. } => TerminalType::Local,
                };
                self.sessions[at].ssh_client = match kind {
                    TerminalType::Ssh => true,
                    TerminalType::Local => false,
                };
                self.sessions[at].terminal = Some(Terminal { kind, size: TerminalSize::default() });
                self.sessions[at].info.status = SessionStatus::Connected;
                self.sessions[at].info.last_connected = Some(now);
            },
            Err(why) => {
                self.sessions[at].info.status = SessionStatus::Error(why);
            },
        }
        Ok(())
    }

    /// Disconnects the session: it becomes `Disconnected`, with nothing of
    /// it up. Hands back what the caller has to tear down.
    pub fn disconnect_session(&mut self, session_id: &str) -> (teardown: Result<
        Teardown,
        SessionError,
    >)
        ensures
            ({
                let at = index_of(old(self)@, session_id@);
                if knows(old(self)@, session_id@) {
                    &&& final(self)@ == old(self)@.update(at, torn_down(old(self)@[at]))
                    &&& teardown == Ok::<Teardown, SessionError>(
                        Teardown {
                            ssh_client: old(self)@[at].ssh_client,
                            terminal: match old(self)@[at].terminal {
                                Some(running) => Some(running.kind),
                                None => None,
                            },
                        },
                    )
                } else {
                    &&& final(self)@ == old(self)@
                    &&& teardown == Err::<Teardown, SessionError>(SessionError::SessionNotFound)
                }
            }),
    {
        let at = self.find(session_id);
        if at >= self.sessions.len() {
            return Err(SessionError::SessionNotFound);
        }
        let teardown = Teardown {
            ssh_client: self.sessions[at].ssh_client,
            terminal: match self.sessions[at].terminal {
                Some(running) => Some(running.kind),
                None => None,
            },
        };
        self.sessions[at].ssh_client = false;
        self.sessions[at].terminal = None;
        self.sessions[at].sftp_client = false;
        self.sessions[at].info.status = SessionStatus::Disconnected;
        Ok(teardown)
    }

    /// What the user sees of the session.
    pub fn get_session_info(&self, session_id: &str) -> (info: Result<&SessionInfo, SessionError>)
        ensures
            match info {
                Ok(found) => knows(self@, session_id@) && *found == self@[index_of(
                    self@,
                    session_id@,
                )].info,
                Err(error) => !knows(self@, session_id@) && error
                    == SessionError::SessionNotFound,
            },
    {
        let at = self.find(session_id);
        if at >= self.sessions.len() {
            return Err(SessionError::SessionNotFound);
        }
        Ok(&self.sessions[at].info)
    }

    /// What the user sees of every session, in the order of the table.
    pub fn list_sessions(&self) -> (infos: Vec<&SessionInfo>)
        ensures
            infos@.len() == self@.len(),
            forall|i: int| 0 <= i < infos@.len() ==> *(#[trigger] infos@[i]) == self@[i].info,
    {
        let mut infos: Vec<&SessionInfo> = Vec::new();
        let mut i: usize = 0;
        while i < self.sessions.len()
            invariant
                i <= self.sessions.len(),
                infos@.len() == i,
                forall|j: int| 0 <= j < i ==> *(#[trigger] infos@[j]) == self@[j].info,
            decreases self.sessions.len() - i,
        {
            infos.push(&self.sessions[i].info);
            i = i + 1;
        }
        infos
    }

    /// Whether input for the session is to be forwarded: it is where the
    /// session runs a terminal, and is dropped where it runs none. An
    /// unknown identifier is refused.
    pub fn send_input(&self, session_id: &str) -> (forward: Result<bool, SessionError>)
        ensures
            forward == if knows(self@, session_id@) {
                Ok::<bool, SessionError>(self@[index_of(self@, session_id@)].terminal is Some)
            } else {
                Err::<bool, SessionError>(SessionError::SessionNotFound)
            },
    {
        let at = self.find(session_id);
        if at >= self.sessions.len() {
            return Err(SessionError::SessionNotFound);
        }
        Ok(self.sessions[at].terminal.is_some())
    }

    /// Gives the terminal of the session a new size. Hands back the kind of
    /// terminal whose window is to be changed. A session without a terminal
    /// is refused, and so is an identifier that the table does not hold:
    /// neither has an active terminal.
    pub fn resize_terminal(&mut self, session_id: &str, size: TerminalSize) -> (resized: Result<
        TerminalType,
        SessionError,
    >)
        ensures
            ({
                let at = index_of(old(self)@, session_id@);
                if knows(old(self)@, session_id@) && old(self)@[at].terminal is Some {
                    &&& resized == Ok::<TerminalType, SessionError>(
                        old(self)@[at].terminal->Some_0.kind,
                    )
                    &&& final(self)@ == old(self)@.update(
                        at,
                        ActiveSession {
                            terminal: Some(
                                Terminal { kind: old(self)@[at].terminal->Some_0.kind, size },
                            ),
                            ..old(self)@[at]
                        },
                    )
                } else {
                    &&& resized == Err::<TerminalType, SessionError>(
                        SessionError::NoActiveTerminal,
                    )
                    &&& final(self)@ == old(self)@
                }
            }),
    {
        let at = self.find(session_id);
        if at >= self.sessions.len() {
            return Err(SessionError::NoActiveTerminal);
        }
        match self.sessions[at].terminal {
            Some(running) => {
                self.sessions[at].terminal = Some(Terminal { kind: running.kind, size });
                Ok(running.kind)
            },
            None => Err(SessionError::NoActiveTerminal),
        }
    }

    /// Takes note that an SFTP client is to be brought up for the session.
    /// Only a session with an SSH client can have one.
    pub fn create_sftp_session(&mut self, session_id: &str) -> (created: Result<
        (),
        SessionError,
    >)
        ensures
            ({
                let at = index_of(old(self)@, session_id@);
                if !knows(old(self)@, session_id@) {
                    &&& created == Err::<(), SessionError>(SessionError::SessionNotFound)
                    &&& final(self)@ == old(self)@
                } else if !old(self)@[at].ssh_client {
                    &&& created == Err::<(), SessionError>(SessionError::SftpNeedsSsh)
                    &&& final(self)@ == old(self)@
                } else {
                    &&& created is Ok
                    &&& final(self)@ == old(self)@.update(
                        at,
                        ActiveSession { sftp_client: true, ..old(self)@[at] },
                    )
                }
            }),
    {
        let at = self.find(session_id);
        if at >= self.sessions.len() {
            return Err(SessionError::SessionNotFound);
        }
        if !self.sessions[at].ssh_client {
            return Err(SessionError::SftpNeedsSsh);
        }
        self.sessions[at].sftp_client = true;
        Ok(())
    }

    /// Whether a remote directory of the session can be listed: it can
    /// where the session has an SFTP client.
    pub fn list_remote_directory(&self, session_id: &str) -> (allowed: Result<(), SessionError>)
        ensures
            allowed == if !knows(self@, session_id@) {
                Err::<(), SessionError>(SessionError::SessionNotFound)
            } else if !self@[index_of(self@, session_id@)].sftp_client {
                Err::<(), SessionError>(SessionError::NoSftpSession)
            } else {
                Ok::<(), SessionError>(())
            },
    {
        let at = self.find(session_id);
        if at >= self.sessions.len() {
            return Err(SessionError::SessionNotFound);
        }
        if !self.sessions[at].sftp_client {
            return Err(SessionError::NoSftpSession);
        }
        Ok(())
    }

    /// Takes the session out of the table.
    pub fn remove_session(&mut self, session_id: &str) -> (removed: Result<(), SessionError>)
        ensures
            ({
                let at = index_of(old(self)@, session_id@);
                if knows(old(self)@, session_id@) {
                    removed is Ok && final(self)@ == old(self)@.remove(at)
                } else {
                    final(self)@ == old(self)@ && removed == Err::<(), SessionError>(
                        SessionError::SessionNotFound,
                    )
                }
            }),
    {
        let at = self.find(session_id);
        if at >= self.sessions.len() {
            return Err(SessionError::SessionNotFound);
        }
        let _gone = self.sessions.remove(at);
        Ok(())
    }
}

} // verus!

//! The session registry: which sessions there are, where each one stands,
//! and the handle of each live connection.
//!
//! An identifier has at most one entry. `connect` reserves the identifier
//! before any network work begins, so that a second connect fails fast
//! instead of replacing a live connection; the reservation becomes a live
//! entry with `establish`, or is given up with `fail_connect`. The status of
//! an entry is stored, not derived from its presence: after the remote side
//! has ended the stream the entry is still there, as `Disconnected`, until
//! `disconnect` removes it.

use vstd::prelude::*;
use vstd::string::*;
use crate::connection::{
    flag_of, join_order, law_close_joins_in_order, pumps_held, signalled, signalled_all, started,
    ConnectionModel, InputRefused, Pump, SshConnection,
};
use crate::status::{copy_status, status_after, EventModel, SessionEvent, StatusModel};
use crate::text::str_equal;
use crate::ConnectionStatus;

verus! {

/// Why the registry refused a request.
#[derive(Debug, Clone, Copy, PartialEq, Eq, Structural)]
pub enum EngineError {
    /// `connect` for an identifier that has an entry.
    AlreadyConnected,
    /// The identifier has no entry.
    SessionNotFound,
    /// `establish` or `fail_connect` for an entry that is not connecting.
    NotConnecting,
    /// The identifier has no live channel to resize.
    NoActiveTerminal,
    /// The entry has no connection that takes input.
    NotConnected,
    /// The connection has no SFTP channel.
    SftpUnavailable,
}

/// A request to change the window of a terminal.
#[derive(Debug, Clone, Copy, PartialEq, Eq, Structural)]
pub struct WindowChange {
    pub cols: u32,
    pub rows: u32,
    pub pixel_width: u32,
    pub pixel_height: u32,
}

/// One entry of the registry as plain values.
pub struct EntryModel {
    pub session_id: Seq<char>,
    pub status: StatusModel,
    pub handle: Option<ConnectionModel>,
    /// Whether the connection has an SFTP channel beside its shell.
    pub sftp: bool,
}

/// Index of the first entry for `id`, or the number of entries where there
/// is none.
pub open spec fn position(entries: Seq<EntryModel>, id: Seq<char>) -> int
    decreases entries.len(),
{
    if entries.len() == 0 {
        0
    } else if entries[0].session_id == id {
        0
    } else {
        1 + position(entries.drop_first(), id)
    }
}

/// Whether `id` has an entry.
pub open spec fn has_session(entries: Seq<EntryModel>, id: Seq<char>) -> bool {
    position(entries, id) < entries.len()
}

/// No identifier has two entries.
pub open spec fn distinct_ids(entries: Seq<EntryModel>) -> bool {
    forall|i: int, j: int|
        0 <= i < j < entries.len() ==> (#[trigger] entries[i]).session_id != (
        #[trigger] entries[j]).session_id
}

/// The entry of an identifier that has been reserved for a connect attempt.
pub open spec fn reserved(id: Seq<char>) -> EntryModel {
    EntryModel { session_id: id, status: StatusModel::Connecting, handle: None, sftp: false }
}

/// The entry of a connection that has just come up.
pub open spec fn live(id: Seq<char>) -> EntryModel {
    EntryModel {
        session_id: id,
        status: StatusModel::Connected,
        handle: Some(started(id)),
        sftp: false,
    }
}

/// The registry after `connect`.
pub open spec fn after_connect(entries: Seq<EntryModel>, id: Seq<char>) -> Seq<EntryModel> {
    if has_session(entries, id) {
        entries
    } else {
        entries.push(reserved(id))
    }
}

/// Whether the entry of `id` is a reservation.
pub open spec fn is_connecting(entries: Seq<EntryModel>, id: Seq<char>) -> bool {
    has_session(entries, id) && entries[position(entries, id)].status is Connecting
}

/// The registry after `establish`.
pub open spec fn after_establish(entries: Seq<EntryModel>, id: Seq<char>) -> Seq<EntryModel> {
    if is_connecting(entries, id) {
        entries.update(position(entries, id), live(id))
    } else {
        entries
    }
}

/// The registry without the entry of `id`.
pub open spec fn without(entries: Seq<EntryModel>, id: Seq<char>) -> Seq<EntryModel> {
    if has_session(entries, id) {
        entries.remove(position(entries, id))
    } else {
        entries
    }
}

/// The workers that `disconnect` hands out to be joined.
pub open spec fn pumps_to_join(entries: Seq<EntryModel>, id: Seq<char>) -> Seq<Pump> {
    match entries[position(entries, id)].handle {
        Some(handle) => join_order(handle),
        None => Seq::empty(),
    }
}

/// Whether `id` has a live channel: an entry that is `Connected`.
pub open spec fn has_terminal(entries: Seq<EntryModel>, id: Seq<char>) -> bool {
    has_session(entries, id) && entries[position(entries, id)].status is Connected
}

/// The status of `id`: that of its entry, `Disconnected` where it has none.
pub open spec fn status_of(entries: Seq<EntryModel>, id: Seq<char>) -> StatusModel {
    if has_session(entries, id) {
        entries[position(entries, id)].status
    } else {
        StatusModel::Disconnected
    }
}

/// Whether `event` is something that a worker runs into: the end of the
/// stream, or a failed read or write.
pub open spec fn is_io_event(event: EventModel) -> bool {
    event is RemoteEof || event is IoFailed
}

/// Whether a report of `event` for `id` changes anything: it does for what
/// a worker runs into on a connected session.
pub open spec fn report_applies(entries: Seq<EntryModel>, id: Seq<char>, event: EventModel)
    -> bool {
    has_terminal(entries, id) && is_io_event(event)
}

/// The entry after `event`: its status moves on. The end of the stream
/// stops the reader alone; after a failed read or write all workers of the
/// session are told to stop. No worker is joined and the entry stays.
pub open spec fn entry_after(entry: EntryModel, event: EventModel) -> EntryModel {
    EntryModel {
        status: status_after(entry.status, event),
        handle: match entry.handle {
            Some(handle) => Some(
                if event is IoFailed {
                    signalled_all(handle)
                } else {
                    signalled(handle, Pump::Reader)
                },
            ),
            None => None,
        },
        ..entry
    }
}

/// The registry after a report of `event` for `id`: the entry of `id` moves
/// on, and nothing else changes.
pub open spec fn after_report(entries: Seq<EntryModel>, id: Seq<char>, event: EventModel) -> Seq<
    EntryModel,
> {
    if report_applies(entries, id, event) {
        let at = position(entries, id);
        entries.update(at, entry_after(entries[at], event))
    } else {
        entries
    }
}

/// How many workers of all connections are not joined yet.
pub open spec fn pumps_running(entries: Seq<EntryModel>) -> nat
    decreases entries.len(),
{
    if entries.len() == 0 {
        0
    } else {
        pumps_running(entries.drop_last()) + match entries.last().handle {
            Some(handle) => pumps_held(handle),
            None => 0,
        }
    }
}

/// `position` is the one index that holds `id` with no entry for `id`
/// before it.
pub proof fn lemma_position(entries: Seq<EntryModel>, id: Seq<char>, k: int)
    requires
        0 <= k <= entries.len(),
        forall|j: int| 0 <= j < k ==> (#[trigger] entries[j]).session_id != id,
        k < entries.len() ==> entries[k].session_id == id,
    ensures
        position(entries, id) == k,
    decreases entries.len(),
{
    if entries.len() > 0 && k > 0 {
        lemma_position(entries.drop_first(), id, k - 1);
    }
}

/// What `position` finds.
pub proof fn lemma_position_finds(entries: Seq<EntryModel>, id: Seq<char>)
    ensures
        0 <= position(entries, id) <= entries.len(),
        forall|j: int| 0 <= j < position(entries, id) ==> (#[trigger] entries[j]).session_id != id,
        position(entries, id) < entries.len() ==> entries[position(entries, id)].session_id == id,
    decreases entries.len(),
{
    if entries.len() > 0 && entries[0].session_id != id {
        let rest = entries.drop_first();
        lemma_position_finds(rest, id);
        assert forall|j: int| 0 <= j < position(entries, id) implies (
        #[trigger] entries[j]).session_id != id by {
            if j > 0 {
                assert(rest[j - 1] == entries[j]);
            }
        }
    }
}

struct Entry {
    session_id: String,
    status: ConnectionStatus,
    handle: Option<SshConnection>,
    sftp: bool,
}

impl View for Entry {
    type V = EntryModel;

    closed spec fn view(&self) -> EntryModel {
        EntryModel {
            session_id: self.session_id@,
            status: self.status@,
            handle: match self.handle {
                Some(h) => Some(h@),
                None => None,
            },
            sftp: self.sftp,
        }
    }
}

/// The session registry.
pub struct SshManager {
    connections: Vec<Entry>,
}

impl View for SshManager {
    type V = Seq<EntryModel>;

    closed spec fn view(&self) -> Seq<EntryModel> {
        self.connections@.map_values(|e: Entry| e@)
    }
}

impl SshManager {
    /// A registry without entries.
    pub fn new() -> (registry: SshManager)
        ensures
            registry@ == Seq::<EntryModel>::empty(),
    {
        let registry = SshManager { connections: Vec::new() };
        registry
    }

    fn find(&self, session_id: &str) -> (at: usize)
        ensures
            at == position(self@, session_id@),
            at <= self.connections.len(),
            self.connections.len() == self@.len(),
            at < self.connections.len() ==> self.connections[at as int]@ == self@[at as int],
    {
        let mut at: usize = 0;
        while at < self.connections.len() && !str_equal(
            self.connections[at].session_id.as_str(),
            session_id,
        )
            invariant
                at <= self.connections.len(),
                forall|j: int| 0 <= j < at ==> (#[trigger] self@[j]).session_id != session_id@,
            decreases self.connections.len() - at,
        {
            at = at + 1;
        }
        proof {
            lemma_position(self@, session_id@, at as int);
        }
        at
    }

    /// How many entries there are.
    pub fn session_count(&self) -> (n: usize)
        ensures
            n == self@.len(),
    {
        self.connections.len()
    }

    /// Reserves `session_id` for a connect attempt: a new entry, in status
    /// `Connecting`. Where the identifier has an entry already, nothing is
    /// changed and the request is refused.
    pub fn connect(&mut self, session_id: &str) -> (reserved: Result<(), EngineError>)
        ensures
            final(self)@ == after_connect(old(self)@, session_id@),
            reserved == if has_session(old(self)@, session_id@) {
                Err::<(), EngineError>(EngineError::AlreadyConnected)
            } else {
                Ok::<(), EngineError>(())
            },
            distinct_ids(old(self)@) ==> distinct_ids(final(self)@),
    {
        let at = self.find(session_id);
        if at < self.connections.len() {
            return Err(EngineError::AlreadyConnected);
        }
        let entry = Entry {
            session_id: String::from_str(session_id),
            status: ConnectionStatus::Connecting,
            handle: None,
            sftp: false,
        };
        self.connections.push(entry);
        proof {
            lemma_position_finds(old(self)@, session_id@);
        }
        Ok(())
    }

    /// The connect attempt for `session_id` has come through: its entry
    /// becomes `Connected` and gets the handle of a connection whose workers
    /// run.
    pub fn establish(&mut self, session_id: &str) -> (done: Result<(), EngineError>)
        ensures
            final(self)@ == after_establish(old(self)@, session_id@),
            done == if !has_session(old(self)@, session_id@) {
                Err::<(), EngineError>(EngineError::SessionNotFound)
            } else if !is_connecting(old(self)@, session_id@) {
                Err::<(), EngineError>(EngineError::NotConnecting)
            } else {
                Ok::<(), EngineError>(())
            },
            distinct_ids(old(self)@) ==> distinct_ids(final(self)@),
    {
        let at = self.find(session_id);
        if at >= self.connections.len() {
            return Err(EngineError::SessionNotFound);
        }
        match self.connections[at].status {
            ConnectionStatus::Connecting => {},
            _ => {
                return Err(EngineError::NotConnecting);
            },
        }
        let entry = Entry {
            session_id: String::from_str(session_id),
            status: ConnectionStatus::Connected,
            handle: Some(SshConnection::new(String::from_str(session_id))),
            sftp: false,
        };
        self.connections.set(at, entry);
        proof {
            lemma_position_finds(old(self)@, session_id@);
        }
        Ok(())
    }

    /// The connect attempt for `session_id` has failed: its reservation is
    /// given up, so that the caller can try again. Hands back the status to
    /// report, `Error` with `reason` as its message.
    pub fn fail_connect(&mut self, session_id: &str, reason: &str) -> (failed: Result<
        ConnectionStatus,
        EngineError,
    >)
        ensures
            final(self)@ == if is_connecting(old(self)@, session_id@) {
                without(old(self)@, session_id@)
            } else {
                old(self)@
            },
            match failed {
                Ok(status) => is_connecting(old(self)@, session_id@) && status@
                    == StatusModel::Error(reason@),
                Err(error) => !is_connecting(old(self)@, session_id@) && error == if has_session(
                    old(self)@,
                    session_id@,
                ) {
                    EngineError::NotConnecting
                } else {
                    EngineError::SessionNotFound
                },
            },
            distinct_ids(old(self)@) ==> distinct_ids(final(self)@),
    {
        let at = self.find(session_id);
        if at >= self.connections.len() {
            return Err(EngineError::SessionNotFound);
        }
        match self.connections[at].status {
            ConnectionStatus::Connecting => {},
            _ => {
                return Err(EngineError::NotConnecting);
            },
        }
        let _gone = self.connections.remove(at);
        Ok(ConnectionStatus::Error(String::from_str(reason)))
    }

    /// Removes the entry of `session_id` and closes its connection: all
    /// three shutdown flags are set, and the workers to join are handed out
    /// in the order reader, writer, input. The caller joins them before it
    /// reports the disconnect as done. An unknown identifier is refused.
    pub fn disconnect(&mut self, session_id: &str) -> (closing: Result<Vec<Pump>, EngineError>)
        ensures
            final(self)@ == without(old(self)@, session_id@),
            match closing {
                Ok(to_join) => has_session(old(self)@, session_id@) && to_join@ == pumps_to_join(
                    old(self)@,
                    session_id@,
                ),
                Err(error) => !has_session(old(self)@, session_id@) && error
                    == EngineError::SessionNotFound,
            },
            distinct_ids(old(self)@) ==> distinct_ids(final(self)@),
            distinct_ids(old(self)@) ==> !has_session(final(self)@, session_id@),
    {
        let at = self.find(session_id);
        if at >= self.connections.len() {
            return Err(EngineError::SessionNotFound);
        }
        let entry = self.connections.remove(at);
        proof {
            assert(self@ =~= old(self)@.remove(at as int));
            lemma_position_finds(old(self)@, session_id@);
            if distinct_ids(old(self)@) {
                lemma_position(self@, session_id@, self@.len() as int);
            }
        }
        match entry.handle {
            Some(mut handle) => Ok(handle.close()),
            None => Ok(Vec::new()),
        }
    }

    /// Shuts the engine down: every entry is removed and its connection
    /// closed. Hands back, for each session in the order of the registry,
    /// the workers to join.
    pub fn shutdown(&mut self) -> (closing: Vec<(String, Vec<Pump>)>)
        ensures
            final(self)@.len() == 0,
            closing@.len() == old(self)@.len(),
            forall|i: int|
                0 <= i < closing@.len() ==> (#[trigger] closing@[i]).0@ == old(self)@[i].session_id
                    && closing@[i].1@ == match old(self)@[i].handle {
                    Some(handle) => join_order(handle),
                    None => Seq::<Pump>::empty(),
                },
    {
        let mut closing: Vec<(String, Vec<Pump>)> = Vec::new();
        let mut rest: Vec<Entry> = Vec::new();
        std::mem::swap(&mut self.connections, &mut rest);
        let ghost all = rest@.map_values(|e: Entry| e@);
        // Taken off the end and put in at the front, so that the sessions
        // come out in the order of the registry.
        while rest.len() > 0
            invariant
                self@.len() == 0,
                rest@.len() + closing@.len() == all.len(),
                rest@.map_values(|e: Entry| e@) == all.take(rest@.len() as int),
                forall|i: int|
                    0 <= i < closing@.len() ==> (#[trigger] closing@[i]).0@ == all[rest@.len()
                        + i].session_id && closing@[i].1@ == match all[rest@.len() + i].handle {
                        Some(handle) => join_order(handle),
                        None => Seq::<Pump>::empty(),
                    },
            decreases rest.len(),
        {
            let ghost n = rest@.len() as int;
            let entry = rest.pop().unwrap();
            proof {
                assert(entry@ == all.take(n)[n - 1]);
            }
            let to_join = match entry.handle {
                Some(mut handle) => handle.close(),
                None => Vec::new(),
            };
            closing.insert(0, (entry.session_id, to_join));
        }
        closing
    }

    /// Queues `input` for the input worker of `session_id`. Only the entry
    /// of that session changes. An unknown identifier is refused, and so is
    /// an entry without a connection that takes input.
    pub fn send_input(&mut self, session_id: &str, input: &str) -> (sent: Result<
        (),
        EngineError,
    >)
        ensures
            ({
                let at = position(old(self)@, session_id@);
                let entry = old(self)@[at];
                if !has_session(old(self)@, session_id@) {
                    sent == Err::<(), EngineError>(EngineError::SessionNotFound) && final(self)@
                        == old(self)@
                } else if entry.handle is None || entry.handle->0.input_shutdown {
                    sent == Err::<(), EngineError>(EngineError::NotConnected) && final(self)@
                        == old(self)@
                } else {
                    sent is Ok && final(self)@ == old(self)@.update(
                        at,
                        EntryModel {
                            handle: Some(
                                ConnectionModel {
                                    inbox: entry.handle->0.inbox.push(input.spec_bytes()),
                                    ..entry.handle->0
                                },
                            ),
                            ..entry
                        },
                    )
                }
            }),
            distinct_ids(old(self)@) ==> distinct_ids(final(self)@),
    {
        let at = self.find(session_id);
        if at >= self.connections.len() {
            return Err(EngineError::SessionNotFound);
        }
        let sent = match &mut self.connections[at].handle {
            Some(handle) => handle.send_input(input),
            None => Err(InputRefused::Closed),
        };
        match sent {
            Ok(_) => {
                proof {
                    assert(self@ =~= old(self)@.update(at as int, self.connections[at as int]@));
                }
                Ok(())
            },
            Err(_) => Err(EngineError::NotConnected),
        }
    }

    /// Hands out the input queued for `session_id`, oldest first, and
    /// leaves its queue empty. Nothing is handed out for an identifier
    /// without a connection.
    pub fn take_input(&mut self, session_id: &str) -> (fragments: Vec<Vec<u8>>)
        ensures
            ({
                let at = position(old(self)@, session_id@);
                let entry = old(self)@[at];
                if has_session(old(self)@, session_id@) && entry.handle is Some {
                    &&& fragments@.map_values(|fragment: Vec<u8>| fragment@)
                        == entry.handle->0.inbox
                    &&& final(self)@ == old(self)@.update(
                        at,
                        EntryModel {
                            handle: Some(
                                ConnectionModel { inbox: Seq::empty(), ..entry.handle->0 },
                            ),
                            ..entry
                        },
                    )
                } else {
                    fragments@.len() == 0 && final(self)@ == old(self)@
                }
            }),
            distinct_ids(old(self)@) ==> distinct_ids(final(self)@),
    {
        let at = self.find(session_id);
        if at >= self.connections.len() {
            return Vec::new();
        }
        match &mut self.connections[at].handle {
            Some(handle) => handle.take_input(),
            None => Vec::new(),
        }
    }

    /// Whether the worker `pump` of `session_id` is to stop: its shutdown
    /// flag is set, or the session has no connection any more.
    pub fn shutdown_requested(&self, session_id: &str, pump: Pump) -> (stop: bool)
        ensures
            stop == ({
                let entry = self@[position(self@, session_id@)];
                if has_session(self@, session_id@) && entry.handle is Some {
                    flag_of(entry.handle->0, pump)
                } else {
                    true
                }
            }),
    {
        let at = self.find(session_id);
        if at >= self.connections.len() {
            return true;
        }
        match &self.connections[at].handle {
            Some(handle) => handle.shutdown_requested(pump),
            None => true,
        }
    }

    /// Takes note of what a worker of `session_id` ran into. The end of the
    /// stream makes a connected session `Disconnected` and stops its reader;
    /// a failed read or write makes it `Error` and tells all its workers to
    /// stop. The entry and its handle stay until `disconnect`, which joins
    /// the workers. Says whether the status has changed.
    pub fn report(&mut self, session_id: &str, event: SessionEvent) -> (changed: bool)
        ensures
            changed == report_applies(old(self)@, session_id@, event@),
            final(self)@ == after_report(old(self)@, session_id@, event@),
            distinct_ids(old(self)@) ==> distinct_ids(final(self)@),
    {
        let at = self.find(session_id);
        if at >= self.connections.len() {
            return false;
        }
        let connected = match self.connections[at].status {
            ConnectionStatus::Connected => true,
            _ => false,
        };
        if !connected {
            return false;
        }
        let failed = match &event {
            SessionEvent::IoFailed(_) => true,
            _ => false,
        };
        let next = match event {
            SessionEvent::RemoteEof => ConnectionStatus::Disconnected,
            SessionEvent::IoFailed(why) => ConnectionStatus::Error(why),
            _ => {
                return false;
            },
        };
        self.connections[at].status = next;
        match &mut self.connections[at].handle {
            Some(handle) => {
                if failed {
                    handle.request_shutdown_all();
                } else {
                    handle.request_shutdown(Pump::Reader);
                }
            },
            None => {},
        }
        true
    }

    /// Takes note that the connection of `session_id` has an SFTP channel
    /// beside its shell. Only a connected session can have one.
    pub fn enable_sftp(&mut self, session_id: &str) -> (enabled: Result<(), EngineError>)
        ensures
            ({
                let at = position(old(self)@, session_id@);
                if has_terminal(old(self)@, session_id@) {
                    &&& enabled is Ok
                    &&& final(self)@ == old(self)@.update(
                        at,
                        EntryModel { sftp: true, ..old(self)@[at] },
                    )
                } else {
                    &&& final(self)@ == old(self)@
                    &&& enabled == Err::<(), EngineError>(
                        if has_session(old(self)@, session_id@) {
                            EngineError::NotConnected
                        } else {
                            EngineError::SessionNotFound
                        },
                    )
                }
            }),
            distinct_ids(old(self)@) ==> distinct_ids(final(self)@),
    {
        let at = self.find(session_id);
        if at >= self.connections.len() {
            return Err(EngineError::SessionNotFound);
        }
        match self.connections[at].status {
            ConnectionStatus::Connected => {},
            _ => {
                return Err(EngineError::NotConnected);
            },
        }
        self.connections[at].sftp = true;
        Ok(())
    }

    /// Whether a remote directory can be listed for `session_id`: it can
    /// where the session has a connection with an SFTP channel.
    pub fn list_directory(&self, session_id: &str) -> (allowed: Result<(), EngineError>)
        ensures
            allowed == if !has_session(self@, session_id@) {
                Err::<(), EngineError>(EngineError::SessionNotFound)
            } else if !self@[position(self@, session_id@)].sftp {
                Err::<(), EngineError>(EngineError::SftpUnavailable)
            } else {
                Ok::<(), EngineError>(())
            },
    {
        let at = self.find(session_id);
        if at >= self.connections.len() {
            return Err(EngineError::SessionNotFound);
        }
        if !self.connections[at].sftp {
            return Err(EngineError::SftpUnavailable);
        }
        Ok(())
    }

    /// Asks for a new window size for the terminal of `session_id`. Hands
    /// back the window-change request to send on its channel, or refuses
    /// where the identifier has no live channel.
    pub fn resize(
        &self,
        session_id: &str,
        cols: u32,
        rows: u32,
        pixel_width: u32,
        pixel_height: u32,
    ) -> (request: Result<WindowChange, EngineError>)
        ensures
            request == if has_terminal(self@, session_id@) {
                Ok::<WindowChange, EngineError>(
                    WindowChange { cols, rows, pixel_width, pixel_height },
                )
            } else {
                Err::<WindowChange, EngineError>(EngineError::NoActiveTerminal)
            },
    {
        let at = self.find(session_id);
        if at >= self.connections.len() {
            return Err(EngineError::NoActiveTerminal);
        }
        match self.connections[at].status {
            ConnectionStatus::Connected => Ok(
                WindowChange { cols, rows, pixel_width, pixel_height },
            ),
            _ => Err(EngineError::NoActiveTerminal),
        }
    }

    /// The status of `session_id`: that of its entry, and `Disconnected` for
    /// an identifier without one.
    pub fn get_connection_status(&self, session_id: &str) -> (status: Option<ConnectionStatus>)
        ensures
            status matches Some(s) && s@ == status_of(self@, session_id@),
    {
        let at = self.find(session_id);
        if at >= self.connections.len() {
            return Some(ConnectionStatus::Disconnected);
        }
        Some(copy_status(&self.connections[at].status))
    }

    /// The identifiers of all entries, in the order in which they were
    /// reserved.
    pub fn list_sessions(&self) -> (ids: Vec<String>)
        ensures
            ids@.len() == self@.len(),
            forall|i: int| 0 <= i < ids@.len() ==> (#[trigger] ids@[i])@ == self@[i].session_id,
    {
        let mut ids: Vec<String> = Vec::new();
        let mut i: usize = 0;
        while i < self.connections.len()
            invariant
                i <= self.connections.len(),
                ids@.len() == i,
                self.connections.len() == self@.len(),
                forall|j: int| 0 <= j < i ==> (#[trigger] ids@[j])@ == self@[j].session_id,
            decreases self.connections.len() - i,
        {
            ids.push(self.connections[i].session_id.clone());
            i = i + 1;
        }
        ids
    }

    /// How many workers of all connections are not joined yet; the largest
    /// number that fits where there are more.
    pub fn running_pumps(&self) -> (n: usize)
        ensures
            n == if pumps_running(self@) <= usize::MAX {
                pumps_running(self@) as int
            } else {
                usize::MAX as int
            },
    {
        let mut n: usize = 0;
        let mut i: usize = 0;
        while i < self.connections.len()
            invariant
                i <= self.connections.len(),
                self.connections.len() == self@.len(),
                n == if pumps_running(self@.take(i as int)) <= usize::MAX {
                    pumps_running(self@.take(i as int)) as int
                } else {
                    usize::MAX as int
                },
            decreases self.connections.len() - i,
        {
            proof {
                assert(self@.take(i + 1).drop_last() =~= self@.take(i as int));
            }
            let held = match &self.connections[i].handle {
                Some(handle) => handle.running_pumps(),
                None => 0,
            };
            n = if held <= usize::MAX - n {
                n + held
            } else {
                usize::MAX
            };
            i = i + 1;
        }
        assert(self@.take(self@.len() as int) =~= self@);
        n
    }
}

/// A session that is connected and at once disconnected leaves the registry
/// as it was: its entry is gone, no worker of it runs any more, and every
/// other session is untouched.
pub proof fn law_connect_then_disconnect_leaves_nothing(entries: Seq<EntryModel>, id: Seq<char>)
    requires
        !has_session(entries, id),
    ensures
        ({
            let up = after_establish(after_connect(entries, id), id);
            &&& has_session(up, id)
            &&& pumps_to_join(up, id) == seq![Pump::Reader, Pump::Writer, Pump::Input]
            &&& without(up, id) == entries
            &&& !has_session(without(up, id), id)
            &&& pumps_running(without(up, id)) == pumps_running(entries)
        }),
{
    lemma_position_finds(entries, id);
    let n = entries.len() as int;
    let one = entries.push(reserved(id));
    lemma_position(one, id, n);
    let up = one.update(n, live(id));
    lemma_position(up, id, n);
    law_close_joins_in_order(id);
}

/// When the reader of a connected session meets the end of the stream, the
/// session is `Disconnected` and its reader is told to stop. Its entry
/// stays, with all workers still to be joined by `disconnect`, and with
/// writer and input worker untouched; no other session is touched.
pub proof fn law_eof_disconnects_and_keeps_the_handle(entries: Seq<EntryModel>, id: Seq<char>)
    requires
        has_terminal(entries, id),
    ensures
        ({
            let after = after_report(entries, id, EventModel::RemoteEof);
            &&& after.len() == entries.len()
            &&& has_session(after, id)
            &&& status_of(after, id) == StatusModel::Disconnected
            &&& after[position(after, id)].handle == match entries[position(entries, id)].handle {
                Some(handle) => Some(signalled(handle, Pump::Reader)),
                None => None,
            }
            &&& pumps_to_join(after, id) == pumps_to_join(entries, id)
            &&& forall|i: int|
                0 <= i < entries.len() && i != position(entries, id) ==> #[trigger] after[i]
                    == entries[i]
        }),
{
    lemma_position_finds(entries, id);
    let at = position(entries, id);
    let after = after_report(entries, id, EventModel::RemoteEof);
    lemma_position(after, id, at);
}

/// A failed read or write puts its session in `Error` and tells all workers
/// of that session to stop. No other session is touched.
pub proof fn law_io_failure_stops_one_session(
    entries: Seq<EntryModel>,
    id: Seq<char>,
    why: Seq<char>,
)
    requires
        has_terminal(entries, id),
    ensures
        ({
            let after = after_report(entries, id, EventModel::IoFailed(why));
            &&& after.len() == entries.len()
            &&& status_of(after, id) == StatusModel::Error(why)
            &&& after[position(after, id)].handle matches Some(handle) ==> forall|pump: Pump|
                #[trigger] flag_of(handle, pump)
            &&& forall|i: int|
                0 <= i < entries.len() && i != position(entries, id) ==> #[trigger] after[i]
                    == entries[i]
        }),
{
    lemma_position_finds(entries, id);
    let at = position(entries, id);
    let after = after_report(entries, id, EventModel::IoFailed(why));
    lemma_position(after, id, at);
}

/// A second connect for an identifier that has an entry is refused and
/// changes nothing: the live connection stays as it is.
pub proof fn law_second_connect_changes_nothing(entries: Seq<EntryModel>, id: Seq<char>)
    requires
        has_session(entries, id),
    ensures
        after_connect(entries, id) == entries,
{
}

} // verus!

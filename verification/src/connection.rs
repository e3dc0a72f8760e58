//! The handle of one live connection: the shutdown flags of its three
//! workers, which of them are still to be joined, and the input that waits
//! for the input worker.

use vstd::prelude::*;
use vstd::string::*;

verus! {

/// One of the three workers of a connection.
#[derive(Debug, Clone, Copy, PartialEq, Eq, Structural)]
pub enum Pump {
    Reader,
    Writer,
    Input,
}

/// Why a connection did not take an input.
#[derive(Debug, Clone, Copy, PartialEq, Eq, Structural)]
pub enum InputRefused {
    /// The connection is closing or closed: its input worker takes nothing
    /// more.
    Closed,
}

/// A connection handle as plain values.
pub struct ConnectionModel {
    pub session_id: Seq<char>,
    pub reader_shutdown: bool,
    pub writer_shutdown: bool,
    pub input_shutdown: bool,
    pub reader_held: bool,
    pub writer_held: bool,
    pub input_held: bool,
    pub inbox: Seq<Seq<u8>>,
}

/// The handle of a connection whose workers were just started.
pub open spec fn started(session_id: Seq<char>) -> ConnectionModel {
    ConnectionModel {
        session_id,
        reader_shutdown: false,
        writer_shutdown: false,
        input_shutdown: false,
        reader_held: true,
        writer_held: true,
        input_held: true,
        inbox: Seq::empty(),
    }
}

/// The shutdown flag of `pump`.
pub open spec fn flag_of(c: ConnectionModel, pump: Pump) -> bool {
    match pump {
        Pump::Reader => c.reader_shutdown,
        Pump::Writer => c.writer_shutdown,
        Pump::Input => c.input_shutdown,
    }
}

/// How many workers of the connection are not joined yet.
pub open spec fn pumps_held(c: ConnectionModel) -> nat {
    (if c.reader_held { 1nat } else { 0nat }) + (if c.writer_held { 1nat } else { 0nat }) + (
    if c.input_held { 1nat } else { 0nat })
}

/// The workers that closing joins, in the order in which it joins them:
/// reader, writer, input, each only where it is still held.
pub open spec fn join_order(c: ConnectionModel) -> Seq<Pump> {
    (if c.reader_held { seq![Pump::Reader] } else { Seq::empty() }) + (if c.writer_held {
        seq![Pump::Writer]
    } else {
        Seq::empty()
    }) + (if c.input_held { seq![Pump::Input] } else { Seq::empty() })
}

/// The handle after `pump` was told to stop: its flag is set, and nothing
/// else has changed.
pub open spec fn signalled(c: ConnectionModel, pump: Pump) -> ConnectionModel {
    match pump {
        Pump::Reader => ConnectionModel { reader_shutdown: true, ..c },
        Pump::Writer => ConnectionModel { writer_shutdown: true, ..c },
        Pump::Input => ConnectionModel { input_shutdown: true, ..c },
    }
}

/// The handle after all three workers were told to stop. None of them is
/// joined by that.
pub open spec fn signalled_all(c: ConnectionModel) -> ConnectionModel {
    signalled(signalled(signalled(c, Pump::Reader), Pump::Writer), Pump::Input)
}

/// The handle after closing: every flag is set and no worker is held. Input
/// that was not yet taken stays for the input worker's last round.
pub open spec fn closed(c: ConnectionModel) -> ConnectionModel {
    ConnectionModel {
        session_id: c.session_id,
        reader_shutdown: true,
        writer_shutdown: true,
        input_shutdown: true,
        reader_held: false,
        writer_held: false,
        input_held: false,
        inbox: c.inbox,
    }
}

/// The handle of one live connection.
pub struct SshConnection {
    session_id: String,
    reader_shutdown: bool,
    writer_shutdown: bool,
    input_shutdown: bool,
    reader_held: bool,
    writer_held: bool,
    input_held: bool,
    inbox: Vec<Vec<u8>>,
}

impl View for SshConnection {
    type V = ConnectionModel;

    closed spec fn view(&self) -> ConnectionModel {
        ConnectionModel {
            session_id: self.session_id@,
            reader_shutdown: self.reader_shutdown,
            writer_shutdown: self.writer_shutdown,
            input_shutdown: self.input_shutdown,
            reader_held: self.reader_held,
            writer_held: self.writer_held,
            input_held: self.input_held,
            inbox: self.inbox@.map_values(|fragment: Vec<u8>| fragment@),
        }
    }
}

impl SshConnection {
    /// The handle of the connection `session_id`, whose three workers have
    /// just been started.
    pub fn new(session_id: String) -> (handle: SshConnection)
        ensures
            handle@ == started(session_id@),
    {
        let handle = SshConnection {
            session_id,
            reader_shutdown: false,
            writer_shutdown: false,
            input_shutdown: false,
            reader_held: true,
            writer_held: true,
            input_held: true,
            inbox: Vec::new(),
        };
        assert(handle.inbox@.map_values(|fragment: Vec<u8>| fragment@) =~= Seq::<
            Seq<u8>,
        >::empty());
        handle
    }

    /// The identifier of the session.
    pub fn session_id(&self) -> (id: &str)
        ensures
            id@ == self@.session_id,
    {
        self.session_id.as_str()
    }

    /// Queues `input` for the input worker, behind all that is queued
    /// already. A connection that is closing takes nothing and stays as it
    /// is.
    pub fn send_input(&mut self, input: &str) -> (sent: Result<(), InputRefused>)
        ensures
            old(self)@.input_shutdown ==> sent == Err::<(), InputRefused>(InputRefused::Closed)
                && final(self)@ == old(self)@,
            !old(self)@.input_shutdown ==> sent is Ok && final(self)@ == (ConnectionModel {
                inbox: old(self)@.inbox.push(input.spec_bytes()),
                ..old(self)@
            }),
    {
        if self.input_shutdown {
            return Err(InputRefused::Closed);
        }
        let bytes = input.as_bytes_vec();
        self.inbox.push(bytes);
        assert(self.inbox@.map_values(|fragment: Vec<u8>| fragment@) =~= old(
            self,
        ).inbox@.map_values(|fragment: Vec<u8>| fragment@).push(input.spec_bytes()));
        Ok(())
    }

    /// Hands out all queued input, oldest first, and leaves the queue empty.
    pub fn take_input(&mut self) -> (fragments: Vec<Vec<u8>>)
        ensures
            fragments@.map_values(|fragment: Vec<u8>| fragment@) == old(self)@.inbox,
            final(self)@ == (ConnectionModel { inbox: Seq::empty(), ..old(self)@ }),
    {
        let mut fragments: Vec<Vec<u8>> = Vec::new();
        std::mem::swap(&mut self.inbox, &mut fragments);
        assert(self.inbox@.map_values(|fragment: Vec<u8>| fragment@) =~= Seq::<Seq<u8>>::empty());
        fragments
    }

    /// Whether `pump` has been told to stop. Workers look at this once per
    /// round.
    pub fn shutdown_requested(&self, pump: Pump) -> (flag: bool)
        ensures
            flag == flag_of(self@, pump),
    {
        match pump {
            Pump::Reader => self.reader_shutdown,
            Pump::Writer => self.writer_shutdown,
            Pump::Input => self.input_shutdown,
        }
    }

    /// Tells `pump` to stop, and no other worker.
    pub fn request_shutdown(&mut self, pump: Pump)
        ensures
            final(self)@ == signalled(old(self)@, pump),
    {
        match pump {
            Pump::Reader => {
                self.reader_shutdown = true;
            },
            Pump::Writer => {
                self.writer_shutdown = true;
            },
            Pump::Input => {
                self.input_shutdown = true;
            },
        }
    }

    /// Tells all three workers to stop. They are joined when the connection
    /// is closed.
    pub fn request_shutdown_all(&mut self)
        ensures
            final(self)@ == signalled_all(old(self)@),
    {
        self.request_shutdown(Pump::Reader);
        self.request_shutdown(Pump::Writer);
        self.request_shutdown(Pump::Input);
    }

    /// How many workers are not joined yet.
    pub fn running_pumps(&self) -> (n: usize)
        ensures
            n == pumps_held(self@),
    {
        let mut n: usize = 0;
        if self.reader_held {
            n = n + 1;
        }
        if self.writer_held {
            n = n + 1;
        }
        if self.input_held {
            n = n + 1;
        }
        n
    }

    /// Closes the connection: sets all three shutdown flags, and hands out
    /// the workers that are to be joined, in the order reader, writer, input.
    /// All flags are set before any worker is joined. Closing again sets
    /// nothing new and joins nothing.
    pub fn close(&mut self) -> (to_join: Vec<Pump>)
        ensures
            final(self)@ == closed(old(self)@),
            to_join@ == join_order(old(self)@),
    {
        self.reader_shutdown = true;
        self.writer_shutdown = true;
        self.input_shutdown = true;
        let mut to_join: Vec<Pump> = Vec::new();
        if self.reader_held {
            self.reader_held = false;
            to_join.push(Pump::Reader);
        }
        if self.writer_held {
            self.writer_held = false;
            to_join.push(Pump::Writer);
        }
        if self.input_held {
            self.input_held = false;
            to_join.push(Pump::Input);
        }
        to_join
    }
}

/// Closing is idempotent: a closed handle stays as it is when closed again,
/// and no worker is joined twice.
pub proof fn law_close_is_idempotent(c: ConnectionModel)
    ensures
        closed(closed(c)) == closed(c),
        join_order(closed(c)) == Seq::<Pump>::empty(),
        pumps_held(closed(c)) == 0,
{
}

/// Telling the workers to stop joins none of them, and closing afterwards
/// is closing: the flags are set before any worker is joined.
pub proof fn law_signals_come_before_joins(c: ConnectionModel)
    ensures
        pumps_held(signalled_all(c)) == pumps_held(c),
        join_order(signalled_all(c)) == join_order(c),
        closed(signalled_all(c)) == closed(c),
        forall|pump: Pump| flag_of(#[trigger] signalled_all(c), pump),
{
}

/// Closing a connection whose workers all run joins the reader first, then
/// the writer, then the input worker.
pub proof fn law_close_joins_in_order(session_id: Seq<char>)
    ensures
        join_order(started(session_id)) == seq![Pump::Reader, Pump::Writer, Pump::Input],
{
}

} // verus!

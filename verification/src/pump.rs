//! The three workers of a connection, as decisions.
//!
//! Each worker is a loop around blocking work: the reader reads from the
//! channel, the writer writes to it, the input worker sleeps between looks
//! at its buffer. The loops themselves run in the program around this
//! library; what they do next is decided here, from what just happened.
//! Every worker looks at its shutdown flag once per round and never holds the
//! channel while it sleeps.

use vstd::prelude::*;
use vstd::string::*;
use vstd::utf8::{decode_utf8, valid_utf8};
use crate::coalescer::{
    after_finish, after_poll, after_push, finish_output, poll_output, CoalescerModel,
    InputCoalescer,
};
use crate::status::{copy_status, StatusModel};
use crate::ConnectionStatus;

verus! {

/// Bytes that one read may return at most.
pub const READ_BUFFER_SIZE: usize = 4096;

/// Milliseconds that a worker sleeps when it finds nothing to do.
pub const POLL_INTERVAL_MS: u64 = 10;

/// What a session tells the user interface.
#[derive(Debug, Clone, PartialEq, Eq)]
pub enum TerminalEvent {
    /// Bytes that the remote side wrote to the terminal.
    Data { session_id: String, payload: Vec<u8> },
    /// The session's status, with a line for the user.
    Status { session_id: String, status: ConnectionStatus, message: String },
}

/// An event as plain values.
pub enum EventView {
    Data { session_id: Seq<char>, payload: Seq<u8> },
    Status { session_id: Seq<char>, status: StatusModel, message: Seq<char> },
}

impl View for TerminalEvent {
    type V = EventView;

    open spec fn view(&self) -> EventView {
        match self {
            TerminalEvent::Data { session_id, payload } => EventView::Data {
                session_id: session_id@,
                payload: payload@,
            },
            TerminalEvent::Status { session_id, status, message } => EventView::Status {
                session_id: session_id@,
                status: status@,
                message: message@,
            },
        }
    }
}

/// The event that tells the user interface the status of a session, with a
/// line for the user.
pub fn status_event(session_id: &str, status: &ConnectionStatus, message: &str) -> (event:
    TerminalEvent)
    ensures
        event@ == (EventView::Status {
            session_id: session_id@,
            status: status@,
            message: message@,
        }),
{
    TerminalEvent::Status {
        session_id: String::from_str(session_id),
        status: copy_status(status),
        message: String::from_str(message),
    }
}

/// The event that reports progress of a connect attempt: the session is
/// `Connecting`, and `line` says how far it has come.
pub fn progress_event(session_id: &str, line: &str) -> (event: TerminalEvent)
    ensures
        event@ == (EventView::Status {
            session_id: session_id@,
            status: StatusModel::Connecting,
            message: line@,
        }),
{
    TerminalEvent::Status {
        session_id: String::from_str(session_id),
        status: ConnectionStatus::Connecting,
        message: String::from_str(line),
    }
}

/// Calls `String::from_utf8` on `bytes`: the text that the bytes encode,
/// and `None` where they are not UTF-8.
#[verifier::external_body]
fn text_from_utf8(bytes: Vec<u8>) -> (text: Option<String>)
    ensures
        match text {
            Some(decoded) => valid_utf8(bytes@) && decoded@ == decode_utf8(bytes@),
            None => !valid_utf8(bytes@),
        },
{
    match String::from_utf8(bytes) {
        Ok(decoded) => Some(decoded),
        Err(_) => None,
    }
}

/// What arrives on the channel of a terminal.
#[derive(Debug, Clone, PartialEq, Eq)]
pub enum ChannelMessage {
    /// Output of the remote shell.
    Data(Vec<u8>),
    /// Output on another stream; stream 1 is the error output.
    ExtendedData { ext: u32, data: Vec<u8> },
    /// Anything else.
    Other,
}

/// The text that a message of the channel shows on the terminal: that of
/// output and of error output, where it is UTF-8; nothing for any other
/// message, and nothing for bytes that are not UTF-8.
pub fn channel_text(message: ChannelMessage) -> (text: Option<String>)
    ensures
        match message {
            ChannelMessage::Data(data) => match text {
                Some(shown) => valid_utf8(data@) && shown@ == decode_utf8(data@),
                None => !valid_utf8(data@),
            },
            ChannelMessage::ExtendedData { ext, data } => match text {
                Some(shown) => ext == 1 && valid_utf8(data@) && shown@ == decode_utf8(data@),
                None => ext != 1 || !valid_utf8(data@),
            },
            ChannelMessage::Other => text is None,
        },
{
    match message {
        ChannelMessage::Data(data) => text_from_utf8(data),
        ChannelMessage::ExtendedData { ext, data } => {
            if ext == 1 {
                text_from_utf8(data)
            } else {
                None
            }
        },
        ChannelMessage::Other => None,
    }
}

/// How a read from the channel ended.
#[derive(Debug, Clone, PartialEq, Eq)]
pub enum ReadOutcome {
    /// The bytes read; none means that the remote side ended the stream.
    Bytes(Vec<u8>),
    /// Nothing to read right now.
    WouldBlock,
    /// The read failed; the text says why.
    Failed(String),
}

/// What the reader does at the start of a round.
#[derive(Debug, Clone, Copy, PartialEq, Eq, Structural)]
pub enum ReaderStep {
    /// Read at most `max` bytes from the channel.
    Read { max: usize },
    /// Leave the loop.
    Exit,
}

/// What the reader does after a read.
#[derive(Debug, Clone, PartialEq, Eq)]
pub enum ReaderVerdict {
    /// Hand the event to the user interface and go on reading.
    Emit(TerminalEvent),
    /// Sleep for `sleep_ms` milliseconds, then read again.
    Retry { sleep_ms: u64 },
    /// Hand the event to the user interface and leave the loop: the session
    /// has the status that the event carries.
    Stop(TerminalEvent),
}

/// What the reader does after a read, as plain values.
pub enum ReaderVerdictView {
    Emit(EventView),
    Retry { sleep_ms: u64 },
    Stop(EventView),
}

impl View for ReaderVerdict {
    type V = ReaderVerdictView;

    open spec fn view(&self) -> ReaderVerdictView {
        match self {
            ReaderVerdict::Emit(event) => ReaderVerdictView::Emit(event@),
            ReaderVerdict::Retry { sleep_ms } => ReaderVerdictView::Retry { sleep_ms: *sleep_ms },
            ReaderVerdict::Stop(event) => ReaderVerdictView::Stop(event@),
        }
    }
}

/// The start of a reader round: read while the shutdown flag is clear.
pub fn reader_step(shutdown: bool) -> (step: ReaderStep)
    ensures
        step == if shutdown {
            ReaderStep::Exit
        } else {
            ReaderStep::Read { max: READ_BUFFER_SIZE }
        },
{
    if shutdown {
        ReaderStep::Exit
    } else {
        ReaderStep::Read { max: READ_BUFFER_SIZE }
    }
}

/// What follows a read in the session `session_id`.
pub open spec fn read_verdict(session_id: Seq<char>, outcome: ReadOutcome) -> ReaderVerdictView {
    match outcome {
        ReadOutcome::Bytes(bytes) => if bytes@.len() == 0 {
            ReaderVerdictView::Stop(
                EventView::Status {
                    session_id,
                    status: StatusModel::Disconnected,
                    message: "Connection closed by remote host"@,
                },
            )
        } else {
            ReaderVerdictView::Emit(EventView::Data { session_id, payload: bytes@ })
        },
        ReadOutcome::WouldBlock => ReaderVerdictView::Retry { sleep_ms: POLL_INTERVAL_MS },
        ReadOutcome::Failed(why) => ReaderVerdictView::Stop(
            EventView::Status { session_id, status: StatusModel::Error(why@), message: why@ },
        ),
    }
}

/// Decides what follows a read. Bytes become a data event of this session,
/// whole and in the order read. A read of no bytes is the end of the stream:
/// the reader stops and the session is `Disconnected`. A read that would
/// block is tried again after a short sleep. Any other failure stops the
/// reader and is reported.
pub fn reader_verdict(session_id: &str, outcome: ReadOutcome) -> (verdict: ReaderVerdict)
    ensures
        verdict@ == read_verdict(session_id@, outcome),
{
    match outcome {
        ReadOutcome::Bytes(bytes) => {
            if bytes.len() == 0 {
                ReaderVerdict::Stop(
                    TerminalEvent::Status {
                        session_id: String::from_str(session_id),
                        status: ConnectionStatus::Disconnected,
                        message: String::from_str("Connection closed by remote host"),
                    },
                )
            } else {
                ReaderVerdict::Emit(
                    TerminalEvent::Data {
                        session_id: String::from_str(session_id),
                        payload: bytes,
                    },
                )
            }
        },
        ReadOutcome::WouldBlock => ReaderVerdict::Retry { sleep_ms: POLL_INTERVAL_MS },
        ReadOutcome::Failed(why) => {
            let message = why.clone();
            ReaderVerdict::Stop(
                TerminalEvent::Status {
                    session_id: String::from_str(session_id),
                    status: ConnectionStatus::Error(why),
                    message,
                },
            )
        },
    }
}

/// What the writer does at the start of a round.
#[derive(Debug, Clone, PartialEq, Eq)]
pub enum WriterStep {
    /// Write all of these bytes to the channel, then flush it.
    Write(Vec<u8>),
    /// Nothing is queued: sleep for `sleep_ms` milliseconds.
    Park { sleep_ms: u64 },
    /// Leave the loop.
    Exit,
}

/// What the writer does at the start of a round, as plain values.
pub enum WriterStepView {
    Write(Seq<u8>),
    Park { sleep_ms: u64 },
    Exit,
}

impl View for WriterStep {
    type V = WriterStepView;

    open spec fn view(&self) -> WriterStepView {
        match self {
            WriterStep::Write(bytes) => WriterStepView::Write(bytes@),
            WriterStep::Park { sleep_ms } => WriterStepView::Park { sleep_ms: *sleep_ms },
            WriterStep::Exit => WriterStepView::Exit,
        }
    }
}

/// What the writer does when its flag is `shutdown` and its queue is
/// `queue`.
pub open spec fn write_step(shutdown: bool, queue: Seq<Vec<u8>>) -> WriterStepView {
    if shutdown {
        WriterStepView::Exit
    } else if queue.len() > 0 {
        WriterStepView::Write(queue[0]@)
    } else {
        WriterStepView::Park { sleep_ms: POLL_INTERVAL_MS }
    }
}

/// The start of a writer round: takes the oldest batch off the queue, if
/// there is one and the shutdown flag is clear. The queue is first in, first
/// out; an empty queue is not polled in a busy loop.
pub fn writer_step(shutdown: bool, queue: &mut Vec<Vec<u8>>) -> (step: WriterStep)
    ensures
        step@ == write_step(shutdown, old(queue)@),
        final(queue)@ == if !shutdown && old(queue)@.len() > 0 {
            old(queue)@.drop_first()
        } else {
            old(queue)@
        },
{
    if shutdown {
        WriterStep::Exit
    } else if queue.len() > 0 {
        let batch = queue.remove(0);
        WriterStep::Write(batch)
    } else {
        WriterStep::Park { sleep_ms: POLL_INTERVAL_MS }
    }
}

/// What the writer does after a write.
#[derive(Debug, Clone, PartialEq, Eq)]
pub enum WriterVerdict {
    /// Go on with the next round.
    Continue,
    /// Hand the event to the user interface and leave the loop.
    Stop(TerminalEvent),
}

/// Decides what follows a write and flush: a failure stops the writer and
/// puts the session in `Error`.
pub fn writer_verdict(session_id: &str, result: Result<(), String>) -> (verdict: WriterVerdict)
    ensures
        match result {
            Ok(_) => verdict is Continue,
            Err(why) => verdict matches WriterVerdict::Stop(event) && event@ == (EventView::Status {
                session_id: session_id@,
                status: StatusModel::Error(why@),
                message: why@,
            }),
        },
{
    match result {
        Ok(_) => WriterVerdict::Continue,
        Err(why) => {
            let message = why.clone();
            WriterVerdict::Stop(
                TerminalEvent::Status {
                    session_id: String::from_str(session_id),
                    status: ConnectionStatus::Error(why),
                    message,
                },
            )
        },
    }
}

/// What the input worker does after a round.
#[derive(Debug, Clone, PartialEq, Eq)]
pub struct InputStep {
    /// A batch for the writer's queue.
    pub flush: Option<Vec<u8>>,
    /// `Some(ms)`: sleep that long and go on. `None`: leave the loop.
    pub sleep_ms: Option<u64>,
}

/// All of `fragments`, put end to end, the oldest first.
pub open spec fn joined(fragments: Seq<Vec<u8>>) -> Seq<u8>
    decreases fragments.len(),
{
    if fragments.len() == 0 {
        Seq::empty()
    } else {
        joined(fragments.drop_last()) + fragments.last()@
    }
}

/// One round of the input worker. What has arrived since the last round is
/// taken into the buffer, in order. With the shutdown flag clear the buffer
/// is flushed where a flush is due at `now`, and the worker sleeps; with the
/// flag set whatever is left is flushed and the worker leaves.
pub fn input_step(
    coalescer: &mut InputCoalescer,
    shutdown: bool,
    received: &Vec<Vec<u8>>,
    now: u64,
) -> (step: InputStep)
    ensures
        ({
            let taken = after_push(
                old(coalescer)@,
                received@.map_values(|f: Vec<u8>| f@).flatten(),
            );
            if shutdown {
                &&& final(coalescer)@ == after_finish(taken)
                &&& step.sleep_ms is None
                &&& match step.flush {
                    Some(batch) => finish_output(taken) == Some(batch@),
                    None => finish_output(taken) is None,
                }
            } else {
                &&& final(coalescer)@ == after_poll(taken, now as int)
                &&& step.sleep_ms == Some(POLL_INTERVAL_MS)
                &&& match step.flush {
                    Some(batch) => poll_output(taken, now as int) == Some(batch@),
                    None => poll_output(taken, now as int) is None,
                }
            }
        }),
{
    let mut i: usize = 0;
    while i < received.len()
        invariant
            i <= received.len(),
            coalescer@ == after_push(old(coalescer)@, joined(received@.take(i as int))),
        decreases received.len() - i,
    {
        coalescer.push(received[i].as_slice());
        proof {
            let head = received@.take(i as int);
            let more = received@.take(i + 1);
            assert(more.drop_last() =~= head);
            assert(old(coalescer)@.buffer + (joined(head) + received@[i as int]@) =~= (old(
                coalescer,
            )@.buffer + joined(head)) + received@[i as int]@);
        }
        i = i + 1;
    }
    assert(received@.take(received.len() as int) =~= received@);
    proof {
        lemma_joined_is_flatten(received@);
    }
    if shutdown {
        InputStep { flush: coalescer.finish(), sleep_ms: None }
    } else {
        InputStep { flush: coalescer.poll(now), sleep_ms: Some(POLL_INTERVAL_MS) }
    }
}

/// `joined` is the views of the fragments, put end to end.
pub proof fn lemma_joined_is_flatten(fragments: Seq<Vec<u8>>)
    ensures
        joined(fragments) == fragments.map_values(|f: Vec<u8>| f@).flatten(),
    decreases fragments.len(),
{
    broadcast use Seq::lemma_flatten_push;

    let views = fragments.map_values(|f: Vec<u8>| f@);
    if fragments.len() > 0 {
        lemma_joined_is_flatten(fragments.drop_last());
        assert(views =~= fragments.drop_last().map_values(|f: Vec<u8>| f@).push(
            fragments.last()@,
        ));
    }
}

/// The way of the input through a connection: what waits for the input
/// worker, what the coalescer holds, what is queued for the writer, and
/// what has been written to the channel.
pub struct InputPath {
    pub inbox: Seq<Seq<u8>>,
    pub pending: CoalescerModel,
    pub queue: Seq<Seq<u8>>,
    pub written: Seq<u8>,
}

/// One thing that happens on the way of the input.
pub enum PathOp {
    /// The user interface sends a fragment.
    Send(Seq<u8>),
    /// The input worker makes a round at the time `now`, with its shutdown
    /// flag as given.
    InputRound { now: int, shutdown: bool },
    /// The writer, its shutdown flag clear, makes a round, and its write
    /// goes through.
    WriterRound,
}

/// All input that is somewhere on the way, oldest first.
pub open spec fn on_the_way(p: InputPath) -> Seq<u8> {
    p.written + p.queue.flatten() + p.pending.buffer + p.inbox.flatten()
}

/// The way of the input after `op`.
pub open spec fn path_after(p: InputPath, op: PathOp) -> InputPath {
    match op {
        PathOp::Send(fragment) => InputPath { inbox: p.inbox.push(fragment), ..p },
        PathOp::InputRound { now, shutdown } => {
            let taken = after_push(p.pending, p.inbox.flatten());
            let flushed = if shutdown {
                finish_output(taken)
            } else {
                poll_output(taken, now)
            };
            InputPath {
                inbox: Seq::empty(),
                pending: if shutdown {
                    after_finish(taken)
                } else {
                    after_poll(taken, now)
                },
                queue: match flushed {
                    Some(batch) => p.queue.push(batch),
                    None => p.queue,
                },
                written: p.written,
            }
        },
        PathOp::WriterRound => if p.queue.len() > 0 {
            InputPath { queue: p.queue.drop_first(), written: p.written + p.queue[0], ..p }
        } else {
            p
        },
    }
}

/// The way of the input after `ops`.
pub open spec fn path_after_all(p: InputPath, ops: Seq<PathOp>) -> InputPath
    decreases ops.len(),
{
    if ops.len() == 0 {
        p
    } else {
        path_after(path_after_all(p, ops.drop_last()), ops.last())
    }
}

/// All that is sent in `ops`, in order.
pub open spec fn sent_in(ops: Seq<PathOp>) -> Seq<u8>
    decreases ops.len(),
{
    if ops.len() == 0 {
        Seq::empty()
    } else {
        match ops.last() {
            PathOp::Send(fragment) => sent_in(ops.drop_last()) + fragment,
            _ => sent_in(ops.drop_last()),
        }
    }
}

/// A round of a worker moves input along its way and changes nothing of
/// it; a fragment that is sent joins at the end.
pub proof fn lemma_step_keeps_the_input(p: InputPath, op: PathOp)
    ensures
        on_the_way(path_after(p, op)) == on_the_way(p) + match op {
            PathOp::Send(fragment) => fragment,
            _ => Seq::<u8>::empty(),
        },
{
    broadcast use Seq::lemma_flatten_push;
}

/// From the user interface to the channel nothing is lost, doubled or
/// reordered: whatever the workers do and whenever they do it, the bytes
/// written, followed by those still on the way, are what was there at the
/// start followed by all that was sent.
pub proof fn law_input_reaches_the_channel_in_order(p: InputPath, ops: Seq<PathOp>)
    ensures
        on_the_way(path_after_all(p, ops)) == on_the_way(p) + sent_in(ops),
    decreases ops.len(),
{
    if ops.len() > 0 {
        law_input_reaches_the_channel_in_order(p, ops.drop_last());
        lemma_step_keeps_the_input(path_after_all(p, ops.drop_last()), ops.last());
    }
}

} // verus!

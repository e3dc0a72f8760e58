//! Input coalescing: keystrokes and paste fragments are gathered and handed
//! to the writer in batches.
//!
//! The buffer is flushed when it is non-empty and either a flush interval has
//! passed since the last flush or it has grown past the size threshold. On
//! shutdown what is left is flushed once. Time is a count of milliseconds
//! that the caller reads from a monotonic clock.

use vstd::prelude::*;

verus! {

/// Milliseconds after which a non-empty buffer is flushed.
pub const FLUSH_INTERVAL_MS: u64 = 100;

/// Bytes past which the buffer is flushed whatever the time.
pub const FLUSH_THRESHOLD: usize = 1024;

/// What a coalescer holds: the bytes not yet flushed and the time of the last
/// flush.
pub struct CoalescerModel {
    pub buffer: Seq<u8>,
    pub last_flush: int,
}

/// One thing that happens to a coalescer.
pub enum InputOp {
    /// A fragment arrives.
    Push(Seq<u8>),
    /// The worker looks at the buffer at the given time.
    Poll(int),
    /// The worker shuts down.
    Finish,
}

/// A coalescer and what it has handed to the writer so far.
pub struct Replay {
    pub state: CoalescerModel,
    pub writes: Seq<Seq<u8>>,
}

/// Whether a look at the buffer at time `now` flushes it.
pub open spec fn flush_due(s: CoalescerModel, now: int) -> bool {
    s.buffer.len() > 0 && (now - s.last_flush >= FLUSH_INTERVAL_MS || s.buffer.len()
        > FLUSH_THRESHOLD)
}

/// The coalescer after `data` arrived.
pub open spec fn after_push(s: CoalescerModel, data: Seq<u8>) -> CoalescerModel {
    CoalescerModel { buffer: s.buffer + data, last_flush: s.last_flush }
}

/// The coalescer after a look at time `now`.
pub open spec fn after_poll(s: CoalescerModel, now: int) -> CoalescerModel {
    if flush_due(s, now) {
        CoalescerModel { buffer: Seq::empty(), last_flush: now }
    } else {
        s
    }
}

/// What a look at time `now` hands to the writer.
pub open spec fn poll_output(s: CoalescerModel, now: int) -> Option<Seq<u8>> {
    if flush_due(s, now) {
        Some(s.buffer)
    } else {
        None
    }
}

/// The coalescer after shutdown.
pub open spec fn after_finish(s: CoalescerModel) -> CoalescerModel {
    CoalescerModel { buffer: Seq::empty(), last_flush: s.last_flush }
}

/// What shutdown hands to the writer.
pub open spec fn finish_output(s: CoalescerModel) -> Option<Seq<u8>> {
    if s.buffer.len() > 0 {
        Some(s.buffer)
    } else {
        None
    }
}

/// The coalescer after `op`.
pub open spec fn apply(s: CoalescerModel, op: InputOp) -> CoalescerModel {
    match op {
        InputOp::Push(data) => after_push(s, data),
        InputOp::Poll(now) => after_poll(s, now),
        InputOp::Finish => after_finish(s),
    }
}

/// What `op` hands to the writer.
pub open spec fn output(s: CoalescerModel, op: InputOp) -> Option<Seq<u8>> {
    match op {
        InputOp::Push(_) => None,
        InputOp::Poll(now) => poll_output(s, now),
        InputOp::Finish => finish_output(s),
    }
}

/// The coalescer after `ops`, and all that it handed to the writer on the
/// way, in order.
pub open spec fn replay(s: CoalescerModel, ops: Seq<InputOp>) -> Replay
    decreases ops.len(),
{
    if ops.len() == 0 {
        Replay { state: s, writes: Seq::empty() }
    } else {
        let before = replay(s, ops.drop_last());
        Replay {
            state: apply(before.state, ops.last()),
            writes: match output(before.state, ops.last()) {
                Some(batch) => before.writes.push(batch),
                None => before.writes,
            },
        }
    }
}

/// All bytes that arrive in `ops`, in order.
pub open spec fn pushed(ops: Seq<InputOp>) -> Seq<u8>
    decreases ops.len(),
{
    if ops.len() == 0 {
        Seq::empty()
    } else {
        match ops.last() {
            InputOp::Push(data) => pushed(ops.drop_last()) + data,
            _ => pushed(ops.drop_last()),
        }
    }
}

/// Gathers input fragments into batches for the writer.
pub struct InputCoalescer {
    buffer: Vec<u8>,
    last_flush: u64,
}

impl View for InputCoalescer {
    type V = CoalescerModel;

    closed spec fn view(&self) -> CoalescerModel {
        CoalescerModel { buffer: self.buffer@, last_flush: self.last_flush as int }
    }
}

impl InputCoalescer {
    /// An empty coalescer whose last flush counts as made at `now`.
    pub fn new(now: u64) -> (c: InputCoalescer)
        ensures
            c@ == (CoalescerModel { buffer: Seq::empty(), last_flush: now as int }),
    {
        InputCoalescer { buffer: Vec::new(), last_flush: now }
    }

    /// How many bytes wait for the next flush.
    pub fn pending(&self) -> (n: usize)
        ensures
            n == self@.buffer.len(),
    {
        self.buffer.len()
    }

    /// Takes in a fragment. Nothing is flushed here.
    pub fn push(&mut self, data: &[u8])
        ensures
            final(self)@ == after_push(old(self)@, data@),
    {
        self.buffer.extend_from_slice(data);
        assert(self.buffer@ =~= old(self).buffer@ + data@);
    }

    /// Looks at the buffer at time `now`: where a flush is due, hands the
    /// whole buffer out and starts a new interval at `now`.
    pub fn poll(&mut self, now: u64) -> (batch: Option<Vec<u8>>)
        ensures
            final(self)@ == after_poll(old(self)@, now as int),
            match batch {
                Some(bytes) => poll_output(old(self)@, now as int) == Some(bytes@),
                None => poll_output(old(self)@, now as int) is None,
            },
    {
        let waited = now >= self.last_flush && now - self.last_flush >= FLUSH_INTERVAL_MS;
        if self.buffer.len() > 0 && (waited || self.buffer.len() > FLUSH_THRESHOLD) {
            let mut batch: Vec<u8> = Vec::new();
            std::mem::swap(&mut self.buffer, &mut batch);
            self.last_flush = now;
            Some(batch)
        } else {
            None
        }
    }

    /// Shutdown: hands out what is left, if anything. A second call finds
    /// nothing left.
    pub fn finish(&mut self) -> (batch: Option<Vec<u8>>)
        ensures
            final(self)@ == after_finish(old(self)@),
            match batch {
                Some(bytes) => finish_output(old(self)@) == Some(bytes@),
                None => finish_output(old(self)@) is None,
            },
    {
        if self.buffer.len() > 0 {
            let mut batch: Vec<u8> = Vec::new();
            std::mem::swap(&mut self.buffer, &mut batch);
            Some(batch)
        } else {
            assert(self.buffer@ =~= Seq::<u8>::empty());
            None
        }
    }
}

/// Nothing is lost, doubled or reordered: what was handed to the writer,
/// followed by what still waits, is what was there at the start followed by
/// all that arrived.
pub proof fn law_input_is_conserved(s: CoalescerModel, ops: Seq<InputOp>)
    ensures
        replay(s, ops).writes.flatten() + replay(s, ops).state.buffer == s.buffer + pushed(ops),
    decreases ops.len(),
{
    broadcast use Seq::lemma_flatten_push;

    if ops.len() > 0 {
        let before = replay(s, ops.drop_last());
        law_input_is_conserved(s, ops.drop_last());
        let after = replay(s, ops);
        assert(after.writes.flatten() + after.state.buffer =~= before.writes.flatten()
            + before.state.buffer + match ops.last() {
            InputOp::Push(data) => data,
            _ => Seq::<u8>::empty(),
        });
    }
}

/// After shutdown nothing waits any more: the writes, put end to end, are
/// exactly what was there at the start followed by all that arrived.
pub proof fn law_shutdown_flushes_everything(s: CoalescerModel, ops: Seq<InputOp>)
    ensures
        replay(s, ops.push(InputOp::Finish)).state.buffer.len() == 0,
        replay(s, ops.push(InputOp::Finish)).writes.flatten() == s.buffer + pushed(ops),
{
    let all = ops.push(InputOp::Finish);
    assert(all.drop_last() =~= ops);
    law_input_is_conserved(s, all);
}

/// How many fragments arrive in `ops`.
pub open spec fn fragments_in(ops: Seq<InputOp>) -> nat
    decreases ops.len(),
{
    if ops.len() == 0 {
        0
    } else if ops.last() is Push {
        fragments_in(ops.drop_last()) + 1
    } else {
        fragments_in(ops.drop_last())
    }
}

/// `ops` is a burst that begins at `start`: fragments arrive and the worker
/// looks at the buffer, all within less than one flush interval from `start`.
pub open spec fn is_burst(start: int, ops: Seq<InputOp>) -> bool {
    forall|i: int|
        0 <= i < ops.len() ==> match #[trigger] ops[i] {
            InputOp::Push(_) => true,
            InputOp::Poll(now) => start <= now < start + FLUSH_INTERVAL_MS,
            InputOp::Finish => false,
        }
}

/// The coalescer as it is made at time `start`.
pub open spec fn fresh(start: int) -> CoalescerModel {
    CoalescerModel { buffer: Seq::empty(), last_flush: start }
}

/// Within a burst no flush is made for time's sake, so every batch that
/// leaves is larger than the size threshold.
pub proof fn lemma_burst_writes_are_large(start: int, ops: Seq<InputOp>)
    requires
        is_burst(start, ops),
    ensures
        start <= replay(fresh(start), ops).state.last_flush < start + FLUSH_INTERVAL_MS,
        replay(fresh(start), ops).writes.len() * (FLUSH_THRESHOLD + 1) <= replay(
            fresh(start),
            ops,
        ).writes.flatten().len(),
    decreases ops.len(),
{
    broadcast use Seq::lemma_flatten_push;

    if ops.len() > 0 {
        let head = ops.drop_last();
        lemma_burst_writes_are_large(start, head);
    }
}

/// Coalescing: where fragments arrive faster than the flush interval, and
/// are small enough that the size threshold alone cannot give each its own
/// batch, the writer gets strictly fewer batches than fragments arrived; and
/// the batches, put end to end, are the fragments put end to end.
pub proof fn law_burst_is_coalesced(start: int, ops: Seq<InputOp>)
    requires
        is_burst(start, ops),
        pushed(ops).len() < (fragments_in(ops) - 1) * (FLUSH_THRESHOLD + 1),
    ensures
        replay(fresh(start), ops.push(InputOp::Finish)).writes.len() < fragments_in(ops),
        replay(fresh(start), ops.push(InputOp::Finish)).writes.flatten() == pushed(ops),
{
    let all = ops.push(InputOp::Finish);
    assert(all.drop_last() =~= ops);
    lemma_burst_writes_are_large(start, ops);
    law_input_is_conserved(fresh(start), ops);
    law_shutdown_flushes_everything(fresh(start), ops);
    let before = replay(fresh(start), ops);
    let k = before.writes.len() as int;
    let n = fragments_in(ops) as int;
    let unit = FLUSH_THRESHOLD as int + 1;
    assert(k < n - 1) by (nonlinear_arith)
        requires
            k * unit < (n - 1) * unit,
            unit > 0,
    ;
}

/// A burst that stays within the size threshold leaves as one batch.
pub proof fn law_small_burst_is_one_write(start: int, ops: Seq<InputOp>)
    requires
        is_burst(start, ops),
        0 < pushed(ops).len() <= FLUSH_THRESHOLD,
    ensures
        replay(fresh(start), ops.push(InputOp::Finish)).writes == seq![pushed(ops)],
{
    let all = ops.push(InputOp::Finish);
    assert(all.drop_last() =~= ops);
    lemma_burst_writes_are_large(start, ops);
    law_input_is_conserved(fresh(start), ops);
}

/// A second shutdown hands nothing to the writer: the remainder is flushed
/// once.
pub proof fn law_remainder_is_flushed_once(s: CoalescerModel)
    ensures
        finish_output(after_finish(s)) is None,
        after_finish(after_finish(s)) == after_finish(s),
{
}

} // verus!

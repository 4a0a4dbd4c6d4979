//! The capture tee: a side channel that offers every decoded audio block to a
//! visualization consumer without ever blocking or slowing playback.
//!
//! Blocks are converted to the canonical capture format and sent with a
//! non-blocking send into a bounded queue. A full queue drops the block —
//! playback takes priority over visualization fidelity — and a torn-down
//! consumer is reported, never fatal.

use vstd::prelude::*;
use crate::audio::{canonical_samples, SampleChunk};

verus! {

/// How many blocks the capture queue holds before new ones are dropped.
pub const CAPTURE_QUEUE_CAPACITY: usize = 100;

/// How many queued-but-unplayed output blocks the wrapped playback sink
/// tolerates before the playback thread briefly sleeps. Independent of the
/// capture queue's bound.
pub const PLAYBACK_QUEUE_LIMIT: usize = 26;

#[verifier::external_type_specification]
#[verifier::external_body]
#[verifier::reject_recursive_types(T)]
pub struct ExSender<T>(crossbeam_channel::Sender<T>);

#[verifier::external_type_specification]
#[verifier::external_body]
#[verifier::reject_recursive_types(T)]
pub struct ExReceiver<T>(crossbeam_channel::Receiver<T>);

/// Relies on `crossbeam_channel::bounded`: a first-in-first-out channel
/// holding at most `cap` messages. It panics only on a capacity too large to
/// allocate, which the precondition rules out.
#[verifier::external_body]
fn bounded_chunk_channel(cap: usize) -> (
    crossbeam_channel::Sender<Vec<u32>>,
    crossbeam_channel::Receiver<Vec<u32>>,
)
    requires
        1 <= cap <= 0x1000_0000,
{
    crossbeam_channel::bounded(cap)
}

/// What became of one offered block.
pub enum SendAttempt {
    /// The block sits in the queue for the consumer.
    Sent,
    /// The queue was full at this moment; the block comes back untouched.
    Full(Vec<u32>),
    /// The consumer side is gone; the block comes back untouched.
    Disconnected(Vec<u32>),
}

/// Relies on `crossbeam_channel::Sender::try_send`: it never blocks, and
/// either delivers the message or returns that very message inside the error
/// when the channel is full or every receiver is gone.
#[verifier::external_body]
fn try_send_chunk(sender: &crossbeam_channel::Sender<Vec<u32>>, chunk: Vec<u32>) -> (r: SendAttempt)
    ensures
        match r {
            SendAttempt::Sent => true,
            SendAttempt::Full(c) => c == chunk,
            SendAttempt::Disconnected(c) => c == chunk,
        },
{
    match sender.try_send(chunk) {
        Ok(()) => SendAttempt::Sent,
        Err(crossbeam_channel::TrySendError::Full(c)) => SendAttempt::Full(c),
        Err(crossbeam_channel::TrySendError::Disconnected(c)) => SendAttempt::Disconnected(c),
    }
}

/// How the tee reports one submission to its caller.
#[derive(Clone, Copy, PartialEq, Eq, Structural, Debug)]
pub enum SubmitOutcome {
    /// The block was handed to the consumer's queue.
    Delivered,
    /// The queue was full: the block was dropped, playback goes on.
    Dropped,
    /// The consumer is gone: non-fatal, playback goes on.
    Detached,
}

/// The capture tee. It owns the sending side of the process-wide capture
/// channel; the matching receiver is handed to the consumer at construction.
pub struct CaptureTee {
    sender: crossbeam_channel::Sender<Vec<u32>>,
    capacity: usize,
}

impl CaptureTee {
    /// The queue bound this tee was built with.
    pub closed spec fn spec_capacity(self) -> usize {
        self.capacity
    }

    /// The queue bound this tee was built with.
    pub fn capacity(&self) -> (c: usize)
        ensures
            c == self.spec_capacity(),
    {
        self.capacity
    }

    /// Relies on `crossbeam_channel::Sender::clone`: another sending handle to
    /// the same channel, so each playback sink instance can hold its own.
    #[verifier::external_body]
    pub fn duplicate(&self) -> (t: CaptureTee)
        ensures
            t.spec_capacity() == self.spec_capacity(),
    {
        CaptureTee { sender: self.sender.clone(), capacity: self.capacity }
    }

    /// Builds the capture channel with the given bound and returns the tee
    /// together with the consumer's receiving side.
    pub fn new(capacity: usize) -> (r: (CaptureTee, crossbeam_channel::Receiver<Vec<u32>>))
        requires
            1 <= capacity <= 0x1000_0000,
        ensures
            r.0.spec_capacity() == capacity,
    {
        let (sender, receiver) = bounded_chunk_channel(capacity);
        (CaptureTee { sender, capacity }, receiver)
    }

    /// Offers one converted block to the consumer, never blocking: the block
    /// is sent with space in the queue, dropped without it, and a vanished
    /// consumer is reported as such.
    pub fn submit_canonical(&self, samples: Vec<u32>) -> SubmitOutcome {
        match try_send_chunk(&self.sender, samples) {
            SendAttempt::Sent => SubmitOutcome::Delivered,
            SendAttempt::Full(_) => SubmitOutcome::Dropped,
            SendAttempt::Disconnected(_) => SubmitOutcome::Detached,
        }
    }

    /// Converts one decoded block to the canonical capture format and offers
    /// it to the consumer without blocking.
    pub fn submit(&self, chunk: SampleChunk) -> SubmitOutcome {
        let samples = canonical_samples(chunk);
        self.submit_canonical(samples)
    }
}

/// Whether the playback thread must pause briefly before appending another
/// block: only while more than the playback bound is already queued.
pub fn needs_playback_backpressure(pending_blocks: usize) -> (r: bool)
    ensures
        r == (pending_blocks > PLAYBACK_QUEUE_LIMIT),
{
    pending_blocks > PLAYBACK_QUEUE_LIMIT
}

} // verus!

//! The audio delivery pipeline: a bounded byte ring buffer between the
//! speech synthesis context and the real-time output writer task.
//!
//! The ring buffer owns a fixed byte budget set at construction. Writers
//! enqueue variable-length frame records; a write that would push the total
//! of queued and still-unreleased bytes over the budget is rejected with
//! [`Overflow`] and leaves the queue untouched, so the synthesis context
//! never blocks on a stalled reader. The reader takes frames strictly in
//! write order, and storage for a frame counts against the budget until the
//! reader releases it after transmitting it to the output device.

use vstd::prelude::*;

verus! {

/// Ring-buffer byte budget used at startup: one second of 16 kHz mono
/// PCM16 audio.
pub const AUDIO_BUFFER_BYTES: usize = 32000;

/// Rejection of a ring-buffer write that would exceed the remaining free
/// capacity. The queued frames are unchanged.
#[derive(Clone, Copy, PartialEq, Eq, Structural, Debug)]
pub struct Overflow;

/// Total byte count of a sequence of frame records.
pub open spec fn total_bytes(frames: Seq<Seq<u8>>) -> int
    decreases frames.len(),
{
    if frames.len() == 0 {
        0
    } else {
        frames[0].len() + total_bytes(frames.drop_first())
    }
}

pub proof fn lemma_total_bytes_nonneg(frames: Seq<Seq<u8>>)
    ensures
        total_bytes(frames) >= 0,
    decreases frames.len(),
{
    if frames.len() > 0 {
        lemma_total_bytes_nonneg(frames.drop_first());
    }
}

pub proof fn lemma_total_bytes_push(frames: Seq<Seq<u8>>, f: Seq<u8>)
    ensures
        total_bytes(frames.push(f)) == total_bytes(frames) + f.len(),
    decreases frames.len(),
{
    if frames.len() == 0 {
        assert(frames.push(f).drop_first() =~= frames);
    } else {
        assert(frames.push(f).drop_first() =~= frames.drop_first().push(f));
        lemma_total_bytes_push(frames.drop_first(), f);
    }
}

/// Law: a sequence of writes whose cumulative bytes stay within the free
/// capacity is accepted in full. Whenever the queued frames, the
/// outstanding bytes and a whole incoming batch fit the capacity together,
/// the next write fits — so [`RingBuffer::write`] accepts it and appends
/// it behind the queued frames, in order and without loss — and the
/// remaining batch still fits afterwards; by induction every frame of the
/// batch is accepted, in write order.
pub proof fn lemma_writes_within_capacity_accepted(
    queued: Seq<Seq<u8>>,
    outstanding: int,
    capacity: int,
    incoming: Seq<Seq<u8>>,
)
    requires
        0 <= outstanding,
        incoming.len() > 0,
        total_bytes(queued) + outstanding + total_bytes(incoming) <= capacity,
    ensures
        total_bytes(queued) + outstanding + incoming[0].len() <= capacity,
        total_bytes(queued.push(incoming[0])) + outstanding + total_bytes(
            incoming.drop_first(),
        ) <= capacity,
{
    lemma_total_bytes_nonneg(incoming.drop_first());
    lemma_total_bytes_push(queued, incoming[0]);
}

/// Bounded byte queue of variable-length frame records, bridging the
/// synthesis and audio-output timing domains.
pub struct RingBuffer {
    capacity: usize,
    records: Vec<Vec<u8>>,
    queued: usize,
    outstanding: usize,
}

impl RingBuffer {
    /// The queued, not yet read, frame records in write order.
    pub closed spec fn frames(&self) -> Seq<Seq<u8>> {
        self.records.deep_view()
    }

    /// The fixed byte budget chosen at construction.
    pub closed spec fn capacity(&self) -> int {
        self.capacity as int
    }

    /// Bytes of frames handed to the reader and not yet released.
    pub closed spec fn outstanding(&self) -> int {
        self.outstanding as int
    }

    /// The internal byte counter agrees with the queued frames.
    pub closed spec fn accounting(&self) -> bool {
        self.queued == total_bytes(self.frames())
    }

    /// The accounting invariant: every queued or outstanding byte is
    /// covered by the budget.
    pub open spec fn wf(&self) -> bool {
        &&& self.accounting()
        &&& total_bytes(self.frames()) + self.outstanding() <= self.capacity()
    }

    /// Creates an empty ring buffer with a fixed byte budget.
    pub fn new(capacity: usize) -> (rb: RingBuffer)
        ensures
            rb.wf(),
            rb.frames() =~= Seq::<Seq<u8>>::empty(),
            rb.capacity() == capacity,
            rb.outstanding() == 0,
    {
        let rb = RingBuffer { capacity, records: Vec::new(), queued: 0, outstanding: 0 };
        proof {
            assert(rb.records.deep_view() =~~= Seq::<Seq<u8>>::empty());
        }
        rb
    }

    /// Enqueues one frame record behind all queued frames. Succeeds exactly
    /// when the frame fits in the free capacity; otherwise reports
    /// [`Overflow`] and leaves every queued frame in place.
    pub fn write(&mut self, frame: Vec<u8>) -> (r: Result<(), Overflow>)
        requires
            old(self).wf(),
        ensures
            final(self).wf(),
            final(self).capacity() == old(self).capacity(),
            final(self).outstanding() == old(self).outstanding(),
            r is Ok <==> total_bytes(old(self).frames()) + old(self).outstanding() + frame@.len()
                <= old(self).capacity(),
            r is Ok ==> final(self).frames() =~= old(self).frames().push(frame@),
            r is Err ==> final(self).frames() =~= old(self).frames(),
    {
        proof {
            lemma_total_bytes_nonneg(self.frames());
        }
        let free = self.capacity - self.queued - self.outstanding;
        if frame.len() <= free {
            proof {
                lemma_total_bytes_push(self.frames(), frame@);
            }
            let ghost old_frames = self.frames();
            let len = frame.len();
            self.records.push(frame);
            proof {
                assert(self.records.deep_view() =~~= old_frames.push(frame@));
            }
            self.queued = self.queued + len;
            Ok(())
        } else {
            Err(Overflow)
        }
    }

    /// Dequeues the oldest unread frame, or returns `None` when the queue
    /// is empty — for the output task, which waits with a bounded timeout
    /// and treats an empty result as the timeout case, not an error. The
    /// frame's bytes stay charged against the budget until
    /// [`RingBuffer::release`].
    pub fn read(&mut self) -> (r: Option<Vec<u8>>)
        requires
            old(self).wf(),
        ensures
            final(self).wf(),
            final(self).capacity() == old(self).capacity(),
            old(self).frames().len() == 0 ==> r is None && *final(self) == *old(self),
            old(self).frames().len() > 0 ==> {
                &&& r matches Some(frame) && frame@ == old(self).frames()[0]
                &&& final(self).frames() =~= old(self).frames().drop_first()
                &&& final(self).outstanding() == old(self).outstanding()
                    + old(self).frames()[0].len()
            },
    {
        if self.records.len() == 0 {
            proof {
                assert(self.frames().len() == 0);
            }
            None
        } else {
            let ghost old_frames = self.frames();
            let frame = self.records.remove(0);
            proof {
                assert(self.records.deep_view() =~~= old_frames.drop_first());
                assert(frame@ == old_frames[0]);
                assert(total_bytes(old_frames) == old_frames[0].len()
                    + total_bytes(old_frames.drop_first()));
                lemma_total_bytes_nonneg(old_frames.drop_first());
            }
            self.queued = self.queued - frame.len();
            self.outstanding = self.outstanding + frame.len();
            Some(frame)
        }
    }

    /// Returns a frame's storage to the free pool. To be called exactly
    /// once per frame obtained from [`RingBuffer::read`]; this is the only
    /// operation that creates free capacity.
    pub fn release(&mut self, frame: Vec<u8>)
        requires
            old(self).wf(),
            frame@.len() <= old(self).outstanding(),
        ensures
            final(self).wf(),
            final(self).capacity() == old(self).capacity(),
            final(self).frames() =~= old(self).frames(),
            final(self).outstanding() == old(self).outstanding() - frame@.len(),
    {
        self.outstanding = self.outstanding - frame.len();
    }
}

/// The writer yields to the scheduler once per this many processed
/// frames, so a continuously busy pipeline still satisfies the host's
/// watchdog.
pub const WRITER_YIELD_INTERVAL: u64 = 100;

/// What the output writer concluded from one processed frame.
#[derive(Clone, Copy, PartialEq, Eq, Structural, Debug)]
pub struct WriterStep {
    /// The device accepted fewer bytes than the frame held: log a
    /// warning, never fail the pipeline.
    pub short_write: bool,
    /// Yield to the scheduler before the next frame.
    pub yield_now: bool,
    /// Frames processed so far, this one included; wraps at the type
    /// bound.
    pub frames_done: u64,
}

/// Decides, after the output device accepted `bytes_written` bytes of a
/// `frame_len`-byte frame, whether the write fell short and whether the
/// writer task owes the scheduler a yield.
pub fn writer_step(frame_len: usize, bytes_written: usize, frames_done: u64) -> (r: WriterStep)
    ensures
        r.short_write == (bytes_written != frame_len),
        frames_done < u64::MAX ==> r.frames_done == frames_done + 1,
        frames_done == u64::MAX ==> r.frames_done == 0,
        r.yield_now == (r.frames_done % WRITER_YIELD_INTERVAL == 0),
{
    let done = frames_done.wrapping_add(1);
    proof {
        if frames_done < u64::MAX {
            assert(vstd::wrapping::u64_specs::wrapping_add(frames_done, 1u64) == frames_done
                + 1);
        } else {
            assert(vstd::wrapping::u64_specs::wrapping_add(frames_done, 1u64) == 0) by {
                assert((u64::MAX + 1) - 0x1_0000_0000_0000_0000int == 0);
            }
        }
    }
    WriterStep {
        short_write: bytes_written != frame_len,
        yield_now: done % WRITER_YIELD_INTERVAL == 0,
        frames_done: done,
    }
}

} // verus!

//! Cutting the stream of captured samples into analysis windows.
//!
//! A sample is carried as the 32 bits of its single-precision encoding. The
//! buffer moves samples; it never does arithmetic on them.

use vstd::prelude::*;
use crate::ring::{
    ring_capacity, ring_clear, ring_get_capacity, ring_is_full, ring_items, ring_len,
    ring_push_slice, ring_snapshot, ring_try_new, SampleRing,
};

verus! {

/// Why a framing buffer could not be made.
#[derive(Clone, Copy, Debug, PartialEq, Eq, Structural)]
pub enum FramingError {
    /// A window of no samples was asked for.
    ZeroCapacity,
    /// The memory for the window could not be had.
    OutOfMemory,
}

/// How many of `offered` samples a buffer that holds `stored` of at most
/// `capacity` takes in: as many as fit.
pub open spec fn accepted_count(capacity: nat, stored: nat, offered: nat) -> nat {
    if stored >= capacity {
        0
    } else if offered <= capacity - stored {
        offered
    } else {
        (capacity - stored) as nat
    }
}

/// What a buffer holds after `samples` were offered to it: what it held,
/// then the first of the samples, as many as fit.
pub open spec fn after_push(capacity: nat, stored: Seq<u32>, samples: Seq<u32>) -> Seq<u32> {
    stored + samples.take(accepted_count(capacity, stored.len(), samples.len()) as int)
}

/// What a drain hands out: all that is stored, oldest first.
pub open spec fn window_of(stored: Seq<u32>) -> Seq<u32> {
    stored
}

/// What a buffer holds after a drain: nothing.
pub open spec fn after_drain(stored: Seq<u32>) -> Seq<u32> {
    Seq::<u32>::empty()
}

/// What one delivery from the audio device led to.
#[derive(Debug)]
pub enum CaptureStep {
    /// The buffer had room and took in this many of the samples.
    Buffered(usize),
    /// The buffer was full. Here is its window; the buffer is empty again
    /// and the samples of this delivery were let go.
    WindowReady(Vec<u32>),
}

/// A buffer of fixed capacity that collects samples until one analysis
/// window is complete.
pub struct FramingBuffer {
    ring: SampleRing,
}

impl FramingBuffer {
    /// The samples in the buffer, oldest first.
    pub closed spec fn view(&self) -> Seq<u32> {
        ring_items(self.ring)
    }

    /// The length of one window.
    pub closed spec fn spec_capacity(&self) -> nat {
        ring_capacity(self.ring)
    }

    /// The buffer holds at most one window, and a window is not empty.
    #[verifier::type_invariant]
    pub closed spec fn wf(&self) -> bool {
        0 < ring_capacity(self.ring) && ring_items(self.ring).len() <= ring_capacity(self.ring)
    }

    /// An empty buffer for windows of `capacity` samples. A capacity of zero
    /// is refused; so is one for which no memory can be had.
    pub fn new(capacity: usize) -> (r: Result<FramingBuffer, FramingError>)
        ensures
            capacity == 0 <==> r == Err::<FramingBuffer, FramingError>(FramingError::ZeroCapacity),
            r matches Ok(buffer) ==> buffer.wf() && buffer@ == Seq::<u32>::empty()
                && buffer.spec_capacity() == capacity,
    {
        if capacity == 0 {
            return Err(FramingError::ZeroCapacity);
        }
        match ring_try_new(capacity) {
            Ok(ring) => Ok(FramingBuffer { ring }),
            Err(_) => Err(FramingError::OutOfMemory),
        }
    }

    /// The length of one window.
    pub fn capacity(&self) -> (n: usize)
        ensures
            n == self.spec_capacity(),
            n > 0,
    {
        proof {
            use_type_invariant(self);
        }
        ring_get_capacity(&self.ring)
    }

    /// The number of samples in the buffer.
    pub fn len(&self) -> (n: usize)
        ensures
            n == self@.len(),
            n <= self.spec_capacity(),
    {
        proof {
            use_type_invariant(self);
        }
        ring_len(&self.ring)
    }

    /// Whether the buffer holds a whole window.
    pub fn is_full(&self) -> (b: bool)
        ensures
            b == (self@.len() == self.spec_capacity()),
    {
        proof {
            use_type_invariant(self);
        }
        ring_is_full(&self.ring)
    }

    /// Appends as many of `samples` as fit, in order, and returns how many
    /// that was. The rest is let go; the buffer never grows.
    pub fn push(&mut self, samples: &[u32]) -> (accepted: usize)
        ensures
            final(self).wf(),
            final(self).spec_capacity() == old(self).spec_capacity(),
            accepted == accepted_count(old(self).spec_capacity(), old(self)@.len(), samples@.len()),
            final(self)@ == after_push(old(self).spec_capacity(), old(self)@, samples@),
    {
        proof {
            use_type_invariant(&*self);
        }
        let capacity: usize = ring_get_capacity(&self.ring);
        let stored: usize = ring_len(&self.ring);
        let free: usize = capacity - stored;
        let accepted: usize = if samples.len() <= free {
            samples.len()
        } else {
            free
        };
        let head: &[u32] = vstd::slice::slice_subrange(samples, 0, accepted);
        ring_push_slice(&mut self.ring, head);
        accepted
    }

    /// Hands out the samples in the buffer, oldest first, and leaves the
    /// buffer empty. On a full buffer that is one whole window.
    pub fn drain_to_sequence(&mut self) -> (window: Vec<u32>)
        ensures
            final(self).wf(),
            final(self).spec_capacity() == old(self).spec_capacity(),
            window@ == window_of(old(self)@),
            final(self)@ == after_drain(old(self)@),
            old(self)@.len() == old(self).spec_capacity() ==> window@.len() == old(
                self,
            ).spec_capacity(),
    {
        proof {
            use_type_invariant(&*self);
        }
        let window: Vec<u32> = ring_snapshot(&self.ring);
        let _ = ring_clear(&mut self.ring);
        window
    }

    /// Takes one delivery from the audio device. While the buffer has room
    /// the samples are appended, as many as fit. Once the buffer is full the
    /// next delivery is not appended: the window is handed out for analysis
    /// and the buffer starts again from empty.
    pub fn on_audio_buffer(&mut self, input: &[u32]) -> (step: CaptureStep)
        ensures
            final(self).wf(),
            final(self).spec_capacity() == old(self).spec_capacity(),
            old(self)@.len() == old(self).spec_capacity() ==> (step matches CaptureStep::WindowReady(
                window,
            ) && window@ == window_of(old(self)@) && window@.len() == old(self).spec_capacity()
                && final(self)@ == after_drain(old(self)@)),
            old(self)@.len() != old(self).spec_capacity() ==> (step matches CaptureStep::Buffered(
                accepted,
            ) && accepted == accepted_count(
                old(self).spec_capacity(),
                old(self)@.len(),
                input@.len(),
            ) && final(self)@ == after_push(old(self).spec_capacity(), old(self)@, input@)),
    {
        if self.is_full() {
            CaptureStep::WindowReady(self.drain_to_sequence())
        } else {
            CaptureStep::Buffered(self.push(input))
        }
    }
}

/// A push never takes the buffer past its capacity, and it keeps what was
/// stored in front of what it adds.
pub proof fn lemma_push_stays_within_capacity(capacity: nat, stored: Seq<u32>, samples: Seq<u32>)
    requires
        stored.len() <= capacity,
    ensures
        after_push(capacity, stored, samples).len() == stored.len() + accepted_count(
            capacity,
            stored.len(),
            samples.len(),
        ),
        after_push(capacity, stored, samples).len() <= capacity,
        after_push(capacity, stored, samples).take(stored.len() as int) == stored,
{
    assert(after_push(capacity, stored, samples).take(stored.len() as int) =~= stored);
}

/// A push leaves the buffer full exactly when what was stored and what was
/// offered together reach the capacity: the buffer is full only at
/// capacity, and it is full as soon as enough was offered.
pub proof fn lemma_full_only_at_capacity(capacity: nat, stored: Seq<u32>, samples: Seq<u32>)
    requires
        stored.len() <= capacity,
    ensures
        after_push(capacity, stored, samples).len() == capacity <==> stored.len() + samples.len()
            >= capacity,
{
}

/// Two pushes in a row store what one push of the two slices joined stores:
/// how the audio device cuts the stream into deliveries does not change the
/// window.
pub proof fn lemma_pushes_compose(
    capacity: nat,
    stored: Seq<u32>,
    first: Seq<u32>,
    second: Seq<u32>,
)
    requires
        stored.len() <= capacity,
    ensures
        after_push(capacity, after_push(capacity, stored, first), second) == after_push(
            capacity,
            stored,
            first + second,
        ),
{
    assert(after_push(capacity, after_push(capacity, stored, first), second) =~= after_push(
        capacity,
        stored,
        first + second,
    ));
}

/// A buffer that was filled from empty hands out exactly `capacity`
/// samples: the first `capacity` of those that were offered, in the order
/// in which they were offered.
pub proof fn lemma_filled_window(capacity: nat, stream: Seq<u32>)
    requires
        stream.len() >= capacity,
    ensures
        window_of(after_push(capacity, Seq::<u32>::empty(), stream)) == stream.take(
            capacity as int,
        ),
        window_of(after_push(capacity, Seq::<u32>::empty(), stream)).len() == capacity,
{
    assert(after_push(capacity, Seq::<u32>::empty(), stream) =~= stream.take(capacity as int));
}

/// A drain leaves the buffer empty, and draining an empty buffer hands out
/// nothing and leaves it empty.
pub proof fn lemma_drain_leaves_empty(stored: Seq<u32>)
    ensures
        after_drain(stored).len() == 0,
        window_of(after_drain(stored)).len() == 0,
        after_drain(after_drain(stored)) == after_drain(stored),
{
}

} // verus!

//! The sample store behind the framing buffer: a heap ring buffer of the
//! `ringbuf` crate, reached through a handful of contracts that are taken
//! on trust.

use vstd::prelude::*;

verus! {

/// A `ringbuf::HeapRb` of 32-bit sample words, kept whole: it is never
/// split into a producer and a consumer half, so one owner sees every
/// change. The ring's own type is generic over a storage trait of its crate
/// that cannot be named to the verifier, so the ring is held here as an
/// opaque field.
#[verifier::external_body]
pub struct SampleRing {
    inner: ringbuf::HeapRb<u32>,
}

/// The samples that a ring holds, oldest first.
pub uninterp spec fn ring_items(ring: SampleRing) -> Seq<u32>;

/// The number of samples that a ring was made to hold.
pub uninterp spec fn ring_capacity(ring: SampleRing) -> nat;

/// `ringbuf::HeapRb::try_new`. On success the ring is empty and has the
/// capacity that was asked for. Nothing is said of when the allocation
/// succeeds. The call panics on a capacity of zero, which is left out.
#[verifier::external_body]
pub(crate) fn ring_try_new(capacity: usize) -> (r: Result<
    SampleRing,
    std::collections::TryReserveError,
>)
    requires
        capacity > 0,
    ensures
        r matches Ok(ring) ==> ring_items(ring) == Seq::<u32>::empty() && ring_capacity(ring)
            == capacity,
{
    match ringbuf::HeapRb::<u32>::try_new(capacity) {
        Ok(inner) => Ok(SampleRing { inner }),
        Err(e) => Err(e),
    }
}

/// `ringbuf::Rb::capacity`: the capacity that the ring was made with.
#[verifier::external_body]
pub(crate) fn ring_get_capacity(ring: &SampleRing) -> (n: usize)
    ensures
        n == ring_capacity(*ring),
{
    ringbuf::Rb::capacity(&ring.inner)
}

/// `ringbuf::Rb::len`: the number of samples stored.
#[verifier::external_body]
pub(crate) fn ring_len(ring: &SampleRing) -> (n: usize)
    ensures
        n == ring_items(*ring).len(),
{
    ringbuf::Rb::len(&ring.inner)
}

/// `ringbuf::ring_buffer::RbBase::is_full`: whether no place is vacant,
/// that is, whether as many samples are stored as the ring was made for.
#[verifier::external_body]
pub(crate) fn ring_is_full(ring: &SampleRing) -> (b: bool)
    requires
        ring_items(*ring).len() <= ring_capacity(*ring),
    ensures
        b == (ring_items(*ring).len() == ring_capacity(*ring)),
{
    ringbuf::ring_buffer::RbBase::is_full(&ring.inner)
}

/// `ringbuf::Rb::push_slice`: appends the whole slice behind what is
/// stored. The call panics when the slice is longer than the free space,
/// so that case is left out; with room for the slice it does not unwind.
#[verifier::external_body]
pub(crate) fn ring_push_slice(ring: &mut SampleRing, elems: &[u32])
    requires
        ring_items(*old(ring)).len() + elems@.len() <= ring_capacity(*old(ring)),
    ensures
        ring_items(*final(ring)) == ring_items(*old(ring)) + elems@,
        ring_capacity(*final(ring)) == ring_capacity(*old(ring)),
    no_unwind
{
    ringbuf::Rb::push_slice(&mut ring.inner, elems)
}

/// `ringbuf::Rb::iter`: the stored samples from the oldest to the newest.
/// The ring is left as it was.
#[verifier::external_body]
pub(crate) fn ring_snapshot(ring: &SampleRing) -> (v: Vec<u32>)
    ensures
        v@ == ring_items(*ring),
{
    ringbuf::Rb::iter(&ring.inner).copied().collect()
}

/// `ringbuf::Rb::clear`: removes every sample and returns how many there
/// were. The capacity stays, and the call does not unwind.
#[verifier::external_body]
pub(crate) fn ring_clear(ring: &mut SampleRing) -> (n: usize)
    ensures
        ring_items(*final(ring)) == Seq::<u32>::empty(),
        ring_capacity(*final(ring)) == ring_capacity(*old(ring)),
        n == ring_items(*old(ring)).len(),
    no_unwind
{
    ringbuf::Rb::clear(&mut ring.inner)
}

} // verus!

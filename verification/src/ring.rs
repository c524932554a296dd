//! The fixed-capacity circular buffer of the `ringbuffer` crate, as this
//! library sees it: three names for what a ring holds, and one contract for
//! each of its methods that the speech buffer calls. The contracts of the
//! functions in this file are believed, not proved; they restate what the
//! crate's source does.

use ringbuffer::AllocRingBuffer;
use ringbuffer::RingBuffer;
use vstd::prelude::*;

verus! {

/// `ringbuffer::AllocRingBuffer`, a ring on the heap whose capacity is fixed
/// when it is created. Nothing is known of a value of it but what the names
/// below say.
#[verifier::external_type_specification]
#[verifier::external_body]
#[verifier::reject_recursive_types(T)]
pub struct ExAllocRingBuffer<T>(AllocRingBuffer<T>);

/// The samples a ring currently holds, oldest first.
pub uninterp spec fn ring_items(ring: AllocRingBuffer<u32>) -> Seq<u32>;

/// The capacity a ring was created with.
pub uninterp spec fn ring_limit(ring: AllocRingBuffer<u32>) -> nat;

/// How many samples have been written into a ring since it was created,
/// evicted ones included. The ring keeps this count in a `usize` and steps it
/// on every write, so it bounds how much more may be written.
pub uninterp spec fn ring_written(ring: AllocRingBuffer<u32>) -> nat;

/// The largest capacity this library asks of a ring: small enough that the
/// allocation behind it (rounded up to a power of two, four bytes a sample)
/// fits on every supported target.
pub const MAX_RING_CAPACITY: usize = 0x1000_0000;

/// The `limit` most recent items of `items`, in order.
pub open spec fn keep_recent(items: Seq<u32>, limit: nat) -> Seq<u32> {
    if items.len() <= limit {
        items
    } else {
        items.subrange(items.len() - limit, items.len() as int)
    }
}

/// What a ring can be in: never more items than its capacity, never more
/// items than were written.
pub open spec fn ring_wf(ring: AllocRingBuffer<u32>) -> bool {
    &&& 0 < ring_limit(ring)
    &&& ring_items(ring).len() <= ring_limit(ring)
    &&& ring_items(ring).len() <= ring_written(ring) <= usize::MAX
}

/// `AllocRingBuffer::new`: an empty ring of the given capacity. The crate
/// panics on a capacity of zero, and sizes its allocation to the next power
/// of two; both are excluded by the bound on `capacity`.
#[verifier::external_body]
pub(crate) fn ring_new(capacity: usize) -> (ring: AllocRingBuffer<u32>)
    requires
        0 < capacity <= MAX_RING_CAPACITY,
    ensures
        ring_items(ring) == Seq::<u32>::empty(),
        ring_limit(ring) == capacity,
        ring_written(ring) == 0,
{
    AllocRingBuffer::new(capacity)
}

/// `Extend::extend` of `AllocRingBuffer`: enqueues the samples one by one,
/// each write evicting the oldest item once the ring is full, so that the
/// ring ends up holding the most recent `capacity` items of its former
/// contents followed by `batch`. The crate steps its write count without a
/// check for overflow; the bound on the count excludes that.
#[verifier::external_body]
pub(crate) fn ring_extend(ring: &mut AllocRingBuffer<u32>, batch: &[u32])
    requires
        ring_wf(*old(ring)),
        ring_written(*old(ring)) + batch@.len() <= usize::MAX,
    ensures
        ring_limit(*final(ring)) == ring_limit(*old(ring)),
        ring_written(*final(ring)) == ring_written(*old(ring)) + batch@.len(),
        ring_items(*final(ring)) == keep_recent(
            ring_items(*old(ring)) + batch@,
            ring_limit(*old(ring)),
        ),
{
    ring.extend(batch.iter().copied());
}

/// `RingBuffer::len`: the number of items held.
#[verifier::external_body]
pub(crate) fn ring_len(ring: &AllocRingBuffer<u32>) -> (n: usize)
    ensures
        n == ring_items(*ring).len(),
{
    ring.len()
}

/// `RingBuffer::to_vec`: a copy of the items held, oldest first.
#[verifier::external_body]
pub(crate) fn ring_to_vec(ring: &AllocRingBuffer<u32>) -> (items: Vec<u32>)
    ensures
        items@ == ring_items(*ring),
{
    ring.to_vec()
}

} // verus!

//! The sample queue: a bounded first-in, first-out queue of samples, and the
//! producer and consumer halves that it splits into.
//!
//! The queue itself is `ringbuf`'s lock-free ring buffer. Its types are bound
//! by traits of that crate, which Verus cannot be told of, so each is kept in
//! a struct whose inside Verus does not look at. What Verus is told of the
//! buffer stands in the functions marked `external_body`; everything else in
//! this module is proved from those statements.

use ringbuf::{HeapConsumer, HeapProducer, HeapRb, Rb};
use vstd::prelude::*;

verus! {

/// A `ringbuf::HeapRb<u32>` that has not been split.
#[verifier::external_body]
pub struct RawRing {
    rb: HeapRb<u32>,
}

/// The producer half of a split `ringbuf::HeapRb<u32>`.
#[verifier::external_body]
pub struct RawProducer {
    half: HeapProducer<u32>,
}

/// The consumer half of a split `ringbuf::HeapRb<u32>`.
#[verifier::external_body]
pub struct RawConsumer {
    half: HeapConsumer<u32>,
}

/// The samples in an unsplit ring buffer, oldest first.
pub uninterp spec fn ring_contents(ring: RawRing) -> Seq<u32>;

/// The number of samples that an unsplit ring buffer was made to hold.
pub uninterp spec fn ring_capacity(ring: RawRing) -> nat;

/// The samples that were in the ring buffer, oldest first, when the producer
/// half last touched it. The consumer can only have taken samples off the
/// front since, so the buffer now holds a suffix of these.
pub uninterp spec fn producer_queued(producer: RawProducer) -> Seq<u32>;

/// The number of samples that the ring buffer behind a producer half was made
/// to hold.
pub uninterp spec fn producer_capacity(producer: RawProducer) -> nat;

/// The samples that were in the ring buffer, oldest first, when the consumer
/// half last touched it. The producer can only have added samples at the back
/// since, so these are a prefix of what the buffer now holds.
pub uninterp spec fn consumer_pending(consumer: RawConsumer) -> Seq<u32>;

/// `HeapRb::new`: an empty ring buffer of the given capacity. It panics on a
/// capacity of zero and on one whose storage exceeds `isize::MAX` bytes, which
/// the precondition leaves out. It also panics when the allocator fails,
/// which no precondition can tell.
#[verifier::external_body]
fn raw_ring_new(capacity: usize) -> (ring: RawRing)
    requires
        0 < capacity,
        4 * capacity <= isize::MAX,
    ensures
        ring_contents(ring) == Seq::<u32>::empty(),
        ring_capacity(ring) == capacity,
{
    RawRing { rb: HeapRb::<u32>::new(capacity) }
}

/// `Rb::push` on an unsplit ring buffer: while there is room the sample goes
/// to the back; when the buffer is full the sample comes back in `Err` and the
/// buffer is left as it was.
#[verifier::external_body]
fn raw_ring_push(ring: &mut RawRing, sample: u32) -> (r: Result<(), u32>)
    ensures
        ring_capacity(*final(ring)) == ring_capacity(*old(ring)),
        match r {
            Ok(_) => ring_contents(*old(ring)).len() < ring_capacity(*old(ring))
                && ring_contents(*final(ring)) == ring_contents(*old(ring)).push(sample),
            Err(back) => back == sample
                && ring_contents(*old(ring)).len() >= ring_capacity(*old(ring))
                && ring_contents(*final(ring)) == ring_contents(*old(ring)),
        },
    no_unwind
{
    ring.rb.push(sample)
}

/// `Rb::pop` on an unsplit ring buffer: the oldest sample leaves; an empty
/// buffer gives `None` and is left as it was.
#[verifier::external_body]
fn raw_ring_pop(ring: &mut RawRing) -> (r: Option<u32>)
    ensures
        ring_capacity(*final(ring)) == ring_capacity(*old(ring)),
        match r {
            Some(sample) => ring_contents(*old(ring)).len() > 0
                && sample == ring_contents(*old(ring)).first()
                && ring_contents(*final(ring)) == ring_contents(*old(ring)).drop_first(),
            None => ring_contents(*old(ring)).len() == 0
                && ring_contents(*final(ring)) == ring_contents(*old(ring)),
        },
    no_unwind
{
    ring.rb.pop()
}

/// `SharedRb::split`: both halves start from what the buffer held.
#[verifier::external_body]
fn raw_ring_split(ring: RawRing) -> (halves: (RawProducer, RawConsumer))
    ensures
        producer_queued(halves.0) == ring_contents(ring),
        producer_capacity(halves.0) == ring_capacity(ring),
        consumer_pending(halves.1) == ring_contents(ring),
{
    let (producer, consumer) = ring.rb.split();
    (RawProducer { half: producer }, RawConsumer { half: consumer })
}

/// `Producer::push`. The consumer may have taken samples off the front in the
/// meantime, so after a success the buffer holds some suffix of what the
/// producer last saw, followed by the new sample. A failure means that the
/// buffer was full, hence that nothing had been taken: the sample comes back
/// and the buffer is as the producer last saw it. The buffer never holds more
/// than its capacity.
#[verifier::external_body]
fn raw_producer_push(producer: &mut RawProducer, sample: u32) -> (r: Result<(), u32>)
    ensures
        producer_capacity(*final(producer)) == producer_capacity(*old(producer)),
        producer_queued(*final(producer)).len() <= producer_capacity(*final(producer)),
        match r {
            Ok(_) => producer_queued(*final(producer)).len() > 0
                && producer_queued(*final(producer)).last() == sample
                && producer_queued(*final(producer)).drop_last().is_suffix_of(
                    producer_queued(*old(producer)),
                ),
            Err(back) => back == sample
                && producer_queued(*old(producer)).len() >= producer_capacity(*old(producer))
                && producer_queued(*final(producer)) == producer_queued(*old(producer)),
        },
    no_unwind
{
    producer.half.push(sample)
}

/// `Consumer::pop`. The producer may have added samples at the back in the
/// meantime. If the consumer knew of a sample, the oldest one comes out and
/// the rest stays at the front. `None` means that the buffer was empty. A
/// sample that comes out of a buffer last seen empty is one that arrived
/// since, and nothing is said of it.
#[verifier::external_body]
fn raw_consumer_pop(consumer: &mut RawConsumer) -> (r: Option<u32>)
    ensures
        match r {
            Some(sample) => consumer_pending(*old(consumer)).len() > 0 ==> {
                &&& sample == consumer_pending(*old(consumer)).first()
                &&& consumer_pending(*old(consumer)).drop_first().is_prefix_of(
                    consumer_pending(*final(consumer)),
                )
            },
            None => consumer_pending(*old(consumer)).len() == 0
                && consumer_pending(*final(consumer)).len() == 0,
        },
{
    consumer.half.pop()
}

/// What a push does to a queue of the given capacity: the contents after it.
pub open spec fn spec_push(items: Seq<u32>, capacity: nat, sample: u32) -> Seq<u32> {
    if items.len() < capacity {
        items.push(sample)
    } else {
        items
    }
}

/// What a pop does to a queue: the contents after it.
pub open spec fn spec_pop(items: Seq<u32>) -> Seq<u32> {
    if items.len() > 0 {
        items.drop_first()
    } else {
        items
    }
}

/// One step of a queue's use.
pub enum RingOp {
    /// An attempt to queue the sample.
    Push(u32),
    /// An attempt to take the oldest sample out.
    Pop,
}

/// What a run of pushes and pops leaves behind.
pub struct RingRun {
    /// The samples still queued, oldest first.
    pub items: Seq<u32>,
    /// The samples whose push succeeded, in the order of the pushes.
    pub accepted: Seq<u32>,
    /// The samples that the pops returned, in the order of the pops.
    pub popped: Seq<u32>,
}

/// Applies `ops` in order to a queue of the given capacity that holds `items`.
pub open spec fn run_ops(items: Seq<u32>, capacity: nat, ops: Seq<RingOp>) -> RingRun
    decreases ops.len(),
{
    if ops.len() == 0 {
        RingRun { items, accepted: Seq::empty(), popped: Seq::empty() }
    } else {
        let before = run_ops(items, capacity, ops.drop_last());
        match ops.last() {
            RingOp::Push(sample) => RingRun {
                items: spec_push(before.items, capacity, sample),
                accepted: if before.items.len() < capacity {
                    before.accepted.push(sample)
                } else {
                    before.accepted
                },
                popped: before.popped,
            },
            RingOp::Pop => RingRun {
                items: spec_pop(before.items),
                accepted: before.accepted,
                popped: if before.items.len() > 0 {
                    before.popped.push(before.items.first())
                } else {
                    before.popped
                },
            },
        }
    }
}

/// First in, first out: however pushes and pops alternate, the samples popped
/// followed by the samples still queued are the samples queued at the start
/// followed by those whose push succeeded, each in its order. Nothing is
/// lost, repeated, reordered or overwritten, and the queue never holds more
/// than its capacity.
pub proof fn lemma_fifo_order(items: Seq<u32>, capacity: nat, ops: Seq<RingOp>)
    requires
        items.len() <= capacity,
    ensures
        run_ops(items, capacity, ops).popped + run_ops(items, capacity, ops).items == items
            + run_ops(items, capacity, ops).accepted,
        run_ops(items, capacity, ops).items.len() <= capacity,
    decreases ops.len(),
{
    if ops.len() > 0 {
        lemma_fifo_order(items, capacity, ops.drop_last());
        let before = run_ops(items, capacity, ops.drop_last());
        let after = run_ops(items, capacity, ops);
        let whole = before.popped + before.items;
        assert(whole == items + before.accepted);
        match ops.last() {
            RingOp::Push(sample) => {
                if before.items.len() < capacity {
                    assert(after.popped + after.items =~= whole.push(sample));
                    assert(items + after.accepted =~= whole.push(sample));
                }
            },
            RingOp::Pop => {
                if before.items.len() > 0 {
                    assert(after.popped + after.items =~= whole);
                }
            },
        }
    } else {
        let after = run_ops(items, capacity, ops);
        assert(after.popped + after.items =~= items + after.accepted);
    }
}

/// A refused push changes nothing: the samples queued before a push onto a
/// full queue are the samples queued after it.
pub proof fn lemma_full_push_keeps_items(items: Seq<u32>, capacity: nat, sample: u32)
    requires
        items.len() >= capacity,
    ensures
        spec_push(items, capacity, sample) == items,
{
}

/// A fixed-capacity first-in, first-out queue of samples, owned by one party.
///
/// A push onto a full queue is refused and the sample dropped; nothing that
/// is queued is ever overwritten.
pub struct SampleRing {
    raw: RawRing,
    capacity: usize,
}

impl View for SampleRing {
    type V = Seq<u32>;

    /// The queued samples, oldest first.
    closed spec fn view(&self) -> Seq<u32> {
        ring_contents(self.raw)
    }
}

impl SampleRing {
    /// The number of samples the queue can hold.
    pub closed spec fn spec_capacity(&self) -> nat {
        ring_capacity(self.raw)
    }

    #[verifier::type_invariant]
    spec fn inv(&self) -> bool {
        &&& self.capacity == ring_capacity(self.raw)
        &&& ring_contents(self.raw).len() <= ring_capacity(self.raw)
        &&& 0 < self.capacity
    }

    /// An empty queue of the given capacity.
    pub fn new(capacity: usize) -> (ring: Self)
        requires
            0 < capacity,
            4 * capacity <= isize::MAX,
        ensures
            ring@ == Seq::<u32>::empty(),
            ring.spec_capacity() == capacity,
    {
        SampleRing { raw: raw_ring_new(capacity), capacity }
    }

    /// A full queue of the given capacity, every sample zero.
    pub fn filled(capacity: usize) -> (ring: Self)
        requires
            0 < capacity,
            4 * capacity <= isize::MAX,
        ensures
            ring@ == Seq::new(capacity as nat, |i: int| 0u32),
            ring.spec_capacity() == capacity,
    {
        let mut raw = raw_ring_new(capacity);
        let mut n: usize = 0;
        while n < capacity
            invariant
                n <= capacity,
                ring_capacity(raw) == capacity,
                ring_contents(raw) == Seq::new(n as nat, |i: int| 0u32),
            decreases capacity - n,
        {
            let _ = raw_ring_push(&mut raw, 0);
            n = n + 1;
        }
        SampleRing { raw, capacity }
    }

    /// The number of samples the queue can hold, which is at least one and
    /// never less than the number it holds.
    pub fn capacity(&self) -> (n: usize)
        ensures
            n == self.spec_capacity(),
            0 < n,
            self@.len() <= n,
    {
        proof {
            use_type_invariant(self);
        }
        self.capacity
    }

    /// Queues a sample behind all others, or gives it back when the queue is
    /// full.
    pub fn push(&mut self, sample: u32) -> (r: Result<(), u32>)
        ensures
            final(self).spec_capacity() == old(self).spec_capacity(),
            final(self)@ == spec_push(old(self)@, old(self).spec_capacity(), sample),
            match r {
                Ok(_) => old(self)@.len() < old(self).spec_capacity(),
                Err(back) => back == sample && old(self)@.len() == old(self).spec_capacity(),
            },
    {
        proof {
            use_type_invariant(&*self);
        }
        raw_ring_push(&mut self.raw, sample)
    }

    /// Takes the oldest sample out, or reports an empty queue.
    pub fn pop(&mut self) -> (r: Option<u32>)
        ensures
            final(self).spec_capacity() == old(self).spec_capacity(),
            final(self)@ == spec_pop(old(self)@),
            match r {
                Some(sample) => old(self)@.len() > 0 && sample == old(self)@.first(),
                None => old(self)@.len() == 0,
            },
    {
        proof {
            use_type_invariant(&*self);
        }
        raw_ring_pop(&mut self.raw)
    }

    /// Parts the queue into the half that pushes and the half that pops, so
    /// that each can go to a thread of its own. Both start from the samples
    /// queued so far.
    pub fn split(self) -> (halves: (SampleProducer, SampleConsumer))
        ensures
            halves.0.queued() == self@,
            halves.0.spec_capacity() == self.spec_capacity(),
            halves.1.pending() == self@,
    {
        proof {
            use_type_invariant(&self);
        }
        let (producer, consumer) = raw_ring_split(self.raw);
        (SampleProducer { raw: producer }, SampleConsumer { raw: consumer })
    }
}

/// The pushing half of a split queue.
///
/// The popping half works on the same queue from another thread, so this half
/// knows the queue only up to what may have been popped meanwhile.
pub struct SampleProducer {
    raw: RawProducer,
}

impl SampleProducer {
    /// The queue as this half last saw it, oldest sample first. The queue now
    /// holds a suffix of it.
    pub closed spec fn queued(&self) -> Seq<u32> {
        producer_queued(self.raw)
    }

    /// The number of samples the queue can hold.
    pub closed spec fn spec_capacity(&self) -> nat {
        producer_capacity(self.raw)
    }

    #[verifier::type_invariant]
    spec fn inv(&self) -> bool {
        producer_queued(self.raw).len() <= producer_capacity(self.raw)
    }

    /// Queues a sample behind all others, or gives it back when the queue is
    /// full. It never waits. With room known to be left it succeeds; a
    /// refusal shows that the queue was full and leaves it untouched.
    pub fn push(&mut self, sample: u32) -> (r: Result<(), u32>)
        ensures
            final(self).spec_capacity() == old(self).spec_capacity(),
            final(self).queued().len() <= final(self).spec_capacity(),
            match r {
                Ok(_) => final(self).queued().len() > 0
                    && final(self).queued().last() == sample
                    && final(self).queued().drop_last().is_suffix_of(old(self).queued()),
                Err(back) => back == sample
                    && old(self).queued().len() == old(self).spec_capacity()
                    && final(self).queued() == old(self).queued(),
            },
    {
        proof {
            use_type_invariant(&*self);
        }
        raw_producer_push(&mut self.raw, sample)
    }
}

/// The popping half of a split queue.
///
/// The pushing half works on the same queue from another thread, so this half
/// knows the queue only up to what may have been pushed meanwhile.
pub struct SampleConsumer {
    raw: RawConsumer,
}

impl SampleConsumer {
    /// The queue as this half last saw it, oldest sample first. The queue now
    /// starts with these samples.
    pub closed spec fn pending(&self) -> Seq<u32> {
        consumer_pending(self.raw)
    }

    /// Takes the oldest sample out, or reports an empty queue. It never
    /// waits. A sample known to be queued comes out, in order; `None` shows
    /// that the queue was empty.
    pub fn pop(&mut self) -> (r: Option<u32>)
        ensures
            match r {
                Some(sample) => old(self).pending().len() > 0 ==> {
                    &&& sample == old(self).pending().first()
                    &&& old(self).pending().drop_first().is_prefix_of(final(self).pending())
                },
                None => old(self).pending().len() == 0 && final(self).pending().len() == 0,
            },
    {
        raw_consumer_pop(&mut self.raw)
    }
}

} // verus!

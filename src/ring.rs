//! The hand-off ring: a bounded first-in first-out queue of samples between the
//! capture callback and the analysis worker.
//!
//! A sample travels as the `u32` bit pattern of its single-precision value, so
//! that the queue's contents are plain integers.
use vstd::prelude::*;

verus! {

/// ringbuf's producing end of a ring buffer.
#[verifier::external_type_specification]
#[verifier::external_body]
#[verifier::reject_recursive_types(T)]
pub struct ExProducer<T>(ringbuf::Producer<T>);

/// ringbuf's consuming end of a ring buffer.
#[verifier::external_type_specification]
#[verifier::external_body]
#[verifier::reject_recursive_types(T)]
pub struct ExConsumer<T>(ringbuf::Consumer<T>);

/// A bounded ring of samples, holding both ends of a `ringbuf` ring buffer.
/// The two ends share the queued samples, so what the ring holds is named
/// over the pair, and the pair is hidden.
#[verifier::external_body]
pub struct SampleRing {
    producer: ringbuf::Producer<u32>,
    consumer: ringbuf::Consumer<u32>,
}

/// The samples queued in the ring, oldest first.
pub uninterp spec fn ring_contents(r: SampleRing) -> Seq<u32>;

/// The number of samples the ring was made to hold.
pub uninterp spec fn ring_capacity(r: SampleRing) -> nat;

/// The ring's contents after a block is offered under the drop policy: the
/// block is appended whole when it fits in the vacant space, and dropped whole
/// otherwise.
pub open spec fn offer_block(contents: Seq<u32>, capacity: nat, block: Seq<u32>) -> Seq<u32> {
    if contents.len() + block.len() <= capacity {
        contents + block
    } else {
        contents
    }
}

/// The ring's contents after the blocks are offered one after another.
pub open spec fn offer_blocks(contents: Seq<u32>, capacity: nat, blocks: Seq<Seq<u32>>) -> Seq<u32>
    decreases blocks.len(),
{
    if blocks.len() == 0 {
        contents
    } else {
        offer_blocks(offer_block(contents, capacity, blocks[0]), capacity, blocks.drop_first())
    }
}

/// The blocks one after another.
pub open spec fn concat_blocks(blocks: Seq<Seq<u32>>) -> Seq<u32>
    decreases blocks.len(),
{
    if blocks.len() == 0 {
        Seq::empty()
    } else {
        blocks[0] + concat_blocks(blocks.drop_first())
    }
}

/// The samples handed out by taking windows of the given sizes, one after
/// another, from a ring that holds `contents` (a size that the ring cannot
/// fill hands out nothing).
pub open spec fn taken_windows(contents: Seq<u32>, sizes: Seq<nat>) -> Seq<u32>
    decreases sizes.len(),
{
    if sizes.len() == 0 {
        Seq::empty()
    } else if contents.len() < sizes[0] {
        taken_windows(contents, sizes.drop_first())
    } else {
        contents.take(sizes[0] as int) + taken_windows(
            contents.skip(sizes[0] as int),
            sizes.drop_first(),
        )
    }
}

/// The sum of the sizes.
pub open spec fn total_size(sizes: Seq<nat>) -> nat
    decreases sizes.len(),
{
    if sizes.len() == 0 {
        0
    } else {
        sizes[0] + total_size(sizes.drop_first())
    }
}

impl SampleRing {
    /// The ring's contents never exceed its capacity.
    pub open spec fn wf(&self) -> bool {
        ring_contents(*self).len() <= ring_capacity(*self)
    }

    /// Relies on ringbuf's `RingBuffer::new` and `RingBuffer::split`: a new
    /// ring holds nothing and has the capacity it was made with (its storage
    /// is one slot longer, and must fit in memory).
    #[verifier::external_body]
    fn allocate(capacity: usize) -> (r: SampleRing)
        requires
            (capacity as int + 1) * 4 <= isize::MAX,
        ensures
            ring_contents(r) == Seq::<u32>::empty(),
            ring_capacity(r) == capacity as nat,
    {
        let (producer, consumer) = ringbuf::RingBuffer::<u32>::new(capacity).split();
        SampleRing { producer, consumer }
    }

    /// Relies on ringbuf's `Consumer::len`: the number of queued samples.
    #[verifier::external_body]
    fn queued(&self) -> (r: usize)
        ensures
            r == ring_contents(*self).len(),
    {
        self.consumer.len()
    }

    /// Relies on ringbuf's `Producer::capacity`: the capacity the ring was made
    /// with.
    #[verifier::external_body]
    fn made_capacity(&self) -> (r: usize)
        ensures
            r == ring_capacity(*self),
    {
        self.producer.capacity()
    }

    /// An empty ring that holds up to `capacity` samples.
    pub fn new(capacity: usize) -> (r: SampleRing)
        requires
            (capacity as int + 1) * 4 <= isize::MAX,
        ensures
            r.wf(),
            ring_contents(r) == Seq::<u32>::empty(),
            ring_capacity(r) == capacity as nat,
    {
        SampleRing::allocate(capacity)
    }

    /// The number of queued samples.
    pub fn len(&self) -> (r: usize)
        ensures
            r == ring_contents(*self).len(),
    {
        self.queued()
    }

    /// The number of samples the ring holds when full.
    pub fn capacity(&self) -> (r: usize)
        ensures
            r == ring_capacity(*self),
    {
        self.made_capacity()
    }

    /// Relies on ringbuf's `Producer::push_slice`: it appends the longest
    /// prefix of `elems` that fits in the vacant space and returns its length.
    #[verifier::external_body]
    fn push_slice(&mut self, elems: &[u32]) -> (n: usize)
        requires
            old(self).wf(),
        ensures
            n as int == if elems@.len() <= ring_capacity(*old(self)) - ring_contents(
                *old(self),
            ).len() {
                elems@.len() as int
            } else {
                ring_capacity(*old(self)) - ring_contents(*old(self)).len()
            },
            ring_contents(*final(self)) == ring_contents(*old(self)) + elems@.take(n as int),
            ring_capacity(*final(self)) == ring_capacity(*old(self)),
    {
        self.producer.push_slice(elems)
    }

    /// Relies on ringbuf's `Consumer::pop_slice`: it moves the oldest samples,
    /// as many as `out` holds or as are queued, to the front of `out` and
    /// returns how many it moved.
    #[verifier::external_body]
    fn pop_slice(&mut self, out: &mut Vec<u32>) -> (n: usize)
        ensures
            n as int == if old(out)@.len() <= ring_contents(*old(self)).len() {
                old(out)@.len() as int
            } else {
                ring_contents(*old(self)).len() as int
            },
            final(out)@ == ring_contents(*old(self)).take(n as int) + old(out)@.skip(n as int),
            ring_contents(*final(self)) == ring_contents(*old(self)).skip(n as int),
            ring_capacity(*final(self)) == ring_capacity(*old(self)),
    {
        self.consumer.pop_slice(out.as_mut_slice())
    }

    /// Offers a block of samples to the ring without blocking: it is queued
    /// whole when it fits in the vacant space and dropped whole otherwise.
    /// Returns whether it was queued.
    pub fn push_block(&mut self, block: &[u32]) -> (queued: bool)
        requires
            old(self).wf(),
        ensures
            final(self).wf(),
            queued == (ring_contents(*old(self)).len() + block@.len() <= ring_capacity(*old(self))),
            ring_contents(*final(self)) == offer_block(
                ring_contents(*old(self)),
                ring_capacity(*old(self)),
                block@,
            ),
            ring_capacity(*final(self)) == ring_capacity(*old(self)),
    {
        let vacant = self.capacity() - self.len();
        if block.len() <= vacant {
            let n = self.push_slice(block);
            assert(block@.take(n as int) =~= block@);
            true
        } else {
            false
        }
    }

    /// Takes the `size` oldest samples out of the ring, in order, when at least
    /// `size` are queued; otherwise leaves the ring as it is and returns `None`.
    pub fn take_window(&mut self, size: usize) -> (r: Option<Vec<u32>>)
        requires
            old(self).wf(),
        ensures
            final(self).wf(),
            ring_capacity(*final(self)) == ring_capacity(*old(self)),
            ring_contents(*old(self)).len() < size ==> r is None && ring_contents(*final(self))
                == ring_contents(*old(self)),
            ring_contents(*old(self)).len() >= size ==> r is Some && r->0@ == ring_contents(
                *old(self),
            ).take(size as int) && ring_contents(*final(self)) == ring_contents(
                *old(self),
            ).skip(size as int),
    {
        if self.len() < size {
            None
        } else {
            let mut window: Vec<u32> = vec![0u32; size];
            let n = self.pop_slice(&mut window);
            assert(window@ =~= ring_contents(*old(self)).take(size as int));
            Some(window)
        }
    }
}

impl SampleRing {
    /// Moves ringbuf's `Producer` and `Consumer` apart, each into a struct of
    /// its own; nothing is called. Neither new end has pushed, taken or read
    /// anything yet.
    #[verifier::external_body]
    fn into_ends(self) -> (r: (SampleProducer, SampleConsumer))
        ensures
            produced(r.0) == Seq::<u32>::empty(),
            seen_vacant(r.0) == 0,
            consumed(r.1) == Seq::<u32>::empty(),
            seen_queued(r.1) == 0,
    {
        (SampleProducer { inner: self.producer }, SampleConsumer { inner: self.consumer })
    }

    /// Parts the two ends, so that the producing end can move to the capture
    /// callback's thread and the consuming end to the analyzer's.
    pub fn split(self) -> (r: (SampleProducer, SampleConsumer))
        ensures
            produced(r.0) == Seq::<u32>::empty(),
            seen_vacant(r.0) == 0,
            consumed(r.1) == Seq::<u32>::empty(),
            seen_queued(r.1) == 0,
    {
        self.into_ends()
    }
}

/// The producing end of a ring whose consuming end may live on another thread.
/// The other thread may take samples out at any moment, which only frees
/// space: the space this end last saw vacant, less what it pushed since, is
/// still vacant.
pub struct SampleProducer {
    inner: ringbuf::Producer<u32>,
}

/// The consuming end of a ring whose producing end may live on another thread.
/// The other thread may queue samples at any moment, which only adds to them:
/// the samples this end last saw queued, less what it took since, are still
/// queued.
pub struct SampleConsumer {
    inner: ringbuf::Consumer<u32>,
}

/// The samples pushed through this producing end, in the order pushed.
pub uninterp spec fn produced(p: SampleProducer) -> Seq<u32>;

/// A lower bound on the vacant space of the ring: what this producing end last
/// read, less what it pushed since.
pub uninterp spec fn seen_vacant(p: SampleProducer) -> nat;

/// The samples taken out through this consuming end, in the order taken.
pub uninterp spec fn consumed(c: SampleConsumer) -> Seq<u32>;

/// A lower bound on the number of queued samples: what this consuming end last
/// read, less what it took since.
pub uninterp spec fn seen_queued(c: SampleConsumer) -> nat;

impl SampleProducer {
    /// Relies on ringbuf's `Producer::remaining`: the vacant space when it
    /// looked, which the consuming end can only enlarge.
    #[verifier::external_body]
    fn vacant(&mut self) -> (r: usize)
        ensures
            seen_vacant(*final(self)) == r,
            produced(*final(self)) == produced(*old(self)),
    {
        self.inner.remaining()
    }

    /// Relies on ringbuf's `Producer::push_slice`: it pushes the longest prefix
    /// of `elems` that fits in the vacant space and returns its length; all of
    /// `elems` fits when it is no longer than the space last seen vacant.
    #[verifier::external_body]
    fn push_slice(&mut self, elems: &[u32]) -> (n: usize)
        ensures
            n <= elems@.len(),
            elems@.len() <= seen_vacant(*old(self)) ==> n == elems@.len(),
            produced(*final(self)) == produced(*old(self)) + elems@.take(n as int),
            seen_vacant(*final(self)) == if n <= seen_vacant(*old(self)) {
                (seen_vacant(*old(self)) - n) as nat
            } else {
                0
            },
    {
        self.inner.push_slice(elems)
    }

    /// Offers a block of samples without blocking: it is pushed whole when the
    /// vacant space holds it, and dropped whole otherwise. Returns whether it
    /// was pushed.
    pub fn push_block(&mut self, block: &[u32]) -> (queued: bool)
        ensures
            queued ==> produced(*final(self)) == produced(*old(self)) + block@,
            !queued ==> produced(*final(self)) == produced(*old(self)),
            !queued ==> block@.len() > seen_vacant(*final(self)),
            block@.len() == 0 ==> queued,
    {
        let vacant = self.vacant();
        if block.len() <= vacant {
            let n = self.push_slice(block);
            assert(block@.take(n as int) =~= block@);
            true
        } else {
            false
        }
    }
}

impl SampleConsumer {
    /// Relies on ringbuf's `Consumer::len`: the number of queued samples when
    /// it looked, which the producing end can only enlarge.
    #[verifier::external_body]
    fn queued(&mut self) -> (r: usize)
        ensures
            seen_queued(*final(self)) == r,
            consumed(*final(self)) == consumed(*old(self)),
    {
        self.inner.len()
    }

    /// The number of queued samples when it looked; the producing end may
    /// have queued more since.
    pub fn len(&mut self) -> (r: usize)
        ensures
            seen_queued(*final(self)) == r,
            consumed(*final(self)) == consumed(*old(self)),
    {
        self.queued()
    }

    /// Relies on ringbuf's `Consumer::pop_slice`: it moves the oldest queued
    /// samples to the front of `out`, as many as `out` holds or as are queued,
    /// and returns how many; `out` is filled when it is no longer than the
    /// count last seen queued.
    #[verifier::external_body]
    fn pop_slice(&mut self, out: &mut Vec<u32>) -> (n: usize)
        ensures
            n <= old(out)@.len(),
            old(out)@.len() <= seen_queued(*old(self)) ==> n == old(out)@.len(),
            final(out)@.len() == old(out)@.len(),
            final(out)@.skip(n as int) == old(out)@.skip(n as int),
            consumed(*final(self)) == consumed(*old(self)) + final(out)@.take(n as int),
            seen_queued(*final(self)) == if n <= seen_queued(*old(self)) {
                (seen_queued(*old(self)) - n) as nat
            } else {
                0
            },
    {
        self.inner.pop_slice(out.as_mut_slice())
    }

    /// Takes a window of the `size` oldest queued samples when that many are
    /// queued; otherwise takes nothing and returns `None`.
    pub fn take_window(&mut self, size: usize) -> (r: Option<Vec<u32>>)
        ensures
            r is Some ==> r->0@.len() == size && consumed(*final(self)) == consumed(*old(self))
                + r->0@,
            r is None ==> consumed(*final(self)) == consumed(*old(self)) && seen_queued(
                *final(self),
            ) < size,
            size == 0 ==> r is Some,
    {
        if self.queued() < size {
            None
        } else {
            let mut window: Vec<u32> = vec![0u32; size];
            let n = self.pop_slice(&mut window);
            assert(window@.take(n as int) =~= window@);
            Some(window)
        }
    }
}

proof fn lemma_offers_fitting(contents: Seq<u32>, capacity: nat, blocks: Seq<Seq<u32>>)
    requires
        contents.len() + concat_blocks(blocks).len() <= capacity,
    ensures
        offer_blocks(contents, capacity, blocks) == contents + concat_blocks(blocks),
    decreases blocks.len(),
{
    if blocks.len() == 0 {
        assert(contents + concat_blocks(blocks) =~= contents);
    } else {
        let next = contents + blocks[0];
        lemma_offers_fitting(next, capacity, blocks.drop_first());
        assert(next + concat_blocks(blocks.drop_first()) =~= contents + concat_blocks(blocks));
    }
}

proof fn lemma_offers_grow_at_most(contents: Seq<u32>, capacity: nat, blocks: Seq<Seq<u32>>)
    ensures
        offer_blocks(contents, capacity, blocks).len() <= contents.len() + concat_blocks(
            blocks,
        ).len(),
    decreases blocks.len(),
{
    if blocks.len() > 0 {
        lemma_offers_grow_at_most(
            offer_block(contents, capacity, blocks[0]),
            capacity,
            blocks.drop_first(),
        );
    }
}

proof fn lemma_windows_are_prefix(contents: Seq<u32>, sizes: Seq<nat>)
    requires
        total_size(sizes) <= contents.len(),
    ensures
        taken_windows(contents, sizes) == contents.take(total_size(sizes) as int),
    decreases sizes.len(),
{
    if sizes.len() == 0 {
        assert(contents.take(0) =~= Seq::<u32>::empty());
    } else {
        let first = sizes[0] as int;
        let rest = contents.skip(first);
        lemma_windows_are_prefix(rest, sizes.drop_first());
        assert(contents.take(first) + rest.take(total_size(sizes.drop_first()) as int)
            =~= contents.take(total_size(sizes) as int));
    }
}

/// Samples leave the ring in the order they entered it, none lost and none
/// repeated: blocks that all fit are queued one after another, and windows
/// taken afterwards, in all no more samples than were queued, hand out exactly
/// that many of the queued samples from the front.
pub proof fn lemma_delivery_order(capacity: nat, blocks: Seq<Seq<u32>>, sizes: Seq<nat>)
    requires
        concat_blocks(blocks).len() <= capacity,
        total_size(sizes) <= concat_blocks(blocks).len(),
    ensures
        offer_blocks(Seq::empty(), capacity, blocks) == concat_blocks(blocks),
        taken_windows(offer_blocks(Seq::empty(), capacity, blocks), sizes) == concat_blocks(
            blocks,
        ).take(total_size(sizes) as int),
{
    lemma_offers_fitting(Seq::empty(), capacity, blocks);
    assert(Seq::<u32>::empty() + concat_blocks(blocks) =~= concat_blocks(blocks));
    lemma_windows_are_prefix(concat_blocks(blocks), sizes);
}

/// Offering blocks never takes the ring past its capacity, however many
/// samples are offered; a block that does not fit in the vacant space leaves
/// the ring as it was.
pub proof fn lemma_overflow_dropped(contents: Seq<u32>, capacity: nat, blocks: Seq<Seq<u32>>)
    requires
        contents.len() <= capacity,
    ensures
        offer_blocks(contents, capacity, blocks).len() <= capacity,
        forall|block: Seq<u32>|
            contents.len() + block.len() > capacity ==> #[trigger] offer_block(
                contents,
                capacity,
                block,
            ) == contents,
    decreases blocks.len(),
{
    if blocks.len() > 0 {
        lemma_overflow_dropped(
            offer_block(contents, capacity, blocks[0]),
            capacity,
            blocks.drop_first(),
        );
    }
}

/// While fewer samples than a window holds have ever been offered to an empty
/// ring, taking windows of that size hands out nothing.
pub proof fn lemma_starved_ring_yields_nothing(
    capacity: nat,
    blocks: Seq<Seq<u32>>,
    size: nat,
    sizes: Seq<nat>,
)
    requires
        concat_blocks(blocks).len() < size,
        forall|i: int| 0 <= i < sizes.len() ==> sizes[i] == size,
    ensures
        offer_blocks(Seq::empty(), capacity, blocks).len() < size,
        taken_windows(offer_blocks(Seq::empty(), capacity, blocks), sizes) == Seq::<u32>::empty(),
    decreases sizes.len(),
{
    lemma_offers_grow_at_most(Seq::empty(), capacity, blocks);
    if sizes.len() > 0 {
        let rest = sizes.drop_first();
        assert forall|i: int| 0 <= i < rest.len() implies rest[i] == size by {
            assert(rest[i] == sizes[i + 1]);
        }
        lemma_starved_ring_yields_nothing(capacity, blocks, size, rest);
    }
}

} // verus!

//! The frame bridge: a bounded first-in first-out queue of raw samples that
//! carries audio from the capture side to the playback side. Samples travel
//! as the bit patterns of single-precision floats; the pattern `0` is exact
//! silence. Pushing never blocks: what does not fit is dropped. Popping never
//! blocks: what is missing reads as silence.

use ringbuf::traits::{Consumer, Producer, Split};
use ringbuf::{HeapCons, HeapProd, HeapRb};
use crate::remap::{channel_views, deinterleave, deinterleaved};
use vstd::prelude::*;

verus! {

/// A ring buffer of samples from the `ringbuf` crate.
#[verifier::external_body]
pub struct SampleRing {
    rb: HeapRb<u32>,
}

/// The writing half of a [`SampleRing`] that was split for use by two
/// threads.
#[verifier::external_body]
pub struct BridgeProducer {
    prod: HeapProd<u32>,
}

/// The reading half of a [`SampleRing`] that was split for use by two
/// threads.
#[verifier::external_body]
pub struct BridgeConsumer {
    cons: HeapCons<u32>,
}

/// The samples that a ring holds, oldest first.
pub uninterp spec fn ring_items(rb: SampleRing) -> Seq<u32>;

/// The number of samples that a ring was made to hold.
pub uninterp spec fn ring_capacity(rb: SampleRing) -> nat;

/// Relies on `ringbuf::HeapRb::new`: an empty ring of the given capacity
/// (it panics on a capacity of zero).
#[verifier::external_body]
fn ring_new(capacity: usize) -> (rb: SampleRing)
    requires
        capacity > 0,
    ensures
        ring_items(rb) == Seq::<u32>::empty(),
        ring_capacity(rb) == capacity,
{
    SampleRing { rb: HeapRb::<u32>::new(capacity) }
}

/// Relies on `Producer::push_slice` of `ringbuf::SharedRb`: it appends the
/// longest prefix of `samples` that fits in the vacant places and returns
/// its length.
#[verifier::external_body]
fn ring_push(rb: &mut SampleRing, samples: &[u32]) -> (n: usize)
    requires
        ring_items(*old(rb)).len() <= ring_capacity(*old(rb)),
    ensures
        n == pushed_count(
            ring_items(*old(rb)).len(),
            ring_capacity(*old(rb)),
            samples@.len(),
        ),
        ring_items(*final(rb)) == ring_items(*old(rb)) + samples@.take(n as int),
        ring_capacity(*final(rb)) == ring_capacity(*old(rb)),
{
    rb.rb.push_slice(samples)
}

/// Relies on `Consumer::pop_slice` of `ringbuf::SharedRb`: it moves the
/// oldest samples, as many as are held and fit, to the front of `buf`,
/// leaves the rest of `buf` as it was, and returns how many it moved.
#[verifier::external_body]
fn ring_pop(rb: &mut SampleRing, buf: &mut Vec<u32>) -> (n: usize)
    ensures
        n == vstd::math::min(old(buf)@.len() as int, ring_items(*old(rb)).len() as int),
        final(buf)@ == ring_items(*old(rb)).take(n as int) + old(buf)@.skip(n as int),
        ring_items(*final(rb)) == ring_items(*old(rb)).skip(n as int),
        ring_capacity(*final(rb)) == ring_capacity(*old(rb)),
{
    rb.rb.pop_slice(buf.as_mut_slice())
}

/// Relies on `Split::split` of `ringbuf::HeapRb`: one writing and one
/// reading half of the same ring.
#[verifier::external_body]
fn ring_split(rb: SampleRing) -> (r: (BridgeProducer, BridgeConsumer)) {
    let (prod, cons) = rb.rb.split();
    (BridgeProducer { prod }, BridgeConsumer { cons })
}

/// Relies on `Producer::push_slice` of `ringbuf::CachingProd`: it stores a
/// prefix of `samples` and returns its length; the reading half may run at
/// the same time, so which prefix is not known here.
#[verifier::external_body]
fn producer_push(p: &mut BridgeProducer, samples: &[u32]) -> (n: usize)
    ensures
        n <= samples@.len(),
{
    p.prod.push_slice(samples)
}

/// Relies on `Consumer::pop_slice` of `ringbuf::CachingCons`: it overwrites
/// a prefix of `buf`, leaves the rest of `buf` as it was, and returns the
/// prefix's length.
#[verifier::external_body]
fn consumer_pop(c: &mut BridgeConsumer, buf: &mut Vec<u32>) -> (n: usize)
    ensures
        n <= old(buf)@.len(),
        final(buf)@.len() == old(buf)@.len(),
        final(buf)@.skip(n as int) == old(buf)@.skip(n as int),
{
    c.cons.pop_slice(buf.as_mut_slice())
}

/// How many of `offered` samples a push stores into a bridge that holds
/// `held` of `capacity` samples: all of them, or as many as fit.
pub open spec fn pushed_count(held: nat, capacity: nat, offered: nat) -> nat {
    if held + offered <= capacity {
        offered
    } else {
        (capacity - held) as nat
    }
}

/// The block that a pop into a buffer of `len` samples leaves behind when
/// the bridge holds `items`: the oldest items as far as they go, then exact
/// silence.
pub open spec fn popped_block(items: Seq<u32>, len: nat) -> Seq<u32> {
    Seq::new(len, |j: int| if j < items.len() { items[j] } else { 0u32 })
}

/// Samples pushed into a bridge with room for them come out of a later pop
/// into a longer buffer in the order they went in, behind what the bridge
/// held before, and the rest of the buffer is silence.
pub proof fn lemma_pop_past_end(held: Seq<u32>, capacity: nat, samples: Seq<u32>, len: nat)
    requires
        held.len() + samples.len() <= capacity,
        len >= held.len() + samples.len(),
    ensures
        pushed_count(held.len(), capacity, samples.len()) == samples.len(),
        popped_block(held + samples.take(samples.len() as int), len) == held + samples + Seq::new(
            (len - held.len() - samples.len()) as nat,
            |j: int| 0u32,
        ),
{
    assert(samples.take(samples.len() as int) =~= samples);
    assert(popped_block(held + samples, len) =~= held + samples + Seq::new(
        (len - held.len() - samples.len()) as nat,
        |j: int| 0u32,
    ));
}

/// A push that offers more than the vacant places stores fewer samples than
/// offered, fills the bridge, and a later pop of the whole bridge yields
/// exactly what was held before and the stored prefix of the offer.
pub proof fn lemma_push_past_capacity(held: Seq<u32>, capacity: nat, samples: Seq<u32>, len: nat)
    requires
        held.len() <= capacity,
        held.len() + samples.len() > capacity,
        len >= capacity,
    ensures
        pushed_count(held.len(), capacity, samples.len()) < samples.len(),
        ({
            let kept = held + samples.take(pushed_count(held.len(), capacity, samples.len()) as int);
            &&& kept.len() == capacity
            &&& popped_block(kept, len) == held + samples.take(capacity - held.len())
                + Seq::new((len - capacity) as nat, |j: int| 0u32)
        }),
{
    let kept = held + samples.take(pushed_count(held.len(), capacity, samples.len()) as int);
    assert(popped_block(kept, len) =~= held + samples.take(capacity - held.len()) + Seq::new(
        (len - capacity) as nat,
        |j: int| 0u32,
    ));
}

/// Whether `block[n..]` is silence.
pub open spec fn silent_from(block: Seq<u32>, n: int) -> bool {
    &&& 0 <= n <= block.len()
    &&& forall|j: int| n <= j < block.len() ==> #[trigger] block[j] == 0u32
}

/// Overwrites `buf[from..]` with silence.
fn fill_silence(buf: &mut Vec<u32>, from: usize)
    requires
        from <= old(buf)@.len(),
    ensures
        final(buf)@.len() == old(buf)@.len(),
        forall|j: int| 0 <= j < from ==> #[trigger] final(buf)@[j] == old(buf)@[j],
        forall|j: int| from <= j < final(buf)@.len() ==> #[trigger] final(buf)@[j] == 0u32,
{
    let mut j: usize = from;
    while j < buf.len()
        invariant
            from <= j <= buf@.len(),
            buf@.len() == old(buf)@.len(),
            forall|k: int| 0 <= k < from ==> #[trigger] buf@[k] == old(buf)@[k],
            forall|k: int| from <= k < j ==> #[trigger] buf@[k] == 0u32,
        decreases buf@.len() - j,
    {
        buf.set(j, 0u32);
        j = j + 1;
    }
}

/// A frame bridge used from one thread: the queue's contents are known
/// exactly after each call.
pub struct FrameBridge {
    ring: SampleRing,
}

impl FrameBridge {
    /// The samples waiting in the bridge, oldest first.
    pub closed spec fn items(&self) -> Seq<u32> {
        ring_items(self.ring)
    }

    /// The number of samples that the bridge can hold.
    pub closed spec fn capacity(&self) -> nat {
        ring_capacity(self.ring)
    }

    /// The bridge never holds more than its capacity, which is positive.
    pub open spec fn wf(&self) -> bool {
        &&& self.items().len() <= self.capacity()
        &&& self.capacity() > 0
    }

    /// An empty bridge that holds up to `capacity` samples.
    pub fn new(capacity: usize) -> (r: FrameBridge)
        requires
            capacity > 0,
        ensures
            r.wf(),
            r.items() == Seq::<u32>::empty(),
            r.capacity() == capacity,
    {
        FrameBridge { ring: ring_new(capacity) }
    }

    /// Appends as many of `samples` as fit, in order, and drops the rest;
    /// returns how many were stored.
    pub fn push(&mut self, samples: &[u32]) -> (n: usize)
        requires
            old(self).wf(),
        ensures
            final(self).wf(),
            n == pushed_count(old(self).items().len(), old(self).capacity(), samples@.len()),
            final(self).items() == old(self).items() + samples@.take(n as int),
            final(self).capacity() == old(self).capacity(),
    {
        ring_push(&mut self.ring, samples)
    }

    /// Moves the oldest samples into `buf`, as many as are held and fit,
    /// and fills the rest of `buf` with silence; returns how many samples
    /// were moved.
    pub fn pop(&mut self, buf: &mut Vec<u32>) -> (n: usize)
        requires
            old(self).wf(),
        ensures
            final(self).wf(),
            n == vstd::math::min(old(buf)@.len() as int, old(self).items().len() as int),
            final(buf)@ == popped_block(old(self).items(), old(buf)@.len()),
            final(self).items() == old(self).items().skip(n as int),
            final(self).capacity() == old(self).capacity(),
    {
        let ghost held = self.items();
        let n = ring_pop(&mut self.ring, buf);
        let ghost moved = buf@;
        fill_silence(buf, n);
        assert(buf@ =~= popped_block(held, buf@.len())) by {
            assert forall|j: int| 0 <= j < n implies #[trigger] buf@[j] == held[j] by {
                assert(moved[j] == held.take(n as int)[j]);
            }
        }
        n
    }

    /// Splits the bridge into a writing half for the capture thread and a
    /// reading half for the playback thread.
    pub fn split(self) -> (r: (BridgeProducer, BridgeConsumer)) {
        ring_split(self.ring)
    }
}

impl BridgeProducer {
    /// Stores a prefix of `samples`, without blocking, and drops the rest;
    /// returns the prefix's length. A short count is an overrun, which is
    /// no error.
    ///
    /// How many samples fit depends on what the reading half has taken at
    /// the same moment, so the contract bounds the count only; the order in
    /// which samples travel is stated for [`FrameBridge`], whose two ends
    /// are used from one thread.
    pub fn push(&mut self, samples: &[u32]) -> (n: usize)
        ensures
            n <= samples@.len(),
    {
        producer_push(self, samples)
    }
}

impl BridgeConsumer {
    /// Moves the oldest available samples into a prefix of `buf`, without
    /// blocking, and fills the rest of `buf` with silence; returns the
    /// prefix's length.
    ///
    /// What is available depends on what the writing half has stored at
    /// the same moment, so the contract states the silent tail only; the
    /// first-in first-out order is stated for [`FrameBridge`].
    pub fn pop(&mut self, buf: &mut Vec<u32>) -> (n: usize)
        ensures
            n <= old(buf)@.len(),
            final(buf)@.len() == old(buf)@.len(),
            forall|j: int| n <= j < final(buf)@.len() ==> #[trigger] final(buf)@[j] == 0u32,
    {
        let n = consumer_pop(self, buf);
        fill_silence(buf, n);
        n
    }

    /// Takes the next block of `frames` frames of `channels` samples each,
    /// silence where samples are missing, and splits it into one sequence
    /// per channel.
    pub fn pop_frames(&mut self, frames: usize, channels: usize) -> (r: Vec<Vec<u32>>)
        requires
            frames * channels <= usize::MAX,
        ensures
            exists|block: Seq<u32>, n: int|
                #![trigger silent_from(block, n), deinterleaved(block, frames as nat, channels as nat)]
                {
                    &&& block.len() == frames * channels
                    &&& silent_from(block, n)
                    &&& channel_views(r@) == deinterleaved(block, frames as nat, channels as nat)
                },
    {
        let mut buf: Vec<u32> = vec![0u32; frames * channels];
        let n = self.pop(&mut buf);
        let r = deinterleave(&buf, frames, channels);
        assert(silent_from(buf@, n as int));
        assert(channel_views(r@) == deinterleaved(buf@, frames as nat, channels as nat));
        r
    }
}

} // verus!

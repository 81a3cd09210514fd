//! The path of audio samples from the capture stream to the virtual microphone.
//!
//! Samples travel as the bit patterns of F32LE values (`u32` words): this
//! module moves and counts them, and never looks at them as numbers.
use vstd::prelude::*;
use ringbuf::traits::Observer;
use ringbuf::HeapRb;

use crate::constants::{
    AUDIOPASS_BYTES_PER_FRAME, AUDIOPASS_BYTES_PER_SAMPLE, AUDIOPASS_MIC_RING_CAPACITY_IN_SAMPLES,
    CHANNELS,
};

verus! {

/// A `ringbuf::HeapRb` of samples, first in first out, held in a private
/// field; `ring_items` and `ring_capacity` name what it holds and how much
/// it can hold.
#[verifier::external_body]
pub struct SampleRing {
    ring: HeapRb<u32>,
}

/// The samples that a ring holds, oldest first.
pub uninterp spec fn ring_items(ring: SampleRing) -> Seq<u32>;

/// The number of samples a ring was made to hold.
pub uninterp spec fn ring_capacity(ring: SampleRing) -> nat;

/// What a ring holds never exceeds what it was made to hold.
pub open spec fn ring_fits(ring: SampleRing) -> bool {
    ring_items(ring).len() <= ring_capacity(ring)
}

/// `HeapRb::new`: an empty ring of the given capacity (the crate panics on
/// zero or on more than `usize::MAX / 2`, so those are left out).
#[verifier::external_body]
fn ring_new(capacity: usize) -> (ring: SampleRing)
    requires
        0 < capacity <= usize::MAX / 2,
    ensures
        ring_items(ring) == Seq::<u32>::empty(),
        ring_capacity(ring) == capacity,
{
    SampleRing { ring: HeapRb::<u32>::new(capacity) }
}

/// `Observer::occupied_len`: the number of samples held.
#[verifier::external_body]
fn ring_occupied_len(ring: &SampleRing) -> (n: usize)
    ensures
        n == ring_items(*ring).len(),
{
    ring.ring.occupied_len()
}

/// `Observer::vacant_len`: the number of free places.
#[verifier::external_body]
fn ring_vacant_len(ring: &SampleRing) -> (n: usize)
    requires
        ring_fits(*ring),
    ensures
        n == ring_capacity(*ring) - ring_items(*ring).len(),
{
    ring.ring.vacant_len()
}

/// `HeapRb::push_slice`: appends as many of `elems`, from the first, as there
/// are free places, and returns how many it appended. It copies within the
/// ring's storage and does not panic.
#[verifier::external_body]
fn ring_push_slice(ring: &mut SampleRing, elems: &[u32]) -> (n: usize)
    requires
        ring_fits(*old(ring)),
    ensures
        n == vstd::math::min(
            elems@.len() as int,
            ring_capacity(*old(ring)) - ring_items(*old(ring)).len(),
        ),
        ring_items(*final(ring)) == ring_items(*old(ring)) + elems@.take(n as int),
        ring_capacity(*final(ring)) == ring_capacity(*old(ring)),
        ring_fits(*final(ring)),
    no_unwind
{
    ring.ring.push_slice(elems)
}

/// `HeapRb::pop_slice` into the first `count` places of `out`: removes the
/// oldest samples, as many as are held but at most `count`, writes them there
/// in order, and returns how many it removed. With `count` within `out`, the
/// slicing and the copy do not panic.
#[verifier::external_body]
fn ring_pop_slice(ring: &mut SampleRing, out: &mut Vec<u32>, count: usize) -> (n: usize)
    requires
        count <= old(out)@.len(),
        ring_fits(*old(ring)),
    ensures
        n == vstd::math::min(count as int, ring_items(*old(ring)).len() as int),
        final(out)@ == ring_items(*old(ring)).take(n as int) + old(out)@.skip(n as int),
        ring_items(*final(ring)) == ring_items(*old(ring)).skip(n as int),
        ring_capacity(*final(ring)) == ring_capacity(*old(ring)),
        ring_fits(*final(ring)),
    no_unwind
{
    ring.ring.pop_slice(&mut out[..count])
}

/// `HeapRb::clear`: drops every sample held and returns how many there were;
/// it does not panic.
#[verifier::external_body]
fn ring_clear(ring: &mut SampleRing) -> (n: usize)
    ensures
        n == ring_items(*old(ring)).len(),
        ring_items(*final(ring)) == Seq::<u32>::empty(),
        ring_capacity(*final(ring)) == ring_capacity(*old(ring)),
    no_unwind
{
    ring.ring.clear()
}

/// The little-endian `u32` made of four bytes (what `u32::from_le_bytes` gives).
pub open spec fn le_word(b0: u8, b1: u8, b2: u8, b3: u8) -> u32 {
    (b0 + 256 * b1 + 65536 * b2 + 16777216 * b3) as u32
}

/// The samples that a run of bytes holds, four bytes each; a trailing
/// partial sample is not one.
pub open spec fn decode_samples(bytes: Seq<u8>) -> Seq<u32> {
    Seq::new(
        bytes.len() / 4,
        |i: int| le_word(bytes[4 * i], bytes[4 * i + 1], bytes[4 * i + 2], bytes[4 * i + 3]),
    )
}

/// Where the valid bytes of a capture chunk start: the chunk offset wraps
/// around the buffer.
pub open spec fn capture_start(buffer_len: nat, chunk_offset: nat) -> nat {
    chunk_offset % buffer_len
}

/// Where the valid bytes of a capture chunk end: bytes that would wrap past
/// the end of the buffer are ignored.
pub open spec fn capture_end(buffer_len: nat, chunk_offset: nat, chunk_size: nat) -> nat {
    vstd::math::min(
        (capture_start(buffer_len, chunk_offset) + chunk_size) as int,
        buffer_len as int,
    ) as nat
}

/// The largest number of bytes, at most `n`, that makes whole frames.
pub open spec fn whole_frame_bytes(n: nat) -> nat {
    (n - n % (AUDIOPASS_BYTES_PER_FRAME as nat)) as nat
}

/// The samples of whole frames that a capture chunk delivers.
pub open spec fn received_sample_count(buffer_len: nat, chunk_offset: nat, chunk_size: nat) -> nat {
    if buffer_len == 0 {
        0
    } else {
        let start = capture_start(buffer_len, chunk_offset);
        let end = capture_end(buffer_len, chunk_offset, chunk_size);
        if start >= end {
            0
        } else {
            whole_frame_bytes((end - start) as nat) / (AUDIOPASS_BYTES_PER_SAMPLE as nat)
        }
    }
}

/// The largest count, at most `n`, that makes whole frames of samples.
pub open spec fn whole_frame_samples(n: nat) -> nat {
    (n - n % (CHANNELS as nat)) as nat
}

/// The samples that the capture side moves into a ring with `vacant` free
/// places: what the chunk delivers, cut down to whole frames that fit.
pub open spec fn capture_push_count(received: nat, vacant: nat) -> nat {
    vstd::math::min(received as int, whole_frame_samples(vacant) as int) as nat
}

/// The frames that the microphone side writes into a buffer of `buffer_len`
/// bytes when PipeWire asks for `requested` frames (zero asks for a full buffer).
pub open spec fn output_frame_count(requested: nat, buffer_len: nat) -> nat {
    let max_frames = buffer_len / (AUDIOPASS_BYTES_PER_FRAME as nat);
    if requested == 0 {
        max_frames
    } else {
        vstd::math::min(requested as int, max_frames as int) as nat
    }
}

/// The samples that the microphone side takes out of a ring that holds
/// `held` samples, for `frames` output frames: whole frames only.
pub open spec fn output_pop_count(frames: nat, held: nat) -> nat {
    vstd::math::min((frames * (CHANNELS as nat)) as int, whole_frame_samples(held) as int) as nat
}

/// The samples between the capture stream and the virtual microphone, and
/// the request to drop them as stale.
pub struct AudioRing {
    samples: SampleRing,
    clear_stale_samples: bool,
}

/// What the microphone side writes for one buffer: `popped_sample_count`
/// samples from the ring, then silence up to `output_size_in_bytes`.
#[derive(Clone, Copy, Debug, PartialEq, Eq)]
pub struct OutputPlan {
    pub popped_sample_count: usize,
    pub output_size_in_bytes: usize,
}

impl AudioRing {
    /// The ring was made for 100 ms of samples and holds no more than that.
    #[verifier::type_invariant]
    closed spec fn wf(self) -> bool {
        &&& ring_capacity(self.samples) == AUDIOPASS_MIC_RING_CAPACITY_IN_SAMPLES
        &&& ring_fits(self.samples)
    }

    /// The samples held, oldest first.
    pub closed spec fn items(self) -> Seq<u32> {
        ring_items(self.samples)
    }

    /// Whether the samples held are marked stale, to be dropped by the next
    /// microphone cycle.
    pub closed spec fn clear_requested(self) -> bool {
        self.clear_stale_samples
    }

    /// An empty ring of 100 ms of interleaved samples, not marked stale.
    pub fn new() -> (ring: Self)
        ensures
            ring.items() == Seq::<u32>::empty(),
            !ring.clear_requested(),
    {
        AudioRing { samples: ring_new(AUDIOPASS_MIC_RING_CAPACITY_IN_SAMPLES), clear_stale_samples: false }
    }

    /// Marks the samples held as stale (a new capture starts, or the capture stops).
    pub fn request_clear(&mut self)
        ensures
            final(self).items().len() <= AUDIOPASS_MIC_RING_CAPACITY_IN_SAMPLES,
            final(self).items() == old(self).items(),
            final(self).clear_requested(),
    {
        proof {
            use_type_invariant(&*self);
        }
        self.clear_stale_samples = true;
    }

    /// The start of a microphone cycle: if the samples are marked stale, drops
    /// them and removes the mark. Returns whether it dropped them.
    pub fn take_clear_request(&mut self) -> (cleared: bool)
        ensures
            final(self).items().len() <= AUDIOPASS_MIC_RING_CAPACITY_IN_SAMPLES,
            cleared == old(self).clear_requested(),
            !final(self).clear_requested(),
            final(self).items() == (if cleared { Seq::<u32>::empty() } else { old(self).items() }),
    {
        proof {
            use_type_invariant(&*self);
        }
        if self.clear_stale_samples {
            self.clear_stale_samples = false;
            ring_clear(&mut self.samples);
            true
        } else {
            false
        }
    }
}


/// The samples held by `count * 4` bytes of `bytes` from `start`, decoded
/// little-endian, in order.
fn decode_le_words(bytes: &[u8], start: usize, count: usize) -> (words: Vec<u32>)
    requires
        start + 4 * count <= bytes@.len(),
    ensures
        words@ == decode_samples(bytes@.subrange(start as int, start + 4 * count)),
{
    let mut words: Vec<u32> = Vec::new();
    let len: usize = bytes.len();
    let mut i: usize = 0;
    while i < count
        invariant
            start + 4 * count <= bytes@.len(),
            len == bytes@.len(),
            i <= count,
            words@.len() == i,
            forall|j: int|
                0 <= j < i ==> #[trigger] words@[j] == le_word(
                    bytes@[start + 4 * j],
                    bytes@[start + 4 * j + 1],
                    bytes@[start + 4 * j + 2],
                    bytes@[start + 4 * j + 3],
                ),
        decreases count - i,
    {
        assert(start + 4 * i + 3 < bytes@.len());
        let b: usize = start + 4 * i;
        let word: u32 = bytes[b] as u32 + (bytes[b + 1] as u32) * 256 + (bytes[b + 2] as u32) * 65536
            + (bytes[b + 3] as u32) * 16777216;
        words.push(word);
        i = i + 1;
    }
    let ghost window = bytes@.subrange(start as int, start + 4 * count);
    assert(words@ =~= decode_samples(window));
    words
}

impl AudioRing {
    /// The capture side of one cycle: the bytes of `bytes` that the chunk marks
    /// valid, cut down to whole frames, become samples at the end of the ring,
    /// as many whole frames of them as fit. Returns how many samples it added.
    /// When fewer fit than the chunk delivered, the samples held are stale and
    /// are marked for dropping.
    pub fn capture_chunk(&mut self, bytes: &[u8], chunk_offset: u32, chunk_size: u32) -> (pushed: usize)
        ensures
            final(self).items().len() <= AUDIOPASS_MIC_RING_CAPACITY_IN_SAMPLES,
            ({
                let len = bytes@.len();
                let received = received_sample_count(len, chunk_offset as nat, chunk_size as nat);
                let vacant = (AUDIOPASS_MIC_RING_CAPACITY_IN_SAMPLES - old(self).items().len()) as nat;
                let start = if len == 0 { 0 } else { capture_start(len, chunk_offset as nat) };
                &&& pushed == capture_push_count(received, vacant)
                &&& start + 4 * pushed <= len
                &&& final(self).items() == old(self).items() + decode_samples(
                    bytes@.subrange(start as int, start + 4 * pushed),
                )
                &&& final(self).clear_requested() == (old(self).clear_requested() || pushed < received)
            }),
            pushed % CHANNELS == 0,
    {
        proof {
            use_type_invariant(&*self);
        }
        let len = bytes.len();
        if len == 0 {
            assert(bytes@.subrange(0, 0) =~= Seq::<u8>::empty());
            assert(decode_samples(Seq::<u8>::empty()) =~= Seq::<u32>::empty());
            assert(old(self).items() + Seq::<u32>::empty() =~= old(self).items());
            return 0;
        }
        let start: usize = (chunk_offset as usize) % len;
        let size: usize = chunk_size as usize;
        let end: usize = if size >= len - start { len } else { start + size };
        if start >= end {
            assert(bytes@.subrange(start as int, start as int) =~= Seq::<u8>::empty());
            assert(decode_samples(Seq::<u8>::empty()) =~= Seq::<u32>::empty());
            assert(old(self).items() + Seq::<u32>::empty() =~= old(self).items());
            return 0;
        }
        let span: usize = end - start;
        let complete: usize = span - span % AUDIOPASS_BYTES_PER_FRAME;
        let received: usize = complete / AUDIOPASS_BYTES_PER_SAMPLE;
        let vacant: usize = ring_vacant_len(&self.samples);
        let allowed: usize = vacant - vacant % CHANNELS;
        let to_push: usize = if received < allowed { received } else { allowed };
        assert(to_push % 2 == 0);
        let words = decode_le_words(bytes, start, to_push);
        let pushed = ring_push_slice(&mut self.samples, words.as_slice());
        assert(words@.take(pushed as int) =~= words@);
        if pushed < received {
            self.clear_stale_samples = true;
        }
        pushed
    }

    /// The microphone side of one cycle, for a buffer of `buffer_len` bytes
    /// of which PipeWire asks for `requested_frames` frames (zero: fill it).
    /// Takes the oldest samples, whole frames of them and no more than the
    /// frames written, into the first places of `out`; the rest of the
    /// frames written are silence.
    pub fn pop_output(&mut self, requested_frames: usize, buffer_len: usize, out: &mut Vec<u32>) -> (plan: OutputPlan)
        requires
            old(out)@.len() >= AUDIOPASS_MIC_RING_CAPACITY_IN_SAMPLES,
        ensures
            final(self).items().len() <= AUDIOPASS_MIC_RING_CAPACITY_IN_SAMPLES,
            ({
                let frames = output_frame_count(requested_frames as nat, buffer_len as nat);
                let popped = plan.popped_sample_count;
                &&& plan.output_size_in_bytes == frames * (AUDIOPASS_BYTES_PER_FRAME as nat)
                &&& popped == output_pop_count(frames, old(self).items().len())
                &&& final(out)@ == old(self).items().take(popped as int) + old(out)@.skip(popped as int)
                &&& final(self).items() == old(self).items().skip(popped as int)
            }),
            final(self).clear_requested() == old(self).clear_requested(),
            plan.popped_sample_count * AUDIOPASS_BYTES_PER_SAMPLE <= plan.output_size_in_bytes,
            plan.output_size_in_bytes <= buffer_len,
            plan.popped_sample_count % CHANNELS == 0,
    {
        proof {
            use_type_invariant(&*self);
        }
        let max_frames: usize = buffer_len / AUDIOPASS_BYTES_PER_FRAME;
        let frames: usize = if requested_frames == 0 {
            max_frames
        } else if requested_frames < max_frames {
            requested_frames
        } else {
            max_frames
        };
        let output_size_in_bytes: usize = frames * AUDIOPASS_BYTES_PER_FRAME;
        let output_sample_count: usize = frames * CHANNELS;
        let held: usize = ring_occupied_len(&self.samples);
        let whole: usize = held - held % CHANNELS;
        let to_pop: usize = if output_sample_count < whole { output_sample_count } else { whole };
        let popped = ring_pop_slice(&mut self.samples, out, to_pop);
        OutputPlan { popped_sample_count: popped, output_size_in_bytes }
    }
}

/// Writes silence (zero bytes) over `bytes[from..to]`: the part of an
/// output buffer for which the ring had no samples.
pub fn fill_silence(bytes: &mut [u8], from: usize, to: usize)
    requires
        from <= to <= old(bytes)@.len(),
    ensures
        final(bytes)@.len() == old(bytes)@.len(),
        forall|i: int| from <= i < to ==> #[trigger] final(bytes)@[i] == 0,
        forall|i: int|
            0 <= i < old(bytes)@.len() && !(from <= i < to) ==> #[trigger] final(bytes)@[i] == old(bytes)@[i],
{
    let mut i: usize = from;
    while i < to
        invariant
            from <= i <= to,
            to <= old(bytes)@.len(),
            bytes@.len() == old(bytes)@.len(),
            forall|k: int| from <= k < i ==> #[trigger] bytes@[k] == 0,
            forall|k: int| 0 <= k < old(bytes)@.len() && !(from <= k < i) ==> #[trigger] bytes@[k] == old(bytes)@[k],
        decreases to - i,
    {
        bytes[i] = 0;
        i = i + 1;
    }
}

/// Samples leave the ring in the order they entered: once a capture has put
/// `captured` behind the `held` samples, the next `popped` samples that the
/// microphone takes are the oldest ones, the held samples first.
pub proof fn law_ring_is_first_in_first_out(held: Seq<u32>, captured: Seq<u32>, popped: nat)
    requires
        popped <= held.len() + captured.len(),
    ensures
        (held + captured).take(popped as int) == (if popped <= held.len() {
            held.take(popped as int)
        } else {
            held + captured.take(popped - held.len())
        }),
        (held + captured).skip(popped as int).len() == held.len() + captured.len() - popped,
{
    if popped <= held.len() {
        assert((held + captured).take(popped as int) =~= held.take(popped as int));
    } else {
        assert((held + captured).take(popped as int) =~= held + captured.take(popped - held.len()));
    }
}

/// The ring holds whole frames and never more than its capacity: a capture
/// and then a microphone cycle, from a ring that holds whole frames, leave
/// it holding whole frames within its capacity.
pub proof fn law_ring_keeps_whole_frames(
    held: nat,
    buffer_len: nat,
    chunk_offset: nat,
    chunk_size: nat,
    requested_frames: nat,
    output_buffer_len: nat,
)
    requires
        held % 2 == 0,
        held <= AUDIOPASS_MIC_RING_CAPACITY_IN_SAMPLES,
    ensures
        ({
            let received = received_sample_count(buffer_len, chunk_offset, chunk_size);
            let pushed = capture_push_count(received, (AUDIOPASS_MIC_RING_CAPACITY_IN_SAMPLES - held) as nat);
            let after_capture = held + pushed;
            let frames = output_frame_count(requested_frames, output_buffer_len);
            let popped = output_pop_count(frames, after_capture);
            &&& after_capture % 2 == 0
            &&& after_capture <= AUDIOPASS_MIC_RING_CAPACITY_IN_SAMPLES
            &&& popped <= after_capture
            &&& (after_capture - popped) % 2 == 0
        }),
{
    let received = received_sample_count(buffer_len, chunk_offset, chunk_size);
    if buffer_len > 0 {
        let start = capture_start(buffer_len, chunk_offset);
        let end = capture_end(buffer_len, chunk_offset, chunk_size);
        if start < end {
            let n = (end - start) as nat;
            let w = whole_frame_bytes(n);
            assert(w % 8 == 0) by {
                vstd::arithmetic::div_mod::lemma_sub_mod_noop(n as int, (n % 8) as int, 8);
                vstd::arithmetic::div_mod::lemma_mod_twice(n as int, 8);
            };
            assert(received % 2 == 0) by {
                vstd::arithmetic::div_mod::lemma_fundamental_div_mod(w as int, 8);
            };
        }
    }
}

} // verus!

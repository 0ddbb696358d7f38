//! The gain rule. Samples, peaks, loudness and the volume cap are 32-bit
//! IEEE-754 values carried as their bit patterns: for values with a clear sign
//! bit that are not NaN, the order of the patterns as integers is the numeric
//! order, so every comparison the rule makes is one on integers. The
//! floating-point division and scaling happen outside the library.

use vstd::prelude::*;

use crate::ring_buffer::{last_n, RingBuffer};

verus! {

/// Number of chunk peaks the gain window remembers.
pub const WINDOW_CAPACITY: usize = 128;

/// Number of samples that share one gain value.
pub const CHUNK_SAMPLES: usize = 64;

/// The pattern of the absolute value of `w`: the sign bit cleared.
pub open spec fn magnitude(w: u32) -> u32 {
    w % 0x8000_0000
}

/// Whether `w` is the pattern of a NaN.
pub open spec fn is_nan(w: u32) -> bool {
    magnitude(w) > 0x7f80_0000
}

/// The larger of `|a|` and `|b|`; a NaN operand is ignored in favour of the
/// other, as floating-point `max` does.
pub open spec fn max_magnitude(a: u32, b: u32) -> u32 {
    let x = magnitude(a);
    let y = magnitude(b);
    if is_nan(x) {
        y
    } else if is_nan(y) {
        x
    } else if x >= y {
        x
    } else {
        y
    }
}

/// The peak of a chunk: the largest absolute sample, starting from zero.
pub open spec fn chunk_peak(s: Seq<u32>) -> u32
    decreases s.len(),
{
    if s.len() == 0 {
        0
    } else {
        max_magnitude(chunk_peak(s.drop_last()), s.last())
    }
}

/// A usable volume cap: a number in (0, 1] (1.0 is `0x3f80_0000`).
pub open spec fn valid_cap(cap: u32) -> bool {
    0 < cap <= 0x3f80_0000
}

/// The value the gain divides the cap by: the largest of the weighted
/// loudness, the cap and the chunk peak.
pub open spec fn denominator_of(weighted: u32, cap: u32, peak: u32) -> u32 {
    max_magnitude(max_magnitude(weighted, cap), peak)
}

fn abs_bits(w: u32) -> (r: u32)
    ensures
        r == magnitude(w),
{
    assert(w & 0x7fff_ffffu32 == w % 0x8000_0000u32) by (bit_vector);
    w & 0x7fff_ffffu32
}

fn max_abs_bits(a: u32, b: u32) -> (r: u32)
    ensures
        r == max_magnitude(a, b),
{
    let x = abs_bits(a);
    let y = abs_bits(b);
    assert(magnitude(x) == x && magnitude(y) == y);
    if x > 0x7f80_0000 {
        y
    } else if y > 0x7f80_0000 {
        x
    } else if x >= y {
        x
    } else {
        y
    }
}

/// The largest absolute sample of `chunk` (zero for an empty chunk); NaN
/// samples are passed over.
pub fn peak_of(chunk: &[u32]) -> (r: u32)
    ensures
        r == chunk_peak(chunk@),
{
    let mut acc: u32 = 0;
    let mut i: usize = 0;
    while i < chunk.len()
        invariant
            i <= chunk@.len(),
            acc == chunk_peak(chunk@.subrange(0, i as int)),
        decreases chunk@.len() - i,
    {
        assert(chunk@.subrange(0, i + 1).drop_last() =~= chunk@.subrange(0, i as int));
        acc = max_abs_bits(acc, chunk[i]);
        i = i + 1;
    }
    assert(chunk@.subrange(0, chunk@.len() as int) =~= chunk@);
    acc
}

/// The largest of the weighted loudness, the cap and the chunk peak, taken
/// in that order with floating-point `max`.
pub fn effective_denominator(weighted: u32, cap: u32, peak: u32) -> (r: u32)
    ensures
        r == denominator_of(weighted, cap, peak),
{
    let m = max_abs_bits(weighted, cap);
    max_abs_bits(m, peak)
}

/// The bounds of the `i`-th chunk of a buffer of `len` samples: full chunks of
/// `CHUNK_SAMPLES`, the last one cut short at the end of the buffer.
pub open spec fn chunk_bounds(i: int, len: int) -> (int, int) {
    let start = i * CHUNK_SAMPLES;
    let end = if start + CHUNK_SAMPLES <= len { start + CHUNK_SAMPLES } else { len };
    (start, end)
}

/// Splits `len` samples into consecutive chunks of `CHUNK_SAMPLES`, the last
/// one short when `len` is not a multiple of it; returns each chunk's
/// `(start, end)`.
pub fn chunk_ranges(len: usize) -> (r: Vec<(usize, usize)>)
    ensures
        r@.len() == (len + CHUNK_SAMPLES - 1) / CHUNK_SAMPLES as int,
        forall|i: int|
            0 <= i < r@.len() ==> (#[trigger] r@[i]).0 as int == chunk_bounds(i, len as int).0
                && r@[i].1 as int == chunk_bounds(i, len as int).1,
{
    let count: usize = len / CHUNK_SAMPLES + if len % CHUNK_SAMPLES == 0 { 0 } else { 1 };
    assert(count == (len + CHUNK_SAMPLES - 1) / CHUNK_SAMPLES as int) by (nonlinear_arith)
        requires
            count == len / 64 + if len % 64 == 0 { 0int } else { 1int },
    ;
    let mut r: Vec<(usize, usize)> = Vec::with_capacity(count);
    let mut i: usize = 0;
    while i < count
        invariant
            i <= count,
            count == len / 64 + if len % 64 == 0 { 0int } else { 1int },
            r@.len() == i,
            forall|k: int|
                0 <= k < i ==> (#[trigger] r@[k]).0 as int == chunk_bounds(k, len as int).0
                    && r@[k].1 as int == chunk_bounds(k, len as int).1,
        decreases count - i,
    {
        assert(i * 64 < len) by (nonlinear_arith)
            requires
                i < count,
                count == len / 64 + if len % 64 == 0 { 0int } else { 1int },
        ;
        let start = i * CHUNK_SAMPLES;
        let end = if len - start >= CHUNK_SAMPLES { start + CHUNK_SAMPLES } else { len };
        r.push((start, end));
        i = i + 1;
    }
    r
}

/// Per-chunk gain state: the fixed volume cap and the window of recent chunk
/// peaks, oldest first.
pub struct GainController {
    volume_cap: u32,
    window: RingBuffer<u32>,
}

impl GainController {
    /// The volume cap, fixed at construction.
    pub closed spec fn cap(&self) -> u32 {
        self.volume_cap
    }

    /// The remembered chunk peaks, oldest first.
    pub closed spec fn peaks(&self) -> Seq<u32> {
        self.window@
    }

    /// The window is well formed with the fixed capacity, and the cap is usable.
    pub closed spec fn wf(&self) -> bool {
        &&& self.window.wf()
        &&& self.window.capacity() == WINDOW_CAPACITY
        &&& valid_cap(self.volume_cap)
    }

    /// A controller with the given cap and an empty window.
    pub fn new(volume_cap: u32) -> (r: Self)
        requires
            valid_cap(volume_cap),
        ensures
            r.wf(),
            r.cap() == volume_cap,
            r.peaks() == Seq::<u32>::empty(),
    {
        GainController { volume_cap, window: RingBuffer::new(WINDOW_CAPACITY) }
    }

    /// The volume cap, as a bit pattern.
    pub fn volume_cap(&self) -> (r: u32)
        ensures
            r == self.cap(),
    {
        self.volume_cap
    }

    /// Takes in one chunk: computes its peak, records it in the window (the
    /// oldest peak leaves once the window is full) and returns it.
    pub fn observe(&mut self, chunk: &[u32]) -> (peak: u32)
        requires
            old(self).wf(),
        ensures
            final(self).wf(),
            peak == chunk_peak(chunk@),
            final(self).cap() == old(self).cap(),
            final(self).peaks() == last_n(old(self).peaks().push(peak), WINDOW_CAPACITY as nat),
            final(self).peaks().len() <= WINDOW_CAPACITY,
    {
        let peak = peak_of(chunk);
        let one = [peak];
        assert(one@ =~= seq![peak]);
        self.window.append(&one);
        assert(old(self).peaks() + seq![peak] =~= old(self).peaks().push(peak));
        peak
    }

    /// The remembered chunk peaks, oldest first.
    pub fn peaks_in_window(&self) -> (r: Vec<u32>)
        requires
            self.wf(),
        ensures
            r@ == self.peaks(),
            r@.len() <= WINDOW_CAPACITY,
    {
        self.window.iter()
    }

    /// The denominator of this chunk's gain, `cap / denominator`, from the
    /// weighted loudness of the window and the chunk peak.
    pub fn denominator(&self, weighted: u32, peak: u32) -> (r: u32)
        ensures
            r == denominator_of(weighted, self.cap(), peak),
    {
        effective_denominator(weighted, self.volume_cap, peak)
    }
}

/// The denominator is never below the cap, has a clear sign bit and is never
/// a NaN, so the gain `cap / denominator` is never above one.
pub proof fn lemma_denominator_bounds(weighted: u32, cap: u32, peak: u32)
    requires
        valid_cap(cap),
    ensures
        denominator_of(weighted, cap, peak) >= cap,
        !is_nan(denominator_of(weighted, cap, peak)),
        magnitude(denominator_of(weighted, cap, peak)) == denominator_of(weighted, cap, peak),
{
}

/// With the chunk peak and the weighted loudness both at most the cap, the
/// denominator is the cap itself, so the gain is exactly one.
pub proof fn lemma_pass_through(weighted: u32, cap: u32, peak: u32)
    requires
        valid_cap(cap),
        magnitude(peak) <= cap,
        magnitude(weighted) <= cap,
    ensures
        denominator_of(weighted, cap, peak) == cap,
{
}

/// A chunk peak is a magnitude and never a NaN.
pub proof fn lemma_chunk_peak_magnitude(s: Seq<u32>)
    ensures
        magnitude(chunk_peak(s)) == chunk_peak(s),
        !is_nan(chunk_peak(s)),
    decreases s.len(),
{
    if s.len() > 0 {
        lemma_chunk_peak_magnitude(s.drop_last());
    }
}

/// With the chunk's peak above the cap and the weighted loudness not above
/// that peak, the denominator is the peak, so the gain brings the peak down
/// to the cap.
pub proof fn lemma_peak_attenuation(weighted: u32, cap: u32, chunk: Seq<u32>)
    requires
        valid_cap(cap),
        chunk_peak(chunk) > cap,
        magnitude(weighted) <= chunk_peak(chunk),
    ensures
        denominator_of(weighted, cap, chunk_peak(chunk)) == chunk_peak(chunk),
{
    lemma_chunk_peak_magnitude(chunk);
}

/// A chunk of zeros has peak zero, and with a weighted loudness of zero the
/// denominator is the cap: silence passes through unchanged.
pub proof fn lemma_silence(chunk: Seq<u32>, cap: u32)
    requires
        valid_cap(cap),
        forall|i: int| 0 <= i < chunk.len() ==> #[trigger] magnitude(chunk[i]) == 0,
    ensures
        chunk_peak(chunk) == 0,
        denominator_of(0, cap, chunk_peak(chunk)) == cap,
    decreases chunk.len(),
{
    if chunk.len() > 0 {
        let d = chunk.drop_last();
        assert forall|i: int| 0 <= i < d.len() implies #[trigger] magnitude(d[i]) == 0 by {
            assert(d[i] == chunk[i]);
        }
        lemma_silence(d, cap);
        assert(magnitude(chunk[chunk.len() - 1]) == 0);
    }
}

} // verus!

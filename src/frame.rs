//! Audio-rate and control-rate sample buffers.
//!
//! Samples are fixed-point integers: an audio sample of `FULL_SCALE` stands
//! for an amplitude of 1.0.
use vstd::prelude::*;

verus! {

/// Number of audio samples that share one control sample.
pub const CTRL_DECIMATION: usize = 16;

/// The audio sample value that stands for an amplitude of 1.0.
pub const FULL_SCALE: i32 = 32768;

/// Control samples needed to cover `n` audio samples.
pub open spec fn cbuf_size_spec(n: int) -> int {
    (n + CTRL_DECIMATION - 1) / CTRL_DECIMATION as int
}

/// `s * num / den`, rounded toward zero.
pub open spec fn scale(s: int, num: int, den: int) -> int {
    if s >= 0 {
        s * num / den
    } else {
        -((-s) * num / den)
    }
}

/// `v` limited to the range of an `i32`.
pub open spec fn clamp_i32(v: int) -> int {
    if v > i32::MAX {
        i32::MAX as int
    } else if v < i32::MIN {
        i32::MIN as int
    } else {
        v
    }
}

/// Magnitude of a sample.
pub open spec fn magnitude(s: int) -> int {
    if s >= 0 { s } else { -s }
}

/// Scaling by a fraction of at most 1 keeps the sign and never grows the magnitude.
pub proof fn lemma_scale_bounded(s: int, num: int, den: int)
    requires
        0 <= num <= den,
        den > 0,
    ensures
        magnitude(scale(s, num, den)) <= magnitude(s),
        s >= 0 ==> scale(s, num, den) >= 0,
        s <= 0 ==> scale(s, num, den) <= 0,
        num == 0 ==> scale(s, num, den) == 0,
{
    if s >= 0 {
        assert(s * num <= s * den) by (nonlinear_arith)
            requires s >= 0, num <= den;
        assert(s * num >= 0) by (nonlinear_arith)
            requires s >= 0, num >= 0;
        assert(s * num / den <= s) by (nonlinear_arith)
            requires s * num <= s * den, den > 0, s * num >= 0;
        assert(s * num / den >= 0) by (nonlinear_arith)
            requires s * num >= 0, den > 0;
    } else {
        let m = -s;
        assert(m * num <= m * den) by (nonlinear_arith)
            requires m >= 0, num <= den;
        assert(m * num >= 0) by (nonlinear_arith)
            requires m >= 0, num >= 0;
        assert(m * num / den <= m) by (nonlinear_arith)
            requires m * num <= m * den, den > 0, m * num >= 0;
        assert(m * num / den >= 0) by (nonlinear_arith)
            requires m * num >= 0, den > 0;
    }
}

/// Number of control samples for a block of `n` audio samples (rounded up).
pub fn get_cbuf_size(n: usize) -> (r: usize)
    requires
        n <= usize::MAX - CTRL_DECIMATION,
    ensures
        r == cbuf_size_spec(n as int),
        r * CTRL_DECIMATION >= n,
        r * CTRL_DECIMATION < n + CTRL_DECIMATION,
{
    (n + CTRL_DECIMATION - 1) / CTRL_DECIMATION
}

/// `s * num / den` on a sample, rounded toward zero.
pub fn scale_sample(s: i32, num: u64, den: u64) -> (r: i32)
    requires
        0 < den,
        num <= den,
        num <= 0x8000_0000,
    ensures
        r == scale(s as int, num as int, den as int),
{
    proof {
        lemma_scale_bounded(s as int, num as int, den as int);
    }
    if s >= 0 {
        let m: u64 = s as u64;
        assert(m * num <= 0x8000_0000u64 * 0x8000_0000u64) by (nonlinear_arith)
            requires m <= 0x8000_0000u64, num <= 0x8000_0000u64;
        ((m * num) / den) as i32
    } else {
        let m: u64 = (-(s as i64)) as u64;
        assert(m * num <= 0x8000_0000u64 * 0x8000_0000u64) by (nonlinear_arith)
            requires m <= 0x8000_0000u64, num <= 0x8000_0000u64;
        let q: u64 = (m * num) / den;
        -(q as i64) as i32
    }
}

/// Sum of two samples, saturated to the range of an `i32`.
pub fn add_saturating(a: i32, b: i32) -> (r: i32)
    ensures
        r == clamp_i32(a + b),
{
    let v: i64 = a as i64 + b as i64;
    if v > i32::MAX as i64 {
        i32::MAX
    } else if v < i32::MIN as i64 {
        i32::MIN
    } else {
        v as i32
    }
}

/// A block of audio-rate samples with a fixed capacity and a logical length.
pub struct AudioFrame {
    abuf: Vec<i32>,
    sample_number: usize,
}

impl AudioFrame {
    /// The samples of the current block.
    pub closed spec fn view(&self) -> Seq<i32> {
        self.abuf@.subrange(0, self.sample_number as int)
    }

    /// How many samples the frame can hold.
    pub closed spec fn capacity(&self) -> int {
        self.abuf@.len() as int
    }

    pub closed spec fn wf(&self) -> bool {
        self.sample_number <= self.abuf@.len()
    }

    /// A silent block of `sample_number` samples in a frame of `capacity` samples.
    pub fn new(sample_number: usize, capacity: usize) -> (r: AudioFrame)
        requires
            sample_number <= capacity,
        ensures
            r.wf(),
            r.capacity() == capacity,
            r@ == Seq::new(sample_number as nat, |i: int| 0i32),
    {
        let mut abuf: Vec<i32> = Vec::new();
        let mut k: usize = 0;
        while k < capacity
            invariant
                k <= capacity,
                abuf@.len() == k,
                forall|j: int| 0 <= j < k ==> abuf@[j] == 0,
            decreases capacity - k,
        {
            abuf.push(0);
            k += 1;
        }
        let r = AudioFrame { abuf, sample_number };
        assert(r@ =~= Seq::new(sample_number as nat, |i: int| 0i32));
        r
    }

    /// A frame holding exactly the given samples.
    pub fn from_vec(samples: Vec<i32>) -> (r: AudioFrame)
        ensures
            r.wf(),
            r@ == samples@,
            r.capacity() == samples@.len(),
    {
        let n = samples.len();
        let r = AudioFrame { abuf: samples, sample_number: n };
        assert(r@ =~= samples@);
        r
    }

    /// The samples of the current block, copied out.
    pub fn to_vec(&self) -> (r: Vec<i32>)
        requires
            self.wf(),
        ensures
            r@ == self@,
    {
        let mut r: Vec<i32> = Vec::new();
        let mut i: usize = 0;
        while i < self.sample_number
            invariant
                self.wf(),
                i <= self.sample_number,
                r@ == self@.subrange(0, i as int),
            decreases self.sample_number - i,
        {
            r.push(self.abuf[i]);
            i += 1;
            assert(r@ =~= self@.subrange(0, i as int));
        }
        assert(r@ =~= self@);
        r
    }

    /// Length of the current block.
    pub fn sample_number(&self) -> (r: usize)
        requires
            self.wf(),
        ensures
            r == self@.len(),
    {
        self.sample_number
    }

    pub fn get_abuf(&self, i: usize) -> (r: i32)
        requires
            self.wf(),
            i < self@.len(),
        ensures
            r == self@[i as int],
    {
        self.abuf[i]
    }

    pub fn set_abuf(&mut self, i: usize, v: i32)
        requires
            old(self).wf(),
            i < old(self)@.len(),
        ensures
            final(self).wf(),
            final(self)@ == old(self)@.update(i as int, v),
            final(self).capacity() == old(self).capacity(),
    {
        self.abuf.set(i, v);
        assert(self@ =~= old(self)@.update(i as int, v));
    }

    /// Multiplies sample `i` by `num / den`.
    pub fn mul_rate(&mut self, i: usize, num: u64, den: u64)
        requires
            old(self).wf(),
            i < old(self)@.len(),
            0 < den,
            num <= den,
            num <= 0x8000_0000,
        ensures
            final(self).wf(),
            final(self)@ == old(self)@.update(
                i as int,
                scale(old(self)@[i as int] as int, num as int, den as int) as i32,
            ),
            final(self).capacity() == old(self).capacity(),
    {
        let s = self.get_abuf(i);
        let v = scale_sample(s, num, den);
        self.set_abuf(i, v);
    }

    /// Adds `src * num / den` into this frame, sample by sample, saturating.
    pub fn mul_and_mix(&mut self, src: &AudioFrame, num: u64, den: u64)
        requires
            old(self).wf(),
            src.wf(),
            src@.len() == old(self)@.len(),
            0 < den,
            num <= den,
            num <= 0x8000_0000,
        ensures
            final(self).wf(),
            final(self).capacity() == old(self).capacity(),
            final(self)@.len() == old(self)@.len(),
            forall|j: int|
                0 <= j < old(self)@.len() ==> #[trigger] final(self)@[j] == clamp_i32(
                    old(self)@[j] + scale(src@[j] as int, num as int, den as int),
                ),
    {
        let n = self.sample_number;
        let mut i: usize = 0;
        while i < n
            invariant
                self.wf(),
                src.wf(),
                n == self@.len(),
                src@.len() == n,
                old(self)@.len() == n,
                self.capacity() == old(self).capacity(),
                i <= n,
                0 < den,
                num <= den,
                num <= 0x8000_0000,
                forall|j: int|
                    0 <= j < i ==> #[trigger] self@[j] == clamp_i32(
                        old(self)@[j] + scale(src@[j] as int, num as int, den as int),
                    ),
                forall|j: int| i <= j < n ==> #[trigger] self@[j] == old(self)@[j],
            decreases n - i,
        {
            let s = scale_sample(src.get_abuf(i), num, den);
            let v = add_saturating(self.get_abuf(i), s);
            self.set_abuf(i, v);
            i += 1;
        }
    }
}

/// A block of control-rate samples; one control sample covers
/// `CTRL_DECIMATION` audio samples.
pub struct CtrlFrame {
    cbuf: Vec<i32>,
}

impl CtrlFrame {
    pub closed spec fn view(&self) -> Seq<i32> {
        self.cbuf@
    }

    /// A control block of `n` zero samples.
    pub fn new(n: usize) -> (r: CtrlFrame)
        ensures
            r@ == Seq::new(n as nat, |i: int| 0i32),
    {
        let mut cbuf: Vec<i32> = Vec::new();
        let mut k: usize = 0;
        while k < n
            invariant
                k <= n,
                cbuf@.len() == k,
                forall|j: int| 0 <= j < k ==> cbuf@[j] == 0,
            decreases n - k,
        {
            cbuf.push(0);
            k += 1;
        }
        let r = CtrlFrame { cbuf };
        assert(r@ =~= Seq::new(n as nat, |i: int| 0i32));
        r
    }

    pub fn sample_number(&self) -> (r: usize)
        ensures
            r == self@.len(),
    {
        self.cbuf.len()
    }

    /// Sets the block length to `n`: samples past it are dropped, new ones are
    /// 0. Storage is kept, so a frame first made for the longest block never
    /// allocates again.
    pub fn resize(&mut self, n: usize)
        ensures
            final(self)@.len() == n,
            forall|j: int| 0 <= j < n && j < old(self)@.len() ==> #[trigger] final(self)@[j] == old(self)@[j],
            forall|j: int| old(self)@.len() <= j < n ==> #[trigger] final(self)@[j] == 0,
    {
        if n <= self.cbuf.len() {
            self.cbuf.truncate(n);
        } else {
            let ghost c0 = self.cbuf@;
            while self.cbuf.len() < n
                invariant
                    c0.len() <= self.cbuf@.len() <= n,
                    forall|j: int| 0 <= j < c0.len() ==> #[trigger] self.cbuf@[j] == c0[j],
                    forall|j: int| c0.len() <= j < self.cbuf@.len() ==> #[trigger] self.cbuf@[j] == 0,
                decreases n - self.cbuf@.len(),
            {
                self.cbuf.push(0);
            }
        }
    }

    pub fn get_cbuf(&self, i: usize) -> (r: i32)
        requires
            i < self@.len(),
        ensures
            r == self@[i as int],
    {
        self.cbuf[i]
    }

    pub fn set_cbuf(&mut self, i: usize, v: i32)
        requires
            i < old(self)@.len(),
        ensures
            final(self)@ == old(self)@.update(i as int, v),
    {
        self.cbuf.set(i, v);
    }

    /// The control sample that covers audio sample `i`.
    pub fn ctrl_for_audio(&self, i: usize) -> (r: i32)
        requires
            i / CTRL_DECIMATION < self@.len(),
        ensures
            r == self@[(i / CTRL_DECIMATION) as int],
    {
        self.cbuf[i / CTRL_DECIMATION]
    }
}

} // verus!

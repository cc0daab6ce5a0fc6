//! Low-frequency modulator: a free-running control-rate waveform.
use vstd::prelude::*;
use vstd::arithmetic::div_mod::lemma_add_mod_noop;
use crate::frame::CtrlFrame;

verus! {

/// Phase units in one cycle of the modulator.
pub const LFO_PERIOD: u32 = 65536;

/// Peak of the waveform before the depth is applied.
pub const LFO_PEAK: i32 = 32768;

#[derive(PartialEq, Eq, Structural, Clone, Copy, Debug)]
pub enum LfoWave {
    Triangle,
    Saw,
    Square,
}

/// Settings of a modulator: phase advance per control sample, depth
/// (`LFO_PEAK` is full depth) and wave shape.
#[derive(Clone, Copy, Debug)]
pub struct LfoParameter {
    pub delta: u16,
    pub depth: u16,
    pub wave: LfoWave,
}

/// Waveform value at `phase` (in `[0, LFO_PERIOD)`), in `[-LFO_PEAK, LFO_PEAK]`.
pub open spec fn wave_value(wave: LfoWave, phase: int) -> int {
    match wave {
        LfoWave::Triangle => if phase < 16384 {
            phase * 2
        } else if phase < 49152 {
            32768 - (phase - 16384) * 2
        } else {
            (phase - 49152) * 2 - 32768
        },
        LfoWave::Saw => phase - 32768,
        LfoWave::Square => if phase < 32768 { 32768 } else { -32768 },
    }
}

/// The modulator's output at `phase` with `depth`.
pub open spec fn lfo_value(wave: LfoWave, phase: int, depth: int) -> int {
    crate::frame::scale(wave_value(wave, phase), depth, LFO_PEAK as int)
}

/// Phase after `k` control samples from `ph0`.
pub open spec fn phase_after(ph0: int, delta: int, k: int) -> int {
    (ph0 + k * delta) % (LFO_PERIOD as int)
}

/// Rate for a controller value: a larger value runs faster.
pub open spec fn delta_of(value: int) -> int {
    (value + 1) * 8
}

/// The settings a modulator keeps of `p`: the depth is limited to `LFO_PEAK`.
pub open spec fn lfo_prm_of(p: LfoParameter) -> LfoParameter {
    LfoParameter { depth: if p.depth <= LFO_PEAK { p.depth } else { LFO_PEAK as u16 }, ..p }
}

/// `new` and `out` are what running `old` over `out.len()` control samples
/// gives: a started modulator emits its waveform from its phase on and
/// advances it; a stopped one emits 0 and keeps its phase.
pub open spec fn lfo_ran(old: Lfo, new: Lfo, out: Seq<i32>) -> bool {
    &&& new.prm_spec() == old.prm_spec()
    &&& new.running_spec() == old.running_spec()
    &&& old.running_spec() ==> {
        &&& new.phase_spec() == phase_after(old.phase_spec(), old.prm_spec().delta as int, out.len() as int)
        &&& forall|j: int| 0 <= j < out.len() ==> #[trigger] out[j] == lfo_value(
            old.prm_spec().wave,
            phase_after(old.phase_spec(), old.prm_spec().delta as int, j),
            old.prm_spec().depth as int,
        )
    }
    &&& !old.running_spec() ==> {
        &&& new.phase_spec() == old.phase_spec()
        &&& forall|j: int| 0 <= j < out.len() ==> #[trigger] out[j] == 0
    }
}

pub struct Lfo {
    phase: u32,
    prm: LfoParameter,
    running: bool,
}

impl Lfo {
    pub closed spec fn phase_spec(&self) -> int {
        self.phase as int
    }

    pub closed spec fn prm_spec(&self) -> LfoParameter {
        self.prm
    }

    pub closed spec fn running_spec(&self) -> bool {
        self.running
    }

    pub open spec fn wf(&self) -> bool {
        &&& 0 <= self.phase_spec() < LFO_PERIOD
        &&& self.prm_spec().depth <= LFO_PEAK
    }

    /// A stopped modulator with the given settings; the depth is limited to
    /// `LFO_PEAK`.
    pub fn new(prm: LfoParameter) -> (r: Lfo)
        ensures
            r.wf(),
            !r.running_spec(),
            r.phase_spec() == 0,
            r.prm_spec() == lfo_prm_of(prm),
    {
        let depth: u16 = if prm.depth <= 32768 { prm.depth } else { 32768 };
        Lfo { phase: 0, prm: LfoParameter { delta: prm.delta, depth, wave: prm.wave }, running: false }
    }

    /// Restarts the waveform from phase 0.
    pub fn start(&mut self)
        ensures
            final(self).running_spec(),
            final(self).phase_spec() == 0,
            final(self).prm_spec() == old(self).prm_spec(),
    {
        self.phase = 0;
        self.running = true;
    }

    /// Sets the rate from a controller value (0 to 127).
    pub fn set_freq(&mut self, value: u8)
        requires
            old(self).wf(),
        ensures
            final(self).wf(),
            final(self).prm_spec().delta == delta_of(value as int),
            final(self).prm_spec().depth == old(self).prm_spec().depth,
            final(self).prm_spec().wave == old(self).prm_spec().wave,
            final(self).phase_spec() == old(self).phase_spec(),
            final(self).running_spec() == old(self).running_spec(),
    {
        self.prm.delta = (value as u16 + 1) * 8;
    }

    /// Sets the wave shape: 0 triangle, 1 saw, 2 square; other values are ignored.
    pub fn set_wave(&mut self, value: u8)
        requires
            old(self).wf(),
        ensures
            final(self).wf(),
            final(self).prm_spec().wave == (if value == 0 {
                LfoWave::Triangle
            } else if value == 1 {
                LfoWave::Saw
            } else if value == 2 {
                LfoWave::Square
            } else {
                old(self).prm_spec().wave
            }),
            final(self).prm_spec().delta == old(self).prm_spec().delta,
            final(self).prm_spec().depth == old(self).prm_spec().depth,
            final(self).phase_spec() == old(self).phase_spec(),
            final(self).running_spec() == old(self).running_spec(),
    {
        if value == 0 {
            self.prm.wave = LfoWave::Triangle;
        } else if value == 1 {
            self.prm.wave = LfoWave::Saw;
        } else if value == 2 {
            self.prm.wave = LfoWave::Square;
        }
    }

    fn wave_at(&self) -> (r: i32)
        requires
            self.wf(),
        ensures
            r == lfo_value(self.prm_spec().wave, self.phase_spec(), self.prm_spec().depth as int),
    {
        let p: i32 = self.phase as i32;
        let w: i32 = match self.prm.wave {
            LfoWave::Triangle => if p < 16384 {
                p * 2
            } else if p < 49152 {
                32768 - (p - 16384) * 2
            } else {
                (p - 49152) * 2 - 32768
            },
            LfoWave::Saw => p - 32768,
            LfoWave::Square => if p < 32768 { 32768 } else { -32768 },
        };
        crate::frame::scale_sample(w, self.prm.depth as u64, 32768)
    }

    /// Fills `cbuf` with the waveform, one phase step per control sample; a
    /// modulator that was never started gives 0 and keeps its phase.
    pub fn process(&mut self, cbuf: &mut CtrlFrame)
        requires
            old(self).wf(),
        ensures
            final(self).wf(),
            final(self).prm_spec() == old(self).prm_spec(),
            final(self).running_spec() == old(self).running_spec(),
            final(cbuf)@.len() == old(cbuf)@.len(),
            lfo_ran(*old(self), *final(self), final(cbuf)@),
            old(self).running_spec() ==> {
                &&& final(self).phase_spec() == phase_after(
                    old(self).phase_spec(),
                    old(self).prm_spec().delta as int,
                    old(cbuf)@.len() as int,
                )
                &&& forall|j: int| 0 <= j < final(cbuf)@.len() ==> #[trigger] final(cbuf)@[j] == lfo_value(
                    old(self).prm_spec().wave,
                    phase_after(old(self).phase_spec(), old(self).prm_spec().delta as int, j),
                    old(self).prm_spec().depth as int,
                )
            },
            !old(self).running_spec() ==> {
                &&& final(self).phase_spec() == old(self).phase_spec()
                &&& forall|j: int| 0 <= j < final(cbuf)@.len() ==> #[trigger] final(cbuf)@[j] == 0
            },
    {
        let n = cbuf.sample_number();
        let ghost ph0 = self.phase as int;
        let ghost d = self.prm.delta as int;
        proof {
            assert(ph0 % 65536 == ph0) by (nonlinear_arith)
                requires 0 <= ph0 < 65536;
            assert(ph0 + 0 * d == ph0) by (nonlinear_arith);
        }
        let mut i: usize = 0;
        while i < n
            invariant
                self.wf(),
                n == cbuf@.len(),
                i <= n,
                self.prm_spec() == old(self).prm_spec(),
                self.running_spec() == old(self).running_spec(),
                ph0 == old(self).phase_spec(),
                d == old(self).prm_spec().delta,
                self.running_spec() ==> self.phase_spec() == phase_after(ph0, d, i as int),
                !self.running_spec() ==> self.phase_spec() == ph0,
                self.running_spec() ==> forall|j: int| 0 <= j < i ==> #[trigger] cbuf@[j] == lfo_value(
                    self.prm_spec().wave,
                    phase_after(ph0, d, j),
                    self.prm_spec().depth as int,
                ),
                !self.running_spec() ==> forall|j: int| 0 <= j < i ==> #[trigger] cbuf@[j] == 0,
            decreases n - i,
        {
            if self.running {
                let v = self.wave_at();
                cbuf.set_cbuf(i, v);
                proof {
                    lemma_add_mod_noop(ph0 + i * d, d, 65536);
                    assert(d % 65536 == d) by (nonlinear_arith)
                        requires 0 <= d < 65536;
                    assert((ph0 + i * d) % 65536 % 65536 == (ph0 + i * d) % 65536) by (nonlinear_arith);
                    assert(ph0 + i * d + d == ph0 + (i + 1) * d) by (nonlinear_arith);
                }
                self.phase = (self.phase + self.prm.delta as u32) % 65536;
            } else {
                cbuf.set_cbuf(i, 0);
            }
            i += 1;
        }
    }
}

} // verus!

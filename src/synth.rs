//! A single-note synth: an envelope and a fixed gain over a waveform that is
//! generated for its note.
use vstd::prelude::*;
use crate::aeg::{Aeg, AegParameter, EgState, EG_UNITY, eg_value};
use crate::frame::{AudioFrame, CtrlFrame, CTRL_DECIMATION, cbuf_size_spec, get_cbuf_size, scale};
use crate::voice::MAX_BUFFER_SIZE;

verus! {

/// Attack length of the synth's envelope, in control samples.
pub const SYNTH_ATTACK_TIME: u32 = 276;

/// Release length of the synth's envelope, in control samples.
pub const SYNTH_RELEASE_TIME: u32 = 276;

/// The synth's gain is `1 / SYNTH_VOL_DEN` (a 4-bit margin).
pub const SYNTH_VOL_DEN: u64 = 16;

pub struct SynthView {
    pub note: u8,
    pub aeg: Aeg,
}

impl SynthView {
    /// The block a render pass makes of the waveform block `input`.
    pub open spec fn rendered(self, input: Seq<i32>) -> Seq<i32> {
        Seq::new(
            input.len(),
            |i: int|
                scale(
                    input[i] as int,
                    self.aeg.after((i / CTRL_DECIMATION as int + 1) as nat).level_spec(),
                    SYNTH_VOL_DEN * EG_UNITY,
                ) as i32,
        )
    }
}

pub struct Synth {
    note: u8,
    aeg: Aeg,
    aegbuf: CtrlFrame,
}

impl Synth {
    pub closed spec fn view(&self) -> SynthView {
        SynthView { note: self.note, aeg: self.aeg }
    }

    pub open spec fn wf(&self) -> bool {
        &&& self@.aeg.wf()
        &&& self@.aeg.prm_spec() == (AegParameter {
            attack_time: SYNTH_ATTACK_TIME,
            release_time: SYNTH_RELEASE_TIME,
        })
    }

    /// A silent synth for `note`, its envelope not yet started.
    pub fn new(note: u8) -> (r: Synth)
        ensures
            r.wf(),
            r@.note == note,
            r@.aeg.state_spec() == EgState::NotYet,
            r@.aeg.level_spec() == 0,
            r@.aeg.source_spec() == 0,
            r@.aeg.target_spec() == 0,
            r@.aeg.elapsed_spec() == 0,
            r@.aeg.duration_spec() == 0,
            r@.aeg.prm_spec() == (AegParameter {
                attack_time: SYNTH_ATTACK_TIME,
                release_time: SYNTH_RELEASE_TIME,
            }),
    {
        Synth {
            note,
            aeg: Aeg::new(AegParameter { attack_time: SYNTH_ATTACK_TIME, release_time: SYNTH_RELEASE_TIME }),
            aegbuf: CtrlFrame::new(get_cbuf_size(MAX_BUFFER_SIZE)),
        }
    }

    pub fn note(&self) -> (r: u8)
        ensures
            r == self@.note,
    {
        self.note
    }

    /// Current envelope level.
    pub fn eg_level(&self) -> (r: i32)
        ensures
            r == self@.aeg.level_spec(),
    {
        self.aeg.level()
    }

    pub fn eg_state(&self) -> (r: EgState)
        ensures
            r == self@.aeg.state_spec(),
    {
        self.aeg.state()
    }

    /// Applies the envelope and the gain to the waveform in `abuf`.
    pub fn process(&mut self, abuf: &mut AudioFrame)
        requires
            old(self).wf(),
            old(abuf).wf(),
            old(abuf)@.len() <= MAX_BUFFER_SIZE,
        ensures
            final(self).wf(),
            final(abuf).wf(),
            final(abuf).capacity() == old(abuf).capacity(),
            final(abuf)@ == old(self)@.rendered(old(abuf)@),
            final(self)@ == (SynthView {
                aeg: old(self)@.aeg.after(cbuf_size_spec(old(abuf)@.len() as int) as nat),
                ..old(self)@
            }),
            old(self)@.aeg.state_spec() == EgState::Attack || old(self)@.aeg.state_spec()
                == EgState::Release ==> final(self)@.aeg.level_spec() == if old(abuf)@.len() == 0 {
                old(self)@.aeg.level_spec()
            } else {
                eg_value(
                    old(self)@.aeg.source_spec(),
                    old(self)@.aeg.target_spec(),
                    old(self)@.aeg.elapsed_spec() + cbuf_size_spec(old(abuf)@.len() as int),
                    old(self)@.aeg.duration_spec(),
                )
            },
            old(self)@.aeg.state_spec() == EgState::Attack ==> {
                &&& old(self)@.aeg.on_curve() ==> old(self)@.aeg.level_spec() <= final(self)@.aeg.level_spec()
                &&& final(self)@.aeg.state_spec() == EgState::Attack
                    || final(self)@.aeg.state_spec() == EgState::KeyOnSteady
                &&& cbuf_size_spec(old(abuf)@.len() as int) >= old(self)@.aeg.duration_spec()
                    - old(self)@.aeg.elapsed_spec() ==> {
                    &&& final(self)@.aeg.state_spec() == EgState::KeyOnSteady
                    &&& final(self)@.aeg.level_spec() == EG_UNITY
                }
            },
            old(self)@.aeg.state_spec() == EgState::Release ==> {
                &&& final(self)@.aeg.level_spec() <= old(self)@.aeg.level_spec()
                &&& final(self)@.aeg.state_spec() == EgState::Release
                    || final(self)@.aeg.state_spec() == EgState::KeyOffSteady
                &&& cbuf_size_spec(old(abuf)@.len() as int) >= old(self)@.aeg.duration_spec()
                    - old(self)@.aeg.elapsed_spec() ==> {
                    &&& final(self)@.aeg.state_spec() == EgState::KeyOffSteady
                    &&& final(self)@.aeg.level_spec() == 0
                }
            },
            old(self)@.aeg.state_spec() != EgState::Attack && old(self)@.aeg.state_spec()
                != EgState::Release ==> final(self)@ == old(self)@,
    {
        let ghost in0 = abuf@;
        let ghost a0 = self.aeg;
        let n = abuf.sample_number();
        let cbuf_size = get_cbuf_size(n);
        self.aegbuf.resize(cbuf_size);
        self.aeg.process(&mut self.aegbuf);
        let den: u64 = SYNTH_VOL_DEN * 65536;
        let mut i: usize = 0;
        while i < n
            invariant
                abuf.wf(),
                abuf@.len() == n,
                in0.len() == n,
                abuf.capacity() == old(abuf).capacity(),
                self.aegbuf@.len() == cbuf_size,
                cbuf_size * CTRL_DECIMATION >= n,
                i <= n,
                den == SYNTH_VOL_DEN * EG_UNITY,
                forall|j: int| 0 <= j < cbuf_size ==> #[trigger] self.aegbuf@[j] == a0.after((j + 1) as nat).level_spec(),
                forall|j: int| 0 <= j < cbuf_size ==> 0 <= #[trigger] self.aegbuf@[j] <= EG_UNITY,
                forall|j: int| 0 <= j < i ==> #[trigger] abuf@[j] == scale(
                    in0[j] as int,
                    a0.after((j / CTRL_DECIMATION as int + 1) as nat).level_spec(),
                    SYNTH_VOL_DEN * EG_UNITY,
                ) as i32,
                forall|j: int| i <= j < n ==> #[trigger] abuf@[j] == in0[j],
            decreases n - i,
        {
            let eg = self.aegbuf.ctrl_for_audio(i);
            proof {
                assert(i / CTRL_DECIMATION < cbuf_size) by (nonlinear_arith)
                    requires i < n, cbuf_size * 16 >= n, CTRL_DECIMATION == 16;
            }
            abuf.mul_rate(i, eg as u64, den);
            i += 1;
        }
        assert(abuf@ =~= (SynthView { note: self.note, aeg: a0 }).rendered(in0));
    }

    /// Starts the attack: from 0 up to full level; the level drops onto the
    /// attack's line at its first sample.
    pub fn move_to_attack(&mut self)
        requires
            old(self).wf(),
        ensures
            final(self).wf(),
            final(self)@.note == old(self)@.note,
            final(self)@.aeg.state_spec() == EgState::Attack,
            final(self)@.aeg.level_spec() == old(self)@.aeg.level_spec(),
            final(self)@.aeg.elapsed_spec() == 0,
            final(self)@.aeg.duration_spec() == SYNTH_ATTACK_TIME,
            final(self)@.aeg.source_spec() == 0,
            final(self)@.aeg.target_spec() == EG_UNITY,
            final(self)@.aeg.prm_spec() == old(self)@.aeg.prm_spec(),
    {
        self.aeg.move_to_attack();
    }

    /// Starts the release: from the current level down to silence.
    pub fn move_to_release(&mut self)
        requires
            old(self).wf(),
        ensures
            final(self).wf(),
            final(self)@.note == old(self)@.note,
            final(self)@.aeg.state_spec() == EgState::Release,
            final(self)@.aeg.level_spec() == old(self)@.aeg.level_spec(),
            final(self)@.aeg.elapsed_spec() == 0,
            final(self)@.aeg.duration_spec() == SYNTH_RELEASE_TIME,
            final(self)@.aeg.source_spec() == old(self)@.aeg.level_spec(),
            final(self)@.aeg.target_spec() == 0,
            final(self)@.aeg.prm_spec() == old(self)@.aeg.prm_spec(),
    {
        self.aeg.move_to_release();
    }
}

} // verus!

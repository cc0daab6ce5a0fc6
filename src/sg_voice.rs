//! Singing voice on an additive oscillator.
use vstd::prelude::*;
use crate::aeg::AegParameter;
use crate::frame::{AudioFrame, CtrlFrame, cbuf_size_spec};
use crate::lfo::LfoParameter;
use crate::voice::{BodyView, NoteStatus, VoiceBody, MAX_BUFFER_SIZE, MIDI_MAX, gain_num};

verus! {

/// Headroom divisor of this voice: its gain is `volume * expression / SG_VOL_DEN`
/// (a 4-bit margin under full scale).
pub const SG_VOL_DEN: u64 = 262144;

/// First formant of the additive oscillator before any parameter is set, in Hz.
pub const SG_DEFAULT_F1: u32 = 800;

/// Second formant of the additive oscillator before any parameter is set, in Hz.
pub const SG_DEFAULT_F2: u32 = 1200;

/// Settings of one program for this voice.
#[derive(Clone, Copy, Debug)]
pub struct SgParameter {
    pub aeg: AegParameter,
    pub lfo: LfoParameter,
}

/// What the additive oscillator is set to: note, pitch offset (1/1024 cent),
/// modulation depth and the two formants (Hz). The depth is the controller
/// value 0 to 127; the oscillator's pitch-modulation depth is `pmd / 254`.
#[derive(PartialEq, Eq, Structural, Clone, Copy, Debug)]
pub struct Additive {
    pub note: u8,
    pub pitch: i32,
    pub pmd: u8,
    pub f1: u32,
    pub f2: u32,
}

/// First formant for a parameter value.
pub open spec fn sg_f1_of(value: int) -> int {
    200 + value * 5
}

/// Second formant for a parameter value.
pub open spec fn sg_f2_of(value: int) -> int {
    800 + value * 12
}

pub struct SgView {
    pub body: BodyView,
    pub osc: Additive,
}

pub struct VoiceSg {
    body: VoiceBody,
    osc: Additive,
}

impl VoiceSg {
    pub closed spec fn view(&self) -> SgView {
        SgView { body: self.body@, osc: self.osc }
    }

    pub open spec fn wf(&self) -> bool {
        &&& self@.body.wf_view()
        &&& self@.body.vol_den == SG_VOL_DEN
    }

    proof fn lemma_wf(&self)
        requires
            self.wf(),
        ensures
            self.body.wf(),
    {
    }

    /// A voice for `note` at velocity `vel`, with the given modulation depth,
    /// pitch offset (1/1024 cent), volume and expression, not yet started.
    pub fn new(note: u8, vel: u8, pmd: u8, pit: i32, vol: u8, exp: u8, prm: &SgParameter) -> (r: Self)
        requires
            vol <= MIDI_MAX,
            exp <= MIDI_MAX,
            prm.aeg.attack_time > 0,
            prm.aeg.release_time > 0,
        ensures
            r.wf(),
            r@.body.note == note,
            r@.body.vel == vel,
            r@.body.status == NoteStatus::DuringNoteOn,
            r@.body.damp_counter == 0,
            r@.body.max_note_vol == gain_num(vol as int, exp as int),
            r@.body.vol_den == SG_VOL_DEN,
            !r@.body.ended,
            r@.body.aeg.prm_spec() == prm.aeg,
            r@.body.aeg.state_spec() == crate::aeg::EgState::NotYet,
            r@.body.aeg.level_spec() == 0,
            !r@.body.lfo.running_spec(),
            r@.body.lfo.phase_spec() == 0,
            r@.body.lfo.prm_spec() == crate::lfo::lfo_prm_of(prm.lfo),
            r@.osc == (Additive { note, pitch: pit, pmd, f1: SG_DEFAULT_F1, f2: SG_DEFAULT_F2 }),
    {
        VoiceSg {
            body: VoiceBody::new(note, vel, vol, exp, SG_VOL_DEN, prm.aeg, prm.lfo),
            osc: Additive { note, pitch: pit, pmd, f1: SG_DEFAULT_F1, f2: SG_DEFAULT_F2 },
        }
    }

    /// Starts the envelope's attack and the modulator.
    pub fn start_sound(&mut self)
        requires
            old(self).wf(),
        ensures
            final(self).wf(),
            final(self)@.osc == old(self)@.osc,
            final(self)@.body == (BodyView {
                aeg: final(self)@.body.aeg,
                lfo: final(self)@.body.lfo,
                ..old(self)@.body
            }),
            crate::voice::attacked(old(self)@.body, final(self)@.body),
    {
        proof { self.lemma_wf(); }
        self.body.start_sound();
    }

    /// Legato re-trigger: the same voice takes the new note and velocity,
    /// sounds again and retunes its oscillator in place.
    pub fn slide(&mut self, note: u8, vel: u8)
        requires
            old(self).wf(),
        ensures
            final(self).wf(),
            final(self)@.osc == (Additive { note, ..old(self)@.osc }),
            final(self)@.body == (BodyView {
                note,
                vel,
                status: NoteStatus::DuringNoteOn,
                damp_counter: 0,
                aeg: final(self)@.body.aeg,
                lfo: final(self)@.body.lfo,
                ..old(self)@.body
            }),
            crate::voice::attacked(old(self)@.body, final(self)@.body),
    {
        proof { self.lemma_wf(); }
        self.body.slide(note, vel);
        self.osc.note = note;
    }

    /// Key released: the envelope starts its release.
    pub fn note_off(&mut self)
        requires
            old(self).wf(),
        ensures
            final(self).wf(),
            final(self)@.osc == old(self)@.osc,
            final(self)@.body == (BodyView {
                status: NoteStatus::AfterNoteOff,
                aeg: final(self)@.body.aeg,
                ..old(self)@.body
            }),
            crate::voice::released(old(self)@.body, final(self)@.body),
    {
        proof { self.lemma_wf(); }
        self.body.note_off();
    }

    pub fn note_num(&self) -> (r: u8)
        ensures
            r == self@.body.note,
    {
        self.body.note_num()
    }

    pub fn velocity(&self) -> (r: u8)
        ensures
            r == self@.body.vel,
    {
        self.body.velocity()
    }

    /// Sets the oscillator's modulation depth (0 to 127).
    pub fn change_pmd(&mut self, value: u8)
        ensures
            final(self)@ == (SgView { osc: Additive { pmd: value, ..old(self)@.osc }, ..old(self)@ }),
    {
        self.osc.pmd = value;
    }

    /// Sets the gain from a volume and an expression (each 0 to 127).
    pub fn amplitude(&mut self, volume: u8, expression: u8)
        requires
            old(self).wf(),
            volume <= MIDI_MAX,
            expression <= MIDI_MAX,
        ensures
            final(self).wf(),
            final(self)@.osc == old(self)@.osc,
            final(self)@.body == (BodyView {
                max_note_vol: gain_num(volume as int, expression as int) as u32,
                ..old(self)@.body
            }),
    {
        proof { self.lemma_wf(); }
        self.body.amplitude(volume, expression);
    }

    /// Sets the oscillator's pitch offset, in 1/1024 cent.
    pub fn pitch(&mut self, pitch: i32)
        ensures
            final(self)@ == (SgView { osc: Additive { pitch, ..old(self)@.osc }, ..old(self)@ }),
    {
        self.osc.pitch = pitch;
    }

    pub fn status(&self) -> (r: NoteStatus)
        ensures
            r == self@.body.status,
    {
        self.body.status()
    }

    /// Forced fast silence: the voice fades out over `DAMP_TIME` samples.
    pub fn damp(&mut self)
        requires
            old(self).wf(),
        ensures
            final(self).wf(),
            final(self)@.osc == old(self)@.osc,
            final(self)@.body == (BodyView {
                status: NoteStatus::DuringDamp,
                damp_counter: 0,
                ..old(self)@.body
            }),
    {
        proof { self.lemma_wf(); }
        self.body.damp();
    }

    /// Runs the modulator for a block of `n` samples into `lbuf`; its output drives the
    /// oscillator.
    pub fn lfo_frame(&mut self, lbuf: &mut CtrlFrame, n: usize)
        requires
            old(self).wf(),
            n <= MAX_BUFFER_SIZE,
        ensures
            final(self).wf(),
            final(self)@.osc == old(self)@.osc,
            final(self)@.body == (BodyView { lfo: final(self)@.body.lfo, ..old(self)@.body }),
            final(lbuf)@.len() == cbuf_size_spec(n as int),
            crate::lfo::lfo_ran(old(self)@.body.lfo, final(self)@.body.lfo, final(lbuf)@),
    {
        proof { self.lemma_wf(); }
        self.body.lfo_frame(lbuf, n);
    }

    /// Renders the block: `abuf` holds the oscillator's output for it.
    pub fn process(&mut self, abuf: &mut AudioFrame, n: usize) -> (r: bool)
        requires
            old(self).wf(),
            !old(self)@.body.ended ==> old(abuf).wf() && old(abuf)@.len() == n && n <= MAX_BUFFER_SIZE,
        ensures
            final(self).wf(),
            old(abuf).wf() ==> final(abuf).wf(),
            final(abuf).capacity() == old(abuf).capacity(),
            final(self)@.osc == old(self)@.osc,
            final(abuf)@ == old(self)@.body.rendered(old(abuf)@),
            final(self)@.body == old(self)@.body.processed(old(abuf)@),
            r == final(self)@.body.ended,
            old(self)@.body.ended ==> r && final(abuf)@ == old(abuf)@,
    {
        proof { self.lemma_wf(); }
        self.body.process(abuf, n)
    }

    /// Sets one of the voice's parameters: 0 the modulator's rate, 1 its wave
    /// shape, 2 the first formant, 3 the second; other indices are ignored.
    pub fn set_prm(&mut self, prm_type: u8, value: u8)
        requires
            old(self).wf(),
        ensures
            final(self).wf(),
            prm_type <= 1 ==> {
                &&& final(self)@.osc == old(self)@.osc
                &&& final(self)@.body == (BodyView { lfo: final(self)@.body.lfo, ..old(self)@.body })
                &&& final(self)@.body.lfo.prm_spec().depth == old(self)@.body.lfo.prm_spec().depth
                &&& final(self)@.body.lfo.phase_spec() == old(self)@.body.lfo.phase_spec()
                &&& final(self)@.body.lfo.running_spec() == old(self)@.body.lfo.running_spec()
            },
            prm_type == 0 ==> {
                &&& final(self)@.body.lfo.prm_spec().delta == crate::lfo::delta_of(value as int)
                &&& final(self)@.body.lfo.prm_spec().wave == old(self)@.body.lfo.prm_spec().wave
            },
            prm_type == 1 ==> {
                &&& final(self)@.body.lfo.prm_spec().delta == old(self)@.body.lfo.prm_spec().delta
                &&& final(self)@.body.lfo.prm_spec().wave == (if value == 0 {
                    crate::lfo::LfoWave::Triangle
                } else if value == 1 {
                    crate::lfo::LfoWave::Saw
                } else if value == 2 {
                    crate::lfo::LfoWave::Square
                } else {
                    old(self)@.body.lfo.prm_spec().wave
                })
            },
            prm_type == 2 ==> final(self)@ == (SgView {
                osc: Additive { f1: sg_f1_of(value as int) as u32, ..old(self)@.osc },
                ..old(self)@
            }),
            prm_type == 3 ==> final(self)@ == (SgView {
                osc: Additive { f2: sg_f2_of(value as int) as u32, ..old(self)@.osc },
                ..old(self)@
            }),
            prm_type > 3 ==> final(self)@ == old(self)@,
    {
        proof { self.lemma_wf(); }
        if prm_type == 0 {
            self.body.set_lfo_freq(value);
        } else if prm_type == 1 {
            self.body.set_lfo_wave(value);
        } else if prm_type == 2 {
            self.osc.f1 = 200 + value as u32 * 5;
        } else if prm_type == 3 {
            self.osc.f2 = 800 + value as u32 * 12;
        }
    }

    pub fn damp_counter(&self) -> (r: u32)
        ensures
            r == self@.body.damp_counter,
    {
        self.body.damp_counter()
    }

    /// Counts `num` more samples of damping, up to `DAMP_TIME`.
    pub fn add_damp_counter(&mut self, num: u32)
        requires
            old(self).wf(),
        ensures
            final(self).wf(),
            final(self)@ == (SgView { body: final(self)@.body, ..old(self)@ }),
            final(self)@.body == (BodyView {
                damp_counter: if old(self)@.body.damp_counter + num >= crate::voice::DAMP_TIME {
                    crate::voice::DAMP_TIME
                } else {
                    (old(self)@.body.damp_counter + num) as u32
                },
                ..old(self)@.body
            }),
    {
        proof { self.lemma_wf(); }
        self.body.add_damp_counter(num);
    }

    pub fn ended(&self) -> (r: bool)
        ensures
            r == self@.body.ended,
    {
        self.body.ended()
    }

    /// The oscillator's settings, which the caller's tone generator renders.
    pub fn oscillator(&self) -> (r: Additive)
        ensures
            r == self@.osc,
    {
        self.osc
    }

    pub fn max_note_vol(&self) -> (r: u32)
        ensures
            r == self@.body.max_note_vol,
    {
        self.body.max_note_vol()
    }
}

/// Two voices are equal when they sound the same note at the same velocity;
/// this is what note lookups compare, not an identity.
impl PartialEq for VoiceSg {
    fn eq(&self, other: &Self) -> (r: bool) {
        self.body.note_num() == other.body.note_num() && self.body.velocity() == other.body.velocity()
    }
}

impl vstd::std_specs::cmp::PartialEqSpecImpl for VoiceSg {
    open spec fn obeys_eq_spec() -> bool {
        true
    }

    open spec fn eq_spec(&self, o: &VoiceSg) -> bool {
        self@.body.note == o@.body.note && self@.body.vel == o@.body.vel
    }
}

} // verus!

//! Singing voice on a vocal excitation fed through a low-pass filter and two
//! formant band-pass filters.
//!
//! Frequencies are in 1/64 Hz and vowel coordinates in 1/64, so that the
//! vowel mapping is exact.
use vstd::prelude::*;
use crate::aeg::AegParameter;
use crate::frame::{AudioFrame, CtrlFrame, cbuf_size_spec};
use crate::lfo::LfoParameter;
use crate::voice::{BodyView, NoteStatus, VoiceBody, MAX_BUFFER_SIZE, MIDI_MAX, gain_num};

verus! {

/// Headroom divisor of this voice: its gain is `volume * expression / SGF_VOL_DEN`.
pub const SGF_VOL_DEN: u64 = 16384;

/// Subdivisions of a hertz, and of a vowel coordinate unit.
pub const FREQ_FRACTION: i32 = 64;

/// First formant of the neutral vowel, in Hz.
pub const DEFAULT_F1: i32 = 800;

/// Second formant of the neutral vowel, in Hz.
pub const DEFAULT_F2: i32 = 1200;

/// Resonance of the formant filters.
pub const BPF_RESO: i32 = 3;

/// Settings of one program for this voice.
#[derive(Clone, Copy, Debug)]
pub struct SgfParameter {
    pub aeg: AegParameter,
    pub lfo: LfoParameter,
}

/// What the vocal excitation is set to: note, pitch offset (1/1024 cent) and
/// modulation depth. The depth is the controller value 0 to 127; the
/// excitation's pitch-modulation depth is `pmd / 254`.
#[derive(PartialEq, Eq, Structural, Clone, Copy, Debug)]
pub struct Vocal {
    pub note: u8,
    pub pitch: i32,
    pub pmd: u8,
}

/// A filter stage's setting; frequencies in 1/64 Hz.
#[derive(PartialEq, Eq, Structural, Clone, Copy, Debug)]
pub enum Biquad {
    Thru,
    Lpf { cutoff: i32, q: i32 },
    Bpf { center: i32, q: i32 },
}

/// Formant frequencies (1/64 Hz) for the vowel coordinate `(x, y)` (1/64
/// units, each in `[-64, 64]`): the neutral vowel at the centre, and in each of
/// the four quadrants a linear move toward the vowel at its axis end
/// (`+x`: e, `-x`: i, `+y`: u, `-y`: o).
pub open spec fn formant_of(x: int, y: int) -> (int, int) {
    let f1 = DEFAULT_F1 * FREQ_FRACTION;
    let f2 = DEFAULT_F2 * FREQ_FRACTION;
    if x == 0 && y == 0 {
        (f1, f2)
    } else if y > x {
        if y > -x {
            (f1 - 500 * y, f2)
        } else {
            (f1 + 500 * x, f2 - 1100 * x)
        }
    } else {
        if y > -x {
            (f1 - 300 * x, f2 + 700 * x)
        } else {
            (f1 + 300 * y, f2 + 400 * y)
        }
    }
}

/// Vowel coordinate (1/64 units) for a parameter value.
pub open spec fn vowel_of(value: int) -> int {
    value - 64
}

/// Low-pass cutoff (1/64 Hz) for a parameter value.
pub open spec fn cutoff_of(value: int) -> int {
    value * 20 * FREQ_FRACTION
}

/// Formant frequencies (1/64 Hz) for a vowel coordinate (1/64 units).
pub fn vowel_formants(x: i32, y: i32) -> (r: (i32, i32))
    requires
        -64 <= x <= 64,
        -64 <= y <= 64,
    ensures
        r.0 == formant_of(x as int, y as int).0,
        r.1 == formant_of(x as int, y as int).1,
        r.0 > 0,
        r.1 > 0,
{
    let mut f1: i32 = DEFAULT_F1 * FREQ_FRACTION;
    let mut f2: i32 = DEFAULT_F2 * FREQ_FRACTION;
    if x == 0 && y == 0 {
    } else if y > x {
        if y > -x {
            f1 = f1 - 500 * y;
        } else {
            f1 = f1 + 500 * x;
            f2 = f2 - 1100 * x;
        }
    } else {
        if y > -x {
            f1 = f1 - 300 * x;
            f2 = f2 + 700 * x;
        } else {
            f1 = f1 + 300 * y;
            f2 = f2 + 400 * y;
        }
    }
    (f1, f2)
}

pub struct SgfView {
    pub body: BodyView,
    pub vcl: Vocal,
    pub lpf: Biquad,
    pub frm1: Biquad,
    pub frm2: Biquad,
    pub vowel_x: i32,
    pub vowel_y: i32,
}

impl SgfView {
    /// The formant filters sit on the targets of the vowel coordinate.
    pub open spec fn formants_follow_vowel(self) -> bool {
        &&& self.frm1 == Biquad::Bpf {
            center: formant_of(self.vowel_x as int, self.vowel_y as int).0 as i32,
            q: BPF_RESO,
        }
        &&& self.frm2 == Biquad::Bpf {
            center: formant_of(self.vowel_x as int, self.vowel_y as int).1 as i32,
            q: BPF_RESO,
        }
    }
}

pub struct VoiceSgf {
    body: VoiceBody,
    vcl: Vocal,
    lpf: Biquad,
    frm1: Biquad,
    frm2: Biquad,
    vowel_x: i32,
    vowel_y: i32,
}

impl VoiceSgf {
    pub closed spec fn view(&self) -> SgfView {
        SgfView {
            body: self.body@,
            vcl: self.vcl,
            lpf: self.lpf,
            frm1: self.frm1,
            frm2: self.frm2,
            vowel_x: self.vowel_x,
            vowel_y: self.vowel_y,
        }
    }

    pub open spec fn wf(&self) -> bool {
        &&& self@.body.wf_view()
        &&& self@.body.vol_den == SGF_VOL_DEN
        &&& -64 <= self@.vowel_x <= 64
        &&& -64 <= self@.vowel_y <= 64
    }

    proof fn lemma_wf(&self)
        requires
            self.wf(),
        ensures
            self.body.wf(),
    {
    }

    /// A voice for `note` at velocity `vel`, with the given modulation depth,
    /// pitch offset (1/1024 cent), volume and expression, not yet started.
    pub fn new(note: u8, vel: u8, pmd: u8, pit: i32, vol: u8, exp: u8, prm: &SgfParameter) -> (r: Self)
        requires
            vol <= MIDI_MAX,
            exp <= MIDI_MAX,
            prm.aeg.attack_time > 0,
            prm.aeg.release_time > 0,
        ensures
            r.wf(),
            r@.body.note == note,
            r@.body.vel == vel,
            r@.body.status == NoteStatus::DuringNoteOn,
            r@.body.damp_counter == 0,
            r@.body.max_note_vol == gain_num(vol as int, exp as int),
            r@.body.vol_den == SGF_VOL_DEN,
            !r@.body.ended,
            r@.body.aeg.prm_spec() == prm.aeg,
            r@.body.aeg.state_spec() == crate::aeg::EgState::NotYet,
            r@.body.aeg.level_spec() == 0,
            !r@.body.lfo.running_spec(),
            r@.body.lfo.phase_spec() == 0,
            r@.body.lfo.prm_spec() == crate::lfo::lfo_prm_of(prm.lfo),
            r@.vcl == (Vocal { note, pitch: pit, pmd }),
            r@.lpf == Biquad::Thru,
            r@.frm1 == Biquad::Thru,
            r@.frm2 == Biquad::Thru,
            r@.vowel_x == 0,
            r@.vowel_y == 0,
    {
        VoiceSgf {
            body: VoiceBody::new(note, vel, vol, exp, SGF_VOL_DEN, prm.aeg, prm.lfo),
            vcl: Vocal { note, pitch: pit, pmd },
            lpf: Biquad::Thru,
            frm1: Biquad::Thru,
            frm2: Biquad::Thru,
            vowel_x: 0,
            vowel_y: 0,
        }
    }

    /// Starts the envelope's attack and the modulator, opens the low-pass
    /// filter and puts the formant filters on the neutral vowel.
    pub fn start_sound(&mut self)
        requires
            old(self).wf(),
        ensures
            final(self).wf(),
            final(self)@ == (SgfView {
                body: final(self)@.body,
                lpf: Biquad::Thru,
                frm1: Biquad::Bpf { center: (DEFAULT_F1 * FREQ_FRACTION) as i32, q: BPF_RESO },
                frm2: Biquad::Bpf { center: (DEFAULT_F2 * FREQ_FRACTION) as i32, q: BPF_RESO },
                ..old(self)@
            }),
            final(self)@.body == (BodyView {
                aeg: final(self)@.body.aeg,
                lfo: final(self)@.body.lfo,
                ..old(self)@.body
            }),
            crate::voice::attacked(old(self)@.body, final(self)@.body),
    {
        proof { self.lemma_wf(); }
        self.body.start_sound();
        self.lpf = Biquad::Thru;
        self.frm1 = Biquad::Bpf { center: DEFAULT_F1 * FREQ_FRACTION, q: BPF_RESO };
        self.frm2 = Biquad::Bpf { center: DEFAULT_F2 * FREQ_FRACTION, q: BPF_RESO };
    }

    /// Legato re-trigger: the same voice takes the new note and velocity,
    /// sounds again and retunes its excitation in place.
    pub fn slide(&mut self, note: u8, vel: u8)
        requires
            old(self).wf(),
        ensures
            final(self).wf(),
            final(self)@ == (SgfView {
                body: final(self)@.body,
                vcl: Vocal { note, ..old(self)@.vcl },
                ..old(self)@
            }),
            final(self)@.body == (BodyView {
                note,
                vel,
                status: NoteStatus::DuringNoteOn,
                damp_counter: 0,
                aeg: final(self)@.body.aeg,
                lfo: final(self)@.body.lfo,
                ..old(self)@.body
            }),
            crate::voice::attacked(old(self)@.body, final(self)@.body),
    {
        proof { self.lemma_wf(); }
        self.body.slide(note, vel);
        self.vcl.note = note;
    }

    /// Key released: the envelope starts its release.
    pub fn note_off(&mut self)
        requires
            old(self).wf(),
        ensures
            final(self).wf(),
            final(self)@ == (SgfView { body: final(self)@.body, ..old(self)@ }),
            final(self)@.body == (BodyView {
                status: NoteStatus::AfterNoteOff,
                aeg: final(self)@.body.aeg,
                ..old(self)@.body
            }),
            crate::voice::released(old(self)@.body, final(self)@.body),
    {
        proof { self.lemma_wf(); }
        self.body.note_off();
    }

    pub fn note_num(&self) -> (r: u8)
        ensures
            r == self@.body.note,
    {
        self.body.note_num()
    }

    pub fn velocity(&self) -> (r: u8)
        ensures
            r == self@.body.vel,
    {
        self.body.velocity()
    }

    /// Sets the excitation's modulation depth (0 to 127).
    pub fn change_pmd(&mut self, value: u8)
        ensures
            final(self)@ == (SgfView { vcl: Vocal { pmd: value, ..old(self)@.vcl }, ..old(self)@ }),
    {
        self.vcl.pmd = value;
    }

    /// Sets the gain from a volume and an expression (each 0 to 127).
    pub fn amplitude(&mut self, volume: u8, expression: u8)
        requires
            old(self).wf(),
            volume <= MIDI_MAX,
            expression <= MIDI_MAX,
        ensures
            final(self).wf(),
            final(self)@ == (SgfView { body: final(self)@.body, ..old(self)@ }),
            final(self)@.body == (BodyView {
                max_note_vol: gain_num(volume as int, expression as int) as u32,
                ..old(self)@.body
            }),
    {
        proof { self.lemma_wf(); }
        self.body.amplitude(volume, expression);
    }

    /// Sets the excitation's pitch offset, in 1/1024 cent.
    pub fn pitch(&mut self, pitch: i32)
        ensures
            final(self)@ == (SgfView { vcl: Vocal { pitch, ..old(self)@.vcl }, ..old(self)@ }),
    {
        self.vcl.pitch = pitch;
    }

    pub fn status(&self) -> (r: NoteStatus)
        ensures
            r == self@.body.status,
    {
        self.body.status()
    }

    /// Forced fast silence: the voice fades out over `DAMP_TIME` samples.
    pub fn damp(&mut self)
        requires
            old(self).wf(),
        ensures
            final(self).wf(),
            final(self)@ == (SgfView { body: final(self)@.body, ..old(self)@ }),
            final(self)@.body == (BodyView {
                status: NoteStatus::DuringDamp,
                damp_counter: 0,
                ..old(self)@.body
            }),
    {
        proof { self.lemma_wf(); }
        self.body.damp();
    }

    /// Runs the modulator for a block of `n` samples into `lbuf`; its output drives the
    /// excitation.
    pub fn lfo_frame(&mut self, lbuf: &mut CtrlFrame, n: usize)
        requires
            old(self).wf(),
            n <= MAX_BUFFER_SIZE,
        ensures
            final(self).wf(),
            final(self)@ == (SgfView { body: final(self)@.body, ..old(self)@ }),
            final(self)@.body == (BodyView { lfo: final(self)@.body.lfo, ..old(self)@.body }),
            final(lbuf)@.len() == cbuf_size_spec(n as int),
            crate::lfo::lfo_ran(old(self)@.body.lfo, final(self)@.body.lfo, final(lbuf)@),
    {
        proof { self.lemma_wf(); }
        self.body.lfo_frame(lbuf, n);
    }

    /// Renders the block: `abuf` holds the output of the excitation and the
    /// three filters, in that order, for it.
    pub fn process(&mut self, abuf: &mut AudioFrame, n: usize) -> (r: bool)
        requires
            old(self).wf(),
            !old(self)@.body.ended ==> old(abuf).wf() && old(abuf)@.len() == n && n <= MAX_BUFFER_SIZE,
        ensures
            final(self).wf(),
            old(abuf).wf() ==> final(abuf).wf(),
            final(abuf).capacity() == old(abuf).capacity(),
            final(self)@ == (SgfView { body: final(self)@.body, ..old(self)@ }),
            final(abuf)@ == old(self)@.body.rendered(old(abuf)@),
            final(self)@.body == old(self)@.body.processed(old(abuf)@),
            r == final(self)@.body.ended,
            old(self)@.body.ended ==> r && final(abuf)@ == old(abuf)@,
    {
        proof { self.lemma_wf(); }
        self.body.process(abuf, n)
    }

    /// Puts the formant filters on the targets of the current vowel coordinate.
    fn calc_formant(&mut self)
        requires
            old(self).wf(),
        ensures
            final(self).wf(),
            final(self)@ == (SgfView { frm1: final(self)@.frm1, frm2: final(self)@.frm2, ..old(self)@ }),
            final(self)@.formants_follow_vowel(),
    {
        let (f1, f2) = vowel_formants(self.vowel_x, self.vowel_y);
        self.frm1 = Biquad::Bpf { center: f1, q: BPF_RESO };
        self.frm2 = Biquad::Bpf { center: f2, q: BPF_RESO };
    }

    /// Sets one of the voice's parameters: 0 the low-pass cutoff, 2 the vowel's
    /// x coordinate, 3 its y coordinate (each moving the formant filters);
    /// other indices are ignored.
    pub fn set_prm(&mut self, prm_type: u8, value: u8)
        requires
            old(self).wf(),
            prm_type == 2 || prm_type == 3 ==> value <= MIDI_MAX,
        ensures
            final(self).wf(),
            prm_type == 0 ==> final(self)@ == (SgfView {
                lpf: Biquad::Lpf { cutoff: cutoff_of(value as int) as i32, q: 1 },
                ..old(self)@
            }),
            prm_type == 2 ==> {
                &&& final(self)@ == (SgfView {
                    vowel_x: vowel_of(value as int) as i32,
                    frm1: final(self)@.frm1,
                    frm2: final(self)@.frm2,
                    ..old(self)@
                })
                &&& final(self)@.formants_follow_vowel()
            },
            prm_type == 3 ==> {
                &&& final(self)@ == (SgfView {
                    vowel_y: vowel_of(value as int) as i32,
                    frm1: final(self)@.frm1,
                    frm2: final(self)@.frm2,
                    ..old(self)@
                })
                &&& final(self)@.formants_follow_vowel()
            },
            prm_type == 1 || prm_type > 3 ==> final(self)@ == old(self)@,
    {
        if prm_type == 0 {
            self.lpf = Biquad::Lpf { cutoff: value as i32 * 20 * FREQ_FRACTION, q: 1 };
        } else if prm_type == 2 {
            self.vowel_x = value as i32 - 64;
            self.calc_formant();
        } else if prm_type == 3 {
            self.vowel_y = value as i32 - 64;
            self.calc_formant();
        }
    }

    pub fn damp_counter(&self) -> (r: u32)
        ensures
            r == self@.body.damp_counter,
    {
        self.body.damp_counter()
    }

    /// Counts one more sample of damping, up to `DAMP_TIME`.
    pub fn inc_damp_counter(&mut self)
        requires
            old(self).wf(),
        ensures
            final(self).wf(),
            final(self)@ == (SgfView { body: final(self)@.body, ..old(self)@ }),
            final(self)@.body == (BodyView {
                damp_counter: if old(self)@.body.damp_counter + 1 >= crate::voice::DAMP_TIME {
                    crate::voice::DAMP_TIME
                } else {
                    (old(self)@.body.damp_counter + 1) as u32
                },
                ..old(self)@.body
            }),
    {
        proof { self.lemma_wf(); }
        self.body.add_damp_counter(1);
    }

    pub fn ended(&self) -> (r: bool)
        ensures
            r == self@.body.ended,
    {
        self.body.ended()
    }

    /// The excitation's settings, which the caller's tone generator renders.
    pub fn vocal(&self) -> (r: Vocal)
        ensures
            r == self@.vcl,
    {
        self.vcl
    }

    /// The low-pass filter and the two formant filters, in chain order.
    pub fn filters(&self) -> (r: (Biquad, Biquad, Biquad))
        ensures
            r == (self@.lpf, self@.frm1, self@.frm2),
    {
        (self.lpf, self.frm1, self.frm2)
    }

    pub fn max_note_vol(&self) -> (r: u32)
        ensures
            r == self@.body.max_note_vol,
    {
        self.body.max_note_vol()
    }
}

/// Two voices are equal when they sound the same note at the same velocity;
/// this is what note lookups compare, not an identity.
impl PartialEq for VoiceSgf {
    fn eq(&self, other: &Self) -> (r: bool) {
        self.body.note_num() == other.body.note_num() && self.body.velocity() == other.body.velocity()
    }
}

impl vstd::std_specs::cmp::PartialEqSpecImpl for VoiceSgf {
    open spec fn obeys_eq_spec() -> bool {
        true
    }

    open spec fn eq_spec(&self, o: &VoiceSgf) -> bool {
        self@.body.note == o@.body.note && self@.body.vel == o@.body.vel
    }
}

} // verus!

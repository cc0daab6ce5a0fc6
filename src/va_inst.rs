//! An instrument: the pool of sounding formant voices of one program slot,
//! with the controller state that applies to all of them.
use vstd::prelude::*;
use crate::frame::{AudioFrame, CtrlFrame, cbuf_size_spec, clamp_i32, scale};
use crate::lfo::lfo_ran;
use crate::sgf_voice::{SgfParameter, SgfView, VoiceSgf};
use crate::voice::{BodyView, NoteStatus, MAX_BUFFER_SIZE, MIDI_MAX, gain_num};

verus! {

/// Denominator of the pan position: 0 is full left, `PAN_DEN` full right.
pub const PAN_DEN: u8 = 128;

/// Settings of one program: its default modulation depth (controller scale,
/// 0 to 127, standing for 0 to 0.5) and its voice settings.
#[derive(Clone, Copy, Debug)]
pub struct ToneParameter {
    pub lfo_depth: u8,
    pub voice: SgfParameter,
}

/// A program's settings that voices can be built from.
pub open spec fn tone_ok(t: ToneParameter) -> bool {
    &&& t.lfo_depth <= MIDI_MAX
    &&& t.voice.aeg.attack_time > 0
    &&& t.voice.aeg.release_time > 0
}

/// Pan position (in 1/128) for a MIDI pan value; 127 counts as full right.
pub open spec fn pan_of(value: int) -> int {
    if value == 127 {
        128
    } else {
        value
    }
}

/// Pitch offset in 1/1024 cent: bend over two semitones for a 14-bit swing,
/// coarse tune in semitones and fine tune in 1/64 semitone, both centred on 64.
pub open spec fn pitch_of(bend: int, coarse: int, fine: int) -> int {
    bend * 25 + (coarse - 64) * 102400 + (fine - 64) * 1600
}

/// `a` with `b * num / 128` added to each sample, saturating.
pub open spec fn mix_one(a: Seq<i32>, b: Seq<i32>, num: int) -> Seq<i32> {
    Seq::new(a.len(), |j: int| clamp_i32(a[j] + scale(b[j] as int, num, PAN_DEN as int)) as i32)
}

/// `base` with every block of `outs` mixed in, in order, at `num / 128`.
pub open spec fn mix_all(base: Seq<i32>, outs: Seq<Seq<i32>>, num: int) -> Seq<i32>
    decreases outs.len(),
{
    if outs.len() == 0 {
        base
    } else {
        mix_one(mix_all(base, outs.drop_last(), num), outs.last(), num)
    }
}

/// The voices of `s` that have not ended, in their order.
pub open spec fn keep_live(s: Seq<SgfView>) -> Seq<SgfView>
    decreases s.len(),
{
    if s.len() == 0 {
        s
    } else {
        let rest = keep_live(s.drop_last());
        if s.last().body.ended {
            rest
        } else {
            rest.push(s.last())
        }
    }
}

/// Whether voice `v` sounds `note` with status `sts`.
pub open spec fn matches(v: SgfView, note: u8, sts: NoteStatus) -> bool {
    v.body.note == note && v.body.status == sts
}

/// Voice `v` after a note-off.
pub open spec fn noted_off(v: SgfView, w: SgfView) -> bool {
    &&& w == (SgfView { body: w.body, ..v })
    &&& w.body == (BodyView { status: NoteStatus::AfterNoteOff, aeg: w.body.aeg, ..v.body })
    &&& crate::voice::released(v.body, w.body)
}

/// Voice `v` after a damp.
pub open spec fn damped(v: SgfView) -> SgfView {
    SgfView { body: BodyView { status: NoteStatus::DuringDamp, damp_counter: 0, ..v.body }, ..v }
}

/// Voice `v` after a render pass on `input`.
pub open spec fn processed(v: SgfView, input: Seq<i32>) -> SgfView {
    SgfView { body: v.body.processed(input), ..v }
}

/// What each voice leaves of its input block in a render pass.
pub open spec fn rendered_all(voices: Seq<SgfView>, ins: Seq<Seq<i32>>) -> Seq<Seq<i32>> {
    Seq::new(voices.len(), |i: int| voices[i].body.rendered(ins[i]))
}

/// Each voice after a render pass on its input block.
pub open spec fn processed_all(voices: Seq<SgfView>, ins: Seq<Seq<i32>>) -> Seq<SgfView> {
    Seq::new(voices.len(), |i: int| processed(voices[i], ins[i]))
}

/// Voices that lookups take for the same: same note, same velocity.
pub open spec fn same_key(a: SgfView, b: SgfView) -> bool {
    a.body.note == b.body.note && a.body.vel == b.body.vel
}

/// The views of a sequence of voices.
pub open spec fn views(s: Seq<VoiceSgf>) -> Seq<SgfView> {
    Seq::new(s.len(), |i: int| s[i]@)
}

/// The samples of a sequence of blocks.
pub open spec fn frames(s: Seq<AudioFrame>) -> Seq<Seq<i32>> {
    Seq::new(s.len(), |i: int| s[i]@)
}

/// The instrument's state as plain values.
pub struct InstView {
    pub voices: Seq<SgfView>,
    pub tones: Seq<ToneParameter>,
    pub inst_number: int,
    pub mdlt: u8,
    pub pit: i32,
    pub vol: u8,
    pub pan: u8,
    pub exp: u8,
}

impl InstView {
    /// Well-formedness of everything but the voices.
    pub open spec fn fields_wf(self) -> bool {
        &&& self.tones.len() > 0
        &&& forall|i: int| 0 <= i < self.tones.len() ==> tone_ok(#[trigger] self.tones[i])
        &&& 0 <= self.inst_number < self.tones.len()
        &&& self.mdlt <= MIDI_MAX
        &&& self.vol <= MIDI_MAX
        &&& self.exp <= MIDI_MAX
        &&& self.pan <= PAN_DEN
    }
}

/// Pan law: at pan value 0 nothing reaches the right channel, at 127 nothing
/// reaches the left, and at 64 both channels get the same share of every
/// sample.
pub proof fn lemma_pan_law(s: int)
    ensures
        scale(s, pan_of(0), PAN_DEN as int) == 0,
        scale(s, PAN_DEN - pan_of(127), PAN_DEN as int) == 0,
        scale(s, PAN_DEN - pan_of(64), PAN_DEN as int) == scale(s, pan_of(64), PAN_DEN as int),
        forall|v: int| 0 <= v <= MIDI_MAX ==> 0 <= #[trigger] pan_of(v) <= PAN_DEN,
{
    crate::frame::lemma_scale_bounded(s, 0, 128);
}

pub struct InstVa {
    vcevec: Vec<VoiceSgf>,
    tones: Vec<ToneParameter>,
    inst_number: usize,
    mdlt: u8,
    pit: i32,
    vol: u8,
    pan: u8,
    exp: u8,
}

/// Pan position (in 1/128) for a MIDI pan value.
pub fn calc_pan(value: u8) -> (r: u8)
    ensures
        r == pan_of(value as int),
{
    if value == 127 {
        128
    } else {
        value
    }
}

/// Pitch offset in 1/1024 cent for a bend and the coarse and fine tune.
pub fn calc_pitch(bend: i16, tune_coarse: u8, tune_fine: u8) -> (r: i32)
    ensures
        r == pitch_of(bend as int, tune_coarse as int, tune_fine as int),
{
    bend as i32 * 25 + (tune_coarse as i32 - 64) * 102400 + (tune_fine as i32 - 64) * 1600
}

impl InstVa {
    pub closed spec fn view(&self) -> InstView {
        InstView {
            voices: views(self.vcevec@),
            tones: self.tones@,
            inst_number: self.inst_number as int,
            mdlt: self.mdlt,
            pit: self.pit,
            vol: self.vol,
            pan: self.pan,
            exp: self.exp,
        }
    }

    pub closed spec fn voices_wf(&self) -> bool {
        forall|i: int| 0 <= i < self.vcevec@.len() ==> #[trigger] self.vcevec@[i].wf()
    }

    pub open spec fn wf(&self) -> bool {
        &&& self.voices_wf()
        &&& self@.fields_wf()
    }

    /// An instrument with no voice, on program `inst_number` (limited to the
    /// last program of `tones`).
    pub fn new(tones: Vec<ToneParameter>, inst_number: usize, vol: u8, pan: u8, exp: u8) -> (r: Self)
        requires
            tones@.len() > 0,
            forall|i: int| 0 <= i < tones@.len() ==> tone_ok(#[trigger] tones@[i]),
            vol <= MIDI_MAX,
            pan <= MIDI_MAX,
            exp <= MIDI_MAX,
        ensures
            r.wf(),
            r@.voices.len() == 0,
            r@.tones == tones@,
            r@.inst_number == if inst_number < tones@.len() { inst_number as int } else { tones@.len() - 1 },
            r@.mdlt == tones@[r@.inst_number].lfo_depth,
            r@.pit == 0,
            r@.vol == vol,
            r@.pan == pan_of(pan as int),
            r@.exp == exp,
    {
        let max_tone = tones.len();
        let n = if inst_number >= max_tone { max_tone - 1 } else { inst_number };
        let mdlt = tones[n].lfo_depth;
        let r = InstVa {
            vcevec: Vec::new(),
            tones,
            inst_number: n,
            mdlt,
            pit: 0,
            vol,
            pan: calc_pan(pan),
            exp,
        };
        assert(views(r.vcevec@) =~= Seq::<SgfView>::empty());
        r
    }

    /// Program change: program `inst_number` (limited to the last one), its
    /// default modulation depth, no pitch offset, and the given volume, pan and
    /// expression. Voices already sounding are left alone.
    pub fn change_inst(&mut self, inst_number: usize, vol: u8, pan: u8, exp: u8)
        requires
            old(self).wf(),
            vol <= MIDI_MAX,
            pan <= MIDI_MAX,
            exp <= MIDI_MAX,
        ensures
            final(self).wf(),
            final(self)@ == (InstView {
                inst_number: if inst_number < old(self)@.tones.len() {
                    inst_number as int
                } else {
                    old(self)@.tones.len() - 1
                },
                mdlt: final(self)@.mdlt,
                pit: 0,
                vol,
                pan: pan_of(pan as int) as u8,
                exp,
                ..old(self)@
            }),
            final(self)@.mdlt == old(self)@.tones[final(self)@.inst_number].lfo_depth,
    {
        let max_tone = self.tones.len();
        let n = if inst_number >= max_tone { max_tone - 1 } else { inst_number };
        self.inst_number = n;
        self.mdlt = self.tones[n].lfo_depth;
        self.pit = 0;
        self.vol = vol;
        self.pan = calc_pan(pan);
        self.exp = exp;
    }

    /// Index of the first voice that sounds `note` with status `sts`.
    pub fn search_note(&self, note_num: u8, sts: NoteStatus) -> (r: Option<usize>)
        requires
            self.wf(),
        ensures
            r.is_some() ==> {
                &&& r.unwrap() < self@.voices.len()
                &&& matches(self@.voices[r.unwrap() as int], note_num, sts)
                &&& forall|j: int| 0 <= j < r.unwrap() ==> !matches(#[trigger] self@.voices[j], note_num, sts)
            },
            r.is_none() ==> forall|j: int| 0 <= j < self@.voices.len()
                ==> !matches(#[trigger] self@.voices[j], note_num, sts),
    {
        let max_note = self.vcevec.len();
        let mut i: usize = 0;
        while i < max_note
            invariant
                max_note == self@.voices.len(),
                i <= max_note,
                forall|j: int| 0 <= j < i ==> !matches(#[trigger] self@.voices[j], note_num, sts),
            decreases max_note - i,
        {
            if self.vcevec[i].note_num() == note_num && self.vcevec[i].status() == sts {
                return Some(i);
            }
            i += 1;
        }
        None
    }

    /// Note-off: releases the first voice that sounds `note` and is still
    /// held; nothing happens when there is none.
    pub fn note_off(&mut self, note: u8, _vel: u8)
        requires
            old(self).wf(),
        ensures
            final(self).wf(),
            final(self)@ == (InstView { voices: final(self)@.voices, ..old(self)@ }),
            final(self)@.voices.len() == old(self)@.voices.len(),
            (forall|j: int| 0 <= j < old(self)@.voices.len()
                ==> !matches(#[trigger] old(self)@.voices[j], note, NoteStatus::DuringNoteOn))
                ==> final(self)@.voices == old(self)@.voices,
            forall|i: int| 0 <= i < old(self)@.voices.len()
                && matches(old(self)@.voices[i], note, NoteStatus::DuringNoteOn)
                && (forall|j: int| 0 <= j < i ==> !matches(#[trigger] old(self)@.voices[j], note, NoteStatus::DuringNoteOn))
                ==> {
                    &&& noted_off(old(self)@.voices[i], #[trigger] final(self)@.voices[i])
                    &&& forall|k: int| 0 <= k < old(self)@.voices.len() && k != i
                        ==> #[trigger] final(self)@.voices[k] == old(self)@.voices[k]
                },
    {
        let found = self.search_note(note, NoteStatus::DuringNoteOn);
        match found {
            Some(i) => {
                let ghost v0 = self.vcevec@;
                proof {
                    assert(self.vcevec@[i as int].wf());
                }
                self.vcevec[i].note_off();
                proof {
                    assert forall|k: int| 0 <= k < self.vcevec@.len() implies #[trigger] self.vcevec@[k].wf() by {
                        if k != i {
                            assert(self.vcevec@[k] == v0[k]);
                        }
                    }
                    assert forall|i2: int| 0 <= i2 < v0.len()
                        && matches(views(v0)[i2], note, NoteStatus::DuringNoteOn)
                        && (forall|j: int| 0 <= j < i2 ==> !matches(#[trigger] views(v0)[j], note, NoteStatus::DuringNoteOn))
                        implies i2 == i by {
                        if i2 < i {
                        } else if i2 > i {
                            assert(!matches(views(v0)[i as int], note, NoteStatus::DuringNoteOn));
                        }
                    }
                }
            },
            None => {},
        }
    }

    /// Note-on: a new voice with the instrument's current settings, started
    /// and appended to the pool.
    pub fn note_on(&mut self, note: u8, vel: u8)
        requires
            old(self).wf(),
        ensures
            final(self).wf(),
            final(self)@ == (InstView { voices: final(self)@.voices, ..old(self)@ }),
            final(self)@.voices.len() == old(self)@.voices.len() + 1,
            final(self)@.voices.subrange(0, old(self)@.voices.len() as int) == old(self)@.voices,
            ({
                let v = final(self)@.voices.last();
                &&& v.body.note == note
                &&& v.body.vel == vel
                &&& v.body.status == NoteStatus::DuringNoteOn
                &&& !v.body.ended
                &&& v.body.max_note_vol == gain_num(old(self)@.vol as int, old(self)@.exp as int)
                &&& v.body.damp_counter == 0
                &&& v.body.aeg.state_spec() == crate::aeg::EgState::Attack
                &&& v.body.aeg.source_spec() == 0
                &&& v.body.aeg.level_spec() == 0
                &&& v.body.aeg.elapsed_spec() == 0
                &&& v.body.aeg.prm_spec() == old(self)@.tones[old(self)@.inst_number].voice.aeg
                &&& v.body.lfo.running_spec()
                &&& v.body.lfo.phase_spec() == 0
                &&& v.body.lfo.prm_spec() == crate::lfo::lfo_prm_of(
                    old(self)@.tones[old(self)@.inst_number].voice.lfo,
                )
                &&& v.vcl == (crate::sgf_voice::Vocal { note, pitch: old(self)@.pit, pmd: old(self)@.mdlt })
            }),
    {
        let prm = self.tones[self.inst_number];
        proof {
            assert(tone_ok(self.tones@[self.inst_number as int]));
        }
        let mut new_voice = VoiceSgf::new(note, vel, self.mdlt, self.pit, self.vol, self.exp, &prm.voice);
        new_voice.start_sound();
        let ghost v0 = self.vcevec@;
        let ghost nv = new_voice@;
        self.vcevec.push(new_voice);
        proof {
            assert(self@.voices.last() == nv);
            assert forall|k: int| 0 <= k < self.vcevec@.len() implies #[trigger] self.vcevec@[k].wf() by {
                if k < v0.len() {
                    assert(self.vcevec@[k] == v0[k]);
                }
            }
            assert(views(self.vcevec@).subrange(0, v0.len() as int) =~= views(v0));
        }
    }

    /// Modulation wheel: the new depth goes to every voice. Depths are kept as
    /// the controller value 0 to 127, which stands for a pitch-modulation
    /// depth of `value / 254` (0 to 0.5).
    pub fn modulation(&mut self, value: u8)
        requires
            old(self).wf(),
            value <= MIDI_MAX,
        ensures
            final(self).wf(),
            final(self)@ == (InstView { voices: final(self)@.voices, mdlt: value, ..old(self)@ }),
            final(self)@.voices.len() == old(self)@.voices.len(),
            forall|i: int| 0 <= i < old(self)@.voices.len() ==> #[trigger] final(self)@.voices[i]
                == (SgfView { vcl: crate::sgf_voice::Vocal { pmd: value, ..old(self)@.voices[i].vcl }, ..old(self)@.voices[i] }),
    {
        self.mdlt = value;
        let n = self.vcevec.len();
        let ghost v0 = self.vcevec@;
        let ghost pre = self@;
        let mut i: usize = 0;
        while i < n
            invariant
                pre.fields_wf(),
                self@ == (InstView { voices: self@.voices, ..pre }),
                n == v0.len(),
                self.vcevec@.len() == n,
                i <= n,
                forall|k: int| 0 <= k < n ==> #[trigger] self.vcevec@[k].wf(),
                forall|k: int| 0 <= k < n ==> #[trigger] v0[k].wf(),
                forall|k: int| 0 <= k < i ==> #[trigger] self.vcevec@[k]@
                    == (SgfView { vcl: crate::sgf_voice::Vocal { pmd: value, ..v0[k]@.vcl }, ..v0[k]@ }),
                forall|k: int| i <= k < n ==> #[trigger] self.vcevec@[k] == v0[k],
            decreases n - i,
        {
            self.vcevec[i].change_pmd(value);
            proof {
                assert(v0[i as int].wf());
                assert(self.vcevec@[i as int]@.body == v0[i as int]@.body);
                assert(self.vcevec@[i as int]@.vowel_x == v0[i as int]@.vowel_x);
                assert(self.vcevec@[i as int]@.vowel_y == v0[i as int]@.vowel_y);
                assert(self.vcevec@[i as int].wf());
            }
            i += 1;
        }
    }

    /// Sets the gain of every voice from volume and expression.
    fn apply_amplitude(&mut self)
        requires
            old(self).wf(),
        ensures
            final(self).wf(),
            final(self)@ == (InstView { voices: final(self)@.voices, ..old(self)@ }),
            final(self)@.voices.len() == old(self)@.voices.len(),
            forall|i: int| 0 <= i < old(self)@.voices.len() ==> #[trigger] final(self)@.voices[i]
                == (SgfView {
                    body: BodyView {
                        max_note_vol: gain_num(old(self)@.vol as int, old(self)@.exp as int) as u32,
                        ..old(self)@.voices[i].body
                    },
                    ..old(self)@.voices[i]
                }),
    {
        let vol = self.vol;
        let exp = self.exp;
        let n = self.vcevec.len();
        let ghost v0 = self.vcevec@;
        let ghost pre = self@;
        let mut i: usize = 0;
        while i < n
            invariant
                pre.fields_wf(),
                self@ == (InstView { voices: self@.voices, ..pre }),
                n == v0.len(),
                self.vcevec@.len() == n,
                i <= n,
                vol <= MIDI_MAX,
                exp <= MIDI_MAX,
                forall|k: int| 0 <= k < n ==> #[trigger] self.vcevec@[k].wf(),
                forall|k: int| 0 <= k < i ==> #[trigger] self.vcevec@[k]@ == (SgfView {
                    body: BodyView { max_note_vol: gain_num(vol as int, exp as int) as u32, ..v0[k]@.body },
                    ..v0[k]@
                }),
                forall|k: int| i <= k < n ==> #[trigger] self.vcevec@[k] == v0[k],
            decreases n - i,
        {
            self.vcevec[i].amplitude(vol, exp);
            i += 1;
        }
    }

    /// Volume (0 to 127): every voice's gain follows.
    pub fn volume(&mut self, value: u8)
        requires
            old(self).wf(),
            value <= MIDI_MAX,
        ensures
            final(self).wf(),
            final(self)@ == (InstView { voices: final(self)@.voices, vol: value, ..old(self)@ }),
            final(self)@.voices.len() == old(self)@.voices.len(),
            forall|i: int| 0 <= i < old(self)@.voices.len() ==> #[trigger] final(self)@.voices[i]
                == (SgfView {
                    body: BodyView {
                        max_note_vol: gain_num(value as int, old(self)@.exp as int) as u32,
                        ..old(self)@.voices[i].body
                    },
                    ..old(self)@.voices[i]
                }),
    {
        self.vol = value;
        self.apply_amplitude();
    }

    /// Pan (0 to 127), applied to what is mixed from the next block on.
    pub fn pan(&mut self, value: u8)
        requires
            old(self).wf(),
            value <= MIDI_MAX,
        ensures
            final(self).wf(),
            final(self)@ == (InstView { pan: pan_of(value as int) as u8, ..old(self)@ }),
    {
        self.pan = calc_pan(value);
    }

    /// Expression (0 to 127): every voice's gain follows.
    pub fn expression(&mut self, value: u8)
        requires
            old(self).wf(),
            value <= MIDI_MAX,
        ensures
            final(self).wf(),
            final(self)@ == (InstView { voices: final(self)@.voices, exp: value, ..old(self)@ }),
            final(self)@.voices.len() == old(self)@.voices.len(),
            forall|i: int| 0 <= i < old(self)@.voices.len() ==> #[trigger] final(self)@.voices[i]
                == (SgfView {
                    body: BodyView {
                        max_note_vol: gain_num(old(self)@.vol as int, value as int) as u32,
                        ..old(self)@.voices[i].body
                    },
                    ..old(self)@.voices[i]
                }),
    {
        self.exp = value;
        self.apply_amplitude();
    }

    /// Pitch bend and tuning: the new offset goes to every voice.
    pub fn pitch(&mut self, bend: i16, tune_coarse: u8, tune_fine: u8)
        requires
            old(self).wf(),
        ensures
            final(self).wf(),
            final(self)@ == (InstView {
                voices: final(self)@.voices,
                pit: pitch_of(bend as int, tune_coarse as int, tune_fine as int) as i32,
                ..old(self)@
            }),
            final(self)@.voices.len() == old(self)@.voices.len(),
            forall|i: int| 0 <= i < old(self)@.voices.len() ==> #[trigger] final(self)@.voices[i]
                == (SgfView {
                    vcl: crate::sgf_voice::Vocal {
                        pitch: pitch_of(bend as int, tune_coarse as int, tune_fine as int) as i32,
                        ..old(self)@.voices[i].vcl
                    },
                    ..old(self)@.voices[i]
                }),
    {
        let pit = calc_pitch(bend, tune_coarse, tune_fine);
        self.pit = pit;
        let n = self.vcevec.len();
        let ghost v0 = self.vcevec@;
        let ghost pre = self@;
        let mut i: usize = 0;
        while i < n
            invariant
                pre.fields_wf(),
                self@ == (InstView { voices: self@.voices, ..pre }),
                n == v0.len(),
                self.vcevec@.len() == n,
                i <= n,
                forall|k: int| 0 <= k < n ==> #[trigger] self.vcevec@[k].wf(),
                forall|k: int| 0 <= k < n ==> #[trigger] v0[k].wf(),
                forall|k: int| 0 <= k < i ==> #[trigger] self.vcevec@[k]@
                    == (SgfView { vcl: crate::sgf_voice::Vocal { pitch: pit, ..v0[k]@.vcl }, ..v0[k]@ }),
                forall|k: int| i <= k < n ==> #[trigger] self.vcevec@[k] == v0[k],
            decreases n - i,
        {
            self.vcevec[i].pitch(pit);
            proof {
                assert(v0[i as int].wf());
                assert(self.vcevec@[i as int]@.body == v0[i as int]@.body);
                assert(self.vcevec@[i as int]@.vowel_x == v0[i as int]@.vowel_x);
                assert(self.vcevec@[i as int]@.vowel_y == v0[i as int]@.vowel_y);
                assert(self.vcevec@[i as int].wf());
            }
            i += 1;
        }
    }

    /// Sustain pedal: accepted and ignored.
    pub fn sustain(&mut self, _value: u8)
        ensures
            final(self)@ == old(self)@,
    {
    }

    /// All sound off: every voice is damped.
    pub fn all_sound_off(&mut self)
        requires
            old(self).wf(),
        ensures
            final(self).wf(),
            final(self)@ == (InstView { voices: final(self)@.voices, ..old(self)@ }),
            final(self)@.voices.len() == old(self)@.voices.len(),
            forall|i: int| 0 <= i < old(self)@.voices.len()
                ==> #[trigger] final(self)@.voices[i] == damped(old(self)@.voices[i]),
    {
        let n = self.vcevec.len();
        let ghost v0 = self.vcevec@;
        let ghost pre = self@;
        let mut i: usize = 0;
        while i < n
            invariant
                pre.fields_wf(),
                self@ == (InstView { voices: self@.voices, ..pre }),
                n == v0.len(),
                self.vcevec@.len() == n,
                i <= n,
                forall|k: int| 0 <= k < n ==> #[trigger] self.vcevec@[k].wf(),
                forall|k: int| 0 <= k < i ==> #[trigger] self.vcevec@[k]@ == damped(v0[k]@),
                forall|k: int| i <= k < n ==> #[trigger] self.vcevec@[k] == v0[k],
            decreases n - i,
        {
            self.vcevec[i].damp();
            i += 1;
        }
    }
    /// Legato on voice `index`: it takes the new note and velocity in place;
    /// the pool keeps its length and every other voice.
    pub fn slide(&mut self, index: usize, note: u8, vel: u8)
        requires
            old(self).wf(),
            index < old(self)@.voices.len(),
        ensures
            final(self).wf(),
            final(self)@ == (InstView { voices: final(self)@.voices, ..old(self)@ }),
            final(self)@.voices.len() == old(self)@.voices.len(),
            forall|k: int| 0 <= k < old(self)@.voices.len() && k != index
                ==> #[trigger] final(self)@.voices[k] == old(self)@.voices[k],
            ({
                let v = old(self)@.voices[index as int];
                let w = final(self)@.voices[index as int];
                &&& w == (SgfView { body: w.body, vcl: crate::sgf_voice::Vocal { note, ..v.vcl }, ..v })
                &&& w.body == (BodyView {
                    note,
                    vel,
                    status: NoteStatus::DuringNoteOn,
                    damp_counter: 0,
                    aeg: w.body.aeg,
                    lfo: w.body.lfo,
                    ..v.body
                })
                &&& crate::voice::attacked(v.body, w.body)
            }),
    {
        let ghost v0 = self.vcevec@;
        proof {
            assert(v0[index as int].wf());
        }
        self.vcevec[index].slide(note, vel);
        proof {
            assert forall|k: int| 0 <= k < self.vcevec@.len() implies #[trigger] self.vcevec@[k].wf() by {
                if k != index {
                    assert(self.vcevec@[k] == v0[k]);
                }
            }
        }
    }

    /// Removes the first voice equal to `nt` (same note and velocity); nothing
    /// happens when there is none.
    pub fn release_note(&mut self, nt: &VoiceSgf)
        requires
            old(self).wf(),
        ensures
            final(self).wf(),
            final(self)@ == (InstView { voices: final(self)@.voices, ..old(self)@ }),
            (forall|j: int| 0 <= j < old(self)@.voices.len() ==> !same_key(#[trigger] old(self)@.voices[j], nt@))
                ==> final(self)@.voices == old(self)@.voices,
            forall|i: int| 0 <= i < old(self)@.voices.len()
                && same_key(old(self)@.voices[i], nt@)
                && (forall|j: int| 0 <= j < i ==> !same_key(#[trigger] old(self)@.voices[j], nt@))
                ==> #[trigger] old(self)@.voices.remove(i) == final(self)@.voices,
    {
        let n = self.vcevec.len();
        let ghost v0 = self.vcevec@;
        let ghost pre = self@;
        let mut i: usize = 0;
        while i < n
            invariant
                pre.fields_wf(),
                self@ == (InstView { voices: self@.voices, ..pre }),
                forall|k: int| 0 <= k < n ==> #[trigger] v0[k].wf(),
                pre == old(self)@,
                views(v0) == old(self)@.voices,
                n == self@.voices.len(),
                self.vcevec@ == v0,
                i <= n,
                forall|j: int| 0 <= j < i ==> !same_key(#[trigger] self@.voices[j], nt@),
            decreases n - i,
        {
            if self.vcevec[i].eq(nt) {
                proof {
                    assert(views(v0)[i as int] == v0[i as int]@);
                    assert(same_key(views(v0)[i as int], nt@));
                }
                self.vcevec.remove(i);
                proof {
                    assert(self@ =~= (InstView { voices: self@.voices, ..pre }));
                    assert(views(self.vcevec@) =~= views(v0).remove(i as int));
                    assert forall|k: int| 0 <= k < self.vcevec@.len() implies #[trigger] self.vcevec@[k].wf() by {
                        if k < i {
                            assert(self.vcevec@[k] == v0[k]);
                        } else {
                            assert(self.vcevec@[k] == v0[k + 1]);
                        }
                    }
                    assert forall|i2: int| 0 <= i2 < v0.len()
                        && same_key(views(v0)[i2], nt@)
                        && (forall|j: int| 0 <= j < i2 ==> !same_key(#[trigger] views(v0)[j], nt@))
                        implies i2 == i by {
                        if i2 > i {
                            assert(!same_key(views(v0)[i as int], nt@));
                        }
                    }
                }
                return;
            }
            i += 1;
        }
    }

    /// The per-block render and mix.
    ///
    /// `voice_out[i]` holds, on entry, the signal chain's output for voice `i`
    /// for this block; each voice renders it in place, and it is mixed into
    /// the left channel at `(128 - pan) / 128` and into the right at
    /// `pan / 128`. Afterwards the pool holds exactly the voices that have not
    /// ended, in their order.
    pub fn process(
        &mut self,
        abuf_l: &mut AudioFrame,
        abuf_r: &mut AudioFrame,
        voice_out: &mut Vec<AudioFrame>,
        in_number_frames: usize,
    )
        requires
            old(self).wf(),
            old(abuf_l).wf(),
            old(abuf_r).wf(),
            old(abuf_l)@.len() == in_number_frames,
            old(abuf_r)@.len() == in_number_frames,
            in_number_frames <= MAX_BUFFER_SIZE,
            old(voice_out)@.len() == old(self)@.voices.len(),
            forall|i: int| #![trigger old(voice_out)@[i]] 0 <= i < old(voice_out)@.len()
                ==> old(voice_out)@[i].wf() && old(voice_out)@[i]@.len() == in_number_frames,
        ensures
            final(self).wf(),
            final(self)@ == (InstView { voices: final(self)@.voices, ..old(self)@ }),
            final(abuf_l).wf(),
            final(abuf_r).wf(),
            final(voice_out)@.len() == old(voice_out)@.len(),
            frames(final(voice_out)@) == rendered_all(old(self)@.voices, frames(old(voice_out)@)),
            final(abuf_l)@ == mix_all(
                old(abuf_l)@,
                rendered_all(old(self)@.voices, frames(old(voice_out)@)),
                PAN_DEN - old(self)@.pan,
            ),
            final(abuf_r)@ == mix_all(
                old(abuf_r)@,
                rendered_all(old(self)@.voices, frames(old(voice_out)@)),
                old(self)@.pan as int,
            ),
            final(self)@.voices == keep_live(processed_all(old(self)@.voices, frames(old(voice_out)@))),
    {
        let n = in_number_frames;
        let nv = self.vcevec.len();
        let ghost v0 = self@.voices;
        let ghost ins = frames(voice_out@);
        let ghost outs = rendered_all(v0, ins);
        let ghost ps = processed_all(v0, ins);
        let ghost l0 = abuf_l@;
        let ghost r0 = abuf_r@;
        let ghost pre = self@;
        let pan: u64 = self.pan as u64;
        let mut i: usize = 0;
        assert(outs.subrange(0, 0) =~= Seq::<Seq<i32>>::empty());
        while i < nv
            invariant
                pre.fields_wf(),
                self@ == (InstView { voices: self@.voices, ..pre }),
                pan == pre.pan,
                v0 == pre.voices,
                outs == rendered_all(v0, ins),
                ps == processed_all(v0, ins),
                nv == v0.len(),
                ins.len() == nv,
                i <= nv,
                self.vcevec@.len() == nv,
                voice_out@.len() == nv,
                forall|k: int| 0 <= k < nv ==> #[trigger] self.vcevec@[k].wf(),
                forall|k: int| 0 <= k < i ==> #[trigger] self.vcevec@[k]@ == ps[k],
                forall|k: int| i <= k < nv ==> #[trigger] self.vcevec@[k]@ == v0[k],
                forall|k: int| #![trigger voice_out@[k]] 0 <= k < nv ==> voice_out@[k].wf() && voice_out@[k]@.len() == n,
                forall|k: int| 0 <= k < i ==> #[trigger] voice_out@[k]@ == outs[k],
                forall|k: int| i <= k < nv ==> #[trigger] voice_out@[k]@ == ins[k],
                abuf_l.wf(),
                abuf_r.wf(),
                abuf_l@.len() == n,
                abuf_r@.len() == n,
                n <= MAX_BUFFER_SIZE,
                abuf_l@ == mix_all(l0, outs.subrange(0, i as int), PAN_DEN - pan),
                abuf_r@ == mix_all(r0, outs.subrange(0, i as int), pan as int),
            decreases nv - i,
        {
            let ghost l1 = abuf_l@;
            let ghost r1 = abuf_r@;
            let _ended = self.vcevec[i].process(&mut voice_out[i], n);
            abuf_l.mul_and_mix(&voice_out[i], 128 - pan, 128);
            abuf_r.mul_and_mix(&voice_out[i], pan, 128);
            proof {
                assert(voice_out@[i as int]@ == outs[i as int]);
                assert(self.vcevec@[i as int]@ == ps[i as int]);
                let sub = outs.subrange(0, i + 1);
                assert(sub.drop_last() =~= outs.subrange(0, i as int));
                assert(abuf_l@ =~= mix_one(l1, outs[i as int], PAN_DEN - pan));
                assert(abuf_r@ =~= mix_one(r1, outs[i as int], pan as int));
            }
            i += 1;
        }
        proof {
            assert(outs.subrange(0, nv as int) =~= outs);
            assert(frames(voice_out@) =~= outs);
        }
        let mut j: usize = 0;
        let ghost mut k: int = 0;
        assert(views(self.vcevec@).subrange(0, 0) =~= keep_live(ps.subrange(0, 0)));
        while j < self.vcevec.len()
            invariant
                pre.fields_wf(),
                self@ == (InstView { voices: self@.voices, ..pre }),
                ps.len() == nv,
                0 <= j <= k <= nv,
                self.vcevec@.len() == j + (nv - k),
                forall|m: int| 0 <= m < self.vcevec@.len() ==> #[trigger] self.vcevec@[m].wf(),
                views(self.vcevec@).subrange(0, j as int) == keep_live(ps.subrange(0, k)),
                forall|m: int| j <= m < self.vcevec@.len() ==> #[trigger] self.vcevec@[m]@ == ps[k + m - j],
            decreases nv - k,
        {
            let ghost before = self.vcevec@;
            let ghost sub = ps.subrange(0, k + 1);
            proof {
                assert(sub.drop_last() =~= ps.subrange(0, k));
                assert(before[j as int]@ == ps[k]);
            }
            if self.vcevec[j].ended() {
                self.vcevec.remove(j);
                proof {
                    assert(views(self.vcevec@).subrange(0, j as int) =~= views(before).subrange(0, j as int));
                    assert forall|m: int| 0 <= m < self.vcevec@.len() implies #[trigger] self.vcevec@[m].wf() by {
                        if m < j {
                            assert(self.vcevec@[m] == before[m]);
                        } else {
                            assert(self.vcevec@[m] == before[m + 1]);
                        }
                    }
                    assert forall|m: int| j <= m < self.vcevec@.len() implies #[trigger] self.vcevec@[m]@ == ps[k + 1 + m - j] by {
                        assert(self.vcevec@[m] == before[m + 1]);
                    }
                }
            } else {
                proof {
                    assert(views(self.vcevec@).subrange(0, j + 1) =~= views(self.vcevec@).subrange(0, j as int).push(ps[k]));
                }
                j += 1;
            }
            proof {
                k = k + 1;
            }
        }
        proof {
            assert(k == nv);
            assert(ps.subrange(0, nv as int) =~= ps);
            assert(views(self.vcevec@).subrange(0, j as int) =~= views(self.vcevec@));
        }
    }
    /// Runs every voice's modulator for a block of `n` samples into
    /// `frames`, one per voice in pool order; they drive the excitations.
    pub fn lfo_frames(&mut self, frames: &mut Vec<CtrlFrame>, n: usize)
        requires
            old(self).wf(),
            n <= MAX_BUFFER_SIZE,
            old(frames)@.len() == old(self)@.voices.len(),
        ensures
            final(self).wf(),
            final(self)@ == (InstView { voices: final(self)@.voices, ..old(self)@ }),
            final(self)@.voices.len() == old(self)@.voices.len(),
            final(frames)@.len() == old(self)@.voices.len(),
            forall|i: int| 0 <= i < old(self)@.voices.len() ==> {
                &&& #[trigger] final(self)@.voices[i] == (SgfView {
                    body: BodyView { lfo: final(self)@.voices[i].body.lfo, ..old(self)@.voices[i].body },
                    ..old(self)@.voices[i]
                })
                &&& final(frames)@[i]@.len() == cbuf_size_spec(n as int)
                &&& lfo_ran(old(self)@.voices[i].body.lfo, final(self)@.voices[i].body.lfo, final(frames)@[i]@)
            },
    {
        let nv = self.vcevec.len();
        let ghost v0 = self.vcevec@;
        let ghost pre = self@;
        let mut i: usize = 0;
        while i < nv
            invariant
                pre.fields_wf(),
                self@ == (InstView { voices: self@.voices, ..pre }),
                pre == old(self)@,
                views(v0) == old(self)@.voices,
                nv == v0.len(),
                self.vcevec@.len() == nv,
                frames@.len() == nv,
                i <= nv,
                n <= MAX_BUFFER_SIZE,
                forall|k: int| 0 <= k < nv ==> #[trigger] self.vcevec@[k].wf(),
                forall|k: int| i <= k < nv ==> #[trigger] self.vcevec@[k] == v0[k],
                forall|k: int| 0 <= k < i ==> {
                    &&& #[trigger] self.vcevec@[k]@ == (SgfView {
                        body: BodyView { lfo: self.vcevec@[k]@.body.lfo, ..v0[k]@.body },
                        ..v0[k]@
                    })
                    &&& frames@[k]@.len() == cbuf_size_spec(n as int)
                    &&& lfo_ran(v0[k]@.body.lfo, self.vcevec@[k]@.body.lfo, frames@[k]@)
                },
            decreases nv - i,
        {
            self.vcevec[i].lfo_frame(&mut frames[i], n);
            i += 1;
        }
    }

    pub fn voice_count(&self) -> (r: usize)
        ensures
            r == self@.voices.len(),
    {
        self.vcevec.len()
    }

    pub fn voice(&self, i: usize) -> (r: &VoiceSgf)
        requires
            i < self@.voices.len(),
        ensures
            r@ == self@.voices[i as int],
    {
        &self.vcevec[i]
    }

    pub fn inst_number(&self) -> (r: usize)
        ensures
            r == self@.inst_number,
    {
        self.inst_number
    }

    /// Current modulation depth (0 to 127).
    pub fn modulation_depth(&self) -> (r: u8)
        ensures
            r == self@.mdlt,
    {
        self.mdlt
    }

    /// Current pitch offset, in 1/1024 cent.
    pub fn pitch_offset(&self) -> (r: i32)
        ensures
            r == self@.pit,
    {
        self.pit
    }

    pub fn volume_value(&self) -> (r: u8)
        ensures
            r == self@.vol,
    {
        self.vol
    }

    /// Current pan position, in 1/128.
    pub fn pan_position(&self) -> (r: u8)
        ensures
            r == self@.pan,
    {
        self.pan
    }

    pub fn expression_value(&self) -> (r: u8)
        ensures
            r == self@.exp,
    {
        self.exp
    }
}

} // verus!

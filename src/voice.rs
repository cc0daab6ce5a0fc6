//! What every voice shares, whatever its signal chain: note lifecycle,
//! envelope, modulator, gain, and the level check that ends a voice once it
//! has fallen silent.
use vstd::prelude::*;
use crate::aeg::{Aeg, AegParameter, EgState, EG_UNITY};
use crate::frame::{
    AudioFrame, CtrlFrame, CTRL_DECIMATION, cbuf_size_spec, get_cbuf_size, magnitude, scale,
};
use crate::lfo::{Lfo, LfoParameter};

verus! {

/// Largest block, in audio samples, that a voice renders in one call.
pub const MAX_BUFFER_SIZE: usize = 4096;

/// Number of recent block peaks that the level check remembers.
pub const LVL_CHECK_LEN: usize = 8;

/// A released voice whose remembered peaks all stay below this is silent.
pub const SILENCE_LEVEL: u32 = 16;

/// Audio samples after which a damped voice ends.
pub const DAMP_TIME: u32 = 2048;

/// Largest value of a MIDI controller or note byte.
pub const MIDI_MAX: u8 = 127;

#[derive(PartialEq, Eq, Structural, Clone, Copy, Debug)]
pub enum NoteStatus {
    DuringNoteOn,
    AfterNoteOff,
    DuringDamp,
}

/// Largest magnitude among the samples of `s`.
pub open spec fn peak_of(s: Seq<i32>) -> int
    decreases s.len(),
{
    if s.len() == 0 {
        0
    } else {
        let p = peak_of(s.drop_last());
        let m = magnitude(s.last() as int);
        if m > p {
            m
        } else {
            p
        }
    }
}

/// Largest value in `s`.
pub open spec fn max_of(s: Seq<u32>) -> int
    decreases s.len(),
{
    if s.len() == 0 {
        0
    } else {
        let p = max_of(s.drop_last());
        if s.last() > p {
            s.last() as int
        } else {
            p
        }
    }
}

/// The gain numerator for a volume and an expression; the gain is this over
/// the voice's headroom divisor.
pub open spec fn gain_num(vol: int, exp: int) -> int {
    vol * exp
}

/// Volume scaling: a volume or an expression of 0 silences the voice;
/// `gain_num(127, 127)` is the largest gain, and with a headroom divisor of at
/// least 16384 and an envelope level of at most `EG_UNITY` no sample grows.
pub proof fn lemma_volume_scaling(vol: int, exp: int, eg: int, vol_den: int, s: int)
    requires
        0 <= vol <= MIDI_MAX,
        0 <= exp <= MIDI_MAX,
        0 <= eg <= EG_UNITY,
        16384 <= vol_den,
    ensures
        gain_num(0, exp) == 0,
        gain_num(vol, 0) == 0,
        gain_num(vol, exp) <= gain_num(MIDI_MAX as int, MIDI_MAX as int),
        gain_num(MIDI_MAX as int, MIDI_MAX as int) < 16384,
        0 <= gain_num(vol, exp) * eg <= vol_den * EG_UNITY,
        magnitude(scale(s, gain_num(vol, exp) * eg, vol_den * EG_UNITY)) <= magnitude(s),
        vol == 0 || exp == 0 ==> scale(s, gain_num(vol, exp) * eg, vol_den * EG_UNITY) == 0,
{
    assert(vol * exp <= 127 * 127) by (nonlinear_arith)
        requires 0 <= vol <= 127, 0 <= exp <= 127;
    assert(0 <= vol * exp) by (nonlinear_arith)
        requires 0 <= vol, 0 <= exp;
    assert(0 <= vol * exp * eg <= vol_den * 65536) by (nonlinear_arith)
        requires 0 <= vol * exp <= 16129, 0 <= eg <= 65536, 16384 <= vol_den;
    assert(0 * exp == 0);
    assert(vol * 0 == 0);
    crate::frame::lemma_scale_bounded(s, vol * exp * eg, vol_den * 65536);
}

/// A voice's output never exceeds its input in magnitude: gain and envelope
/// together stay at or below 1.0, and the damp fade only lowers it.
pub proof fn lemma_out_sample_bounded(v: BodyView, s: int, i: int)
    requires
        v.wf_view(),
        0 <= i,
    ensures
        magnitude(v.out_sample(s, i)) <= magnitude(s),
{
    let eg = v.aeg.after((i / CTRL_DECIMATION as int + 1) as nat);
    lemma_after_wf(v.aeg, (i / CTRL_DECIMATION as int + 1) as nat);
    let lvl = eg.level_spec();
    assert(v.max_note_vol * lvl <= v.vol_den * EG_UNITY) by (nonlinear_arith)
        requires 0 <= v.max_note_vol <= 16129, 0 <= lvl <= 65536, 16384 <= v.vol_den;
    assert(0 <= v.max_note_vol * lvl) by (nonlinear_arith)
        requires 0 <= v.max_note_vol, 0 <= lvl;
    crate::frame::lemma_scale_bounded(s, v.max_note_vol * lvl, v.vol_den * EG_UNITY);
    let g = scale(s, v.max_note_vol * lvl, v.vol_den * EG_UNITY);
    crate::frame::lemma_scale_bounded(g, DAMP_TIME - v.damp_counter, DAMP_TIME as int);
}

/// The envelope stays well formed however far it runs.
pub proof fn lemma_after_wf(a: Aeg, k: nat)
    requires
        a.wf(),
    ensures
        a.after(k).wf(),
    decreases k,
{
    if k > 0 {
        lemma_after_wf(a, (k - 1) as nat);
        Aeg::lemma_step_wf(a.after((k - 1) as nat));
    }
}

/// `new` is `old` with the envelope's attack started (from 0, the level kept
/// until its first sample) and the modulator restarted from phase 0.
pub open spec fn attacked(old: BodyView, new: BodyView) -> bool {
    &&& new.aeg.wf()
    &&& new.aeg.state_spec() == EgState::Attack
    &&& new.aeg.target_spec() == EG_UNITY
    &&& new.aeg.source_spec() == 0
    &&& new.aeg.level_spec() == old.aeg.level_spec()
    &&& new.aeg.elapsed_spec() == 0
    &&& new.aeg.duration_spec() == old.aeg.prm_spec().attack_time
    &&& new.aeg.prm_spec() == old.aeg.prm_spec()
    &&& new.lfo.running_spec()
    &&& new.lfo.phase_spec() == 0
    &&& new.lfo.prm_spec() == old.lfo.prm_spec()
}

/// `new` is `old` with the envelope's release started from the current level.
pub open spec fn released(old: BodyView, new: BodyView) -> bool {
    &&& new.aeg.wf()
    &&& new.aeg.state_spec() == EgState::Release
    &&& new.aeg.target_spec() == 0
    &&& new.aeg.source_spec() == old.aeg.level_spec()
    &&& new.aeg.level_spec() == old.aeg.level_spec()
    &&& new.aeg.elapsed_spec() == 0
    &&& new.aeg.duration_spec() == old.aeg.prm_spec().release_time
    &&& new.aeg.prm_spec() == old.aeg.prm_spec()
}

/// The state of a voice's shared part, as plain values.
pub struct BodyView {
    pub note: u8,
    pub vel: u8,
    pub status: NoteStatus,
    pub damp_counter: u32,
    pub lvl_check: Seq<u32>,
    pub lvl_pos: int,
    pub aeg: Aeg,
    pub lfo: Lfo,
    pub max_note_vol: u32,
    pub vol_den: u64,
    pub ended: bool,
}

impl BodyView {
    /// Output for input sample `s` at position `i` of the block: scaled by the
    /// gain and the envelope level that covers `i`, then faded if damped.
    pub open spec fn out_sample(self, s: int, i: int) -> int {
        let eg = self.aeg.after((i / CTRL_DECIMATION as int + 1) as nat).level_spec();
        let g = scale(s, self.max_note_vol * eg, self.vol_den * EG_UNITY);
        if self.status == NoteStatus::DuringDamp {
            scale(g, DAMP_TIME - self.damp_counter, DAMP_TIME as int)
        } else {
            g
        }
    }

    /// The block a render pass leaves for the input block `input`; an ended
    /// voice leaves it as it is.
    pub open spec fn rendered(self, input: Seq<i32>) -> Seq<i32> {
        if self.ended {
            input
        } else {
            Seq::new(input.len(), |i: int| self.out_sample(input[i] as int, i) as i32)
        }
    }

    /// The state after a render pass on `input`.
    pub open spec fn processed(self, input: Seq<i32>) -> BodyView {
        if self.ended {
            self
        } else {
            let n = input.len() as int;
            let aeg = self.aeg.after(cbuf_size_spec(n) as nat);
            let dc = if self.status == NoteStatus::DuringDamp {
                if self.damp_counter + n >= DAMP_TIME { DAMP_TIME as int } else { self.damp_counter + n }
            } else {
                self.damp_counter as int
            };
            let lvl = self.lvl_check.update(self.lvl_pos, peak_of(self.rendered(input)) as u32);
            let ended = (self.status == NoteStatus::AfterNoteOff && aeg.state_spec()
                == EgState::KeyOffSteady && max_of(lvl) < SILENCE_LEVEL) || (self.status
                == NoteStatus::DuringDamp && dc >= DAMP_TIME);
            BodyView {
                aeg,
                damp_counter: dc as u32,
                lvl_check: lvl,
                lvl_pos: (self.lvl_pos + 1) % LVL_CHECK_LEN as int,
                ended,
                ..self
            }
        }
    }
}

pub struct VoiceBody {
    note: u8,
    vel: u8,
    status: NoteStatus,
    damp_counter: u32,
    lvl_check_buf: Vec<u32>,
    lvl_pos: usize,
    aeg: Aeg,
    lfo: Lfo,
    max_note_vol: u32,
    vol_den: u64,
    ended: bool,
    aegbuf: CtrlFrame,
}

/// Largest magnitude among the samples of the block.
fn block_peak(abuf: &AudioFrame) -> (r: u32)
    requires
        abuf.wf(),
    ensures
        r == peak_of(abuf@),
{
    let n = abuf.sample_number();
    let mut r: u32 = 0;
    let mut i: usize = 0;
    while i < n
        invariant
            abuf.wf(),
            n == abuf@.len(),
            i <= n,
            r == peak_of(abuf@.subrange(0, i as int)),
            r <= 0x8000_0000,
        decreases n - i,
    {
        let s = abuf.get_abuf(i);
        let m: u32 = if s >= 0 { s as u32 } else { (-(s as i64)) as u32 };
        proof {
            let pre = abuf@.subrange(0, i + 1);
            assert(pre.drop_last() =~= abuf@.subrange(0, i as int));
            assert(pre.last() == s);
        }
        if m > r {
            r = m;
        }
        i += 1;
    }
    assert(abuf@.subrange(0, n as int) =~= abuf@);
    r
}

/// Largest value in `v`.
fn vec_max(v: &Vec<u32>) -> (r: u32)
    ensures
        r == max_of(v@),
{
    let n = v.len();
    let mut r: u32 = 0;
    let mut i: usize = 0;
    while i < n
        invariant
            n == v@.len(),
            i <= n,
            r == max_of(v@.subrange(0, i as int)),
        decreases n - i,
    {
        proof {
            let pre = v@.subrange(0, i + 1);
            assert(pre.drop_last() =~= v@.subrange(0, i as int));
        }
        if v[i] > r {
            r = v[i];
        }
        i += 1;
    }
    assert(v@.subrange(0, n as int) =~= v@);
    r
}

impl VoiceBody {
    pub closed spec fn view(&self) -> BodyView {
        BodyView {
            note: self.note,
            vel: self.vel,
            status: self.status,
            damp_counter: self.damp_counter,
            lvl_check: self.lvl_check_buf@,
            lvl_pos: self.lvl_pos as int,
            aeg: self.aeg,
            lfo: self.lfo,
            max_note_vol: self.max_note_vol,
            vol_den: self.vol_den,
            ended: self.ended,
        }
    }

    pub open spec fn wf(&self) -> bool {
        &&& self@.lvl_check.len() == LVL_CHECK_LEN
        &&& 0 <= self@.lvl_pos < LVL_CHECK_LEN
        &&& self@.aeg.wf()
        &&& self@.lfo.wf()
        &&& self@.damp_counter <= DAMP_TIME
        &&& self@.max_note_vol <= gain_num(MIDI_MAX as int, MIDI_MAX as int)
        &&& 16384 <= self@.vol_den <= 0x10_0000
    }

    /// A sounding voice for `note` at velocity `vel`, with gain
    /// `vol * exp / vol_den`, not yet started.
    pub fn new(
        note: u8,
        vel: u8,
        vol: u8,
        exp: u8,
        vol_den: u64,
        aeg_prm: AegParameter,
        lfo_prm: LfoParameter,
    ) -> (r: VoiceBody)
        requires
            vol <= MIDI_MAX,
            exp <= MIDI_MAX,
            16384 <= vol_den <= 0x10_0000,
            aeg_prm.attack_time > 0,
            aeg_prm.release_time > 0,
        ensures
            r.wf(),
            r@.note == note,
            r@.vel == vel,
            r@.status == NoteStatus::DuringNoteOn,
            r@.damp_counter == 0,
            r@.max_note_vol == gain_num(vol as int, exp as int),
            r@.vol_den == vol_den,
            !r@.ended,
            r@.aeg.state_spec() == EgState::NotYet,
            r@.aeg.level_spec() == 0,
            r@.aeg.prm_spec() == aeg_prm,
            !r@.lfo.running_spec(),
            r@.lfo.phase_spec() == 0,
            r@.lfo.prm_spec() == crate::lfo::lfo_prm_of(lfo_prm),
            r@.lvl_check == Seq::new(LVL_CHECK_LEN as nat, |i: int| 0u32),
    {
        let mut lvl_check_buf: Vec<u32> = Vec::new();
        let mut k: usize = 0;
        while k < LVL_CHECK_LEN
            invariant
                k <= LVL_CHECK_LEN,
                lvl_check_buf@.len() == k,
                forall|j: int| 0 <= j < k ==> lvl_check_buf@[j] == 0,
            decreases LVL_CHECK_LEN - k,
        {
            lvl_check_buf.push(0);
            k += 1;
        }
        assert(lvl_check_buf@ =~= Seq::new(LVL_CHECK_LEN as nat, |i: int| 0u32));
        assert(vol as int * exp as int <= 127 * 127) by (nonlinear_arith)
            requires vol <= 127, exp <= 127;
        VoiceBody {
            note,
            vel,
            status: NoteStatus::DuringNoteOn,
            damp_counter: 0,
            lvl_check_buf,
            lvl_pos: 0,
            aeg: Aeg::new(aeg_prm),
            lfo: Lfo::new(lfo_prm),
            max_note_vol: vol as u32 * exp as u32,
            vol_den,
            ended: false,
            aegbuf: CtrlFrame::new(get_cbuf_size(MAX_BUFFER_SIZE)),
        }
    }

    /// Starts the envelope's attack and the modulator.
    pub fn start_sound(&mut self)
        requires
            old(self).wf(),
        ensures
            final(self).wf(),
            final(self)@ == (BodyView {
                aeg: final(self)@.aeg,
                lfo: final(self)@.lfo,
                ..old(self)@
            }),
            attacked(old(self)@, final(self)@),
    {
        self.aeg.move_to_attack();
        self.lfo.start();
    }

    /// Re-triggers the note in place: new note and velocity, sounding again,
    /// envelope re-attacked, modulator restarted.
    pub fn slide(&mut self, note: u8, vel: u8)
        requires
            old(self).wf(),
        ensures
            final(self).wf(),
            final(self)@ == (BodyView {
                note,
                vel,
                status: NoteStatus::DuringNoteOn,
                damp_counter: 0,
                aeg: final(self)@.aeg,
                lfo: final(self)@.lfo,
                ..old(self)@
            }),
            attacked(old(self)@, final(self)@),
    {
        self.note = note;
        self.vel = vel;
        self.status = NoteStatus::DuringNoteOn;
        self.damp_counter = 0;
        self.aeg.move_to_attack();
        self.lfo.start();
    }

    /// Key released: the envelope starts its release.
    pub fn note_off(&mut self)
        requires
            old(self).wf(),
        ensures
            final(self).wf(),
            final(self)@ == (BodyView {
                status: NoteStatus::AfterNoteOff,
                aeg: final(self)@.aeg,
                ..old(self)@
            }),
            released(old(self)@, final(self)@),
    {
        self.status = NoteStatus::AfterNoteOff;
        self.aeg.move_to_release();
    }

    /// Forced fast silence: the voice fades out over `DAMP_TIME` samples.
    pub fn damp(&mut self)
        requires
            old(self).wf(),
        ensures
            final(self).wf(),
            final(self)@ == (BodyView {
                status: NoteStatus::DuringDamp,
                damp_counter: 0,
                ..old(self)@
            }),
    {
        self.status = NoteStatus::DuringDamp;
        self.damp_counter = 0;
    }

    /// Sets the gain from a volume and an expression (each 0 to 127).
    pub fn amplitude(&mut self, vol: u8, exp: u8)
        requires
            old(self).wf(),
            vol <= MIDI_MAX,
            exp <= MIDI_MAX,
        ensures
            final(self).wf(),
            final(self)@ == (BodyView {
                max_note_vol: gain_num(vol as int, exp as int) as u32,
                ..old(self)@
            }),
    {
        assert(vol as int * exp as int <= 127 * 127) by (nonlinear_arith)
            requires vol <= 127, exp <= 127;
        self.max_note_vol = vol as u32 * exp as u32;
    }

    /// Sets the modulator's rate from a controller value.
    pub fn set_lfo_freq(&mut self, value: u8)
        requires
            old(self).wf(),
        ensures
            final(self).wf(),
            final(self)@ == (BodyView { lfo: final(self)@.lfo, ..old(self)@ }),
            final(self)@.lfo.prm_spec().delta == crate::lfo::delta_of(value as int),
            final(self)@.lfo.prm_spec().wave == old(self)@.lfo.prm_spec().wave,
            final(self)@.lfo.prm_spec().depth == old(self)@.lfo.prm_spec().depth,
            final(self)@.lfo.phase_spec() == old(self)@.lfo.phase_spec(),
            final(self)@.lfo.running_spec() == old(self)@.lfo.running_spec(),
    {
        self.lfo.set_freq(value);
    }

    /// Sets the modulator's wave shape from a controller value.
    pub fn set_lfo_wave(&mut self, value: u8)
        requires
            old(self).wf(),
        ensures
            final(self).wf(),
            final(self)@ == (BodyView { lfo: final(self)@.lfo, ..old(self)@ }),
            final(self)@.lfo.prm_spec().wave == (if value == 0 {
                crate::lfo::LfoWave::Triangle
            } else if value == 1 {
                crate::lfo::LfoWave::Saw
            } else if value == 2 {
                crate::lfo::LfoWave::Square
            } else {
                old(self)@.lfo.prm_spec().wave
            }),
            final(self)@.lfo.prm_spec().delta == old(self)@.lfo.prm_spec().delta,
            final(self)@.lfo.prm_spec().depth == old(self)@.lfo.prm_spec().depth,
            final(self)@.lfo.phase_spec() == old(self)@.lfo.phase_spec(),
            final(self)@.lfo.running_spec() == old(self)@.lfo.running_spec(),
    {
        self.lfo.set_wave(value);
    }

    pub fn note_num(&self) -> (r: u8)
        ensures
            r == self@.note,
    {
        self.note
    }

    pub fn velocity(&self) -> (r: u8)
        ensures
            r == self@.vel,
    {
        self.vel
    }

    pub fn status(&self) -> (r: NoteStatus)
        ensures
            r == self@.status,
    {
        self.status
    }

    pub fn damp_counter(&self) -> (r: u32)
        ensures
            r == self@.damp_counter,
    {
        self.damp_counter
    }

    /// Counts `num` more samples of damping, up to `DAMP_TIME`.
    pub fn add_damp_counter(&mut self, num: u32)
        requires
            old(self).wf(),
        ensures
            final(self).wf(),
            final(self)@ == (BodyView {
                damp_counter: if old(self)@.damp_counter + num >= DAMP_TIME {
                    DAMP_TIME
                } else {
                    (old(self)@.damp_counter + num) as u32
                },
                ..old(self)@
            }),
    {
        if num >= DAMP_TIME - self.damp_counter {
            self.damp_counter = DAMP_TIME;
        } else {
            self.damp_counter = self.damp_counter + num;
        }
    }

    pub fn ended(&self) -> (r: bool)
        ensures
            r == self@.ended,
    {
        self.ended
    }

    /// Current gain numerator (`volume * expression`).
    pub fn max_note_vol(&self) -> (r: u32)
        ensures
            r == self@.max_note_vol,
    {
        self.max_note_vol
    }

    /// Current envelope level.
    pub fn eg_level(&self) -> (r: i32)
        ensures
            r == self@.aeg.level_spec(),
    {
        self.aeg.level()
    }

    /// Runs the modulator for a block of `n` audio samples into `lbuf`, whose
    /// output drives the voice's oscillator.
    pub fn lfo_frame(&mut self, lbuf: &mut CtrlFrame, n: usize)
        requires
            old(self).wf(),
            n <= MAX_BUFFER_SIZE,
        ensures
            final(self).wf(),
            final(self)@ == (BodyView { lfo: final(self)@.lfo, ..old(self)@ }),
            final(lbuf)@.len() == cbuf_size_spec(n as int),
            crate::lfo::lfo_ran(old(self)@.lfo, final(self)@.lfo, final(lbuf)@),
    {
        lbuf.resize(get_cbuf_size(n));
        self.lfo.process(lbuf);
    }

    /// The per-block render, applied to the signal chain's output in `abuf`.
    ///
    /// An ended voice returns `true` and leaves `abuf` and itself as they are.
    /// Otherwise each sample is scaled by the gain and the envelope, faded if
    /// the voice is damped, and the block's peak goes into the level check;
    /// the result says whether the voice has now ended.
    pub fn process(&mut self, abuf: &mut AudioFrame, n: usize) -> (r: bool)
        requires
            old(self).wf(),
            !old(self)@.ended ==> old(abuf).wf() && old(abuf)@.len() == n && n <= MAX_BUFFER_SIZE,
        ensures
            final(self).wf(),
            old(abuf).wf() ==> final(abuf).wf(),
            final(abuf).capacity() == old(abuf).capacity(),
            final(abuf)@ == old(self)@.rendered(old(abuf)@),
            final(self)@ == old(self)@.processed(old(abuf)@),
            r == final(self)@.ended,
            old(self)@.ended ==> r && final(abuf)@ == old(abuf)@,
    {
        if self.ended {
            return true;
        }
        let ghost v0 = self@;
        let ghost in0 = abuf@;
        let cbuf_size = get_cbuf_size(n);
        self.aegbuf.resize(cbuf_size);
        self.aeg.process(&mut self.aegbuf);
        let damping = self.status == NoteStatus::DuringDamp;
        let fade: u64 = (DAMP_TIME - self.damp_counter) as u64;
        let vol: u64 = self.max_note_vol as u64;
        let den: u64 = self.vol_den * 65536;
        let mut i: usize = 0;
        while i < n
            invariant
                abuf.wf(),
                abuf@.len() == n,
                abuf.capacity() == old(abuf).capacity(),
                self.aegbuf@.len() == cbuf_size,
                cbuf_size * CTRL_DECIMATION >= n,
                i <= n,
                in0 == old(abuf)@,
                !v0.ended,
                v0.wf_view(),
                vol == v0.max_note_vol,
                den == v0.vol_den * EG_UNITY,
                damping == (v0.status == NoteStatus::DuringDamp),
                fade == DAMP_TIME - v0.damp_counter,
                forall|j: int| 0 <= j < cbuf_size ==> #[trigger] self.aegbuf@[j] == v0.aeg.after((j + 1) as nat).level_spec(),
                forall|j: int| 0 <= j < cbuf_size ==> 0 <= #[trigger] self.aegbuf@[j] <= EG_UNITY,
                forall|j: int| 0 <= j < i ==> #[trigger] abuf@[j] == v0.out_sample(in0[j] as int, j) as i32,
                forall|j: int| i <= j < n ==> #[trigger] abuf@[j] == in0[j],
            decreases n - i,
        {
            let eg = self.aegbuf.ctrl_for_audio(i);
            proof {
                assert(i / CTRL_DECIMATION < cbuf_size) by (nonlinear_arith)
                    requires i < n, cbuf_size * 16 >= n, CTRL_DECIMATION == 16;
                assert(vol * eg <= 16129 * 65536) by (nonlinear_arith)
                    requires vol <= 16129, 0 <= eg <= 65536;
                assert(vol * eg <= den) by (nonlinear_arith)
                    requires vol <= 16129, 0 <= eg <= 65536, den == v0.vol_den * 65536, v0.vol_den >= 16384;
            }
            let ghost s0 = abuf@[i as int];
            abuf.mul_rate(i, vol * eg as u64, den);
            if damping {
                abuf.mul_rate(i, fade, 2048);
            }
            proof {
                crate::frame::lemma_scale_bounded(s0 as int, vol * eg, den as int);
            }
            i += 1;
        }
        if damping {
            if self.damp_counter as usize + n >= DAMP_TIME as usize {
                self.damp_counter = DAMP_TIME;
            } else {
                self.damp_counter = self.damp_counter + n as u32;
            }
        }
        assert(abuf@ =~= v0.rendered(in0));
        let peak = block_peak(abuf);
        self.lvl_check_buf.set(self.lvl_pos, peak);
        self.lvl_pos = (self.lvl_pos + 1) % LVL_CHECK_LEN;
        let lvl_max = vec_max(&self.lvl_check_buf);
        let ended = (self.status == NoteStatus::AfterNoteOff && self.aeg.state() == EgState::KeyOffSteady
            && lvl_max < SILENCE_LEVEL) || (damping && self.damp_counter >= DAMP_TIME);
        self.ended = ended;
        assert(self@.lvl_check =~= v0.lvl_check.update(v0.lvl_pos, peak_of(v0.rendered(in0)) as u32));
        ended
    }
}

impl BodyView {
    /// `wf` of a body, stated on its view.
    pub open spec fn wf_view(self) -> bool {
        &&& self.lvl_check.len() == LVL_CHECK_LEN
        &&& 0 <= self.lvl_pos < LVL_CHECK_LEN
        &&& self.aeg.wf()
        &&& self.lfo.wf()
        &&& self.damp_counter <= DAMP_TIME
        &&& self.max_note_vol <= gain_num(MIDI_MAX as int, MIDI_MAX as int)
        &&& 16384 <= self.vol_den <= 0x10_0000
    }
}

} // verus!

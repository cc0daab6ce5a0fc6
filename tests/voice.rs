use msgf::aeg::AegParameter;
use msgf::frame::{AudioFrame, CtrlFrame};
use msgf::lfo::{LfoParameter, LfoWave};
use msgf::sg_voice::{Additive, SgParameter, VoiceSg};
use msgf::sgf_voice::{Biquad, SgfParameter, VoiceSgf, vowel_formants};
use msgf::voice::{NoteStatus, DAMP_TIME};

fn lfo_prm() -> LfoParameter {
    LfoParameter { delta: 100, depth: 1000, wave: LfoWave::Triangle }
}

fn sgf_prm(attack: u32, release: u32) -> SgfParameter {
    SgfParameter { aeg: AegParameter { attack_time: attack, release_time: release }, lfo: lfo_prm() }
}

fn sg_prm(attack: u32, release: u32) -> SgParameter {
    SgParameter { aeg: AegParameter { attack_time: attack, release_time: release }, lfo: lfo_prm() }
}

fn block(n: usize, v: i32) -> AudioFrame {
    AudioFrame::from_vec(vec![v; n])
}

#[test]
fn full_volume_gain_stays_below_unity() {
    let mut v = VoiceSgf::new(60, 100, 0, 0, 127, 127, &sgf_prm(1, 1));
    v.start_sound();
    let mut b = block(16, 32768);
    let ended = v.process(&mut b, 16);
    assert!(!ended);
    assert_eq!(b.to_vec(), vec![32258; 16]);
}

#[test]
fn additive_voice_has_four_bit_margin() {
    let mut v = VoiceSg::new(60, 100, 0, 0, 127, 127, &sg_prm(1, 1));
    v.start_sound();
    let mut b = block(16, 32768);
    v.process(&mut b, 16);
    assert_eq!(b.to_vec(), vec![2016; 16]);
}

#[test]
fn zero_volume_or_expression_silences() {
    for (vol, exp) in [(0u8, 127u8), (127, 0), (0, 0)] {
        let mut v = VoiceSgf::new(60, 100, 0, 0, 100, 100, &sgf_prm(1, 1));
        v.amplitude(vol, exp);
        assert_eq!(v.max_note_vol(), 0);
        v.start_sound();
        let mut b = block(32, 30000);
        v.process(&mut b, 32);
        assert_eq!(b.to_vec(), vec![0; 32]);
    }
    let mut v = VoiceSg::new(60, 100, 0, 0, 127, 127, &sg_prm(1, 1));
    assert_eq!(v.max_note_vol(), 16129);
    v.amplitude(0, 64);
    assert_eq!(v.max_note_vol(), 0);
}

#[test]
fn ended_voice_leaves_buffer_untouched() {
    let mut v = VoiceSgf::new(60, 100, 0, 0, 127, 127, &sgf_prm(1, 1));
    v.start_sound();
    v.damp();
    assert_eq!(v.status(), NoteStatus::DuringDamp);
    let mut b = block(DAMP_TIME as usize, 1000);
    assert!(v.process(&mut b, DAMP_TIME as usize));
    assert!(v.ended());
    let mut b = AudioFrame::from_vec(vec![5, -6, 7]);
    assert!(v.process(&mut b, 3));
    assert_eq!(b.to_vec(), vec![5, -6, 7]);
    assert!(v.process(&mut b, 3));
    assert_eq!(b.to_vec(), vec![5, -6, 7]);
}

#[test]
fn damp_fades_and_counts() {
    let mut v = VoiceSgf::new(60, 100, 0, 0, 127, 127, &sgf_prm(1, 1));
    v.start_sound();
    let mut b = block(16, 32768);
    v.process(&mut b, 16);
    v.damp();
    assert_eq!(v.damp_counter(), 0);
    let mut b = block(1024, 32768);
    assert!(!v.process(&mut b, 1024));
    assert_eq!(v.damp_counter(), 1024);
    assert_eq!(b.get_abuf(0), 32258);
    let mut b = block(1024, 32768);
    assert!(v.process(&mut b, 1024));
    assert_eq!(v.damp_counter(), DAMP_TIME);
    assert_eq!(b.get_abuf(0), 16129);
}

#[test]
fn released_voice_ends_once_silent() {
    let mut v = VoiceSgf::new(60, 100, 0, 0, 127, 127, &sgf_prm(1, 1));
    v.start_sound();
    let mut b = block(16, 0);
    assert!(!v.process(&mut b, 16));
    v.note_off();
    assert_eq!(v.status(), NoteStatus::AfterNoteOff);
    let mut b = block(16, 30000);
    assert!(v.process(&mut b, 16));
    assert_eq!(b.to_vec(), vec![0; 16]);
}

#[test]
fn loud_release_waits_for_level_check() {
    let mut v = VoiceSgf::new(60, 100, 0, 0, 127, 127, &sgf_prm(1, 1));
    v.start_sound();
    let mut b = block(16, 30000);
    assert!(!v.process(&mut b, 16));
    v.note_off();
    let mut b = block(16, 30000);
    assert!(!v.process(&mut b, 16));
    for _ in 0..6 {
        let mut b = block(16, 30000);
        assert!(!v.process(&mut b, 16));
    }
    let mut b = block(16, 30000);
    assert!(v.process(&mut b, 16));
}

#[test]
fn held_voice_never_ends() {
    let mut v = VoiceSg::new(60, 100, 0, 0, 127, 127, &sg_prm(2, 2));
    v.start_sound();
    for _ in 0..20 {
        let mut b = block(64, 0);
        assert!(!v.process(&mut b, 64));
    }
}

#[test]
fn slide_retunes_in_place() {
    let mut v = VoiceSgf::new(60, 100, 5, 10, 127, 127, &sgf_prm(4, 4));
    v.start_sound();
    v.note_off();
    let mut b = block(16, 0);
    v.process(&mut b, 16);
    v.slide(64, 90);
    assert_eq!(v.note_num(), 64);
    assert_eq!(v.velocity(), 90);
    assert_eq!(v.status(), NoteStatus::DuringNoteOn);
    assert_eq!(v.damp_counter(), 0);
    assert_eq!(v.vocal().note, 64);
    assert_eq!(v.vocal().pitch, 10);
    assert_eq!(v.vocal().pmd, 5);

    let mut s = VoiceSg::new(60, 100, 5, 10, 127, 127, &sg_prm(4, 4));
    s.start_sound();
    s.damp();
    s.slide(67, 80);
    assert_eq!(s.note_num(), 67);
    assert_eq!(s.velocity(), 80);
    assert_eq!(s.status(), NoteStatus::DuringNoteOn);
    assert_eq!(s.oscillator().note, 67);
}

#[test]
fn voices_compare_by_note_and_velocity() {
    let a = VoiceSgf::new(60, 100, 0, 0, 127, 127, &sgf_prm(1, 1));
    let b = VoiceSgf::new(60, 100, 9, 99, 10, 10, &sgf_prm(5, 5));
    let c = VoiceSgf::new(60, 101, 0, 0, 127, 127, &sgf_prm(1, 1));
    assert!(a == b);
    assert!(a != c);
    let x = VoiceSg::new(61, 100, 0, 0, 127, 127, &sg_prm(1, 1));
    let y = VoiceSg::new(61, 100, 3, 3, 3, 3, &sg_prm(2, 2));
    assert!(x == y);
}

#[test]
fn additive_parameters() {
    let mut v = VoiceSg::new(60, 100, 0, 0, 127, 127, &sg_prm(1, 1));
    assert_eq!(v.oscillator(), Additive { note: 60, pitch: 0, pmd: 0, f1: 800, f2: 1200 });
    v.set_prm(2, 0);
    assert_eq!(v.oscillator().f1, 200);
    v.set_prm(2, 128);
    assert_eq!(v.oscillator().f1, 840);
    v.set_prm(3, 128);
    assert_eq!(v.oscillator().f2, 2336);
    v.set_prm(9, 50);
    assert_eq!(v.oscillator().f2, 2336);
    v.change_pmd(77);
    v.pitch(-300);
    assert_eq!(v.oscillator().pmd, 77);
    assert_eq!(v.oscillator().pitch, -300);
}

#[test]
fn formant_voice_starts_on_neutral_vowel() {
    let mut v = VoiceSgf::new(60, 100, 0, 0, 127, 127, &sgf_prm(1, 1));
    assert_eq!(v.filters(), (Biquad::Thru, Biquad::Thru, Biquad::Thru));
    v.start_sound();
    assert_eq!(
        v.filters(),
        (
            Biquad::Thru,
            Biquad::Bpf { center: 800 * 64, q: 3 },
            Biquad::Bpf { center: 1200 * 64, q: 3 }
        )
    );
}

#[test]
fn formant_voice_parameters() {
    let mut v = VoiceSgf::new(60, 100, 0, 0, 127, 127, &sgf_prm(1, 1));
    v.start_sound();
    v.set_prm(0, 100);
    assert_eq!(v.filters().0, Biquad::Lpf { cutoff: 2000 * 64, q: 1 });
    v.set_prm(2, 0);
    assert_eq!(v.filters().1, Biquad::Bpf { center: 300 * 64, q: 3 });
    assert_eq!(v.filters().2, Biquad::Bpf { center: 2300 * 64, q: 3 });
    v.set_prm(2, 64);
    v.set_prm(3, 0);
    assert_eq!(v.filters().1, Biquad::Bpf { center: 500 * 64, q: 3 });
    assert_eq!(v.filters().2, Biquad::Bpf { center: 800 * 64, q: 3 });
    v.set_prm(3, 64);
    assert_eq!(v.filters().1, Biquad::Bpf { center: 800 * 64, q: 3 });
    assert_eq!(v.filters().2, Biquad::Bpf { center: 1200 * 64, q: 3 });
    v.set_prm(1, 20);
    v.set_prm(7, 20);
    assert_eq!(v.filters().1, Biquad::Bpf { center: 800 * 64, q: 3 });
}

#[test]
fn vowel_centre_is_neutral() {
    assert_eq!(vowel_formants(0, 0), (800 * 64, 1200 * 64));
}

#[test]
fn vowel_corners_reach_named_vowels() {
    assert_eq!(vowel_formants(64, 0), (500 * 64, 1900 * 64));
    assert_eq!(vowel_formants(-64, 0), (300 * 64, 2300 * 64));
    assert_eq!(vowel_formants(0, 64), (300 * 64, 1200 * 64));
    assert_eq!(vowel_formants(0, -64), (500 * 64, 800 * 64));
}

#[test]
fn vowel_mapping_is_linear_in_each_quadrant() {
    assert_eq!(vowel_formants(32, 0), (650 * 64, 1550 * 64));
    assert_eq!(vowel_formants(0, 32), (550 * 64, 1200 * 64));
    assert_eq!(vowel_formants(-32, 10), (800 * 64 - 500 * 32, 1200 * 64 + 1100 * 32));
    assert_eq!(vowel_formants(10, -32), (800 * 64 - 300 * 32, 1200 * 64 - 400 * 32));
}

#[test]
fn damp_counter_increments_saturate() {
    let mut v = VoiceSg::new(60, 100, 0, 0, 127, 127, &sg_prm(1, 1));
    v.damp();
    v.add_damp_counter(100);
    assert_eq!(v.damp_counter(), 100);
    v.add_damp_counter(u32::MAX);
    assert_eq!(v.damp_counter(), DAMP_TIME);
    let mut w = VoiceSgf::new(60, 100, 0, 0, 127, 127, &sgf_prm(1, 1));
    w.damp();
    w.inc_damp_counter();
    w.inc_damp_counter();
    assert_eq!(w.damp_counter(), 2);
}

#[test]
fn damped_voice_with_expired_counter_ends() {
    let mut v = VoiceSgf::new(60, 100, 0, 0, 127, 127, &sgf_prm(1, 1));
    v.start_sound();
    v.damp();
    for _ in 0..DAMP_TIME {
        v.inc_damp_counter();
    }
    let mut b = block(4, 1000);
    assert!(v.process(&mut b, 4));
    assert_eq!(b.to_vec(), vec![0; 4]);
}

#[test]
fn voice_lfo_frame_runs_the_modulator() {
    let prm = SgfParameter {
        aeg: AegParameter { attack_time: 1, release_time: 1 },
        lfo: LfoParameter { delta: 16384, depth: 32768, wave: LfoWave::Saw },
    };
    let vals = |f: &CtrlFrame| (0..f.sample_number()).map(|i| f.get_cbuf(i)).collect::<Vec<_>>();
    let mut f = CtrlFrame::new(16);
    let mut v = VoiceSgf::new(60, 100, 0, 0, 127, 127, &prm);
    v.lfo_frame(&mut f, 32);
    assert_eq!(vals(&f), vec![0, 0]);
    v.start_sound();
    v.lfo_frame(&mut f, 48);
    assert_eq!(vals(&f), vec![-32768, -16384, 0]);
    v.lfo_frame(&mut f, 16);
    assert_eq!(vals(&f), vec![16384]);
    v.slide(62, 100);
    v.lfo_frame(&mut f, 16);
    assert_eq!(vals(&f), vec![-32768]);

    let mut s = VoiceSg::new(60, 100, 0, 0, 127, 127, &sg_prm(1, 1));
    s.set_prm(1, 2);
    s.set_prm(0, 0);
    s.start_sound();
    s.lfo_frame(&mut f, 32);
    assert_eq!(vals(&f), vec![1000, 1000]);
}

#[test]
fn ended_voice_ignores_block_length() {
    let mut v = VoiceSg::new(60, 100, 0, 0, 127, 127, &sg_prm(1, 1));
    v.damp();
    let mut b = block(DAMP_TIME as usize, 1000);
    assert!(v.process(&mut b, DAMP_TIME as usize));
    let mut b = AudioFrame::from_vec(vec![1, 2, 3]);
    assert!(v.process(&mut b, 5000));
    assert_eq!(b.to_vec(), vec![1, 2, 3]);
}

#[test]
fn retrigger_drops_to_attack_line() {
    let mut v = VoiceSgf::new(60, 100, 0, 0, 127, 127, &sgf_prm(4, 4));
    v.start_sound();
    let mut b = block(64, 32768);
    v.process(&mut b, 64);
    assert_eq!(b.get_abuf(63), 32258);
    v.slide(62, 100);
    let mut b = block(64, 32768);
    v.process(&mut b, 64);
    assert_eq!(b.get_abuf(0), 8064);
    assert_eq!(b.get_abuf(63), 32258);
}

#[test]
fn formant_voice_ignores_unknown_index_any_value() {
    let mut v = VoiceSgf::new(60, 100, 0, 0, 127, 127, &sgf_prm(1, 1));
    v.start_sound();
    v.set_prm(9, 255);
    v.set_prm(1, 200);
    assert_eq!(v.filters().1, Biquad::Bpf { center: 800 * 64, q: 3 });
    v.set_prm(0, 200);
    assert_eq!(v.filters().0, Biquad::Lpf { cutoff: 4000 * 64, q: 1 });
}

use msgf::aeg::{AegParameter, EgState};
use msgf::frame::{AudioFrame, CtrlFrame};
use msgf::lfo::{LfoParameter, LfoWave};
use msgf::sgf_voice::SgfParameter;
use msgf::synth::Synth;
use msgf::va_inst::{InstVa, ToneParameter, calc_pan, calc_pitch};
use msgf::voice::NoteStatus;

fn tone(depth: u8, attack: u32, release: u32) -> ToneParameter {
    ToneParameter {
        lfo_depth: depth,
        voice: SgfParameter {
            aeg: AegParameter { attack_time: attack, release_time: release },
            lfo: LfoParameter { delta: 64, depth: 2000, wave: LfoWave::Triangle },
        },
    }
}

fn tones() -> Vec<ToneParameter> {
    vec![tone(10, 1, 1), tone(20, 2, 2), tone(30, 3, 3)]
}

fn frames(count: usize, n: usize, v: i32) -> Vec<AudioFrame> {
    (0..count).map(|_| AudioFrame::from_vec(vec![v; n])).collect()
}

fn notes(inst: &InstVa) -> Vec<u8> {
    (0..inst.voice_count()).map(|i| inst.voice(i).note_num()).collect()
}

#[test]
fn program_number_is_clamped() {
    let inst = InstVa::new(tones(), 9, 100, 64, 127);
    assert_eq!(inst.inst_number(), 2);
    assert_eq!(inst.modulation_depth(), 30);
    let mut inst = InstVa::new(tones(), 1, 100, 64, 127);
    assert_eq!(inst.inst_number(), 1);
    assert_eq!(inst.modulation_depth(), 20);
    inst.pitch(100, 65, 64);
    inst.change_inst(7, 90, 127, 80);
    assert_eq!(inst.inst_number(), 2);
    assert_eq!(inst.modulation_depth(), 30);
    assert_eq!(inst.pitch_offset(), 0);
    assert_eq!(inst.volume_value(), 90);
    assert_eq!(inst.pan_position(), 128);
    assert_eq!(inst.expression_value(), 80);
    inst.change_inst(0, 90, 3, 80);
    assert_eq!(inst.inst_number(), 0);
    assert_eq!(inst.pan_position(), 3);
}

#[test]
fn pan_127_counts_as_full_right() {
    assert_eq!(calc_pan(0), 0);
    assert_eq!(calc_pan(64), 64);
    assert_eq!(calc_pan(126), 126);
    assert_eq!(calc_pan(127), 128);
}

#[test]
fn pitch_offset_from_bend_and_tune() {
    assert_eq!(calc_pitch(0, 64, 64), 0);
    assert_eq!(calc_pitch(8192, 64, 64), 200 * 1024);
    assert_eq!(calc_pitch(-8192, 64, 64), -200 * 1024);
    assert_eq!(calc_pitch(0, 65, 64), 100 * 1024);
    assert_eq!(calc_pitch(0, 64, 0), -100 * 1024);
    assert_eq!(calc_pitch(4096, 62, 96), 100 * 1024 - 200 * 1024 + 50 * 1024);
}

#[test]
fn note_on_appends_started_voices() {
    let mut inst = InstVa::new(tones(), 0, 100, 64, 120);
    inst.pitch(0, 65, 64);
    inst.note_on(60, 100);
    inst.note_on(64, 90);
    assert_eq!(notes(&inst), vec![60, 64]);
    let v = inst.voice(1);
    assert_eq!(v.velocity(), 90);
    assert_eq!(v.status(), NoteStatus::DuringNoteOn);
    assert_eq!(v.max_note_vol(), 100 * 120);
    assert_eq!(v.vocal().pitch, 100 * 1024);
    assert_eq!(v.vocal().pmd, 10);
}

#[test]
fn note_off_releases_first_held_match() {
    let mut inst = InstVa::new(tones(), 0, 100, 64, 127);
    inst.note_on(60, 100);
    inst.note_on(62, 100);
    inst.note_on(60, 80);
    inst.note_off(60, 0);
    assert_eq!(inst.voice(0).status(), NoteStatus::AfterNoteOff);
    assert_eq!(inst.voice(1).status(), NoteStatus::DuringNoteOn);
    assert_eq!(inst.voice(2).status(), NoteStatus::DuringNoteOn);
    inst.note_off(60, 0);
    assert_eq!(inst.voice(2).status(), NoteStatus::AfterNoteOff);
    inst.note_off(60, 0);
    inst.note_off(99, 0);
    assert_eq!(inst.voice(1).status(), NoteStatus::DuringNoteOn);
    assert_eq!(inst.voice_count(), 3);
}

#[test]
fn search_note_finds_first_match() {
    let mut inst = InstVa::new(tones(), 0, 100, 64, 127);
    inst.note_on(60, 100);
    inst.note_on(62, 100);
    inst.note_on(62, 50);
    assert_eq!(inst.search_note(62, NoteStatus::DuringNoteOn), Some(1));
    assert_eq!(inst.search_note(62, NoteStatus::AfterNoteOff), None);
    assert_eq!(inst.search_note(70, NoteStatus::DuringNoteOn), None);
}

#[test]
fn controllers_reach_every_voice() {
    let mut inst = InstVa::new(tones(), 0, 100, 64, 127);
    inst.note_on(60, 100);
    inst.note_on(62, 100);
    inst.volume(50);
    assert_eq!(inst.voice(0).max_note_vol(), 50 * 127);
    assert_eq!(inst.voice(1).max_note_vol(), 50 * 127);
    inst.expression(10);
    assert_eq!(inst.voice(1).max_note_vol(), 50 * 10);
    inst.modulation(99);
    assert_eq!(inst.modulation_depth(), 99);
    assert_eq!(inst.voice(0).vocal().pmd, 99);
    inst.pitch(-8192, 64, 64);
    assert_eq!(inst.voice(1).vocal().pitch, -200 * 1024);
    inst.sustain(127);
    inst.pan(10);
    assert_eq!(inst.pan_position(), 10);
    inst.all_sound_off();
    assert_eq!(inst.voice(0).status(), NoteStatus::DuringDamp);
    assert_eq!(inst.voice(1).status(), NoteStatus::DuringDamp);
}

#[test]
fn process_keeps_only_voices_that_did_not_end() {
    let mut inst = InstVa::new(tones(), 0, 127, 64, 127);
    inst.note_on(60, 100);
    inst.note_on(62, 100);
    inst.note_on(64, 100);
    inst.note_on(65, 100);
    inst.note_off(62, 0);
    inst.note_off(65, 0);
    let mut l = AudioFrame::from_vec(vec![0; 16]);
    let mut r = AudioFrame::from_vec(vec![0; 16]);
    let mut outs = frames(4, 16, 0);
    inst.process(&mut l, &mut r, &mut outs, 16);
    assert_eq!(notes(&inst), vec![60, 64]);
    let mut outs = frames(2, 16, 0);
    inst.process(&mut l, &mut r, &mut outs, 16);
    assert_eq!(notes(&inst), vec![60, 64]);
}

#[test]
fn process_removes_every_ended_voice_in_one_block() {
    let mut inst = InstVa::new(tones(), 0, 127, 64, 127);
    for n in [60u8, 61, 62] {
        inst.note_on(n, 100);
    }
    inst.all_sound_off();
    let mut l = AudioFrame::from_vec(vec![0; 2048]);
    let mut r = AudioFrame::from_vec(vec![0; 2048]);
    let mut outs = frames(3, 2048, 0);
    inst.process(&mut l, &mut r, &mut outs, 2048);
    assert_eq!(inst.voice_count(), 0);
}

#[test]
fn slide_keeps_pool_position() {
    let mut inst = InstVa::new(tones(), 0, 127, 64, 127);
    inst.note_on(60, 100);
    inst.note_on(62, 100);
    inst.note_on(64, 100);
    inst.slide(1, 67, 70);
    assert_eq!(notes(&inst), vec![60, 67, 64]);
    assert_eq!(inst.voice(1).velocity(), 70);
    assert_eq!(inst.voice(1).vocal().note, 67);
    assert_eq!(inst.voice(1).status(), NoteStatus::DuringNoteOn);
}

#[test]
fn release_note_removes_first_equal_voice() {
    let mut inst = InstVa::new(tones(), 0, 127, 64, 127);
    inst.note_on(60, 100);
    inst.note_on(62, 100);
    inst.note_on(62, 100);
    let key = msgf::sgf_voice::VoiceSgf::new(62, 100, 0, 0, 1, 1, &tone(0, 1, 1).voice);
    inst.release_note(&key);
    assert_eq!(notes(&inst), vec![60, 62]);
    let other = msgf::sgf_voice::VoiceSgf::new(62, 99, 0, 0, 1, 1, &tone(0, 1, 1).voice);
    inst.release_note(&other);
    assert_eq!(inst.voice_count(), 2);
}

fn mix_one_voice(pan: u8) -> (Vec<i32>, Vec<i32>, Vec<i32>) {
    let mut inst = InstVa::new(tones(), 0, 127, pan, 127);
    inst.note_on(60, 100);
    let mut l = AudioFrame::from_vec(vec![0; 16]);
    let mut r = AudioFrame::from_vec(vec![0; 16]);
    let mut outs = frames(1, 16, 32768);
    inst.process(&mut l, &mut r, &mut outs, 16);
    (l.to_vec(), r.to_vec(), outs[0].to_vec())
}

#[test]
fn pan_zero_is_full_left() {
    let (l, r, v) = mix_one_voice(0);
    assert_eq!(v, vec![32258; 16]);
    assert_eq!(l, vec![32258; 16]);
    assert_eq!(r, vec![0; 16]);
}

#[test]
fn pan_127_is_full_right() {
    let (l, r, _) = mix_one_voice(127);
    assert_eq!(l, vec![0; 16]);
    assert_eq!(r, vec![32258; 16]);
}

#[test]
fn pan_centre_is_even() {
    let (l, r, _) = mix_one_voice(64);
    assert_eq!(l, vec![16129; 16]);
    assert_eq!(l, r);
}

#[test]
fn mix_adds_voices_into_existing_output() {
    let mut inst = InstVa::new(tones(), 0, 127, 0, 127);
    inst.note_on(60, 100);
    inst.note_on(62, 100);
    let mut l = AudioFrame::from_vec(vec![5; 16]);
    let mut r = AudioFrame::from_vec(vec![5; 16]);
    let mut outs = vec![AudioFrame::from_vec(vec![16384; 16]), AudioFrame::from_vec(vec![-32768; 16])];
    inst.process(&mut l, &mut r, &mut outs, 16);
    assert_eq!(l.to_vec(), vec![5 + 16129 - 32258; 16]);
    assert_eq!(r.to_vec(), vec![5; 16]);
}

#[test]
fn synth_envelope_and_margin() {
    let mut s = Synth::new(69);
    assert_eq!(s.note(), 69);
    assert_eq!(s.eg_state(), EgState::NotYet);
    let mut b = AudioFrame::from_vec(vec![32768; 32]);
    s.process(&mut b);
    assert_eq!(b.to_vec(), vec![0; 32]);
    s.move_to_attack();
    let mut b = AudioFrame::from_vec(vec![32768; 16 * 300]);
    s.process(&mut b);
    assert!(b.get_abuf(0) > 0);
    assert_eq!(b.get_abuf(16 * 300 - 1), 2048);
    assert_eq!(s.eg_state(), EgState::KeyOnSteady);
    let v = b.to_vec();
    assert!(v.windows(2).all(|w| w[0] <= w[1]));
    s.move_to_release();
    let mut b = AudioFrame::from_vec(vec![32768; 16 * 300]);
    s.process(&mut b);
    assert_eq!(s.eg_state(), EgState::KeyOffSteady);
    assert_eq!(s.eg_level(), 0);
    assert_eq!(b.get_abuf(16 * 300 - 1), 0);
}

#[test]
fn lfo_frames_run_every_voice() {
    let mut inst = InstVa::new(tones(), 0, 127, 64, 127);
    inst.note_on(60, 100);
    inst.note_on(62, 100);
    let mut fs = vec![CtrlFrame::new(0), CtrlFrame::new(0)];
    inst.lfo_frames(&mut fs, 32);
    for f in &fs {
        assert_eq!(f.sample_number(), 2);
        assert_eq!(f.get_cbuf(0), 0);
        assert_eq!(f.get_cbuf(1), 7);
    }
    inst.lfo_frames(&mut fs, 16);
    assert_eq!(fs[1].sample_number(), 1);
    assert_eq!(fs[1].get_cbuf(0), 15);
}

#[test]
fn synth_attack_restarts_from_zero() {
    let mut s = Synth::new(60);
    s.move_to_attack();
    let mut b = AudioFrame::from_vec(vec![32768; 16 * 300]);
    s.process(&mut b);
    assert_eq!(s.eg_level(), 65536);
    s.move_to_attack();
    assert_eq!(s.eg_level(), 65536);
    let mut b = AudioFrame::from_vec(vec![32768; 16]);
    s.process(&mut b);
    assert_eq!(s.eg_state(), EgState::Attack);
    assert_eq!(s.eg_level(), 237);
}

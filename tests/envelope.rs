use msgf::aeg::{Aeg, AegParameter, EgState, EG_UNITY};
use msgf::frame::CtrlFrame;
use msgf::lfo::{Lfo, LfoParameter, LfoWave};

fn levels(c: &CtrlFrame) -> Vec<i32> {
    (0..c.sample_number()).map(|i| c.get_cbuf(i)).collect()
}

#[test]
fn eg_attack_rises_and_settles_on_unity() {
    let mut eg = Aeg::new(AegParameter { attack_time: 4, release_time: 4 });
    assert_eq!(eg.state(), EgState::NotYet);
    eg.move_to_attack();
    assert_eq!(eg.state(), EgState::Attack);
    let mut c = CtrlFrame::new(6);
    eg.process(&mut c);
    assert_eq!(levels(&c), vec![16384, 32768, 49152, 65536, 65536, 65536]);
    assert_eq!(eg.state(), EgState::KeyOnSteady);
    assert_eq!(eg.level(), EG_UNITY);
}

#[test]
fn eg_attack_is_non_decreasing_over_blocks() {
    let mut eg = Aeg::new(AegParameter { attack_time: 10, release_time: 3 });
    eg.move_to_attack();
    let mut prev = eg.level();
    for _ in 0..4 {
        let mut c = CtrlFrame::new(3);
        eg.process(&mut c);
        for v in levels(&c) {
            assert!(v >= prev);
            assert!(v <= EG_UNITY);
            prev = v;
        }
    }
    assert_eq!(eg.state(), EgState::KeyOnSteady);
    assert_eq!(eg.level(), EG_UNITY);
}

#[test]
fn eg_release_falls_and_settles_on_zero() {
    let mut eg = Aeg::new(AegParameter { attack_time: 1, release_time: 4 });
    eg.move_to_attack();
    let mut c = CtrlFrame::new(1);
    eg.process(&mut c);
    assert_eq!(eg.level(), EG_UNITY);
    eg.move_to_release();
    assert_eq!(eg.state(), EgState::Release);
    let mut c = CtrlFrame::new(5);
    eg.process(&mut c);
    assert_eq!(levels(&c), vec![49152, 32768, 16384, 0, 0]);
    assert_eq!(eg.state(), EgState::KeyOffSteady);
    assert_eq!(eg.level(), 0);
}

#[test]
fn eg_release_mid_attack_starts_from_current_level() {
    let mut eg = Aeg::new(AegParameter { attack_time: 4, release_time: 2 });
    eg.move_to_attack();
    let mut c = CtrlFrame::new(2);
    eg.process(&mut c);
    assert_eq!(eg.level(), 32768);
    eg.move_to_release();
    let mut c = CtrlFrame::new(2);
    eg.process(&mut c);
    assert_eq!(levels(&c), vec![16384, 0]);
    assert_eq!(eg.state(), EgState::KeyOffSteady);
}

#[test]
fn eg_steady_state_holds_level() {
    let mut eg = Aeg::new(AegParameter { attack_time: 2, release_time: 2 });
    let mut c = CtrlFrame::new(3);
    eg.process(&mut c);
    assert_eq!(levels(&c), vec![0, 0, 0]);
    assert_eq!(eg.state(), EgState::NotYet);
}

#[test]
fn lfo_not_started_gives_zero() {
    let mut lfo = Lfo::new(LfoParameter { delta: 4096, depth: 32768, wave: LfoWave::Triangle });
    let mut c = CtrlFrame::new(3);
    lfo.process(&mut c);
    assert_eq!(levels(&c), vec![0, 0, 0]);
}

#[test]
fn lfo_triangle_values() {
    let mut lfo = Lfo::new(LfoParameter { delta: 8192, depth: 32768, wave: LfoWave::Triangle });
    lfo.start();
    let mut c = CtrlFrame::new(9);
    lfo.process(&mut c);
    assert_eq!(
        levels(&c),
        vec![0, 16384, 32768, 16384, 0, -16384, -32768, -16384, 0]
    );
}

#[test]
fn lfo_depth_and_wave_change() {
    let mut lfo = Lfo::new(LfoParameter { delta: 16384, depth: 16384, wave: LfoWave::Triangle });
    lfo.set_wave(2);
    lfo.set_wave(9);
    lfo.start();
    let mut c = CtrlFrame::new(4);
    lfo.process(&mut c);
    assert_eq!(levels(&c), vec![16384, 16384, -16384, -16384]);
    lfo.set_wave(1);
    lfo.set_freq(0);
    lfo.start();
    let mut c = CtrlFrame::new(2);
    lfo.process(&mut c);
    assert_eq!(levels(&c), vec![-16384, -16380]);
}

#[test]
fn eg_new_and_attack_from_full_level() {
    let mut eg = Aeg::new(AegParameter { attack_time: 4, release_time: 4 });
    assert_eq!(eg.level(), 0);
    eg.move_to_attack();
    let mut c = CtrlFrame::new(4);
    eg.process(&mut c);
    assert_eq!(eg.level(), EG_UNITY);
    eg.move_to_attack();
    assert_eq!(eg.level(), EG_UNITY);
    let mut c = CtrlFrame::new(5);
    eg.process(&mut c);
    assert_eq!(levels(&c), vec![16384, 32768, 49152, 65536, 65536]);
    assert_eq!(eg.state(), EgState::KeyOnSteady);
}

use msgf::frame::{get_cbuf_size, scale_sample, add_saturating, AudioFrame, CtrlFrame, CTRL_DECIMATION};

#[test]
fn cbuf_size_rounds_up() {
    assert_eq!(get_cbuf_size(0), 0);
    assert_eq!(get_cbuf_size(1), 1);
    assert_eq!(get_cbuf_size(CTRL_DECIMATION), 1);
    assert_eq!(get_cbuf_size(CTRL_DECIMATION + 1), 2);
    assert_eq!(get_cbuf_size(128), 8);
}

#[test]
fn scale_rounds_toward_zero() {
    assert_eq!(scale_sample(100, 1, 3), 33);
    assert_eq!(scale_sample(-100, 1, 3), -33);
    assert_eq!(scale_sample(i32::MIN, 1, 2), -1073741824);
    assert_eq!(scale_sample(12345, 0, 7), 0);
    assert_eq!(scale_sample(12345, 7, 7), 12345);
}

#[test]
fn add_saturates() {
    assert_eq!(add_saturating(i32::MAX, 1), i32::MAX);
    assert_eq!(add_saturating(i32::MIN, -1), i32::MIN);
    assert_eq!(add_saturating(5, -7), -2);
}

#[test]
fn new_frame_is_silent() {
    let f = AudioFrame::new(4, 8);
    assert_eq!(f.sample_number(), 4);
    assert_eq!(f.to_vec(), vec![0, 0, 0, 0]);
}

#[test]
fn mul_rate_scales_one_sample() {
    let mut f = AudioFrame::from_vec(vec![1000, -1000, 7]);
    f.mul_rate(1, 1, 4);
    assert_eq!(f.to_vec(), vec![1000, -250, 7]);
}

#[test]
fn mul_and_mix_adds_scaled() {
    let mut dst = AudioFrame::from_vec(vec![10, 20, i32::MAX]);
    let src = AudioFrame::from_vec(vec![128, -256, 1000]);
    dst.mul_and_mix(&src, 64, 128);
    assert_eq!(dst.to_vec(), vec![74, -108, i32::MAX]);
}

#[test]
fn ctrl_for_audio_maps_blocks() {
    let mut c = CtrlFrame::new(3);
    c.set_cbuf(0, 5);
    c.set_cbuf(1, 6);
    c.set_cbuf(2, 7);
    assert_eq!(c.ctrl_for_audio(0), 5);
    assert_eq!(c.ctrl_for_audio(CTRL_DECIMATION - 1), 5);
    assert_eq!(c.ctrl_for_audio(CTRL_DECIMATION), 6);
    assert_eq!(c.ctrl_for_audio(2 * CTRL_DECIMATION + 3), 7);
    assert_eq!(c.sample_number(), 3);
    assert_eq!(c.get_cbuf(2), 7);
}

#[test]
fn ctrl_frame_resize_keeps_prefix() {
    let mut c = CtrlFrame::new(4);
    c.set_cbuf(0, 9);
    c.set_cbuf(1, 8);
    c.resize(2);
    assert_eq!(c.sample_number(), 2);
    assert_eq!(c.get_cbuf(1), 8);
    c.resize(5);
    assert_eq!(c.sample_number(), 5);
    assert_eq!(c.get_cbuf(0), 9);
    assert_eq!(c.get_cbuf(4), 0);
}

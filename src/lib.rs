//! Polyphonic voice engine for a singing-voice sound generator.
//!
//! Everything runs in fixed point: an audio sample of `frame::FULL_SCALE`
//! stands for 1.0 and an envelope level of `aeg::EG_UNITY` for a gain of 1.0.
//!
//! - `frame`: audio-rate and control-rate sample blocks and their mixing.
//! - `aeg`: the envelope generator's state machine.
//! - `lfo`: the low-frequency modulator.
//! - `voice`: what every voice shares: lifecycle, gain, damping and the level
//!   check that ends a silent voice.
//! - `sg_voice`, `sgf_voice`: the additive and the formant voice variants.
//! - `va_inst`: the voice pool of one instrument.
//! - `synth`: a single-note synth on the same envelope.
//!
//! The oscillators and filters themselves are rendered by the caller: a voice
//! hands out its modulator frame and its oscillator and filter settings, and
//! shapes the block that comes back.

pub mod frame;
pub mod aeg;
pub mod lfo;
pub mod voice;
pub mod sg_voice;
pub mod sgf_voice;
pub mod va_inst;
pub mod synth;

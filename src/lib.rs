//! MIDI Time Code synchronisation engine: a playback-position estimator, the
//! MTC encoders, per-track offset resolution and the per-tick emission rule.

pub mod engine;
pub mod estimator;
pub mod offset;
pub mod timecode;


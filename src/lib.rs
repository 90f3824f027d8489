//! Stage-lighting show control: a colour model, per-fixture DMX encoders, the
//! universe layout, beat-clock decisions, a small algebra of periodic colour
//! effects, and the show state that a fixed-rate control loop drives.
//!
//! Every conceptual [0, 1] quantity is a fixed-point unit value (`units`), a
//! musical position is counted in millionths of a beat (`period`), tempos in
//! thousandths of a BPM and wall-clock times in milliseconds. Values are in
//! range by construction and each encoder is exact on them.

pub mod units;
pub mod dmx;
pub mod color;
pub mod fixture;
pub mod par;
pub mod bar;
pub mod strobe;
pub mod spider;
pub mod beam;
pub mod laser;
pub mod lights;
pub mod time;
pub mod period;
pub mod fx;
pub mod show;

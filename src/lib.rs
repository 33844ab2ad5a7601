//! Integer core of a per-buffer audio dynamics engine: sample-rate geometry of
//! a linear resampler, the layout of a ducking pass, and validation of the
//! buffer lengths handed in by a caller.

pub mod buffer;
pub mod ducking;
pub mod resample;

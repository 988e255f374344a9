//! VoxMorph core library: the sizing arithmetic of the RVC streaming pipeline,
//! the buffer windows it keeps, the timbre library and its file format, and the
//! small state machines around the real-time engine.
//!
//! Audio samples are carried as [`Sample`] values: the IEEE-754 bit pattern of
//! an `f32`. This crate only moves, pads, trims and packs samples; every
//! computation on their numeric value lives with the caller.
use vstd::prelude::*;

pub mod buffers;
pub mod error;
pub mod feature;
pub mod frame;
pub mod infer;
pub mod shape;
pub mod stages;
pub mod sola;
pub mod stream;
pub mod text;
pub mod timbre;
pub mod ui;
pub mod worker;

verus! {

/// The IEEE-754 bit pattern of one `f32` audio sample.
pub type Sample = u32;

/// The bit pattern of `0.0f32`, used wherever audio is padded with silence.
pub const SILENCE: Sample = 0;

} // verus!

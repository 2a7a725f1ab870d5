//! Frame-reassembly and control-mapping core of a speech-enhancement
//! audio processor.
//!
//! The processor sits between an audio host that delivers stereo sample
//! blocks of arbitrary size and an external enhancement engine that works
//! on fixed 20 ms analysis frames and is driven through a typed get/set
//! control protocol.  This crate holds the verified part: the fixed-size
//! frame buffering, the parameter codecs between normalized automation
//! values and the engine's native control domains, and the per-frame
//! noise-suppression arithmetic.  The engine itself is a foreign library;
//! the unverified glue that loads and calls it lives outside this crate
//! and drives the types defined here.
//!
//! Audio samples and normalized parameter values are fractional in the
//! host's world.  Inside this crate they are carried in fixed-point
//! micro-units: one unit is a millionth, so the normalized value `1.0`
//! is `1_000_000` micro-units.  The glue converts at the boundary.

use vstd::prelude::*;

pub mod codec;
pub mod control;
pub mod mumble;
pub mod text;

verus! {

/// Sampling rate the enhancement engine is created with, in Hz.
pub const SAMPLE_RATE: i32 = 48_000;

/// Number of samples in one analysis frame: 20 ms at `SAMPLE_RATE`.
pub const FRAME_SIZE: usize = 960;

/// Micro-units in the normalized value `1.0`.
pub const UNITY: u32 = 1_000_000;

/// Number of automatable parameters exposed to the host.
pub const PARAM_COUNT: i32 = 14;

/// Largest sample magnitude, in micro-units, that the processor accepts:
/// `2000` times full scale, far beyond any signal a host hands over, and
/// small enough that every intermediate product fits its machine integer.
pub const SAMPLE_LIMIT: i64 = 2_000_000_000;

} // verus!

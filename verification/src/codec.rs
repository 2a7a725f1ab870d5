//! Parameter codecs: pure maps between a normalized automation value in
//! `[0, 1]` and each control's native domain.
//!
//! A normalized value is carried in micro-units (`UNITY` micro-units make
//! `1.0`).  Four codec families exist:
//!
//! - boolean: the normalized value snaps at the `0.5` threshold;
//! - decibel: affine between native `[-90, 30]` dB and `[0, 1]`;
//! - percentage: affine between native `[0, 100]` and `[0, 1]`;
//! - linear level: affine between native `[0, 32767]` and `[0, 1]`;
//!   the level exists in an integer-native flavour (truncated to whole
//!   native units) and a fractional-native flavour (carried in micro-units
//!   of the native value, lossless both ways).
//!
//! Native integer domains quantize by truncation toward zero; the
//! round-trip lemmas at the end bound the loss by one native step.
//! Reading a native value back clamps it into its documented domain, so
//! a normalized result is always in `[0, 1]`.
//!
//! Audio-sample scaling also lives here: a sample in micro-units maps to
//! the engine's 16-bit native representation by rounding half away from
//! zero and saturating, and back by truncation.

use vstd::prelude::*;
use vstd::arithmetic::div_mod::lemma_fundamental_div_mod;
use vstd::arithmetic::div_mod::lemma_mod_bound;
use vstd::arithmetic::div_mod::lemma_fundamental_div_mod_converse;
use crate::UNITY;

verus! {

/// Micro-units of the normalized threshold above which a boolean
/// control reads as enabled.
pub const BOOL_THRESHOLD: u32 = 500_000;

/// `x` forced into `[lo, hi]`.
pub open spec fn clamp_int(x: int, lo: int, hi: int) -> int {
    if x < lo {
        lo
    } else if x > hi {
        hi
    } else {
        x
    }
}

// ---------------------------------------------------------------- boolean

/// Normalized micro-units to native boolean: strictly above `0.5` is on.
pub open spec fn spec_decode_bool(x: int) -> bool {
    x > BOOL_THRESHOLD
}

/// Native boolean to normalized micro-units: full scale or zero.
pub open spec fn spec_encode_bool(b: bool) -> int {
    if b {
        UNITY as int
    } else {
        0
    }
}

pub fn decode_bool(x: u32) -> (b: bool)
    requires
        x <= UNITY,
    ensures
        b == spec_decode_bool(x as int),
{
    x > BOOL_THRESHOLD
}

pub fn encode_bool(b: bool) -> (x: u32)
    ensures
        x == spec_encode_bool(b),
        x <= UNITY,
{
    if b {
        UNITY
    } else {
        0
    }
}

// ---------------------------------------------------------------- decibel

/// Normalized micro-units to native decibels: the affine image of
/// `[0, 1]` onto `[-90, 30]`, truncated toward zero.
pub open spec fn spec_unity_to_db(x: int) -> int {
    if 120 * x >= 90_000_000 {
        (120 * x - 90_000_000) / 1_000_000
    } else {
        -((90_000_000 - 120 * x) / 1_000_000)
    }
}

/// Native decibels to normalized micro-units; the native value is
/// clamped into its documented `[-90, 30]` domain first.
pub open spec fn spec_db_to_unity(d: int) -> int {
    ((clamp_int(d, -90, 30) + 90) * 1_000_000) / 120
}

#[allow(non_snake_case)]
pub fn unity_to_dB(x: u32) -> (d: i32)
    requires
        x <= UNITY,
    ensures
        d == spec_unity_to_db(x as int),
        -90 <= d <= 30,
{
    let t: u64 = (x as u64) * 120;
    if t >= 90_000_000 {
        ((t - 90_000_000) / 1_000_000) as i32
    } else {
        -(((90_000_000 - t) / 1_000_000) as i32)
    }
}

#[allow(non_snake_case)]
pub fn dB_to_unity(d: i32) -> (x: u32)
    ensures
        x == spec_db_to_unity(d as int),
        x <= UNITY,
{
    let c: i32 = if d < -90 {
        -90
    } else if d > 30 {
        30
    } else {
        d
    };
    ((((c + 90) as u64) * 1_000_000 / 120)) as u32
}

// ------------------------------------------------------------- percentage

/// Normalized micro-units to a native percentage point count.
pub open spec fn spec_unity_to_percent(x: int) -> int {
    x / 10_000
}

/// Native percentage to normalized micro-units, the native value
/// clamped into `[0, 100]`.
pub open spec fn spec_percent_to_unity(p: int) -> int {
    clamp_int(p, 0, 100) * 10_000
}

pub fn unity_to_percent(x: u32) -> (p: i32)
    requires
        x <= UNITY,
    ensures
        p == spec_unity_to_percent(x as int),
        0 <= p <= 100,
{
    (x / 10_000) as i32
}

pub fn percent_to_unity(p: i32) -> (x: u32)
    ensures
        x == spec_percent_to_unity(p as int),
        x <= UNITY,
{
    let c: i32 = if p < 0 {
        0
    } else if p > 100 {
        100
    } else {
        p
    };
    (c as u32) * 10_000
}

// --------------------------------------------------- linear level, integer

/// Normalized micro-units to a whole native level unit in `[0, 32767]`.
pub open spec fn spec_unity_to_level(x: int) -> int {
    (x * 32767) / 1_000_000
}

/// Whole native level units to normalized micro-units, the native value
/// clamped into `[0, 32767]`.
pub open spec fn spec_level_to_unity(v: int) -> int {
    (clamp_int(v, 0, 32767) * 1_000_000) / 32767
}

pub fn unity_to_level(x: u32) -> (v: i32)
    requires
        x <= UNITY,
    ensures
        v == spec_unity_to_level(x as int),
        0 <= v <= 32767,
{
    (((x as u64) * 32767 / 1_000_000)) as i32
}

pub fn level_to_unity(v: i32) -> (x: u32)
    ensures
        x == spec_level_to_unity(v as int),
        x <= UNITY,
{
    let c: i32 = if v < 0 {
        0
    } else if v > 32767 {
        32767
    } else {
        v
    };
    (((c as u64) * 1_000_000 / 32767)) as u32
}

// ------------------------------------------------ linear level, fractional

/// Normalized micro-units to a fractional native level carried in
/// micro-units of the native value.  Lossless.
pub open spec fn spec_unity_to_level_micros(x: int) -> int {
    x * 32767
}

/// Fractional native level (micro-units) back to normalized micro-units,
/// the native value clamped into `[0, 32767]`.
pub open spec fn spec_level_micros_to_unity(m: int) -> int {
    clamp_int(m, 0, 32_767_000_000) / 32767
}

pub fn unity_to_level_micros(x: u32) -> (m: i64)
    requires
        x <= UNITY,
    ensures
        m == spec_unity_to_level_micros(x as int),
        0 <= m <= 32_767_000_000,
{
    (x as i64) * 32767
}

pub fn level_micros_to_unity(m: i64) -> (x: u32)
    ensures
        x == spec_level_micros_to_unity(m as int),
        x <= UNITY,
{
    let c: i64 = if m < 0 {
        0
    } else if m > 32_767_000_000 {
        32_767_000_000
    } else {
        m
    };
    (((c as u64) / 32767)) as u32
}

/// A fractional native value that is already normalized (the dereverb
/// controls pass the normalized value through unchanged) read back into
/// the normalized range.
pub fn clamp_to_unity(m: i64) -> (x: u32)
    ensures
        x == clamp_int(m as int, 0, UNITY as int),
        x <= UNITY,
{
    if m < 0 {
        0
    } else if m > UNITY as i64 {
        UNITY
    } else {
        m as u32
    }
}

// ---------------------------------------------------------- sample scaling

/// A host sample scaled to the engine's 16-bit native representation
/// before saturation: rounded half away from zero.
pub open spec fn spec_scale_round(s: int) -> int {
    if s >= 0 {
        (s * 32767 + 500_000) / 1_000_000
    } else {
        -(((-s) * 32767 + 500_000) / 1_000_000)
    }
}

/// A host sample (micro-units) to a native 16-bit sample: scaled by
/// `32767`, rounded half away from zero, and saturated.
pub open spec fn spec_sample_to_native(s: int) -> int {
    clamp_int(spec_scale_round(s), -32768, 32767)
}

/// A native 16-bit sample back to a host sample in micro-units,
/// truncating toward zero.
pub open spec fn spec_native_to_sample(v: int) -> int {
    if v >= 0 {
        (v * 1_000_000) / 32767
    } else {
        -(((-v) * 1_000_000) / 32767)
    }
}

pub fn sample_to_native(s: i64) -> (v: i16)
    requires
        -crate::SAMPLE_LIMIT <= s <= crate::SAMPLE_LIMIT,
    ensures
        v as int == spec_sample_to_native(s as int),
{
    if s >= 0 {
        let q: u64 = ((s as u64) * 32767 + 500_000) / 1_000_000;
        if q >= 32767 {
            32767
        } else {
            q as i16
        }
    } else {
        let q: u64 = (((-s) as u64) * 32767 + 500_000) / 1_000_000;
        if q >= 32768 {
            -32768
        } else {
            -(q as i16)
        }
    }
}

pub fn native_to_sample(v: i16) -> (s: i64)
    ensures
        s == spec_native_to_sample(v as int),
        -crate::SAMPLE_LIMIT <= s <= crate::SAMPLE_LIMIT,
{
    if v >= 0 {
        (((v as u64) * 1_000_000) / 32767) as i64
    } else {
        let m: u64 = (((-(v as i32)) as u64) * 1_000_000) / 32767;
        -(m as i64)
    }
}

// ------------------------------------------------------- round-trip laws

/// A normalized value decoded to a boolean, re-encoded, and decoded
/// again gives the same boolean: the snap at the `0.5` threshold is
/// idempotent.
pub proof fn lemma_bool_round_trip(x: int)
    requires
        0 <= x <= UNITY,
    ensures
        spec_decode_bool(spec_encode_bool(spec_decode_bool(x))) == spec_decode_bool(x),
{
}

/// Decoding a normalized value to native decibels and encoding the
/// result back recovers the value to within one native decibel step
/// (`UNITY / 120`, so at most `8334` micro-units off).
pub proof fn lemma_db_round_trip(x: int)
    requires
        0 <= x <= UNITY,
    ensures
        -90 <= spec_unity_to_db(x) <= 30,
        x - 8334 <= spec_db_to_unity(spec_unity_to_db(x)) <= x + 8333,
{
    if 120 * x >= 90_000_000 {
        let a = 120 * x - 90_000_000;
        let d = a / 1_000_000;
        lemma_fundamental_div_mod(a, 1_000_000);
        lemma_mod_bound(a, 1_000_000);
        assert(0 <= d <= 30);
        assert(clamp_int(d, -90, 30) == d);
        let b = (d + 90) * 1_000_000;
        lemma_fundamental_div_mod(b, 120);
        lemma_mod_bound(b, 120);
    } else {
        let s = 90_000_000 - 120 * x;
        let q = s / 1_000_000;
        lemma_fundamental_div_mod(s, 1_000_000);
        lemma_mod_bound(s, 1_000_000);
        assert(0 <= q <= 90);
        assert(clamp_int(-q, -90, 30) == -q);
        let b = (90 - q) * 1_000_000;
        lemma_fundamental_div_mod(b, 120);
        lemma_mod_bound(b, 120);
    }
}

/// Decoding a normalized value to a native percentage and encoding it
/// back recovers the value to within one native percentage step
/// (`UNITY / 100 = 10_000` micro-units).
pub proof fn lemma_percent_round_trip(x: int)
    requires
        0 <= x <= UNITY,
    ensures
        0 <= spec_unity_to_percent(x) <= 100,
        x - 9_999 <= spec_percent_to_unity(spec_unity_to_percent(x)) <= x,
{
    lemma_fundamental_div_mod(x, 10_000);
    lemma_mod_bound(x, 10_000);
}

/// Decoding a normalized value to a whole native level unit and
/// encoding it back recovers the value to within one native level step
/// (`UNITY / 32767`, so at most `31` micro-units off).
pub proof fn lemma_level_round_trip(x: int)
    requires
        0 <= x <= UNITY,
    ensures
        0 <= spec_unity_to_level(x) <= 32767,
        x - 31 <= spec_level_to_unity(spec_unity_to_level(x)) <= x,
{
    let a = x * 32767;
    let v = a / 1_000_000;
    lemma_fundamental_div_mod(a, 1_000_000);
    lemma_mod_bound(a, 1_000_000);
    assert(0 <= v <= 32767);
    assert(clamp_int(v, 0, 32767) == v);
    let b = v * 1_000_000;
    lemma_fundamental_div_mod(b, 32767);
    lemma_mod_bound(b, 32767);
}

/// Decoding a normalized value to a fractional native level and
/// encoding it back recovers the value exactly: the fractional-native
/// codec is lossless.
pub proof fn lemma_level_micros_round_trip(x: int)
    requires
        0 <= x <= UNITY,
    ensures
        spec_level_micros_to_unity(spec_unity_to_level_micros(x)) == x,
{
    let m = x * 32767;
    assert(clamp_int(m, 0, 32_767_000_000) == m);
    lemma_fundamental_div_mod_converse(m, 32767, x, 0);
}

} // verus!

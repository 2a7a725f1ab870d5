//! Control channel: the typed vocabulary of the enhancement engine's
//! get/set protocol.
//!
//! Every engine attribute is read through one opcode and written through
//! another; the two enumerations are disjoint by construction (read
//! opcodes are odd, write opcodes are even), which
//! [`lemma_opcode_spaces_disjoint`] proves.  A payload is a boolean, a
//! native integer, or a fractional native value carried in micro-units;
//! booleans travel over the wire as the integer `1` or `0` and read back
//! as "equals one".  The dispatch call itself is a foreign blocking call
//! and is made by the unverified glue; this module fixes what is sent.

use vstd::prelude::*;

verus! {

/// Opcodes that read an engine attribute.
#[allow(non_camel_case_types)]
#[derive(Clone, Copy, Debug, PartialEq, Eq, Structural)]
pub enum GET {
    AGC,
    AGC_DECREMENT,
    AGC_GAIN,
    AGC_INCREMENT,
    AGC_LEVEL,
    AGC_LOUDNESS,
    AGC_MAX_GAIN,
    AGC_TARGET,
    DENOISE,
    DEREVERB,
    DEREVERB_DECAY,
    DEREVERB_LEVEL,
    ECHO_STATE,
    ECHO_SUPPRESS,
    ECHO_SUPPRESS_ACTIVE,
    NOISE_PSD,
    NOISE_PSD_SIZE,
    NOISE_SUPPRESS,
    PROB,
    PROB_CONTINUE,
    PROB_START,
    PSD,
    PSD_SIZE,
    VAD,
}

/// Opcodes that write an engine attribute.
#[allow(non_camel_case_types)]
#[derive(Clone, Copy, Debug, PartialEq, Eq, Structural)]
pub enum SET {
    AGC,
    AGC_DECREMENT,
    AGC_INCREMENT,
    AGC_LEVEL,
    AGC_MAX_GAIN,
    AGC_TARGET,
    DENOISE,
    DEREVERB,
    DEREVERB_DECAY,
    DEREVERB_LEVEL,
    ECHO_STATE,
    ECHO_SUPPRESS,
    ECHO_SUPPRESS_ACTIVE,
    NOISE_SUPPRESS,
    PROB_CONTINUE,
    PROB_START,
    VAD,
}

impl GET {
    /// The integer the engine's dispatch call expects for this read.
    pub open spec fn spec_opcode(self) -> int {
        match self {
            GET::AGC => 3,
            GET::AGC_DECREMENT => 29,
            GET::AGC_GAIN => 35,
            GET::AGC_INCREMENT => 27,
            GET::AGC_LEVEL => 7,
            GET::AGC_LOUDNESS => 33,
            GET::AGC_MAX_GAIN => 31,
            GET::AGC_TARGET => 47,
            GET::DENOISE => 1,
            GET::DEREVERB => 9,
            GET::DEREVERB_DECAY => 13,
            GET::DEREVERB_LEVEL => 11,
            GET::ECHO_STATE => 25,
            GET::ECHO_SUPPRESS => 21,
            GET::ECHO_SUPPRESS_ACTIVE => 23,
            GET::NOISE_PSD => 43,
            GET::NOISE_PSD_SIZE => 41,
            GET::NOISE_SUPPRESS => 19,
            GET::PROB => 45,
            GET::PROB_CONTINUE => 17,
            GET::PROB_START => 15,
            GET::PSD => 39,
            GET::PSD_SIZE => 37,
            GET::VAD => 5,
        }
    }

    pub fn opcode(self) -> (r: i32)
        ensures
            r == self.spec_opcode(),
    {
        match self {
            GET::AGC => 3,
            GET::AGC_DECREMENT => 29,
            GET::AGC_GAIN => 35,
            GET::AGC_INCREMENT => 27,
            GET::AGC_LEVEL => 7,
            GET::AGC_LOUDNESS => 33,
            GET::AGC_MAX_GAIN => 31,
            GET::AGC_TARGET => 47,
            GET::DENOISE => 1,
            GET::DEREVERB => 9,
            GET::DEREVERB_DECAY => 13,
            GET::DEREVERB_LEVEL => 11,
            GET::ECHO_STATE => 25,
            GET::ECHO_SUPPRESS => 21,
            GET::ECHO_SUPPRESS_ACTIVE => 23,
            GET::NOISE_PSD => 43,
            GET::NOISE_PSD_SIZE => 41,
            GET::NOISE_SUPPRESS => 19,
            GET::PROB => 45,
            GET::PROB_CONTINUE => 17,
            GET::PROB_START => 15,
            GET::PSD => 39,
            GET::PSD_SIZE => 37,
            GET::VAD => 5,
        }
    }
}

impl SET {
    /// The integer the engine's dispatch call expects for this write.
    pub open spec fn spec_opcode(self) -> int {
        match self {
            SET::AGC => 2,
            SET::AGC_DECREMENT => 28,
            SET::AGC_INCREMENT => 26,
            SET::AGC_LEVEL => 6,
            SET::AGC_MAX_GAIN => 30,
            SET::AGC_TARGET => 46,
            SET::DENOISE => 0,
            SET::DEREVERB => 8,
            SET::DEREVERB_DECAY => 12,
            SET::DEREVERB_LEVEL => 10,
            SET::ECHO_STATE => 24,
            SET::ECHO_SUPPRESS => 20,
            SET::ECHO_SUPPRESS_ACTIVE => 22,
            SET::NOISE_SUPPRESS => 18,
            SET::PROB_CONTINUE => 16,
            SET::PROB_START => 14,
            SET::VAD => 4,
        }
    }

    pub fn opcode(self) -> (r: i32)
        ensures
            r == self.spec_opcode(),
    {
        match self {
            SET::AGC => 2,
            SET::AGC_DECREMENT => 28,
            SET::AGC_INCREMENT => 26,
            SET::AGC_LEVEL => 6,
            SET::AGC_MAX_GAIN => 30,
            SET::AGC_TARGET => 46,
            SET::DENOISE => 0,
            SET::DEREVERB => 8,
            SET::DEREVERB_DECAY => 12,
            SET::DEREVERB_LEVEL => 10,
            SET::ECHO_STATE => 24,
            SET::ECHO_SUPPRESS => 20,
            SET::ECHO_SUPPRESS_ACTIVE => 22,
            SET::NOISE_SUPPRESS => 18,
            SET::PROB_CONTINUE => 16,
            SET::PROB_START => 14,
            SET::VAD => 4,
        }
    }
}

/// Every read opcode is odd and every write opcode is even, so the same
/// semantic control always has distinct read and write opcodes and the
/// two enumerations can never collide.
pub proof fn lemma_opcode_spaces_disjoint(g: GET, s: SET)
    ensures
        g.spec_opcode() != s.spec_opcode(),
{
    assert(g.spec_opcode() % 2 == 1);
    assert(s.spec_opcode() % 2 == 0);
}

/// A typed payload travelling over the control channel.  A fractional
/// native value (one the engine holds as a 32-bit float) is carried in
/// micro-units and converted at the foreign boundary.
#[derive(Clone, Copy, Debug, PartialEq, Eq, Structural)]
pub enum ControlValue {
    Bool(bool),
    Int(i32),
    Micros(i64),
}

/// One pending write: which control, and what to send it.
#[derive(Clone, Copy, Debug, PartialEq, Eq, Structural)]
pub struct ControlWrite {
    pub target: SET,
    pub value: ControlValue,
}

/// How a boolean payload travels over the untyped dispatch call.
pub open spec fn spec_bool_to_control(b: bool) -> int {
    if b {
        1
    } else {
        0
    }
}

pub fn bool_to_control(b: bool) -> (r: i32)
    ensures
        r == spec_bool_to_control(b),
{
    if b {
        1
    } else {
        0
    }
}

/// How a boolean reading comes back: the engine answers with an integer,
/// and exactly `1` means enabled.
pub fn control_to_bool(r: i32) -> (b: bool)
    ensures
        b == (r == 1),
{
    r == 1
}

} // verus!

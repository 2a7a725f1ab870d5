//! Processing unit: frame reassembly and the automation-parameter
//! surface.
//!
//! [`Mumble`] owns the two FIFO sample queues that bridge the host's
//! variable-size callbacks to the engine's fixed analysis frame, plus the
//! noise-suppression override.  The enhancement pass itself is a foreign
//! call, so the unit hands a completed native frame out of
//! [`Mumble::add_sample`] and takes the processed frame back through
//! [`Mumble::complete_frame`]; the glue between the two calls reads the
//! engine's AGC gain, writes the value of
//! [`Mumble::noise_suppress_value`] to the engine, and runs the pass.
//! Everything the unit decides — when a frame is complete, how samples
//! quantize, which control each parameter index drives and with what
//! payload — is verified here.

use vstd::prelude::*;
use std::collections::VecDeque;
use crate::FRAME_SIZE;
use crate::PARAM_COUNT;
use crate::SAMPLE_LIMIT;
use crate::UNITY;
use crate::codec::clamp_int;
use crate::codec::clamp_to_unity;
use crate::codec::decode_bool;
use crate::codec::dB_to_unity;
use crate::codec::encode_bool;
use crate::codec::level_micros_to_unity;
use crate::codec::level_to_unity;
use crate::codec::native_to_sample;
use crate::codec::percent_to_unity;
use crate::codec::sample_to_native;
use crate::codec::spec_decode_bool;
use crate::codec::spec_db_to_unity;
use crate::codec::spec_encode_bool;
use crate::codec::spec_level_micros_to_unity;
use crate::codec::spec_level_to_unity;
use crate::codec::spec_native_to_sample;
use crate::codec::spec_percent_to_unity;
use crate::codec::spec_sample_to_native;
use crate::codec::spec_unity_to_db;
use crate::codec::spec_unity_to_level;
use crate::codec::spec_unity_to_level_micros;
use crate::codec::spec_unity_to_percent;
use crate::codec::unity_to_dB;
use crate::codec::unity_to_level;
use crate::codec::unity_to_level_micros;
use crate::codec::unity_to_percent;
use crate::control::ControlValue;
use crate::control::ControlWrite;
use crate::control::GET;
use crate::control::SET;
use crate::text::signed_text;
use crate::text::spec_digits;
use crate::text::spec_signed_digits;
use crate::text::spec_unit_text;
use crate::text::unit_text;
use crate::text::unsigned_text;

verus! {

/// Stereo downmix: the mono analysis sample is the mean of the two
/// channel samples, truncated toward zero.
pub open spec fn spec_downmix(l: int, r: int) -> int {
    if l + r >= 0 {
        (l + r) / 2
    } else {
        -((-(l + r)) / 2)
    }
}

/// The mono sample pushed into the analysis path for one stereo pair.
pub fn downmix(l: i64, r: i64) -> (m: i64)
    requires
        -SAMPLE_LIMIT <= l <= SAMPLE_LIMIT,
        -SAMPLE_LIMIT <= r <= SAMPLE_LIMIT,
    ensures
        m == spec_downmix(l as int, r as int),
        -SAMPLE_LIMIT <= m <= SAMPLE_LIMIT,
{
    let sum: i64 = l + r;
    if sum >= 0 {
        ((sum as u64) / 2) as i64
    } else {
        -((((-sum) as u64) / 2) as i64)
    }
}

/// The processing unit: input and output sample queues (micro-unit
/// samples) and the noise-suppression override, a normalized value that
/// is staged here rather than written to the engine directly.
pub struct Mumble {
    input_buffer: VecDeque<i64>,
    output_buffer: VecDeque<i64>,
    noise_suppression: u32,
}

impl Mumble {
    /// Samples waiting to be gathered into an analysis frame.
    pub closed spec fn in_queue(self) -> Seq<i64> {
        self.input_buffer@
    }

    /// Processed samples waiting for the host to pull them.
    pub closed spec fn out_queue(self) -> Seq<i64> {
        self.output_buffer@
    }

    /// The staged noise-suppression override, in normalized micro-units.
    pub closed spec fn suppression(self) -> u32 {
        self.noise_suppression
    }

    /// Well-formedness: the input queue is always strictly under one
    /// frame (it drains eagerly), its samples are within the accepted
    /// magnitude, and the override is a normalized value.
    pub open spec fn wf(self) -> bool {
        &&& self.in_queue().len() < FRAME_SIZE
        &&& self.suppression() <= UNITY
        &&& forall|i: int|
            0 <= i < self.in_queue().len() ==> -SAMPLE_LIMIT <= #[trigger] self.in_queue()[i]
                <= SAMPLE_LIMIT
    }

    /// A fresh unit: empty queues, override at zero.
    pub fn new() -> (m: Mumble)
        ensures
            m.wf(),
            m.in_queue().len() == 0,
            m.out_queue().len() == 0,
            m.suppression() == 0,
    {
        Mumble {
            input_buffer: VecDeque::with_capacity(100),
            output_buffer: VecDeque::with_capacity(100),
            noise_suppression: 0,
        }
    }

    /// Append one mono sample to the input queue.  When that completes
    /// an analysis frame — exactly every `FRAME_SIZE` pushes — the frame
    /// is drained in order, scaled to native 16-bit samples, and handed
    /// back for one enhancement pass; otherwise nothing else changes.
    /// The output queue is never touched here.
    pub fn add_sample(&mut self, sample: i64) -> (frame: Option<Vec<i16>>)
        requires
            old(self).wf(),
            -SAMPLE_LIMIT <= sample <= SAMPLE_LIMIT,
        ensures
            final(self).wf(),
            final(self).suppression() == old(self).suppression(),
            final(self).out_queue() == old(self).out_queue(),
            old(self).in_queue().len() + 1 < FRAME_SIZE ==> frame is None && final(self).in_queue()
                == old(self).in_queue().push(sample),
            old(self).in_queue().len() + 1 == FRAME_SIZE ==> (match frame {
                Some(f) => {
                    &&& f@.len() == FRAME_SIZE
                    &&& forall|j: int|
                        0 <= j < FRAME_SIZE ==> #[trigger] f@[j] as int == spec_sample_to_native(
                            old(self).in_queue().push(sample)[j] as int,
                        )
                    &&& final(self).in_queue().len() == 0
                },
                None => false,
            }),
    {
        self.input_buffer.push_back(sample);
        if self.input_buffer.len() >= FRAME_SIZE {
            let ghost full: Seq<i64> = self.input_buffer@;
            let mut native: Vec<i16> = Vec::new();
            let mut i: usize = 0;
            while i < FRAME_SIZE
                invariant
                    i <= FRAME_SIZE,
                    full.len() == FRAME_SIZE,
                    full == old(self).in_queue().push(sample),
                    forall|j: int|
                        0 <= j < full.len() ==> -SAMPLE_LIMIT <= #[trigger] full[j] <= SAMPLE_LIMIT,
                    self.input_buffer@ == full.skip(i as int),
                    native@.len() == i,
                    forall|j: int|
                        0 <= j < i ==> #[trigger] native@[j] as int == spec_sample_to_native(
                            full[j] as int,
                        ),
                    self.output_buffer@ == old(self).out_queue(),
                    self.noise_suppression == old(self).suppression(),
                decreases FRAME_SIZE - i,
            {
                let s = match self.input_buffer.pop_front() {
                    Some(s) => s,
                    None => 0,
                };
                proof {
                    assert(full.skip(i as int)[0] == full[i as int]);
                    assert(self.input_buffer@ =~= full.skip(i as int + 1));
                }
                native.push(sample_to_native(s));
                i = i + 1;
            }
            Some(native)
        } else {
            None
        }
    }

    /// Take back the frame the engine processed in place and append its
    /// samples, converted to micro-units in order, to the output queue.
    pub fn complete_frame(&mut self, frame: &Vec<i16>)
        requires
            old(self).wf(),
        ensures
            final(self).wf(),
            final(self).suppression() == old(self).suppression(),
            final(self).in_queue() == old(self).in_queue(),
            final(self).out_queue() == old(self).out_queue() + frame@.map_values(
                |v: i16| spec_native_to_sample(v as int) as i64,
            ),
    {
        let ghost f = |v: i16| spec_native_to_sample(v as int) as i64;
        let mut i: usize = 0;
        while i < frame.len()
            invariant
                i <= frame@.len(),
                self.input_buffer@ == old(self).in_queue(),
                self.noise_suppression == old(self).suppression(),
                self.output_buffer@ == old(self).out_queue() + frame@.take(i as int).map_values(f),
                f == (|v: i16| spec_native_to_sample(v as int) as i64),
            decreases frame@.len() - i,
        {
            self.output_buffer.push_back(native_to_sample(frame[i]));
            proof {
                assert(frame@.take(i as int + 1).map_values(f) =~= frame@.take(
                    i as int,
                ).map_values(f).push(f(frame@[i as int])));
            }
            i = i + 1;
        }
        proof {
            assert(frame@.take(frame@.len() as int) =~= frame@);
        }
    }

    /// Pull the next processed sample for the host.  An empty output
    /// queue — possible until the first frame completes — yields defined
    /// silence, never an error.
    pub fn get_sample(&mut self) -> (s: i64)
        requires
            old(self).wf(),
        ensures
            final(self).wf(),
            final(self).suppression() == old(self).suppression(),
            final(self).in_queue() == old(self).in_queue(),
            old(self).out_queue().len() == 0 ==> s == 0 && final(self).out_queue() == old(
                self,
            ).out_queue(),
            old(self).out_queue().len() > 0 ==> s == old(self).out_queue()[0]
                && final(self).out_queue() == old(self).out_queue().drop_first(),
    {
        let s = match self.output_buffer.pop_front() {
            Some(x) => x,
            None => 0,
        };
        proof {
            if old(self).out_queue().len() > 0 {
                assert(self.output_buffer@ =~= old(self).out_queue().drop_first());
            }
        }
        s
    }

    /// Record one parameter change.  Index `10` (noise suppression) is
    /// staged in the override and reaches the engine only at frame
    /// boundaries; every other valid index decodes the normalized value
    /// through its codec into one control write for the glue to dispatch;
    /// an out-of-range index changes nothing.
    pub fn set_parameter(&mut self, index: i32, value: u32) -> (w: Option<ControlWrite>)
        requires
            old(self).wf(),
            value <= UNITY,
        ensures
            final(self).wf(),
            final(self).in_queue() == old(self).in_queue(),
            final(self).out_queue() == old(self).out_queue(),
            index == 10 ==> final(self).suppression() == value && w is None,
            index != 10 ==> final(self).suppression() == old(self).suppression() && w
                == spec_set_write(index as int, value as int),
    {
        if index == 10 {
            self.noise_suppression = value;
            None
        } else if index == 0 {
            Some(ControlWrite { target: SET::AGC, value: ControlValue::Bool(decode_bool(value)) })
        } else if index == 1 {
            Some(
                ControlWrite {
                    target: SET::AGC_DECREMENT,
                    value: ControlValue::Int(unity_to_dB(value)),
                },
            )
        } else if index == 2 {
            Some(
                ControlWrite {
                    target: SET::AGC_INCREMENT,
                    value: ControlValue::Int(unity_to_dB(value)),
                },
            )
        } else if index == 3 {
            Some(
                ControlWrite {
                    target: SET::AGC_LEVEL,
                    value: ControlValue::Micros(unity_to_level_micros(value)),
                },
            )
        } else if index == 4 {
            Some(
                ControlWrite {
                    target: SET::AGC_MAX_GAIN,
                    value: ControlValue::Int(unity_to_dB(value)),
                },
            )
        } else if index == 5 {
            Some(
                ControlWrite {
                    target: SET::AGC_TARGET,
                    value: ControlValue::Int(unity_to_level(value)),
                },
            )
        } else if index == 6 {
            Some(
                ControlWrite { target: SET::DENOISE, value: ControlValue::Bool(decode_bool(value)) },
            )
        } else if index == 7 {
            Some(
                ControlWrite {
                    target: SET::DEREVERB,
                    value: ControlValue::Bool(decode_bool(value)),
                },
            )
        } else if index == 8 {
            Some(
                ControlWrite {
                    target: SET::DEREVERB_DECAY,
                    value: ControlValue::Micros(value as i64),
                },
            )
        } else if index == 9 {
            Some(
                ControlWrite {
                    target: SET::DEREVERB_LEVEL,
                    value: ControlValue::Micros(value as i64),
                },
            )
        } else if index == 11 {
            Some(
                ControlWrite {
                    target: SET::PROB_CONTINUE,
                    value: ControlValue::Int(unity_to_percent(value)),
                },
            )
        } else if index == 12 {
            Some(
                ControlWrite {
                    target: SET::PROB_START,
                    value: ControlValue::Int(unity_to_percent(value)),
                },
            )
        } else if index == 13 {
            Some(ControlWrite { target: SET::VAD, value: ControlValue::Bool(decode_bool(value)) })
        } else {
            None
        }
    }

    /// The normalized reading of one parameter.  The engine's reply to
    /// the read request of [`read_request`] comes in as `reading`; index
    /// `10` answers from the staged override instead and an out-of-range
    /// index reads as the neutral `0`, in both cases ignoring `reading`.
    pub fn get_parameter(&self, index: i32, reading: ControlValue) -> (v: u32)
        requires
            self.wf(),
            spec_reading_matches(index as int, reading),
        ensures
            v == spec_get_parameter(index as int, reading, self.suppression() as int),
            v <= UNITY,
    {
        if index == 0 || index == 6 || index == 7 || index == 13 {
            match reading {
                ControlValue::Bool(b) => encode_bool(b),
                _ => 0,
            }
        } else if index == 1 || index == 2 || index == 4 {
            match reading {
                ControlValue::Int(d) => dB_to_unity(d),
                _ => 0,
            }
        } else if index == 3 {
            match reading {
                ControlValue::Micros(m) => level_micros_to_unity(m),
                _ => 0,
            }
        } else if index == 5 {
            match reading {
                ControlValue::Int(t) => level_to_unity(t),
                _ => 0,
            }
        } else if index == 8 || index == 9 {
            match reading {
                ControlValue::Micros(m) => clamp_to_unity(m),
                _ => 0,
            }
        } else if index == 10 {
            self.noise_suppression
        } else if index == 11 || index == 12 {
            match reading {
                ControlValue::Int(p) => percent_to_unity(p),
                _ => 0,
            }
        } else {
            0
        }
    }

    /// The display text of one parameter, with its unit suffix: the
    /// boolean words, whole decibels with `dB`, whole native level units,
    /// whole percentage points with `%`, or the plain decimal of a
    /// pass-through value; empty for an out-of-range index.
    pub fn get_parameter_text(&self, index: i32, reading: ControlValue) -> (t: String)
        requires
            self.wf(),
            spec_reading_matches(index as int, reading),
        ensures
            t@ == spec_parameter_text(index as int, reading, self.suppression() as int),
    {
        let v = self.get_parameter(index, reading);
        if index == 0 || index == 6 || index == 7 || index == 13 {
            let t = if decode_bool(v) {
                String::from_str("true")
            } else {
                String::from_str("false")
            };
            t
        } else if index == 1 || index == 2 || index == 4 || index == 10 {
            let mut t = signed_text(unity_to_dB(v));
            t.append("dB");
            t
        } else if index == 3 || index == 5 {
            unsigned_text(unity_to_level(v) as u32)
        } else if index == 8 || index == 9 {
            unit_text(v)
        } else if index == 11 || index == 12 {
            let mut t = unsigned_text(unity_to_percent(v) as u32);
            t.append("%");
            t
        } else {
            String::new()
        }
    }

    /// The fixed identifier of one parameter; empty for an out-of-range
    /// index.
    pub fn get_parameter_name(&self, index: i32) -> (t: String)
        ensures
            t@ == spec_parameter_name(index as int),
    {
        if index == 0 {
            String::from_str("AGC")
        } else if index == 1 {
            String::from_str("AGC_DECREMENT")
        } else if index == 2 {
            String::from_str("AGC_INCREMENT")
        } else if index == 3 {
            String::from_str("AGC_LEVEL")
        } else if index == 4 {
            String::from_str("AGC_MAX_GAIN")
        } else if index == 5 {
            String::from_str("AGC_TARGET")
        } else if index == 6 {
            String::from_str("DENOISE")
        } else if index == 7 {
            String::from_str("DEREVERB")
        } else if index == 8 {
            String::from_str("DEREVERB_DECAY")
        } else if index == 9 {
            String::from_str("DEREVERB_LEVEL")
        } else if index == 10 {
            String::from_str("NOISE_SUPPRESS")
        } else if index == 11 {
            String::from_str("PROB_CONTINUE")
        } else if index == 12 {
            String::from_str("PROB_START")
        } else if index == 13 {
            String::from_str("VAD")
        } else {
            String::new()
        }
    }

    /// Whether the host may automate this index: true exactly for the
    /// exposed parameter list.
    pub fn can_be_automated(&self, index: i32) -> (b: bool)
        ensures
            b == (0 <= index < PARAM_COUNT),
    {
        0 <= index && index < PARAM_COUNT
    }

    /// The native noise-suppression value to write to the engine ahead of
    /// each enhancement pass: the staged override decoded to decibels,
    /// compensated by the engine's current AGC gain.
    pub fn noise_suppress_value(&self, agc_gain: i32) -> (r: i32)
        requires
            self.wf(),
            i32::MIN + 31 <= agc_gain <= i32::MAX - 89,
        ensures
            r == spec_unity_to_db(self.suppression() as int) - agc_gain,
    {
        let d = unity_to_dB(self.noise_suppression);
        d - agc_gain
    }
}

impl Default for Mumble {
    /// The default unit is the fresh one of [`Mumble::new`].
    fn default() -> (m: Mumble)
        ensures
            m.wf(),
            m.in_queue().len() == 0,
            m.out_queue().len() == 0,
            m.suppression() == 0,
    {
        Mumble::new()
    }
}

/// The payload type a parameter index expects from the engine, or
/// `Local` where the index is answered without the engine (the staged
/// override, and any out-of-range index).
#[derive(Clone, Copy, Debug, PartialEq, Eq, Structural)]
pub enum ReadingKind {
    AsBool,
    AsInt,
    AsMicros,
    Local,
}

/// The payload type of the engine reply that answers this index.
pub open spec fn spec_reading_kind(index: int) -> ReadingKind {
    if index == 0 || index == 6 || index == 7 || index == 13 {
        ReadingKind::AsBool
    } else if index == 1 || index == 2 || index == 4 || index == 5 || index == 11 || index == 12 {
        ReadingKind::AsInt
    } else if index == 3 || index == 8 || index == 9 {
        ReadingKind::AsMicros
    } else {
        ReadingKind::Local
    }
}

/// The payload type the engine must be read with before answering a
/// query on this index.
pub fn reading_kind(index: i32) -> (k: ReadingKind)
    ensures
        k == spec_reading_kind(index as int),
{
    if index == 0 || index == 6 || index == 7 || index == 13 {
        ReadingKind::AsBool
    } else if index == 1 || index == 2 || index == 4 || index == 5 || index == 11 || index == 12 {
        ReadingKind::AsInt
    } else if index == 3 || index == 8 || index == 9 {
        ReadingKind::AsMicros
    } else {
        ReadingKind::Local
    }
}

/// Whether the payload type of an engine reply matches what the codec of
/// this index expects.  Indices answered locally never consult the
/// reply, so anything matches.
pub open spec fn spec_reading_matches(index: int, reading: ControlValue) -> bool {
    match spec_reading_kind(index) {
        ReadingKind::AsBool => reading is Bool,
        ReadingKind::AsInt => reading is Int,
        ReadingKind::AsMicros => reading is Micros,
        ReadingKind::Local => true,
    }
}

/// Which engine control answers a read of this parameter index; `None`
/// for the override index and for out-of-range indices, which are
/// answered locally.
pub open spec fn spec_read_request(index: int) -> Option<GET> {
    if index == 0 {
        Some(GET::AGC)
    } else if index == 1 {
        Some(GET::AGC_DECREMENT)
    } else if index == 2 {
        Some(GET::AGC_INCREMENT)
    } else if index == 3 {
        Some(GET::AGC_LEVEL)
    } else if index == 4 {
        Some(GET::AGC_MAX_GAIN)
    } else if index == 5 {
        Some(GET::AGC_TARGET)
    } else if index == 6 {
        Some(GET::DENOISE)
    } else if index == 7 {
        Some(GET::DEREVERB)
    } else if index == 8 {
        Some(GET::DEREVERB_DECAY)
    } else if index == 9 {
        Some(GET::DEREVERB_LEVEL)
    } else if index == 11 {
        Some(GET::PROB_CONTINUE)
    } else if index == 12 {
        Some(GET::PROB_START)
    } else if index == 13 {
        Some(GET::VAD)
    } else {
        None
    }
}

/// The engine control to read before answering a parameter query.
pub fn read_request(index: i32) -> (g: Option<GET>)
    ensures
        g == spec_read_request(index as int),
{
    if index == 0 {
        Some(GET::AGC)
    } else if index == 1 {
        Some(GET::AGC_DECREMENT)
    } else if index == 2 {
        Some(GET::AGC_INCREMENT)
    } else if index == 3 {
        Some(GET::AGC_LEVEL)
    } else if index == 4 {
        Some(GET::AGC_MAX_GAIN)
    } else if index == 5 {
        Some(GET::AGC_TARGET)
    } else if index == 6 {
        Some(GET::DENOISE)
    } else if index == 7 {
        Some(GET::DEREVERB)
    } else if index == 8 {
        Some(GET::DEREVERB_DECAY)
    } else if index == 9 {
        Some(GET::DEREVERB_LEVEL)
    } else if index == 11 {
        Some(GET::PROB_CONTINUE)
    } else if index == 12 {
        Some(GET::PROB_START)
    } else if index == 13 {
        Some(GET::VAD)
    } else {
        None
    }
}

/// The control write produced by a parameter change: which control, and
/// the normalized value decoded through the codec of this index.  `None`
/// for the override index and for out-of-range indices.
pub open spec fn spec_set_write(index: int, value: int) -> Option<ControlWrite> {
    if index == 0 {
        Some(ControlWrite { target: SET::AGC, value: ControlValue::Bool(spec_decode_bool(value)) })
    } else if index == 1 {
        Some(
            ControlWrite {
                target: SET::AGC_DECREMENT,
                value: ControlValue::Int(spec_unity_to_db(value) as i32),
            },
        )
    } else if index == 2 {
        Some(
            ControlWrite {
                target: SET::AGC_INCREMENT,
                value: ControlValue::Int(spec_unity_to_db(value) as i32),
            },
        )
    } else if index == 3 {
        Some(
            ControlWrite {
                target: SET::AGC_LEVEL,
                value: ControlValue::Micros(spec_unity_to_level_micros(value) as i64),
            },
        )
    } else if index == 4 {
        Some(
            ControlWrite {
                target: SET::AGC_MAX_GAIN,
                value: ControlValue::Int(spec_unity_to_db(value) as i32),
            },
        )
    } else if index == 5 {
        Some(
            ControlWrite {
                target: SET::AGC_TARGET,
                value: ControlValue::Int(spec_unity_to_level(value) as i32),
            },
        )
    } else if index == 6 {
        Some(
            ControlWrite {
                target: SET::DENOISE,
                value: ControlValue::Bool(spec_decode_bool(value)),
            },
        )
    } else if index == 7 {
        Some(
            ControlWrite {
                target: SET::DEREVERB,
                value: ControlValue::Bool(spec_decode_bool(value)),
            },
        )
    } else if index == 8 {
        Some(ControlWrite { target: SET::DEREVERB_DECAY, value: ControlValue::Micros(value as i64) })
    } else if index == 9 {
        Some(ControlWrite { target: SET::DEREVERB_LEVEL, value: ControlValue::Micros(value as i64) })
    } else if index == 11 {
        Some(
            ControlWrite {
                target: SET::PROB_CONTINUE,
                value: ControlValue::Int(spec_unity_to_percent(value) as i32),
            },
        )
    } else if index == 12 {
        Some(
            ControlWrite {
                target: SET::PROB_START,
                value: ControlValue::Int(spec_unity_to_percent(value) as i32),
            },
        )
    } else if index == 13 {
        Some(ControlWrite { target: SET::VAD, value: ControlValue::Bool(spec_decode_bool(value)) })
    } else {
        None
    }
}

/// The normalized reading of one parameter: the engine reply encoded
/// through the codec of this index, the staged override for index `10`,
/// and the neutral `0` for an out-of-range index.
pub open spec fn spec_get_parameter(index: int, reading: ControlValue, suppression: int) -> int {
    if index == 0 || index == 6 || index == 7 || index == 13 {
        spec_encode_bool(reading->Bool_0)
    } else if index == 1 || index == 2 || index == 4 {
        spec_db_to_unity(reading->Int_0 as int)
    } else if index == 3 {
        spec_level_micros_to_unity(reading->Micros_0 as int)
    } else if index == 5 {
        spec_level_to_unity(reading->Int_0 as int)
    } else if index == 8 || index == 9 {
        clamp_int(reading->Micros_0 as int, 0, UNITY as int)
    } else if index == 10 {
        suppression
    } else if index == 11 || index == 12 {
        spec_percent_to_unity(reading->Int_0 as int)
    } else {
        0
    }
}

/// The display text of one parameter: its reading pushed back through
/// its codec, rendered with the unit suffix of its native domain.
pub open spec fn spec_parameter_text(index: int, reading: ControlValue, suppression: int) -> Seq<
    char,
> {
    let v = spec_get_parameter(index, reading, suppression);
    if index == 0 || index == 6 || index == 7 || index == 13 {
        if spec_decode_bool(v) {
            "true"@
        } else {
            "false"@
        }
    } else if index == 1 || index == 2 || index == 4 || index == 10 {
        spec_signed_digits(spec_unity_to_db(v)) + "dB"@
    } else if index == 3 || index == 5 {
        spec_digits(spec_unity_to_level(v) as nat)
    } else if index == 8 || index == 9 {
        spec_unit_text(v)
    } else if index == 11 || index == 12 {
        spec_digits(spec_unity_to_percent(v) as nat) + "%"@
    } else {
        Seq::<char>::empty()
    }
}

/// The fixed identifier of one parameter index.
pub open spec fn spec_parameter_name(index: int) -> Seq<char> {
    if index == 0 {
        "AGC"@
    } else if index == 1 {
        "AGC_DECREMENT"@
    } else if index == 2 {
        "AGC_INCREMENT"@
    } else if index == 3 {
        "AGC_LEVEL"@
    } else if index == 4 {
        "AGC_MAX_GAIN"@
    } else if index == 5 {
        "AGC_TARGET"@
    } else if index == 6 {
        "DENOISE"@
    } else if index == 7 {
        "DEREVERB"@
    } else if index == 8 {
        "DEREVERB_DECAY"@
    } else if index == 9 {
        "DEREVERB_LEVEL"@
    } else if index == 10 {
        "NOISE_SUPPRESS"@
    } else if index == 11 {
        "PROB_CONTINUE"@
    } else if index == 12 {
        "PROB_START"@
    } else if index == 13 {
        "VAD"@
    } else {
        Seq::<char>::empty()
    }
}

/// The control writes that configure a freshly created engine: the AGC
/// target and level at `30_000` native units and the maximum AGC gain at
/// `12` dB, in dispatch order.
pub fn startup_writes() -> (ws: Vec<ControlWrite>)
    ensures
        ws@.len() == 3,
        ws@[0] == (ControlWrite { target: SET::AGC_TARGET, value: ControlValue::Int(30_000) }),
        ws@[1] == (ControlWrite {
            target: SET::AGC_LEVEL,
            value: ControlValue::Micros(30_000_000_000),
        }),
        ws@[2] == (ControlWrite { target: SET::AGC_MAX_GAIN, value: ControlValue::Int(12) }),
{
    let mut ws: Vec<ControlWrite> = Vec::new();
    ws.push(ControlWrite { target: SET::AGC_TARGET, value: ControlValue::Int(30_000) });
    ws.push(ControlWrite { target: SET::AGC_LEVEL, value: ControlValue::Micros(30_000_000_000) });
    ws.push(ControlWrite { target: SET::AGC_MAX_GAIN, value: ControlValue::Int(12) });
    ws
}

} // verus!

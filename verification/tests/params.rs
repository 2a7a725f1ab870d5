use mumble::control::bool_to_control;
use mumble::control::control_to_bool;
use mumble::control::ControlValue;
use mumble::control::ControlWrite;
use mumble::control::GET;
use mumble::control::SET;
use mumble::mumble::read_request;
use mumble::mumble::startup_writes;
use mumble::mumble::Mumble;
use mumble::text::padded_text;
use mumble::text::signed_text;
use mumble::text::unit_text;
use mumble::text::unsigned_text;

/// A stand-in engine with a single register per control that echoes back
/// whatever was last written to it.
struct EchoEngine {
    registers: std::collections::HashMap<i32, ControlValue>,
}

impl EchoEngine {
    fn new() -> EchoEngine {
        EchoEngine { registers: std::collections::HashMap::new() }
    }

    fn dispatch_write(&mut self, w: &ControlWrite) {
        // The same semantic control answers reads on opcode + 1.
        self.registers.insert(w.target.opcode() + 1, w.value);
    }

    fn dispatch_read(&self, g: GET) -> ControlValue {
        *self.registers.get(&g.opcode()).expect("control was never written")
    }
}

#[test]
fn agc_boolean_round_trips_through_echo_engine() {
    // set_parameter(0, 1.0) then get_parameter(0) through an engine stub
    // that echoes writes gives back exactly 1.0.
    let mut m = Mumble::new();
    let mut engine = EchoEngine::new();
    let w = m.set_parameter(0, 1_000_000).expect("index 0 must produce a write");
    assert_eq!(w, ControlWrite { target: SET::AGC, value: ControlValue::Bool(true) });
    engine.dispatch_write(&w);

    let g = read_request(0).expect("index 0 reads from the engine");
    assert_eq!(g, GET::AGC);
    let reading = engine.dispatch_read(g);
    assert_eq!(m.get_parameter(0, reading), 1_000_000);
}

#[test]
fn noise_suppression_override_bypasses_engine() {
    // set_parameter(10, 0.5) then get_parameter(10) answers from the
    // override state: no engine write, no engine read, exact value.
    let mut m = Mumble::new();
    assert!(m.set_parameter(10, 500_000).is_none());
    assert!(read_request(10).is_none());
    // The reading argument is ignored for index 10.
    assert_eq!(m.get_parameter(10, ControlValue::Int(-12345)), 500_000);
}

#[test]
fn probability_text_has_percent_suffix() {
    // get_parameter_text(11, value 0.5) ends with '%' and encodes 50.
    let m = Mumble::new();
    let t = m.get_parameter_text(11, ControlValue::Int(50));
    assert_eq!(t, "50%");
    assert!(t.ends_with('%'));
}

#[test]
fn parameter_texts_carry_unit_suffixes() {
    let m = Mumble::new();
    assert_eq!(m.get_parameter_text(0, ControlValue::Bool(true)), "true");
    assert_eq!(m.get_parameter_text(6, ControlValue::Bool(false)), "false");
    assert_eq!(m.get_parameter_text(1, ControlValue::Int(-30)), "-30dB");
    assert_eq!(m.get_parameter_text(4, ControlValue::Int(12)), "12dB");
    assert_eq!(m.get_parameter_text(5, ControlValue::Int(32767)), "32767");
    assert_eq!(m.get_parameter_text(8, ControlValue::Micros(500_000)), "0.500000");
    assert_eq!(m.get_parameter_text(12, ControlValue::Int(100)), "100%");
    assert_eq!(m.get_parameter_text(99, ControlValue::Int(0)), "");
    // The override's text is rendered from the staged value.
    let mut m = m;
    m.set_parameter(10, 500_000);
    assert_eq!(m.get_parameter_text(10, ControlValue::Int(0)), "-30dB");
}

#[test]
fn set_parameter_decodes_through_the_right_codec() {
    let mut m = Mumble::new();
    assert_eq!(
        m.set_parameter(1, 500_000),
        Some(ControlWrite { target: SET::AGC_DECREMENT, value: ControlValue::Int(-30) })
    );
    assert_eq!(
        m.set_parameter(3, 500_000),
        Some(ControlWrite { target: SET::AGC_LEVEL, value: ControlValue::Micros(16_383_500_000) })
    );
    assert_eq!(
        m.set_parameter(5, 1_000_000),
        Some(ControlWrite { target: SET::AGC_TARGET, value: ControlValue::Int(32767) })
    );
    assert_eq!(
        m.set_parameter(8, 250_000),
        Some(ControlWrite { target: SET::DEREVERB_DECAY, value: ControlValue::Micros(250_000) })
    );
    assert_eq!(
        m.set_parameter(11, 500_000),
        Some(ControlWrite { target: SET::PROB_CONTINUE, value: ControlValue::Int(50) })
    );
    assert_eq!(
        m.set_parameter(13, 0),
        Some(ControlWrite { target: SET::VAD, value: ControlValue::Bool(false) })
    );
    // Out-of-range indices produce nothing.
    assert_eq!(m.set_parameter(14, 500_000), None);
    assert_eq!(m.set_parameter(-1, 500_000), None);
}

#[test]
fn fractional_level_echo_recovers_exactly() {
    // The AGC level is fractional-native: a set echoed back by the engine
    // reads the same normalized value again.
    let mut m = Mumble::new();
    let mut engine = EchoEngine::new();
    let w = m.set_parameter(3, 500_000).unwrap();
    engine.dispatch_write(&w);
    let reading = engine.dispatch_read(read_request(3).unwrap());
    assert_eq!(m.get_parameter(3, reading), 500_000);
}

#[test]
fn parameter_names_are_fixed() {
    let m = Mumble::new();
    let names = [
        "AGC",
        "AGC_DECREMENT",
        "AGC_INCREMENT",
        "AGC_LEVEL",
        "AGC_MAX_GAIN",
        "AGC_TARGET",
        "DENOISE",
        "DEREVERB",
        "DEREVERB_DECAY",
        "DEREVERB_LEVEL",
        "NOISE_SUPPRESS",
        "PROB_CONTINUE",
        "PROB_START",
        "VAD",
    ];
    for (i, name) in names.iter().enumerate() {
        assert_eq!(m.get_parameter_name(i as i32), *name);
    }
    assert_eq!(m.get_parameter_name(14), "");
    assert_eq!(m.get_parameter_name(-1), "");
}

#[test]
fn automation_covers_exactly_the_exposed_indices() {
    let m = Mumble::new();
    for i in 0..14 {
        assert!(m.can_be_automated(i));
    }
    assert!(!m.can_be_automated(-1));
    assert!(!m.can_be_automated(14));
}

#[test]
fn read_and_write_opcodes_are_disjoint() {
    // Read opcodes are odd, write opcodes even: the enumerations never
    // collide.
    let gets = [
        GET::AGC,
        GET::AGC_DECREMENT,
        GET::AGC_GAIN,
        GET::AGC_INCREMENT,
        GET::AGC_LEVEL,
        GET::AGC_LOUDNESS,
        GET::AGC_MAX_GAIN,
        GET::AGC_TARGET,
        GET::DENOISE,
        GET::DEREVERB,
        GET::DEREVERB_DECAY,
        GET::DEREVERB_LEVEL,
        GET::ECHO_STATE,
        GET::ECHO_SUPPRESS,
        GET::ECHO_SUPPRESS_ACTIVE,
        GET::NOISE_PSD,
        GET::NOISE_PSD_SIZE,
        GET::NOISE_SUPPRESS,
        GET::PROB,
        GET::PROB_CONTINUE,
        GET::PROB_START,
        GET::PSD,
        GET::PSD_SIZE,
        GET::VAD,
    ];
    let sets = [
        SET::AGC,
        SET::AGC_DECREMENT,
        SET::AGC_INCREMENT,
        SET::AGC_LEVEL,
        SET::AGC_MAX_GAIN,
        SET::AGC_TARGET,
        SET::DENOISE,
        SET::DEREVERB,
        SET::DEREVERB_DECAY,
        SET::DEREVERB_LEVEL,
        SET::ECHO_STATE,
        SET::ECHO_SUPPRESS,
        SET::ECHO_SUPPRESS_ACTIVE,
        SET::NOISE_SUPPRESS,
        SET::PROB_CONTINUE,
        SET::PROB_START,
        SET::VAD,
    ];
    for g in gets.iter() {
        assert_eq!(g.opcode() % 2, 1);
    }
    for s in sets.iter() {
        assert_eq!(s.opcode() % 2, 0);
    }
    assert_eq!(GET::AGC.opcode(), 3);
    assert_eq!(SET::AGC.opcode(), 2);
    assert_eq!(GET::AGC_GAIN.opcode(), 35);
    assert_eq!(SET::NOISE_SUPPRESS.opcode(), 18);
    assert_eq!(GET::AGC_TARGET.opcode(), 47);
}

#[test]
fn boolean_wire_encoding() {
    assert_eq!(bool_to_control(true), 1);
    assert_eq!(bool_to_control(false), 0);
    assert!(control_to_bool(1));
    assert!(!control_to_bool(0));
    assert!(!control_to_bool(2));
}

#[test]
fn startup_writes_configure_the_agc() {
    let ws = startup_writes();
    assert_eq!(ws.len(), 3);
    assert_eq!(ws[0], ControlWrite { target: SET::AGC_TARGET, value: ControlValue::Int(30_000) });
    assert_eq!(
        ws[1],
        ControlWrite { target: SET::AGC_LEVEL, value: ControlValue::Micros(30_000_000_000) }
    );
    assert_eq!(ws[2], ControlWrite { target: SET::AGC_MAX_GAIN, value: ControlValue::Int(12) });
}

#[test]
fn decimal_text_builders() {
    assert_eq!(unsigned_text(0), "0");
    assert_eq!(unsigned_text(12_345), "12345");
    assert_eq!(signed_text(-90), "-90");
    assert_eq!(signed_text(30), "30");
    assert_eq!(padded_text(42, 6), "000042");
    assert_eq!(unit_text(500_000), "0.500000");
    assert_eq!(unit_text(1_000_000), "1.000000");
    assert_eq!(unit_text(0), "0.000000");
}

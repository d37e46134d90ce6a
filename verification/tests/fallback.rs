use neon::Env;
use neon::de::{decode_text, deserialize};
use neon::engine::{BridgeError, Decoded, Shape};
use neon::json::{stringify_value, u64_to_dec};
use neon::scope::{Handle, Host};
use neon::value::{HostNumber, HostValue};

fn num(n: f64) -> HostNumber {
    HostNumber {
        bits: n.to_bits(),
        integral: n.fract() == 0.0,
        sign_positive: n.is_sign_positive(),
        finite: n.is_finite(),
        as_i64: n as i64,
        as_u64: n as u64,
        as_f32_bits: (n as f32).to_bits(),
        text: format!("{}", n).chars().collect(),
    }
}

fn chars(s: &str) -> Vec<char> {
    s.chars().collect()
}

fn text_of(v: Vec<char>) -> String {
    v.into_iter().collect()
}

fn host() -> Host {
    Host {
        env: Env { id: 1 },
        regions: vec![10],
        next_region: 11,
        enters: 1,
        exits: 0,
        pending: None,
        running: true,
    }
}

#[test]
fn record_shape_round_trips_through_text() {
    let mut h = host();
    let value = Handle {
        value: HostValue::Object(vec![(chars("a"), HostValue::Number(num(1.0)))]),
        region: 10,
    };
    let r = deserialize(&mut h, value, &Shape::Record);
    let expected: serde_json::Value = serde_json::from_str("{\"a\":1}").unwrap();
    match r.unwrap() {
        Decoded::Json(v) => assert_eq!(v, expected),
        other => panic!("unexpected: {:?}", other),
    }
    assert!(h.pending.is_none());
}

#[test]
fn array_into_sequence_round_trips() {
    let mut h = host();
    let value = Handle {
        value: HostValue::Array(vec![
            HostValue::Number(num(1.0)),
            HostValue::Number(num(2.0)),
        ]),
        region: 10,
    };
    let r = deserialize(&mut h, value, &Shape::Sequence);
    let expected: serde_json::Value = serde_json::from_str("[1,2]").unwrap();
    match r.unwrap() {
        Decoded::Json(v) => assert_eq!(v, expected),
        other => panic!("unexpected: {:?}", other),
    }
}

#[test]
fn typed_path_bypasses_fallback() {
    let mut h = host();
    let value = Handle { value: HostValue::Number(num(42.0)), region: 10 };
    let r = deserialize(&mut h, value, &Shape::Any);
    assert!(matches!(r, Ok(Decoded::U64(42))));
}

#[test]
fn unserializable_value_surfaces_as_throw() {
    let mut h = host();
    let value = Handle { value: HostValue::Symbol, region: 10 };
    let r = deserialize(&mut h, value, &Shape::Record);
    assert!(matches!(r, Err(BridgeError::Throw)));
    match h.pending {
        Some(HostValue::Text(m)) => assert_eq!(text_of(m), "not a string"),
        other => panic!("unexpected: {:?}", other),
    }
}

#[test]
fn malformed_text_is_a_terminal_decode_error() {
    let r = decode_text(&chars("not json"));
    assert!(matches!(r, Err(BridgeError::Json(_))));
}

#[test]
fn well_formed_text_parses() {
    let r = decode_text(&chars("{\"k\":[true,null]}"));
    let expected: serde_json::Value = serde_json::from_str("{\"k\":[true,null]}").unwrap();
    match r.unwrap() {
        Decoded::Json(v) => assert_eq!(v, expected),
        other => panic!("unexpected: {:?}", other),
    }
}

#[test]
fn stringify_escapes_text() {
    let r = stringify_value(&HostValue::Text(chars("a\"b\\c\nd")));
    assert_eq!(text_of(r.unwrap()), "\"a\\\"b\\\\c\\nd\"");
}

#[test]
fn stringify_control_characters_use_hex_form() {
    let r = stringify_value(&HostValue::Text(chars("\u{1}")));
    assert_eq!(text_of(r.unwrap()), "\"\\u0001\"");
}

#[test]
fn stringify_primitives() {
    assert_eq!(text_of(stringify_value(&HostValue::Null).unwrap()), "null");
    assert_eq!(text_of(stringify_value(&HostValue::Boolean(true)).unwrap()), "true");
    assert_eq!(text_of(stringify_value(&HostValue::Boolean(false)).unwrap()), "false");
    assert_eq!(text_of(stringify_value(&HostValue::Number(num(1.0))).unwrap()), "1");
    assert_eq!(text_of(stringify_value(&HostValue::Number(num(3.5))).unwrap()), "3.5");
    assert_eq!(
        text_of(stringify_value(&HostValue::Number(num(f64::NAN))).unwrap()),
        "null"
    );
    assert!(stringify_value(&HostValue::Undefined).is_none());
    assert!(stringify_value(&HostValue::Symbol).is_none());
    assert!(stringify_value(&HostValue::Function).is_none());
}

#[test]
fn stringify_arrays_put_null_for_holes() {
    let v = HostValue::Array(vec![
        HostValue::Number(num(1.0)),
        HostValue::Undefined,
        HostValue::Text(chars("x")),
    ]);
    assert_eq!(text_of(stringify_value(&v).unwrap()), "[1,null,\"x\"]");
}

#[test]
fn stringify_objects_skip_unserializable_members() {
    let v = HostValue::Object(vec![
        (chars("a"), HostValue::Number(num(1.0))),
        (chars("f"), HostValue::Function),
        (chars("b"), HostValue::Boolean(true)),
    ]);
    assert_eq!(text_of(stringify_value(&v).unwrap()), "{\"a\":1,\"b\":true}");
}

#[test]
fn stringify_buffers() {
    assert_eq!(text_of(stringify_value(&HostValue::ArrayBuffer(vec![1, 2])).unwrap()), "{}");
    assert_eq!(
        text_of(stringify_value(&HostValue::ArrayView(vec![5, 200])).unwrap()),
        "{\"0\":5,\"1\":200}"
    );
}

#[test]
fn decimal_rendering_is_exact() {
    assert_eq!(text_of(u64_to_dec(0)), "0");
    assert_eq!(text_of(u64_to_dec(12345)), "12345");
    assert_eq!(text_of(u64_to_dec(u64::MAX)), format!("{}", u64::MAX));
}

#[test]
fn nested_fallback_document_matches_parser() {
    let mut h = host();
    let value = Handle {
        value: HostValue::Object(vec![
            (chars("xs"), HostValue::Array(vec![HostValue::Boolean(false)])),
            (chars("s"), HostValue::Text(chars("q\"q"))),
        ]),
        region: 10,
    };
    let r = deserialize(&mut h, value, &Shape::Mapping);
    let expected: serde_json::Value =
        serde_json::from_str("{\"xs\":[false],\"s\":\"q\\\"q\"}").unwrap();
    match r.unwrap() {
        Decoded::Json(v) => assert_eq!(v, expected),
        other => panic!("unexpected: {:?}", other),
    }
}

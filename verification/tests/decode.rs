use neon::Env;
use neon::engine::{BridgeError, Decoded, Deserializer, Shape};
use neon::value::{HostNumber, HostValue, Status, TypeTag};

fn num(n: f64) -> HostNumber {
    HostNumber {
        bits: n.to_bits(),
        integral: n.fract() == 0.0,
        sign_positive: n.is_sign_positive(),
        finite: n.is_finite(),
        as_i64: n as i64,
        as_u64: n as u64,
        as_f32_bits: (n as f32).to_bits(),
        text: format!("{}", n).chars().collect(),
    }
}

fn chars(s: &str) -> Vec<char> {
    s.chars().collect()
}

fn env() -> Env {
    Env { id: 7 }
}

#[test]
fn any_integral_nonnegative_is_u64() {
    let v = HostValue::Number(num(42.0));
    let r = Deserializer::new(env(), &v).deserialize_any();
    assert!(matches!(r, Ok(Decoded::U64(42))));
}

#[test]
fn any_integral_negative_is_i64() {
    let v = HostValue::Number(num(-3.0));
    let r = Deserializer::new(env(), &v).deserialize_any();
    assert!(matches!(r, Ok(Decoded::I64(-3))));
}

#[test]
fn any_fractional_stays_double() {
    let v = HostValue::Number(num(3.5));
    let r = Deserializer::new(env(), &v).deserialize_any();
    assert!(matches!(r, Ok(Decoded::F64Bits(b)) if b == 3.5f64.to_bits()));
}

#[test]
fn any_negative_zero_is_unsigned_zero() {
    let v = HostValue::Number(num(-0.0));
    let r = Deserializer::new(env(), &v).deserialize_any();
    assert!(matches!(r, Ok(Decoded::U64(0))));
}

#[test]
fn string_decodes_unchanged() {
    let v = HostValue::Text(chars("hello"));
    let r = Deserializer::new(env(), &v).deserialize_str();
    assert_eq!(r.unwrap(), Decoded::Text(chars("hello")));
    let r = Deserializer::new(env(), &v).deserialize_char();
    assert_eq!(r.unwrap(), Decoded::Text(chars("hello")));
    let r = Deserializer::new(env(), &v).deserialize_identifier();
    assert_eq!(r.unwrap(), Decoded::Text(chars("hello")));
}

#[test]
fn null_into_option_is_empty() {
    let v = HostValue::Null;
    let r = Deserializer::new(env(), &v).deserialize_option(&Shape::Text);
    assert!(matches!(r, Ok(Decoded::Empty)));
    let v = HostValue::Undefined;
    let r = Deserializer::new(env(), &v).deserialize_option(&Shape::U64);
    assert!(matches!(r, Ok(Decoded::Empty)));
}

#[test]
fn present_option_wraps_recursive_decode() {
    let v = HostValue::Text(chars("x"));
    let r = Deserializer::new(env(), &v).deserialize_option(&Shape::Text);
    match r.unwrap() {
        Decoded::Present(inner) => assert_eq!(*inner, Decoded::Text(chars("x"))),
        other => panic!("unexpected: {:?}", other),
    }
}

#[test]
fn null_unit_succeeds_and_primitives_fail() {
    let v = HostValue::Null;
    assert!(matches!(Deserializer::new(env(), &v).deserialize_unit(), Ok(Decoded::Unit)));
    assert!(matches!(
        Deserializer::new(env(), &v).deserialize_unit_struct("s"),
        Ok(Decoded::Unit)
    ));
    assert!(matches!(
        Deserializer::new(env(), &v).deserialize_u64(),
        Err(BridgeError::Status(Status::NumberExpected))
    ));
    assert!(matches!(
        Deserializer::new(env(), &v).deserialize_string(),
        Err(BridgeError::Status(Status::StringExpected))
    ));
    assert!(matches!(
        Deserializer::new(env(), &v).deserialize_bool(),
        Err(BridgeError::Status(Status::BooleanExpected))
    ));
}

#[test]
fn bool_reads_exactly() {
    let v = HostValue::Boolean(true);
    assert!(matches!(Deserializer::new(env(), &v).deserialize_bool(), Ok(Decoded::Bool(true))));
}

#[test]
fn buffers_yield_exact_bytes() {
    let v = HostValue::ArrayBuffer(vec![1, 2, 3]);
    assert_eq!(
        Deserializer::new(env(), &v).deserialize_byte_buf().unwrap(),
        Decoded::Bytes(vec![1, 2, 3])
    );
    let v = HostValue::ArrayView(vec![9, 8]);
    assert_eq!(
        Deserializer::new(env(), &v).deserialize_bytes().unwrap(),
        Decoded::Bytes(vec![9, 8])
    );
}

#[test]
fn byte_buf_on_non_buffer_is_invalid_arg() {
    let v = HostValue::Text(chars("no"));
    assert!(matches!(
        Deserializer::new(env(), &v).deserialize_byte_buf(),
        Err(BridgeError::Status(Status::InvalidArg))
    ));
}

#[test]
fn plain_object_defers_to_fallback() {
    let v = HostValue::Object(vec![(chars("a"), HostValue::Null)]);
    assert!(matches!(
        Deserializer::new(env(), &v).deserialize_any(),
        Err(BridgeError::FallbackJson)
    ));
    let v = HostValue::Array(vec![]);
    assert!(matches!(
        Deserializer::new(env(), &v).deserialize_any(),
        Err(BridgeError::FallbackJson)
    ));
}

#[test]
fn symbol_is_unsupported() {
    let v = HostValue::Symbol;
    assert!(matches!(
        Deserializer::new(env(), &v).deserialize_any(),
        Err(BridgeError::Unsupported(TypeTag::Symbol))
    ));
    let v = HostValue::BigInt;
    assert!(matches!(
        Deserializer::new(env(), &v).deserialize_any(),
        Err(BridgeError::Unsupported(TypeTag::BigInt))
    ));
}

#[test]
fn composite_shapes_always_fall_back() {
    let v = HostValue::Text(chars("s"));
    let d = Deserializer::new(env(), &v);
    assert!(matches!(d.deserialize_seq(), Err(BridgeError::FallbackJson)));
    assert!(matches!(d.deserialize_tuple(2), Err(BridgeError::FallbackJson)));
    assert!(matches!(d.deserialize_tuple_struct("t", 2), Err(BridgeError::FallbackJson)));
    assert!(matches!(d.deserialize_map(), Err(BridgeError::FallbackJson)));
    assert!(matches!(d.deserialize_struct("r"), Err(BridgeError::FallbackJson)));
}

#[test]
fn simple_enum_matches_variant_names() {
    let variants = vec![chars("Red"), chars("Green")];
    let v = HostValue::Text(chars("Green"));
    let r = Deserializer::new(env(), &v).deserialize_enum("Color", &variants);
    assert_eq!(r.unwrap(), Decoded::Variant(chars("Green")));

    let v = HostValue::Text(chars("Blue"));
    let r = Deserializer::new(env(), &v).deserialize_enum("Color", &variants);
    assert!(matches!(r, Err(BridgeError::UnknownVariant(s)) if s == chars("Blue")));

    let v = HostValue::Number(num(1.0));
    let r = Deserializer::new(env(), &v).deserialize_enum("Color", &variants);
    assert!(matches!(r, Err(BridgeError::FallbackJson)));
}

#[test]
fn fixed_width_requests_narrow_saturating() {
    let v = HostValue::Number(num(300.0));
    assert!(matches!(Deserializer::new(env(), &v).deserialize_u8(), Ok(Decoded::U8(255))));
    let v = HostValue::Number(num(-5.0));
    assert!(matches!(Deserializer::new(env(), &v).deserialize_u8(), Ok(Decoded::U8(0))));
    let v = HostValue::Number(num(3.9));
    assert!(matches!(Deserializer::new(env(), &v).deserialize_u8(), Ok(Decoded::U8(3))));
    let v = HostValue::Number(num(-129.0));
    assert!(matches!(Deserializer::new(env(), &v).deserialize_i8(), Ok(Decoded::I8(-128))));
    let v = HostValue::Number(num(70000.0));
    assert!(matches!(Deserializer::new(env(), &v).deserialize_u16(), Ok(Decoded::U16(65535))));
    let v = HostValue::Number(num(12.0));
    assert!(matches!(Deserializer::new(env(), &v).deserialize_i32(), Ok(Decoded::I32(12))));
    let v = HostValue::Number(num(-7.0));
    assert!(matches!(Deserializer::new(env(), &v).deserialize_i64(), Ok(Decoded::I64(-7))));
    let v = HostValue::Number(num(9.0));
    assert!(matches!(Deserializer::new(env(), &v).deserialize_u64(), Ok(Decoded::U64(9))));
}

#[test]
fn float_requests_keep_bit_patterns() {
    let v = HostValue::Number(num(3.5));
    assert!(matches!(
        Deserializer::new(env(), &v).deserialize_f64(),
        Ok(Decoded::F64Bits(b)) if b == 3.5f64.to_bits()
    ));
    assert!(matches!(
        Deserializer::new(env(), &v).deserialize_f32(),
        Ok(Decoded::F32Bits(b)) if b == 3.5f32.to_bits()
    ));
}

#[test]
fn newtype_recurses_transparently() {
    let v = HostValue::Boolean(false);
    let r = Deserializer::new(env(), &v).deserialize_newtype_struct("w", &Shape::Bool);
    match r.unwrap() {
        Decoded::Newtype(inner) => assert_eq!(*inner, Decoded::Bool(false)),
        other => panic!("unexpected: {:?}", other),
    }
}

#[test]
fn ignored_any_always_unit() {
    let v = HostValue::Symbol;
    assert!(matches!(
        Deserializer::new(env(), &v).deserialize_ignored_any(),
        Ok(Decoded::Unit)
    ));
}

#[test]
fn shape_dispatch_matches_direct_calls() {
    let v = HostValue::Number(num(8.0));
    let a = Deserializer::new(env(), &v).deserialize_shape(&Shape::U32);
    assert!(matches!(a, Ok(Decoded::U32(8))));
    let b = Deserializer::new(env(), &v).deserialize_shape(&Shape::Any);
    assert!(matches!(b, Ok(Decoded::U64(8))));
}

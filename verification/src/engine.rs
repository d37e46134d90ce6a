//! The typed value decoder.
//!
//! Given a host value and a statically requested target shape, the engine
//! dispatches on the host's runtime type tag and either produces a native
//! result, or signals that the typed path cannot express the value and the
//! textual fallback must be tried instead. The whole engine is deterministic
//! over the host value model: `decode_spec` states, at the level of the
//! mathematical views, the result of every decode, and each executable
//! method is proved equal to it.

use vstd::prelude::*;

use crate::Env;
use crate::value::{
    HostNumber, HostValue, Status, TypeTag, get_value_arraybuffer, get_value_arrayview,
    get_value_bool, get_value_number, get_value_string, typeof_value,
};

verus! {

/// The statically known target shape of one decode request.
#[derive(PartialEq, Debug)]
pub enum Shape {
    /// A self-describing request: let the host tag pick the native type.
    Any,
    Bool,
    I8,
    I16,
    I32,
    I64,
    U8,
    U16,
    U32,
    U64,
    F32,
    F64,
    Char,
    Str,
    /// An owned text request.
    Text,
    Bytes,
    ByteBuf,
    /// A nullable request wrapping the shape of the present case.
    Opt(Box<Shape>),
    Unit,
    UnitStruct,
    /// A single-field wrapper; the decode recurses transparently.
    NewtypeStruct(Box<Shape>),
    Sequence,
    Tuple,
    TupleStruct,
    Mapping,
    Record,
    /// A non-value-carrying enumeration and its variant names.
    SimpleEnum(Vec<Vec<char>>),
    Identifier,
    IgnoredAny,
}

/// A decoded native value.
#[derive(PartialEq, Debug)]
pub enum Decoded {
    Unit,
    Bool(bool),
    I8(i8),
    I16(i16),
    I32(i32),
    I64(i64),
    U8(u8),
    U16(u16),
    U32(u32),
    U64(u64),
    /// A single-precision result, carried as its bit pattern.
    F32Bits(u32),
    /// A double-precision result, carried as its bit pattern.
    F64Bits(u64),
    Text(Vec<char>),
    Bytes(Vec<u8>),
    /// The empty case of a nullable request.
    Empty,
    /// The present case of a nullable request.
    Present(Box<Decoded>),
    /// A transparently decoded single-field wrapper.
    Newtype(Box<Decoded>),
    /// The matched variant name of a simple enumeration.
    Variant(Vec<char>),
    /// The product of the textual fallback: a parsed structured document.
    Json(serde_json::Value),
}

/// The mathematical view of a decoded native value: text and bytes as
/// sequences, everything else as itself.
pub enum NativeValue {
    Unit,
    Bool(bool),
    I8(i8),
    I16(i16),
    I32(i32),
    I64(i64),
    U8(u8),
    U16(u16),
    U32(u32),
    U64(u64),
    F32Bits(u32),
    F64Bits(u64),
    Text(Seq<char>),
    Bytes(Seq<u8>),
    Empty,
    Present(Box<NativeValue>),
    Newtype(Box<NativeValue>),
    Variant(Seq<char>),
    Json(serde_json::Value),
}

impl Decoded {
    /// The view of this value.
    pub open spec fn model(self) -> NativeValue
        decreases self,
    {
        match self {
            Decoded::Unit => NativeValue::Unit,
            Decoded::Bool(b) => NativeValue::Bool(b),
            Decoded::I8(x) => NativeValue::I8(x),
            Decoded::I16(x) => NativeValue::I16(x),
            Decoded::I32(x) => NativeValue::I32(x),
            Decoded::I64(x) => NativeValue::I64(x),
            Decoded::U8(x) => NativeValue::U8(x),
            Decoded::U16(x) => NativeValue::U16(x),
            Decoded::U32(x) => NativeValue::U32(x),
            Decoded::U64(x) => NativeValue::U64(x),
            Decoded::F32Bits(x) => NativeValue::F32Bits(x),
            Decoded::F64Bits(x) => NativeValue::F64Bits(x),
            Decoded::Text(s) => NativeValue::Text(s@),
            Decoded::Bytes(b) => NativeValue::Bytes(b@),
            Decoded::Empty => NativeValue::Empty,
            Decoded::Present(d) => NativeValue::Present(Box::new((*d).model())),
            Decoded::Newtype(d) => NativeValue::Newtype(Box::new((*d).model())),
            Decoded::Variant(s) => NativeValue::Variant(s@),
            Decoded::Json(v) => NativeValue::Json(v),
        }
    }
}

/// A typed conversion failure.
#[derive(Debug)]
pub enum BridgeError {
    /// A raw binding primitive reported non-success.
    Status(Status),
    /// The host value's runtime tag has no defined conversion.
    Unsupported(TypeTag),
    /// The typed path cannot proceed; the caller must retry textually.
    FallbackJson,
    /// A host string did not name any variant of a simple enumeration.
    UnknownVariant(Vec<char>),
    /// The host runtime raised; the exception is pending in the host.
    Throw,
    /// The textual fallback itself could not decode the serialized form.
    Json(serde_json::Error),
}

/// The mathematical view of a typed conversion failure.
pub enum FaultView {
    Status(Status),
    Unsupported(TypeTag),
    FallbackJson,
    UnknownVariant(Seq<char>),
    Throw,
    Json(serde_json::Error),
}

impl BridgeError {
    /// The view of this failure.
    pub open spec fn model(self) -> FaultView {
        match self {
            BridgeError::Status(s) => FaultView::Status(s),
            BridgeError::Unsupported(t) => FaultView::Unsupported(t),
            BridgeError::FallbackJson => FaultView::FallbackJson,
            BridgeError::UnknownVariant(s) => FaultView::UnknownVariant(s@),
            BridgeError::Throw => FaultView::Throw,
            BridgeError::Json(e) => FaultView::Json(e),
        }
    }
}

/// The view of one decode outcome.
pub open spec fn outcome(r: Result<Decoded, BridgeError>) -> Result<NativeValue, FaultView> {
    match r {
        Ok(d) => Ok(d.model()),
        Err(e) => Err(e.model()),
    }
}

/// The saturating cast of a signed 64-bit integer into `lo ..= hi`.
pub open spec fn clamp(x: i64, lo: i64, hi: i64) -> i64 {
    if x < lo {
        lo
    } else if x > hi {
        hi
    } else {
        x
    }
}

/// Whether a host number is non-negative: its sign bit is clear, or it is
/// the zero that carries a set sign bit, which still compares equal to zero.
pub open spec fn non_negative(n: HostNumber) -> bool {
    n.sign_positive || n.bits == 0x8000000000000000u64
}

/// What the self-describing request yields for one host number: integral,
/// non-negative numbers are preferentially promoted to the unsigned 64-bit
/// type, the remaining integral numbers to the signed one; everything else
/// stays double-precision.
pub open spec fn number_any(n: HostNumber) -> NativeValue {
    if n.integral && non_negative(n) {
        NativeValue::U64(n.as_u64)
    } else if n.integral {
        NativeValue::I64(n.as_i64)
    } else {
        NativeValue::F64Bits(n.bits)
    }
}

/// What the byte-buffer request yields: the exact contents of a growable
/// buffer or of a fixed view, and invalid-argument for every other value.
pub open spec fn byte_buf_spec(v: HostValue) -> Result<NativeValue, FaultView> {
    match v {
        HostValue::ArrayBuffer(b) => Ok(NativeValue::Bytes(b@)),
        HostValue::ArrayView(b) => Ok(NativeValue::Bytes(b@)),
        _ => Err(FaultView::Status(Status::InvalidArg)),
    }
}

/// What the self-describing request yields for one host value.
pub open spec fn decode_any_spec(v: HostValue) -> Result<NativeValue, FaultView> {
    match v {
        HostValue::Undefined => Ok(NativeValue::Unit),
        HostValue::Null => Ok(NativeValue::Unit),
        HostValue::Boolean(b) => Ok(NativeValue::Bool(b)),
        HostValue::Number(n) => Ok(number_any(n)),
        HostValue::Text(s) => Ok(NativeValue::Text(s@)),
        HostValue::ArrayBuffer(b) => Ok(NativeValue::Bytes(b@)),
        HostValue::ArrayView(b) => Ok(NativeValue::Bytes(b@)),
        HostValue::Array(_) => Err(FaultView::FallbackJson),
        HostValue::Object(_) => Err(FaultView::FallbackJson),
        HostValue::Symbol => Err(FaultView::Unsupported(TypeTag::Symbol)),
        HostValue::Function => Err(FaultView::Unsupported(TypeTag::Function)),
        HostValue::External => Err(FaultView::Unsupported(TypeTag::External)),
        HostValue::BigInt => Err(FaultView::Unsupported(TypeTag::BigInt)),
    }
}

/// Whether a variant list holds the given name.
pub open spec fn has_variant(variants: Seq<Vec<char>>, s: Seq<char>) -> bool {
    exists|i: int| 0 <= i < variants.len() && variants[i]@ == s
}

/// What a simple-enumeration request yields: only a host string is
/// representable; the string is matched, case-sensitively, against the
/// variant names. Any other host shape defers to the textual fallback.
pub open spec fn enum_spec(v: HostValue, variants: Seq<Vec<char>>) -> Result<
    NativeValue,
    FaultView,
> {
    match v {
        HostValue::Text(s) => if has_variant(variants, s@) {
            Ok(NativeValue::Variant(s@))
        } else {
            Err(FaultView::UnknownVariant(s@))
        },
        _ => Err(FaultView::FallbackJson),
    }
}

/// What a numeric request of a fixed width yields: the host value is read as
/// a double and narrowed unconditionally, with no bounds validation; an
/// out-of-range number saturates. Every non-number fails the read.
pub open spec fn number_shape_spec(v: HostValue, shape: Shape) -> Result<NativeValue, FaultView> {
    match v {
        HostValue::Number(n) => Ok(
            match shape {
                Shape::I8 => NativeValue::I8(clamp(n.as_i64, -128i64, 127i64) as i8),
                Shape::I16 => NativeValue::I16(clamp(n.as_i64, -32768i64, 32767i64) as i16),
                Shape::I32 => NativeValue::I32(
                    clamp(n.as_i64, -2147483648i64, 2147483647i64) as i32,
                ),
                Shape::I64 => NativeValue::I64(n.as_i64),
                Shape::U8 => NativeValue::U8(clamp(n.as_i64, 0i64, 255i64) as u8),
                Shape::U16 => NativeValue::U16(clamp(n.as_i64, 0i64, 65535i64) as u16),
                Shape::U32 => NativeValue::U32(clamp(n.as_i64, 0i64, 4294967295i64) as u32),
                Shape::U64 => NativeValue::U64(n.as_u64),
                Shape::F32 => NativeValue::F32Bits(n.as_f32_bits),
                _ => NativeValue::F64Bits(n.bits),
            },
        ),
        _ => Err(FaultView::Status(Status::NumberExpected)),
    }
}

/// Whether a shape reads the host value as a number.
pub open spec fn is_number_shape(shape: Shape) -> bool {
    match shape {
        Shape::I8 | Shape::I16 | Shape::I32 | Shape::I64 => true,
        Shape::U8 | Shape::U16 | Shape::U32 | Shape::U64 => true,
        Shape::F32 | Shape::F64 => true,
        _ => false,
    }
}

/// Whether a shape reads the host value as text.
pub open spec fn is_text_shape(shape: Shape) -> bool {
    match shape {
        Shape::Char | Shape::Str | Shape::Text | Shape::Identifier => true,
        _ => false,
    }
}

/// Whether a shape is too structurally divergent from the host value layout
/// to decode value-by-value; such a request always defers to the fallback.
pub open spec fn is_composite_shape(shape: Shape) -> bool {
    match shape {
        Shape::Sequence | Shape::Tuple | Shape::TupleStruct => true,
        Shape::Mapping | Shape::Record => true,
        _ => false,
    }
}

/// What a decode of `v` at the requested shape yields, for every host value
/// and every shape. This is the engine's whole contract.
pub open spec fn decode_spec(v: HostValue, shape: Shape) -> Result<NativeValue, FaultView>
    decreases shape,
{
    match shape {
        Shape::Any => decode_any_spec(v),
        Shape::Bool => match v {
            HostValue::Boolean(b) => Ok(NativeValue::Bool(b)),
            _ => Err(FaultView::Status(Status::BooleanExpected)),
        },
        Shape::Char | Shape::Str | Shape::Text | Shape::Identifier => match v {
            HostValue::Text(s) => Ok(NativeValue::Text(s@)),
            _ => Err(FaultView::Status(Status::StringExpected)),
        },
        Shape::Bytes | Shape::ByteBuf => byte_buf_spec(v),
        Shape::Opt(inner) => match v {
            HostValue::Null | HostValue::Undefined => Ok(NativeValue::Empty),
            _ => match decode_spec(v, *inner) {
                Ok(d) => Ok(NativeValue::Present(Box::new(d))),
                Err(e) => Err(e),
            },
        },
        Shape::Unit | Shape::UnitStruct | Shape::IgnoredAny => Ok(NativeValue::Unit),
        Shape::NewtypeStruct(inner) => match decode_spec(v, *inner) {
            Ok(d) => Ok(NativeValue::Newtype(Box::new(d))),
            Err(e) => Err(e),
        },
        Shape::Sequence | Shape::Tuple | Shape::TupleStruct | Shape::Mapping | Shape::Record => Err(
            FaultView::FallbackJson,
        ),
        Shape::SimpleEnum(variants) => enum_spec(v, variants@),
        _ => number_shape_spec(v, shape),
    }
}

/// The transient state of one conversion attempt: the environment handle and
/// the host value being decoded, and nothing else; it is reconstructable
/// from those two fields at any time.
#[derive(Clone, Copy)]
pub struct Deserializer<'a> {
    pub env: Env,
    pub value: &'a HostValue,
}

/// Compares two character vectors.
pub fn chars_eq(a: &Vec<char>, b: &Vec<char>) -> (r: bool)
    ensures
        r == (a@ == b@),
{
    if a.len() != b.len() {
        assert(a@ != b@);
        return false;
    }
    let mut i: usize = 0;
    while i < a.len()
        invariant
            i <= a.len(),
            a@.len() == b@.len(),
            forall|j: int| 0 <= j < i ==> a@[j] == b@[j],
        decreases a.len() - i,
    {
        if a[i] != b[i] {
            return false;
        }
        i = i + 1;
    }
    proof {
        assert(a@ =~= b@);
    }
    true
}

impl<'a> Deserializer<'a> {
    /// Builds the per-attempt state for one host value.
    pub fn new(env: Env, value: &'a HostValue) -> (r: Self)
        ensures
            r.env == env,
            r.value == value,
    {
        Self { env, value }
    }

    /// Decodes the host value at the requested shape.
    pub fn deserialize_shape(self, shape: &Shape) -> (r: Result<Decoded, BridgeError>)
        ensures
            outcome(r) == decode_spec(*self.value, *shape),
        decreases *shape, 0int,
    {
        match shape {
            Shape::Any => self.deserialize_any(),
            Shape::Bool => self.deserialize_bool(),
            Shape::I8 => self.deserialize_i8(),
            Shape::I16 => self.deserialize_i16(),
            Shape::I32 => self.deserialize_i32(),
            Shape::I64 => self.deserialize_i64(),
            Shape::U8 => self.deserialize_u8(),
            Shape::U16 => self.deserialize_u16(),
            Shape::U32 => self.deserialize_u32(),
            Shape::U64 => self.deserialize_u64(),
            Shape::F32 => self.deserialize_f32(),
            Shape::F64 => self.deserialize_f64(),
            Shape::Char => self.deserialize_char(),
            Shape::Str => self.deserialize_str(),
            Shape::Text => self.deserialize_string(),
            Shape::Bytes => self.deserialize_bytes(),
            Shape::ByteBuf => self.deserialize_byte_buf(),
            Shape::Opt(inner) => self.deserialize_option(inner),
            Shape::Unit => self.deserialize_unit(),
            Shape::UnitStruct => self.deserialize_unit_struct(""),
            Shape::NewtypeStruct(inner) => self.deserialize_newtype_struct("", inner),
            Shape::Sequence => self.deserialize_seq(),
            Shape::Tuple => self.deserialize_tuple(0),
            Shape::TupleStruct => self.deserialize_tuple_struct("", 0),
            Shape::Mapping => self.deserialize_map(),
            Shape::Record => self.deserialize_struct(""),
            Shape::SimpleEnum(variants) => self.deserialize_enum("", variants),
            Shape::Identifier => self.deserialize_identifier(),
            Shape::IgnoredAny => self.deserialize_ignored_any(),
        }
    }

    /// Dispatches on the host's runtime type tag. An object is attempted as
    /// a binary buffer; exactly an invalid-argument failure of that read
    /// defers to the textual fallback, and any other failure propagates.
    pub fn deserialize_any(self) -> (r: Result<Decoded, BridgeError>)
        ensures
            outcome(r) == decode_any_spec(*self.value),
    {
        match typeof_value(self.value) {
            TypeTag::Undefined => self.deserialize_unit(),
            TypeTag::Null => self.deserialize_unit(),
            TypeTag::Boolean => self.deserialize_bool(),
            TypeTag::Number => {
                let n = match get_value_number(self.value) {
                    Ok(n) => n,
                    Err(s) => {
                        return Err(BridgeError::Status(s));
                    },
                };
                if n.integral && (n.sign_positive || n.bits == 0x8000000000000000) {
                    Ok(Decoded::U64(n.as_u64))
                } else if n.integral {
                    Ok(Decoded::I64(n.as_i64))
                } else {
                    Ok(Decoded::F64Bits(n.bits))
                }
            },
            TypeTag::Str => self.deserialize_string(),
            TypeTag::Object => match self.deserialize_byte_buf() {
                Err(BridgeError::Status(Status::InvalidArg)) => Err(BridgeError::FallbackJson),
                res => res,
            },
            typ => Err(BridgeError::Unsupported(typ)),
        }
    }

    pub fn deserialize_bool(self) -> (r: Result<Decoded, BridgeError>)
        ensures
            outcome(r) == decode_spec(*self.value, Shape::Bool),
    {
        match get_value_bool(self.value) {
            Ok(b) => Ok(Decoded::Bool(b)),
            Err(s) => Err(BridgeError::Status(s)),
        }
    }

    pub fn deserialize_i8(self) -> (r: Result<Decoded, BridgeError>)
        ensures
            outcome(r) == decode_spec(*self.value, Shape::I8),
    {
        match get_value_number(self.value) {
            Ok(n) => {
                let x = if n.as_i64 < -128 {
                    -128
                } else if n.as_i64 > 127 {
                    127
                } else {
                    n.as_i64
                };
                Ok(Decoded::I8(x as i8))
            },
            Err(s) => Err(BridgeError::Status(s)),
        }
    }

    pub fn deserialize_i16(self) -> (r: Result<Decoded, BridgeError>)
        ensures
            outcome(r) == decode_spec(*self.value, Shape::I16),
    {
        match get_value_number(self.value) {
            Ok(n) => {
                let x = if n.as_i64 < -32768 {
                    -32768
                } else if n.as_i64 > 32767 {
                    32767
                } else {
                    n.as_i64
                };
                Ok(Decoded::I16(x as i16))
            },
            Err(s) => Err(BridgeError::Status(s)),
        }
    }

    pub fn deserialize_i32(self) -> (r: Result<Decoded, BridgeError>)
        ensures
            outcome(r) == decode_spec(*self.value, Shape::I32),
    {
        match get_value_number(self.value) {
            Ok(n) => {
                let x = if n.as_i64 < -2147483648 {
                    -2147483648
                } else if n.as_i64 > 2147483647 {
                    2147483647
                } else {
                    n.as_i64
                };
                Ok(Decoded::I32(x as i32))
            },
            Err(s) => Err(BridgeError::Status(s)),
        }
    }

    pub fn deserialize_i64(self) -> (r: Result<Decoded, BridgeError>)
        ensures
            outcome(r) == decode_spec(*self.value, Shape::I64),
    {
        match get_value_number(self.value) {
            Ok(n) => Ok(Decoded::I64(n.as_i64)),
            Err(s) => Err(BridgeError::Status(s)),
        }
    }

    pub fn deserialize_u8(self) -> (r: Result<Decoded, BridgeError>)
        ensures
            outcome(r) == decode_spec(*self.value, Shape::U8),
    {
        match get_value_number(self.value) {
            Ok(n) => {
                let x = if n.as_i64 < 0 {
                    0
                } else if n.as_i64 > 255 {
                    255
                } else {
                    n.as_i64
                };
                Ok(Decoded::U8(x as u8))
            },
            Err(s) => Err(BridgeError::Status(s)),
        }
    }

    pub fn deserialize_u16(self) -> (r: Result<Decoded, BridgeError>)
        ensures
            outcome(r) == decode_spec(*self.value, Shape::U16),
    {
        match get_value_number(self.value) {
            Ok(n) => {
                let x = if n.as_i64 < 0 {
                    0
                } else if n.as_i64 > 65535 {
                    65535
                } else {
                    n.as_i64
                };
                Ok(Decoded::U16(x as u16))
            },
            Err(s) => Err(BridgeError::Status(s)),
        }
    }

    pub fn deserialize_u32(self) -> (r: Result<Decoded, BridgeError>)
        ensures
            outcome(r) == decode_spec(*self.value, Shape::U32),
    {
        match get_value_number(self.value) {
            Ok(n) => {
                let x = if n.as_i64 < 0 {
                    0
                } else if n.as_i64 > 4294967295 {
                    4294967295
                } else {
                    n.as_i64
                };
                Ok(Decoded::U32(x as u32))
            },
            Err(s) => Err(BridgeError::Status(s)),
        }
    }

    pub fn deserialize_u64(self) -> (r: Result<Decoded, BridgeError>)
        ensures
            outcome(r) == decode_spec(*self.value, Shape::U64),
    {
        match get_value_number(self.value) {
            Ok(n) => Ok(Decoded::U64(n.as_u64)),
            Err(s) => Err(BridgeError::Status(s)),
        }
    }

    pub fn deserialize_f32(self) -> (r: Result<Decoded, BridgeError>)
        ensures
            outcome(r) == decode_spec(*self.value, Shape::F32),
    {
        match get_value_number(self.value) {
            Ok(n) => Ok(Decoded::F32Bits(n.as_f32_bits)),
            Err(s) => Err(BridgeError::Status(s)),
        }
    }

    pub fn deserialize_f64(self) -> (r: Result<Decoded, BridgeError>)
        ensures
            outcome(r) == decode_spec(*self.value, Shape::F64),
    {
        match get_value_number(self.value) {
            Ok(n) => Ok(Decoded::F64Bits(n.bits)),
            Err(s) => Err(BridgeError::Status(s)),
        }
    }

    pub fn deserialize_char(self) -> (r: Result<Decoded, BridgeError>)
        ensures
            outcome(r) == decode_spec(*self.value, Shape::Char),
    {
        self.deserialize_string()
    }

    pub fn deserialize_str(self) -> (r: Result<Decoded, BridgeError>)
        ensures
            outcome(r) == decode_spec(*self.value, Shape::Str),
    {
        self.deserialize_string()
    }

    pub fn deserialize_string(self) -> (r: Result<Decoded, BridgeError>)
        ensures
            outcome(r) == decode_spec(*self.value, Shape::Text),
    {
        match get_value_string(self.value) {
            Ok(s) => Ok(Decoded::Text(s)),
            Err(s) => Err(BridgeError::Status(s)),
        }
    }

    pub fn deserialize_bytes(self) -> (r: Result<Decoded, BridgeError>)
        ensures
            outcome(r) == byte_buf_spec(*self.value),
    {
        self.deserialize_byte_buf()
    }

    /// Reads the value first as a growable buffer, then, exactly when that
    /// read reports invalid-argument, as a fixed view; a failure of the
    /// second read propagates as it is.
    pub fn deserialize_byte_buf(self) -> (r: Result<Decoded, BridgeError>)
        ensures
            outcome(r) == byte_buf_spec(*self.value),
    {
        match get_value_arraybuffer(self.value) {
            Ok(v) => Ok(Decoded::Bytes(v)),
            Err(err) => if matches!(err, Status::InvalidArg) {
                match get_value_arrayview(self.value) {
                    Ok(v) => Ok(Decoded::Bytes(v)),
                    Err(err) => Err(BridgeError::Status(err)),
                }
            } else {
                Err(BridgeError::Status(err))
            },
        }
    }

    /// A host null or undefined is the empty option; anything else wraps a
    /// recursive decode of the same value at the present case's shape.
    pub fn deserialize_option(self, inner: &Shape) -> (r: Result<Decoded, BridgeError>)
        ensures
            outcome(r) == decode_spec(*self.value, Shape::Opt(Box::new(*inner))),
        decreases *inner, 1int,
    {
        match typeof_value(self.value) {
            TypeTag::Null | TypeTag::Undefined => Ok(Decoded::Empty),
            _ => match self.deserialize_shape(inner) {
                Ok(d) => Ok(Decoded::Present(Box::new(d))),
                Err(e) => Err(e),
            },
        }
    }

    pub fn deserialize_unit(self) -> (r: Result<Decoded, BridgeError>)
        ensures
            outcome(r) == decode_spec(*self.value, Shape::Unit),
    {
        Ok(Decoded::Unit)
    }

    pub fn deserialize_unit_struct(self, _name: &str) -> (r: Result<Decoded, BridgeError>)
        ensures
            outcome(r) == decode_spec(*self.value, Shape::UnitStruct),
    {
        Ok(Decoded::Unit)
    }

    /// A single-field wrapper decodes transparently from the same value.
    pub fn deserialize_newtype_struct(self, _name: &str, inner: &Shape) -> (r: Result<
        Decoded,
        BridgeError,
    >)
        ensures
            outcome(r) == decode_spec(*self.value, Shape::NewtypeStruct(Box::new(*inner))),
        decreases *inner, 1int,
    {
        match self.deserialize_shape(inner) {
            Ok(d) => Ok(Decoded::Newtype(Box::new(d))),
            Err(e) => Err(e),
        }
    }

    pub fn deserialize_seq(self) -> (r: Result<Decoded, BridgeError>)
        ensures
            outcome(r) == decode_spec(*self.value, Shape::Sequence),
    {
        Err(BridgeError::FallbackJson)
    }

    pub fn deserialize_tuple(self, _len: usize) -> (r: Result<Decoded, BridgeError>)
        ensures
            outcome(r) == decode_spec(*self.value, Shape::Tuple),
    {
        Err(BridgeError::FallbackJson)
    }

    pub fn deserialize_tuple_struct(self, _name: &str, _len: usize) -> (r: Result<
        Decoded,
        BridgeError,
    >)
        ensures
            outcome(r) == decode_spec(*self.value, Shape::TupleStruct),
    {
        Err(BridgeError::FallbackJson)
    }

    pub fn deserialize_map(self) -> (r: Result<Decoded, BridgeError>)
        ensures
            outcome(r) == decode_spec(*self.value, Shape::Mapping),
    {
        Err(BridgeError::FallbackJson)
    }

    pub fn deserialize_struct(self, _name: &str) -> (r: Result<Decoded, BridgeError>)
        ensures
            outcome(r) == decode_spec(*self.value, Shape::Record),
    {
        Err(BridgeError::FallbackJson)
    }

    /// A non-value-carrying enumeration is serialized as a string; the
    /// string is matched case-sensitively against the variant names.
    pub fn deserialize_enum(self, _name: &str, variants: &Vec<Vec<char>>) -> (r: Result<
        Decoded,
        BridgeError,
    >)
        ensures
            outcome(r) == enum_spec(*self.value, variants@),
    {
        match get_value_string(self.value) {
            Ok(s) => {
                let mut i: usize = 0;
                while i < variants.len()
                    invariant
                        i <= variants.len(),
                        *self.value is Text,
                        s@ == (*self.value)->Text_0@,
                        forall|j: int| 0 <= j < i ==> variants@[j]@ != s@,
                    decreases variants.len() - i,
                {
                    if chars_eq(&variants[i], &s) {
                        proof {
                            assert(0 <= i < variants@.len() && variants@[i as int]@ == s@);
                            assert(has_variant(variants@, s@));
                        }
                        return Ok(Decoded::Variant(s));
                    }
                    i = i + 1;
                }
                assert(!has_variant(variants@, s@));
                Err(BridgeError::UnknownVariant(s))
            },
            Err(_) => Err(BridgeError::FallbackJson),
        }
    }

    pub fn deserialize_identifier(self) -> (r: Result<Decoded, BridgeError>)
        ensures
            outcome(r) == decode_spec(*self.value, Shape::Identifier),
    {
        self.deserialize_string()
    }

    pub fn deserialize_ignored_any(self) -> (r: Result<Decoded, BridgeError>)
        ensures
            outcome(r) == decode_spec(*self.value, Shape::IgnoredAny),
    {
        Ok(Decoded::Unit)
    }
}

/// Law: a host null or undefined decodes to the empty option at every
/// nullable shape.
pub proof fn lemma_null_option_empty(v: HostValue, inner: Shape)
    requires
        v is Null || v is Undefined,
    ensures
        decode_spec(v, Shape::Opt(Box::new(inner))) == Ok::<NativeValue, FaultView>(
            NativeValue::Empty,
        ),
{
}

/// Law: a host null or undefined decodes successfully to unit and to a unit
/// struct, and fails at every numeric and every text shape.
pub proof fn lemma_null_unit_and_failures(v: HostValue, shape: Shape)
    requires
        v is Null || v is Undefined,
    ensures
        decode_spec(v, Shape::Unit) == Ok::<NativeValue, FaultView>(NativeValue::Unit),
        decode_spec(v, Shape::UnitStruct) == Ok::<NativeValue, FaultView>(NativeValue::Unit),
        is_number_shape(shape) ==> decode_spec(v, shape) == Err::<NativeValue, FaultView>(
            FaultView::Status(Status::NumberExpected),
        ),
        is_text_shape(shape) ==> decode_spec(v, shape) == Err::<NativeValue, FaultView>(
            FaultView::Status(Status::StringExpected),
        ),
{
}

/// Law: at the self-describing shape, an integral, non-negative host number
/// — the zero with a set sign bit counts as non-negative — becomes the
/// unsigned 64-bit value the host reads for it; an integral negative number
/// becomes the signed 64-bit value; and a number with a nonzero fractional
/// part stays double-precision.
pub proof fn lemma_number_any(n: HostNumber)
    ensures
        n.integral && non_negative(n) ==> decode_spec(HostValue::Number(n), Shape::Any) == Ok::<
            NativeValue,
            FaultView,
        >(NativeValue::U64(n.as_u64)),
        n.integral && !non_negative(n) ==> decode_spec(HostValue::Number(n), Shape::Any) == Ok::<
            NativeValue,
            FaultView,
        >(NativeValue::I64(n.as_i64)),
        !n.integral ==> decode_spec(HostValue::Number(n), Shape::Any) == Ok::<
            NativeValue,
            FaultView,
        >(NativeValue::F64Bits(n.bits)),
{
}

/// Law: a host string decodes to itself, unchanged, at every text shape; in
/// particular a native string carried into the host as text comes back
/// exactly as it was.
pub proof fn lemma_string_identity(s: Vec<char>, shape: Shape)
    requires
        is_text_shape(shape),
    ensures
        decode_spec(HostValue::Text(s), shape) == Ok::<NativeValue, FaultView>(
            NativeValue::Text(s@),
        ),
{
}

/// Law: a binary buffer decodes to its exact byte sequence at the byte
/// shapes, and a host object that is neither kind of buffer defers the
/// self-describing decode to the textual fallback rather than failing.
pub proof fn lemma_buffers_and_plain_objects(b: Vec<u8>, fields: Vec<(Vec<char>, HostValue)>)
    ensures
        decode_spec(HostValue::ArrayBuffer(b), Shape::ByteBuf) == Ok::<NativeValue, FaultView>(
            NativeValue::Bytes(b@),
        ),
        decode_spec(HostValue::ArrayView(b), Shape::ByteBuf) == Ok::<NativeValue, FaultView>(
            NativeValue::Bytes(b@),
        ),
        decode_spec(HostValue::ArrayBuffer(b), Shape::Any) == Ok::<NativeValue, FaultView>(
            NativeValue::Bytes(b@),
        ),
        decode_spec(HostValue::Object(fields), Shape::Any) == Err::<NativeValue, FaultView>(
            FaultView::FallbackJson,
        ),
{
}

/// Law: a sequence, tuple, mapping or record request never partially
/// decodes: for every host value it immediately defers to the fallback.
pub proof fn lemma_composite_always_falls_back(v: HostValue, shape: Shape)
    requires
        is_composite_shape(shape),
    ensures
        decode_spec(v, shape) == Err::<NativeValue, FaultView>(FaultView::FallbackJson),
{
}

} // verus!

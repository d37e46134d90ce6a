//! The model of a host-runtime value.
//!
//! The host engine owns its values; native code only ever observes them
//! through typed read primitives that return a value or a status code. The
//! model therefore records, for each kind of host value, exactly the plain
//! data those primitives can hand back. Host text is carried as a vector of
//! characters.

use vstd::prelude::*;

verus! {

/// The status codes the raw binding surface can report.
#[derive(Clone, Copy, PartialEq, Eq, Structural, Debug)]
pub enum Status {
    /// The value cannot be read the requested way at all.
    InvalidArg,
    /// A number read was attempted on a value that is not a number.
    NumberExpected,
    /// A text read was attempted on a value that is not text.
    StringExpected,
    /// A boolean read was attempted on a value that is not a boolean.
    BooleanExpected,
    /// Any other failure of the binding surface.
    GenericFailure,
}

/// The runtime type tag the host reports for a value.
#[derive(Clone, Copy, PartialEq, Eq, Structural, Debug)]
pub enum TypeTag {
    Undefined,
    Null,
    Boolean,
    Number,
    Str,
    Symbol,
    Object,
    Function,
    External,
    BigInt,
}

/// What native code can observe of one host number.
///
/// A host number is a double-precision float; this core never recomputes
/// float arithmetic, so the model holds each read the engine performs on the
/// number as a plain field: the raw bit pattern, the two classification bits
/// the decoder branches on, the saturating integer casts, the narrowing to
/// single precision, and the host's own decimal rendering of the value.
#[derive(PartialEq, Eq, Debug)]
pub struct HostNumber {
    /// The bit pattern of the double itself.
    pub bits: u64,
    /// Whether the fractional part is zero.
    pub integral: bool,
    /// Whether the sign bit is clear.
    pub sign_positive: bool,
    /// Whether the number is neither an infinity nor invalid.
    pub finite: bool,
    /// The saturating cast of the number to a signed 64-bit integer.
    pub as_i64: i64,
    /// The saturating cast of the number to an unsigned 64-bit integer.
    pub as_u64: u64,
    /// The bit pattern of the number narrowed to single precision.
    pub as_f32_bits: u32,
    /// The host's decimal rendering of the number.
    pub text: Vec<char>,
}

/// One host value, as far as the read primitives can observe it.
#[derive(PartialEq, Eq, Debug)]
pub enum HostValue {
    Undefined,
    Null,
    Boolean(bool),
    Number(HostNumber),
    Text(Vec<char>),
    /// A growable binary buffer and its contents.
    ArrayBuffer(Vec<u8>),
    /// A fixed binary view and the bytes it exposes.
    ArrayView(Vec<u8>),
    /// A host array and its elements.
    Array(Vec<HostValue>),
    /// A plain host object: its enumerable members in insertion order.
    Object(Vec<(Vec<char>, HostValue)>),
    Symbol,
    Function,
    External,
    BigInt,
}

impl HostValue {
    /// The tag the host's "get runtime type tag" primitive reports.
    pub open spec fn tag(self) -> TypeTag {
        match self {
            HostValue::Undefined => TypeTag::Undefined,
            HostValue::Null => TypeTag::Null,
            HostValue::Boolean(_) => TypeTag::Boolean,
            HostValue::Number(_) => TypeTag::Number,
            HostValue::Text(_) => TypeTag::Str,
            HostValue::ArrayBuffer(_) => TypeTag::Object,
            HostValue::ArrayView(_) => TypeTag::Object,
            HostValue::Array(_) => TypeTag::Object,
            HostValue::Object(_) => TypeTag::Object,
            HostValue::Symbol => TypeTag::Symbol,
            HostValue::Function => TypeTag::Function,
            HostValue::External => TypeTag::External,
            HostValue::BigInt => TypeTag::BigInt,
        }
    }
}

/// The host's "get runtime type tag" primitive.
pub fn typeof_value(v: &HostValue) -> (r: TypeTag)
    ensures
        r == v.tag(),
{
    match v {
        HostValue::Undefined => TypeTag::Undefined,
        HostValue::Null => TypeTag::Null,
        HostValue::Boolean(_) => TypeTag::Boolean,
        HostValue::Number(_) => TypeTag::Number,
        HostValue::Text(_) => TypeTag::Str,
        HostValue::ArrayBuffer(_) => TypeTag::Object,
        HostValue::ArrayView(_) => TypeTag::Object,
        HostValue::Array(_) => TypeTag::Object,
        HostValue::Object(_) => TypeTag::Object,
        HostValue::Symbol => TypeTag::Symbol,
        HostValue::Function => TypeTag::Function,
        HostValue::External => TypeTag::External,
        HostValue::BigInt => TypeTag::BigInt,
    }
}

/// Copies a character vector; the read primitives hand text out by value.
pub fn copy_chars(v: &Vec<char>) -> (r: Vec<char>)
    ensures
        r@ == v@,
{
    let mut out: Vec<char> = Vec::new();
    let mut i: usize = 0;
    while i < v.len()
        invariant
            i <= v.len(),
            out@ == v@.subrange(0, i as int),
        decreases v.len() - i,
    {
        out.push(v[i]);
        i = i + 1;
        proof {
            assert(out@ =~= v@.subrange(0, i as int));
        }
    }
    proof {
        assert(out@ =~= v@);
    }
    out
}

/// Copies a byte vector; the buffer read primitives hand bytes out by value.
pub fn copy_bytes(v: &Vec<u8>) -> (r: Vec<u8>)
    ensures
        r@ == v@,
{
    let mut out: Vec<u8> = Vec::new();
    let mut i: usize = 0;
    while i < v.len()
        invariant
            i <= v.len(),
            out@ == v@.subrange(0, i as int),
        decreases v.len() - i,
    {
        out.push(v[i]);
        i = i + 1;
        proof {
            assert(out@ =~= v@.subrange(0, i as int));
        }
    }
    proof {
        assert(out@ =~= v@);
    }
    out
}

/// The host's "read value as boolean" primitive.
pub fn get_value_bool(v: &HostValue) -> (r: Result<bool, Status>)
    ensures
        match *v {
            HostValue::Boolean(b) => r == Result::<bool, Status>::Ok(b),
            _ => r == Result::<bool, Status>::Err(Status::BooleanExpected),
        },
{
    match v {
        HostValue::Boolean(b) => Ok(*b),
        _ => Err(Status::BooleanExpected),
    }
}

/// The host's "read value as double" primitive; the observable reads of the
/// number are handed back together.
pub fn get_value_number<'a>(v: &'a HostValue) -> (r: Result<&'a HostNumber, Status>)
    ensures
        match *v {
            HostValue::Number(n) => r is Ok && *r->Ok_0 == n,
            _ => r == Result::<&'a HostNumber, Status>::Err(Status::NumberExpected),
        },
{
    match v {
        HostValue::Number(n) => Ok(n),
        _ => Err(Status::NumberExpected),
    }
}

/// The host's "read value as text" primitive.
pub fn get_value_string(v: &HostValue) -> (r: Result<Vec<char>, Status>)
    ensures
        match *v {
            HostValue::Text(s) => r is Ok && r->Ok_0@ == s@,
            _ => r == Result::<Vec<char>, Status>::Err(Status::StringExpected),
        },
{
    match v {
        HostValue::Text(s) => Ok(copy_chars(s)),
        _ => Err(Status::StringExpected),
    }
}

/// The host's "read value as growable binary buffer" primitive. Any other
/// value, buffer view or not, reads as invalid-argument.
pub fn get_value_arraybuffer(v: &HostValue) -> (r: Result<Vec<u8>, Status>)
    ensures
        match *v {
            HostValue::ArrayBuffer(b) => r is Ok && r->Ok_0@ == b@,
            _ => r == Result::<Vec<u8>, Status>::Err(Status::InvalidArg),
        },
{
    match v {
        HostValue::ArrayBuffer(b) => Ok(copy_bytes(b)),
        _ => Err(Status::InvalidArg),
    }
}

/// The host's "read value as fixed binary view" primitive.
pub fn get_value_arrayview(v: &HostValue) -> (r: Result<Vec<u8>, Status>)
    ensures
        match *v {
            HostValue::ArrayView(b) => r is Ok && r->Ok_0@ == b@,
            _ => r == Result::<Vec<u8>, Status>::Err(Status::InvalidArg),
        },
{
    match v {
        HostValue::ArrayView(b) => Ok(copy_bytes(b)),
        _ => Err(Status::InvalidArg),
    }
}

} // verus!

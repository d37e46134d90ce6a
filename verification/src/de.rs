//! The fallback textual bridge.
//!
//! When the typed engine signals that a host value's shape cannot be
//! traversed directly, the value is round-tripped through the host's own
//! textual serialization and the text is decoded with an off-the-shelf
//! structured-text decoder. That decoder is the one part of this path the
//! library does not implement itself; it is reached through the trusted
//! items below, and everything around it is verified.

use vstd::prelude::*;

use crate::args::{ArgsVec, ArgumentsInternal, args_get, args_model};
use crate::engine::{Decoded, Deserializer, FaultView, NativeValue, Shape, decode_spec, outcome};
use crate::json::json_text;
use crate::scope::{Handle, Host, Throw};
use crate::value::HostValue;

verus! {

#[verifier::external_type_specification]
#[verifier::external_body]
pub struct ExValue(serde_json::Value);

#[verifier::external_type_specification]
#[verifier::external_body]
pub struct ExJsonError(serde_json::Error);

/// What the off-the-shelf text decoder returns for a given text: a parsed
/// structured document, or its own decode error. The result depends on the
/// characters alone; its full statement is the text format's grammar, which
/// this library does not restate.
pub uninterp spec fn parsed_json(s: Seq<char>) -> Result<serde_json::Value, serde_json::Error>;

/// Relies on serde_json::from_str: parses a self-contained text into a
/// structured document, deterministically in the text.
#[verifier::external_body]
fn parse_json(s: &Vec<char>) -> (r: Result<serde_json::Value, serde_json::Error>)
    ensures
        r == parsed_json(s@),
{
    let text: String = s.iter().collect();
    serde_json::from_str(&text)
}

/// Decodes a self-contained text representation of a host value into the
/// final native value. A failure here is terminal: there is no fallback
/// from the fallback.
pub fn decode_text(s: &Vec<char>) -> (r: Result<Decoded, crate::engine::BridgeError>)
    ensures
        match parsed_json(s@) {
            Ok(v) => r matches Ok(d) && d == Decoded::Json(v),
            Err(e) => r matches Err(err) && err == crate::engine::BridgeError::Json(e),
        },
{
    match parse_json(s) {
        Ok(v) => Ok(Decoded::Json(v)),
        Err(e) => Err(crate::engine::BridgeError::Json(e)),
    }
}

/// The text of the exception the host records when its serializer hands
/// back something that is not a string.
pub open spec fn downcast_error_text() -> Seq<char> {
    seq!['n', 'o', 't', ' ', 'a', ' ', 's', 't', 'r', 'i', 'n', 'g']
}

/// Whether the pending slot holds exactly the downcast failure the host
/// records when its serializer hands back no string.
pub open spec fn thrown_downcast_error(pending: Option<HostValue>) -> bool {
    match pending {
        Some(e) => match e {
            HostValue::Text(m) => m@ == downcast_error_text(),
            _ => false,
        },
        None => false,
    }
}

/// Invokes the host's own stringify facility on a one-argument pack: the
/// serialized text of the argument, or, where the serializer yields no
/// string at all, a host exception recorded as pending and an unwind to
/// the nearest boundary.
pub fn stringify(host: &mut Host, args: ArgsVec) -> (r: Result<Vec<char>, Throw>)
    requires
        old(host).pending is None,
        args_model(args).len() == 1,
        old(host).open_region(args_model(args)[0].region),
    ensures
        match json_text(args_model(args)[0].value) {
            Some(t) => r matches Ok(out) && out@ == t && *final(host) == *old(host),
            None => {
                &&& r is Err
                &&& thrown_downcast_error(final(host).pending)
                &&& final(host).regions == old(host).regions
                &&& final(host).enters == old(host).enters
                &&& final(host).exits == old(host).exits
                &&& final(host).next_region == old(host).next_region
                &&& final(host).env == old(host).env
                &&& final(host).running == old(host).running
            },
        },
{
    let arg = args_get(&args, 0);
    match crate::json::stringify_value(&arg.value) {
        Some(t) => Ok(t),
        None => {
            let mut msg: Vec<char> = Vec::new();
            msg.push('n');
            msg.push('o');
            msg.push('t');
            msg.push(' ');
            msg.push('a');
            msg.push(' ');
            msg.push('s');
            msg.push('t');
            msg.push('r');
            msg.push('i');
            msg.push('n');
            msg.push('g');
            proof {
                assert(msg@ =~= downcast_error_text());
            }
            host.throw(HostValue::Text(msg));
            Err(Throw)
        },
    }
}

/// Converts the host value a handle refers to into the requested native
/// shape. The typed engine runs first; exactly when it signals its
/// fallback condition, all partial work is discarded, the host's own
/// serializer is invoked on the original value, and its text is decoded by
/// the off-the-shelf structured-text decoder. Any other typed failure
/// propagates untouched.
pub fn deserialize(host: &mut Host, value: Handle, shape: &Shape) -> (r: Result<
    Decoded,
    crate::engine::BridgeError,
>)
    requires
        old(host).wf(),
        old(host).pending is None,
        old(host).open_region(value.region),
    ensures
        decode_spec(value.value, *shape) != Err::<NativeValue, FaultView>(FaultView::FallbackJson)
            ==> outcome(r) == decode_spec(value.value, *shape) && *final(host) == *old(host),
        decode_spec(value.value, *shape) == Err::<NativeValue, FaultView>(FaultView::FallbackJson)
            ==> match json_text(value.value) {
            Some(t) => *final(host) == *old(host) && (match parsed_json(t) {
                Ok(v) => r matches Ok(d) && d == Decoded::Json(v),
                Err(e) => r matches Err(err) && err == crate::engine::BridgeError::Json(e),
            }),
            None => (r matches Err(err) && err is Throw) && thrown_downcast_error(
                final(host).pending,
            ),
        },
{
    let env = host.env;
    let de = Deserializer::new(env, &value.value);
    match de.deserialize_shape(shape) {
        Err(crate::engine::BridgeError::FallbackJson) => {},
        res => {
            return res;
        },
    }
    let args = value.into_args_vec();
    match stringify(host, args) {
        Ok(text) => decode_text(&text),
        Err(_) => Err(crate::engine::BridgeError::Throw),
    }
}

} // verus!

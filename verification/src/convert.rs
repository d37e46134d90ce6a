//! The host's value-coercion primitives.
//!
//! The binding surface exposes coercions of an arbitrary value to an object
//! and to a string; each reports by a flag whether the host accepted the
//! coercion. The model keeps the primitive cases exact; every object-like
//! value coerces to the generic object form of the host's text conversion.

use vstd::prelude::*;

use crate::Env;
use crate::value::{HostNumber, HostValue};

verus! {

/// Whether the host accepts coercing this value to an object: everything
/// but null and undefined.
pub open spec fn object_coercible(v: HostValue) -> bool {
    !(v is Null || v is Undefined)
}

/// Coerces a value to an object. Null and undefined are refused; any other
/// value is accepted, and the model does not distinguish a boxed primitive
/// from the primitive itself.
pub fn to_object(out: &mut HostValue, env: Env, value: HostValue) -> (r: bool)
    ensures
        r == object_coercible(value),
        r ==> *final(out) == value,
        !r ==> *final(out) == *old(out),
{
    match value {
        HostValue::Null => false,
        HostValue::Undefined => false,
        v => {
            *out = v;
            true
        },
    }
}

/// What the host's text conversion yields for one value, if the host
/// accepts it: the fixed words for undefined, null and the booleans, a
/// number's own decimal rendering, text as itself, and the generic object
/// form for every object-like value; a symbol is refused.
pub open spec fn text_coercion(v: HostValue) -> Option<Seq<char>> {
    match v {
        HostValue::Undefined => Some(
            seq!['u', 'n', 'd', 'e', 'f', 'i', 'n', 'e', 'd'],
        ),
        HostValue::Null => Some(seq!['n', 'u', 'l', 'l']),
        HostValue::Boolean(b) => Some(
            if b {
                seq!['t', 'r', 'u', 'e']
            } else {
                seq!['f', 'a', 'l', 's', 'e']
            },
        ),
        HostValue::Number(n) => Some(n.text@),
        HostValue::Text(s) => Some(s@),
        HostValue::Symbol => None,
        _ => Some(
            seq![
                '[', 'o', 'b', 'j', 'e', 'c', 't', ' ', 'O', 'b', 'j', 'e', 'c', 't', ']',
            ],
        ),
    }
}

/// Appends each character of a literal word.
fn push_word_object(out: &mut Vec<char>)
    ensures
        final(out)@ == old(out)@ + seq![
            '[', 'o', 'b', 'j', 'e', 'c', 't', ' ', 'O', 'b', 'j', 'e', 'c', 't', ']',
        ],
{
    out.push('[');
    out.push('o');
    out.push('b');
    out.push('j');
    out.push('e');
    out.push('c');
    out.push('t');
    out.push(' ');
    out.push('O');
    out.push('b');
    out.push('j');
    out.push('e');
    out.push('c');
    out.push('t');
    out.push(']');
    proof {
        assert(final(out)@ =~= old(out)@ + seq![
            '[', 'o', 'b', 'j', 'e', 'c', 't', ' ', 'O', 'b', 'j', 'e', 'c', 't', ']',
        ]);
    }
}

/// Coerces a value to its host text form. A symbol is refused; everything
/// else is accepted with the text `text_coercion` states.
pub fn to_string(out: &mut Vec<char>, env: Env, value: HostValue) -> (r: bool)
    ensures
        r == (text_coercion(value) is Some),
        r ==> final(out)@ == text_coercion(value)->Some_0,
        !r ==> *final(out) == *old(out),
{
    match value {
        HostValue::Undefined => {
            let mut t: Vec<char> = Vec::new();
            t.push('u');
            t.push('n');
            t.push('d');
            t.push('e');
            t.push('f');
            t.push('i');
            t.push('n');
            t.push('e');
            t.push('d');
            proof {
                assert(t@ =~= seq!['u', 'n', 'd', 'e', 'f', 'i', 'n', 'e', 'd']);
            }
            *out = t;
            true
        },
        HostValue::Null => {
            let mut t: Vec<char> = Vec::new();
            t.push('n');
            t.push('u');
            t.push('l');
            t.push('l');
            proof {
                assert(t@ =~= seq!['n', 'u', 'l', 'l']);
            }
            *out = t;
            true
        },
        HostValue::Boolean(b) => {
            let mut t: Vec<char> = Vec::new();
            if b {
                t.push('t');
                t.push('r');
                t.push('u');
                t.push('e');
                proof {
                    assert(t@ =~= seq!['t', 'r', 'u', 'e']);
                }
            } else {
                t.push('f');
                t.push('a');
                t.push('l');
                t.push('s');
                t.push('e');
                proof {
                    assert(t@ =~= seq!['f', 'a', 'l', 's', 'e']);
                }
            }
            *out = t;
            true
        },
        HostValue::Number(n) => {
            let HostNumber { text, .. } = n;
            *out = text;
            true
        },
        HostValue::Text(s) => {
            *out = s;
            true
        },
        HostValue::Symbol => false,
        _ => {
            let mut t: Vec<char> = Vec::new();
            push_word_object(&mut t);
            *out = t;
            true
        },
    }
}

} // verus!

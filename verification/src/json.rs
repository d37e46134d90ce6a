//! The model of the host's own textual serialization.
//!
//! The fallback bridge asks the host runtime to serialize a value to text.
//! This module states, as a spec function, exactly what text the host
//! produces for each model value, and implements it executably: text for
//! every serializable value, and no text at all where the host's serializer
//! yields nothing (a lone undefined, function or symbol) or refuses the
//! value outright.

use vstd::prelude::*;

use crate::value::{HostNumber, HostValue};

verus! {

/// The hexadecimal digit for one value below sixteen.
pub open spec fn hex_digit(n: nat) -> char {
    if n == 0 {
        '0'
    } else if n == 1 {
        '1'
    } else if n == 2 {
        '2'
    } else if n == 3 {
        '3'
    } else if n == 4 {
        '4'
    } else if n == 5 {
        '5'
    } else if n == 6 {
        '6'
    } else if n == 7 {
        '7'
    } else if n == 8 {
        '8'
    } else if n == 9 {
        '9'
    } else if n == 10 {
        'a'
    } else if n == 11 {
        'b'
    } else if n == 12 {
        'c'
    } else if n == 13 {
        'd'
    } else if n == 14 {
        'e'
    } else {
        'f'
    }
}

/// The decimal digit for one value below ten.
pub open spec fn dec_digit(n: nat) -> char {
    if n == 0 {
        '0'
    } else if n == 1 {
        '1'
    } else if n == 2 {
        '2'
    } else if n == 3 {
        '3'
    } else if n == 4 {
        '4'
    } else if n == 5 {
        '5'
    } else if n == 6 {
        '6'
    } else if n == 7 {
        '7'
    } else if n == 8 {
        '8'
    } else {
        '9'
    }
}

/// The decimal rendering of a natural number, most significant digit first.
pub open spec fn dec_rep(n: nat) -> Seq<char>
    decreases n,
{
    if n < 10 {
        seq![dec_digit(n)]
    } else {
        dec_rep(n / 10) + seq![dec_digit(n % 10)]
    }
}

/// How one character appears inside a serialized text value: the quote and
/// the backslash are escaped, the five named control characters take their
/// short escapes, every other control character takes its four-digit form,
/// and all else stands as it is.
pub open spec fn esc_char(c: char) -> Seq<char> {
    if c == '"' {
        seq!['\\', '"']
    } else if c == '\\' {
        seq!['\\', '\\']
    } else if c == '\u{8}' {
        seq!['\\', 'b']
    } else if c == '\t' {
        seq!['\\', 't']
    } else if c == '\n' {
        seq!['\\', 'n']
    } else if c == '\u{c}' {
        seq!['\\', 'f']
    } else if c == '\r' {
        seq!['\\', 'r']
    } else if (c as u32) < 32 {
        seq!['\\', 'u', '0', '0', hex_digit((c as u32 / 16) as nat), hex_digit(
            (c as u32 % 16) as nat,
        )]
    } else {
        seq![c]
    }
}

/// A text's characters, escaped one by one.
pub open spec fn escape_text(s: Seq<char>) -> Seq<char>
    decreases s.len(),
{
    if s.len() == 0 {
        Seq::empty()
    } else {
        esc_char(s[0]) + escape_text(s.drop_first())
    }
}

/// A serialized text value: the escaped characters between quotes.
pub open spec fn quoted(s: Seq<char>) -> Seq<char> {
    seq!['"'] + escape_text(s) + seq!['"']
}

/// The serialized form of a host number: its own decimal rendering while it
/// is finite, and the null literal otherwise.
pub open spec fn number_text(n: HostNumber) -> Seq<char> {
    if n.finite {
        n.text@
    } else {
        seq!['n', 'u', 'l', 'l']
    }
}

/// A comma-separated joining of already serialized pieces.
pub open spec fn join_commas(items: Seq<Seq<char>>) -> Seq<char>
    decreases items.len(),
{
    if items.len() == 0 {
        Seq::empty()
    } else if items.len() == 1 {
        items[0]
    } else {
        items[0] + seq![','] + join_commas(items.drop_first())
    }
}

/// What the host's serializer produces for one value, if anything: element
/// by element for an array, where a hole or an unserializable element
/// appears as the null literal; member by member for a plain object, where
/// a member whose value has no serialized form is left out; a growable
/// buffer as an empty object; a fixed view as an object keyed by decimal
/// indices; and nothing at all for undefined, a function or a symbol.
pub open spec fn json_text(v: HostValue) -> Option<Seq<char>>
    decreases v,
{
    match v {
        HostValue::Undefined => None,
        HostValue::Null => Some(seq!['n', 'u', 'l', 'l']),
        HostValue::Boolean(b) => Some(
            if b {
                seq!['t', 'r', 'u', 'e']
            } else {
                seq!['f', 'a', 'l', 's', 'e']
            },
        ),
        HostValue::Number(n) => Some(number_text(n)),
        HostValue::Text(s) => Some(quoted(s@)),
        HostValue::ArrayBuffer(_) => Some(seq!['{', '}']),
        HostValue::ArrayView(b) => Some(
            seq!['{'] + join_commas(view_members(b@, 0)) + seq!['}'],
        ),
        HostValue::Array(elems) => Some(seq!['['] + join_commas(array_items(elems@)) + seq![']']),
        HostValue::Object(fields) => Some(
            seq!['{'] + join_commas(object_members(fields@)) + seq!['}'],
        ),
        HostValue::Symbol => None,
        HostValue::Function => None,
        HostValue::External => None,
        HostValue::BigInt => None,
    }
}

/// The serialized elements of an array; an element with no serialized form
/// appears as the null literal.
pub open spec fn array_items(elems: Seq<HostValue>) -> Seq<Seq<char>>
    decreases elems,
{
    if elems.len() == 0 {
        Seq::empty()
    } else {
        let head = match json_text(elems[0]) {
            Some(t) => t,
            None => seq!['n', 'u', 'l', 'l'],
        };
        seq![head] + array_items(elems.drop_first())
    }
}

/// The serialized members of a plain object; a member whose value has no
/// serialized form is left out.
pub open spec fn object_members(fields: Seq<(Vec<char>, HostValue)>) -> Seq<Seq<char>>
    decreases fields,
{
    if fields.len() == 0 {
        Seq::empty()
    } else {
        let rest = object_members(fields.drop_first());
        match json_text(fields[0].1) {
            Some(t) => seq![quoted(fields[0].0@) + seq![':'] + t] + rest,
            None => rest,
        }
    }
}

/// The serialized members of a fixed binary view: one member per byte,
/// keyed by its decimal index.
pub open spec fn view_members(b: Seq<u8>, start: nat) -> Seq<Seq<char>>
    decreases b.len(),
{
    if b.len() == 0 {
        Seq::empty()
    } else {
        seq![quoted(dec_rep(start)) + seq![':'] + dec_rep(b[0] as nat)] + view_members(
            b.drop_first(),
            start + 1,
        )
    }
}

/// Appends the source's characters to the destination.
pub fn extend_chars(dst: &mut Vec<char>, src: &Vec<char>)
    ensures
        final(dst)@ == old(dst)@ + src@,
{
    let mut i: usize = 0;
    while i < src.len()
        invariant
            i <= src.len(),
            dst@ == old(dst)@ + src@.subrange(0, i as int),
        decreases src.len() - i,
    {
        dst.push(src[i]);
        i = i + 1;
        proof {
            assert(dst@ =~= old(dst)@ + src@.subrange(0, i as int));
        }
    }
    proof {
        assert(dst@ =~= old(dst)@ + src@);
    }
}

/// The executable decimal digit.
fn dec_digit_exec(n: u64) -> (r: char)
    requires
        n < 10,
    ensures
        r == dec_digit(n as nat),
{
    if n == 0 {
        '0'
    } else if n == 1 {
        '1'
    } else if n == 2 {
        '2'
    } else if n == 3 {
        '3'
    } else if n == 4 {
        '4'
    } else if n == 5 {
        '5'
    } else if n == 6 {
        '6'
    } else if n == 7 {
        '7'
    } else if n == 8 {
        '8'
    } else {
        '9'
    }
}

/// The executable hexadecimal digit.
fn hex_digit_exec(n: u32) -> (r: char)
    requires
        n < 16,
    ensures
        r == hex_digit(n as nat),
{
    if n < 10 {
        dec_digit_exec(n as u64)
    } else if n == 10 {
        'a'
    } else if n == 11 {
        'b'
    } else if n == 12 {
        'c'
    } else if n == 13 {
        'd'
    } else if n == 14 {
        'e'
    } else {
        'f'
    }
}

/// Renders a 64-bit value in decimal.
pub fn u64_to_dec(n: u64) -> (r: Vec<char>)
    ensures
        r@ == dec_rep(n as nat),
    decreases n,
{
    if n < 10 {
        let mut v: Vec<char> = Vec::new();
        v.push(dec_digit_exec(n));
        proof {
            assert(v@ =~= dec_rep(n as nat));
        }
        v
    } else {
        let mut v = u64_to_dec(n / 10);
        v.push(dec_digit_exec(n % 10));
        proof {
            assert(v@ =~= dec_rep(n as nat));
        }
        v
    }
}

/// Appends one character's escaped form.
fn push_escaped(out: &mut Vec<char>, c: char)
    ensures
        final(out)@ == old(out)@ + esc_char(c),
{
    if c == '"' {
        out.push('\\');
        out.push('"');
    } else if c == '\\' {
        out.push('\\');
        out.push('\\');
    } else if c == '\u{8}' {
        out.push('\\');
        out.push('b');
    } else if c == '\t' {
        out.push('\\');
        out.push('t');
    } else if c == '\n' {
        out.push('\\');
        out.push('n');
    } else if c == '\u{c}' {
        out.push('\\');
        out.push('f');
    } else if c == '\r' {
        out.push('\\');
        out.push('r');
    } else if (c as u32) < 32 {
        out.push('\\');
        out.push('u');
        out.push('0');
        out.push('0');
        out.push(hex_digit_exec((c as u32) / 16));
        out.push(hex_digit_exec((c as u32) % 16));
    } else {
        out.push(c);
    }
    proof {
        assert(out@ =~= old(out)@ + esc_char(c));
    }
}

/// Appends a text value in its quoted, escaped form.
pub fn push_quoted(out: &mut Vec<char>, s: &Vec<char>)
    ensures
        final(out)@ == old(out)@ + quoted(s@),
{
    out.push('"');
    let mut i: usize = 0;
    while i < s.len()
        invariant
            i <= s.len(),
            out@ == old(out)@ + seq!['"'] + escape_text(s@.subrange(0, i as int)),
        decreases s.len() - i,
    {
        push_escaped(out, s[i]);
        i = i + 1;
        proof {
            lemma_escape_snoc(s@, i as int);
            assert(out@ =~= old(out)@ + seq!['"'] + escape_text(s@.subrange(0, i as int)));
        }
    }
    out.push('"');
    proof {
        assert(s@.subrange(0, s@.len() as int) =~= s@);
        assert(out@ =~= old(out)@ + quoted(s@));
    }
}

/// Escaping one more character extends the escaped prefix.
proof fn lemma_escape_snoc(s: Seq<char>, i: int)
    requires
        0 < i <= s.len(),
    ensures
        escape_text(s.subrange(0, i)) == escape_text(s.subrange(0, i - 1)) + esc_char(s[i - 1]),
    decreases i,
{
    if i == 1 {
        assert(s.subrange(0, 1).drop_first() =~= Seq::<char>::empty());
        assert(escape_text(s.subrange(0, 1)) =~= esc_char(s[0]) + escape_text(Seq::empty()));
        assert(escape_text(s.subrange(0, 0)) =~= Seq::<char>::empty());
        assert(escape_text(s.subrange(0, 1)) =~= escape_text(s.subrange(0, 0)) + esc_char(s[0]));
    } else {
        lemma_escape_snoc(s.drop_first(), i - 1);
        assert(s.subrange(0, i).drop_first() =~= s.drop_first().subrange(0, i - 1));
        assert(s.subrange(0, i - 1).drop_first() =~= s.drop_first().subrange(0, i - 2));
        assert(escape_text(s.subrange(0, i)) == esc_char(s[0]) + escape_text(
            s.drop_first().subrange(0, i - 1),
        ));
        assert(escape_text(s.subrange(0, i - 1)) == esc_char(s[0]) + escape_text(
            s.drop_first().subrange(0, i - 2),
        ));
        assert(escape_text(s.subrange(0, i)) =~= escape_text(s.subrange(0, i - 1)) + esc_char(
            s[i - 1],
        ));
    }
}

} // verus!

use crate::value::HostValue as HV;

verus! {

/// The null literal as characters.
fn null_lit() -> (r: Vec<char>)
    ensures
        r@ == seq!['n', 'u', 'l', 'l'],
{
    let mut v: Vec<char> = Vec::new();
    v.push('n');
    v.push('u');
    v.push('l');
    v.push('l');
    proof {
        assert(v@ =~= seq!['n', 'u', 'l', 'l']);
    }
    v
}

/// Joins already serialized pieces with commas, from the given position on.
fn join_from(items: &Vec<Vec<char>>, i: usize, out: &mut Vec<char>)
    requires
        i <= items@.len(),
    ensures
        final(out)@ == old(out)@ + join_commas(items.deep_view().subrange(i as int, items@.len() as int)),
    decreases items@.len() - i,
{
    let ghost sub = items.deep_view().subrange(i as int, items@.len() as int);
    if i < items.len() {
        extend_chars(out, &items[i]);
        proof {
            assert(sub[0] == items.deep_view()[i as int]);
        }
        if i + 1 < items.len() {
            out.push(',');
            join_from(items, i + 1, out);
            proof {
                assert(sub.drop_first() =~~= items.deep_view().subrange(
                    i as int + 1,
                    items@.len() as int,
                ));
                assert(final(out)@ =~= old(out)@ + join_commas(sub));
            }
        } else {
            proof {
                assert(sub.len() == 1);
                assert(final(out)@ =~= old(out)@ + join_commas(sub));
            }
        }
    } else {
        proof {
            assert(sub.len() == 0);
            assert(final(out)@ =~= old(out)@ + join_commas(sub));
        }
    }
}

/// Serializes one host value exactly as the model serializer states, or
/// yields nothing where the model yields nothing.
pub fn stringify_value(v: &HostValue) -> (r: Option<Vec<char>>)
    ensures
        match json_text(*v) {
            Some(t) => r matches Some(out) && out@ == t,
            None => r is None,
        },
    decreases *v, 0int,
{
    match v {
        HV::Undefined => None,
        HV::Symbol => None,
        HV::Function => None,
        HV::External => None,
        HV::BigInt => None,
        HV::Null => Some(null_lit()),
        HV::Boolean(b) => {
            let mut out: Vec<char> = Vec::new();
            if *b {
                out.push('t');
                out.push('r');
                out.push('u');
                out.push('e');
                proof {
                    assert(out@ =~= seq!['t', 'r', 'u', 'e']);
                }
            } else {
                out.push('f');
                out.push('a');
                out.push('l');
                out.push('s');
                out.push('e');
                proof {
                    assert(out@ =~= seq!['f', 'a', 'l', 's', 'e']);
                }
            }
            Some(out)
        },
        HV::Number(n) => {
            if n.finite {
                Some(crate::value::copy_chars(&n.text))
            } else {
                Some(null_lit())
            }
        },
        HV::Text(s) => {
            let mut out: Vec<char> = Vec::new();
            push_quoted(&mut out, s);
            proof {
                assert(out@ =~= quoted(s@));
            }
            Some(out)
        },
        HV::ArrayBuffer(_) => {
            let mut out: Vec<char> = Vec::new();
            out.push('{');
            out.push('}');
            proof {
                assert(out@ =~= seq!['{', '}']);
            }
            Some(out)
        },
        HV::ArrayView(b) => {
            proof {
                assert(b@.subrange(0, b@.len() as int) =~= b@);
            }
            let items = view_members_exec(b, 0);
            let mut out: Vec<char> = Vec::new();
            out.push('{');
            join_from(&items, 0, &mut out);
            out.push('}');
            proof {
                assert(items.deep_view().subrange(0, items@.len() as int) =~~= view_members(
                    b@,
                    0,
                ));
                assert(out@ =~= seq!['{'] + join_commas(view_members(b@, 0)) + seq!['}']);
            }
            Some(out)
        },
        HV::Array(elems) => {
            proof {
                assert(elems@.subrange(0, elems@.len() as int) =~= elems@);
                assert((*v)->Array_0 == *elems);
                assert(decreases_to!(*v => (*v)->Array_0));
                assert(decreases_to!(*elems => elems@));
                assert(decreases_to!(*v => elems@));
            }
            let items = array_items_exec(elems, 0);
            let mut out: Vec<char> = Vec::new();
            out.push('[');
            join_from(&items, 0, &mut out);
            out.push(']');
            proof {
                assert(elems@.subrange(0, elems@.len() as int) =~= elems@);
                assert(items.deep_view().subrange(0, items@.len() as int) =~~= array_items(
                    elems@,
                ));
                assert(out@ =~= seq!['['] + join_commas(array_items(elems@)) + seq![']']);
            }
            Some(out)
        },
        HV::Object(fields) => {
            proof {
                assert(fields@.subrange(0, fields@.len() as int) =~= fields@);
                assert((*v)->Object_0 == *fields);
                assert(decreases_to!(*v => (*v)->Object_0));
                assert(decreases_to!(*fields => fields@));
                assert(decreases_to!(*v => fields@));
            }
            let items = object_members_exec(fields, 0);
            let mut out: Vec<char> = Vec::new();
            out.push('{');
            join_from(&items, 0, &mut out);
            out.push('}');
            proof {
                assert(fields@.subrange(0, fields@.len() as int) =~= fields@);
                assert(items.deep_view().subrange(0, items@.len() as int) =~~= object_members(
                    fields@,
                ));
                assert(out@ =~= seq!['{'] + join_commas(object_members(fields@)) + seq!['}']);
            }
            Some(out)
        },
    }
}

/// The serialized elements of an array, from the given position on.
fn array_items_exec(elems: &Vec<HostValue>, i: usize) -> (r: Vec<Vec<char>>)
    requires
        i <= elems@.len(),
    ensures
        r.deep_view() == array_items(elems@.subrange(i as int, elems@.len() as int)),
    decreases elems@.subrange(i as int, elems@.len() as int), 1int,
{
    let ghost sub = elems@.subrange(i as int, elems@.len() as int);
    if i >= elems.len() {
        let r: Vec<Vec<char>> = Vec::new();
        proof {
            assert(r.deep_view() =~~= array_items(sub));
        }
        r
    } else {
        proof {
            assert(sub[0] == elems@[i as int]);
            assert(decreases_to!(sub => sub[0]));
        }
        let head = match stringify_value(&elems[i]) {
            Some(t) => t,
            None => null_lit(),
        };
        proof {
            assert(sub.drop_first() =~= elems@.subrange(i as int + 1, elems@.len() as int));
            assert(decreases_to!(sub => sub.drop_first()));
        }
        let mut rest = array_items_exec(elems, i + 1);
        let mut r: Vec<Vec<char>> = Vec::new();
        r.push(head);
        r.append(&mut rest);
        proof {
            assert(r.deep_view() =~~= array_items(sub));
        }
        r
    }
}

/// The serialized members of a plain object, from the given position on.
fn object_members_exec(fields: &Vec<(Vec<char>, HostValue)>, i: usize) -> (r: Vec<Vec<char>>)
    requires
        i <= fields@.len(),
    ensures
        r.deep_view() == object_members(fields@.subrange(i as int, fields@.len() as int)),
    decreases fields@.subrange(i as int, fields@.len() as int), 1int,
{
    let ghost sub = fields@.subrange(i as int, fields@.len() as int);
    if i >= fields.len() {
        let r: Vec<Vec<char>> = Vec::new();
        proof {
            assert(r.deep_view() =~~= object_members(sub));
        }
        r
    } else {
        proof {
            assert(sub[0] == fields@[i as int]);
            assert(decreases_to!(sub => sub[0]));
            assert(decreases_to!(sub[0] => sub[0].1));
            assert(sub[0].1 == fields@[i as int].1);
        }
        let text = stringify_value(&fields[i].1);
        proof {
            assert(sub.drop_first() =~= fields@.subrange(i as int + 1, fields@.len() as int));
            assert(decreases_to!(sub => sub.drop_first()));
        }
        let mut rest = object_members_exec(fields, i + 1);
        match text {
            Some(t) => {
                let mut member: Vec<char> = Vec::new();
                push_quoted(&mut member, &fields[i].0);
                member.push(':');
                extend_chars(&mut member, &t);
                let mut r: Vec<Vec<char>> = Vec::new();
                r.push(member);
                r.append(&mut rest);
                proof {
                    assert(member@ =~= quoted(sub[0].0@) + seq![':'] + json_text(
                        sub[0].1,
                    )->Some_0);
                    assert(r.deep_view() =~~= object_members(sub));
                }
                r
            },
            None => {
                proof {
                    assert(rest.deep_view() =~~= object_members(sub));
                }
                rest
            },
        }
    }
}

/// The serialized members of a fixed binary view, from the given position on.
fn view_members_exec(b: &Vec<u8>, i: usize) -> (r: Vec<Vec<char>>)
    requires
        i <= b@.len(),
    ensures
        r.deep_view() == view_members(b@.subrange(i as int, b@.len() as int), i as nat),
    decreases b@.len() - i,
{
    let ghost sub = b@.subrange(i as int, b@.len() as int);
    if i >= b.len() {
        let r: Vec<Vec<char>> = Vec::new();
        proof {
            assert(r.deep_view() =~~= view_members(sub, i as nat));
        }
        r
    } else {
        let mut member: Vec<char> = Vec::new();
        let key = u64_to_dec(i as u64);
        push_quoted(&mut member, &key);
        member.push(':');
        let digits = u64_to_dec(b[i] as u64);
        extend_chars(&mut member, &digits);
        let mut rest = view_members_exec(b, i + 1);
        let mut r: Vec<Vec<char>> = Vec::new();
        r.push(member);
        r.append(&mut rest);
        proof {
            assert(sub[0] == b@[i as int]);
            assert(sub.drop_first() =~= b@.subrange(i as int + 1, b@.len() as int));
            assert(member@ =~= quoted(dec_rep(i as nat)) + seq![':'] + dec_rep(sub[0] as nat));
            assert(r.deep_view() =~~= view_members(sub, i as nat));
        }
        r
    }
}

} // verus!

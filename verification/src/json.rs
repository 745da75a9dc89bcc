//! The JSON value tree the wire format is built from, and a serializer
//! whose output is pinned byte for byte.
//!
//! String and number contents are carried as raw byte sequences: a string
//! holds its unescaped UTF-8 content, a number holds its textual literal.
//! Serialization escapes quotes, backslashes and control bytes in strings;
//! everything else passes through unchanged.

use vstd::prelude::*;

verus! {

/// One JSON value. `Num` carries the decimal literal text; `Str` carries
/// the raw (unescaped) content bytes.
#[verifier::ext_equal]
pub enum JsonValue {
    Null,
    Bool(bool),
    Num(Vec<u8>),
    Str(Vec<u8>),
    Arr(Vec<JsonValue>),
    Obj(Vec<(Vec<u8>, JsonValue)>),
}

/// ASCII hex digit (lower case) for a value below 16.
pub open spec fn spec_hex_digit(n: u8) -> u8 {
    if n < 10 {
        (0x30 + n) as u8
    } else {
        (0x57 + n) as u8
    }
}

/// The escape sequence a single string-content byte serializes to.
pub open spec fn spec_escape_byte(b: u8) -> Seq<u8> {
    if b == 0x22 {  // '"'
        seq![0x5cu8, 0x22u8]
    } else if b == 0x5c {  // '\'
        seq![0x5cu8, 0x5cu8]
    } else if b < 0x20 {  // control: \u00XX
        seq![0x5cu8, 0x75u8, 0x30u8, 0x30u8, spec_hex_digit(b / 16), spec_hex_digit(b % 16)]
    } else {
        seq![b]
    }
}

/// Escaped form of a whole string content.
pub open spec fn spec_escape(s: Seq<u8>) -> Seq<u8>
    decreases s.len(),
{
    if s.len() == 0 {
        Seq::empty()
    } else {
        spec_escape(s.drop_last()) + spec_escape_byte(s.last())
    }
}

/// The serialized bytes of a value.
pub open spec fn spec_json_bytes(v: JsonValue) -> Seq<u8>
    decreases v,
{
    match v {
        JsonValue::Null => seq![0x6eu8, 0x75u8, 0x6cu8, 0x6cu8],  // null
        JsonValue::Bool(b) => if b {
            seq![0x74u8, 0x72u8, 0x75u8, 0x65u8]  // true
        } else {
            seq![0x66u8, 0x61u8, 0x6cu8, 0x73u8, 0x65u8]  // false
        },
        JsonValue::Num(lit) => lit@,
        JsonValue::Str(s) => seq![0x22u8] + spec_escape(s@) + seq![0x22u8],
        JsonValue::Arr(items) => seq![0x5bu8] + spec_json_items(items@) + seq![0x5du8],
        JsonValue::Obj(fields) => seq![0x7bu8] + spec_json_fields(fields@) + seq![0x7du8],
    }
}

/// The serialized bytes of an array's items, comma separated.
pub open spec fn spec_json_items(items: Seq<JsonValue>) -> Seq<u8>
    decreases items,
{
    if items.len() == 0 {
        Seq::empty()
    } else if items.len() == 1 {
        spec_json_bytes(items[0])
    } else {
        spec_json_items(items.drop_last()) + seq![0x2cu8] + spec_json_bytes(items.last())
    }
}

/// The serialized bytes of one object member: quoted key, colon, value.
pub open spec fn spec_json_field(f: (Vec<u8>, JsonValue)) -> Seq<u8>
    decreases f,
{
    seq![0x22u8] + spec_escape(f.0@) + seq![0x22u8, 0x3au8] + spec_json_bytes(f.1)
}

/// The serialized bytes of an object's members, comma separated.
pub open spec fn spec_json_fields(fields: Seq<(Vec<u8>, JsonValue)>) -> Seq<u8>
    decreases fields,
{
    if fields.len() == 0 {
        Seq::empty()
    } else if fields.len() == 1 {
        spec_json_field(fields[0])
    } else {
        spec_json_fields(fields.drop_last()) + seq![0x2cu8] + spec_json_field(fields.last())
    }
}

fn push_escaped_byte(out: &mut Vec<u8>, b: u8)
    ensures
        final(out)@ == old(out)@ + spec_escape_byte(b),
{
    if b == 0x22 {
        out.push(0x5c);
        out.push(0x22);
    } else if b == 0x5c {
        out.push(0x5c);
        out.push(0x5c);
    } else if b < 0x20 {
        out.push(0x5c);
        out.push(0x75);
        out.push(0x30);
        out.push(0x30);
        let hi = b / 16;
        let lo = b % 16;
        out.push(if hi < 10 { 0x30 + hi } else { 0x57 + hi });
        out.push(if lo < 10 { 0x30 + lo } else { 0x57 + lo });
    } else {
        out.push(b);
    }
    proof {
        assert(final(out)@ =~= old(out)@ + spec_escape_byte(b));
    }
}

fn push_escaped(out: &mut Vec<u8>, s: &Vec<u8>)
    ensures
        final(out)@ == old(out)@ + spec_escape(s@),
{
    let ghost base = out@;
    let mut i: usize = 0;
    proof {
        assert(s@.take(0) =~= Seq::<u8>::empty());
        assert(out@ =~= base + spec_escape(s@.take(0)));
    }
    while i < s.len()
        invariant
            i <= s.len(),
            out@ == base + spec_escape(s@.take(i as int)),
        decreases s.len() - i,
    {
        let ghost pre = s@.take(i as int);
        let ghost pre1 = s@.take(i + 1);
        proof {
            assert(pre1.drop_last() =~= pre);
            assert(pre1.last() == s@[i as int]);
        }
        push_escaped_byte(out, s[i]);
        proof {
            assert(out@ =~= base + spec_escape(pre1));
        }
        i = i + 1;
    }
    proof {
        assert(s@.take(s@.len() as int) =~= s@);
    }
}

/// Serializes a value, appending its bytes to `out`.
pub fn write_json(v: &JsonValue, out: &mut Vec<u8>)
    ensures
        final(out)@ == old(out)@ + spec_json_bytes(*v),
    decreases *v,
{
    let ghost base = out@;
    match v {
        JsonValue::Null => {
            out.push(0x6e);
            out.push(0x75);
            out.push(0x6c);
            out.push(0x6c);
            proof {
                assert(out@ =~= base + spec_json_bytes(*v));
            }
        },
        JsonValue::Bool(b) => {
            if *b {
                out.push(0x74);
                out.push(0x72);
                out.push(0x75);
                out.push(0x65);
            } else {
                out.push(0x66);
                out.push(0x61);
                out.push(0x6c);
                out.push(0x73);
                out.push(0x65);
            }
            proof {
                assert(out@ =~= base + spec_json_bytes(*v));
            }
        },
        JsonValue::Num(lit) => {
            let mut j: usize = 0;
            proof {
                assert(out@ =~= base + lit@.take(0));
            }
            while j < lit.len()
                invariant
                    j <= lit.len(),
                    out@ == base + lit@.take(j as int),
                decreases lit.len() - j,
            {
                out.push(lit[j]);
                proof {
                    assert(out@ =~= base + lit@.take(j + 1));
                }
                j = j + 1;
            }
            proof {
                assert(lit@.take(lit@.len() as int) =~= lit@);
                assert(out@ =~= base + spec_json_bytes(*v));
            }
        },
        JsonValue::Str(s) => {
            out.push(0x22);
            push_escaped(out, s);
            out.push(0x22);
            proof {
                assert(out@ =~= base + spec_json_bytes(*v));
            }
        },
        JsonValue::Arr(items) => {
            out.push(0x5b);
            let ghost inner_base = out@;
            let mut j: usize = 0;
            proof {
                assert(items@.take(0) =~= Seq::<JsonValue>::empty());
                assert(out@ =~= inner_base + spec_json_items(items@.take(0)));
            }
            while j < items.len()
                invariant
                    j <= items.len(),
                    out@ == inner_base + spec_json_items(items@.take(j as int)),
                    *v == JsonValue::Arr(*items),
                decreases items.len() - j,
            {
                let ghost pre = items@.take(j as int);
                let ghost pre1 = items@.take(j + 1);
                proof {
                    assert(pre1.drop_last() =~= pre);
                    assert(pre1.last() == items@[j as int]);
                }
                if j > 0 {
                    out.push(0x2c);
                }
                proof {
                    assert(decreases_to!(*v => v->Arr_0@[j as int]));
                    assert(v->Arr_0@[j as int] == items@[j as int]);
                }
                write_json(&items[j], out);
                proof {
                    assert(out@ =~= inner_base + spec_json_items(pre1));
                }
                j = j + 1;
            }
            out.push(0x5d);
            proof {
                assert(items@.take(items@.len() as int) =~= items@);
                assert(out@ =~= base + spec_json_bytes(*v));
            }
        },
        JsonValue::Obj(fields) => {
            out.push(0x7b);
            let ghost inner_base = out@;
            let mut j: usize = 0;
            proof {
                assert(fields@.take(0) =~= Seq::<(Vec<u8>, JsonValue)>::empty());
                assert(out@ =~= inner_base + spec_json_fields(fields@.take(0)));
            }
            while j < fields.len()
                invariant
                    j <= fields.len(),
                    out@ == inner_base + spec_json_fields(fields@.take(j as int)),
                    *v == JsonValue::Obj(*fields),
                decreases fields.len() - j,
            {
                let ghost pre = fields@.take(j as int);
                let ghost pre1 = fields@.take(j + 1);
                proof {
                    assert(pre1.drop_last() =~= pre);
                    assert(pre1.last() == fields@[j as int]);
                }
                if j > 0 {
                    out.push(0x2c);
                }
                let ghost mid0 = out@;
                out.push(0x22);
                let pair = &fields[j];
                proof {
                    assert(*pair == fields@[j as int]);
                }
                push_escaped(out, &pair.0);
                out.push(0x22);
                out.push(0x3a);
                proof {
                    assert(out@ =~= mid0 + seq![0x22u8] + spec_escape(fields@[j as int].0@)
                        + seq![0x22u8, 0x3au8]);
                }
                proof {
                    assert(decreases_to!(*v => v->Obj_0@[j as int].1));
                    assert(v->Obj_0@[j as int].1 == fields@[j as int].1);
                }
                let ghost mid1 = out@;
                write_json(&pair.1, out);
                proof {
                    assert(out@ =~= mid1 + spec_json_bytes(fields@[j as int].1));
                    assert(out@ =~= (if j == 0 { inner_base } else { inner_base
                        + spec_json_fields(pre) + seq![0x2cu8] }) + spec_json_field(
                        fields@[j as int]));
                    if j == 0 {
                        assert(pre1.len() == 1);
                        assert(pre1[0] == fields@[0]);
                        assert(spec_json_fields(pre1) == spec_json_field(fields@[0]));
                    } else {
                        assert(spec_json_fields(pre1) == spec_json_fields(pre) + seq![0x2cu8]
                            + spec_json_field(fields@[j as int]));
                    }
                    assert(out@ =~= inner_base + spec_json_fields(pre1));
                }
                j = j + 1;
            }
            out.push(0x7d);
            proof {
                assert(fields@.take(fields@.len() as int) =~= fields@);
                assert(out@ =~= base + spec_json_bytes(*v));
            }
        },
    }
}

/// Serializes a value to a fresh byte vector.
pub fn json_to_bytes(v: &JsonValue) -> (r: Vec<u8>)
    ensures
        r@ == spec_json_bytes(*v),
{
    let mut out: Vec<u8> = Vec::new();
    write_json(v, &mut out);
    proof {
        assert(out@ =~= spec_json_bytes(*v));
    }
    out
}

/// Copies a byte vector.
fn bytes_clone(b: &Vec<u8>) -> (r: Vec<u8>)
    ensures
        r@ == b@,
{
    let mut out: Vec<u8> = Vec::new();
    let mut i: usize = 0;
    while i < b.len()
        invariant
            i <= b.len(),
            out@ == b@.take(i as int),
        decreases b.len() - i,
    {
        out.push(b[i]);
        proof {
            assert(out@ =~= b@.take(i + 1));
        }
        i = i + 1;
    }
    proof {
        assert(b@.take(b@.len() as int) =~= b@);
    }
    out
}

/// Structural equality of two values, comparing byte contents by view.
pub open spec fn json_eq(a: JsonValue, b: JsonValue) -> bool
    decreases a,
{
    match (a, b) {
        (JsonValue::Null, JsonValue::Null) => true,
        (JsonValue::Bool(x), JsonValue::Bool(y)) => x == y,
        (JsonValue::Num(x), JsonValue::Num(y)) => x@ == y@,
        (JsonValue::Str(x), JsonValue::Str(y)) => x@ == y@,
        (JsonValue::Arr(x), JsonValue::Arr(y)) => x@.len() == y@.len() && forall|i: int|
            0 <= i < x@.len() ==> json_eq(#[trigger] x@[i], y@[i]),
        (JsonValue::Obj(x), JsonValue::Obj(y)) => x@.len() == y@.len() && forall|i: int|
            0 <= i < x@.len() ==> (#[trigger] x@[i]).0@ == y@[i].0@ && json_eq(x@[i].1, y@[i].1),
        _ => false,
    }
}

/// Deep copy of a value, structurally equal to the original.
pub fn json_clone(v: &JsonValue) -> (r: JsonValue)
    ensures
        json_eq(r, *v),
    decreases *v,
{
    match v {
        JsonValue::Null => JsonValue::Null,
        JsonValue::Bool(b) => JsonValue::Bool(*b),
        JsonValue::Num(lit) => JsonValue::Num(bytes_clone(lit)),
        JsonValue::Str(s) => JsonValue::Str(bytes_clone(s)),
        JsonValue::Arr(items) => {
            let mut out: Vec<JsonValue> = Vec::new();
            let mut i: usize = 0;
            while i < items.len()
                invariant
                    i <= items.len(),
                    *v == JsonValue::Arr(*items),
                    out@.len() == i,
                    forall|j: int| 0 <= j < i ==> json_eq(#[trigger] out@[j], items@[j]),
                decreases items.len() - i,
            {
                proof {
                    assert(decreases_to!(*v => v->Arr_0@[i as int]));
                }
                let c = json_clone(&items[i]);
                out.push(c);
                i = i + 1;
            }
            JsonValue::Arr(out)
        },
        JsonValue::Obj(fields) => {
            let mut out: Vec<(Vec<u8>, JsonValue)> = Vec::new();
            let mut i: usize = 0;
            while i < fields.len()
                invariant
                    i <= fields.len(),
                    *v == JsonValue::Obj(*fields),
                    out@.len() == i,
                    forall|j: int|
                        0 <= j < i ==> (#[trigger] out@[j]).0@ == fields@[j].0@ && json_eq(
                            out@[j].1,
                            fields@[j].1,
                        ),
                decreases fields.len() - i,
            {
                let k = bytes_clone(&fields[i].0);
                proof {
                    assert(decreases_to!(*v => v->Obj_0@[i as int].1));
                }
                let c = json_clone(&fields[i].1);
                out.push((k, c));
                i = i + 1;
            }
            JsonValue::Obj(out)
        },
    }
}

} // verus!

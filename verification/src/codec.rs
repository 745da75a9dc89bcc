//! The wire codec for tunnel frames: JSON text in, JSON text out.
//!
//! Incoming text is parsed into a [`JsonValue`] tree by a trusted wrapper
//! over serde_json; everything after that point — field lookup, defaults,
//! the body encoding rule, and the construction of the frame — is verified
//! against exact contracts. Outgoing frames are serialized entirely by the
//! library's own verified serializer.

use vstd::prelude::*;

use crate::body::{decode_body, spec_decode_body, spec_all_digits, spec_dec_val};
use crate::json::JsonValue;
use vstd::utf8::{decode_utf8, encode_utf8, valid_utf8};

verus! {

/// A frame that could not be decoded: malformed JSON, a missing or
/// ill-typed field, or an unknown payload tag. The frame is discarded and
/// the session continues.
#[derive(Clone, Copy, Debug, PartialEq, Eq, Structural)]
pub struct ParseError;

/// The value tree serde_json parses a byte string to, with numbers kept
/// as their literal text; nothing when the bytes are not valid JSON. The
/// result depends on the input bytes alone.
pub uninterp spec fn spec_parse_json(bytes: Seq<u8>) -> Option<JsonValue>;

#[verifier::external_type_specification]
#[verifier::external_body]
pub struct ExSerdeValue(serde_json::Value);

/// Rebuilds a serde_json tree as the library's value type, variant by
/// variant; numbers keep their literal text. Relies on serde_json::Value
/// and serde_json::Number::to_string.
#[verifier::external_body]
fn value_to_json(v: serde_json::Value) -> JsonValue {
    match v {
        serde_json::Value::Null => JsonValue::Null,
        serde_json::Value::Bool(b) => JsonValue::Bool(b),
        serde_json::Value::Number(n) => JsonValue::Num(n.to_string().into_bytes()),
        serde_json::Value::String(s) => JsonValue::Str(s.into_bytes()),
        serde_json::Value::Array(a) => JsonValue::Arr(
            a.into_iter().map(value_to_json).collect(),
        ),
        serde_json::Value::Object(o) => JsonValue::Obj(
            o.into_iter().map(|(k, w)| (k.into_bytes(), value_to_json(w))).collect(),
        ),
    }
}

/// Relies on serde_json::from_slice: parses JSON text into a value tree,
/// or nothing when the text is malformed.
#[verifier::external_body]
pub fn parse_json(bytes: &[u8]) -> (r: Option<JsonValue>)
    ensures
        r == spec_parse_json(bytes@),
{
    serde_json::from_slice::<serde_json::Value>(bytes).ok().map(value_to_json)
}

/// Relies on core::str::from_utf8: succeeds exactly on valid UTF-8 and
/// yields its decoding.
#[verifier::external_body]
fn bytes_to_string(b: &Vec<u8>) -> (r: Option<String>)
    ensures
        ({
            match r {
                Some(s) => valid_utf8(b@) && s@ == decode_utf8(b@),
                None => !valid_utf8(b@),
            }
        }),
{
    core::str::from_utf8(b.as_slice()).ok().map(|s| s.to_string())
}

/// First field of an object's member list under a key, scanning in order.
pub open spec fn jv_fields_get(fields: Seq<(Vec<u8>, JsonValue)>, key: Seq<u8>) -> Option<
    JsonValue,
>
    decreases fields.len(),
{
    if fields.len() == 0 {
        None
    } else if fields[0].0@ == key {
        Some(fields[0].1)
    } else {
        jv_fields_get(fields.drop_first(), key)
    }
}

/// The member of an object under a key; nothing for other value shapes.
pub open spec fn jv_get(v: JsonValue, key: Seq<u8>) -> Option<JsonValue> {
    match v {
        JsonValue::Obj(fields) => jv_fields_get(fields@, key),
        _ => None,
    }
}

/// The UTF-8 encoding of a key given as a character string.
pub open spec fn key_bytes(key: Seq<char>) -> Seq<u8> {
    encode_utf8(key)
}

/// Whether a stored key equals a given name.
fn key_matches(k: &Vec<u8>, name: &str) -> (r: bool)
    ensures
        r == (k@ == key_bytes(name@)),
{
    let nb = name.as_bytes();
    if k.len() != nb.len() {
        proof {
            assert(k@ != key_bytes(name@));
        }
        return false;
    }
    let mut i: usize = 0;
    while i < k.len()
        invariant
            i <= k.len(),
            k@.len() == nb@.len(),
            nb@ == key_bytes(name@),
            forall|j: int| 0 <= j < i ==> k@[j] == nb@[j],
        decreases k.len() - i,
    {
        if k[i] != nb[i] {
            proof {
                assert(k@ != key_bytes(name@));
            }
            return false;
        }
        i = i + 1;
    }
    proof {
        assert(k@ =~= nb@);
    }
    true
}

/// Looks a key up in an object value.
pub fn obj_get<'a>(v: &'a JsonValue, name: &str) -> (r: Option<&'a JsonValue>)
    ensures
        ({
            match r {
                Some(f) => jv_get(*v, key_bytes(name@)) == Some(*f),
                None => jv_get(*v, key_bytes(name@)) is None,
            }
        }),
{
    match v {
        JsonValue::Obj(fields) => {
            let ghost key = key_bytes(name@);
            let mut i: usize = 0;
            proof {
                assert(fields@.skip(0) =~= fields@);
            }
            while i < fields.len()
                invariant
                    i <= fields.len(),
                    *v == JsonValue::Obj(*fields),
                    jv_fields_get(fields@, key_bytes(name@)) == jv_fields_get(
                        fields@.skip(i as int),
                        key_bytes(name@),
                    ),
                decreases fields.len() - i,
            {
                let ghost rest = fields@.skip(i as int);
                proof {
                    assert(rest[0] == fields@[i as int]);
                    assert(rest.drop_first() =~= fields@.skip(i + 1));
                }
                if key_matches(&fields[i].0, name) {
                    return Some(&fields[i].1);
                }
                i = i + 1;
            }
            proof {
                assert(fields@.skip(fields@.len() as int) =~= Seq::<(Vec<u8>, JsonValue)>::empty());
            }
            None
        },
        _ => None,
    }
}

/// The character string a JSON string value stands for: defined when the
/// value is a string of valid UTF-8.
pub open spec fn spec_str_of(v: JsonValue) -> Option<Seq<char>> {
    match v {
        JsonValue::Str(b) => if valid_utf8(b@) {
            Some(decode_utf8(b@))
        } else {
            None
        },
        _ => None,
    }
}

/// Reads a value as a character string.
pub fn str_of(v: &JsonValue) -> (r: Option<String>)
    ensures
        ({
            match r {
                Some(s) => spec_str_of(*v) == Some(s@),
                None => spec_str_of(*v) is None,
            }
        }),
{
    match v {
        JsonValue::Str(b) => bytes_to_string(b),
        _ => None,
    }
}

/// The unsigned integer a number literal stands for: defined when the
/// literal is a nonempty digit string within `u64` range.
pub open spec fn spec_u64_of(v: JsonValue) -> Option<u64> {
    match v {
        JsonValue::Num(lit) => if lit@.len() > 0 && spec_all_digits(lit@) && spec_dec_val(lit@)
            <= u64::MAX {
            Some(spec_dec_val(lit@) as u64)
        } else {
            None
        },
        _ => None,
    }
}

/// Reads a value as an unsigned 64-bit integer.
fn u64_of(v: &JsonValue) -> (r: Option<u64>)
    ensures
        r == spec_u64_of(*v),
{
    match v {
        JsonValue::Num(lit) => {
            if lit.len() == 0 {
                return None;
            }
            let mut val: u64 = 0;
            let mut i: usize = 0;
            proof {
                assert(lit@.take(0) =~= Seq::<u8>::empty());
            }
            while i < lit.len()
                invariant
                    i <= lit.len(),
                    *v == JsonValue::Num(*lit),
                    lit@.len() > 0,
                    spec_all_digits(lit@.take(i as int)),
                    val == spec_dec_val(lit@.take(i as int)),
                decreases lit.len() - i,
            {
                let ghost pre = lit@.take(i as int);
                let ghost pre1 = lit@.take(i + 1);
                proof {
                    assert(pre1.drop_last() =~= pre);
                    assert(pre1.last() == lit@[i as int]);
                }
                let b = lit[i];
                if b < 0x30 || b > 0x39 {
                    proof {
                        assert(!spec_all_digits(lit@));
                    }
                    return None;
                }
                let d = (b - 0x30) as u64;
                let big = match val.checked_mul(10) {
                    Some(x) => x,
                    None => {
                        proof {
                            lemma_dec_val_grows(lit@, i as int);
                        }
                        return None;
                    },
                };
                let next = match big.checked_add(d) {
                    Some(x) => x,
                    None => {
                        proof {
                            lemma_dec_val_grows(lit@, i as int);
                        }
                        return None;
                    },
                };
                val = next;
                i = i + 1;
            }
            proof {
                assert(lit@.take(lit@.len() as int) =~= lit@);
            }
            Some(val)
        },
        _ => None,
    }
}

/// Once a digit prefix exceeds `u64::MAX`, the whole digit string does.
proof fn lemma_dec_val_grows(s: Seq<u8>, i: int)
    requires
        0 <= i < s.len(),
        spec_all_digits(s.take(i)),
        spec_dec_val(s.take(i)) * 10 + (s[i] - 0x30) > u64::MAX,
        0x30 <= s[i] <= 0x39,
    ensures
        spec_all_digits(s) ==> spec_dec_val(s) > u64::MAX,
{
    if spec_all_digits(s) {
        assert(s.take(i + 1).drop_last() =~= s.take(i));
        assert(s.take(i + 1).last() == s[i]);
        assert(spec_dec_val(s.take(i + 1)) > u64::MAX);
        lemma_dec_val_suffix(s, i + 1);
    }
}

/// A digit string's value is at least the value of any of its prefixes.
proof fn lemma_dec_val_suffix(s: Seq<u8>, i: int)
    requires
        0 <= i <= s.len(),
        spec_all_digits(s),
    ensures
        spec_dec_val(s) >= spec_dec_val(s.take(i)),
    decreases s.len() - i,
{
    if i < s.len() {
        assert(s.take(i + 1).drop_last() =~= s.take(i));
        assert(s.take(i + 1).last() == s[i]);
        let v = spec_dec_val(s.take(i));
        lemma_dec_val_nonneg_local(s.take(i));
        assert(v * 10 >= v) by (nonlinear_arith)
            requires v >= 0;
        lemma_dec_val_suffix(s, i + 1);
    } else {
        assert(s.take(i) =~= s);
    }
}

proof fn lemma_dec_val_nonneg_local(s: Seq<u8>)
    requires
        spec_all_digits(s),
    ensures
        spec_dec_val(s) >= 0,
    decreases s.len(),
{
    if s.len() > 0 {
        assert(spec_all_digits(s.drop_last()));
        lemma_dec_val_nonneg_local(s.drop_last());
        assert(spec_dec_val(s.drop_last()) * 10 >= 0) by (nonlinear_arith)
            requires spec_dec_val(s.drop_last()) >= 0;
    }
}


/// Exact string equality.
pub fn str_eq(a: &str, b: &str) -> (r: bool)
    ensures
        r == (a@ == b@),
{
    let alen = a.unicode_len();
    let blen = b.unicode_len();
    if alen != blen {
        return false;
    }
    let mut i: usize = 0;
    while i < alen
        invariant
            alen == a@.len(),
            blen == b@.len(),
            alen == blen,
            i <= alen,
            forall|j: int| 0 <= j < i ==> a@[j] == b@[j],
        decreases alen - i,
    {
        if a.get_char(i) != b.get_char(i) {
            return false;
        }
        i = i + 1;
    }
    proof {
        assert(a@ =~= b@);
    }
    true
}

/// Whether a required string field is present and well formed.
pub open spec fn spec_req_str_wf(o: JsonValue, k: Seq<char>) -> bool {
    jv_get(o, key_bytes(k)) matches Some(f) && spec_str_of(f) is Some
}

/// The value of a required string field.
pub open spec fn spec_req_str_val(o: JsonValue, k: Seq<char>) -> Seq<char> {
    spec_str_of(jv_get(o, key_bytes(k))->Some_0)->Some_0
}

fn req_str(o: &JsonValue, k: &str) -> (r: Result<String, ParseError>)
    ensures
        r is Ok <==> spec_req_str_wf(*o, k@),
        r matches Ok(s) ==> s@ == spec_req_str_val(*o, k@),
{
    match obj_get(o, k) {
        Some(f) => match str_of(f) {
            Some(s) => Ok(s),
            None => Err(ParseError),
        },
        None => Err(ParseError),
    }
}

/// Whether an optional string field is absent, null, or a well-formed
/// string.
pub open spec fn spec_opt_str_wf(o: JsonValue, k: Seq<char>) -> bool {
    match jv_get(o, key_bytes(k)) {
        None => true,
        Some(f) => f is Null || spec_str_of(f) is Some,
    }
}

/// The value of an optional string field; absent and null read as nothing.
pub open spec fn spec_opt_str_val(o: JsonValue, k: Seq<char>) -> Option<Seq<char>> {
    match jv_get(o, key_bytes(k)) {
        None => None,
        Some(f) => if f is Null {
            None
        } else {
            spec_str_of(f)
        },
    }
}

fn opt_str(o: &JsonValue, k: &str) -> (r: Result<Option<String>, ParseError>)
    ensures
        r is Ok <==> spec_opt_str_wf(*o, k@),
        r matches Ok(s) ==> ({
            match s {
                Some(x) => spec_opt_str_val(*o, k@) == Some(x@),
                None => spec_opt_str_val(*o, k@) is None,
            }
        }),
{
    match obj_get(o, k) {
        Some(f) => match f {
            JsonValue::Null => Ok(None),
            _ => match str_of(f) {
                Some(s) => Ok(Some(s)),
                None => Err(ParseError),
            },
        },
        None => Ok(None),
    }
}

/// Whether a required unsigned integer field is present and in range.
pub open spec fn spec_req_u64_wf(o: JsonValue, k: Seq<char>) -> bool {
    jv_get(o, key_bytes(k)) matches Some(f) && spec_u64_of(f) is Some
}

/// The value of a required unsigned integer field.
pub open spec fn spec_req_u64_val(o: JsonValue, k: Seq<char>) -> u64 {
    spec_u64_of(jv_get(o, key_bytes(k))->Some_0)->Some_0
}

fn req_u64(o: &JsonValue, k: &str) -> (r: Result<u64, ParseError>)
    ensures
        r is Ok <==> spec_req_u64_wf(*o, k@),
        r matches Ok(n) ==> n == spec_req_u64_val(*o, k@),
{
    match obj_get(o, k) {
        Some(f) => match u64_of(f) {
            Some(n) => Ok(n),
            None => Err(ParseError),
        },
        None => Err(ParseError),
    }
}

/// Whether an optional unsigned integer field is absent, null, or in
/// range.
pub open spec fn spec_opt_u64_wf(o: JsonValue, k: Seq<char>) -> bool {
    match jv_get(o, key_bytes(k)) {
        None => true,
        Some(f) => f is Null || spec_u64_of(f) is Some,
    }
}

/// The value of an optional unsigned integer field.
pub open spec fn spec_opt_u64_val(o: JsonValue, k: Seq<char>) -> Option<u64> {
    match jv_get(o, key_bytes(k)) {
        None => None,
        Some(f) => if f is Null {
            None
        } else {
            spec_u64_of(f)
        },
    }
}

fn opt_u64(o: &JsonValue, k: &str) -> (r: Result<Option<u64>, ParseError>)
    ensures
        r is Ok <==> spec_opt_u64_wf(*o, k@),
        r matches Ok(n) ==> n == spec_opt_u64_val(*o, k@),
{
    match obj_get(o, k) {
        Some(f) => match f {
            JsonValue::Null => Ok(None),
            _ => match u64_of(f) {
                Some(n) => Ok(Some(n)),
                None => Err(ParseError),
            },
        },
        None => Ok(None),
    }
}

/// Whether a value is an object whose every member is a well-formed string
/// under a UTF-8 key.
pub open spec fn spec_str_map_wf(v: JsonValue) -> bool {
    v matches JsonValue::Obj(fields) && forall|i: int|
        0 <= i < fields@.len() ==> valid_utf8((#[trigger] fields@[i]).0@) && spec_str_of(
            fields@[i].1,
        ) is Some
}

/// The character pair one string-map member stands for.
pub open spec fn spec_pair_of_field(f: (Vec<u8>, JsonValue)) -> (Seq<char>, Seq<char>) {
    (decode_utf8(f.0@), spec_str_of(f.1)->Some_0)
}

/// The pair list a string-map object stands for, in member order.
pub open spec fn spec_str_map_val(v: JsonValue) -> Seq<(Seq<char>, Seq<char>)> {
    v->Obj_0@.map(|i: int, f: (Vec<u8>, JsonValue)| spec_pair_of_field(f))
}

fn str_map_of(v: &JsonValue) -> (r: Result<Vec<(String, String)>, ParseError>)
    ensures
        r is Ok <==> spec_str_map_wf(*v),
        r matches Ok(m) ==> crate::headers::headers_view(m@) == spec_str_map_val(*v),
{
    match v {
        JsonValue::Obj(fields) => {
            let mut out: Vec<(String, String)> = Vec::new();
            let mut i: usize = 0;
            while i < fields.len()
                invariant
                    i <= fields.len(),
                    *v == JsonValue::Obj(*fields),
                    forall|j: int|
                        0 <= j < i ==> valid_utf8((#[trigger] fields@[j]).0@) && spec_str_of(
                            fields@[j].1,
                        ) is Some,
                    crate::headers::headers_view(out@) == fields@.take(i as int).map(
                        |j: int, f: (Vec<u8>, JsonValue)| spec_pair_of_field(f),
                    ),
                decreases fields.len() - i,
            {
                let key = match bytes_to_string(&fields[i].0) {
                    Some(s) => s,
                    None => {
                        return Err(ParseError);
                    },
                };
                let value = match str_of(&fields[i].1) {
                    Some(s) => s,
                    None => {
                        return Err(ParseError);
                    },
                };
                let ghost prev = out@;
                out.push((key, value));
                proof {
                    let goal = fields@.take(i + 1).map(
                        |j: int, f: (Vec<u8>, JsonValue)| spec_pair_of_field(f),
                    );
                    assert(crate::headers::headers_view(prev).len() == prev.len());
                    assert(fields@.take(i as int).len() == i as int);
                    assert(out@.len() == i + 1);
                    assert forall|j: int| 0 <= j < i + 1 implies crate::headers::headers_view(
                        out@,
                    )[j] == goal[j] by {
                        assert(fields@.take(i + 1)[j] == fields@[j]);
                        if j < i {
                            assert(out@[j] == prev[j]);
                            assert(crate::headers::headers_view(prev)[j] == spec_pair_of_field(
                                fields@.take(i as int)[j],
                            ));
                        } else {
                            assert(out@[j] == (key, value));
                        }
                    }
                    assert(crate::headers::headers_view(out@) =~= goal);
                }
                i = i + 1;
            }
            proof {
                assert(fields@.take(fields@.len() as int) =~= fields@);
            }
            Ok(out)
        },
        _ => Err(ParseError),
    }
}

/// A string-map field with an empty default: absent or null reads as the
/// empty map.
pub open spec fn spec_map_field_wf(o: JsonValue, k: Seq<char>) -> bool {
    match jv_get(o, key_bytes(k)) {
        None => true,
        Some(f) => f is Null || spec_str_map_wf(f),
    }
}

pub open spec fn spec_map_field_val(o: JsonValue, k: Seq<char>) -> Seq<(Seq<char>, Seq<char>)> {
    match jv_get(o, key_bytes(k)) {
        None => Seq::empty(),
        Some(f) => if f is Null {
            Seq::empty()
        } else {
            spec_str_map_val(f)
        },
    }
}

fn map_field(o: &JsonValue, k: &str) -> (r: Result<Vec<(String, String)>, ParseError>)
    ensures
        r is Ok <==> spec_map_field_wf(*o, k@),
        r matches Ok(m) ==> crate::headers::headers_view(m@) == spec_map_field_val(*o, k@),
{
    match obj_get(o, k) {
        Some(f) => match f {
            JsonValue::Null => Ok(Vec::new()),
            _ => str_map_of(f),
        },
        None => Ok(Vec::new()),
    }
}

/// Whether a value is an array of well-formed strings.
pub open spec fn spec_str_list_wf(v: JsonValue) -> bool {
    v matches JsonValue::Arr(items) && forall|i: int|
        0 <= i < items@.len() ==> spec_str_of(#[trigger] items@[i]) is Some
}

/// The string one list element stands for.
pub open spec fn spec_str_of_item(f: JsonValue) -> Seq<char> {
    spec_str_of(f)->Some_0
}

/// The string list an array stands for, in order.
pub open spec fn spec_str_list_val(v: JsonValue) -> Seq<Seq<char>> {
    v->Arr_0@.map(|i: int, f: JsonValue| spec_str_of_item(f))
}

/// View of a string list.
pub open spec fn strings_view(items: Seq<String>) -> Seq<Seq<char>> {
    items.map(|i: int, s: String| s@)
}

fn str_list_of(v: &JsonValue) -> (r: Result<Vec<String>, ParseError>)
    ensures
        r is Ok <==> spec_str_list_wf(*v),
        r matches Ok(m) ==> strings_view(m@) == spec_str_list_val(*v),
{
    match v {
        JsonValue::Arr(items) => {
            let mut out: Vec<String> = Vec::new();
            let mut i: usize = 0;
            while i < items.len()
                invariant
                    i <= items.len(),
                    *v == JsonValue::Arr(*items),
                    forall|j: int| 0 <= j < i ==> spec_str_of(#[trigger] items@[j]) is Some,
                    strings_view(out@) == items@.take(i as int).map(
                        |j: int, f: JsonValue| spec_str_of_item(f),
                    ),
                decreases items.len() - i,
            {
                let s = match str_of(&items[i]) {
                    Some(s) => s,
                    None => {
                        return Err(ParseError);
                    },
                };
                let ghost prev = out@;
                out.push(s);
                proof {
                    let goal = items@.take(i + 1).map(|j: int, f: JsonValue| spec_str_of_item(f));
                    assert(strings_view(prev).len() == prev.len());
                    assert(items@.take(i as int).len() == i as int);
                    assert(out@.len() == i + 1);
                    assert forall|j: int| 0 <= j < i + 1 implies strings_view(out@)[j]
                        == goal[j] by {
                        assert(items@.take(i + 1)[j] == items@[j]);
                        if j < i {
                            assert(out@[j] == prev[j]);
                            assert(strings_view(prev)[j] == spec_str_of_item(
                                items@.take(i as int)[j],
                            ));
                        } else {
                            assert(out@[j] == s);
                        }
                    }
                    assert(strings_view(out@) =~= goal);
                }
                i = i + 1;
            }
            proof {
                assert(items@.take(items@.len() as int) =~= items@);
            }
            Ok(out)
        },
        _ => Err(ParseError),
    }
}

/// A string-list field with an empty default.
pub open spec fn spec_list_field_wf(o: JsonValue, k: Seq<char>) -> bool {
    match jv_get(o, key_bytes(k)) {
        None => true,
        Some(f) => f is Null || spec_str_list_wf(f),
    }
}

pub open spec fn spec_list_field_val(o: JsonValue, k: Seq<char>) -> Seq<Seq<char>> {
    match jv_get(o, key_bytes(k)) {
        None => Seq::empty(),
        Some(f) => if f is Null {
            Seq::empty()
        } else {
            spec_str_list_val(f)
        },
    }
}

fn list_field(o: &JsonValue, k: &str) -> (r: Result<Vec<String>, ParseError>)
    ensures
        r is Ok <==> spec_list_field_wf(*o, k@),
        r matches Ok(m) ==> strings_view(m@) == spec_list_field_val(*o, k@),
{
    match obj_get(o, k) {
        Some(f) => match f {
            JsonValue::Null => Ok(Vec::new()),
            _ => str_list_of(f),
        },
        None => Ok(Vec::new()),
    }
}

/// The body field of an HTTP payload: absent reads as no body; a present
/// field follows the body encoding rule.
pub open spec fn spec_body_field_wf(o: JsonValue) -> bool {
    match jv_get(o, key_bytes("body"@)) {
        None => true,
        Some(f) => spec_decode_body(f) is Ok,
    }
}

pub open spec fn spec_body_field_val(o: JsonValue) -> Option<Seq<u8>> {
    match jv_get(o, key_bytes("body"@)) {
        None => None,
        Some(f) => spec_decode_body(f)->Ok_0,
    }
}

fn body_field(o: &JsonValue) -> (r: Result<Option<Vec<u8>>, ParseError>)
    ensures
        r is Ok <==> spec_body_field_wf(*o),
        r matches Ok(b) ==> ({
            match b {
                Some(bytes) => spec_body_field_val(*o) == Some(bytes@),
                None => spec_body_field_val(*o) is None,
            }
        }),
{
    match obj_get(o, "body") {
        Some(f) => match decode_body(f) {
            Ok(b) => Ok(b),
            Err(_) => Err(ParseError),
        },
        None => Ok(None),
    }
}

/// Whether a required string-list field is present and well formed.
pub open spec fn spec_req_list_wf(o: JsonValue, k: Seq<char>) -> bool {
    jv_get(o, key_bytes(k)) matches Some(f) && spec_str_list_wf(f)
}

pub open spec fn spec_req_list_val(o: JsonValue, k: Seq<char>) -> Seq<Seq<char>> {
    spec_str_list_val(jv_get(o, key_bytes(k))->Some_0)
}

fn req_list(o: &JsonValue, k: &str) -> (r: Result<Vec<String>, ParseError>)
    ensures
        r is Ok <==> spec_req_list_wf(*o, k@),
        r matches Ok(m) ==> strings_view(m@) == spec_req_list_val(*o, k@),
{
    match obj_get(o, k) {
        Some(f) => str_list_of(f),
        None => Err(ParseError),
    }
}

/// Whether a required string-map field is present and well formed.
pub open spec fn spec_req_map_wf(o: JsonValue, k: Seq<char>) -> bool {
    jv_get(o, key_bytes(k)) matches Some(f) && spec_str_map_wf(f)
}

pub open spec fn spec_req_map_val(o: JsonValue, k: Seq<char>) -> Seq<(Seq<char>, Seq<char>)> {
    spec_str_map_val(jv_get(o, key_bytes(k))->Some_0)
}

fn req_map(o: &JsonValue, k: &str) -> (r: Result<Vec<(String, String)>, ParseError>)
    ensures
        r is Ok <==> spec_req_map_wf(*o, k@),
        r matches Ok(m) ==> crate::headers::headers_view(m@) == spec_req_map_val(*o, k@),
{
    match obj_get(o, k) {
        Some(f) => str_map_of(f),
        None => Err(ParseError),
    }
}

/// Whether a required boolean field is present.
pub open spec fn spec_req_bool_wf(o: JsonValue, k: Seq<char>) -> bool {
    jv_get(o, key_bytes(k)) matches Some(f) && f is Bool
}

pub open spec fn spec_req_bool_val(o: JsonValue, k: Seq<char>) -> bool {
    jv_get(o, key_bytes(k))->Some_0->Bool_0
}

fn req_bool(o: &JsonValue, k: &str) -> (r: Result<bool, ParseError>)
    ensures
        r is Ok <==> spec_req_bool_wf(*o, k@),
        r matches Ok(b) ==> b == spec_req_bool_val(*o, k@),
{
    match obj_get(o, k) {
        Some(f) => match f {
            JsonValue::Bool(b) => Ok(*b),
            _ => Err(ParseError),
        },
        None => Err(ParseError),
    }
}

/// Whether a required byte-array field is present: an array under the
/// byte-integer encoding.
pub open spec fn spec_req_bytes_wf(o: JsonValue, k: Seq<char>) -> bool {
    jv_get(o, key_bytes(k)) matches Some(f) && f is Arr && crate::body::spec_decode_byte_array(
        f->Arr_0@,
    ) is Ok
}

pub open spec fn spec_req_bytes_val(o: JsonValue, k: Seq<char>) -> Seq<u8> {
    crate::body::spec_decode_byte_array(jv_get(o, key_bytes(k))->Some_0->Arr_0@)->Ok_0
}

fn req_bytes(o: &JsonValue, k: &str) -> (r: Result<Vec<u8>, ParseError>)
    ensures
        r is Ok <==> spec_req_bytes_wf(*o, k@),
        r matches Ok(b) ==> b@ == spec_req_bytes_val(*o, k@),
{
    match obj_get(o, k) {
        Some(f) => match f {
            JsonValue::Arr(_) => match decode_body(f) {
                Ok(Some(b)) => Ok(b),
                Ok(None) => Err(ParseError),
                Err(_) => Err(ParseError),
            },
            _ => Err(ParseError),
        },
        None => Err(ParseError),
    }
}

/// An optional byte-array field: absent or null reads as nothing.
pub open spec fn spec_opt_bytes_wf(o: JsonValue, k: Seq<char>) -> bool {
    match jv_get(o, key_bytes(k)) {
        None => true,
        Some(f) => f is Null || (f is Arr && crate::body::spec_decode_byte_array(f->Arr_0@) is Ok),
    }
}

pub open spec fn spec_opt_bytes_val(o: JsonValue, k: Seq<char>) -> Option<Seq<u8>> {
    match jv_get(o, key_bytes(k)) {
        None => None,
        Some(f) => if f is Null {
            None
        } else {
            Some(crate::body::spec_decode_byte_array(f->Arr_0@)->Ok_0)
        },
    }
}

fn opt_bytes(o: &JsonValue, k: &str) -> (r: Result<Option<Vec<u8>>, ParseError>)
    ensures
        r is Ok <==> spec_opt_bytes_wf(*o, k@),
        r matches Ok(b) ==> ({
            match b {
                Some(bytes) => spec_opt_bytes_val(*o, k@) == Some(bytes@),
                None => spec_opt_bytes_val(*o, k@) is None,
            }
        }),
{
    match obj_get(o, k) {
        Some(f) => match f {
            JsonValue::Null => Ok(None),
            JsonValue::Arr(_) => match decode_body(f) {
                Ok(Some(b)) => Ok(Some(b)),
                Ok(None) => Err(ParseError),
                Err(_) => Err(ParseError),
            },
            _ => Err(ParseError),
        },
        None => Ok(None),
    }
}

/// A required JSON-value field, carried through unchanged.
pub open spec fn spec_req_any_wf(o: JsonValue, k: Seq<char>) -> bool {
    jv_get(o, key_bytes(k)) is Some
}

fn req_any(o: &JsonValue, k: &str) -> (r: Result<JsonValue, ParseError>)
    ensures
        r is Ok <==> spec_req_any_wf(*o, k@),
        r matches Ok(x) ==> crate::json::json_eq(x, jv_get(*o, key_bytes(k@))->Some_0),
{
    match obj_get(o, k) {
        Some(f) => Ok(crate::json::json_clone(f)),
        None => Err(ParseError),
    }
}

/// Option-string against an optional character string.
pub open spec fn spec_opt_string_matches(o: Option<String>, s: Option<Seq<char>>) -> bool {
    match (o, s) {
        (Some(a), Some(b)) => a@ == b,
        (None, None) => true,
        _ => false,
    }
}

/// Option-bytes against an optional byte string.
pub open spec fn spec_opt_bytes_matches(o: Option<Vec<u8>>, s: Option<Seq<u8>>) -> bool {
    match (o, s) {
        (Some(a), Some(b)) => a@ == b,
        (None, None) => true,
        _ => false,
    }
}

use crate::frame::{
    AuthPayload, ControlPayload, CustomPayload, DeliveryMode, ErrorCategory, ErrorPayload,
    HttpPayload, MessageEncoding, MessageMetadata, MessagePayload, MessagePriority,
    ProtocolMessage, StatsPayload, StreamAction, StreamPayload, TunnelEnvelope, TunnelMessage,
};
use crate::frame::ConnectionStatus as FrameConnectionStatus;
use crate::headers::headers_view;

/// The priority a wire name stands for.
pub open spec fn spec_priority_of(s: Seq<char>) -> Option<MessagePriority> {
    if s == "low"@ {
        Some(MessagePriority::Low)
    } else if s == "normal"@ {
        Some(MessagePriority::Normal)
    } else if s == "high"@ {
        Some(MessagePriority::High)
    } else if s == "critical"@ {
        Some(MessagePriority::Critical)
    } else {
        None
    }
}

fn priority_of(s: &str) -> (r: Option<MessagePriority>)
    ensures
        r == spec_priority_of(s@),
{
    if str_eq(s, "low") {
        Some(MessagePriority::Low)
    } else if str_eq(s, "normal") {
        Some(MessagePriority::Normal)
    } else if str_eq(s, "high") {
        Some(MessagePriority::High)
    } else if str_eq(s, "critical") {
        Some(MessagePriority::Critical)
    } else {
        None
    }
}

/// The delivery mode a wire name stands for.
pub open spec fn spec_delivery_of(s: Seq<char>) -> Option<DeliveryMode> {
    if s == "at_most_once"@ {
        Some(DeliveryMode::AtMostOnce)
    } else if s == "at_least_once"@ {
        Some(DeliveryMode::AtLeastOnce)
    } else if s == "exactly_once"@ {
        Some(DeliveryMode::ExactlyOnce)
    } else {
        None
    }
}

fn delivery_of(s: &str) -> (r: Option<DeliveryMode>)
    ensures
        r == spec_delivery_of(s@),
{
    if str_eq(s, "at_most_once") {
        Some(DeliveryMode::AtMostOnce)
    } else if str_eq(s, "at_least_once") {
        Some(DeliveryMode::AtLeastOnce)
    } else if str_eq(s, "exactly_once") {
        Some(DeliveryMode::ExactlyOnce)
    } else {
        None
    }
}

/// The wire encoding a wire name stands for.
pub open spec fn spec_encoding_of(s: Seq<char>) -> Option<MessageEncoding> {
    if s == "json"@ {
        Some(MessageEncoding::Json)
    } else if s == "msgpack"@ {
        Some(MessageEncoding::MessagePack)
    } else if s == "protobuf"@ {
        Some(MessageEncoding::Protobuf)
    } else if s == "cbor"@ {
        Some(MessageEncoding::Cbor)
    } else {
        None
    }
}

fn encoding_of(s: &str) -> (r: Option<MessageEncoding>)
    ensures
        r == spec_encoding_of(s@),
{
    if str_eq(s, "json") {
        Some(MessageEncoding::Json)
    } else if str_eq(s, "msgpack") {
        Some(MessageEncoding::MessagePack)
    } else if str_eq(s, "protobuf") {
        Some(MessageEncoding::Protobuf)
    } else if str_eq(s, "cbor") {
        Some(MessageEncoding::Cbor)
    } else {
        None
    }
}

/// The error category a wire name stands for.
pub open spec fn spec_category_of(s: Seq<char>) -> Option<ErrorCategory> {
    if s == "Authentication"@ {
        Some(ErrorCategory::Authentication)
    } else if s == "Authorization"@ {
        Some(ErrorCategory::Authorization)
    } else if s == "Network"@ {
        Some(ErrorCategory::Network)
    } else if s == "Protocol"@ {
        Some(ErrorCategory::Protocol)
    } else if s == "Validation"@ {
        Some(ErrorCategory::Validation)
    } else if s == "Internal"@ {
        Some(ErrorCategory::Internal)
    } else if s == "External"@ {
        Some(ErrorCategory::External)
    } else if s == "Timeout"@ {
        Some(ErrorCategory::Timeout)
    } else if s == "RateLimit"@ {
        Some(ErrorCategory::RateLimit)
    } else {
        None
    }
}

fn category_of(s: &str) -> (r: Option<ErrorCategory>)
    ensures
        r == spec_category_of(s@),
{
    if str_eq(s, "Authentication") {
        Some(ErrorCategory::Authentication)
    } else if str_eq(s, "Authorization") {
        Some(ErrorCategory::Authorization)
    } else if str_eq(s, "Network") {
        Some(ErrorCategory::Network)
    } else if str_eq(s, "Protocol") {
        Some(ErrorCategory::Protocol)
    } else if str_eq(s, "Validation") {
        Some(ErrorCategory::Validation)
    } else if str_eq(s, "Internal") {
        Some(ErrorCategory::Internal)
    } else if str_eq(s, "External") {
        Some(ErrorCategory::External)
    } else if str_eq(s, "Timeout") {
        Some(ErrorCategory::Timeout)
    } else if str_eq(s, "RateLimit") {
        Some(ErrorCategory::RateLimit)
    } else {
        None
    }
}

/// The connection status a wire name stands for.
pub open spec fn spec_conn_status_of(s: Seq<char>) -> Option<FrameConnectionStatus> {
    if s == "Connecting"@ {
        Some(FrameConnectionStatus::Connecting)
    } else if s == "Connected"@ {
        Some(FrameConnectionStatus::Connected)
    } else if s == "Authenticated"@ {
        Some(FrameConnectionStatus::Authenticated)
    } else if s == "Disconnecting"@ {
        Some(FrameConnectionStatus::Disconnecting)
    } else if s == "Disconnected"@ {
        Some(FrameConnectionStatus::Disconnected)
    } else if s == "Reconnecting"@ {
        Some(FrameConnectionStatus::Reconnecting)
    } else if s == "Failed"@ {
        Some(FrameConnectionStatus::Failed)
    } else {
        None
    }
}

fn conn_status_of(s: &str) -> (r: Option<FrameConnectionStatus>)
    ensures
        r == spec_conn_status_of(s@),
{
    if str_eq(s, "Connecting") {
        Some(FrameConnectionStatus::Connecting)
    } else if str_eq(s, "Connected") {
        Some(FrameConnectionStatus::Connected)
    } else if str_eq(s, "Authenticated") {
        Some(FrameConnectionStatus::Authenticated)
    } else if str_eq(s, "Disconnecting") {
        Some(FrameConnectionStatus::Disconnecting)
    } else if str_eq(s, "Disconnected") {
        Some(FrameConnectionStatus::Disconnected)
    } else if str_eq(s, "Reconnecting") {
        Some(FrameConnectionStatus::Reconnecting)
    } else if str_eq(s, "Failed") {
        Some(FrameConnectionStatus::Failed)
    } else {
        None
    }
}

/// The stream action a wire name stands for.
pub open spec fn spec_action_of(s: Seq<char>) -> Option<StreamAction> {
    if s == "Start"@ {
        Some(StreamAction::Start)
    } else if s == "Pause"@ {
        Some(StreamAction::Pause)
    } else if s == "Resume"@ {
        Some(StreamAction::Resume)
    } else if s == "Stop"@ {
        Some(StreamAction::Stop)
    } else if s == "Reset"@ {
        Some(StreamAction::Reset)
    } else {
        None
    }
}

fn action_of(s: &str) -> (r: Option<StreamAction>)
    ensures
        r == spec_action_of(s@),
{
    if str_eq(s, "Start") {
        Some(StreamAction::Start)
    } else if str_eq(s, "Pause") {
        Some(StreamAction::Pause)
    } else if str_eq(s, "Resume") {
        Some(StreamAction::Resume)
    } else if str_eq(s, "Stop") {
        Some(StreamAction::Stop)
    } else if str_eq(s, "Reset") {
        Some(StreamAction::Reset)
    } else {
        None
    }
}

/// Whether a frame envelope object is well formed.
pub open spec fn spec_envelope_wf(v: JsonValue) -> bool {
    &&& spec_req_str_wf(v, "tunnel_id"@)
    &&& spec_req_str_wf(v, "client_id"@)
    &&& spec_opt_str_wf(v, "server_id"@)
    &&& spec_opt_str_wf(v, "protocol_version"@)
    &&& spec_opt_str_wf(v, "compression"@)
    &&& spec_opt_str_wf(v, "encryption"@)
}

/// Whether `e` is the decoding of an envelope object: required ids, the
/// optional fields, and the protocol version defaulted when absent.
pub open spec fn spec_envelope_matches(v: JsonValue, e: TunnelEnvelope) -> bool {
    &&& e.tunnel_id@ == spec_req_str_val(v, "tunnel_id"@)
    &&& e.client_id@ == spec_req_str_val(v, "client_id"@)
    &&& spec_opt_string_matches(e.server_id, spec_opt_str_val(v, "server_id"@))
    &&& spec_opt_string_matches(
        e.protocol_version,
        match spec_opt_str_val(v, "protocol_version"@) {
            None => Some("1.0"@),
            Some(s) => Some(s),
        },
    )
    &&& spec_opt_string_matches(e.compression, spec_opt_str_val(v, "compression"@))
    &&& spec_opt_string_matches(e.encryption, spec_opt_str_val(v, "encryption"@))
}

fn decode_envelope(v: &JsonValue) -> (r: Result<TunnelEnvelope, ParseError>)
    ensures
        r is Ok <==> spec_envelope_wf(*v),
        r matches Ok(e) ==> spec_envelope_matches(*v, e),
{
    let tunnel_id = req_str(v, "tunnel_id")?;
    let client_id = req_str(v, "client_id")?;
    let server_id = opt_str(v, "server_id")?;
    let protocol_version = match opt_str(v, "protocol_version")? {
        Some(s) => Some(s),
        None => crate::frame::default_protocol_version(),
    };
    let compression = opt_str(v, "compression")?;
    let encryption = opt_str(v, "encryption")?;
    Ok(TunnelEnvelope { tunnel_id, client_id, server_id, protocol_version, compression, encryption })
}

/// Whether a metadata object is well formed: required id, type and
/// timestamp; optional fields either absent or of the right shape, with
/// enumeration names drawn from the wire vocabulary.
pub open spec fn spec_metadata_wf(v: JsonValue) -> bool {
    &&& spec_req_str_wf(v, "id"@)
    &&& spec_req_str_wf(v, "message_type"@)
    &&& spec_opt_str_wf(v, "version"@)
    &&& spec_req_u64_wf(v, "timestamp"@)
    &&& spec_opt_str_wf(v, "priority"@)
    &&& (match spec_opt_str_val(v, "priority"@) {
        None => true,
        Some(p) => spec_priority_of(p) is Some,
    })
    &&& spec_opt_str_wf(v, "delivery_mode"@)
    &&& (match spec_opt_str_val(v, "delivery_mode"@) {
        None => true,
        Some(p) => spec_delivery_of(p) is Some,
    })
    &&& spec_opt_str_wf(v, "encoding"@)
    &&& (match spec_opt_str_val(v, "encoding"@) {
        None => true,
        Some(p) => spec_encoding_of(p) is Some,
    })
    &&& spec_opt_str_wf(v, "source"@)
    &&& spec_opt_str_wf(v, "destination"@)
    &&& spec_opt_str_wf(v, "correlation_id"@)
    &&& spec_opt_str_wf(v, "session_id"@)
    &&& spec_map_field_wf(v, "headers"@)
    &&& spec_list_field_wf(v, "tags"@)
    &&& spec_opt_u64_wf(v, "retry_count"@)
    &&& (match spec_opt_u64_val(v, "retry_count"@) {
        None => true,
        Some(n) => n <= u32::MAX,
    })
    &&& spec_opt_u64_wf(v, "max_retries"@)
    &&& (match spec_opt_u64_val(v, "max_retries"@) {
        None => true,
        Some(n) => n <= u32::MAX,
    })
    &&& spec_opt_u64_wf(v, "ttl"@)
}

/// Whether `m` is the decoding of a metadata object, defaults applied.
pub open spec fn spec_metadata_matches(v: JsonValue, m: MessageMetadata) -> bool {
    &&& m.id@ == spec_req_str_val(v, "id"@)
    &&& m.message_type@ == spec_req_str_val(v, "message_type"@)
    &&& m.version@ == (match spec_opt_str_val(v, "version"@) {
        None => "1.0.0"@,
        Some(s) => s,
    })
    &&& m.timestamp == spec_req_u64_val(v, "timestamp"@)
    &&& m.priority == (match spec_opt_str_val(v, "priority"@) {
        None => MessagePriority::Normal,
        Some(p) => spec_priority_of(p)->Some_0,
    })
    &&& m.delivery_mode == (match spec_opt_str_val(v, "delivery_mode"@) {
        None => DeliveryMode::AtLeastOnce,
        Some(p) => spec_delivery_of(p)->Some_0,
    })
    &&& m.encoding == (match spec_opt_str_val(v, "encoding"@) {
        None => MessageEncoding::Json,
        Some(p) => spec_encoding_of(p)->Some_0,
    })
    &&& spec_opt_string_matches(m.source, spec_opt_str_val(v, "source"@))
    &&& spec_opt_string_matches(m.destination, spec_opt_str_val(v, "destination"@))
    &&& spec_opt_string_matches(m.correlation_id, spec_opt_str_val(v, "correlation_id"@))
    &&& spec_opt_string_matches(m.session_id, spec_opt_str_val(v, "session_id"@))
    &&& headers_view(m.headers@) == spec_map_field_val(v, "headers"@)
    &&& strings_view(m.tags@) == spec_list_field_val(v, "tags"@)
    &&& m.retry_count == (match spec_opt_u64_val(v, "retry_count"@) {
        None => 0u64,
        Some(n) => n,
    })
    &&& m.max_retries == (match spec_opt_u64_val(v, "max_retries"@) {
        None => 3u64,
        Some(n) => n,
    })
    &&& m.ttl == spec_opt_u64_val(v, "ttl"@)
}

fn decode_metadata(v: &JsonValue) -> (r: Result<MessageMetadata, ParseError>)
    ensures
        r is Ok <==> spec_metadata_wf(*v),
        r matches Ok(m) ==> spec_metadata_matches(*v, m),
{
    let id = req_str(v, "id")?;
    let message_type = req_str(v, "message_type")?;
    let version = match opt_str(v, "version")? {
        Some(s) => s,
        None => "1.0.0".to_owned(),
    };
    let timestamp = req_u64(v, "timestamp")?;
    let priority = match opt_str(v, "priority")? {
        Some(p) => match priority_of(p.as_str()) {
            Some(x) => x,
            None => {
                return Err(ParseError);
            },
        },
        None => MessagePriority::Normal,
    };
    let delivery_mode = match opt_str(v, "delivery_mode")? {
        Some(p) => match delivery_of(p.as_str()) {
            Some(x) => x,
            None => {
                return Err(ParseError);
            },
        },
        None => DeliveryMode::AtLeastOnce,
    };
    let encoding = match opt_str(v, "encoding")? {
        Some(p) => match encoding_of(p.as_str()) {
            Some(x) => x,
            None => {
                return Err(ParseError);
            },
        },
        None => MessageEncoding::Json,
    };
    let source = opt_str(v, "source")?;
    let destination = opt_str(v, "destination")?;
    let correlation_id = opt_str(v, "correlation_id")?;
    let session_id = opt_str(v, "session_id")?;
    let headers = map_field(v, "headers")?;
    let tags = list_field(v, "tags")?;
    let retry_count: u32 = match opt_u64(v, "retry_count")? {
        Some(n) => {
            if n > u32::MAX as u64 {
                return Err(ParseError);
            }
            n as u32
        },
        None => 0,
    };
    let max_retries: u32 = match opt_u64(v, "max_retries")? {
        Some(n) => {
            if n > u32::MAX as u64 {
                return Err(ParseError);
            }
            n as u32
        },
        None => 3,
    };
    let ttl = opt_u64(v, "ttl")?;
    Ok(MessageMetadata {
        id,
        message_type,
        version,
        timestamp,
        priority,
        delivery_mode,
        encoding,
        source,
        destination,
        correlation_id,
        session_id,
        headers,
        tags,
        retry_count,
        max_retries,
        ttl,
    })
}

/// Whether an auth payload object is well formed, by its tag.
pub open spec fn spec_auth_wf(d: JsonValue) -> bool {
    &&& spec_req_str_wf(d, "auth_type"@)
    &&& {
        let t = spec_req_str_val(d, "auth_type"@);
        if t == "TokenAuth"@ {
            spec_req_str_wf(d, "token"@) && spec_req_str_wf(d, "token_type"@) && spec_req_list_wf(
                d,
                "scopes"@,
            )
        } else if t == "Challenge"@ {
            spec_req_str_wf(d, "challenge"@) && spec_req_str_wf(d, "method"@)
        } else if t == "Response"@ {
            spec_req_str_wf(d, "response"@) && spec_opt_str_wf(d, "proof"@)
        } else if t == "Success"@ {
            spec_req_str_wf(d, "session_id"@) && spec_opt_u64_wf(d, "expires_at"@)
                && spec_req_list_wf(d, "permissions"@)
        } else if t == "Failure"@ {
            spec_req_str_wf(d, "error_code"@) && spec_req_str_wf(d, "error_message"@)
                && spec_opt_u64_wf(d, "retry_after"@)
        } else {
            false
        }
    }
}

/// Whether `p` is the decoding of an auth payload object.
pub open spec fn spec_auth_matches(d: JsonValue, p: AuthPayload) -> bool {
    let t = spec_req_str_val(d, "auth_type"@);
    if t == "TokenAuth"@ {
        p matches AuthPayload::TokenAuth { token, token_type, scopes } && token@
            == spec_req_str_val(d, "token"@) && token_type@ == spec_req_str_val(d, "token_type"@)
            && strings_view(scopes@) == spec_req_list_val(d, "scopes"@)
    } else if t == "Challenge"@ {
        p matches AuthPayload::Challenge { challenge, method } && challenge@ == spec_req_str_val(
            d,
            "challenge"@,
        ) && method@ == spec_req_str_val(d, "method"@)
    } else if t == "Response"@ {
        p matches AuthPayload::Response { response, proof_value } && response@
            == spec_req_str_val(d, "response"@) && spec_opt_string_matches(
            proof_value,
            spec_opt_str_val(d, "proof"@),
        )
    } else if t == "Success"@ {
        p matches AuthPayload::Success { session_id, expires_at, permissions } && session_id@
            == spec_req_str_val(d, "session_id"@) && expires_at == spec_opt_u64_val(
            d,
            "expires_at"@,
        ) && strings_view(permissions@) == spec_req_list_val(d, "permissions"@)
    } else if t == "Failure"@ {
        p matches AuthPayload::Failure { error_code, error_message, retry_after } && error_code@
            == spec_req_str_val(d, "error_code"@) && error_message@ == spec_req_str_val(
            d,
            "error_message"@,
        ) && retry_after == spec_opt_u64_val(d, "retry_after"@)
    } else {
        false
    }
}

fn decode_auth(d: &JsonValue) -> (r: Result<AuthPayload, ParseError>)
    ensures
        r is Ok <==> spec_auth_wf(*d),
        r matches Ok(p) ==> spec_auth_matches(*d, p),
{
    let t = req_str(d, "auth_type")?;
    if str_eq(t.as_str(), "TokenAuth") {
        let token = req_str(d, "token")?;
        let token_type = req_str(d, "token_type")?;
        let scopes = req_list(d, "scopes")?;
        Ok(AuthPayload::TokenAuth { token, token_type, scopes })
    } else if str_eq(t.as_str(), "Challenge") {
        let challenge = req_str(d, "challenge")?;
        let method = req_str(d, "method")?;
        Ok(AuthPayload::Challenge { challenge, method })
    } else if str_eq(t.as_str(), "Response") {
        let response = req_str(d, "response")?;
        let proof_value = opt_str(d, "proof")?;
        Ok(AuthPayload::Response { response, proof_value })
    } else if str_eq(t.as_str(), "Success") {
        let session_id = req_str(d, "session_id")?;
        let expires_at = opt_u64(d, "expires_at")?;
        let permissions = req_list(d, "permissions")?;
        Ok(AuthPayload::Success { session_id, expires_at, permissions })
    } else if str_eq(t.as_str(), "Failure") {
        let error_code = req_str(d, "error_code")?;
        let error_message = req_str(d, "error_message")?;
        let retry_after = opt_u64(d, "retry_after")?;
        Ok(AuthPayload::Failure { error_code, error_message, retry_after })
    } else {
        Err(ParseError)
    }
}

/// Whether an HTTP payload object is well formed, by its tag.
pub open spec fn spec_http_wf(d: JsonValue) -> bool {
    &&& spec_req_str_wf(d, "kind"@)
    &&& {
        let t = spec_req_str_val(d, "kind"@);
        if t == "Request"@ {
            spec_req_str_wf(d, "method"@) && spec_req_str_wf(d, "url"@) && spec_req_map_wf(
                d,
                "headers"@,
            ) && spec_body_field_wf(d) && spec_map_field_wf(d, "query_params"@)
                && spec_req_str_wf(d, "requestId"@)
        } else if t == "Response"@ {
            spec_req_u64_wf(d, "status"@) && spec_req_u64_val(d, "status"@) <= 65535
                && spec_req_str_wf(d, "status_text"@) && spec_req_map_wf(d, "headers"@)
                && spec_body_field_wf(d) && spec_req_str_wf(d, "requestId"@)
        } else if t == "Upgrade"@ {
            spec_req_str_wf(d, "protocol"@) && spec_req_map_wf(d, "headers"@)
        } else if t == "Close"@ {
            spec_req_str_wf(d, "reason"@)
        } else {
            false
        }
    }
}

/// Whether `p` is the decoding of an HTTP payload object; bodies follow
/// the body encoding rule.
pub open spec fn spec_http_matches(d: JsonValue, p: HttpPayload) -> bool {
    let t = spec_req_str_val(d, "kind"@);
    if t == "Request"@ {
        p matches HttpPayload::Request { method, url, headers, body, query_params, request_id }
            && method@ == spec_req_str_val(d, "method"@) && url@ == spec_req_str_val(d, "url"@)
            && headers_view(headers@) == spec_req_map_val(d, "headers"@) && spec_opt_bytes_matches(
            body,
            spec_body_field_val(d),
        ) && headers_view(query_params@) == spec_map_field_val(d, "query_params"@) && request_id@
            == spec_req_str_val(d, "requestId"@)
    } else if t == "Response"@ {
        p matches HttpPayload::Response { status, status_text, headers, body, request_id }
            && status == spec_req_u64_val(d, "status"@) && status_text@ == spec_req_str_val(
            d,
            "status_text"@,
        ) && headers_view(headers@) == spec_req_map_val(d, "headers"@) && spec_opt_bytes_matches(
            body,
            spec_body_field_val(d),
        ) && request_id@ == spec_req_str_val(d, "requestId"@)
    } else if t == "Upgrade"@ {
        p matches HttpPayload::Upgrade { protocol, headers } && protocol@ == spec_req_str_val(
            d,
            "protocol"@,
        ) && headers_view(headers@) == spec_req_map_val(d, "headers"@)
    } else if t == "Close"@ {
        p matches HttpPayload::Close { reason } && reason@ == spec_req_str_val(d, "reason"@)
    } else {
        false
    }
}

fn decode_http(d: &JsonValue) -> (r: Result<HttpPayload, ParseError>)
    ensures
        r is Ok <==> spec_http_wf(*d),
        r matches Ok(p) ==> spec_http_matches(*d, p),
{
    let t = req_str(d, "kind")?;
    if str_eq(t.as_str(), "Request") {
        let method = req_str(d, "method")?;
        let url = req_str(d, "url")?;
        let headers = req_map(d, "headers")?;
        let body = body_field(d)?;
        let query_params = map_field(d, "query_params")?;
        let request_id = req_str(d, "requestId")?;
        Ok(HttpPayload::Request { method, url, headers, body, query_params, request_id })
    } else if str_eq(t.as_str(), "Response") {
        let status64 = req_u64(d, "status")?;
        if status64 > 65535 {
            return Err(ParseError);
        }
        let status = status64 as u16;
        let status_text = req_str(d, "status_text")?;
        let headers = req_map(d, "headers")?;
        let body = body_field(d)?;
        let request_id = req_str(d, "requestId")?;
        Ok(HttpPayload::Response { status, status_text, headers, body, request_id })
    } else if str_eq(t.as_str(), "Upgrade") {
        let protocol = req_str(d, "protocol")?;
        let headers = req_map(d, "headers")?;
        Ok(HttpPayload::Upgrade { protocol, headers })
    } else if str_eq(t.as_str(), "Close") {
        let reason = req_str(d, "reason")?;
        Ok(HttpPayload::Close { reason })
    } else {
        Err(ParseError)
    }
}

/// Whether a control payload object is well formed, by its tag.
pub open spec fn spec_control_wf(d: JsonValue) -> bool {
    &&& spec_req_str_wf(d, "kind"@)
    &&& {
        let t = spec_req_str_val(d, "kind"@);
        if t == "Authentication"@ {
            spec_req_str_wf(d, "status"@) && spec_req_str_wf(d, "message"@) && spec_req_str_wf(
                d,
                "timestamp"@,
            )
        } else if t == "Error"@ {
            spec_req_str_wf(d, "error"@) && spec_req_str_wf(d, "code"@) && spec_req_str_wf(
                d,
                "timestamp"@,
            )
        } else if t == "Ping"@ || t == "Pong"@ {
            spec_req_u64_wf(d, "timestamp"@) && spec_opt_bytes_wf(d, "data"@)
        } else if t == "Status"@ {
            spec_req_str_wf(d, "status"@) && spec_conn_status_of(
                spec_req_str_val(d, "status"@),
            ) is Some && spec_opt_str_wf(d, "message"@) && spec_req_map_wf(d, "details"@)
        } else if t == "Config"@ {
            spec_req_str_wf(d, "config_type"@) && spec_req_any_wf(d, "config_data"@)
        } else if t == "Command"@ {
            spec_req_str_wf(d, "command"@) && spec_req_list_wf(d, "arguments"@) && spec_req_map_wf(
                d,
                "environment"@,
            )
        } else if t == "Shutdown"@ {
            spec_req_str_wf(d, "reason"@) && spec_req_u64_wf(d, "grace_period_seconds"@)
        } else {
            false
        }
    }
}

/// Whether `p` is the decoding of a control payload object.
pub open spec fn spec_control_matches(d: JsonValue, p: ControlPayload) -> bool {
    let t = spec_req_str_val(d, "kind"@);
    if t == "Authentication"@ {
        p matches ControlPayload::Authentication { status, message, timestamp } && status@
            == spec_req_str_val(d, "status"@) && message@ == spec_req_str_val(d, "message"@)
            && timestamp@ == spec_req_str_val(d, "timestamp"@)
    } else if t == "Error"@ {
        p matches ControlPayload::Error { error, code, timestamp } && error@ == spec_req_str_val(
            d,
            "error"@,
        ) && code@ == spec_req_str_val(d, "code"@) && timestamp@ == spec_req_str_val(
            d,
            "timestamp"@,
        )
    } else if t == "Ping"@ {
        p matches ControlPayload::Ping { timestamp, data } && timestamp == spec_req_u64_val(
            d,
            "timestamp"@,
        ) && spec_opt_bytes_matches(data, spec_opt_bytes_val(d, "data"@))
    } else if t == "Pong"@ {
        p matches ControlPayload::Pong { timestamp, data } && timestamp == spec_req_u64_val(
            d,
            "timestamp"@,
        ) && spec_opt_bytes_matches(data, spec_opt_bytes_val(d, "data"@))
    } else if t == "Status"@ {
        p matches ControlPayload::Status { status, message, details } && Some(status)
            == spec_conn_status_of(spec_req_str_val(d, "status"@)) && spec_opt_string_matches(
            message,
            spec_opt_str_val(d, "message"@),
        ) && headers_view(details@) == spec_req_map_val(d, "details"@)
    } else if t == "Config"@ {
        p matches ControlPayload::Config { config_type, config_data } && config_type@
            == spec_req_str_val(d, "config_type"@) && crate::json::json_eq(
            config_data,
            jv_get(d, key_bytes("config_data"@))->Some_0,
        )
    } else if t == "Command"@ {
        p matches ControlPayload::Command { command, arguments, environment } && command@
            == spec_req_str_val(d, "command"@) && strings_view(arguments@) == spec_req_list_val(
            d,
            "arguments"@,
        ) && headers_view(environment@) == spec_req_map_val(d, "environment"@)
    } else if t == "Shutdown"@ {
        p matches ControlPayload::Shutdown { reason, grace_period_seconds } && reason@
            == spec_req_str_val(d, "reason"@) && grace_period_seconds == spec_req_u64_val(
            d,
            "grace_period_seconds"@,
        )
    } else {
        false
    }
}

fn decode_control(d: &JsonValue) -> (r: Result<ControlPayload, ParseError>)
    ensures
        r is Ok <==> spec_control_wf(*d),
        r matches Ok(p) ==> spec_control_matches(*d, p),
{
    let t = req_str(d, "kind")?;
    if str_eq(t.as_str(), "Authentication") {
        let status = req_str(d, "status")?;
        let message = req_str(d, "message")?;
        let timestamp = req_str(d, "timestamp")?;
        Ok(ControlPayload::Authentication { status, message, timestamp })
    } else if str_eq(t.as_str(), "Error") {
        let error = req_str(d, "error")?;
        let code = req_str(d, "code")?;
        let timestamp = req_str(d, "timestamp")?;
        Ok(ControlPayload::Error { error, code, timestamp })
    } else if str_eq(t.as_str(), "Ping") {
        let timestamp = req_u64(d, "timestamp")?;
        let data = opt_bytes(d, "data")?;
        Ok(ControlPayload::Ping { timestamp, data })
    } else if str_eq(t.as_str(), "Pong") {
        let timestamp = req_u64(d, "timestamp")?;
        let data = opt_bytes(d, "data")?;
        Ok(ControlPayload::Pong { timestamp, data })
    } else if str_eq(t.as_str(), "Status") {
        let status_name = req_str(d, "status")?;
        let status = match conn_status_of(status_name.as_str()) {
            Some(x) => x,
            None => {
                return Err(ParseError);
            },
        };
        let message = opt_str(d, "message")?;
        let details = req_map(d, "details")?;
        Ok(ControlPayload::Status { status, message, details })
    } else if str_eq(t.as_str(), "Config") {
        let config_type = req_str(d, "config_type")?;
        let config_data = req_any(d, "config_data")?;
        Ok(ControlPayload::Config { config_type, config_data })
    } else if str_eq(t.as_str(), "Command") {
        let command = req_str(d, "command")?;
        let arguments = req_list(d, "arguments")?;
        let environment = req_map(d, "environment")?;
        Ok(ControlPayload::Command { command, arguments, environment })
    } else if str_eq(t.as_str(), "Shutdown") {
        let reason = req_str(d, "reason")?;
        let grace_period_seconds = req_u64(d, "grace_period_seconds")?;
        Ok(ControlPayload::Shutdown { reason, grace_period_seconds })
    } else {
        Err(ParseError)
    }
}

/// Whether a stats payload object is well formed, by its tag.
pub open spec fn spec_stats_wf(d: JsonValue) -> bool {
    &&& spec_req_str_wf(d, "stats_type"@)
    &&& {
        let t = spec_req_str_val(d, "stats_type"@);
        if t == "Connection"@ {
            spec_req_u64_wf(d, "connected_clients"@) && spec_req_u64_wf(d, "total_connections"@)
                && spec_req_u64_wf(d, "failed_connections"@) && spec_req_u64_wf(
                d,
                "uptime_seconds"@,
            )
        } else if t == "Traffic"@ {
            spec_req_u64_wf(d, "requests_processed"@) && spec_req_u64_wf(d, "requests_successful"@)
                && spec_req_u64_wf(d, "requests_failed"@) && spec_req_u64_wf(
                d,
                "bytes_transferred"@,
            ) && spec_req_u64_wf(d, "average_response_time_ms"@)
        } else if t == "Custom"@ {
            spec_req_str_wf(d, "metric_name"@) && spec_req_any_wf(d, "metric_value"@)
                && spec_req_str_wf(d, "metric_type"@) && spec_req_map_wf(d, "labels"@)
        } else {
            false
        }
    }
}

/// Whether `p` is the decoding of a stats payload object.
pub open spec fn spec_stats_matches(d: JsonValue, p: StatsPayload) -> bool {
    let t = spec_req_str_val(d, "stats_type"@);
    if t == "Connection"@ {
        p matches StatsPayload::Connection {
            connected_clients,
            total_connections,
            failed_connections,
            uptime_seconds,
        } && connected_clients == spec_req_u64_val(d, "connected_clients"@) && total_connections
            == spec_req_u64_val(d, "total_connections"@) && failed_connections
            == spec_req_u64_val(d, "failed_connections"@) && uptime_seconds == spec_req_u64_val(
            d,
            "uptime_seconds"@,
        )
    } else if t == "Traffic"@ {
        p matches StatsPayload::Traffic {
            requests_processed,
            requests_successful,
            requests_failed,
            bytes_transferred,
            average_response_time_ms,
        } && requests_processed == spec_req_u64_val(d, "requests_processed"@)
            && requests_successful == spec_req_u64_val(d, "requests_successful"@)
            && requests_failed == spec_req_u64_val(d, "requests_failed"@) && bytes_transferred
            == spec_req_u64_val(d, "bytes_transferred"@) && average_response_time_ms
            == spec_req_u64_val(d, "average_response_time_ms"@)
    } else if t == "Custom"@ {
        p matches StatsPayload::Custom { metric_name, metric_value, metric_type, labels }
            && metric_name@ == spec_req_str_val(d, "metric_name"@) && crate::json::json_eq(
            metric_value,
            jv_get(d, key_bytes("metric_value"@))->Some_0,
        ) && metric_type@ == spec_req_str_val(d, "metric_type"@) && headers_view(labels@)
            == spec_req_map_val(d, "labels"@)
    } else {
        false
    }
}

fn decode_stats(d: &JsonValue) -> (r: Result<StatsPayload, ParseError>)
    ensures
        r is Ok <==> spec_stats_wf(*d),
        r matches Ok(p) ==> spec_stats_matches(*d, p),
{
    let t = req_str(d, "stats_type")?;
    if str_eq(t.as_str(), "Connection") {
        let connected_clients = req_u64(d, "connected_clients")?;
        let total_connections = req_u64(d, "total_connections")?;
        let failed_connections = req_u64(d, "failed_connections")?;
        let uptime_seconds = req_u64(d, "uptime_seconds")?;
        Ok(StatsPayload::Connection {
            connected_clients,
            total_connections,
            failed_connections,
            uptime_seconds,
        })
    } else if str_eq(t.as_str(), "Traffic") {
        let requests_processed = req_u64(d, "requests_processed")?;
        let requests_successful = req_u64(d, "requests_successful")?;
        let requests_failed = req_u64(d, "requests_failed")?;
        let bytes_transferred = req_u64(d, "bytes_transferred")?;
        let average_response_time_ms = req_u64(d, "average_response_time_ms")?;
        Ok(StatsPayload::Traffic {
            requests_processed,
            requests_successful,
            requests_failed,
            bytes_transferred,
            average_response_time_ms,
        })
    } else if str_eq(t.as_str(), "Custom") {
        let metric_name = req_str(d, "metric_name")?;
        let metric_value = req_any(d, "metric_value")?;
        let metric_type = req_str(d, "metric_type")?;
        let labels = req_map(d, "labels")?;
        Ok(StatsPayload::Custom { metric_name, metric_value, metric_type, labels })
    } else {
        Err(ParseError)
    }
}

/// Whether an error payload object is well formed.
pub open spec fn spec_error_payload_wf(d: JsonValue) -> bool {
    &&& spec_req_str_wf(d, "code"@)
    &&& spec_req_str_wf(d, "message"@)
    &&& spec_opt_str_wf(d, "details"@)
    &&& spec_opt_str_wf(d, "trace"@)
    &&& spec_opt_str_wf(d, "related_id"@)
    &&& spec_req_str_wf(d, "category"@)
    &&& spec_category_of(spec_req_str_val(d, "category"@)) is Some
    &&& spec_req_list_wf(d, "recovery_actions"@)
}

/// Whether `p` is the decoding of an error payload object.
pub open spec fn spec_error_payload_matches(d: JsonValue, p: ErrorPayload) -> bool {
    &&& p.code@ == spec_req_str_val(d, "code"@)
    &&& p.message@ == spec_req_str_val(d, "message"@)
    &&& spec_opt_string_matches(p.details, spec_opt_str_val(d, "details"@))
    &&& spec_opt_string_matches(p.trace, spec_opt_str_val(d, "trace"@))
    &&& spec_opt_string_matches(p.related_id, spec_opt_str_val(d, "related_id"@))
    &&& Some(p.category) == spec_category_of(spec_req_str_val(d, "category"@))
    &&& strings_view(p.recovery_actions@) == spec_req_list_val(d, "recovery_actions"@)
}

fn decode_error_payload(d: &JsonValue) -> (r: Result<ErrorPayload, ParseError>)
    ensures
        r is Ok <==> spec_error_payload_wf(*d),
        r matches Ok(p) ==> spec_error_payload_matches(*d, p),
{
    let code = req_str(d, "code")?;
    let message = req_str(d, "message")?;
    let details = opt_str(d, "details")?;
    let trace = opt_str(d, "trace")?;
    let related_id = opt_str(d, "related_id")?;
    let category_name = req_str(d, "category")?;
    let category = match category_of(category_name.as_str()) {
        Some(c) => c,
        None => {
            return Err(ParseError);
        },
    };
    let recovery_actions = req_list(d, "recovery_actions")?;
    Ok(ErrorPayload { code, message, details, trace, related_id, category, recovery_actions })
}

/// Whether a stream payload object is well formed, by its tag.
pub open spec fn spec_stream_wf(d: JsonValue) -> bool {
    &&& spec_req_str_wf(d, "stream_type"@)
    &&& {
        let t = spec_req_str_val(d, "stream_type"@);
        if t == "Data"@ {
            spec_req_str_wf(d, "stream_id"@) && spec_req_u64_wf(d, "sequence"@)
                && spec_req_bytes_wf(d, "data"@) && spec_req_bool_wf(d, "is_final"@)
        } else if t == "Control"@ {
            spec_req_str_wf(d, "stream_id"@) && spec_req_str_wf(d, "action"@) && spec_action_of(
                spec_req_str_val(d, "action"@),
            ) is Some && spec_req_map_wf(d, "metadata"@)
        } else {
            false
        }
    }
}

/// Whether `p` is the decoding of a stream payload object.
pub open spec fn spec_stream_matches(d: JsonValue, p: StreamPayload) -> bool {
    let t = spec_req_str_val(d, "stream_type"@);
    if t == "Data"@ {
        p matches StreamPayload::Data { stream_id, sequence, data, is_final } && stream_id@
            == spec_req_str_val(d, "stream_id"@) && sequence == spec_req_u64_val(d, "sequence"@)
            && data@ == spec_req_bytes_val(d, "data"@) && is_final == spec_req_bool_val(
            d,
            "is_final"@,
        )
    } else if t == "Control"@ {
        p matches StreamPayload::Control { stream_id, action, metadata } && stream_id@
            == spec_req_str_val(d, "stream_id"@) && Some(action) == spec_action_of(
            spec_req_str_val(d, "action"@),
        ) && headers_view(metadata@) == spec_req_map_val(d, "metadata"@)
    } else {
        false
    }
}

fn decode_stream(d: &JsonValue) -> (r: Result<StreamPayload, ParseError>)
    ensures
        r is Ok <==> spec_stream_wf(*d),
        r matches Ok(p) ==> spec_stream_matches(*d, p),
{
    let t = req_str(d, "stream_type")?;
    if str_eq(t.as_str(), "Data") {
        let stream_id = req_str(d, "stream_id")?;
        let sequence = req_u64(d, "sequence")?;
        let data = req_bytes(d, "data")?;
        let is_final = req_bool(d, "is_final")?;
        Ok(StreamPayload::Data { stream_id, sequence, data, is_final })
    } else if str_eq(t.as_str(), "Control") {
        let stream_id = req_str(d, "stream_id")?;
        let action_name = req_str(d, "action")?;
        let action = match action_of(action_name.as_str()) {
            Some(a) => a,
            None => {
                return Err(ParseError);
            },
        };
        let metadata = req_map(d, "metadata")?;
        Ok(StreamPayload::Control { stream_id, action, metadata })
    } else {
        Err(ParseError)
    }
}

/// Whether a custom payload object is well formed.
pub open spec fn spec_custom_wf(d: JsonValue) -> bool {
    &&& spec_req_str_wf(d, "message_type"@)
    &&& spec_req_any_wf(d, "data"@)
    &&& spec_req_str_wf(d, "schema_version"@)
}

/// Whether `p` is the decoding of a custom payload object.
pub open spec fn spec_custom_matches(d: JsonValue, p: CustomPayload) -> bool {
    &&& p.message_type@ == spec_req_str_val(d, "message_type"@)
    &&& crate::json::json_eq(p.data, jv_get(d, key_bytes("data"@))->Some_0)
    &&& p.schema_version@ == spec_req_str_val(d, "schema_version"@)
}

fn decode_custom(d: &JsonValue) -> (r: Result<CustomPayload, ParseError>)
    ensures
        r is Ok <==> spec_custom_wf(*d),
        r matches Ok(p) ==> spec_custom_matches(*d, p),
{
    let message_type = req_str(d, "message_type")?;
    let data = req_any(d, "data")?;
    let schema_version = req_str(d, "schema_version")?;
    Ok(CustomPayload { message_type, data, schema_version })
}

/// Whether a tagged payload object is well formed: a known `kind`, a
/// `data` member, and a well-formed body for that kind. An unknown kind is
/// a parse error.
pub open spec fn spec_payload_wf(v: JsonValue) -> bool {
    &&& spec_req_str_wf(v, "kind"@)
    &&& jv_get(v, key_bytes("data"@)) is Some
    &&& {
        let t = spec_req_str_val(v, "kind"@);
        let d = jv_get(v, key_bytes("data"@))->Some_0;
        if t == "Auth"@ {
            spec_auth_wf(d)
        } else if t == "HTTP"@ {
            spec_http_wf(d)
        } else if t == "Control"@ {
            spec_control_wf(d)
        } else if t == "Stats"@ {
            spec_stats_wf(d)
        } else if t == "Error"@ {
            spec_error_payload_wf(d)
        } else if t == "Stream"@ {
            spec_stream_wf(d)
        } else if t == "Custom"@ {
            spec_custom_wf(d)
        } else {
            false
        }
    }
}

/// Whether `p` is the decoding of a tagged payload object.
pub open spec fn spec_payload_matches(v: JsonValue, p: MessagePayload) -> bool {
    let t = spec_req_str_val(v, "kind"@);
    let d = jv_get(v, key_bytes("data"@))->Some_0;
    if t == "Auth"@ {
        p matches MessagePayload::Auth(a) && spec_auth_matches(d, a)
    } else if t == "HTTP"@ {
        p matches MessagePayload::Http(h) && spec_http_matches(d, h)
    } else if t == "Control"@ {
        p matches MessagePayload::Control(c) && spec_control_matches(d, c)
    } else if t == "Stats"@ {
        p matches MessagePayload::Stats(s) && spec_stats_matches(d, s)
    } else if t == "Error"@ {
        p matches MessagePayload::Error(e) && spec_error_payload_matches(d, e)
    } else if t == "Stream"@ {
        p matches MessagePayload::Stream(s) && spec_stream_matches(d, s)
    } else if t == "Custom"@ {
        p matches MessagePayload::Custom(c) && spec_custom_matches(d, c)
    } else {
        false
    }
}

fn decode_payload(v: &JsonValue) -> (r: Result<MessagePayload, ParseError>)
    ensures
        r is Ok <==> spec_payload_wf(*v),
        r matches Ok(p) ==> spec_payload_matches(*v, p),
{
    let t = req_str(v, "kind")?;
    let d = match obj_get(v, "data") {
        Some(d) => d,
        None => {
            return Err(ParseError);
        },
    };
    if str_eq(t.as_str(), "Auth") {
        Ok(MessagePayload::Auth(decode_auth(d)?))
    } else if str_eq(t.as_str(), "HTTP") {
        Ok(MessagePayload::Http(decode_http(d)?))
    } else if str_eq(t.as_str(), "Control") {
        Ok(MessagePayload::Control(decode_control(d)?))
    } else if str_eq(t.as_str(), "Stats") {
        Ok(MessagePayload::Stats(decode_stats(d)?))
    } else if str_eq(t.as_str(), "Error") {
        Ok(MessagePayload::Error(decode_error_payload(d)?))
    } else if str_eq(t.as_str(), "Stream") {
        Ok(MessagePayload::Stream(decode_stream(d)?))
    } else if str_eq(t.as_str(), "Custom") {
        Ok(MessagePayload::Custom(decode_custom(d)?))
    } else {
        Err(ParseError)
    }
}

/// Whether a whole frame value is well formed: an envelope and a message
/// holding metadata and payload.
pub open spec fn spec_frame_wf(v: JsonValue) -> bool {
    &&& jv_get(v, key_bytes("envelope"@)) matches Some(env) && spec_envelope_wf(env)
    &&& jv_get(v, key_bytes("message"@)) matches Some(msg) && {
        &&& jv_get(msg, key_bytes("metadata"@)) matches Some(md) && spec_metadata_wf(md)
        &&& jv_get(msg, key_bytes("payload"@)) matches Some(pl) && spec_payload_wf(pl)
    }
}

/// Whether `m` is the decoding of a whole frame value.
pub open spec fn spec_frame_matches(v: JsonValue, m: TunnelMessage) -> bool {
    &&& spec_envelope_matches(jv_get(v, key_bytes("envelope"@))->Some_0, m.envelope)
    &&& spec_metadata_matches(
        jv_get(jv_get(v, key_bytes("message"@))->Some_0, key_bytes("metadata"@))->Some_0,
        m.message.metadata,
    )
    &&& spec_payload_matches(
        jv_get(jv_get(v, key_bytes("message"@))->Some_0, key_bytes("payload"@))->Some_0,
        m.message.payload,
    )
}

/// Decodes a parsed frame value into a tunnel message. Succeeds exactly on
/// well-formed frames; a missing or ill-typed field and an unknown payload
/// tag are parse errors.
pub fn tunnel_message_from_value(v: &JsonValue) -> (r: Result<TunnelMessage, ParseError>)
    ensures
        r is Ok <==> spec_frame_wf(*v),
        r matches Ok(m) ==> spec_frame_matches(*v, m),
{
    let env_v = match obj_get(v, "envelope") {
        Some(x) => x,
        None => {
            return Err(ParseError);
        },
    };
    let msg_v = match obj_get(v, "message") {
        Some(x) => x,
        None => {
            return Err(ParseError);
        },
    };
    let md_v = match obj_get(msg_v, "metadata") {
        Some(x) => x,
        None => {
            return Err(ParseError);
        },
    };
    let pl_v = match obj_get(msg_v, "payload") {
        Some(x) => x,
        None => {
            return Err(ParseError);
        },
    };
    let envelope = decode_envelope(env_v)?;
    let metadata = decode_metadata(md_v)?;
    let payload = decode_payload(pl_v)?;
    Ok(TunnelMessage { envelope, message: ProtocolMessage { metadata, payload } })
}

/// Decodes wire text into a tunnel message: JSON parse, then the verified
/// frame decoding. Succeeds exactly when the text parses as JSON and the
/// parsed value is a well-formed frame.
pub fn decode_frame_text(bytes: &[u8]) -> (r: Result<TunnelMessage, ParseError>)
    ensures
        ({
            match spec_parse_json(bytes@) {
                None => r is Err,
                Some(v) => {
                    &&& r is Ok <==> spec_frame_wf(v)
                    &&& (r matches Ok(m) ==> spec_frame_matches(v, m))
                },
            }
        }),
{
    match parse_json(bytes) {
        Some(v) => tunnel_message_from_value(&v),
        None => Err(ParseError),
    }
}

/// A JSON string value carrying a character string.
pub open spec fn is_str_of(v: JsonValue, s: Seq<char>) -> bool {
    v matches JsonValue::Str(b) && b@ == encode_utf8(s)
}

/// A JSON string or null carrying an optional character string.
pub open spec fn is_opt_str_of(v: JsonValue, s: Option<Seq<char>>) -> bool {
    match s {
        Some(x) => is_str_of(v, x),
        None => v is Null,
    }
}

/// A JSON number carrying an unsigned integer in decimal.
pub open spec fn is_u64_of(v: JsonValue, n: u64) -> bool {
    v matches JsonValue::Num(lit) && lit@ == encode_utf8(crate::status::spec_decimal(n as nat))
}

/// A JSON number or null carrying an optional unsigned integer.
pub open spec fn is_opt_u64_of(v: JsonValue, n: Option<u64>) -> bool {
    match n {
        Some(x) => is_u64_of(v, x),
        None => v is Null,
    }
}

/// A JSON object carrying a string map, members in order.
pub open spec fn is_map_of(v: JsonValue, hv: Seq<(Seq<char>, Seq<char>)>) -> bool {
    v matches JsonValue::Obj(fields) && fields@.len() == hv.len() && forall|i: int|
        0 <= i < hv.len() ==> (#[trigger] fields@[i]).0@ == encode_utf8(hv[i].0) && is_str_of(
            fields@[i].1,
            hv[i].1,
        )
}

/// A JSON array carrying a string list, in order.
pub open spec fn is_list_of(v: JsonValue, items: Seq<Seq<char>>) -> bool {
    v matches JsonValue::Arr(elems) && elems@.len() == items.len() && forall|i: int|
        0 <= i < items.len() ==> is_str_of(#[trigger] elems@[i], items[i])
}

fn str_value(s: &str) -> (r: JsonValue)
    ensures
        is_str_of(r, s@),
{
    JsonValue::Str(s.as_bytes_vec())
}

fn opt_str_value(s: &Option<String>) -> (r: JsonValue)
    ensures
        is_opt_str_of(
            r,
            match s {
                Some(x) => Some(x@),
                None => None,
            },
        ),
{
    match s {
        Some(x) => str_value(x.as_str()),
        None => JsonValue::Null,
    }
}

fn u64_value(n: u64) -> (r: JsonValue)
    ensures
        is_u64_of(r, n),
{
    let s = crate::status::decimal_string(n);
    JsonValue::Num(s.as_str().as_bytes_vec())
}

fn opt_u64_value(n: &Option<u64>) -> (r: JsonValue)
    ensures
        is_opt_u64_of(r, *n),
{
    match n {
        Some(x) => u64_value(*x),
        None => JsonValue::Null,
    }
}

fn map_value(hv: &Vec<(String, String)>) -> (r: JsonValue)
    ensures
        is_map_of(r, headers_view(hv@)),
{
    let mut fields: Vec<(Vec<u8>, JsonValue)> = Vec::new();
    let mut i: usize = 0;
    while i < hv.len()
        invariant
            i <= hv.len(),
            fields@.len() == i,
            forall|j: int|
                0 <= j < i ==> (#[trigger] fields@[j]).0@ == encode_utf8(hv@[j].0@) && is_str_of(
                    fields@[j].1,
                    hv@[j].1@,
                ),
        decreases hv.len() - i,
    {
        let k = hv[i].0.as_str().as_bytes_vec();
        let v = str_value(hv[i].1.as_str());
        fields.push((k, v));
        i = i + 1;
    }
    JsonValue::Obj(fields)
}

fn list_value(items: &Vec<String>) -> (r: JsonValue)
    ensures
        is_list_of(r, strings_view(items@)),
{
    let mut elems: Vec<JsonValue> = Vec::new();
    let mut i: usize = 0;
    while i < items.len()
        invariant
            i <= items.len(),
            elems@.len() == i,
            forall|j: int| 0 <= j < i ==> is_str_of(#[trigger] elems@[j], items@[j]@),
        decreases items.len() - i,
    {
        let v = str_value(items[i].as_str());
        elems.push(v);
        i = i + 1;
    }
    JsonValue::Arr(elems)
}

fn key_of(name: &str) -> (r: Vec<u8>)
    ensures
        r@ == key_bytes(name@),
{
    name.as_bytes_vec()
}

/// The encoded envelope: all six fields in order, null for absent options.
pub open spec fn spec_envelope_encoded(e: TunnelEnvelope, v: JsonValue) -> bool {
    v matches JsonValue::Obj(fields) && {
        let fs = fields@;
        &&& fs.len() == 6
        &&& fs[0].0@ == key_bytes("tunnel_id"@) && is_str_of(fs[0].1, e.tunnel_id@)
        &&& fs[1].0@ == key_bytes("client_id"@) && is_str_of(fs[1].1, e.client_id@)
        &&& fs[2].0@ == key_bytes("server_id"@) && is_opt_str_of(fs[2].1, spec_view_opt(e.server_id))
        &&& fs[3].0@ == key_bytes("protocol_version"@) && is_opt_str_of(
            fs[3].1,
            spec_view_opt(e.protocol_version),
        )
        &&& fs[4].0@ == key_bytes("compression"@) && is_opt_str_of(
            fs[4].1,
            spec_view_opt(e.compression),
        )
        &&& fs[5].0@ == key_bytes("encryption"@) && is_opt_str_of(
            fs[5].1,
            spec_view_opt(e.encryption),
        )
    }
}

/// The view of an optional string.
pub open spec fn spec_view_opt(s: Option<String>) -> Option<Seq<char>> {
    match s {
        Some(x) => Some(x@),
        None => None,
    }
}

fn encode_envelope(e: &TunnelEnvelope) -> (r: JsonValue)
    ensures
        spec_envelope_encoded(*e, r),
{
    let mut fields: Vec<(Vec<u8>, JsonValue)> = Vec::new();
    fields.push((key_of("tunnel_id"), str_value(e.tunnel_id.as_str())));
    fields.push((key_of("client_id"), str_value(e.client_id.as_str())));
    fields.push((key_of("server_id"), opt_str_value(&e.server_id)));
    fields.push((key_of("protocol_version"), opt_str_value(&e.protocol_version)));
    fields.push((key_of("compression"), opt_str_value(&e.compression)));
    fields.push((key_of("encryption"), opt_str_value(&e.encryption)));
    JsonValue::Obj(fields)
}

/// The wire name of a priority.
pub open spec fn spec_priority_name(p: MessagePriority) -> Seq<char> {
    match p {
        MessagePriority::Low => "low"@,
        MessagePriority::Normal => "normal"@,
        MessagePriority::High => "high"@,
        MessagePriority::Critical => "critical"@,
    }
}

fn priority_name(p: &MessagePriority) -> (r: &'static str)
    ensures
        r@ == spec_priority_name(*p),
{
    match p {
        MessagePriority::Low => "low",
        MessagePriority::Normal => "normal",
        MessagePriority::High => "high",
        MessagePriority::Critical => "critical",
    }
}

/// The wire name of a delivery mode.
pub open spec fn spec_delivery_name(p: DeliveryMode) -> Seq<char> {
    match p {
        DeliveryMode::AtMostOnce => "at_most_once"@,
        DeliveryMode::AtLeastOnce => "at_least_once"@,
        DeliveryMode::ExactlyOnce => "exactly_once"@,
    }
}

fn delivery_name(p: &DeliveryMode) -> (r: &'static str)
    ensures
        r@ == spec_delivery_name(*p),
{
    match p {
        DeliveryMode::AtMostOnce => "at_most_once",
        DeliveryMode::AtLeastOnce => "at_least_once",
        DeliveryMode::ExactlyOnce => "exactly_once",
    }
}

/// The wire name of an encoding.
pub open spec fn spec_encoding_name(p: MessageEncoding) -> Seq<char> {
    match p {
        MessageEncoding::Json => "json"@,
        MessageEncoding::MessagePack => "msgpack"@,
        MessageEncoding::Protobuf => "protobuf"@,
        MessageEncoding::Cbor => "cbor"@,
    }
}

fn encoding_name(p: &MessageEncoding) -> (r: &'static str)
    ensures
        r@ == spec_encoding_name(*p),
{
    match p {
        MessageEncoding::Json => "json",
        MessageEncoding::MessagePack => "msgpack",
        MessageEncoding::Protobuf => "protobuf",
        MessageEncoding::Cbor => "cbor",
    }
}

/// The encoded metadata: all sixteen fields in order, fully populated.
pub open spec fn spec_metadata_encoded(m: MessageMetadata, v: JsonValue) -> bool {
    v matches JsonValue::Obj(fields) && {
        let fs = fields@;
        &&& fs.len() == 16
        &&& fs[0].0@ == key_bytes("id"@) && is_str_of(fs[0].1, m.id@)
        &&& fs[1].0@ == key_bytes("message_type"@) && is_str_of(fs[1].1, m.message_type@)
        &&& fs[2].0@ == key_bytes("version"@) && is_str_of(fs[2].1, m.version@)
        &&& fs[3].0@ == key_bytes("timestamp"@) && is_u64_of(fs[3].1, m.timestamp)
        &&& fs[4].0@ == key_bytes("priority"@) && is_str_of(fs[4].1, spec_priority_name(m.priority))
        &&& fs[5].0@ == key_bytes("delivery_mode"@) && is_str_of(
            fs[5].1,
            spec_delivery_name(m.delivery_mode),
        )
        &&& fs[6].0@ == key_bytes("encoding"@) && is_str_of(
            fs[6].1,
            spec_encoding_name(m.encoding),
        )
        &&& fs[7].0@ == key_bytes("source"@) && is_opt_str_of(fs[7].1, spec_view_opt(m.source))
        &&& fs[8].0@ == key_bytes("destination"@) && is_opt_str_of(
            fs[8].1,
            spec_view_opt(m.destination),
        )
        &&& fs[9].0@ == key_bytes("correlation_id"@) && is_opt_str_of(
            fs[9].1,
            spec_view_opt(m.correlation_id),
        )
        &&& fs[10].0@ == key_bytes("session_id"@) && is_opt_str_of(
            fs[10].1,
            spec_view_opt(m.session_id),
        )
        &&& fs[11].0@ == key_bytes("headers"@) && is_map_of(fs[11].1, headers_view(m.headers@))
        &&& fs[12].0@ == key_bytes("tags"@) && is_list_of(fs[12].1, strings_view(m.tags@))
        &&& fs[13].0@ == key_bytes("retry_count"@) && is_u64_of(fs[13].1, m.retry_count as u64)
        &&& fs[14].0@ == key_bytes("max_retries"@) && is_u64_of(fs[14].1, m.max_retries as u64)
        &&& fs[15].0@ == key_bytes("ttl"@) && is_opt_u64_of(fs[15].1, m.ttl)
    }
}

fn encode_metadata(m: &MessageMetadata) -> (r: JsonValue)
    ensures
        spec_metadata_encoded(*m, r),
{
    let mut fields: Vec<(Vec<u8>, JsonValue)> = Vec::new();
    fields.push((key_of("id"), str_value(m.id.as_str())));
    fields.push((key_of("message_type"), str_value(m.message_type.as_str())));
    fields.push((key_of("version"), str_value(m.version.as_str())));
    fields.push((key_of("timestamp"), u64_value(m.timestamp)));
    fields.push((key_of("priority"), str_value(priority_name(&m.priority))));
    fields.push((key_of("delivery_mode"), str_value(delivery_name(&m.delivery_mode))));
    fields.push((key_of("encoding"), str_value(encoding_name(&m.encoding))));
    fields.push((key_of("source"), opt_str_value(&m.source)));
    fields.push((key_of("destination"), opt_str_value(&m.destination)));
    fields.push((key_of("correlation_id"), opt_str_value(&m.correlation_id)));
    fields.push((key_of("session_id"), opt_str_value(&m.session_id)));
    fields.push((key_of("headers"), map_value(&m.headers)));
    fields.push((key_of("tags"), list_value(&m.tags)));
    fields.push((key_of("retry_count"), u64_value(m.retry_count as u64)));
    fields.push((key_of("max_retries"), u64_value(m.max_retries as u64)));
    fields.push((key_of("ttl"), opt_u64_value(&m.ttl)));
    JsonValue::Obj(fields)
}

/// A wire body position: the encoder's byte-array form, or null.
pub open spec fn is_body_of(v: JsonValue, b: Option<Vec<u8>>) -> bool {
    crate::body::spec_body_encodes(
        match b {
            Some(bytes) => Some(bytes@),
            None => None,
        },
        v,
    )
}

/// The encoded auth payload, tagged by `auth_type`, fields in order.
pub open spec fn spec_auth_encoded(p: AuthPayload, v: JsonValue) -> bool {
    v matches JsonValue::Obj(fields) && {
        let fs = fields@;
        match p {
            AuthPayload::TokenAuth { token, token_type, scopes } => {
                &&& fs.len() == 4
                &&& fs[0].0@ == key_bytes("auth_type"@) && is_str_of(fs[0].1, "TokenAuth"@)
                &&& fs[1].0@ == key_bytes("token"@) && is_str_of(fs[1].1, token@)
                &&& fs[2].0@ == key_bytes("token_type"@) && is_str_of(fs[2].1, token_type@)
                &&& fs[3].0@ == key_bytes("scopes"@) && is_list_of(fs[3].1, strings_view(scopes@))
            },
            AuthPayload::Challenge { challenge, method } => {
                &&& fs.len() == 3
                &&& fs[0].0@ == key_bytes("auth_type"@) && is_str_of(fs[0].1, "Challenge"@)
                &&& fs[1].0@ == key_bytes("challenge"@) && is_str_of(fs[1].1, challenge@)
                &&& fs[2].0@ == key_bytes("method"@) && is_str_of(fs[2].1, method@)
            },
            AuthPayload::Response { response, proof_value } => {
                &&& fs.len() == 3
                &&& fs[0].0@ == key_bytes("auth_type"@) && is_str_of(fs[0].1, "Response"@)
                &&& fs[1].0@ == key_bytes("response"@) && is_str_of(fs[1].1, response@)
                &&& fs[2].0@ == key_bytes("proof"@) && is_opt_str_of(
                    fs[2].1,
                    spec_view_opt(proof_value),
                )
            },
            AuthPayload::Success { session_id, expires_at, permissions } => {
                &&& fs.len() == 4
                &&& fs[0].0@ == key_bytes("auth_type"@) && is_str_of(fs[0].1, "Success"@)
                &&& fs[1].0@ == key_bytes("session_id"@) && is_str_of(fs[1].1, session_id@)
                &&& fs[2].0@ == key_bytes("expires_at"@) && is_opt_u64_of(fs[2].1, expires_at)
                &&& fs[3].0@ == key_bytes("permissions"@) && is_list_of(
                    fs[3].1,
                    strings_view(permissions@),
                )
            },
            AuthPayload::Failure { error_code, error_message, retry_after } => {
                &&& fs.len() == 4
                &&& fs[0].0@ == key_bytes("auth_type"@) && is_str_of(fs[0].1, "Failure"@)
                &&& fs[1].0@ == key_bytes("error_code"@) && is_str_of(fs[1].1, error_code@)
                &&& fs[2].0@ == key_bytes("error_message"@) && is_str_of(fs[2].1, error_message@)
                &&& fs[3].0@ == key_bytes("retry_after"@) && is_opt_u64_of(fs[3].1, retry_after)
            },
        }
    }
}

fn encode_auth(p: &AuthPayload) -> (r: JsonValue)
    ensures
        spec_auth_encoded(*p, r),
{
    let mut fields: Vec<(Vec<u8>, JsonValue)> = Vec::new();
    match p {
        AuthPayload::TokenAuth { token, token_type, scopes } => {
            fields.push((key_of("auth_type"), str_value("TokenAuth")));
            fields.push((key_of("token"), str_value(token.as_str())));
            fields.push((key_of("token_type"), str_value(token_type.as_str())));
            fields.push((key_of("scopes"), list_value(scopes)));
        },
        AuthPayload::Challenge { challenge, method } => {
            fields.push((key_of("auth_type"), str_value("Challenge")));
            fields.push((key_of("challenge"), str_value(challenge.as_str())));
            fields.push((key_of("method"), str_value(method.as_str())));
        },
        AuthPayload::Response { response, proof_value } => {
            fields.push((key_of("auth_type"), str_value("Response")));
            fields.push((key_of("response"), str_value(response.as_str())));
            fields.push((key_of("proof"), opt_str_value(proof_value)));
        },
        AuthPayload::Success { session_id, expires_at, permissions } => {
            fields.push((key_of("auth_type"), str_value("Success")));
            fields.push((key_of("session_id"), str_value(session_id.as_str())));
            fields.push((key_of("expires_at"), opt_u64_value(expires_at)));
            fields.push((key_of("permissions"), list_value(permissions)));
        },
        AuthPayload::Failure { error_code, error_message, retry_after } => {
            fields.push((key_of("auth_type"), str_value("Failure")));
            fields.push((key_of("error_code"), str_value(error_code.as_str())));
            fields.push((key_of("error_message"), str_value(error_message.as_str())));
            fields.push((key_of("retry_after"), opt_u64_value(retry_after)));
        },
    }
    JsonValue::Obj(fields)
}

/// The encoded HTTP payload, tagged by `kind`, fields in order; bodies use
/// the encoder's forms of the body encoding rule.
pub open spec fn spec_http_encoded(p: HttpPayload, v: JsonValue) -> bool {
    v matches JsonValue::Obj(fields) && {
        let fs = fields@;
        match p {
            HttpPayload::Request { method, url, headers, body, query_params, request_id } => {
                &&& fs.len() == 7
                &&& fs[0].0@ == key_bytes("kind"@) && is_str_of(fs[0].1, "Request"@)
                &&& fs[1].0@ == key_bytes("method"@) && is_str_of(fs[1].1, method@)
                &&& fs[2].0@ == key_bytes("url"@) && is_str_of(fs[2].1, url@)
                &&& fs[3].0@ == key_bytes("headers"@) && is_map_of(fs[3].1, headers_view(headers@))
                &&& fs[4].0@ == key_bytes("body"@) && is_body_of(fs[4].1, body)
                &&& fs[5].0@ == key_bytes("query_params"@) && is_map_of(
                    fs[5].1,
                    headers_view(query_params@),
                )
                &&& fs[6].0@ == key_bytes("requestId"@) && is_str_of(fs[6].1, request_id@)
            },
            HttpPayload::Response { status, status_text, headers, body, request_id } => {
                &&& fs.len() == 6
                &&& fs[0].0@ == key_bytes("kind"@) && is_str_of(fs[0].1, "Response"@)
                &&& fs[1].0@ == key_bytes("status"@) && is_u64_of(fs[1].1, status as u64)
                &&& fs[2].0@ == key_bytes("status_text"@) && is_str_of(fs[2].1, status_text@)
                &&& fs[3].0@ == key_bytes("headers"@) && is_map_of(fs[3].1, headers_view(headers@))
                &&& fs[4].0@ == key_bytes("body"@) && is_body_of(fs[4].1, body)
                &&& fs[5].0@ == key_bytes("requestId"@) && is_str_of(fs[5].1, request_id@)
            },
            HttpPayload::Upgrade { protocol, headers } => {
                &&& fs.len() == 3
                &&& fs[0].0@ == key_bytes("kind"@) && is_str_of(fs[0].1, "Upgrade"@)
                &&& fs[1].0@ == key_bytes("protocol"@) && is_str_of(fs[1].1, protocol@)
                &&& fs[2].0@ == key_bytes("headers"@) && is_map_of(fs[2].1, headers_view(headers@))
            },
            HttpPayload::Close { reason } => {
                &&& fs.len() == 2
                &&& fs[0].0@ == key_bytes("kind"@) && is_str_of(fs[0].1, "Close"@)
                &&& fs[1].0@ == key_bytes("reason"@) && is_str_of(fs[1].1, reason@)
            },
        }
    }
}

fn encode_http(p: &HttpPayload) -> (r: JsonValue)
    ensures
        spec_http_encoded(*p, r),
{
    let mut fields: Vec<(Vec<u8>, JsonValue)> = Vec::new();
    match p {
        HttpPayload::Request { method, url, headers, body, query_params, request_id } => {
            fields.push((key_of("kind"), str_value("Request")));
            fields.push((key_of("method"), str_value(method.as_str())));
            fields.push((key_of("url"), str_value(url.as_str())));
            fields.push((key_of("headers"), map_value(headers)));
            fields.push((key_of("body"), crate::body::encode_body(body)));
            fields.push((key_of("query_params"), map_value(query_params)));
            fields.push((key_of("requestId"), str_value(request_id.as_str())));
        },
        HttpPayload::Response { status, status_text, headers, body, request_id } => {
            fields.push((key_of("kind"), str_value("Response")));
            fields.push((key_of("status"), u64_value(*status as u64)));
            fields.push((key_of("status_text"), str_value(status_text.as_str())));
            fields.push((key_of("headers"), map_value(headers)));
            fields.push((key_of("body"), crate::body::encode_body(body)));
            fields.push((key_of("requestId"), str_value(request_id.as_str())));
        },
        HttpPayload::Upgrade { protocol, headers } => {
            fields.push((key_of("kind"), str_value("Upgrade")));
            fields.push((key_of("protocol"), str_value(protocol.as_str())));
            fields.push((key_of("headers"), map_value(headers)));
        },
        HttpPayload::Close { reason } => {
            fields.push((key_of("kind"), str_value("Close")));
            fields.push((key_of("reason"), str_value(reason.as_str())));
        },
    }
    JsonValue::Obj(fields)
}

/// The wire name of a connection status.
pub open spec fn spec_conn_status_name(s: FrameConnectionStatus) -> Seq<char> {
    match s {
        FrameConnectionStatus::Connecting => "Connecting"@,
        FrameConnectionStatus::Connected => "Connected"@,
        FrameConnectionStatus::Authenticated => "Authenticated"@,
        FrameConnectionStatus::Disconnecting => "Disconnecting"@,
        FrameConnectionStatus::Disconnected => "Disconnected"@,
        FrameConnectionStatus::Reconnecting => "Reconnecting"@,
        FrameConnectionStatus::Failed => "Failed"@,
    }
}

fn conn_status_name(s: &FrameConnectionStatus) -> (r: &'static str)
    ensures
        r@ == spec_conn_status_name(*s),
{
    match s {
        FrameConnectionStatus::Connecting => "Connecting",
        FrameConnectionStatus::Connected => "Connected",
        FrameConnectionStatus::Authenticated => "Authenticated",
        FrameConnectionStatus::Disconnecting => "Disconnecting",
        FrameConnectionStatus::Disconnected => "Disconnected",
        FrameConnectionStatus::Reconnecting => "Reconnecting",
        FrameConnectionStatus::Failed => "Failed",
    }
}

/// The encoded control payload, tagged by `kind`, fields in order.
pub open spec fn spec_control_encoded(p: ControlPayload, v: JsonValue) -> bool {
    v matches JsonValue::Obj(fields) && {
        let fs = fields@;
        match p {
            ControlPayload::Authentication { status, message, timestamp } => {
                &&& fs.len() == 4
                &&& fs[0].0@ == key_bytes("kind"@) && is_str_of(fs[0].1, "Authentication"@)
                &&& fs[1].0@ == key_bytes("status"@) && is_str_of(fs[1].1, status@)
                &&& fs[2].0@ == key_bytes("message"@) && is_str_of(fs[2].1, message@)
                &&& fs[3].0@ == key_bytes("timestamp"@) && is_str_of(fs[3].1, timestamp@)
            },
            ControlPayload::Error { error, code, timestamp } => {
                &&& fs.len() == 4
                &&& fs[0].0@ == key_bytes("kind"@) && is_str_of(fs[0].1, "Error"@)
                &&& fs[1].0@ == key_bytes("error"@) && is_str_of(fs[1].1, error@)
                &&& fs[2].0@ == key_bytes("code"@) && is_str_of(fs[2].1, code@)
                &&& fs[3].0@ == key_bytes("timestamp"@) && is_str_of(fs[3].1, timestamp@)
            },
            ControlPayload::Ping { timestamp, data } => {
                &&& fs.len() == 3
                &&& fs[0].0@ == key_bytes("kind"@) && is_str_of(fs[0].1, "Ping"@)
                &&& fs[1].0@ == key_bytes("timestamp"@) && is_u64_of(fs[1].1, timestamp)
                &&& fs[2].0@ == key_bytes("data"@) && is_body_of(fs[2].1, data)
            },
            ControlPayload::Pong { timestamp, data } => {
                &&& fs.len() == 3
                &&& fs[0].0@ == key_bytes("kind"@) && is_str_of(fs[0].1, "Pong"@)
                &&& fs[1].0@ == key_bytes("timestamp"@) && is_u64_of(fs[1].1, timestamp)
                &&& fs[2].0@ == key_bytes("data"@) && is_body_of(fs[2].1, data)
            },
            ControlPayload::Status { status, message, details } => {
                &&& fs.len() == 4
                &&& fs[0].0@ == key_bytes("kind"@) && is_str_of(fs[0].1, "Status"@)
                &&& fs[1].0@ == key_bytes("status"@) && is_str_of(
                    fs[1].1,
                    spec_conn_status_name(status),
                )
                &&& fs[2].0@ == key_bytes("message"@) && is_opt_str_of(
                    fs[2].1,
                    spec_view_opt(message),
                )
                &&& fs[3].0@ == key_bytes("details"@) && is_map_of(fs[3].1, headers_view(details@))
            },
            ControlPayload::Config { config_type, config_data } => {
                &&& fs.len() == 3
                &&& fs[0].0@ == key_bytes("kind"@) && is_str_of(fs[0].1, "Config"@)
                &&& fs[1].0@ == key_bytes("config_type"@) && is_str_of(fs[1].1, config_type@)
                &&& fs[2].0@ == key_bytes("config_data"@) && crate::json::json_eq(
                    fs[2].1,
                    config_data,
                )
            },
            ControlPayload::Command { command, arguments, environment } => {
                &&& fs.len() == 4
                &&& fs[0].0@ == key_bytes("kind"@) && is_str_of(fs[0].1, "Command"@)
                &&& fs[1].0@ == key_bytes("command"@) && is_str_of(fs[1].1, command@)
                &&& fs[2].0@ == key_bytes("arguments"@) && is_list_of(
                    fs[2].1,
                    strings_view(arguments@),
                )
                &&& fs[3].0@ == key_bytes("environment"@) && is_map_of(
                    fs[3].1,
                    headers_view(environment@),
                )
            },
            ControlPayload::Shutdown { reason, grace_period_seconds } => {
                &&& fs.len() == 3
                &&& fs[0].0@ == key_bytes("kind"@) && is_str_of(fs[0].1, "Shutdown"@)
                &&& fs[1].0@ == key_bytes("reason"@) && is_str_of(fs[1].1, reason@)
                &&& fs[2].0@ == key_bytes("grace_period_seconds"@) && is_u64_of(
                    fs[2].1,
                    grace_period_seconds,
                )
            },
        }
    }
}

fn encode_control(p: &ControlPayload) -> (r: JsonValue)
    ensures
        spec_control_encoded(*p, r),
{
    let mut fields: Vec<(Vec<u8>, JsonValue)> = Vec::new();
    match p {
        ControlPayload::Authentication { status, message, timestamp } => {
            fields.push((key_of("kind"), str_value("Authentication")));
            fields.push((key_of("status"), str_value(status.as_str())));
            fields.push((key_of("message"), str_value(message.as_str())));
            fields.push((key_of("timestamp"), str_value(timestamp.as_str())));
        },
        ControlPayload::Error { error, code, timestamp } => {
            fields.push((key_of("kind"), str_value("Error")));
            fields.push((key_of("error"), str_value(error.as_str())));
            fields.push((key_of("code"), str_value(code.as_str())));
            fields.push((key_of("timestamp"), str_value(timestamp.as_str())));
        },
        ControlPayload::Ping { timestamp, data } => {
            fields.push((key_of("kind"), str_value("Ping")));
            fields.push((key_of("timestamp"), u64_value(*timestamp)));
            fields.push((key_of("data"), crate::body::encode_body(data)));
        },
        ControlPayload::Pong { timestamp, data } => {
            fields.push((key_of("kind"), str_value("Pong")));
            fields.push((key_of("timestamp"), u64_value(*timestamp)));
            fields.push((key_of("data"), crate::body::encode_body(data)));
        },
        ControlPayload::Status { status, message, details } => {
            fields.push((key_of("kind"), str_value("Status")));
            fields.push((key_of("status"), str_value(conn_status_name(status))));
            fields.push((key_of("message"), opt_str_value(message)));
            fields.push((key_of("details"), map_value(details)));
        },
        ControlPayload::Config { config_type, config_data } => {
            fields.push((key_of("kind"), str_value("Config")));
            fields.push((key_of("config_type"), str_value(config_type.as_str())));
            fields.push((key_of("config_data"), crate::json::json_clone(config_data)));
        },
        ControlPayload::Command { command, arguments, environment } => {
            fields.push((key_of("kind"), str_value("Command")));
            fields.push((key_of("command"), str_value(command.as_str())));
            fields.push((key_of("arguments"), list_value(arguments)));
            fields.push((key_of("environment"), map_value(environment)));
        },
        ControlPayload::Shutdown { reason, grace_period_seconds } => {
            fields.push((key_of("kind"), str_value("Shutdown")));
            fields.push((key_of("reason"), str_value(reason.as_str())));
            fields.push((key_of("grace_period_seconds"), u64_value(*grace_period_seconds)));
        },
    }
    JsonValue::Obj(fields)
}

/// The encoded stats payload, tagged by `stats_type`, fields in order.
pub open spec fn spec_stats_encoded(p: StatsPayload, v: JsonValue) -> bool {
    v matches JsonValue::Obj(fields) && {
        let fs = fields@;
        match p {
            StatsPayload::Connection {
                connected_clients,
                total_connections,
                failed_connections,
                uptime_seconds,
            } => {
                &&& fs.len() == 5
                &&& fs[0].0@ == key_bytes("stats_type"@) && is_str_of(fs[0].1, "Connection"@)
                &&& fs[1].0@ == key_bytes("connected_clients"@) && is_u64_of(
                    fs[1].1,
                    connected_clients,
                )
                &&& fs[2].0@ == key_bytes("total_connections"@) && is_u64_of(
                    fs[2].1,
                    total_connections,
                )
                &&& fs[3].0@ == key_bytes("failed_connections"@) && is_u64_of(
                    fs[3].1,
                    failed_connections,
                )
                &&& fs[4].0@ == key_bytes("uptime_seconds"@) && is_u64_of(fs[4].1, uptime_seconds)
            },
            StatsPayload::Traffic {
                requests_processed,
                requests_successful,
                requests_failed,
                bytes_transferred,
                average_response_time_ms,
            } => {
                &&& fs.len() == 6
                &&& fs[0].0@ == key_bytes("stats_type"@) && is_str_of(fs[0].1, "Traffic"@)
                &&& fs[1].0@ == key_bytes("requests_processed"@) && is_u64_of(
                    fs[1].1,
                    requests_processed,
                )
                &&& fs[2].0@ == key_bytes("requests_successful"@) && is_u64_of(
                    fs[2].1,
                    requests_successful,
                )
                &&& fs[3].0@ == key_bytes("requests_failed"@) && is_u64_of(
                    fs[3].1,
                    requests_failed,
                )
                &&& fs[4].0@ == key_bytes("bytes_transferred"@) && is_u64_of(
                    fs[4].1,
                    bytes_transferred,
                )
                &&& fs[5].0@ == key_bytes("average_response_time_ms"@) && is_u64_of(
                    fs[5].1,
                    average_response_time_ms,
                )
            },
            StatsPayload::Custom { metric_name, metric_value, metric_type, labels } => {
                &&& fs.len() == 5
                &&& fs[0].0@ == key_bytes("stats_type"@) && is_str_of(fs[0].1, "Custom"@)
                &&& fs[1].0@ == key_bytes("metric_name"@) && is_str_of(fs[1].1, metric_name@)
                &&& fs[2].0@ == key_bytes("metric_value"@) && crate::json::json_eq(
                    fs[2].1,
                    metric_value,
                )
                &&& fs[3].0@ == key_bytes("metric_type"@) && is_str_of(fs[3].1, metric_type@)
                &&& fs[4].0@ == key_bytes("labels"@) && is_map_of(fs[4].1, headers_view(labels@))
            },
        }
    }
}

fn encode_stats(p: &StatsPayload) -> (r: JsonValue)
    ensures
        spec_stats_encoded(*p, r),
{
    let mut fields: Vec<(Vec<u8>, JsonValue)> = Vec::new();
    match p {
        StatsPayload::Connection {
            connected_clients,
            total_connections,
            failed_connections,
            uptime_seconds,
        } => {
            fields.push((key_of("stats_type"), str_value("Connection")));
            fields.push((key_of("connected_clients"), u64_value(*connected_clients)));
            fields.push((key_of("total_connections"), u64_value(*total_connections)));
            fields.push((key_of("failed_connections"), u64_value(*failed_connections)));
            fields.push((key_of("uptime_seconds"), u64_value(*uptime_seconds)));
        },
        StatsPayload::Traffic {
            requests_processed,
            requests_successful,
            requests_failed,
            bytes_transferred,
            average_response_time_ms,
        } => {
            fields.push((key_of("stats_type"), str_value("Traffic")));
            fields.push((key_of("requests_processed"), u64_value(*requests_processed)));
            fields.push((key_of("requests_successful"), u64_value(*requests_successful)));
            fields.push((key_of("requests_failed"), u64_value(*requests_failed)));
            fields.push((key_of("bytes_transferred"), u64_value(*bytes_transferred)));
            fields.push((key_of("average_response_time_ms"), u64_value(
                *average_response_time_ms,
            )));
        },
        StatsPayload::Custom { metric_name, metric_value, metric_type, labels } => {
            fields.push((key_of("stats_type"), str_value("Custom")));
            fields.push((key_of("metric_name"), str_value(metric_name.as_str())));
            fields.push((key_of("metric_value"), crate::json::json_clone(metric_value)));
            fields.push((key_of("metric_type"), str_value(metric_type.as_str())));
            fields.push((key_of("labels"), map_value(labels)));
        },
    }
    JsonValue::Obj(fields)
}

/// The wire name of an error category.
pub open spec fn spec_category_name(c: ErrorCategory) -> Seq<char> {
    match c {
        ErrorCategory::Authentication => "Authentication"@,
        ErrorCategory::Authorization => "Authorization"@,
        ErrorCategory::Network => "Network"@,
        ErrorCategory::Protocol => "Protocol"@,
        ErrorCategory::Validation => "Validation"@,
        ErrorCategory::Internal => "Internal"@,
        ErrorCategory::External => "External"@,
        ErrorCategory::Timeout => "Timeout"@,
        ErrorCategory::RateLimit => "RateLimit"@,
    }
}

fn category_name(c: &ErrorCategory) -> (r: &'static str)
    ensures
        r@ == spec_category_name(*c),
{
    match c {
        ErrorCategory::Authentication => "Authentication",
        ErrorCategory::Authorization => "Authorization",
        ErrorCategory::Network => "Network",
        ErrorCategory::Protocol => "Protocol",
        ErrorCategory::Validation => "Validation",
        ErrorCategory::Internal => "Internal",
        ErrorCategory::External => "External",
        ErrorCategory::Timeout => "Timeout",
        ErrorCategory::RateLimit => "RateLimit",
    }
}

/// The encoded error payload, fields in order.
pub open spec fn spec_error_encoded(p: ErrorPayload, v: JsonValue) -> bool {
    v matches JsonValue::Obj(fields) && {
        let fs = fields@;
        &&& fs.len() == 7
        &&& fs[0].0@ == key_bytes("code"@) && is_str_of(fs[0].1, p.code@)
        &&& fs[1].0@ == key_bytes("message"@) && is_str_of(fs[1].1, p.message@)
        &&& fs[2].0@ == key_bytes("details"@) && is_opt_str_of(fs[2].1, spec_view_opt(p.details))
        &&& fs[3].0@ == key_bytes("trace"@) && is_opt_str_of(fs[3].1, spec_view_opt(p.trace))
        &&& fs[4].0@ == key_bytes("related_id"@) && is_opt_str_of(
            fs[4].1,
            spec_view_opt(p.related_id),
        )
        &&& fs[5].0@ == key_bytes("category"@) && is_str_of(fs[5].1, spec_category_name(p.category))
        &&& fs[6].0@ == key_bytes("recovery_actions"@) && is_list_of(
            fs[6].1,
            strings_view(p.recovery_actions@),
        )
    }
}

fn encode_error_payload(p: &ErrorPayload) -> (r: JsonValue)
    ensures
        spec_error_encoded(*p, r),
{
    let mut fields: Vec<(Vec<u8>, JsonValue)> = Vec::new();
    fields.push((key_of("code"), str_value(p.code.as_str())));
    fields.push((key_of("message"), str_value(p.message.as_str())));
    fields.push((key_of("details"), opt_str_value(&p.details)));
    fields.push((key_of("trace"), opt_str_value(&p.trace)));
    fields.push((key_of("related_id"), opt_str_value(&p.related_id)));
    fields.push((key_of("category"), str_value(category_name(&p.category))));
    fields.push((key_of("recovery_actions"), list_value(&p.recovery_actions)));
    JsonValue::Obj(fields)
}

/// The wire name of a stream action.
pub open spec fn spec_action_name(a: StreamAction) -> Seq<char> {
    match a {
        StreamAction::Start => "Start"@,
        StreamAction::Pause => "Pause"@,
        StreamAction::Resume => "Resume"@,
        StreamAction::Stop => "Stop"@,
        StreamAction::Reset => "Reset"@,
    }
}

fn action_name(a: &StreamAction) -> (r: &'static str)
    ensures
        r@ == spec_action_name(*a),
{
    match a {
        StreamAction::Start => "Start",
        StreamAction::Pause => "Pause",
        StreamAction::Resume => "Resume",
        StreamAction::Stop => "Stop",
        StreamAction::Reset => "Reset",
    }
}

/// A byte-array position carrying a required byte string.
pub open spec fn is_bytes_of(v: JsonValue, b: Seq<u8>) -> bool {
    v matches JsonValue::Arr(items) && items@.len() == b.len() && forall|i: int|
        0 <= i < b.len() ==> ((#[trigger] items@[i]) matches JsonValue::Num(lit) && lit@
            == crate::body::spec_byte_lit(b[i]))
}

fn bytes_value(b: &Vec<u8>) -> (r: JsonValue)
    ensures
        is_bytes_of(r, b@),
{
    let some_b = Some(bytes_clone_local(b));
    let v = crate::body::encode_body(&some_b);
    proof {
        assert(v is Arr);
    }
    v
}

fn bytes_clone_local(b: &Vec<u8>) -> (r: Vec<u8>)
    ensures
        r@ == b@,
{
    let mut out: Vec<u8> = Vec::new();
    let mut i: usize = 0;
    while i < b.len()
        invariant
            i <= b.len(),
            out@ == b@.take(i as int),
        decreases b.len() - i,
    {
        out.push(b[i]);
        proof {
            assert(out@ =~= b@.take(i + 1));
        }
        i = i + 1;
    }
    proof {
        assert(b@.take(b@.len() as int) =~= b@);
    }
    out
}

/// The encoded stream payload, tagged by `stream_type`, fields in order.
pub open spec fn spec_stream_encoded(p: StreamPayload, v: JsonValue) -> bool {
    v matches JsonValue::Obj(fields) && {
        let fs = fields@;
        match p {
            StreamPayload::Data { stream_id, sequence, data, is_final } => {
                &&& fs.len() == 5
                &&& fs[0].0@ == key_bytes("stream_type"@) && is_str_of(fs[0].1, "Data"@)
                &&& fs[1].0@ == key_bytes("stream_id"@) && is_str_of(fs[1].1, stream_id@)
                &&& fs[2].0@ == key_bytes("sequence"@) && is_u64_of(fs[2].1, sequence)
                &&& fs[3].0@ == key_bytes("data"@) && is_bytes_of(fs[3].1, data@)
                &&& fs[4].0@ == key_bytes("is_final"@) && fs[4].1 == JsonValue::Bool(is_final)
            },
            StreamPayload::Control { stream_id, action, metadata } => {
                &&& fs.len() == 4
                &&& fs[0].0@ == key_bytes("stream_type"@) && is_str_of(fs[0].1, "Control"@)
                &&& fs[1].0@ == key_bytes("stream_id"@) && is_str_of(fs[1].1, stream_id@)
                &&& fs[2].0@ == key_bytes("action"@) && is_str_of(fs[2].1, spec_action_name(action))
                &&& fs[3].0@ == key_bytes("metadata"@) && is_map_of(
                    fs[3].1,
                    headers_view(metadata@),
                )
            },
        }
    }
}

fn encode_stream(p: &StreamPayload) -> (r: JsonValue)
    ensures
        spec_stream_encoded(*p, r),
{
    let mut fields: Vec<(Vec<u8>, JsonValue)> = Vec::new();
    match p {
        StreamPayload::Data { stream_id, sequence, data, is_final } => {
            fields.push((key_of("stream_type"), str_value("Data")));
            fields.push((key_of("stream_id"), str_value(stream_id.as_str())));
            fields.push((key_of("sequence"), u64_value(*sequence)));
            fields.push((key_of("data"), bytes_value(data)));
            fields.push((key_of("is_final"), JsonValue::Bool(*is_final)));
        },
        StreamPayload::Control { stream_id, action, metadata } => {
            fields.push((key_of("stream_type"), str_value("Control")));
            fields.push((key_of("stream_id"), str_value(stream_id.as_str())));
            fields.push((key_of("action"), str_value(action_name(action))));
            fields.push((key_of("metadata"), map_value(metadata)));
        },
    }
    JsonValue::Obj(fields)
}

/// The encoded custom payload, fields in order.
pub open spec fn spec_custom_encoded(p: CustomPayload, v: JsonValue) -> bool {
    v matches JsonValue::Obj(fields) && {
        let fs = fields@;
        &&& fs.len() == 3
        &&& fs[0].0@ == key_bytes("message_type"@) && is_str_of(fs[0].1, p.message_type@)
        &&& fs[1].0@ == key_bytes("data"@) && crate::json::json_eq(fs[1].1, p.data)
        &&& fs[2].0@ == key_bytes("schema_version"@) && is_str_of(fs[2].1, p.schema_version@)
    }
}

fn encode_custom(p: &CustomPayload) -> (r: JsonValue)
    ensures
        spec_custom_encoded(*p, r),
{
    let mut fields: Vec<(Vec<u8>, JsonValue)> = Vec::new();
    fields.push((key_of("message_type"), str_value(p.message_type.as_str())));
    fields.push((key_of("data"), crate::json::json_clone(&p.data)));
    fields.push((key_of("schema_version"), str_value(p.schema_version.as_str())));
    JsonValue::Obj(fields)
}

/// The encoded tagged payload: `kind` and `data`.
pub open spec fn spec_payload_encoded(p: MessagePayload, v: JsonValue) -> bool {
    v matches JsonValue::Obj(fields) && {
        let fs = fields@;
        &&& fs.len() == 2
        &&& fs[0].0@ == key_bytes("kind"@)
        &&& fs[1].0@ == key_bytes("data"@)
        &&& match p {
            MessagePayload::Auth(a) => is_str_of(fs[0].1, "Auth"@) && spec_auth_encoded(
                a,
                fs[1].1,
            ),
            MessagePayload::Http(h) => is_str_of(fs[0].1, "HTTP"@) && spec_http_encoded(
                h,
                fs[1].1,
            ),
            MessagePayload::Control(c) => is_str_of(fs[0].1, "Control"@) && spec_control_encoded(
                c,
                fs[1].1,
            ),
            MessagePayload::Stats(s) => is_str_of(fs[0].1, "Stats"@) && spec_stats_encoded(
                s,
                fs[1].1,
            ),
            MessagePayload::Error(e) => is_str_of(fs[0].1, "Error"@) && spec_error_encoded(
                e,
                fs[1].1,
            ),
            MessagePayload::Stream(s) => is_str_of(fs[0].1, "Stream"@) && spec_stream_encoded(
                s,
                fs[1].1,
            ),
            MessagePayload::Custom(c) => is_str_of(fs[0].1, "Custom"@) && spec_custom_encoded(
                c,
                fs[1].1,
            ),
        }
    }
}

fn encode_payload(p: &MessagePayload) -> (r: JsonValue)
    ensures
        spec_payload_encoded(*p, r),
{
    let mut fields: Vec<(Vec<u8>, JsonValue)> = Vec::new();
    match p {
        MessagePayload::Auth(a) => {
            fields.push((key_of("kind"), str_value("Auth")));
            fields.push((key_of("data"), encode_auth(a)));
        },
        MessagePayload::Http(h) => {
            fields.push((key_of("kind"), str_value("HTTP")));
            fields.push((key_of("data"), encode_http(h)));
        },
        MessagePayload::Control(c) => {
            fields.push((key_of("kind"), str_value("Control")));
            fields.push((key_of("data"), encode_control(c)));
        },
        MessagePayload::Stats(st) => {
            fields.push((key_of("kind"), str_value("Stats")));
            fields.push((key_of("data"), encode_stats(st)));
        },
        MessagePayload::Error(e) => {
            fields.push((key_of("kind"), str_value("Error")));
            fields.push((key_of("data"), encode_error_payload(e)));
        },
        MessagePayload::Stream(st) => {
            fields.push((key_of("kind"), str_value("Stream")));
            fields.push((key_of("data"), encode_stream(st)));
        },
        MessagePayload::Custom(c) => {
            fields.push((key_of("kind"), str_value("Custom")));
            fields.push((key_of("data"), encode_custom(c)));
        },
    }
    JsonValue::Obj(fields)
}

/// The encoded frame: envelope, then the message with metadata and
/// payload.
pub open spec fn spec_frame_encoded(m: TunnelMessage, v: JsonValue) -> bool {
    v matches JsonValue::Obj(fields) && {
        let fs = fields@;
        &&& fs.len() == 2
        &&& fs[0].0@ == key_bytes("envelope"@) && spec_envelope_encoded(m.envelope, fs[0].1)
        &&& fs[1].0@ == key_bytes("message"@) && (fs[1].1 matches JsonValue::Obj(mf) && {
            let ms = mf@;
            &&& ms.len() == 2
            &&& ms[0].0@ == key_bytes("metadata"@) && spec_metadata_encoded(
                m.message.metadata,
                ms[0].1,
            )
            &&& ms[1].0@ == key_bytes("payload"@) && spec_payload_encoded(
                m.message.payload,
                ms[1].1,
            )
        })
    }
}

/// Encodes a frame as a value tree.
pub fn tunnel_message_to_value(m: &TunnelMessage) -> (r: JsonValue)
    ensures
        spec_frame_encoded(*m, r),
{
    let mut message_fields: Vec<(Vec<u8>, JsonValue)> = Vec::new();
    message_fields.push((key_of("metadata"), encode_metadata(&m.message.metadata)));
    message_fields.push((key_of("payload"), encode_payload(&m.message.payload)));
    let mut fields: Vec<(Vec<u8>, JsonValue)> = Vec::new();
    fields.push((key_of("envelope"), encode_envelope(&m.envelope)));
    fields.push((key_of("message"), JsonValue::Obj(message_fields)));
    JsonValue::Obj(fields)
}

impl TunnelMessage {
    /// Serializes this frame to its wire text, as bytes: the library's own
    /// serializer applied to the encoded value tree.
    pub fn to_json_bytes(&self) -> (r: Vec<u8>)
        ensures
            exists|v: JsonValue|
                #[trigger] spec_frame_encoded(*self, v) && r@ == crate::json::spec_json_bytes(v),
    {
        let v = tunnel_message_to_value(self);
        crate::json::json_to_bytes(&v)
    }

    /// Decodes a frame from its wire text. Succeeds exactly when the text
    /// is JSON for a well-formed frame.
    pub fn from_json(text: &str) -> (r: Result<TunnelMessage, ParseError>)
        ensures
            ({
                let bytes = encode_utf8(text@);
                match spec_parse_json(bytes) {
                    None => r is Err,
                    Some(v) => {
                        &&& r is Ok <==> spec_frame_wf(v)
                        &&& (r matches Ok(m) ==> spec_frame_matches(v, m))
                    },
                }
            }),
    {
        decode_frame_text(text.as_bytes())
    }
}

/// A string position written by the encoder reads back as the same
/// character string.
pub proof fn lemma_str_value_round_trip(v: JsonValue, s: Seq<char>)
    requires
        is_str_of(v, s),
    ensures
        spec_str_of(v) == Some(s),
{
    vstd::utf8::encode_utf8_valid_utf8(s);
    vstd::utf8::encode_utf8_decode_utf8(s);
}

/// The decimal rendering of a number is a nonempty digit string with that
/// value, once encoded as bytes.
proof fn lemma_decimal_bytes(n: nat)
    ensures
        ({
            let bytes = encode_utf8(crate::status::spec_decimal(n));
            &&& bytes.len() > 0
            &&& spec_all_digits(bytes)
            &&& spec_dec_val(bytes) == n
        }),
    decreases n,
{
    reveal_strlit("0");
    reveal_strlit("1");
    reveal_strlit("2");
    reveal_strlit("3");
    reveal_strlit("4");
    reveal_strlit("5");
    reveal_strlit("6");
    reveal_strlit("7");
    reveal_strlit("8");
    reveal_strlit("9");
    lemma_decimal_ascii(n);
    let chars = crate::status::spec_decimal(n);
    vstd::utf8::is_ascii_chars_encode_utf8(chars);
    let bytes = encode_utf8(chars);
    if n < 10 {
        let d = crate::status::spec_digit(n);
        assert(chars == d);
        assert(d.len() == 1);
        assert(bytes =~= seq![(d[0] as u8)]);
        assert(bytes.drop_last() =~= Seq::<u8>::empty());
        assert(spec_dec_val(Seq::<u8>::empty()) == 0);
        assert(spec_dec_val(bytes) == n);
    } else {
        lemma_decimal_bytes(n / 10);
        lemma_decimal_ascii(n / 10);
        let head_chars = crate::status::spec_decimal(n / 10);
        vstd::utf8::is_ascii_chars_encode_utf8(head_chars);
        let head = encode_utf8(head_chars);
        let d = crate::status::spec_digit(n % 10);
        assert(chars == head_chars + d);
        assert(d.len() == 1);
        assert(bytes =~= head + seq![(d[0] as u8)]);
        assert(bytes.drop_last() =~= head);
        assert(bytes.last() == d[0] as u8);
        assert(spec_dec_val(bytes) == spec_dec_val(head) * 10 + (d[0] as u8 - 0x30));
        assert((n / 10) * 10 + n % 10 == n) by (nonlinear_arith);
    }
}

/// Every character of a decimal rendering is an ASCII digit.
proof fn lemma_decimal_ascii(n: nat)
    ensures
        vstd::utf8::is_ascii_chars(crate::status::spec_decimal(n)),
    decreases n,
{
    reveal_strlit("0");
    reveal_strlit("1");
    reveal_strlit("2");
    reveal_strlit("3");
    reveal_strlit("4");
    reveal_strlit("5");
    reveal_strlit("6");
    reveal_strlit("7");
    reveal_strlit("8");
    reveal_strlit("9");
    let chars = crate::status::spec_decimal(n);
    if n < 10 {
        assert(vstd::utf8::is_ascii_chars(chars));
    } else {
        lemma_decimal_ascii(n / 10);
        let head = crate::status::spec_decimal(n / 10);
        let d = crate::status::spec_digit(n % 10);
        assert(chars == head + d);
        assert forall|i: int| 0 <= i < chars.len() implies '\0' <= #[trigger] chars[i]
            <= '\u{7f}' by {
            if i < head.len() {
                assert(chars[i] == head[i]);
            } else {
                assert(chars[i] == d[i - head.len()]);
            }
        }
    }
}

/// A number position written by the encoder reads back as the same
/// unsigned integer.
pub proof fn lemma_u64_value_round_trip(v: JsonValue, n: u64)
    requires
        is_u64_of(v, n),
    ensures
        spec_u64_of(v) == Some(n),
{
    lemma_decimal_bytes(n as nat);
}

/// A string-map position written by the encoder reads back as the same
/// pair list, in order.
pub proof fn lemma_map_value_round_trip(v: JsonValue, hv: Seq<(Seq<char>, Seq<char>)>)
    requires
        is_map_of(v, hv),
    ensures
        spec_str_map_wf(v),
        spec_str_map_val(v) == hv,
{
    let fields = v->Obj_0@;
    assert forall|i: int| 0 <= i < fields.len() implies valid_utf8(
        (#[trigger] fields[i]).0@,
    ) && spec_str_of(fields[i].1) is Some by {
        vstd::utf8::encode_utf8_valid_utf8(hv[i].0);
        lemma_str_value_round_trip(fields[i].1, hv[i].1);
    }
    assert forall|i: int| 0 <= i < fields.len() implies spec_str_map_val(v)[i] == hv[i] by {
        vstd::utf8::encode_utf8_valid_utf8(hv[i].0);
        vstd::utf8::encode_utf8_decode_utf8(hv[i].0);
        lemma_str_value_round_trip(fields[i].1, hv[i].1);
        assert(spec_str_map_val(v)[i] == spec_pair_of_field(fields[i]));
    }
    assert(spec_str_map_val(v) =~= hv);
}

/// A string-list position written by the encoder reads back as the same
/// list, in order.
pub proof fn lemma_list_value_round_trip(v: JsonValue, items: Seq<Seq<char>>)
    requires
        is_list_of(v, items),
    ensures
        spec_str_list_wf(v),
        spec_str_list_val(v) == items,
{
    let elems = v->Arr_0@;
    assert forall|i: int| 0 <= i < elems.len() implies spec_str_of(
        #[trigger] elems[i],
    ) is Some by {
        lemma_str_value_round_trip(elems[i], items[i]);
    }
    assert forall|i: int| 0 <= i < elems.len() implies spec_str_list_val(v)[i] == items[i] by {
        lemma_str_value_round_trip(elems[i], items[i]);
        assert(spec_str_list_val(v)[i] == spec_str_of_item(elems[i]));
    }
    assert(spec_str_list_val(v) =~= items);
}

/// A body position written by the encoder decodes back to the same byte
/// sequence: the body encoding rule round trip, at the wire position.
pub proof fn lemma_body_value_round_trip(v: JsonValue, b: Option<Vec<u8>>)
    requires
        is_body_of(v, b),
    ensures
        ({
            let bytes = match b {
                Some(x) => Some(x@),
                None => None::<Seq<u8>>,
            };
            spec_decode_body(v) == Ok::<Option<Seq<u8>>, crate::body::BodyError>(bytes)
        }),
{
    let bytes = match b {
        Some(x) => Some(x@),
        None => None::<Seq<u8>>,
    };
    crate::body::lemma_body_round_trip(bytes, v);
}

/// An encoded envelope is well formed on the wire and reads back field
/// for field; a carried protocol version survives as itself.
pub proof fn lemma_envelope_round_trip(e: TunnelEnvelope, v: JsonValue)
    requires
        spec_envelope_encoded(e, v),
        e.protocol_version is Some,
    ensures
        spec_envelope_wf(v),
        spec_envelope_matches(v, e),
{
    reveal_strlit("tunnel_id");
    reveal_strlit("client_id");
    reveal_strlit("server_id");
    reveal_strlit("protocol_version");
    reveal_strlit("compression");
    reveal_strlit("encryption");
    vstd::utf8::is_ascii_chars_encode_utf8("tunnel_id"@);
    vstd::utf8::is_ascii_chars_encode_utf8("client_id"@);
    vstd::utf8::is_ascii_chars_encode_utf8("server_id"@);
    vstd::utf8::is_ascii_chars_encode_utf8("protocol_version"@);
    vstd::utf8::is_ascii_chars_encode_utf8("compression"@);
    vstd::utf8::is_ascii_chars_encode_utf8("encryption"@);
    reveal_with_fuel(jv_fields_get, 8);
    let fs = v->Obj_0@;
    assert(jv_get(v, key_bytes("tunnel_id"@)) == Some(fs[0].1));
    assert(jv_get(v, key_bytes("client_id"@)) == Some(fs[1].1));
    assert(jv_get(v, key_bytes("server_id"@)) == Some(fs[2].1));
    assert(jv_get(v, key_bytes("protocol_version"@)) == Some(fs[3].1));
    assert(jv_get(v, key_bytes("compression"@)) == Some(fs[4].1));
    assert(jv_get(v, key_bytes("encryption"@)) == Some(fs[5].1));
    lemma_str_value_round_trip(fs[0].1, e.tunnel_id@);
    lemma_str_value_round_trip(fs[1].1, e.client_id@);
    lemma_opt_str_round_trip(fs[2].1, e.server_id);
    lemma_opt_str_round_trip(fs[3].1, e.protocol_version);
    lemma_opt_str_round_trip(fs[4].1, e.compression);
    lemma_opt_str_round_trip(fs[5].1, e.encryption);
}

/// An optional-string position written by the encoder reads back as the
/// same optional string.
proof fn lemma_opt_str_round_trip(v: JsonValue, s: Option<String>)
    requires
        is_opt_str_of(v, spec_view_opt(s)),
    ensures
        v is Null || spec_str_of(v) is Some,
        ({
            let val = if v is Null {
                None::<Seq<char>>
            } else {
                spec_str_of(v)
            };
            spec_opt_string_matches(s, val)
        }),
{
    match s {
        Some(x) => {
            lemma_str_value_round_trip(v, x@);
        },
        None => {},
    }
}

/// Priority names parse back to the priority they name.
proof fn lemma_priority_name_round_trip(p: MessagePriority)
    ensures
        spec_priority_of(spec_priority_name(p)) == Some(p),
{
    reveal_strlit("low");
    reveal_strlit("normal");
    reveal_strlit("high");
    reveal_strlit("critical");
    match p {
        MessagePriority::Low => {
            assert(spec_priority_of("low"@) == Some(MessagePriority::Low));
        },
        MessagePriority::Normal => {
            assert("normal"@ != "low"@) by {
                assert("normal"@.len() != "low"@.len());
            }
            assert(spec_priority_of("normal"@) == Some(MessagePriority::Normal));
        },
        MessagePriority::High => {
            assert("high"@ != "low"@) by {
                assert("high"@.len() != "low"@.len());
            }
            assert("high"@ != "normal"@) by {
                assert("high"@.len() != "normal"@.len());
            }
            assert(spec_priority_of("high"@) == Some(MessagePriority::High));
        },
        MessagePriority::Critical => {
            assert("critical"@ != "low"@) by {
                assert("critical"@.len() != "low"@.len());
            }
            assert("critical"@ != "normal"@) by {
                assert("critical"@.len() != "normal"@.len());
            }
            assert("critical"@ != "high"@) by {
                assert("critical"@.len() != "high"@.len());
            }
            assert(spec_priority_of("critical"@) == Some(MessagePriority::Critical));
        },
    }
}

/// Delivery mode names parse back to the mode they name.
proof fn lemma_delivery_name_round_trip(p: DeliveryMode)
    ensures
        spec_delivery_of(spec_delivery_name(p)) == Some(p),
{
    reveal_strlit("at_most_once");
    reveal_strlit("at_least_once");
    reveal_strlit("exactly_once");
    match p {
        DeliveryMode::AtMostOnce => {
            assert(spec_delivery_of("at_most_once"@) == Some(DeliveryMode::AtMostOnce));
        },
        DeliveryMode::AtLeastOnce => {
            assert("at_least_once"@ != "at_most_once"@) by {
                assert("at_least_once"@.len() != "at_most_once"@.len());
            }
            assert(spec_delivery_of("at_least_once"@) == Some(DeliveryMode::AtLeastOnce));
        },
        DeliveryMode::ExactlyOnce => {
            assert("exactly_once"@ != "at_most_once"@) by {
                assert("exactly_once"@[0] != "at_most_once"@[0]);
            }
            assert("exactly_once"@ != "at_least_once"@) by {
                assert("exactly_once"@.len() != "at_least_once"@.len());
            }
            assert(spec_delivery_of("exactly_once"@) == Some(DeliveryMode::ExactlyOnce));
        },
    }
}

/// Encoding names parse back to the encoding they name.
proof fn lemma_encoding_name_round_trip(p: MessageEncoding)
    ensures
        spec_encoding_of(spec_encoding_name(p)) == Some(p),
{
    reveal_strlit("json");
    reveal_strlit("msgpack");
    reveal_strlit("protobuf");
    reveal_strlit("cbor");
    match p {
        MessageEncoding::Json => {
            assert(spec_encoding_of("json"@) == Some(MessageEncoding::Json));
        },
        MessageEncoding::MessagePack => {
            assert("msgpack"@ != "json"@) by {
                assert("msgpack"@.len() != "json"@.len());
            }
            assert(spec_encoding_of("msgpack"@) == Some(MessageEncoding::MessagePack));
        },
        MessageEncoding::Protobuf => {
            assert("protobuf"@ != "json"@) by {
                assert("protobuf"@.len() != "json"@.len());
            }
            assert("protobuf"@ != "msgpack"@) by {
                assert("protobuf"@.len() != "msgpack"@.len());
            }
            assert(spec_encoding_of("protobuf"@) == Some(MessageEncoding::Protobuf));
        },
        MessageEncoding::Cbor => {
            assert("cbor"@ != "json"@) by {
                assert("cbor"@[0] != "json"@[0]);
            }
            assert("cbor"@ != "msgpack"@) by {
                assert("cbor"@.len() != "msgpack"@.len());
            }
            assert("cbor"@ != "protobuf"@) by {
                assert("cbor"@.len() != "protobuf"@.len());
            }
            assert(spec_encoding_of("cbor"@) == Some(MessageEncoding::Cbor));
        },
    }
}

/// An optional-integer position written by the encoder reads back as the
/// same optional integer.
proof fn lemma_opt_u64_round_trip(v: JsonValue, n: Option<u64>)
    requires
        is_opt_u64_of(v, n),
    ensures
        v is Null || spec_u64_of(v) is Some,
        n == (if v is Null {
            None::<u64>
        } else {
            spec_u64_of(v)
        }),
{
    match n {
        Some(x) => {
            lemma_u64_value_round_trip(v, x);
        },
        None => {},
    }
}

/// Encoded metadata is well formed on the wire and reads back field for
/// field.
pub proof fn lemma_metadata_round_trip(m: MessageMetadata, v: JsonValue)
    requires
        spec_metadata_encoded(m, v),
    ensures
        spec_metadata_wf(v),
        spec_metadata_matches(v, m),
{
    reveal_strlit("id");
    reveal_strlit("message_type");
    reveal_strlit("version");
    reveal_strlit("timestamp");
    reveal_strlit("priority");
    reveal_strlit("delivery_mode");
    reveal_strlit("encoding");
    reveal_strlit("source");
    reveal_strlit("destination");
    reveal_strlit("correlation_id");
    reveal_strlit("session_id");
    reveal_strlit("headers");
    reveal_strlit("tags");
    reveal_strlit("retry_count");
    reveal_strlit("max_retries");
    reveal_strlit("ttl");
    vstd::utf8::is_ascii_chars_encode_utf8("id"@);
    vstd::utf8::is_ascii_chars_encode_utf8("message_type"@);
    vstd::utf8::is_ascii_chars_encode_utf8("version"@);
    vstd::utf8::is_ascii_chars_encode_utf8("timestamp"@);
    vstd::utf8::is_ascii_chars_encode_utf8("priority"@);
    vstd::utf8::is_ascii_chars_encode_utf8("delivery_mode"@);
    vstd::utf8::is_ascii_chars_encode_utf8("encoding"@);
    vstd::utf8::is_ascii_chars_encode_utf8("source"@);
    vstd::utf8::is_ascii_chars_encode_utf8("destination"@);
    vstd::utf8::is_ascii_chars_encode_utf8("correlation_id"@);
    vstd::utf8::is_ascii_chars_encode_utf8("session_id"@);
    vstd::utf8::is_ascii_chars_encode_utf8("headers"@);
    vstd::utf8::is_ascii_chars_encode_utf8("tags"@);
    vstd::utf8::is_ascii_chars_encode_utf8("retry_count"@);
    vstd::utf8::is_ascii_chars_encode_utf8("max_retries"@);
    vstd::utf8::is_ascii_chars_encode_utf8("ttl"@);
    reveal_with_fuel(jv_fields_get, 18);
    let fs = v->Obj_0@;
    assert(jv_get(v, key_bytes("id"@)) == Some(fs[0].1));
    assert(jv_get(v, key_bytes("message_type"@)) == Some(fs[1].1));
    assert(jv_get(v, key_bytes("version"@)) == Some(fs[2].1));
    assert(jv_get(v, key_bytes("timestamp"@)) == Some(fs[3].1));
    assert(jv_get(v, key_bytes("priority"@)) == Some(fs[4].1));
    assert(jv_get(v, key_bytes("delivery_mode"@)) == Some(fs[5].1));
    assert(jv_get(v, key_bytes("encoding"@)) == Some(fs[6].1));
    assert(jv_get(v, key_bytes("source"@)) == Some(fs[7].1));
    assert(jv_get(v, key_bytes("destination"@)) == Some(fs[8].1));
    assert(jv_get(v, key_bytes("correlation_id"@)) == Some(fs[9].1));
    assert(jv_get(v, key_bytes("session_id"@)) == Some(fs[10].1));
    assert(jv_get(v, key_bytes("headers"@)) == Some(fs[11].1));
    assert(jv_get(v, key_bytes("tags"@)) == Some(fs[12].1));
    assert(jv_get(v, key_bytes("retry_count"@)) == Some(fs[13].1));
    assert(jv_get(v, key_bytes("max_retries"@)) == Some(fs[14].1));
    assert(jv_get(v, key_bytes("ttl"@)) == Some(fs[15].1));
    lemma_str_value_round_trip(fs[0].1, m.id@);
    lemma_str_value_round_trip(fs[1].1, m.message_type@);
    lemma_str_value_round_trip(fs[2].1, m.version@);
    lemma_u64_value_round_trip(fs[3].1, m.timestamp);
    lemma_str_value_round_trip(fs[4].1, spec_priority_name(m.priority));
    lemma_priority_name_round_trip(m.priority);
    lemma_str_value_round_trip(fs[5].1, spec_delivery_name(m.delivery_mode));
    lemma_delivery_name_round_trip(m.delivery_mode);
    lemma_str_value_round_trip(fs[6].1, spec_encoding_name(m.encoding));
    lemma_encoding_name_round_trip(m.encoding);
    lemma_opt_str_round_trip(fs[7].1, m.source);
    lemma_opt_str_round_trip(fs[8].1, m.destination);
    lemma_opt_str_round_trip(fs[9].1, m.correlation_id);
    lemma_opt_str_round_trip(fs[10].1, m.session_id);
    lemma_map_value_round_trip(fs[11].1, headers_view(m.headers@));
    lemma_list_value_round_trip(fs[12].1, strings_view(m.tags@));
    lemma_u64_value_round_trip(fs[13].1, m.retry_count as u64);
    lemma_u64_value_round_trip(fs[14].1, m.max_retries as u64);
    lemma_opt_u64_round_trip(fs[15].1, m.ttl);
}

/// An encoded HTTP response payload is well formed and reads back field
/// for field.
pub proof fn lemma_response_payload_round_trip(p: HttpPayload, v: JsonValue)
    requires
        spec_http_encoded(p, v),
        p is Response,
    ensures
        spec_http_wf(v),
        spec_http_matches(v, p),
{
    reveal_strlit("kind");
    reveal_strlit("Request");
    reveal_strlit("Response");
    reveal_strlit("status");
    reveal_strlit("status_text");
    reveal_strlit("headers");
    reveal_strlit("body");
    reveal_strlit("requestId");
    vstd::utf8::is_ascii_chars_encode_utf8("kind"@);
    vstd::utf8::is_ascii_chars_encode_utf8("status"@);
    vstd::utf8::is_ascii_chars_encode_utf8("status_text"@);
    vstd::utf8::is_ascii_chars_encode_utf8("headers"@);
    vstd::utf8::is_ascii_chars_encode_utf8("body"@);
    vstd::utf8::is_ascii_chars_encode_utf8("requestId"@);
    reveal_with_fuel(jv_fields_get, 8);
    let fs = v->Obj_0@;
    assert(jv_get(v, key_bytes("kind"@)) == Some(fs[0].1));
    assert(jv_get(v, key_bytes("status"@)) == Some(fs[1].1));
    assert(jv_get(v, key_bytes("status_text"@)) == Some(fs[2].1));
    assert(jv_get(v, key_bytes("headers"@)) == Some(fs[3].1));
    assert(jv_get(v, key_bytes("body"@)) == Some(fs[4].1));
    assert(jv_get(v, key_bytes("requestId"@)) == Some(fs[5].1));
    let status = p->Response_status;
    let status_text = p->Response_status_text;
    let headers = p->Response_headers;
    let body = p->Response_body;
    let request_id = p->Response_request_id;
    lemma_str_value_round_trip(fs[0].1, "Response"@);
    lemma_u64_value_round_trip(fs[1].1, status as u64);
    lemma_str_value_round_trip(fs[2].1, status_text@);
    lemma_map_value_round_trip(fs[3].1, headers_view(headers@));
    lemma_body_value_round_trip(fs[4].1, body);
    lemma_str_value_round_trip(fs[5].1, request_id@);
}

/// An encoded tagged payload carrying an HTTP response is well formed and
/// reads back as the same payload.
#[verifier::rlimit(60)]
#[verifier::spinoff_prover]
proof fn lemma_tagged_response_round_trip(p: MessagePayload, pv: JsonValue)
    requires
        spec_payload_encoded(p, pv),
        p matches MessagePayload::Http(h) && h is Response,
    ensures
        spec_payload_wf(pv),
        spec_payload_matches(pv, p),
{
    reveal_strlit("kind");
    reveal_strlit("data");
    reveal_strlit("Auth");
    reveal_strlit("HTTP");
    vstd::utf8::is_ascii_chars_encode_utf8("kind"@);
    vstd::utf8::is_ascii_chars_encode_utf8("data"@);
    reveal_with_fuel(jv_fields_get, 4);
    let ps = pv->Obj_0@;
    assert(jv_get(pv, key_bytes("kind"@)) == Some(ps[0].1));
    assert(jv_get(pv, key_bytes("data"@)) == Some(ps[1].1));
    let h = p->Http_0;
    lemma_str_value_round_trip(ps[0].1, "HTTP"@);
    assert(spec_req_str_wf(pv, "kind"@));
    assert(spec_req_str_val(pv, "kind"@) == "HTTP"@);
    assert("HTTP"@ != "Auth"@) by {
        assert("HTTP"@[0] != "Auth"@[0]);
    }
    lemma_response_payload_round_trip(h, ps[1].1);
}

/// Every HTTP response frame this client encodes is a well-formed wire
/// frame: a conforming decoder accepts it.
#[verifier::rlimit(100)]
#[verifier::spinoff_prover]
pub proof fn lemma_emitted_response_well_formed(m: TunnelMessage, v: JsonValue)
    requires
        spec_frame_encoded(m, v),
        m.message.payload matches MessagePayload::Http(h) && h is Response,
        m.envelope.protocol_version is Some,
    ensures
        spec_frame_wf(v),
{
    let fs = v->Obj_0@;
    let ms = fs[1].1->Obj_0@;
    lemma_frame_layout(m, v);
    lemma_envelope_round_trip(m.envelope, fs[0].1);
    lemma_metadata_round_trip(m.message.metadata, ms[0].1);
    lemma_tagged_response_round_trip(m.message.payload, ms[1].1);
}

/// A conforming decoder reads the same response back from an encoded
/// response frame: status, reason, headers, body and the end-to-end
/// request id all survive the wire.
#[verifier::rlimit(100)]
#[verifier::spinoff_prover]
pub proof fn lemma_emitted_response_round_trip(m: TunnelMessage, v: JsonValue)
    requires
        spec_frame_encoded(m, v),
        m.message.payload matches MessagePayload::Http(h) && h is Response,
        m.envelope.protocol_version is Some,
    ensures
        spec_frame_matches(v, m),
{
    let fs = v->Obj_0@;
    let ms = fs[1].1->Obj_0@;
    lemma_frame_layout(m, v);
    lemma_envelope_round_trip(m.envelope, fs[0].1);
    lemma_metadata_round_trip(m.message.metadata, ms[0].1);
    lemma_tagged_response_round_trip(m.message.payload, ms[1].1);
}

/// The top-level members of an encoded frame sit where the decoder looks
/// them up.
#[verifier::rlimit(60)]
#[verifier::spinoff_prover]
proof fn lemma_frame_layout(m: TunnelMessage, v: JsonValue)
    requires
        spec_frame_encoded(m, v),
    ensures
        ({
            let fs = v->Obj_0@;
            let ms = fs[1].1->Obj_0@;
            &&& jv_get(v, key_bytes("envelope"@)) == Some(fs[0].1)
            &&& jv_get(v, key_bytes("message"@)) == Some(fs[1].1)
            &&& jv_get(fs[1].1, key_bytes("metadata"@)) == Some(ms[0].1)
            &&& jv_get(fs[1].1, key_bytes("payload"@)) == Some(ms[1].1)
        }),
{
    reveal_strlit("envelope");
    reveal_strlit("message");
    reveal_strlit("metadata");
    reveal_strlit("payload");
    vstd::utf8::is_ascii_chars_encode_utf8("envelope"@);
    vstd::utf8::is_ascii_chars_encode_utf8("message"@);
    vstd::utf8::is_ascii_chars_encode_utf8("metadata"@);
    vstd::utf8::is_ascii_chars_encode_utf8("payload"@);
    reveal_with_fuel(jv_fields_get, 4);
}

} // verus!

//! The body encoding rule: a request or response body is conceptually a
//! byte sequence, but on the wire it may appear as a JSON string, an array
//! of byte integers, any other JSON value (whose serialized text becomes
//! the bytes), or null. The decoder accepts all four shapes; the encoder
//! emits null for an absent body and the byte-array shape otherwise, so
//! that decoding an encoded body always gives the bytes back unchanged.

use vstd::prelude::*;

use crate::json::{spec_json_bytes, json_to_bytes, JsonValue};

verus! {

/// Why a wire body failed to decode.
#[derive(Clone, Copy, Debug, PartialEq, Eq, Structural)]
pub enum BodyError {
    /// An array element was a number outside `0..=255`.
    InvalidByteValue,
    /// An array element was not a number.
    InvalidByteArrayFormat,
}

/// Whether every byte is an ASCII decimal digit.
pub open spec fn spec_all_digits(s: Seq<u8>) -> bool {
    forall|i: int| 0 <= i < s.len() ==> 0x30 <= #[trigger] s[i] && s[i] <= 0x39
}

/// The numeric value of a digit string, most significant digit first.
pub open spec fn spec_dec_val(s: Seq<u8>) -> int
    decreases s.len(),
{
    if s.len() == 0 {
        0
    } else {
        spec_dec_val(s.drop_last()) * 10 + (s.last() - 0x30)
    }
}

/// The byte a number literal stands for: defined when the literal is a
/// nonempty digit string whose value is at most 255.
pub open spec fn spec_parse_byte(lit: Seq<u8>) -> Option<u8> {
    if lit.len() > 0 && spec_all_digits(lit) && spec_dec_val(lit) <= 255 {
        Some(spec_dec_val(lit) as u8)
    } else {
        None
    }
}

/// Appending digits never shrinks the value of a digit string.
proof fn lemma_dec_val_prefix(s: Seq<u8>, i: int)
    requires
        0 <= i <= s.len(),
        spec_all_digits(s),
    ensures
        spec_dec_val(s.take(i)) <= spec_dec_val(s),
    decreases s.len(),
{
    if i < s.len() {
        let head = s.drop_last();
        assert(s.take(i) =~= head.take(i));
        assert(spec_all_digits(head));
        lemma_dec_val_prefix(head, i);
        lemma_dec_val_nonneg(head);
        assert(spec_dec_val(head) * 10 >= spec_dec_val(head)) by (nonlinear_arith)
            requires spec_dec_val(head) >= 0;
    } else {
        assert(s.take(i) =~= s);
    }
}

proof fn lemma_dec_val_nonneg(s: Seq<u8>)
    requires
        spec_all_digits(s),
    ensures
        spec_dec_val(s) >= 0,
    decreases s.len(),
{
    if s.len() > 0 {
        assert(spec_all_digits(s.drop_last()));
        lemma_dec_val_nonneg(s.drop_last());
        assert(spec_dec_val(s.drop_last()) * 10 >= 0) by (nonlinear_arith)
            requires spec_dec_val(s.drop_last()) >= 0;
    }
}

/// Reads a number literal as a byte.
fn parse_byte(lit: &Vec<u8>) -> (r: Option<u8>)
    ensures
        r == spec_parse_byte(lit@),
{
    if lit.len() == 0 {
        return None;
    }
    let mut val: u32 = 0;
    let mut i: usize = 0;
    proof {
        assert(lit@.take(0) =~= Seq::<u8>::empty());
    }
    while i < lit.len()
        invariant
            i <= lit.len(),
            spec_all_digits(lit@.take(i as int)),
            val == spec_dec_val(lit@.take(i as int)),
            val <= 255,
        decreases lit.len() - i,
    {
        let ghost pre = lit@.take(i as int);
        let ghost pre1 = lit@.take(i + 1);
        proof {
            assert(pre1.drop_last() =~= pre);
            assert(pre1.last() == lit@[i as int]);
        }
        let b = lit[i];
        if b < 0x30 || b > 0x39 {
            proof {
                assert(!spec_all_digits(lit@));
            }
            return None;
        }
        let d = (b - 0x30) as u32;
        let next = val * 10 + d;
        if next > 255 {
            proof {
                assert(spec_dec_val(pre1) == next);
                if spec_all_digits(lit@) {
                    lemma_dec_val_prefix(lit@, i + 1);
                }
            }
            return None;
        }
        val = next;
        i = i + 1;
    }
    proof {
        assert(lit@.take(lit@.len() as int) =~= lit@);
    }
    Some(val as u8)
}

/// The byte one array element stands for, or the error it raises.
pub open spec fn spec_item_byte(v: JsonValue) -> Result<u8, BodyError> {
    match v {
        JsonValue::Num(lit) => match spec_parse_byte(lit@) {
            Some(b) => Ok(b),
            None => Err(BodyError::InvalidByteValue),
        },
        _ => Err(BodyError::InvalidByteArrayFormat),
    }
}

/// The bytes a whole array decodes to, or its first error in order.
pub open spec fn spec_decode_byte_array(items: Seq<JsonValue>) -> Result<Seq<u8>, BodyError>
    decreases items.len(),
{
    if items.len() == 0 {
        Ok(Seq::empty())
    } else {
        match spec_item_byte(items[0]) {
            Ok(b) => match spec_decode_byte_array(items.drop_first()) {
                Ok(rest) => Ok(seq![b] + rest),
                Err(e) => Err(e),
            },
            Err(e) => Err(e),
        }
    }
}

/// The byte sequence a wire body stands for, under the body encoding rule:
/// null is an absent body, a string gives its content bytes, an array of
/// byte integers gives those bytes, and any other value gives the bytes of
/// its serialized textual form.
pub open spec fn spec_decode_body(v: JsonValue) -> Result<Option<Seq<u8>>, BodyError> {
    match v {
        JsonValue::Null => Ok(None),
        JsonValue::Str(s) => Ok(Some(s@)),
        JsonValue::Arr(items) => match spec_decode_byte_array(items@) {
            Ok(bytes) => Ok(Some(bytes)),
            Err(e) => Err(e),
        },
        _ => Ok(Some(spec_json_bytes(v))),
    }
}

/// Decodes a wire body to its byte sequence.
pub fn decode_body(v: &JsonValue) -> (r: Result<Option<Vec<u8>>, BodyError>)
    ensures
        ({
            match r {
                Ok(Some(bytes)) => spec_decode_body(*v) == Ok::<Option<Seq<u8>>, BodyError>(
                    Some(bytes@),
                ),
                Ok(None) => spec_decode_body(*v) == Ok::<Option<Seq<u8>>, BodyError>(None),
                Err(e) => spec_decode_body(*v) == Err::<Option<Seq<u8>>, BodyError>(e),
            }
        }),
{
    match v {
        JsonValue::Null => Ok(None),
        JsonValue::Str(s) => {
            let mut out: Vec<u8> = Vec::new();
            let mut i: usize = 0;
            while i < s.len()
                invariant
                    i <= s.len(),
                    out@ == s@.take(i as int),
                decreases s.len() - i,
            {
                out.push(s[i]);
                proof {
                    assert(out@ =~= s@.take(i + 1));
                }
                i = i + 1;
            }
            proof {
                assert(s@.take(s@.len() as int) =~= s@);
            }
            Ok(Some(out))
        },
        JsonValue::Arr(items) => {
            let mut out: Vec<u8> = Vec::new();
            let mut i: usize = 0;
            proof {
                assert(items@.skip(0) =~= items@);
            }
            while i < items.len()
                invariant
                    i <= items.len(),
                    *v == JsonValue::Arr(*items),
                    spec_decode_byte_array(items@) == match spec_decode_byte_array(
                        items@.skip(i as int),
                    ) {
                        Ok(rest) => Ok::<Seq<u8>, BodyError>(out@ + rest),
                        Err(e) => Err::<Seq<u8>, BodyError>(e),
                    },
                decreases items.len() - i,
            {
                let ghost rest = items@.skip(i as int);
                proof {
                    assert(rest.len() > 0);
                    assert(rest[0] == items@[i as int]);
                    assert(rest.drop_first() =~= items@.skip(i + 1));
                }
                let ghost old_out = out@;
                match &items[i] {
                    JsonValue::Num(lit) => {
                        match parse_byte(lit) {
                            Some(b) => {
                                out.push(b);
                                proof {
                                    assert(spec_item_byte(items@[i as int]) == Ok::<u8,
                                        BodyError>(b));
                                    if spec_decode_byte_array(items@.skip(i + 1)) is Ok {
                                        let tail = spec_decode_byte_array(
                                            items@.skip(i + 1),
                                        )->Ok_0;
                                        assert(old_out + (seq![b] + tail) =~= out@ + tail);
                                    }
                                }
                            },
                            None => {
                                return Err(BodyError::InvalidByteValue);
                            },
                        }
                    },
                    _ => {
                        return Err(BodyError::InvalidByteArrayFormat);
                    },
                }
                i = i + 1;
            }
            proof {
                assert(items@.skip(items@.len() as int) =~= Seq::<JsonValue>::empty());
                assert(out@ + Seq::<u8>::empty() =~= out@);
            }
            Ok(Some(out))
        },
        _ => Ok(Some(json_to_bytes(v))),
    }
}

/// The canonical decimal literal of a byte: no sign, no leading zeros.
pub open spec fn spec_byte_lit(b: u8) -> Seq<u8> {
    if b < 10 {
        seq![(0x30 + b) as u8]
    } else if b < 100 {
        seq![(0x30 + b / 10) as u8, (0x30 + b % 10) as u8]
    } else {
        seq![(0x30 + b / 100) as u8, (0x30 + (b / 10) % 10) as u8, (0x30 + b % 10) as u8]
    }
}

fn byte_lit(b: u8) -> (r: Vec<u8>)
    ensures
        r@ == spec_byte_lit(b),
{
    let mut out: Vec<u8> = Vec::new();
    if b < 10 {
        out.push(0x30 + b);
    } else if b < 100 {
        out.push(0x30 + b / 10);
        out.push(0x30 + b % 10);
    } else {
        out.push(0x30 + b / 100);
        out.push(0x30 + (b / 10) % 10);
        out.push(0x30 + b % 10);
    }
    proof {
        assert(out@ =~= spec_byte_lit(b));
    }
    out
}

/// What it means for a wire value to be this library's encoding of a body:
/// null for an absent body, else the array of the bytes' decimal literals.
pub open spec fn spec_body_encodes(b: Option<Seq<u8>>, v: JsonValue) -> bool {
    match b {
        None => v is Null,
        Some(bytes) => {
            &&& v is Arr
            &&& v->Arr_0@.len() == bytes.len()
            &&& forall|i: int| 0 <= i < bytes.len() ==> ((#[trigger] v->Arr_0@[i]) matches
                JsonValue::Num(lit) && lit@ == spec_byte_lit(bytes[i]))
        },
    }
}

/// Encodes a body for the wire.
pub fn encode_body(b: &Option<Vec<u8>>) -> (v: JsonValue)
    ensures
        spec_body_encodes(
            match b {
                Some(bytes) => Some(bytes@),
                None => None,
            },
            v,
        ),
{
    match b {
        None => JsonValue::Null,
        Some(bytes) => {
            let mut items: Vec<JsonValue> = Vec::new();
            let mut i: usize = 0;
            while i < bytes.len()
                invariant
                    i <= bytes.len(),
                    items@.len() == i,
                    forall|j: int| 0 <= j < i ==> ((#[trigger] items@[j]) matches
                        JsonValue::Num(lit) && lit@ == spec_byte_lit(bytes@[j])),
                decreases bytes.len() - i,
            {
                let lit = byte_lit(bytes[i]);
                items.push(JsonValue::Num(lit));
                i = i + 1;
            }
            JsonValue::Arr(items)
        },
    }
}

/// A canonical byte literal parses back to its byte.
proof fn lemma_byte_lit_parses(b: u8)
    ensures
        spec_parse_byte(spec_byte_lit(b)) == Some(b),
{
    let lit = spec_byte_lit(b);
    assert(spec_dec_val(Seq::<u8>::empty()) == 0);
    if b < 10 {
        assert(lit.drop_last() =~= Seq::<u8>::empty());
        assert(spec_dec_val(lit) == b);
    } else if b < 100 {
        let head = lit.drop_last();
        assert(head =~= seq![(0x30 + b / 10) as u8]);
        assert(head.drop_last() =~= Seq::<u8>::empty());
        assert(spec_dec_val(head) == b / 10);
        assert(spec_dec_val(lit) == (b / 10) * 10 + b % 10);
        assert((b / 10) * 10 + b % 10 == b) by (nonlinear_arith);
    } else {
        let head = lit.drop_last();
        let head2 = head.drop_last();
        assert(head =~= seq![(0x30 + b / 100) as u8, (0x30 + (b / 10) % 10) as u8]);
        assert(head2 =~= seq![(0x30 + b / 100) as u8]);
        assert(head2.drop_last() =~= Seq::<u8>::empty());
        assert(spec_dec_val(head2) == b / 100);
        assert(spec_dec_val(head) == (b / 100) * 10 + (b / 10) % 10);
        assert(spec_dec_val(lit) == ((b / 100) * 10 + (b / 10) % 10) * 10 + b % 10);
        assert(((b / 100) * 10 + (b / 10) % 10) * 10 + b % 10 == b) by (nonlinear_arith);
    }
}

/// Decoding an encoded body gives the original bytes back: the round-trip
/// law of the body encoding rule. It holds for every body, absent or
/// present, whatever its bytes.
pub proof fn lemma_body_round_trip(b: Option<Seq<u8>>, v: JsonValue)
    requires
        spec_body_encodes(b, v),
    ensures
        spec_decode_body(v) == Ok::<Option<Seq<u8>>, BodyError>(b),
{
    match b {
        None => {},
        Some(bytes) => {
            lemma_byte_array_round_trip(bytes, v->Arr_0@);
        },
    }
}

proof fn lemma_byte_array_round_trip(bytes: Seq<u8>, items: Seq<JsonValue>)
    requires
        items.len() == bytes.len(),
        forall|i: int| 0 <= i < bytes.len() ==> ((#[trigger] items[i]) matches
            JsonValue::Num(lit) && lit@ == spec_byte_lit(bytes[i])),
    ensures
        spec_decode_byte_array(items) == Ok::<Seq<u8>, BodyError>(bytes),
    decreases items.len(),
{
    if items.len() == 0 {
        assert(bytes =~= Seq::<u8>::empty());
    } else {
        lemma_byte_lit_parses(bytes[0]);
        assert(spec_item_byte(items[0]) == Ok::<u8, BodyError>(bytes[0]));
        let tail_items = items.drop_first();
        let tail_bytes = bytes.drop_first();
        assert(forall|i: int| 0 <= i < tail_bytes.len() ==> ((#[trigger] tail_items[i]) matches
            JsonValue::Num(lit) && lit@ == spec_byte_lit(tail_bytes[i])));
        lemma_byte_array_round_trip(tail_bytes, tail_items);
        assert(seq![bytes[0]] + tail_bytes =~= bytes);
    }
}

} // verus!

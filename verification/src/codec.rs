//! Argument marshalling for remote procedure calls.
//!
//! One call's argument tuple crosses the process boundary as an opaque blob
//! of bytes. A tuple is an ordered list of values — unit, boolean, or byte
//! sequence — and each remote procedure declares a schema: the list of
//! parameter types it expects. Encoding is self-delimiting; decoding is
//! driven by the schema and rejects any blob that does not match it with
//! `MarshalError`. Decoding a blob produced by the matching encoder always
//! succeeds and returns the original tuple (`lemma_decode_encode`).
//!
//! The wire shape of one value: unit is the single byte 0; a boolean is the
//! byte 1 followed by 0 or 1; a byte sequence is the byte 2 followed by its
//! length as 8 little-endian bytes and then its contents.

use vstd::prelude::*;
use vstd::bytes::{
    lemma_auto_spec_u64_to_from_le_bytes, spec_u64_from_le_bytes, spec_u64_to_le_bytes,
    u64_from_le_bytes, u64_to_le_bytes,
};
use vstd::slice::{slice_subrange, slice_to_vec};
use crate::errors::Error;

verus! {

/// The wire type of one parameter or result slot.
#[derive(Clone, Copy, Debug, PartialEq, Eq, Structural)]
pub enum ParamType {
    Unit,
    Bool,
    Bytes,
}

/// One argument value as it crosses the process boundary.
#[derive(Clone, Debug, PartialEq, Eq)]
pub enum Value {
    Unit,
    Bool(bool),
    Bytes(Vec<u8>),
}

/// The mathematical model of a `Value`.
pub enum SpecValue {
    Unit,
    Bool(bool),
    Bytes(Seq<u8>),
}

impl View for Value {
    type V = SpecValue;

    open spec fn view(&self) -> SpecValue {
        match self {
            Value::Unit => SpecValue::Unit,
            Value::Bool(b) => SpecValue::Bool(*b),
            Value::Bytes(bs) => SpecValue::Bytes(bs@),
        }
    }
}

/// The model of a list of values.
pub open spec fn seq_view(vs: Seq<Value>) -> Seq<SpecValue> {
    Seq::new(vs.len(), |i: int| vs[i]@)
}

/// The wire type a value occupies.
pub open spec fn spec_type_of(v: SpecValue) -> ParamType {
    match v {
        SpecValue::Unit => ParamType::Unit,
        SpecValue::Bool(_) => ParamType::Bool,
        SpecValue::Bytes(_) => ParamType::Bytes,
    }
}

/// The schema that a list of values matches.
pub open spec fn spec_schema_of(vs: Seq<SpecValue>) -> Seq<ParamType> {
    Seq::new(vs.len(), |i: int| spec_type_of(vs[i]))
}

/// A byte sequence value whose length the 8-byte wire length can carry.
/// Every value held in memory satisfies this.
pub open spec fn spec_value_fits(v: SpecValue) -> bool {
    match v {
        SpecValue::Bytes(bs) => bs.len() <= u64::MAX,
        _ => true,
    }
}

/// The wire bytes of one value.
pub open spec fn spec_encode_value(v: SpecValue) -> Seq<u8> {
    match v {
        SpecValue::Unit => seq![0u8],
        SpecValue::Bool(b) => seq![1u8, (if b { 1u8 } else { 0u8 })],
        SpecValue::Bytes(bs) => seq![2u8] + spec_u64_to_le_bytes(bs.len() as u64) + bs,
    }
}

/// The wire bytes of a whole argument tuple: the values in order.
pub open spec fn spec_encode_args(vs: Seq<SpecValue>) -> Seq<u8>
    decreases vs.len(),
{
    if vs.len() == 0 {
        Seq::empty()
    } else {
        spec_encode_value(vs[0]) + spec_encode_args(vs.skip(1))
    }
}

/// Decode one value of type `t` from the front of `bs`: the value and how
/// many bytes it occupied, or `None` on any mismatch.
pub open spec fn spec_decode_value(bs: Seq<u8>, t: ParamType) -> Option<(SpecValue, int)> {
    match t {
        ParamType::Unit => if bs.len() >= 1 && bs[0] == 0u8 {
            Some((SpecValue::Unit, 1int))
        } else {
            None
        },
        ParamType::Bool => if bs.len() >= 2 && bs[0] == 1u8 && (bs[1] == 0u8 || bs[1] == 1u8) {
            Some((SpecValue::Bool(bs[1] == 1u8), 2int))
        } else {
            None
        },
        ParamType::Bytes => if bs.len() >= 9 && bs[0] == 2u8 {
            let n = spec_u64_from_le_bytes(bs.subrange(1, 9)) as int;
            if bs.len() >= 9 + n {
                Some((SpecValue::Bytes(bs.subrange(9, 9 + n)), 9 + n))
            } else {
                None
            }
        } else {
            None
        },
    }
}

/// Decode a whole blob against a schema: one value per parameter type, in
/// order, with nothing left over; `None` on any mismatch.
pub open spec fn spec_decode_args(bs: Seq<u8>, schema: Seq<ParamType>) -> Option<Seq<SpecValue>>
    decreases schema.len(),
{
    if schema.len() == 0 {
        if bs.len() == 0 {
            Some(Seq::empty())
        } else {
            None
        }
    } else {
        match spec_decode_value(bs, schema[0]) {
            None => None,
            Some((v, n)) => match spec_decode_args(bs.skip(n), schema.skip(1)) {
                None => None,
                Some(rest) => Some(seq![v] + rest),
            },
        }
    }
}

/// Appending one value to a tuple appends its wire bytes.
proof fn lemma_encode_args_snoc(vs: Seq<SpecValue>, v: SpecValue)
    ensures
        spec_encode_args(vs.push(v)) == spec_encode_args(vs) + spec_encode_value(v),
    decreases vs.len(),
{
    if vs.len() == 0 {
        assert(vs.push(v)[0] == v);
        assert(vs.push(v).skip(1) =~= Seq::<SpecValue>::empty());
        assert(spec_encode_args(Seq::<SpecValue>::empty()) == Seq::<u8>::empty());
        assert(spec_encode_args(vs.push(v)) == spec_encode_value(v) + Seq::<u8>::empty());
        assert(spec_encode_args(vs.push(v)) =~= spec_encode_args(vs) + spec_encode_value(v));
    } else {
        assert(vs.push(v).skip(1) =~= vs.skip(1).push(v));
        assert(vs.push(v)[0] == vs[0]);
        lemma_encode_args_snoc(vs.skip(1), v);
        assert(spec_encode_args(vs.push(v)) == spec_encode_value(vs[0]) + (spec_encode_args(
            vs.skip(1),
        ) + spec_encode_value(v)));
        assert(spec_encode_args(vs.push(v)) =~= spec_encode_args(vs) + spec_encode_value(v));
    }
}

/// Decoding recovers one encoded value from the front of any longer blob.
proof fn lemma_decode_value_encode(v: SpecValue, rest: Seq<u8>)
    requires
        spec_value_fits(v),
    ensures
        spec_decode_value(spec_encode_value(v) + rest, spec_type_of(v)) == Some(
            (v, spec_encode_value(v).len() as int),
        ),
{
    let bs = spec_encode_value(v) + rest;
    match v {
        SpecValue::Unit => {
            assert(bs[0] == 0u8);
        },
        SpecValue::Bool(b) => {
            assert(bs[0] == 1u8);
            assert(bs[1] == (if b { 1u8 } else { 0u8 }));
        },
        SpecValue::Bytes(inner) => {
            lemma_auto_spec_u64_to_from_le_bytes();
            let lenbytes = spec_u64_to_le_bytes(inner.len() as u64);
            assert(bs[0] == 2u8);
            assert(bs.subrange(1, 9) =~= lenbytes);
            assert(spec_u64_from_le_bytes(bs.subrange(1, 9)) == inner.len() as u64);
            assert(bs.subrange(9, 9 + inner.len() as int) =~= inner);
        },
    }
}

/// The round-trip law: decoding an encoded tuple against its own schema
/// yields the tuple back, for every tuple of unit, boolean and byte-sequence
/// values.
pub proof fn lemma_decode_encode(vs: Seq<SpecValue>)
    requires
        forall|i: int| 0 <= i < vs.len() ==> spec_value_fits(#[trigger] vs[i]),
    ensures
        spec_decode_args(spec_encode_args(vs), spec_schema_of(vs)) == Some(vs),
    decreases vs.len(),
{
    let schema = spec_schema_of(vs);
    if vs.len() == 0 {
        assert(schema.len() == 0);
        assert(spec_encode_args(vs).len() == 0);
    } else {
        let v0 = vs[0];
        let tail = vs.skip(1);
        let enc0 = spec_encode_value(v0);
        let bs = spec_encode_args(vs);
        assert(schema[0] == spec_type_of(v0));
        lemma_decode_value_encode(v0, spec_encode_args(tail));
        assert(bs == enc0 + spec_encode_args(tail));
        assert(spec_decode_value(bs, schema[0]) == Some((v0, enc0.len() as int)));
        assert(bs.skip(enc0.len() as int) =~= spec_encode_args(tail));
        assert(schema.skip(1) =~= spec_schema_of(tail));
        assert(forall|i: int| 0 <= i < tail.len() ==> spec_value_fits(#[trigger] tail[i]));
        lemma_decode_encode(tail);
        assert(seq![v0] + tail =~= vs);
    }
}

/// Append the wire bytes of one value to `out`.
fn encode_value(v: &Value, out: &mut Vec<u8>)
    ensures
        final(out)@ == old(out)@ + spec_encode_value(v@),
{
    match v {
        Value::Unit => {
            out.push(0u8);
            assert(out@ =~= old(out)@ + spec_encode_value(v@));
        },
        Value::Bool(b) => {
            out.push(1u8);
            out.push(if *b {
                1u8
            } else {
                0u8
            });
            assert(out@ =~= old(out)@ + spec_encode_value(v@));
        },
        Value::Bytes(bs) => {
            out.push(2u8);
            let lenbytes = u64_to_le_bytes(bs.len() as u64);
            let mut i: usize = 0;
            while i < lenbytes.len()
                invariant
                    i <= lenbytes@.len(),
                    out@ == old(out)@ + seq![2u8] + lenbytes@.take(i as int),
                decreases lenbytes@.len() - i,
            {
                out.push(lenbytes[i]);
                assert(out@ =~= old(out)@ + seq![2u8] + lenbytes@.take(i + 1));
                i = i + 1;
            }
            assert(lenbytes@.take(lenbytes@.len() as int) =~= lenbytes@);
            let mut j: usize = 0;
            while j < bs.len()
                invariant
                    j <= bs@.len(),
                    out@ == old(out)@ + seq![2u8] + lenbytes@ + bs@.take(j as int),
                decreases bs@.len() - j,
            {
                out.push(bs[j]);
                assert(out@ =~= old(out)@ + seq![2u8] + lenbytes@ + bs@.take(j + 1));
                j = j + 1;
            }
            assert(bs@.take(bs@.len() as int) =~= bs@);
            assert(out@ =~= old(out)@ + spec_encode_value(v@));
        },
    }
}

/// Encode an argument tuple into one blob.
pub fn encode_args(args: &Vec<Value>) -> (r: Vec<u8>)
    ensures
        r@ == spec_encode_args(seq_view(args@)),
{
    let mut out: Vec<u8> = Vec::new();
    let mut k: usize = 0;
    while k < args.len()
        invariant
            k <= args@.len(),
            out@ == spec_encode_args(seq_view(args@).take(k as int)),
        decreases args@.len() - k,
    {
        encode_value(&args[k], &mut out);
        proof {
            lemma_encode_args_snoc(seq_view(args@).take(k as int), args@[k as int]@);
            assert(seq_view(args@).take(k + 1) =~= seq_view(args@).take(k as int).push(
                args@[k as int]@,
            ));
        }
        k = k + 1;
    }
    proof {
        assert(seq_view(args@).take(args@.len() as int) =~= seq_view(args@));
    }
    out
}

/// Decode a blob against a schema. Returns the argument tuple when the blob
/// is exactly one value per declared parameter type with nothing left over,
/// and `MarshalError` otherwise.
pub fn decode_args(blob: &Vec<u8>, schema: &Vec<ParamType>) -> (r: Result<Vec<Value>, Error>)
    ensures
        match r {
            Ok(vs) => spec_decode_args(blob@, schema@) == Some(seq_view(vs@)),
            Err(e) => e == Error::MarshalError && spec_decode_args(blob@, schema@) is None,
        },
{
    let ghost whole = spec_decode_args(blob@, schema@);
    let mut pos: usize = 0;
    let mut out: Vec<Value> = Vec::new();
    let mut k: usize = 0;
    proof {
        assert(blob@.skip(0) =~= blob@);
        assert(schema@.skip(0) =~= schema@);
        match spec_decode_args(blob@, schema@) {
            None => {},
            Some(rest) => {
                assert(seq_view(out@) + rest =~= rest);
            },
        }
    }
    while k < schema.len()
        invariant
            k <= schema@.len(),
            pos <= blob@.len(),
            out@.len() == k,
            whole == spec_decode_args(blob@, schema@),
            (match spec_decode_args(blob@.skip(pos as int), schema@.skip(k as int)) {
                None => whole is None,
                Some(rest) => whole == Some(seq_view(out@) + rest),
            }),
        decreases schema@.len() - k,
    {
        let ghost tail_blob = blob@.skip(pos as int);
        let ghost tail_schema = schema@.skip(k as int);
        let ghost out_old = out@;
        let t = schema[k];
        proof {
            assert(tail_schema[0] == t);
        }
        match t {
            ParamType::Unit => {
                if pos < blob.len() && blob[pos] == 0u8 {
                    proof {
                        assert(tail_blob[0] == 0u8);
                        assert(spec_decode_value(tail_blob, t) == Some((SpecValue::Unit, 1int)));
                    }
                    out.push(Value::Unit);
                    proof {
                        assert(seq_view(out@) =~= seq_view(out_old) + seq![SpecValue::Unit]);
                        lemma_step(
                            whole,
                            blob@,
                            schema@,
                            out_old,
                            out@,
                            pos as int,
                            k as int,
                            SpecValue::Unit,
                            1,
                        );
                    }
                    pos = pos + 1;
                    k = k + 1;
                } else {
                    proof {
                        assert(spec_decode_value(tail_blob, t) is None);
                    }
                    return Err(Error::MarshalError);
                }
            },
            ParamType::Bool => {
                if pos < blob.len() && pos + 1 < blob.len() && blob[pos] == 1u8 && (blob[pos + 1]
                    == 0u8 || blob[pos + 1] == 1u8) {
                    let b = blob[pos + 1] == 1u8;
                    proof {
                        assert(tail_blob.len() >= 2);
                        assert(tail_blob[0] == 1u8);
                        assert(tail_blob[1] == blob@[pos + 1]);
                        assert(spec_decode_value(tail_blob, t) == Some((SpecValue::Bool(b), 2int)));
                    }
                    out.push(Value::Bool(b));
                    proof {
                        assert(seq_view(out@) =~= seq_view(out_old) + seq![SpecValue::Bool(b)]);
                        lemma_step(
                            whole,
                            blob@,
                            schema@,
                            out_old,
                            out@,
                            pos as int,
                            k as int,
                            SpecValue::Bool(b),
                            2,
                        );
                    }
                    pos = pos + 2;
                    k = k + 1;
                } else {
                    proof {
                        assert(spec_decode_value(tail_blob, t) is None);
                    }
                    return Err(Error::MarshalError);
                }
            },
            ParamType::Bytes => {
                if blob.len() >= 9 && pos <= blob.len() - 9 && blob[pos] == 2u8 {
                    let lenslice = slice_subrange(blob.as_slice(), pos + 1, pos + 9);
                    proof {
                        assert(lenslice@ =~= tail_blob.subrange(1, 9));
                    }
                    let n64 = u64_from_le_bytes(lenslice);
                    let avail: usize = blob.len() - pos - 9;
                    if n64 <= avail as u64 {
                        let n: usize = n64 as usize;
                        let body = slice_to_vec(
                            slice_subrange(blob.as_slice(), pos + 9, pos + 9 + n),
                        );
                        let ghost pushed = body@;
                        proof {
                            assert(pushed =~= tail_blob.subrange(9, 9 + n as int));
                            assert(spec_decode_value(tail_blob, t) == Some(
                                (SpecValue::Bytes(pushed), 9 + n as int),
                            ));
                        }
                        out.push(Value::Bytes(body));
                        proof {
                            assert(seq_view(out@) =~= seq_view(out_old) + seq![
                                SpecValue::Bytes(pushed),
                            ]);
                            lemma_step(
                                whole,
                                blob@,
                                schema@,
                                out_old,
                                out@,
                                pos as int,
                                k as int,
                                SpecValue::Bytes(pushed),
                                9 + n as int,
                            );
                        }
                        pos = pos + 9 + n;
                        k = k + 1;
                    } else {
                        proof {
                            assert(spec_decode_value(tail_blob, t) is None);
                        }
                        return Err(Error::MarshalError);
                    }
                } else {
                    proof {
                        assert(spec_decode_value(tail_blob, t) is None);
                    }
                    return Err(Error::MarshalError);
                }
            },
        }
    }
    if pos == blob.len() {
        proof {
            assert(blob@.skip(pos as int).len() == 0);
            assert(schema@.skip(k as int).len() == 0);
            assert(seq_view(out@) + Seq::<SpecValue>::empty() =~= seq_view(out@));
        }
        Ok(out)
    } else {
        proof {
            assert(blob@.skip(pos as int).len() > 0);
            assert(schema@.skip(k as int).len() == 0);
        }
        Err(Error::MarshalError)
    }
}

/// One decoding step keeps the loop's relation between the values decoded so
/// far and the whole blob's decoding: consuming one value of the schema moves
/// the frontier forward by the bytes that value occupied.
proof fn lemma_step(
    whole: Option<Seq<SpecValue>>,
    blob: Seq<u8>,
    schema: Seq<ParamType>,
    out_old: Seq<Value>,
    out_new: Seq<Value>,
    pos: int,
    k: int,
    v: SpecValue,
    n: int,
)
    requires
        0 <= pos,
        0 <= k < schema.len(),
        n >= 0,
        pos + n <= blob.len(),
        spec_decode_value(blob.skip(pos), schema[k]) == Some((v, n)),
        seq_view(out_new) == seq_view(out_old) + seq![v],
        (match spec_decode_args(blob.skip(pos), schema.skip(k)) {
            None => whole is None,
            Some(rest) => whole == Some(seq_view(out_old) + rest),
        }),
    ensures
        (match spec_decode_args(blob.skip(pos + n), schema.skip(k + 1)) {
            None => whole is None,
            Some(rest) => whole == Some(seq_view(out_new) + rest),
        }),
{
    assert(schema.skip(k)[0] == schema[k]);
    assert(blob.skip(pos).skip(n) =~= blob.skip(pos + n));
    assert(schema.skip(k).skip(1) =~= schema.skip(k + 1));
    match spec_decode_args(blob.skip(pos + n), schema.skip(k + 1)) {
        None => {
            assert(spec_decode_args(blob.skip(pos), schema.skip(k)) is None);
        },
        Some(rest) => {
            assert(spec_decode_args(blob.skip(pos), schema.skip(k)) == Some(seq![v] + rest));
            assert(seq_view(out_old) + (seq![v] + rest) =~= seq_view(out_new) + rest);
        },
    }
}

} // verus!

//! The two owning conversions. Transfer-Out consumes a logical value and
//! yields the envelope holding its raw representation; Transfer-In consumes
//! an envelope and reconstructs a fully owned logical value, checking that
//! the carried shape is the one the statically expected type demands.

use vstd::prelude::*;
use crate::value::Value;
use crate::value::ValueV;
use crate::value::value_view;
use crate::types::TypeDesc;
use crate::types::TypeDescV;
use crate::types::conforms;
use crate::types::uint_max;
use crate::types::uint_max_exec;
use crate::types::int_min;
use crate::types::int_min_exec;
use crate::types::int_max;
use crate::types::int_max_exec;
use crate::envelope::Envelope;
use crate::envelope::EnvelopeV;
use crate::envelope::RawInline;
use crate::envelope::RawInlineV;
use crate::envelope::RawVec;

verus! {

broadcast use vstd::std_specs::vec::group_vec_axioms, vstd::seq::axiom_seq_index_decreases;

/// Shape mismatch reported by Transfer-In when the envelope's active member
/// is not the raw shape the expected logical type maps to.
#[derive(Clone, Copy, PartialEq, Eq, Structural, Debug)]
pub enum TransferError {
    ShapeMismatch,
}

/// What Transfer-Out yields for value `v`: scalars are copied inline; an
/// owned text or byte buffer becomes a byte-buffer triple, its bytes moved,
/// not copied; a sequence becomes a typed-buffer triple whose elements have
/// each been transferred out eagerly; an aggregate becomes an inline raw
/// aggregate, its fields transferred out independently in declared order.
pub open spec fn transfer_out_spec(v: ValueV) -> EnvelopeV
    decreases v,
{
    match v {
        ValueV::Bool(b) => EnvelopeV::Inline(RawInlineV::Bool(b)),
        ValueV::Char(c) => EnvelopeV::Inline(RawInlineV::Char(c)),
        ValueV::UInt(u) => EnvelopeV::Inline(RawInlineV::UInt(u)),
        ValueV::Int(i) => EnvelopeV::Inline(RawInlineV::Int(i)),
        ValueV::Text(bs) => EnvelopeV::Bytes(bs),
        ValueV::Bytes(bs) => EnvelopeV::Bytes(bs),
        ValueV::List(xs) => EnvelopeV::Typed(out_elems(xs)),
        ValueV::Record(fs) => EnvelopeV::Inline(RawInlineV::Record(out_elems(fs))),
    }
}

/// Transfer-Out of every element of a buffer, eagerly and in order.
pub open spec fn out_elems(xs: Seq<ValueV>) -> Seq<EnvelopeV>
    decreases xs,
{
    if xs.len() == 0 {
        Seq::empty()
    } else {
        seq![transfer_out_spec(xs[0])] + out_elems(xs.drop_first())
    }
}

/// What Transfer-In yields when an envelope `e` is read at type `t`:
/// `Some` of the reconstructed value when the active member is the raw
/// shape `t` maps to (recursively, for every element and field), `None` on
/// any shape mismatch.
pub open spec fn transfer_in_spec(t: TypeDescV, e: EnvelopeV) -> Option<ValueV>
    decreases e,
{
    match t {
        TypeDescV::Bool => match e {
            EnvelopeV::Inline(RawInlineV::Bool(b)) => Some(ValueV::Bool(b)),
            _ => None,
        },
        TypeDescV::Char => match e {
            EnvelopeV::Inline(RawInlineV::Char(c)) => Some(ValueV::Char(c)),
            _ => None,
        },
        TypeDescV::UInt(w) => match e {
            EnvelopeV::Inline(RawInlineV::UInt(u)) => if u <= uint_max(w) {
                Some(ValueV::UInt(u))
            } else {
                None
            },
            _ => None,
        },
        TypeDescV::Int(w) => match e {
            EnvelopeV::Inline(RawInlineV::Int(i)) => if int_min(w) <= i <= int_max(w) {
                Some(ValueV::Int(i))
            } else {
                None
            },
            _ => None,
        },
        TypeDescV::Text => match e {
            EnvelopeV::Bytes(bs) => Some(ValueV::Text(bs)),
            _ => None,
        },
        TypeDescV::Bytes => match e {
            EnvelopeV::Bytes(bs) => Some(ValueV::Bytes(bs)),
            _ => None,
        },
        TypeDescV::List(et) => match e {
            EnvelopeV::Typed(es) => match decode_elems(*et, es) {
                Some(kids) => Some(ValueV::List(kids)),
                None => None,
            },
            _ => None,
        },
        TypeDescV::Record(ts) => match e {
            EnvelopeV::Inline(RawInlineV::Record(fs)) => match decode_fields(ts, fs) {
                Some(kids) => Some(ValueV::Record(kids)),
                None => None,
            },
            _ => None,
        },
    }
}

/// Transfer-In of every element of a transferred typed buffer, in order;
/// one mismatching element makes the whole buffer fail.
pub open spec fn decode_elems(et: TypeDescV, es: Seq<EnvelopeV>) -> Option<Seq<ValueV>>
    decreases es,
{
    if es.len() == 0 {
        Some(Seq::empty())
    } else {
        match transfer_in_spec(et, es[0]) {
            Some(v) => match decode_elems(et, es.drop_first()) {
                Some(rest) => Some(seq![v] + rest),
                None => None,
            },
            None => None,
        }
    }
}

/// Transfer-In of every field of a raw aggregate, each at its own declared
/// type, in declared field order; a field-count or field-shape mismatch
/// makes the whole aggregate fail.
pub open spec fn decode_fields(ts: Seq<TypeDescV>, fs: Seq<EnvelopeV>) -> Option<Seq<ValueV>>
    decreases fs,
{
    if fs.len() != ts.len() {
        None
    } else if fs.len() == 0 {
        Some(Seq::empty())
    } else {
        match transfer_in_spec(ts[0], fs[0]) {
            Some(v) => match decode_fields(ts.drop_first(), fs.drop_first()) {
                Some(rest) => Some(seq![v] + rest),
                None => None,
            },
            None => None,
        }
    }
}

/// Transferring a buffer out converts exactly its elements, in order.
pub proof fn lemma_out_elems(xs: Seq<ValueV>)
    ensures
        out_elems(xs).len() == xs.len(),
        forall|i: int| 0 <= i < xs.len() ==> out_elems(xs)[i] == transfer_out_spec(#[trigger] xs[i]),
    decreases xs,
{
    if xs.len() > 0 {
        lemma_out_elems(xs.drop_first());
        assert forall|i: int| 0 <= i < xs.len() implies out_elems(xs)[i] == transfer_out_spec(
            #[trigger] xs[i],
        ) by {
            if i > 0 {
                assert(out_elems(xs)[i] == out_elems(xs.drop_first())[i - 1]);
                assert(xs.drop_first()[i - 1] == xs[i]);
            }
        }
    }
}

/// When every element of a typed buffer reads back as the matching value,
/// the buffer as a whole reads back as exactly that sequence of values.
pub proof fn lemma_decode_elems_some(et: TypeDescV, es: Seq<EnvelopeV>, vs: Seq<ValueV>)
    requires
        vs.len() == es.len(),
        forall|i: int| 0 <= i < es.len() ==> transfer_in_spec(et, #[trigger] es[i]) == Some(vs[i]),
    ensures
        decode_elems(et, es) == Some(vs),
    decreases es,
{
    if es.len() > 0 {
        lemma_decode_elems_some(et, es.drop_first(), vs.drop_first());
        assert(seq![vs[0]] + vs.drop_first() =~= vs);
    }
}

/// One mismatching element makes the whole typed buffer fail to read back.
pub proof fn lemma_decode_elems_none(et: TypeDescV, es: Seq<EnvelopeV>, j: int)
    requires
        0 <= j < es.len(),
        transfer_in_spec(et, es[j]) is None,
    ensures
        decode_elems(et, es) is None,
    decreases es,
{
    if j > 0 {
        lemma_decode_elems_none(et, es.drop_first(), j - 1);
    }
}

/// When every field of a raw aggregate reads back at its own type, the
/// aggregate reads back as exactly that sequence of field values.
pub proof fn lemma_decode_fields_some(ts: Seq<TypeDescV>, fs: Seq<EnvelopeV>, vs: Seq<ValueV>)
    requires
        ts.len() == fs.len(),
        vs.len() == fs.len(),
        forall|i: int|
            0 <= i < fs.len() ==> transfer_in_spec(ts[i], #[trigger] fs[i]) == Some(vs[i]),
    ensures
        decode_fields(ts, fs) == Some(vs),
    decreases fs,
{
    if fs.len() > 0 {
        lemma_decode_fields_some(ts.drop_first(), fs.drop_first(), vs.drop_first());
        assert(seq![vs[0]] + vs.drop_first() =~= vs);
    }
}

/// One mismatching field makes the whole raw aggregate fail to read back.
pub proof fn lemma_decode_fields_none(ts: Seq<TypeDescV>, fs: Seq<EnvelopeV>, j: int)
    requires
        ts.len() == fs.len(),
        0 <= j < fs.len(),
        transfer_in_spec(ts[j], fs[j]) is None,
    ensures
        decode_fields(ts, fs) is None,
    decreases fs,
{
    if j > 0 {
        lemma_decode_fields_none(ts.drop_first(), fs.drop_first(), j - 1);
    }
}

/// Transfer-Out: consume `v`, yielding the envelope that carries its raw
/// representation. The caller loses all further access; every buffer `v`
/// owned now travels by its owning-buffer descriptor, no payload copied.
pub fn transfer_out(v: Value) -> (e: Envelope)
    ensures
        e@ == transfer_out_spec(value_view(v)),
    decreases v,
{
    match v {
        Value::Bool(b) => Envelope::Inline(RawInline::Bool(b)),
        Value::Char(c) => Envelope::Inline(RawInline::Char(c)),
        Value::UInt(u) => Envelope::Inline(RawInline::UInt(u)),
        Value::Int(i) => Envelope::Inline(RawInline::Int(i)),
        Value::Text(bs) => Envelope::Bytes(RawVec::capture(bs)),
        Value::Bytes(bs) => Envelope::Bytes(RawVec::capture(bs)),
        Value::List(xs) => {
            let ghost xs0 = xs@;
            let es = transfer_out_elems(xs);
            let e = Envelope::Typed(RawVec::capture(es));
            proof {
                let elems = value_view(v)->List_0;
                lemma_out_elems(elems);
                assert forall|i: int| 0 <= i < es@.len() implies #[trigger] e@->Typed_0[i]
                    == out_elems(elems)[i] by {
                    assert(e@->Typed_0[i] == es@[i]@);
                    assert(elems[i] == value_view(xs0[i]));
                }
                assert(e@->Typed_0 =~= out_elems(elems));
            }
            e
        }
        Value::Record(fs) => {
            let ghost fs0 = fs@;
            let es = transfer_out_elems(fs);
            let e = Envelope::Inline(RawInline::Record(es));
            proof {
                let elems = value_view(v)->Record_0;
                lemma_out_elems(elems);
                assert forall|i: int| 0 <= i < es@.len() implies #[trigger] e@->Inline_0->Record_0[i]
                    == out_elems(elems)[i] by {
                    assert(e@->Inline_0->Record_0[i] == es@[i]@);
                    assert(elems[i] == value_view(fs0[i]));
                }
                assert(e@->Inline_0->Record_0 =~= out_elems(elems));
            }
            e
        }
    }
}

/// Transfer-Out of every element of a buffer, eagerly and in order; the
/// results are collected into a fresh buffer while the per-element buffers,
/// if any, are reused unchanged.
#[verifier::loop_isolation(false)]
fn transfer_out_elems(mut xs: Vec<Value>) -> (es: Vec<Envelope>)
    ensures
        es@.len() == xs@.len(),
        forall|i: int|
            0 <= i < xs@.len() ==> #[trigger] es@[i]@ == transfer_out_spec(value_view(xs@[i])),
    decreases xs@,
{
    let ghost xs0 = xs@;
    let mut es: Vec<Envelope> = Vec::new();
    while xs.len() > 0
        invariant
            es@.len() + xs@.len() == xs0.len(),
            xs@ == xs0.subrange(es@.len() as int, xs0.len() as int),
            forall|i: int|
                0 <= i < es@.len() ==> #[trigger] es@[i]@ == transfer_out_spec(
                    value_view(xs0[i]),
                ),
        decreases xs@.len(),
    {
        let x = xs.remove(0);
        proof {
            assert(x == xs0[es@.len() as int]);
        }
        let e = transfer_out(x);
        es.push(e);
        proof {
            assert(xs@ =~= xs0.subrange(es@.len() as int, xs0.len() as int));
        }
    }
    es
}

/// Transfer-In: consume the envelope `raw`, reconstructing the logical
/// value of type `ty` it carries, with ordinary ownership restored. The
/// active member must be the raw shape `ty` maps to; any mismatch, at any
/// nesting depth, is reported as an error instead of a value being read on
/// trust.
pub fn transfer_in(ty: &TypeDesc, raw: Envelope) -> (r: Result<Value, TransferError>)
    ensures
        match r {
            Ok(v) => transfer_in_spec(ty@, raw@) == Some(value_view(v)),
            Err(_) => transfer_in_spec(ty@, raw@) is None,
        },
    decreases raw,
{
    match ty {
        TypeDesc::Bool => match raw {
            Envelope::Inline(RawInline::Bool(b)) => Ok(Value::Bool(b)),
            _ => Err(TransferError::ShapeMismatch),
        },
        TypeDesc::Char => match raw {
            Envelope::Inline(RawInline::Char(c)) => Ok(Value::Char(c)),
            _ => Err(TransferError::ShapeMismatch),
        },
        TypeDesc::UInt(w) => match raw {
            Envelope::Inline(RawInline::UInt(u)) => if u <= uint_max_exec(*w) {
                Ok(Value::UInt(u))
            } else {
                Err(TransferError::ShapeMismatch)
            },
            _ => Err(TransferError::ShapeMismatch),
        },
        TypeDesc::Int(w) => match raw {
            Envelope::Inline(RawInline::Int(i)) => if int_min_exec(*w) <= i && i <= int_max_exec(*w) {
                Ok(Value::Int(i))
            } else {
                Err(TransferError::ShapeMismatch)
            },
            _ => Err(TransferError::ShapeMismatch),
        },
        TypeDesc::Text => match raw {
            Envelope::Bytes(rv) => Ok(Value::Text(rv.release())),
            _ => Err(TransferError::ShapeMismatch),
        },
        TypeDesc::Bytes => match raw {
            Envelope::Bytes(rv) => Ok(Value::Bytes(rv.release())),
            _ => Err(TransferError::ShapeMismatch),
        },
        TypeDesc::List(et) => match raw {
            Envelope::Typed(rv) => {
                let ghost raw0 = raw;
                let es = rv.release();
                proof {
                    assert(raw0->Typed_0 == rv);
                    assert(decreases_to!(raw0 => raw0->Typed_0));
                    assert(decreases_to!(raw0->Typed_0 => raw0->Typed_0.items));
                    assert(decreases_to!(raw0->Typed_0.items => raw0->Typed_0.items@));
                    assert(es@ == raw0->Typed_0.items@);
                }
                let ghost es0 = es@;
                match transfer_in_list_elems(et, es) {
                    Ok(vs) => {
                        let out = Value::List(vs);
                        proof {
                            let s_es = raw0@->Typed_0;
                            assert(s_es.len() == es0.len());
                            let w = value_view(out)->List_0;
                            assert(w.len() == vs@.len());
                            assert forall|i: int| 0 <= i < s_es.len() implies transfer_in_spec(
                                et@,
                                #[trigger] s_es[i],
                            ) == Some(w[i]) by {
                                assert(s_es[i] == es0[i]@);
                                assert(transfer_in_spec(et@, es0[i]@) == Some(value_view(vs@[i])));
                                assert(w[i] == value_view(vs@[i]));
                            }
                            lemma_decode_elems_some(et@, s_es, w);
                            assert(*ty@->List_0 == et@);
                        }
                        Ok(out)
                    }
                    Err(err) => {
                        proof {
                            let s_es = raw0@->Typed_0;
                            let j = choose|j: int|
                                0 <= j < es0.len() && transfer_in_spec(et@, #[trigger] es0[j]@)
                                    is None;
                            assert(s_es[j] == es0[j]@);
                            lemma_decode_elems_none(et@, s_es, j);
                            assert(*ty@->List_0 == et@);
                        }
                        Err(err)
                    }
                }
            },
            _ => Err(TransferError::ShapeMismatch),
        },
        TypeDesc::Record(ts) => match raw {
            Envelope::Inline(RawInline::Record(fes)) => {
                let ghost raw0 = raw;
                if fes.len() != ts.len() {
                    return Err(TransferError::ShapeMismatch);
                }
                proof {
                    assert(decreases_to!(raw0 => raw0->Inline_0));
                    assert(decreases_to!(raw0->Inline_0 => raw0->Inline_0->Record_0));
                    assert(fes@ == raw0->Inline_0->Record_0@);
                }
                let ghost fes0 = fes@;
                match transfer_in_record_fields(ts, fes) {
                    Ok(vs) => {
                        let out = Value::Record(vs);
                        proof {
                            let s_fs = raw0@->Inline_0->Record_0;
                            let s_ts = ty@->Record_0;
                            assert(s_fs.len() == fes0.len());
                            assert(s_ts.len() == ts@.len());
                            let w = value_view(out)->Record_0;
                            assert(w.len() == vs@.len());
                            assert forall|i: int| 0 <= i < s_fs.len() implies transfer_in_spec(
                                s_ts[i],
                                #[trigger] s_fs[i],
                            ) == Some(w[i]) by {
                                assert(s_fs[i] == fes0[i]@);
                                assert(s_ts[i] == ts@[i]@);
                                assert(transfer_in_spec(ts@[i]@, fes0[i]@)
                                    == Some(value_view(vs@[i])));
                                assert(w[i] == value_view(vs@[i]));
                            }
                            lemma_decode_fields_some(s_ts, s_fs, w);
                        }
                        Ok(out)
                    }
                    Err(err) => {
                        proof {
                            let s_fs = raw0@->Inline_0->Record_0;
                            let s_ts = ty@->Record_0;
                            let j = choose|j: int|
                                0 <= j < fes0.len() && transfer_in_spec(
                                    ts@[j]@,
                                    #[trigger] fes0[j]@,
                                ) is None;
                            assert(s_fs[j] == fes0[j]@);
                            assert(s_ts[j] == ts@[j]@);
                            lemma_decode_fields_none(s_ts, s_fs, j);
                        }
                        Err(err)
                    }
                }
            },
            _ => Err(TransferError::ShapeMismatch),
        },
    }
}

/// Transfer-In of every element of a transferred typed buffer, in order,
/// into a freshly allocated owned sequence; the transient raw-element
/// buffer is consumed, not reused as the final storage.
#[verifier::loop_isolation(false)]
fn transfer_in_list_elems(et: &TypeDesc, mut es: Vec<Envelope>) -> (r: Result<
    Vec<Value>,
    TransferError,
>)
    ensures
        match r {
            Ok(vs) => vs@.len() == es@.len() && forall|i: int|
                0 <= i < es@.len() ==> transfer_in_spec(et@, #[trigger] es@[i]@) == Some(
                    value_view(vs@[i]),
                ),
            Err(_) => exists|i: int|
                0 <= i < es@.len() && transfer_in_spec(et@, #[trigger] es@[i]@) is None,
        },
    decreases es@,
{
    let ghost es0 = es@;
    let mut vs: Vec<Value> = Vec::new();
    while es.len() > 0
        invariant
            vs@.len() + es@.len() == es0.len(),
            es@ == es0.subrange(vs@.len() as int, es0.len() as int),
            forall|i: int|
                0 <= i < vs@.len() ==> transfer_in_spec(et@, #[trigger] es0[i]@) == Some(
                    value_view(vs@[i]),
                ),
        decreases es@.len(),
    {
        let ghost k = vs@.len() as int;
        let e = es.remove(0);
        proof {
            assert(e == es0[k]);
        }
        match transfer_in(et, e) {
            Ok(v) => {
                vs.push(v);
            }
            Err(err) => {
                return Err(err);
            }
        }
        proof {
            assert(es@ =~= es0.subrange(vs@.len() as int, es0.len() as int));
        }
    }
    Ok(vs)
}

/// Transfer-In of every field of a raw aggregate, each at its own declared
/// type, reassembled in declared field order.
#[verifier::loop_isolation(false)]
fn transfer_in_record_fields(ts: &Vec<TypeDesc>, mut fes: Vec<Envelope>) -> (r: Result<
    Vec<Value>,
    TransferError,
>)
    requires
        ts@.len() == fes@.len(),
    ensures
        match r {
            Ok(vs) => vs@.len() == fes@.len() && forall|i: int|
                0 <= i < fes@.len() ==> transfer_in_spec(ts@[i]@, #[trigger] fes@[i]@) == Some(
                    value_view(vs@[i]),
                ),
            Err(_) => exists|i: int|
                0 <= i < fes@.len() && transfer_in_spec(ts@[i]@, #[trigger] fes@[i]@) is None,
        },
    decreases fes@,
{
    let ghost fes0 = fes@;
    let mut vs: Vec<Value> = Vec::new();
    while fes.len() > 0
        invariant
            vs@.len() + fes@.len() == fes0.len(),
            fes@ == fes0.subrange(vs@.len() as int, fes0.len() as int),
            forall|i: int|
                0 <= i < vs@.len() ==> transfer_in_spec(ts@[i]@, #[trigger] fes0[i]@) == Some(
                    value_view(vs@[i]),
                ),
        decreases fes@.len(),
    {
        let k = vs.len();
        let e = fes.remove(0);
        proof {
            assert(e == fes0[k as int]);
        }
        match transfer_in(&ts[k], e) {
            Ok(v) => {
                vs.push(v);
            }
            Err(err) => {
                return Err(err);
            }
        }
        proof {
            assert(fes@ =~= fes0.subrange(vs@.len() as int, fes0.len() as int));
        }
    }
    Ok(vs)
}

/// Round-trip: for every representable value, reading the transferred
/// envelope back at the value's own type yields exactly that value.
pub proof fn lemma_round_trip(t: TypeDescV, v: ValueV)
    requires
        conforms(t, v),
    ensures
        transfer_in_spec(t, transfer_out_spec(v)) == Some(v),
    decreases v,
{
    match v {
        ValueV::List(xs) => {
            let et = *t->List_0;
            let es = out_elems(xs);
            lemma_out_elems(xs);
            assert forall|i: int| 0 <= i < es.len() implies transfer_in_spec(
                et,
                #[trigger] es[i],
            ) == Some(xs[i]) by {
                assert(conforms(et, xs[i]));
                lemma_round_trip(et, xs[i]);
                assert(es[i] == transfer_out_spec(xs[i]));
            }
            lemma_decode_elems_some(et, es, xs);
        }
        ValueV::Record(fs) => {
            let ts = t->Record_0;
            let es = out_elems(fs);
            lemma_out_elems(fs);
            assert forall|i: int| 0 <= i < es.len() implies transfer_in_spec(
                ts[i],
                #[trigger] es[i],
            ) == Some(fs[i]) by {
                assert(conforms(ts[i], fs[i]));
                lemma_round_trip(ts[i], fs[i]);
                assert(es[i] == transfer_out_spec(fs[i]));
            }
            lemma_decode_fields_some(ts, es, fs);
        }
        _ => {}
    }
}

/// Field-order fidelity: mutate only the `n`th field of an aggregate that
/// arrived by Transfer-In, transfer it back, and every other field reads
/// back exactly as it stood before the round trip, in its place.
pub proof fn lemma_field_update_fidelity(ts: Seq<TypeDescV>, fs: Seq<ValueV>, n: int, u: ValueV)
    requires
        conforms(TypeDescV::Record(ts), ValueV::Record(fs)),
        0 <= n < fs.len(),
        conforms(ts[n], u),
    ensures
        ({
            let mutated = ValueV::Record(fs.update(n, u));
            let back = transfer_in_spec(TypeDescV::Record(ts), transfer_out_spec(mutated));
            &&& back == Some(mutated)
            &&& back->Some_0->Record_0.len() == fs.len()
            &&& back->Some_0->Record_0[n] == u
            &&& forall|i: int|
                0 <= i < fs.len() && i != n ==> #[trigger] back->Some_0->Record_0[i] == fs[i]
        }),
{
    let mutated = ValueV::Record(fs.update(n, u));
    assert forall|i: int| 0 <= i < fs.update(n, u).len() implies conforms(
        ts[i],
        #[trigger] fs.update(n, u)[i],
    ) by {
        if i != n {
            assert(fs.update(n, u)[i] == fs[i]);
            assert(conforms(ts[i], fs[i]));
        } else {
            assert(fs.update(n, u)[n] == u);
        }
    }
    assert(conforms(TypeDescV::Record(ts), mutated));
    lemma_round_trip(TypeDescV::Record(ts), mutated);
}

/// Nested containers: a sequence of sequences survives the round trip with
/// its outer length, every inner length, and every inner element intact.
pub proof fn lemma_nested_containers(et: TypeDescV, xss: Seq<ValueV>)
    requires
        conforms(TypeDescV::List(Box::new(TypeDescV::List(Box::new(et)))), ValueV::List(xss)),
    ensures
        ({
            let outer = TypeDescV::List(Box::new(TypeDescV::List(Box::new(et))));
            let back = transfer_in_spec(outer, transfer_out_spec(ValueV::List(xss)));
            &&& back == Some(ValueV::List(xss))
            &&& back->Some_0->List_0.len() == xss.len()
            &&& forall|i: int| 0 <= i < xss.len() ==> #[trigger] back->Some_0->List_0[i] == xss[i]
        }),
{
    lemma_round_trip(
        TypeDescV::List(Box::new(TypeDescV::List(Box::new(et)))),
        ValueV::List(xss),
    );
}

} // verus!

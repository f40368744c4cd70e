//! Logical values: the domain of things that can be handed across the
//! boundary. A value owns its buffers in the ordinary way; Transfer-Out
//! consumes it, Transfer-In rebuilds it.

use vstd::prelude::*;

verus! {

broadcast use vstd::std_specs::vec::group_vec_axioms, vstd::seq::axiom_seq_index_decreases;

/// A representable logical value: a scalar, an owned text or byte buffer,
/// a growable sequence of nested values, or a plain named-field aggregate
/// (its fields in declared order).
#[derive(Debug, PartialEq, Eq)]
pub enum Value {
    /// Boolean scalar.
    Bool(bool),
    /// Character scalar.
    Char(char),
    /// Unsigned integer scalar, any machine width.
    UInt(u128),
    /// Signed integer scalar, any machine width.
    Int(i128),
    /// Owned text buffer, carried as raw bytes; no encoding is validated.
    Text(Vec<u8>),
    /// Owned byte buffer.
    Bytes(Vec<u8>),
    /// Growable sequence of nested values.
    List(Vec<Value>),
    /// Plain named-field aggregate: one nested value per field, in
    /// declared field order.
    Record(Vec<Value>),
}

/// The mathematical model of a [`Value`]: buffers become sequences.
#[verifier::ext_equal]
pub enum ValueV {
    Bool(bool),
    Char(char),
    UInt(u128),
    Int(i128),
    Text(Seq<u8>),
    Bytes(Seq<u8>),
    List(Seq<ValueV>),
    Record(Seq<ValueV>),
}

/// The model of one value.
pub open spec fn value_view(v: Value) -> ValueV
    decreases v,
{
    match v {
        Value::Bool(b) => ValueV::Bool(b),
        Value::Char(c) => ValueV::Char(c),
        Value::UInt(u) => ValueV::UInt(u),
        Value::Int(i) => ValueV::Int(i),
        Value::Text(bs) => ValueV::Text(bs@),
        Value::Bytes(bs) => ValueV::Bytes(bs@),
        Value::List(xs) => ValueV::List(
            Seq::new(
                xs@.len(),
                |i: int| if 0 <= i < xs@.len() { value_view(xs@[i]) } else { ValueV::Bool(false) },
            ),
        ),
        Value::Record(fs) => ValueV::Record(
            Seq::new(
                fs@.len(),
                |i: int| if 0 <= i < fs@.len() { value_view(fs@[i]) } else { ValueV::Bool(false) },
            ),
        ),
    }
}

impl View for Value {
    type V = ValueV;

    open spec fn view(&self) -> ValueV {
        value_view(*self)
    }
}

} // verus!

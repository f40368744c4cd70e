//! The boundary-crossing carrier. A logical value in transit is held as a
//! raw representation: destructor-free, layout-stable, owning its buffers
//! only through owning-buffer descriptors.
//!
//! An untagged union whose active member both sides deduce from the
//! statically known logical type would leave a divergent reading undefined
//! behavior. This carrier instead closes the three raw shapes into one
//! tagged choice and lets Transfer-In check the tag against the expected
//! shape, so a divergence is a reported mismatch; the intended data flow
//! is unchanged.

use vstd::prelude::*;

verus! {

broadcast use vstd::std_specs::vec::group_vec_axioms, vstd::seq::axiom_seq_index_decreases;

/// Owning-buffer descriptor: stands for the `(pointer, length, capacity)`
/// triple of one contiguous heap allocation whose ownership has been
/// transferred. Holding the buffer itself keeps the accounting exact — the
/// allocation travels without its payload being copied, its length and
/// capacity unchanged, and exactly one side may later release it.
#[derive(Debug, PartialEq, Eq)]
pub struct RawVec<T> {
    /// The transferred allocation.
    pub items: Vec<T>,
}

impl<T> RawVec<T> {
    /// Transfer-Out side: record the buffer's triple, suppressing the
    /// source's own destructor so the allocation is not freed twice.
    pub fn capture(items: Vec<T>) -> (r: RawVec<T>)
        ensures
            r@ == items@,
    {
        RawVec { items }
    }

    /// Transfer-In side: rebuild an ordinarily owned buffer from the triple,
    /// pointer, length and capacity unchanged.
    pub fn release(self) -> (r: Vec<T>)
        ensures
            r@ == self@,
    {
        self.items
    }
}

impl<T> View for RawVec<T> {
    type V = Seq<T>;

    open spec fn view(&self) -> Seq<T> {
        self.items@
    }
}

/// An inline raw shape: a scalar copied into the carrier, or a generated
/// raw aggregate, which owns no allocation of its own — each field is
/// itself a raw representation.
#[derive(Debug, PartialEq, Eq)]
pub enum RawInline {
    Bool(bool),
    Char(char),
    UInt(u128),
    Int(i128),
    /// Generated raw aggregate: one raw representation per field, in
    /// declared field order.
    Record(Vec<Envelope>),
}

/// The carrier that crosses the boundary: exactly one of the three raw
/// shapes — an inline value, a byte-buffer triple, or a typed-buffer triple
/// of nested raw representations.
#[derive(Debug, PartialEq, Eq)]
pub enum Envelope {
    Inline(RawInline),
    Bytes(RawVec<u8>),
    Typed(RawVec<Envelope>),
}

/// The mathematical model of a [`RawInline`].
#[verifier::ext_equal]
pub enum RawInlineV {
    Bool(bool),
    Char(char),
    UInt(u128),
    Int(i128),
    Record(Seq<EnvelopeV>),
}

/// The mathematical model of an [`Envelope`].
#[verifier::ext_equal]
pub enum EnvelopeV {
    Inline(RawInlineV),
    Bytes(Seq<u8>),
    Typed(Seq<EnvelopeV>),
}

/// The model of one envelope.
pub open spec fn envelope_view(e: Envelope) -> EnvelopeV
    decreases e,
{
    match e {
        Envelope::Inline(inline) => EnvelopeV::Inline(
            match inline {
                RawInline::Bool(b) => RawInlineV::Bool(b),
                RawInline::Char(c) => RawInlineV::Char(c),
                RawInline::UInt(u) => RawInlineV::UInt(u),
                RawInline::Int(i) => RawInlineV::Int(i),
                RawInline::Record(fs) => RawInlineV::Record(
                    Seq::new(
                        fs@.len(),
                        |i: int|
                            if 0 <= i < fs@.len() {
                                envelope_view(fs@[i])
                            } else {
                                EnvelopeV::Bytes(Seq::empty())
                            },
                    ),
                ),
            },
        ),
        Envelope::Bytes(rv) => EnvelopeV::Bytes(rv.items@),
        Envelope::Typed(rv) => EnvelopeV::Typed(
            Seq::new(
                rv.items@.len(),
                |i: int|
                    if 0 <= i < rv.items@.len() {
                        envelope_view(rv.items@[i])
                    } else {
                        EnvelopeV::Bytes(Seq::empty())
                    },
            ),
        ),
    }
}

impl View for Envelope {
    type V = EnvelopeV;

    open spec fn view(&self) -> EnvelopeV {
        envelope_view(*self)
    }
}

} // verus!

//! The conversion traits: the per-type face of the transfer engine, as a
//! statically typed caller uses it. `RawRepr` ties a type to its
//! mathematical model; `IntoRaw` is Transfer-Out, `FromRaw` is Transfer-In
//! at the type both sides statically agree on.

use vstd::prelude::*;
use crate::value::Value;
use crate::value::ValueV;
use crate::value::value_view;
use crate::types::TypeDescV;
use crate::types::IntWidth;
use crate::types::conforms;
use crate::envelope::Envelope;
use crate::envelope::RawInline;
use crate::envelope::RawVec;
use crate::transfer::TransferError;
use crate::transfer::transfer_out_spec;
use crate::transfer::transfer_in_spec;
use crate::transfer::transfer_out;
use crate::transfer::out_elems;
use crate::transfer::lemma_out_elems;
use crate::transfer::lemma_decode_elems_some;
use crate::transfer::lemma_decode_elems_none;

verus! {

broadcast use vstd::std_specs::vec::group_vec_axioms, vstd::seq::axiom_seq_index_decreases;

/// Ties a transferable type to the mathematical value a datum of it stands
/// for; the contracts of both conversions speak of this model.
pub trait RawRepr {
    /// The model of this datum.
    spec fn model(&self) -> ValueV;
}

/// Transfer-Out for a statically known type: consume the value, yielding
/// the envelope that carries its raw representation.
pub trait IntoRaw: RawRepr + Sized {
    /// Consume `self`; the caller loses all further access.
    fn into_raw(self) -> (e: Envelope)
        ensures
            e@ == transfer_out_spec(self.model()),
    ;
}

/// Transfer-In for a statically known type: consume an envelope, rebuilding
/// a fully owned value of the type both sides agreed on.
pub trait FromRaw: RawRepr + Sized {
    /// The type descriptor this type maps to under the layout mapping.
    spec fn desc() -> TypeDescV;

    /// Every model of this type inhabits its descriptor.
    proof fn model_conforms(&self)
        ensures
            conforms(Self::desc(), self.model()),
    ;

    /// Consume `raw`; succeeds exactly when the envelope's active member is
    /// the raw shape this type maps to.
    fn from_raw(raw: Envelope) -> (r: Result<Self, TransferError>)
        ensures
            match r {
                Ok(v) => transfer_in_spec(Self::desc(), raw@) == Some(v.model()),
                Err(_) => transfer_in_spec(Self::desc(), raw@) is None,
            },
    ;
}

impl RawRepr for Value {
    open spec fn model(&self) -> ValueV {
        value_view(*self)
    }
}

impl IntoRaw for Value {
    fn into_raw(self) -> (e: Envelope) {
        transfer_out(self)
    }
}

impl RawRepr for bool {
    open spec fn model(&self) -> ValueV {
        ValueV::Bool(*self)
    }
}

impl IntoRaw for bool {
    fn into_raw(self) -> (e: Envelope) {
        Envelope::Inline(RawInline::Bool(self))
    }
}

impl FromRaw for bool {
    open spec fn desc() -> TypeDescV {
        TypeDescV::Bool
    }

    proof fn model_conforms(&self) {
    }

    fn from_raw(raw: Envelope) -> (r: Result<Self, TransferError>) {
        match raw {
            Envelope::Inline(RawInline::Bool(b)) => Ok(b),
            _ => Err(TransferError::ShapeMismatch),
        }
    }
}

impl RawRepr for char {
    open spec fn model(&self) -> ValueV {
        ValueV::Char(*self)
    }
}

impl IntoRaw for char {
    fn into_raw(self) -> (e: Envelope) {
        Envelope::Inline(RawInline::Char(self))
    }
}

impl FromRaw for char {
    open spec fn desc() -> TypeDescV {
        TypeDescV::Char
    }

    proof fn model_conforms(&self) {
    }

    fn from_raw(raw: Envelope) -> (r: Result<Self, TransferError>) {
        match raw {
            Envelope::Inline(RawInline::Char(c)) => Ok(c),
            _ => Err(TransferError::ShapeMismatch),
        }
    }
}

impl RawRepr for u8 {
    open spec fn model(&self) -> ValueV {
        ValueV::UInt(*self as u128)
    }
}

impl IntoRaw for u8 {
    fn into_raw(self) -> (e: Envelope) {
        Envelope::Inline(RawInline::UInt(self as u128))
    }
}

impl FromRaw for u8 {
    open spec fn desc() -> TypeDescV {
        TypeDescV::UInt(IntWidth::W8)
    }

    proof fn model_conforms(&self) {
    }

    fn from_raw(raw: Envelope) -> (r: Result<Self, TransferError>) {
        match raw {
            Envelope::Inline(RawInline::UInt(u)) => if u <= u8::MAX as u128 {
                Ok(u as u8)
            } else {
                Err(TransferError::ShapeMismatch)
            },
            _ => Err(TransferError::ShapeMismatch),
        }
    }
}

impl RawRepr for u16 {
    open spec fn model(&self) -> ValueV {
        ValueV::UInt(*self as u128)
    }
}

impl IntoRaw for u16 {
    fn into_raw(self) -> (e: Envelope) {
        Envelope::Inline(RawInline::UInt(self as u128))
    }
}

impl FromRaw for u16 {
    open spec fn desc() -> TypeDescV {
        TypeDescV::UInt(IntWidth::W16)
    }

    proof fn model_conforms(&self) {
    }

    fn from_raw(raw: Envelope) -> (r: Result<Self, TransferError>) {
        match raw {
            Envelope::Inline(RawInline::UInt(u)) => if u <= u16::MAX as u128 {
                Ok(u as u16)
            } else {
                Err(TransferError::ShapeMismatch)
            },
            _ => Err(TransferError::ShapeMismatch),
        }
    }
}

impl RawRepr for u32 {
    open spec fn model(&self) -> ValueV {
        ValueV::UInt(*self as u128)
    }
}

impl IntoRaw for u32 {
    fn into_raw(self) -> (e: Envelope) {
        Envelope::Inline(RawInline::UInt(self as u128))
    }
}

impl FromRaw for u32 {
    open spec fn desc() -> TypeDescV {
        TypeDescV::UInt(IntWidth::W32)
    }

    proof fn model_conforms(&self) {
    }

    fn from_raw(raw: Envelope) -> (r: Result<Self, TransferError>) {
        match raw {
            Envelope::Inline(RawInline::UInt(u)) => if u <= u32::MAX as u128 {
                Ok(u as u32)
            } else {
                Err(TransferError::ShapeMismatch)
            },
            _ => Err(TransferError::ShapeMismatch),
        }
    }
}

impl RawRepr for u64 {
    open spec fn model(&self) -> ValueV {
        ValueV::UInt(*self as u128)
    }
}

impl IntoRaw for u64 {
    fn into_raw(self) -> (e: Envelope) {
        Envelope::Inline(RawInline::UInt(self as u128))
    }
}

impl FromRaw for u64 {
    open spec fn desc() -> TypeDescV {
        TypeDescV::UInt(IntWidth::W64)
    }

    proof fn model_conforms(&self) {
    }

    fn from_raw(raw: Envelope) -> (r: Result<Self, TransferError>) {
        match raw {
            Envelope::Inline(RawInline::UInt(u)) => if u <= u64::MAX as u128 {
                Ok(u as u64)
            } else {
                Err(TransferError::ShapeMismatch)
            },
            _ => Err(TransferError::ShapeMismatch),
        }
    }
}

impl RawRepr for u128 {
    open spec fn model(&self) -> ValueV {
        ValueV::UInt(*self as u128)
    }
}

impl IntoRaw for u128 {
    fn into_raw(self) -> (e: Envelope) {
        Envelope::Inline(RawInline::UInt(self as u128))
    }
}

impl FromRaw for u128 {
    open spec fn desc() -> TypeDescV {
        TypeDescV::UInt(IntWidth::W128)
    }

    proof fn model_conforms(&self) {
    }

    fn from_raw(raw: Envelope) -> (r: Result<Self, TransferError>) {
        match raw {
            Envelope::Inline(RawInline::UInt(u)) => if u <= u128::MAX as u128 {
                Ok(u as u128)
            } else {
                Err(TransferError::ShapeMismatch)
            },
            _ => Err(TransferError::ShapeMismatch),
        }
    }
}

impl RawRepr for usize {
    open spec fn model(&self) -> ValueV {
        ValueV::UInt(*self as u128)
    }
}

impl IntoRaw for usize {
    fn into_raw(self) -> (e: Envelope) {
        Envelope::Inline(RawInline::UInt(self as u128))
    }
}

impl FromRaw for usize {
    open spec fn desc() -> TypeDescV {
        TypeDescV::UInt(IntWidth::WSize)
    }

    proof fn model_conforms(&self) {
    }

    fn from_raw(raw: Envelope) -> (r: Result<Self, TransferError>) {
        match raw {
            Envelope::Inline(RawInline::UInt(u)) => if u <= usize::MAX as u128 {
                Ok(u as usize)
            } else {
                Err(TransferError::ShapeMismatch)
            },
            _ => Err(TransferError::ShapeMismatch),
        }
    }
}

impl RawRepr for i8 {
    open spec fn model(&self) -> ValueV {
        ValueV::Int(*self as i128)
    }
}

impl IntoRaw for i8 {
    fn into_raw(self) -> (e: Envelope) {
        Envelope::Inline(RawInline::Int(self as i128))
    }
}

impl FromRaw for i8 {
    open spec fn desc() -> TypeDescV {
        TypeDescV::Int(IntWidth::W8)
    }

    proof fn model_conforms(&self) {
    }

    fn from_raw(raw: Envelope) -> (r: Result<Self, TransferError>) {
        match raw {
            Envelope::Inline(RawInline::Int(i)) => if i8::MIN as i128 <= i && i <= i8::MAX as i128 {
                Ok(i as i8)
            } else {
                Err(TransferError::ShapeMismatch)
            },
            _ => Err(TransferError::ShapeMismatch),
        }
    }
}

impl RawRepr for i16 {
    open spec fn model(&self) -> ValueV {
        ValueV::Int(*self as i128)
    }
}

impl IntoRaw for i16 {
    fn into_raw(self) -> (e: Envelope) {
        Envelope::Inline(RawInline::Int(self as i128))
    }
}

impl FromRaw for i16 {
    open spec fn desc() -> TypeDescV {
        TypeDescV::Int(IntWidth::W16)
    }

    proof fn model_conforms(&self) {
    }

    fn from_raw(raw: Envelope) -> (r: Result<Self, TransferError>) {
        match raw {
            Envelope::Inline(RawInline::Int(i)) => if i16::MIN as i128 <= i && i <= i16::MAX as i128 {
                Ok(i as i16)
            } else {
                Err(TransferError::ShapeMismatch)
            },
            _ => Err(TransferError::ShapeMismatch),
        }
    }
}

impl RawRepr for i32 {
    open spec fn model(&self) -> ValueV {
        ValueV::Int(*self as i128)
    }
}

impl IntoRaw for i32 {
    fn into_raw(self) -> (e: Envelope) {
        Envelope::Inline(RawInline::Int(self as i128))
    }
}

impl FromRaw for i32 {
    open spec fn desc() -> TypeDescV {
        TypeDescV::Int(IntWidth::W32)
    }

    proof fn model_conforms(&self) {
    }

    fn from_raw(raw: Envelope) -> (r: Result<Self, TransferError>) {
        match raw {
            Envelope::Inline(RawInline::Int(i)) => if i32::MIN as i128 <= i && i <= i32::MAX as i128 {
                Ok(i as i32)
            } else {
                Err(TransferError::ShapeMismatch)
            },
            _ => Err(TransferError::ShapeMismatch),
        }
    }
}

impl RawRepr for i64 {
    open spec fn model(&self) -> ValueV {
        ValueV::Int(*self as i128)
    }
}

impl IntoRaw for i64 {
    fn into_raw(self) -> (e: Envelope) {
        Envelope::Inline(RawInline::Int(self as i128))
    }
}

impl FromRaw for i64 {
    open spec fn desc() -> TypeDescV {
        TypeDescV::Int(IntWidth::W64)
    }

    proof fn model_conforms(&self) {
    }

    fn from_raw(raw: Envelope) -> (r: Result<Self, TransferError>) {
        match raw {
            Envelope::Inline(RawInline::Int(i)) => if i64::MIN as i128 <= i && i <= i64::MAX as i128 {
                Ok(i as i64)
            } else {
                Err(TransferError::ShapeMismatch)
            },
            _ => Err(TransferError::ShapeMismatch),
        }
    }
}

impl RawRepr for i128 {
    open spec fn model(&self) -> ValueV {
        ValueV::Int(*self as i128)
    }
}

impl IntoRaw for i128 {
    fn into_raw(self) -> (e: Envelope) {
        Envelope::Inline(RawInline::Int(self as i128))
    }
}

impl FromRaw for i128 {
    open spec fn desc() -> TypeDescV {
        TypeDescV::Int(IntWidth::W128)
    }

    proof fn model_conforms(&self) {
    }

    fn from_raw(raw: Envelope) -> (r: Result<Self, TransferError>) {
        match raw {
            Envelope::Inline(RawInline::Int(i)) => if i128::MIN as i128 <= i && i <= i128::MAX as i128 {
                Ok(i as i128)
            } else {
                Err(TransferError::ShapeMismatch)
            },
            _ => Err(TransferError::ShapeMismatch),
        }
    }
}

impl RawRepr for isize {
    open spec fn model(&self) -> ValueV {
        ValueV::Int(*self as i128)
    }
}

impl IntoRaw for isize {
    fn into_raw(self) -> (e: Envelope) {
        Envelope::Inline(RawInline::Int(self as i128))
    }
}

impl FromRaw for isize {
    open spec fn desc() -> TypeDescV {
        TypeDescV::Int(IntWidth::WSize)
    }

    proof fn model_conforms(&self) {
    }

    fn from_raw(raw: Envelope) -> (r: Result<Self, TransferError>) {
        match raw {
            Envelope::Inline(RawInline::Int(i)) => if isize::MIN as i128 <= i && i <= isize::MAX as i128 {
                Ok(i as isize)
            } else {
                Err(TransferError::ShapeMismatch)
            },
            _ => Err(TransferError::ShapeMismatch),
        }
    }
}

impl<T: RawRepr> RawRepr for Vec<T> {
    open spec fn model(&self) -> ValueV {
        ValueV::List(
            Seq::new(
                self@.len(),
                |i: int|
                    if 0 <= i < self@.len() {
                        self@[i].model()
                    } else {
                        ValueV::Bool(false)
                    },
            ),
        )
    }
}

impl<T: IntoRaw> IntoRaw for Vec<T> {
    #[verifier::loop_isolation(false)]
    fn into_raw(self) -> (e: Envelope) {
        let ghost m = self.model();
        let mut xs = self;
        let ghost xs0 = xs@;
        let mut es: Vec<Envelope> = Vec::new();
        while xs.len() > 0
            invariant
                es@.len() + xs@.len() == xs0.len(),
                xs@ == xs0.subrange(es@.len() as int, xs0.len() as int),
                forall|i: int|
                    0 <= i < es@.len() ==> #[trigger] es@[i]@ == transfer_out_spec(
                        xs0[i].model(),
                    ),
            decreases xs@.len(),
        {
            let x = xs.remove(0);
            proof {
                assert(x == xs0[es@.len() as int]);
            }
            let e = x.into_raw();
            es.push(e);
            proof {
                assert(xs@ =~= xs0.subrange(es@.len() as int, xs0.len() as int));
            }
        }
        let e = Envelope::Typed(RawVec::capture(es));
        proof {
            let w = m->List_0;
            lemma_out_elems(w);
            assert forall|i: int| 0 <= i < es@.len() implies #[trigger] e@->Typed_0[i]
                == out_elems(w)[i] by {
                assert(e@->Typed_0[i] == es@[i]@);
                assert(w[i] == xs0[i].model());
            }
            assert(e@->Typed_0 =~= out_elems(w));
        }
        e
    }
}

impl<T: FromRaw> FromRaw for Vec<T> {
    open spec fn desc() -> TypeDescV {
        TypeDescV::List(Box::new(T::desc()))
    }

    proof fn model_conforms(&self) {
        let w = self.model()->List_0;
        assert forall|i: int| 0 <= i < w.len() implies conforms(T::desc(), #[trigger] w[i]) by {
            self@[i].model_conforms();
            assert(w[i] == self@[i].model());
        }
    }

    #[verifier::loop_isolation(false)]
    fn from_raw(raw: Envelope) -> (r: Result<Self, TransferError>) {
        match raw {
            Envelope::Typed(rv) => {
                let ghost raw0 = raw;
                let mut es = rv.release();
                let ghost es0 = es@;
                proof {
                    assert(raw0@->Typed_0.len() == es0.len());
                }
                let mut vs: Vec<T> = Vec::new();
                while es.len() > 0
                    invariant
                        vs@.len() + es@.len() == es0.len(),
                        es@ == es0.subrange(vs@.len() as int, es0.len() as int),
                        forall|i: int|
                            0 <= i < vs@.len() ==> transfer_in_spec(
                                T::desc(),
                                #[trigger] es0[i]@,
                            ) == Some(vs@[i].model()),
                    decreases es@.len(),
                {
                    let ghost k = vs@.len() as int;
                    let e = es.remove(0);
                    proof {
                        assert(e == es0[k]);
                    }
                    match T::from_raw(e) {
                        Ok(v) => {
                            vs.push(v);
                        }
                        Err(err) => {
                            proof {
                                let s_es = raw0@->Typed_0;
                                assert(s_es[k] == es0[k]@);
                                lemma_decode_elems_none(T::desc(), s_es, k);
                            }
                            return Err(err);
                        }
                    }
                    proof {
                        assert(es@ =~= es0.subrange(vs@.len() as int, es0.len() as int));
                    }
                }
                proof {
                    let s_es = raw0@->Typed_0;
                    let w = vs.model()->List_0;
                    assert forall|i: int| 0 <= i < s_es.len() implies transfer_in_spec(
                        T::desc(),
                        #[trigger] s_es[i],
                    ) == Some(w[i]) by {
                        assert(s_es[i] == es0[i]@);
                        assert(w[i] == vs@[i].model());
                    }
                    lemma_decode_elems_some(T::desc(), s_es, w);
                }
                Ok(vs)
            }
            _ => Err(TransferError::ShapeMismatch),
        }
    }
}

/// Round-trip at a statically known type: transfer any value of the type
/// out and read the envelope back at the type's own descriptor, and
/// exactly the value's model comes back.
pub proof fn lemma_typed_round_trip<T: FromRaw>(x: T)
    ensures
        transfer_in_spec(T::desc(), transfer_out_spec(x.model())) == Some(x.model()),
{
    x.model_conforms();
    crate::transfer::lemma_round_trip(T::desc(), x.model());
}

} // verus!

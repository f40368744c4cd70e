//! Type descriptors: the statically known logical types that both sides of
//! the boundary agree on. A descriptor drives the layout mapping and tells
//! Transfer-In which raw shape to expect.

use vstd::prelude::*;
use crate::value::Value;
use crate::value::ValueV;
use crate::value::value_view;

verus! {

broadcast use vstd::std_specs::vec::group_vec_axioms, vstd::seq::axiom_seq_index_decreases;

/// Bit width of an integer scalar. `WSize` is the machine word.
#[derive(Clone, Copy, PartialEq, Eq, Structural, Debug)]
pub enum IntWidth {
    W8,
    W16,
    W32,
    W64,
    W128,
    WSize,
}

/// Descriptor of a representable logical type.
#[derive(Debug, PartialEq, Eq)]
pub enum TypeDesc {
    /// Boolean scalar.
    Bool,
    /// Character scalar.
    Char,
    /// Unsigned integer scalar of the given width.
    UInt(IntWidth),
    /// Signed integer scalar of the given width.
    Int(IntWidth),
    /// Owned text buffer.
    Text,
    /// Owned byte buffer.
    Bytes,
    /// Growable sequence of the given element type.
    List(Box<TypeDesc>),
    /// Plain named-field aggregate: one descriptor per field, in declared
    /// field order.
    Record(Vec<TypeDesc>),
}

/// The mathematical model of a [`TypeDesc`].
#[verifier::ext_equal]
pub enum TypeDescV {
    Bool,
    Char,
    UInt(IntWidth),
    Int(IntWidth),
    Text,
    Bytes,
    List(Box<TypeDescV>),
    Record(Seq<TypeDescV>),
}

/// The model of one type descriptor.
pub open spec fn type_desc_view(t: TypeDesc) -> TypeDescV
    decreases t,
{
    match t {
        TypeDesc::Bool => TypeDescV::Bool,
        TypeDesc::Char => TypeDescV::Char,
        TypeDesc::UInt(w) => TypeDescV::UInt(w),
        TypeDesc::Int(w) => TypeDescV::Int(w),
        TypeDesc::Text => TypeDescV::Text,
        TypeDesc::Bytes => TypeDescV::Bytes,
        TypeDesc::List(et) => TypeDescV::List(Box::new(type_desc_view(*et))),
        TypeDesc::Record(ts) => TypeDescV::Record(
            Seq::new(
                ts@.len(),
                |i: int|
                    if 0 <= i < ts@.len() {
                        type_desc_view(ts@[i])
                    } else {
                        TypeDescV::Bool
                    },
            ),
        ),
    }
}

impl View for TypeDesc {
    type V = TypeDescV;

    open spec fn view(&self) -> TypeDescV {
        type_desc_view(*self)
    }
}

/// Largest value an unsigned scalar of width `w` can hold.
pub open spec fn uint_max(w: IntWidth) -> u128 {
    match w {
        IntWidth::W8 => u8::MAX as u128,
        IntWidth::W16 => u16::MAX as u128,
        IntWidth::W32 => u32::MAX as u128,
        IntWidth::W64 => u64::MAX as u128,
        IntWidth::W128 => u128::MAX,
        IntWidth::WSize => usize::MAX as u128,
    }
}

/// Inclusive bounds of a signed scalar of width `w`.
pub open spec fn int_min(w: IntWidth) -> i128 {
    match w {
        IntWidth::W8 => i8::MIN as i128,
        IntWidth::W16 => i16::MIN as i128,
        IntWidth::W32 => i32::MIN as i128,
        IntWidth::W64 => i64::MIN as i128,
        IntWidth::W128 => i128::MIN,
        IntWidth::WSize => isize::MIN as i128,
    }
}

/// Largest value a signed scalar of width `w` can hold.
pub open spec fn int_max(w: IntWidth) -> i128 {
    match w {
        IntWidth::W8 => i8::MAX as i128,
        IntWidth::W16 => i16::MAX as i128,
        IntWidth::W32 => i32::MAX as i128,
        IntWidth::W64 => i64::MAX as i128,
        IntWidth::W128 => i128::MAX,
        IntWidth::WSize => isize::MAX as i128,
    }
}

/// Whether value `v` is an inhabitant of the logical type `t`: scalars must
/// fit the declared width, sequence elements must all conform to the element
/// type, and an aggregate must carry exactly one conforming value per field.
pub open spec fn conforms(t: TypeDescV, v: ValueV) -> bool
    decreases v,
{
    match v {
        ValueV::Bool(_) => t is Bool,
        ValueV::Char(_) => t is Char,
        ValueV::UInt(u) => t is UInt && u <= uint_max(t->UInt_0),
        ValueV::Int(i) => t is Int && int_min(t->Int_0) <= i <= int_max(t->Int_0),
        ValueV::Text(_) => t is Text,
        ValueV::Bytes(_) => t is Bytes,
        ValueV::List(xs) => t is List && forall|i: int|
            0 <= i < xs.len() ==> conforms(*t->List_0, #[trigger] xs[i]),
        ValueV::Record(fs) => t is Record && fs.len() == t->Record_0.len() && forall|i: int|
            0 <= i < fs.len() ==> conforms(t->Record_0[i], #[trigger] fs[i]),
    }
}

/// Exec form of [`conforms`]: whether `v` inhabits `t`.
#[verifier::loop_isolation(false)]
pub fn value_conforms(t: &TypeDesc, v: &Value) -> (r: bool)
    ensures
        r == conforms(t@, value_view(*v)),
    decreases v,
{
    match v {
        Value::Bool(_) => matches!(t, TypeDesc::Bool),
        Value::Char(_) => matches!(t, TypeDesc::Char),
        Value::UInt(u) => match t {
            TypeDesc::UInt(w) => *u <= uint_max_exec(*w),
            _ => false,
        },
        Value::Int(i) => match t {
            TypeDesc::Int(w) => int_min_exec(*w) <= *i && *i <= int_max_exec(*w),
            _ => false,
        },
        Value::Text(_) => matches!(t, TypeDesc::Text),
        Value::Bytes(_) => matches!(t, TypeDesc::Bytes),
        Value::List(xs) => match t {
            TypeDesc::List(et) => {
                let n = xs.len();
                let mut k: usize = 0;
                while k < n
                    invariant
                        k <= n,
                        forall|i: int| 0 <= i < k ==> conforms(et@, #[trigger] value_view(xs@[i])),
                    decreases n - k,
                {
                    if !value_conforms(et, &xs[k]) {
                        proof {
                            assert(value_view(*v)->List_0[k as int] == value_view(xs@[k as int]));
                        }
                        return false;
                    }
                    k += 1;
                }
                proof {
                    let elems = value_view(*v)->List_0;
                    assert forall|i: int| 0 <= i < elems.len() implies conforms(
                        *t@->List_0,
                        #[trigger] elems[i],
                    ) by {
                        assert(elems[i] == value_view(xs@[i]));
                    }
                }
                true
            }
            _ => false,
        },
        Value::Record(fs) => match t {
            TypeDesc::Record(ts) => {
                if fs.len() != ts.len() {
                    return false;
                }
                let n = fs.len();
                let mut k: usize = 0;
                while k < n
                    invariant
                        k <= n,
                        forall|i: int|
                            0 <= i < k ==> conforms(
                                type_desc_view(ts@[i]),
                                #[trigger] value_view(fs@[i]),
                            ),
                    decreases n - k,
                {
                    if !value_conforms(&ts[k], &fs[k]) {
                        proof {
                            assert(value_view(*v)->Record_0[k as int]
                                == value_view(fs@[k as int]));
                            assert(t@->Record_0[k as int] == type_desc_view(ts@[k as int]));
                        }
                        return false;
                    }
                    k += 1;
                }
                proof {
                    let elems = value_view(*v)->Record_0;
                    assert forall|i: int| 0 <= i < elems.len() implies conforms(
                        t@->Record_0[i],
                        #[trigger] elems[i],
                    ) by {
                        assert(elems[i] == value_view(fs@[i]));
                        assert(t@->Record_0[i] == type_desc_view(ts@[i]));
                    }
                }
                true
            }
            _ => false,
        },
    }
}

/// Exec form of [`uint_max`].
pub fn uint_max_exec(w: IntWidth) -> (r: u128)
    ensures
        r == uint_max(w),
{
    match w {
        IntWidth::W8 => u8::MAX as u128,
        IntWidth::W16 => u16::MAX as u128,
        IntWidth::W32 => u32::MAX as u128,
        IntWidth::W64 => u64::MAX as u128,
        IntWidth::W128 => u128::MAX,
        IntWidth::WSize => usize::MAX as u128,
    }
}

/// Exec form of [`int_min`].
pub fn int_min_exec(w: IntWidth) -> (r: i128)
    ensures
        r == int_min(w),
{
    match w {
        IntWidth::W8 => i8::MIN as i128,
        IntWidth::W16 => i16::MIN as i128,
        IntWidth::W32 => i32::MIN as i128,
        IntWidth::W64 => i64::MIN as i128,
        IntWidth::W128 => i128::MIN,
        IntWidth::WSize => isize::MIN as i128,
    }
}

/// Exec form of [`int_max`].
pub fn int_max_exec(w: IntWidth) -> (r: i128)
    ensures
        r == int_max(w),
{
    match w {
        IntWidth::W8 => i8::MAX as i128,
        IntWidth::W16 => i16::MAX as i128,
        IntWidth::W32 => i32::MAX as i128,
        IntWidth::W64 => i64::MAX as i128,
        IntWidth::W128 => i128::MAX,
        IntWidth::WSize => isize::MAX as i128,
    }
}

} // verus!

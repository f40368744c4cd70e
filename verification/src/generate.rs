//! The aggregate code-generation mechanism. Given the declaration of a
//! plain named-field aggregate, it produces, purely structurally and in
//! declared order, the raw counterpart type (every field retyped to its raw
//! representation, name and visibility preserved) and the plan for the two
//! delegating transfer implementations. Any other declaration shape —
//! tuple-like, unit, tagged-union or union — has no defined raw shape and
//! is rejected with a generation-time error, never turned into code.

use vstd::prelude::*;
use vstd::string::StringExecFns;
use crate::types::IntWidth;
use crate::types::TypeDesc;
use crate::types::TypeDescV;

verus! {

broadcast use vstd::std_specs::vec::group_vec_axioms, vstd::seq::axiom_seq_index_decreases;

/// The raw representation of a logical type: the layout mapping. Scalars
/// map to themselves; an owning text or byte buffer maps to a byte-buffer
/// triple; a growable sequence maps to a typed-buffer triple over its
/// element's raw representation; a named-field aggregate maps to a
/// generated raw aggregate, field for field.
#[derive(Debug, PartialEq, Eq)]
pub enum RawType {
    Bool,
    Char,
    UInt(IntWidth),
    Int(IntWidth),
    /// `(pointer, length, capacity)` over bytes.
    ByteTriple,
    /// `(pointer, length, capacity)` over the element's raw representation.
    TypedTriple(Box<RawType>),
    /// Generated inline raw aggregate: one raw representation per field,
    /// in declared field order; it owns no allocation of its own.
    RawRecord(Vec<RawType>),
}

/// The mathematical model of a [`RawType`].
#[verifier::ext_equal]
pub enum RawTypeV {
    Bool,
    Char,
    UInt(IntWidth),
    Int(IntWidth),
    ByteTriple,
    TypedTriple(Box<RawTypeV>),
    RawRecord(Seq<RawTypeV>),
}

/// The model of one raw type.
pub open spec fn raw_type_view(r: RawType) -> RawTypeV
    decreases r,
{
    match r {
        RawType::Bool => RawTypeV::Bool,
        RawType::Char => RawTypeV::Char,
        RawType::UInt(w) => RawTypeV::UInt(w),
        RawType::Int(w) => RawTypeV::Int(w),
        RawType::ByteTriple => RawTypeV::ByteTriple,
        RawType::TypedTriple(et) => RawTypeV::TypedTriple(Box::new(raw_type_view(*et))),
        RawType::RawRecord(ts) => RawTypeV::RawRecord(
            Seq::new(
                ts@.len(),
                |i: int|
                    if 0 <= i < ts@.len() {
                        raw_type_view(ts@[i])
                    } else {
                        RawTypeV::Bool
                    },
            ),
        ),
    }
}

impl View for RawType {
    type V = RawTypeV;

    open spec fn view(&self) -> RawTypeV {
        raw_type_view(*self)
    }
}

/// The layout mapping on models: the raw representation of logical type `t`.
pub open spec fn raw_desc(t: TypeDescV) -> RawTypeV
    decreases t,
{
    match t {
        TypeDescV::Bool => RawTypeV::Bool,
        TypeDescV::Char => RawTypeV::Char,
        TypeDescV::UInt(w) => RawTypeV::UInt(w),
        TypeDescV::Int(w) => RawTypeV::Int(w),
        TypeDescV::Text => RawTypeV::ByteTriple,
        TypeDescV::Bytes => RawTypeV::ByteTriple,
        TypeDescV::List(et) => RawTypeV::TypedTriple(Box::new(raw_desc(*et))),
        TypeDescV::Record(ts) => RawTypeV::RawRecord(
            Seq::new(
                ts.len(),
                |i: int|
                    if 0 <= i < ts.len() {
                        raw_desc(ts[i])
                    } else {
                        RawTypeV::Bool
                    },
            ),
        ),
    }
}

/// The layout mapping: compute the raw representation type of `t`.
#[verifier::loop_isolation(false)]
pub fn raw_type_of(t: &TypeDesc) -> (r: RawType)
    ensures
        r@ == raw_desc(t@),
    decreases t,
{
    match t {
        TypeDesc::Bool => RawType::Bool,
        TypeDesc::Char => RawType::Char,
        TypeDesc::UInt(w) => RawType::UInt(*w),
        TypeDesc::Int(w) => RawType::Int(*w),
        TypeDesc::Text => RawType::ByteTriple,
        TypeDesc::Bytes => RawType::ByteTriple,
        TypeDesc::List(et) => RawType::TypedTriple(Box::new(raw_type_of(et))),
        TypeDesc::Record(ts) => {
            let n = ts.len();
            let mut rs: Vec<RawType> = Vec::new();
            let mut k: usize = 0;
            while k < n
                invariant
                    k <= n,
                    rs@.len() == k,
                    forall|i: int|
                        0 <= i < k ==> #[trigger] rs@[i]@ == raw_desc(
                            crate::types::type_desc_view(ts@[i]),
                        ),
                decreases n - k,
            {
                let r = raw_type_of(&ts[k]);
                rs.push(r);
                k += 1;
            }
            let out = RawType::RawRecord(rs);
            proof {
                let lhs = out@->RawRecord_0;
                let rhs = raw_desc(t@)->RawRecord_0;
                assert forall|i: int| 0 <= i < lhs.len() implies #[trigger] lhs[i] == rhs[i] by {
                    assert(lhs[i] == rs@[i]@);
                    assert(t@->Record_0[i] == crate::types::type_desc_view(ts@[i]));
                    assert(rhs[i] == raw_desc(t@->Record_0[i]));
                }
                assert(lhs =~= rhs);
            }
            out
        }
    }
}

/// One field of a plain named-field aggregate declaration: its name, its
/// declared visibility, and its logical type.
#[derive(Debug, PartialEq, Eq)]
pub struct FieldDecl {
    pub name: String,
    pub public: bool,
    pub ty: TypeDesc,
}

/// The body of a submitted type declaration.
#[derive(Debug, PartialEq, Eq)]
pub enum DeclKind {
    /// A plain named-field struct: the one shape with a defined raw
    /// counterpart and per-field recursive transfer.
    NamedFields(Vec<FieldDecl>),
    /// A tuple-like struct.
    TupleLike,
    /// A unit struct.
    Unit,
    /// A tagged union (an `enum`).
    TaggedUnion,
    /// An untagged union.
    Union,
}

/// A submitted type declaration: the input to the generation mechanism.
#[derive(Debug, PartialEq, Eq)]
pub struct TypeDecl {
    pub name: String,
    pub kind: DeclKind,
}

/// The generation-time error: the submitted declaration is not a plain
/// named-field struct, so no code is generated for it.
#[derive(Clone, Copy, PartialEq, Eq, Structural, Debug)]
pub enum GenError {
    IncompatibleDataType,
}

impl GenError {
    /// The diagnostic text reported with the error.
    pub fn message(&self) -> (r: &'static str)
        ensures
            r@ == "incompatible data type"@,
    {
        "incompatible data type"
    }
}

/// One field of a generated raw aggregate: the declared field's name and
/// visibility, its type retyped to the raw representation.
#[derive(Debug, PartialEq, Eq)]
pub struct RawField {
    pub name: String,
    pub public: bool,
    pub raw_ty: RawType,
}

/// The generated raw counterpart type of a named-field aggregate, plus the
/// field order its generated Transfer-Out delegates over.
#[derive(Debug, PartialEq, Eq)]
pub struct RawStructDef {
    /// The raw type's name: the declared name prefixed with `Raw`.
    pub name: String,
    /// The fields, in declared order.
    pub fields: Vec<RawField>,
}

/// The generated Transfer-In plan of a named-field aggregate: which raw
/// aggregate it consumes and which fields it reconstructs, in declared
/// order, each at its own declared type.
#[derive(Debug, PartialEq, Eq)]
pub struct FromRawDef {
    /// The logical aggregate being reconstructed.
    pub name: String,
    /// The raw counterpart consumed: the declared name prefixed with `Raw`.
    pub raw_name: String,
    /// The field names, in declared order; field `i` is rebuilt from the
    /// raw aggregate's field `i`.
    pub field_names: Vec<String>,
}

/// Generate the raw counterpart type and the Transfer-Out delegation of a
/// submitted declaration: one raw field per declared field, in declared
/// order, name and visibility preserved, type retyped to its raw
/// representation. Every declaration other than a plain named-field struct
/// is rejected with a generation error, never silently turned into
/// degenerate code.
#[verifier::loop_isolation(false)]
pub fn derive_into_raw(decl: &TypeDecl) -> (r: Result<RawStructDef, GenError>)
    ensures
        match r {
            Ok(g) => {
                &&& decl.kind matches DeclKind::NamedFields(fs)
                &&& g.name@ == "Raw"@ + decl.name@
                &&& g.fields@.len() == fs@.len()
                &&& forall|i: int|
                    0 <= i < fs@.len() ==> {
                        &&& (#[trigger] g.fields@[i]).name@ == fs@[i].name@
                        &&& g.fields@[i].public == fs@[i].public
                        &&& g.fields@[i].raw_ty@ == raw_desc(fs@[i].ty@)
                    }
            },
            Err(e) => !(decl.kind is NamedFields) && e == GenError::IncompatibleDataType,
        },
{
    match &decl.kind {
        DeclKind::NamedFields(fs) => {
            let raw_name = String::from_str("Raw").concat(decl.name.as_str());
            let n = fs.len();
            let mut fields: Vec<RawField> = Vec::new();
            let mut k: usize = 0;
            while k < n
                invariant
                    k <= n,
                    fields@.len() == k,
                    forall|i: int|
                        0 <= i < k ==> {
                            &&& (#[trigger] fields@[i]).name@ == fs@[i].name@
                            &&& fields@[i].public == fs@[i].public
                            &&& fields@[i].raw_ty@ == raw_desc(fs@[i].ty@)
                        },
                decreases n - k,
            {
                let f = &fs[k];
                let rf = RawField {
                    name: String::from_str(f.name.as_str()),
                    public: f.public,
                    raw_ty: raw_type_of(&f.ty),
                };
                fields.push(rf);
                k += 1;
            }
            Ok(RawStructDef { name: raw_name, fields })
        }
        DeclKind::TupleLike => Err(GenError::IncompatibleDataType),
        DeclKind::Unit => Err(GenError::IncompatibleDataType),
        DeclKind::TaggedUnion => Err(GenError::IncompatibleDataType),
        DeclKind::Union => Err(GenError::IncompatibleDataType),
    }
}

/// Generate the Transfer-In plan of a submitted declaration: the mirror
/// reconstruction, field by field in declared order, from the raw
/// counterpart generated by [`derive_into_raw`]. The same declarations are
/// rejected, with the same generation error.
#[verifier::loop_isolation(false)]
pub fn derive_from_raw(decl: &TypeDecl) -> (r: Result<FromRawDef, GenError>)
    ensures
        match r {
            Ok(g) => {
                &&& decl.kind matches DeclKind::NamedFields(fs)
                &&& g.name@ == decl.name@
                &&& g.raw_name@ == "Raw"@ + decl.name@
                &&& g.field_names@.len() == fs@.len()
                &&& forall|i: int|
                    0 <= i < fs@.len() ==> (#[trigger] g.field_names@[i])@ == fs@[i].name@
            },
            Err(e) => !(decl.kind is NamedFields) && e == GenError::IncompatibleDataType,
        },
{
    match &decl.kind {
        DeclKind::NamedFields(fs) => {
            let raw_name = String::from_str("Raw").concat(decl.name.as_str());
            let n = fs.len();
            let mut field_names: Vec<String> = Vec::new();
            let mut k: usize = 0;
            while k < n
                invariant
                    k <= n,
                    field_names@.len() == k,
                    forall|i: int|
                        0 <= i < k ==> (#[trigger] field_names@[i])@ == fs@[i].name@,
                decreases n - k,
            {
                field_names.push(String::from_str(fs[k].name.as_str()));
                k += 1;
            }
            Ok(FromRawDef { name: String::from_str(decl.name.as_str()), raw_name, field_names })
        }
        DeclKind::TupleLike => Err(GenError::IncompatibleDataType),
        DeclKind::Unit => Err(GenError::IncompatibleDataType),
        DeclKind::TaggedUnion => Err(GenError::IncompatibleDataType),
        DeclKind::Union => Err(GenError::IncompatibleDataType),
    }
}

} // verus!

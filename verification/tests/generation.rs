use rabi::DeclKind;
use rabi::FieldDecl;
use rabi::GenError;
use rabi::IntWidth;
use rabi::RawType;
use rabi::TypeDecl;
use rabi::TypeDesc;
use rabi::derive_from_raw;
use rabi::derive_into_raw;
use rabi::raw_type_of;

fn player_decl() -> TypeDecl {
    TypeDecl {
        name: "Player".to_string(),
        kind: DeclKind::NamedFields(vec![
            FieldDecl { name: "name".to_string(), public: false, ty: TypeDesc::Text },
            FieldDecl { name: "visible".to_string(), public: true, ty: TypeDesc::Bool },
            FieldDecl {
                name: "pets".to_string(),
                public: false,
                ty: TypeDesc::List(Box::new(TypeDesc::UInt(IntWidth::WSize))),
            },
        ]),
    }
}

#[test]
fn generates_raw_counterpart() {
    let g = derive_into_raw(&player_decl()).unwrap();
    assert_eq!(g.name, "RawPlayer");
    assert_eq!(g.fields.len(), 3);
    assert_eq!(g.fields[0].name, "name");
    assert!(!g.fields[0].public);
    assert_eq!(g.fields[0].raw_ty, RawType::ByteTriple);
    assert_eq!(g.fields[1].name, "visible");
    assert!(g.fields[1].public);
    assert_eq!(g.fields[1].raw_ty, RawType::Bool);
    assert_eq!(g.fields[2].name, "pets");
    assert_eq!(
        g.fields[2].raw_ty,
        RawType::TypedTriple(Box::new(RawType::UInt(IntWidth::WSize)))
    );
}

#[test]
fn generates_reconstruction_plan() {
    let g = derive_from_raw(&player_decl()).unwrap();
    assert_eq!(g.name, "Player");
    assert_eq!(g.raw_name, "RawPlayer");
    assert_eq!(
        g.field_names,
        vec!["name".to_string(), "visible".to_string(), "pets".to_string()]
    );
}

#[test]
fn rejects_tagged_union() {
    let decl = TypeDecl { name: "Shape".to_string(), kind: DeclKind::TaggedUnion };
    assert_eq!(derive_into_raw(&decl), Err(GenError::IncompatibleDataType));
    assert!(derive_from_raw(&decl).is_err());
}

#[test]
fn rejects_tuple_like() {
    let decl = TypeDecl { name: "Pair".to_string(), kind: DeclKind::TupleLike };
    assert_eq!(derive_into_raw(&decl), Err(GenError::IncompatibleDataType));
    assert_eq!(derive_from_raw(&decl), Err(GenError::IncompatibleDataType));
}

#[test]
fn rejects_unit_struct() {
    let decl = TypeDecl { name: "Marker".to_string(), kind: DeclKind::Unit };
    assert_eq!(derive_into_raw(&decl), Err(GenError::IncompatibleDataType));
}

#[test]
fn rejects_union() {
    let decl = TypeDecl { name: "Mixed".to_string(), kind: DeclKind::Union };
    assert_eq!(derive_into_raw(&decl), Err(GenError::IncompatibleDataType));
}

#[test]
fn generation_error_message() {
    let decl = TypeDecl { name: "Shape".to_string(), kind: DeclKind::TaggedUnion };
    let err = derive_into_raw(&decl).unwrap_err();
    assert_eq!(err.message(), "incompatible data type");
}

#[test]
fn layout_mapping() {
    assert_eq!(raw_type_of(&TypeDesc::Bool), RawType::Bool);
    assert_eq!(raw_type_of(&TypeDesc::Char), RawType::Char);
    assert_eq!(
        raw_type_of(&TypeDesc::UInt(IntWidth::W16)),
        RawType::UInt(IntWidth::W16)
    );
    assert_eq!(raw_type_of(&TypeDesc::Text), RawType::ByteTriple);
    assert_eq!(raw_type_of(&TypeDesc::Bytes), RawType::ByteTriple);
    assert_eq!(
        raw_type_of(&TypeDesc::List(Box::new(TypeDesc::Text))),
        RawType::TypedTriple(Box::new(RawType::ByteTriple))
    );
    assert_eq!(
        raw_type_of(&TypeDesc::Record(vec![TypeDesc::Bool, TypeDesc::Text])),
        RawType::RawRecord(vec![RawType::Bool, RawType::ByteTriple])
    );
}

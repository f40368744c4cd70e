use rabi::Envelope;
use rabi::FromRaw;
use rabi::IntWidth;
use rabi::IntoRaw;
use rabi::RawInline;
use rabi::TransferError;
use rabi::TypeDesc;
use rabi::Value;
use rabi::transfer_in;
use rabi::transfer_out;
use rabi::value_conforms;

#[test]
fn scalar_round_trip() {
    let ty = TypeDesc::Bool;
    let v = Value::Bool(true);
    assert_eq!(transfer_in(&ty, transfer_out(v)), Ok(Value::Bool(true)));

    let ty = TypeDesc::UInt(IntWidth::W64);
    let v = Value::UInt(12345);
    assert_eq!(transfer_in(&ty, transfer_out(v)), Ok(Value::UInt(12345)));

    let ty = TypeDesc::Int(IntWidth::W64);
    let v = Value::Int(-77);
    assert_eq!(transfer_in(&ty, transfer_out(v)), Ok(Value::Int(-77)));

    let ty = TypeDesc::Char;
    let v = Value::Char('q');
    assert_eq!(transfer_in(&ty, transfer_out(v)), Ok(Value::Char('q')));
}

#[test]
fn text_round_trip() {
    let ty = TypeDesc::Text;
    let v = Value::Text(b"abc".to_vec());
    assert_eq!(transfer_in(&ty, transfer_out(v)), Ok(Value::Text(b"abc".to_vec())));
}

#[test]
fn empty_text_round_trip() {
    let ty = TypeDesc::Text;
    let v = Value::Text(Vec::new());
    assert_eq!(transfer_in(&ty, transfer_out(v)), Ok(Value::Text(Vec::new())));
}

#[test]
fn bytes_round_trip() {
    let ty = TypeDesc::Bytes;
    // Not valid UTF-8: byte buffers carry raw bytes, nothing is validated.
    let v = Value::Bytes(vec![0xff, 0x00, 0xfe]);
    assert_eq!(transfer_in(&ty, transfer_out(v)), Ok(Value::Bytes(vec![0xff, 0x00, 0xfe])));
}

#[test]
fn list_of_scalars_round_trip() {
    let ty = TypeDesc::List(Box::new(TypeDesc::UInt(IntWidth::W64)));
    let v = Value::List(vec![Value::UInt(1), Value::UInt(2), Value::UInt(3)]);
    let back = transfer_in(&ty, transfer_out(v)).unwrap();
    assert_eq!(back, Value::List(vec![Value::UInt(1), Value::UInt(2), Value::UInt(3)]));
}

#[test]
fn empty_list_round_trip() {
    let ty = TypeDesc::List(Box::new(TypeDesc::Text));
    let v = Value::List(Vec::new());
    assert_eq!(transfer_in(&ty, transfer_out(v)), Ok(Value::List(Vec::new())));
}

#[test]
fn list_of_text_round_trip() {
    let ty = TypeDesc::List(Box::new(TypeDesc::Text));
    let v = Value::List(vec![Value::Text(b"abc".to_vec()), Value::Text(b"def".to_vec())]);
    let back = transfer_in(&ty, transfer_out(v)).unwrap();
    assert_eq!(
        back,
        Value::List(vec![Value::Text(b"abc".to_vec()), Value::Text(b"def".to_vec())])
    );
}

#[test]
fn nested_lists_round_trip() {
    let ty = TypeDesc::List(Box::new(TypeDesc::List(Box::new(TypeDesc::UInt(
        IntWidth::W8,
    )))));
    let v = Value::List(vec![
        Value::List(vec![Value::UInt(1), Value::UInt(2)]),
        Value::List(Vec::new()),
        Value::List(vec![Value::UInt(9)]),
    ]);
    let back = transfer_in(&ty, transfer_out(v)).unwrap();
    match &back {
        Value::List(outer) => {
            assert_eq!(outer.len(), 3);
            match &outer[0] {
                Value::List(inner) => assert_eq!(inner.len(), 2),
                _ => panic!("outer element is not a list"),
            }
            match &outer[1] {
                Value::List(inner) => assert_eq!(inner.len(), 0),
                _ => panic!("outer element is not a list"),
            }
        }
        _ => panic!("not a list"),
    }
    assert_eq!(
        back,
        Value::List(vec![
            Value::List(vec![Value::UInt(1), Value::UInt(2)]),
            Value::List(Vec::new()),
            Value::List(vec![Value::UInt(9)]),
        ])
    );
}

#[test]
fn record_round_trip() {
    let ty = TypeDesc::Record(vec![
        TypeDesc::Text,
        TypeDesc::Bool,
        TypeDesc::List(Box::new(TypeDesc::UInt(IntWidth::WSize))),
    ]);
    let v = Value::Record(vec![
        Value::Text(b"abc".to_vec()),
        Value::Bool(true),
        Value::List(vec![Value::UInt(1), Value::UInt(2)]),
    ]);
    let back = transfer_in(&ty, transfer_out(v)).unwrap();
    assert_eq!(
        back,
        Value::Record(vec![
            Value::Text(b"abc".to_vec()),
            Value::Bool(true),
            Value::List(vec![Value::UInt(1), Value::UInt(2)]),
        ])
    );
}

#[test]
fn list_of_records_round_trip() {
    let rec = TypeDesc::Record(vec![TypeDesc::UInt(IntWidth::W32), TypeDesc::Text]);
    let ty = TypeDesc::List(Box::new(rec));
    let v = Value::List(vec![
        Value::Record(vec![Value::UInt(1), Value::Text(b"a".to_vec())]),
        Value::Record(vec![Value::UInt(2), Value::Text(b"b".to_vec())]),
    ]);
    let back = transfer_in(&ty, transfer_out(v)).unwrap();
    assert_eq!(
        back,
        Value::List(vec![
            Value::Record(vec![Value::UInt(1), Value::Text(b"a".to_vec())]),
            Value::Record(vec![Value::UInt(2), Value::Text(b"b".to_vec())]),
        ])
    );
}

#[test]
fn shape_mismatch_reported() {
    // A scalar envelope read at a buffer type is a shape mismatch, not a value.
    let env = transfer_out(Value::Bool(true));
    assert_eq!(transfer_in(&TypeDesc::Text, env), Err(TransferError::ShapeMismatch));

    // A byte-buffer envelope read at a sequence type.
    let env = transfer_out(Value::Text(b"abc".to_vec()));
    assert_eq!(
        transfer_in(&TypeDesc::List(Box::new(TypeDesc::UInt(IntWidth::W8))), env),
        Err(TransferError::ShapeMismatch)
    );

    // A mismatch deep inside one element fails the whole buffer.
    let env = transfer_out(Value::List(vec![Value::UInt(1), Value::Bool(true)]));
    assert_eq!(
        transfer_in(&TypeDesc::List(Box::new(TypeDesc::UInt(IntWidth::W8))), env),
        Err(TransferError::ShapeMismatch)
    );
}

#[test]
fn scalar_width_is_checked() {
    let env = transfer_out(Value::UInt(300));
    assert_eq!(
        transfer_in(&TypeDesc::UInt(IntWidth::W8), env),
        Err(TransferError::ShapeMismatch)
    );
    let env = transfer_out(Value::UInt(255));
    assert_eq!(transfer_in(&TypeDesc::UInt(IntWidth::W8), env), Ok(Value::UInt(255)));
    let env = transfer_out(Value::Int(-200));
    assert_eq!(
        transfer_in(&TypeDesc::Int(IntWidth::W8), env),
        Err(TransferError::ShapeMismatch)
    );
}

#[test]
fn record_field_count_is_checked() {
    let env = transfer_out(Value::Record(vec![Value::Bool(true)]));
    assert_eq!(
        transfer_in(&TypeDesc::Record(vec![TypeDesc::Bool, TypeDesc::Bool]), env),
        Err(TransferError::ShapeMismatch)
    );
}

#[test]
fn typed_scalars_round_trip() {
    assert_eq!(u8::from_raw(17u8.into_raw()), Ok(17u8));
    assert_eq!(u64::from_raw(u64::MAX.into_raw()), Ok(u64::MAX));
    assert_eq!(i32::from_raw((-5i32).into_raw()), Ok(-5i32));
    assert_eq!(bool::from_raw(false.into_raw()), Ok(false));
    assert_eq!(char::from_raw('z'.into_raw()), Ok('z'));
    assert_eq!(usize::from_raw(42usize.into_raw()), Ok(42usize));
    assert_eq!(i128::from_raw(i128::MIN.into_raw()), Ok(i128::MIN));
}

#[test]
fn typed_vec_round_trip() {
    let v: Vec<u64> = vec![5, 6, 7];
    assert_eq!(Vec::<u64>::from_raw(v.into_raw()), Ok(vec![5u64, 6, 7]));

    let nested: Vec<Vec<u8>> = vec![vec![1, 2], vec![], vec![3]];
    assert_eq!(
        Vec::<Vec<u8>>::from_raw(nested.into_raw()),
        Ok(vec![vec![1u8, 2], vec![], vec![3u8]])
    );
}

#[test]
fn typed_shape_mismatch() {
    // A bool envelope read back as a narrower or different scalar type.
    let env = true.into_raw();
    assert_eq!(u8::from_raw(env), Err(TransferError::ShapeMismatch));

    // A wide value does not fit a narrow scalar type.
    let env = 300u64.into_raw();
    assert_eq!(u8::from_raw(env), Err(TransferError::ShapeMismatch));

    // An inline envelope read back as a typed buffer.
    let env = Envelope::Inline(RawInline::UInt(1));
    assert_eq!(Vec::<u64>::from_raw(env), Err(TransferError::ShapeMismatch));
}

#[test]
fn conformance_check() {
    let ty = TypeDesc::Record(vec![TypeDesc::Text, TypeDesc::UInt(IntWidth::W8)]);
    let good = Value::Record(vec![Value::Text(b"a".to_vec()), Value::UInt(7)]);
    let wide = Value::Record(vec![Value::Text(b"a".to_vec()), Value::UInt(256)]);
    let short = Value::Record(vec![Value::Text(b"a".to_vec())]);
    assert!(value_conforms(&ty, &good));
    assert!(!value_conforms(&ty, &wide));
    assert!(!value_conforms(&ty, &short));
}

#[test]
fn field_update_fidelity() {
    let ty = TypeDesc::Record(vec![
        TypeDesc::Text,
        TypeDesc::UInt(IntWidth::W8),
        TypeDesc::Bool,
    ]);
    let v = Value::Record(vec![
        Value::Text(b"keep".to_vec()),
        Value::UInt(7),
        Value::Bool(true),
    ]);
    let mut received = transfer_in(&ty, transfer_out(v)).unwrap();
    match &mut received {
        Value::Record(fields) => fields[1] = Value::UInt(9),
        _ => panic!("not a record"),
    }
    let back = transfer_in(&ty, transfer_out(received)).unwrap();
    assert_eq!(
        back,
        Value::Record(vec![
            Value::Text(b"keep".to_vec()),
            Value::UInt(9),
            Value::Bool(true),
        ])
    );
}

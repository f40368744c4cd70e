use rabi::Envelope;
use rabi::IntWidth;
use rabi::TypeDesc;
use rabi::Value;
use rabi::transfer_in;
use rabi::transfer_out;

fn vec3_ty() -> TypeDesc {
    TypeDesc::Record(vec![
        TypeDesc::Int(IntWidth::W64),
        TypeDesc::Int(IntWidth::W64),
        TypeDesc::Int(IntWidth::W64),
    ])
}

fn player_ty() -> TypeDesc {
    TypeDesc::Record(vec![
        TypeDesc::Text,                                         // name
        TypeDesc::Bool,                                         // visible
        TypeDesc::UInt(IntWidth::W32),                          // health, f32 bits
        vec3_ty(),                                              // position
        TypeDesc::List(Box::new(TypeDesc::UInt(IntWidth::WSize))), // pets
        TypeDesc::List(Box::new(TypeDesc::Text)),               // messages
    ])
}

fn world_ty() -> TypeDesc {
    TypeDesc::Record(vec![TypeDesc::List(Box::new(player_ty()))])
}

fn player(
    name: &str,
    visible: bool,
    health: f32,
    position: (i64, i64, i64),
    pets: Vec<usize>,
    messages: Vec<&str>,
) -> Value {
    Value::Record(vec![
        Value::Text(name.as_bytes().to_vec()),
        Value::Bool(visible),
        Value::UInt(health.to_bits() as u128),
        Value::Record(vec![
            Value::Int(position.0 as i128),
            Value::Int(position.1 as i128),
            Value::Int(position.2 as i128),
        ]),
        Value::List(pets.into_iter().map(|p| Value::UInt(p as u128)).collect()),
        Value::List(
            messages.into_iter().map(|m| Value::Text(m.as_bytes().to_vec())).collect(),
        ),
    ])
}

fn client(world: Envelope) -> Envelope {
    let mut world = transfer_in(&world_ty(), world).unwrap();
    {
        let players = match &mut world {
            Value::Record(fields) => match &mut fields[0] {
                Value::List(players) => players,
                _ => panic!("players is not a list"),
            },
            _ => panic!("world is not a record"),
        };
        let fields = match &mut players[0] {
            Value::Record(fields) => fields,
            _ => panic!("player is not a record"),
        };
        match &mut fields[0] {
            Value::Text(name) => name.extend_from_slice(b"def"),
            _ => panic!("name is not text"),
        }
        fields[1] = Value::Bool(false);
        fields[2] = Value::UInt(10.5f32.to_bits() as u128);
        match &mut fields[3] {
            Value::Record(pos) => {
                for (axis, shift) in pos.iter_mut().zip([10i128, 1, -5]) {
                    match axis {
                        Value::Int(c) => *c += shift,
                        _ => panic!("coordinate is not an integer"),
                    }
                }
            }
            _ => panic!("position is not a record"),
        }
        match &mut fields[4] {
            Value::List(pets) => {
                for pet in pets.iter_mut() {
                    match pet {
                        Value::UInt(id) => *id += 2,
                        _ => panic!("pet id is not an integer"),
                    }
                }
            }
            _ => panic!("pets is not a list"),
        }
        match &mut fields[5] {
            Value::List(messages) => messages.push(Value::Text(b"ghi".to_vec())),
            _ => panic!("messages is not a list"),
        }
    }
    transfer_out(world)
}

#[test]
fn test_move() {
    let world = Value::Record(vec![Value::List(vec![
        player("abc", true, 20.0, (0, 0, 0), vec![1, 2], vec!["abc", "def"]),
        player("xyz", true, 15.0, (3, 7, 2), vec![], vec!["jkl", "mno"]),
    ])]);
    let world = transfer_in(&world_ty(), client(transfer_out(world))).unwrap();
    let players = match &world {
        Value::Record(fields) => match &fields[0] {
            Value::List(players) => players,
            _ => panic!("players is not a list"),
        },
        _ => panic!("world is not a record"),
    };
    assert_eq!(
        players[0],
        player("abcdef", false, 10.5, (10, 1, -5), vec![3, 4], vec!["abc", "def", "ghi"])
    );
    assert_eq!(
        players[1],
        player("xyz", true, 15.0, (3, 7, 2), vec![], vec!["jkl", "mno"])
    );
}

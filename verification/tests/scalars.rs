use hyprland_data::client::{decode_optional_object, encode_optional_object};
use hyprland_data::error::{DecodeError, Discriminant, Entity, Expected, Kind};
use hyprland_data::keyword::{
    decode_keyword, decode_option_kind, decode_option_raw, Keyword, OptionKind, OptionRaw,
    OptionValue,
};
use hyprland_data::monitor::{decode_transform, Transforms};
use hyprland_data::read::{
    as_array, as_bool, as_int, as_number, as_object, as_text, int_field, optional, pair_field,
    quad_field, required,
};
use hyprland_data::value::{find, Member, Number, Value};
use hyprland_data::workspace::{
    decode_workspace_identity, Workspace, WorkspaceIdentity, WorkspaceRaw, SPECIAL_WORKSPACE_ID,
};

fn sc_text(x: &str) -> Value {
    Value::Str(x.to_string())
}

fn sc_int(x: i64) -> Value {
    Value::Number(Number::Int(x))
}

fn sc_real(x: f64) -> Value {
    Value::Number(Number::Real(x.to_bits()))
}

fn sc_members(pairs: Vec<(&str, Value)>) -> Vec<Member> {
    let mut members = Vec::new();
    for (key, value) in pairs {
        members.push(Member { key: key.to_string(), value });
    }
    members
}

fn sc_object(pairs: Vec<(&str, Value)>) -> Value {
    Value::Object(sc_members(pairs))
}

#[test]
fn identity_of_the_marker_is_special() {
    assert_eq!(SPECIAL_WORKSPACE_ID, -99);
    assert_eq!(decode_workspace_identity(-99), Ok(WorkspaceIdentity::Special));
}

#[test]
fn identity_of_every_byte_is_regular() {
    for n in 0..=255i64 {
        assert_eq!(decode_workspace_identity(n), Ok(WorkspaceIdentity::Regular(n as u8)));
    }
}

#[test]
fn identity_of_every_other_negative_byte_fails() {
    for n in -128..0i64 {
        if n != -99 {
            assert_eq!(
                decode_workspace_identity(n),
                Err(DecodeError::UnrepresentableSentinel { value: n })
            );
        }
    }
}

#[test]
fn identity_beyond_a_byte_fails() {
    assert_eq!(
        decode_workspace_identity(256),
        Err(DecodeError::UnrepresentableSentinel { value: 256 })
    );
    assert_eq!(
        decode_workspace_identity(i64::MAX),
        Err(DecodeError::UnrepresentableSentinel { value: i64::MAX })
    );
    assert_eq!(
        decode_workspace_identity(i64::MIN),
        Err(DecodeError::UnrepresentableSentinel { value: i64::MIN })
    );
    assert_eq!(
        decode_workspace_identity(-100),
        Err(DecodeError::UnrepresentableSentinel { value: -100 })
    );
    assert_eq!(
        decode_workspace_identity(-98),
        Err(DecodeError::UnrepresentableSentinel { value: -98 })
    );
}

#[test]
fn workspace_from_raw_copies_the_fields() {
    let raw = WorkspaceRaw {
        id: 3,
        name: "3".to_string(),
        monitor: "DP-1".to_string(),
        windows: 4,
        fullscreen: true,
    };
    assert_eq!(
        Workspace::from(raw),
        Ok(Workspace {
            id: WorkspaceIdentity::Regular(3),
            name: "3".to_string(),
            monitor: "DP-1".to_string(),
            windows: 4,
            fullscreen: true,
        })
    );
}

#[test]
fn workspace_from_raw_reads_the_marker() {
    let raw = WorkspaceRaw {
        id: -99,
        name: "special".to_string(),
        monitor: "DP-1".to_string(),
        windows: 0,
        fullscreen: false,
    };
    assert_eq!(Workspace::from(raw).map(|w| w.id), Ok(WorkspaceIdentity::Special));
}

#[test]
fn workspace_from_raw_refuses_minus_five() {
    let raw = WorkspaceRaw {
        id: -5,
        name: "x".to_string(),
        monitor: "DP-1".to_string(),
        windows: 0,
        fullscreen: false,
    };
    assert_eq!(Workspace::from(raw), Err(DecodeError::UnrepresentableSentinel { value: -5 }));
}

#[test]
fn workspace_from_raw_takes_the_largest_byte() {
    let raw = WorkspaceRaw {
        id: 127,
        name: String::new(),
        monitor: String::new(),
        windows: 255,
        fullscreen: false,
    };
    let workspace = Workspace::from(raw).unwrap();
    assert_eq!(workspace.id, WorkspaceIdentity::Regular(127));
    assert_eq!(workspace.windows, 255);
}

#[test]
fn transform_decodes_each_code() {
    assert_eq!(decode_transform(0), Ok(Transforms::Normal));
    assert_eq!(decode_transform(1), Ok(Transforms::Normal90));
    assert_eq!(decode_transform(2), Ok(Transforms::Normal180));
    assert_eq!(decode_transform(3), Ok(Transforms::Normal270));
    assert_eq!(decode_transform(4), Ok(Transforms::Flipped));
    assert_eq!(decode_transform(5), Ok(Transforms::Flipped90));
    assert_eq!(decode_transform(6), Ok(Transforms::Flipped180));
    assert_eq!(decode_transform(7), Ok(Transforms::Flipped270));
}

#[test]
fn transform_round_trips_through_its_code() {
    for code in 0..=7i64 {
        let transform = decode_transform(code).unwrap();
        assert_eq!(transform.code() as i64, code);
    }
    let all = [
        Transforms::Normal,
        Transforms::Normal90,
        Transforms::Normal180,
        Transforms::Normal270,
        Transforms::Flipped,
        Transforms::Flipped90,
        Transforms::Flipped180,
        Transforms::Flipped270,
    ];
    for transform in all {
        assert_eq!(decode_transform(transform.code() as i64), Ok(transform));
    }
}

#[test]
fn transform_refuses_every_other_code() {
    for code in [8i64, -1, 255, i64::MAX, i64::MIN] {
        assert_eq!(
            decode_transform(code),
            Err(DecodeError::UnknownVariant {
                entity: Entity::Monitor,
                field: "transform",
                value: Discriminant::Code(code),
            })
        );
    }
}

#[test]
fn optional_object_empty_is_none() {
    assert_eq!(decode_optional_object(Value::Object(Vec::new())), None);
}

#[test]
fn optional_object_with_null_member_is_some() {
    let tree = decode_optional_object(sc_object(vec![("address", Value::Null)]));
    assert_eq!(tree, Some(sc_object(vec![("address", Value::Null)])));
}

#[test]
fn optional_object_keeps_other_kinds() {
    assert_eq!(decode_optional_object(Value::Null), Some(Value::Null));
    assert_eq!(decode_optional_object(Value::Array(Vec::new())), Some(Value::Array(Vec::new())));
    assert_eq!(decode_optional_object(sc_text("")), Some(sc_text("")));
}

#[test]
fn optional_object_none_encodes_as_empty_object() {
    assert_eq!(encode_optional_object(None), Value::Object(Vec::new()));
    assert_eq!(decode_optional_object(encode_optional_object(None)), None);
}

#[test]
fn optional_object_round_trips_a_tree() {
    let back = decode_optional_object(encode_optional_object(Some(sc_object(vec![(
        "pid",
        sc_int(7),
    )]))));
    assert_eq!(back, Some(sc_object(vec![("pid", sc_int(7))])));
    let again = decode_optional_object(back.unwrap());
    assert_eq!(again, Some(sc_object(vec![("pid", sc_int(7))])));
}

#[test]
fn find_takes_the_first_member_of_a_key() {
    let members = sc_members(vec![("id", sc_int(1)), ("idx", sc_int(2)), ("id", sc_int(3))]);
    assert_eq!(find(&members, "id"), Some(&sc_int(1)));
    assert_eq!(find(&members, "idx"), Some(&sc_int(2)));
    assert_eq!(find(&members, "i"), None);
    assert_eq!(find(&members, "ID"), None);
    assert_eq!(find(&Vec::new(), "id"), None);
}

#[test]
fn required_names_the_missing_field() {
    let members = sc_members(vec![("name", sc_text("a"))]);
    assert_eq!(
        required(&members, Entity::Monitor, "width"),
        Err(DecodeError::MissingField { entity: Entity::Monitor, field: "width" })
    );
    assert_eq!(required(&members, Entity::Monitor, "name"), Ok(&sc_text("a")));
}

#[test]
fn optional_reads_null_as_absent() {
    let members = sc_members(vec![("type", Value::Null), ("name", sc_text("pen"))]);
    assert_eq!(optional(&members, "type"), None);
    assert_eq!(optional(&members, "belongsTo"), None);
    assert_eq!(optional(&members, "name"), Some(&sc_text("pen")));
}

#[test]
fn kinds_are_told_apart() {
    assert_eq!(Value::Null.kind(), Kind::Null);
    assert_eq!(Value::Bool(true).kind(), Kind::Bool);
    assert_eq!(sc_int(0).kind(), Kind::Int);
    assert_eq!(sc_real(0.5).kind(), Kind::Real);
    assert_eq!(sc_text("").kind(), Kind::Str);
    assert_eq!(Value::Array(Vec::new()).kind(), Kind::Array);
    assert_eq!(Value::Object(Vec::new()).kind(), Kind::Object);
}

#[test]
fn scalars_are_read_by_kind() {
    assert_eq!(as_bool(&Value::Bool(true), Entity::Client, "floating"), Ok(true));
    assert_eq!(
        as_bool(&sc_int(1), Entity::Client, "floating"),
        Err(DecodeError::TypeMismatch {
            entity: Entity::Client,
            field: "floating",
            expected: Expected::Bool,
            actual: Kind::Int,
        })
    );
    assert_eq!(as_text(&sc_text("kitty"), Entity::Client, "class"), Ok("kitty".to_string()));
    assert_eq!(
        as_text(&Value::Null, Entity::Client, "class"),
        Err(DecodeError::TypeMismatch {
            entity: Entity::Client,
            field: "class",
            expected: Expected::Str,
            actual: Kind::Null,
        })
    );
    assert_eq!(as_number(&sc_int(60), Entity::Monitor, "scale"), Ok(Number::Int(60)));
    assert_eq!(
        as_number(&sc_real(1.5), Entity::Monitor, "scale"),
        Ok(Number::Real(1.5f64.to_bits()))
    );
    assert_eq!(
        as_number(&sc_text("1.5"), Entity::Monitor, "scale"),
        Err(DecodeError::TypeMismatch {
            entity: Entity::Monitor,
            field: "scale",
            expected: Expected::Number,
            actual: Kind::Str,
        })
    );
    assert_eq!(
        as_array(&Value::Object(Vec::new()), Entity::Monitors, ""),
        Err(DecodeError::TypeMismatch {
            entity: Entity::Monitors,
            field: "",
            expected: Expected::Array,
            actual: Kind::Object,
        })
    );
    assert_eq!(
        as_object(&Value::Array(Vec::new()), Entity::Version, ""),
        Err(DecodeError::TypeMismatch {
            entity: Entity::Version,
            field: "",
            expected: Expected::Object,
            actual: Kind::Array,
        })
    );
}

#[test]
fn whole_numbers_are_held_to_their_range() {
    assert_eq!(as_int(&sc_int(0), Entity::Monitor, "id", 0, 255), Ok(0));
    assert_eq!(as_int(&sc_int(255), Entity::Monitor, "id", 0, 255), Ok(255));
    assert_eq!(
        as_int(&sc_int(256), Entity::Monitor, "id", 0, 255),
        Err(DecodeError::TypeMismatch {
            entity: Entity::Monitor,
            field: "id",
            expected: Expected::Int { min: 0, max: 255 },
            actual: Kind::Int,
        })
    );
    assert_eq!(
        as_int(&sc_int(-1), Entity::Monitor, "id", 0, 255),
        Err(DecodeError::TypeMismatch {
            entity: Entity::Monitor,
            field: "id",
            expected: Expected::Int { min: 0, max: 255 },
            actual: Kind::Int,
        })
    );
    assert_eq!(
        as_int(&sc_real(1.0), Entity::Monitor, "id", 0, 255),
        Err(DecodeError::TypeMismatch {
            entity: Entity::Monitor,
            field: "id",
            expected: Expected::Int { min: 0, max: 255 },
            actual: Kind::Real,
        })
    );
    let members = sc_members(vec![("pid", sc_int(4294967295))]);
    assert_eq!(int_field(&members, Entity::Client, "pid", 0, 4294967295), Ok(4294967295));
    assert_eq!(
        int_field(&members, Entity::Client, "monitor", 0, 255),
        Err(DecodeError::MissingField { entity: Entity::Client, field: "monitor" })
    );
}

#[test]
fn tuples_have_their_length() {
    let members = sc_members(vec![
        ("at", Value::Array(vec![sc_int(-3), sc_int(40)])),
        ("size", Value::Array(vec![sc_int(1), sc_int(2), sc_int(3)])),
        ("reserved", Value::Array(vec![sc_int(0), sc_int(30), sc_int(0), sc_int(255)])),
        ("short", Value::Array(vec![sc_int(0), sc_int(30), sc_int(0)])),
        ("wide", Value::Array(vec![sc_int(0), sc_int(70000)])),
        ("mixed", Value::Array(vec![sc_int(0), sc_int(1), sc_text("2"), sc_int(900)])),
    ]);
    assert_eq!(pair_field(&members, Entity::Client, "at", -32768, 32767), Ok((-3, 40)));
    assert_eq!(
        pair_field(&members, Entity::Client, "size", 0, 65535),
        Err(DecodeError::TypeMismatch {
            entity: Entity::Client,
            field: "size",
            expected: Expected::Tuple { len: 2 },
            actual: Kind::Array,
        })
    );
    assert_eq!(
        pair_field(&members, Entity::Client, "wide", 0, 65535),
        Err(DecodeError::TypeMismatch {
            entity: Entity::Client,
            field: "wide",
            expected: Expected::Int { min: 0, max: 65535 },
            actual: Kind::Int,
        })
    );
    assert_eq!(
        pair_field(&members, Entity::Client, "none", 0, 65535),
        Err(DecodeError::MissingField { entity: Entity::Client, field: "none" })
    );
    assert_eq!(quad_field(&members, Entity::Monitor, "reserved", 0, 255), Ok((0, 30, 0, 255)));
    assert_eq!(
        quad_field(&members, Entity::Monitor, "short", 0, 255),
        Err(DecodeError::TypeMismatch {
            entity: Entity::Monitor,
            field: "short",
            expected: Expected::Tuple { len: 4 },
            actual: Kind::Array,
        })
    );
    assert_eq!(
        quad_field(&members, Entity::Monitor, "mixed", 0, 255),
        Err(DecodeError::TypeMismatch {
            entity: Entity::Monitor,
            field: "mixed",
            expected: Expected::Int { min: 0, max: 255 },
            actual: Kind::Str,
        })
    );
}

fn sc_option() -> Value {
    sc_object(vec![
        ("option", sc_text("general:border_size")),
        ("int", sc_int(2)),
        ("float", sc_real(-340282346638528859811704183484516925440.0)),
        ("str", sc_text("")),
    ])
}

#[test]
fn keyword_takes_the_value_of_its_kind() {
    assert_eq!(
        decode_keyword(&sc_option(), OptionKind::Int),
        Ok(Keyword { option: "general:border_size".to_string(), value: OptionValue::Int(2) })
    );
    assert_eq!(
        decode_keyword(&sc_option(), OptionKind::String),
        Ok(Keyword {
            option: "general:border_size".to_string(),
            value: OptionValue::String(String::new()),
        })
    );
    let keyword = decode_keyword(&sc_option(), OptionKind::Float).unwrap();
    match keyword.value {
        OptionValue::Float(Number::Real(bits)) => {
            assert_eq!(f64::from_bits(bits), -340282346638528859811704183484516925440.0)
        },
        other => panic!("not a real: {:?}", other),
    }
}

#[test]
fn keyword_from_raw_picks_one_value() {
    let raw = OptionRaw {
        option: "input:kb_layout".to_string(),
        int_value: -1,
        float_value: Number::Real(0.25f64.to_bits()),
        str_value: "us".to_string(),
    };
    assert_eq!(Keyword::from(raw.clone(), OptionKind::Int).value, OptionValue::Int(-1));
    assert_eq!(
        Keyword::from(raw.clone(), OptionKind::Float).value,
        OptionValue::Float(Number::Real(0.25f64.to_bits()))
    );
    let keyword = Keyword::from(raw, OptionKind::String);
    assert_eq!(keyword.value, OptionValue::String("us".to_string()));
    assert_eq!(keyword.option, "input:kb_layout");
}

#[test]
fn option_raw_needs_all_four_members() {
    assert_eq!(
        decode_option_raw(&sc_option()).map(|raw| (raw.int_value, raw.str_value)),
        Ok((2, String::new()))
    );
    let without_str = sc_object(vec![
        ("option", sc_text("a")),
        ("int", sc_int(2)),
        ("float", sc_real(0.0)),
    ]);
    assert_eq!(
        decode_option_raw(&without_str),
        Err(DecodeError::MissingField { entity: Entity::Keyword, field: "str" })
    );
    let wrong_int = sc_object(vec![
        ("option", sc_text("a")),
        ("int", sc_real(2.5)),
        ("float", sc_real(0.0)),
        ("str", sc_text("")),
    ]);
    assert_eq!(
        decode_option_raw(&wrong_int),
        Err(DecodeError::TypeMismatch {
            entity: Entity::Keyword,
            field: "int",
            expected: Expected::Int { min: i64::MIN, max: i64::MAX },
            actual: Kind::Real,
        })
    );
}

#[test]
fn option_kind_is_named_by_its_member() {
    assert_eq!(decode_option_kind("int"), Ok(OptionKind::Int));
    assert_eq!(decode_option_kind("float"), Ok(OptionKind::Float));
    assert_eq!(decode_option_kind("str"), Ok(OptionKind::String));
    assert_eq!(
        decode_option_kind("string"),
        Err(DecodeError::UnknownVariant {
            entity: Entity::Keyword,
            field: "",
            value: Discriminant::Tag("string".to_string()),
        })
    );
    assert_eq!(
        decode_option_kind(""),
        Err(DecodeError::UnknownVariant {
            entity: Entity::Keyword,
            field: "",
            value: Discriminant::Tag(String::new()),
        })
    );
}

#[test]
fn a_copy_of_a_tree_holds_the_same() {
    let tree = sc_object(vec![
        ("a", Value::Array(vec![sc_int(1), sc_real(2.5), Value::Null, Value::Bool(false)])),
        ("b", sc_object(vec![("c", sc_text("d")), ("c", sc_text("e"))])),
        ("", Value::Array(Vec::new())),
    ]);
    let copy = tree.clone();
    assert_eq!(copy, tree);
    let member = Member { key: "k".to_string(), value: tree };
    assert_eq!(member.clone(), member);
}

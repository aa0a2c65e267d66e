use dash89::data_type::{DataType, NO_ID};

const IDS: [u32; 11] = [0, 1, 2, 3, 4, 5, 16, 17, 18, 19, 20];

const TOKENS: [&str; 16] = [
    "boolean",
    "double",
    "int",
    "float",
    "string",
    "json",
    "raw",
    "rpc",
    "msgpack",
    "protobuf",
    "boolean[]",
    "double[]",
    "int[]",
    "float[]",
    "string[]",
    "structschema",
];

#[test]
fn id_of_looked_up_kind_is_the_id() {
    for id in IDS {
        let kind = DataType::from_id(id).unwrap();
        assert_eq!(kind.as_id(), id);
    }
}

#[test]
fn from_id_gives_the_first_kind_of_each_id() {
    assert_eq!(DataType::from_id(0), Some(DataType::Boolean));
    assert_eq!(DataType::from_id(1), Some(DataType::Double));
    assert_eq!(DataType::from_id(2), Some(DataType::Int));
    assert_eq!(DataType::from_id(3), Some(DataType::Float));
    assert_eq!(DataType::from_id(4), Some(DataType::String));
    assert_eq!(DataType::from_id(5), Some(DataType::Raw));
    assert_eq!(DataType::from_id(16), Some(DataType::BooleanArray));
    assert_eq!(DataType::from_id(17), Some(DataType::DoubleArray));
    assert_eq!(DataType::from_id(18), Some(DataType::IntArray));
    assert_eq!(DataType::from_id(19), Some(DataType::FloatArray));
    assert_eq!(DataType::from_id(20), Some(DataType::StringArray));
}

#[test]
fn from_id_knows_no_other_id() {
    assert_eq!(DataType::from_id(6), None);
    assert_eq!(DataType::from_id(15), None);
    assert_eq!(DataType::from_id(21), None);
    assert_eq!(DataType::from_id(4294967295), None);
    for id in 0..1000u32 {
        assert_eq!(DataType::from_id(id).is_some(), IDS.contains(&id));
    }
}

#[test]
fn kinds_that_share_an_id() {
    assert_eq!(DataType::String.as_id(), 4);
    assert_eq!(DataType::Json.as_id(), 4);
    assert_eq!(DataType::Raw.as_id(), 5);
    assert_eq!(DataType::Rpc.as_id(), 5);
    assert_eq!(DataType::Msgpack.as_id(), 5);
    assert_eq!(DataType::Protobuf.as_id(), 5);
}

#[test]
fn kinds_without_an_id() {
    assert_eq!(NO_ID, u32::MAX);
    assert_eq!(DataType::StructSchema.as_id(), u32::MAX);
    assert_eq!(DataType::Struct("Pose2d".to_string()).as_id(), u32::MAX);
    assert_eq!(DataType::Other("banana".to_string()).as_id(), u32::MAX);
}

#[test]
fn ids_of_the_plain_kinds() {
    assert_eq!(DataType::Boolean.as_id(), 0);
    assert_eq!(DataType::Double.as_id(), 1);
    assert_eq!(DataType::Int.as_id(), 2);
    assert_eq!(DataType::Float.as_id(), 3);
    assert_eq!(DataType::BooleanArray.as_id(), 16);
    assert_eq!(DataType::DoubleArray.as_id(), 17);
    assert_eq!(DataType::IntArray.as_id(), 18);
    assert_eq!(DataType::FloatArray.as_id(), 19);
    assert_eq!(DataType::StringArray.as_id(), 20);
}

#[test]
fn fixed_tokens_name_their_kinds() {
    assert_eq!(DataType::from_token("boolean"), DataType::Boolean);
    assert_eq!(DataType::from_token("double"), DataType::Double);
    assert_eq!(DataType::from_token("int"), DataType::Int);
    assert_eq!(DataType::from_token("float"), DataType::Float);
    assert_eq!(DataType::from_token("string"), DataType::String);
    assert_eq!(DataType::from_token("json"), DataType::Json);
    assert_eq!(DataType::from_token("raw"), DataType::Raw);
    assert_eq!(DataType::from_token("rpc"), DataType::Rpc);
    assert_eq!(DataType::from_token("msgpack"), DataType::Msgpack);
    assert_eq!(DataType::from_token("protobuf"), DataType::Protobuf);
    assert_eq!(DataType::from_token("boolean[]"), DataType::BooleanArray);
    assert_eq!(DataType::from_token("double[]"), DataType::DoubleArray);
    assert_eq!(DataType::from_token("int[]"), DataType::IntArray);
    assert_eq!(DataType::from_token("float[]"), DataType::FloatArray);
    assert_eq!(DataType::from_token("string[]"), DataType::StringArray);
    assert_eq!(DataType::from_token("structschema"), DataType::StructSchema);
}

#[test]
fn known_tokens_are_read_and_written_back() {
    for token in TOKENS {
        assert_eq!(DataType::from_token(token).as_token(), token);
    }
    assert_eq!(
        DataType::from_token("struct:Rotation2d").as_token(),
        "struct:Rotation2d"
    );
}

#[test]
fn struct_token_keeps_the_name() {
    assert_eq!(
        DataType::from_token("struct:Rotation2d"),
        DataType::Struct("Rotation2d".to_string())
    );
    assert_eq!(
        DataType::from_token("struct:"),
        DataType::Struct(String::new())
    );
    assert_eq!(
        DataType::from_token("struct:struct:Twice"),
        DataType::Struct("struct:Twice".to_string())
    );
    assert_eq!(
        DataType::from_token("struct:Ünïcödé"),
        DataType::Struct("Ünïcödé".to_string())
    );
}

#[test]
fn unknown_token_is_kept() {
    assert_eq!(
        DataType::from_token("banana"),
        DataType::Other("banana".to_string())
    );
    assert_eq!(DataType::from_token(""), DataType::Other(String::new()));
    assert_eq!(
        DataType::from_token("Boolean"),
        DataType::Other("Boolean".to_string())
    );
    assert_eq!(
        DataType::from_token("struct"),
        DataType::Other("struct".to_string())
    );
    assert_eq!(
        DataType::from_token("int[] "),
        DataType::Other("int[] ".to_string())
    );
    assert_eq!(DataType::from_token("banana").as_token(), "banana");
}

#[test]
fn struct_kind_is_written_with_its_prefix() {
    assert_eq!(
        DataType::Struct("Pose2d".to_string()).as_token(),
        "struct:Pose2d"
    );
    assert_eq!(
        DataType::from_token(&DataType::Struct("Pose2d".to_string()).as_token()),
        DataType::Struct("Pose2d".to_string())
    );
}

#[test]
fn kinds_compare_by_kind_and_text() {
    assert_eq!(DataType::Int, DataType::Int);
    assert_ne!(DataType::Int, DataType::IntArray);
    assert_ne!(DataType::String, DataType::Json);
    assert_eq!(
        DataType::Struct("A".to_string()),
        DataType::Struct("A".to_string())
    );
    assert_ne!(
        DataType::Struct("A".to_string()),
        DataType::Struct("B".to_string())
    );
    assert_ne!(
        DataType::Struct("A".to_string()),
        DataType::Other("A".to_string())
    );
}

use dash89::codec::{ArrayElement, NetworkTableData};
use dash89::data_type::DataType;
use dash89::wrappers::{JsonString, Protobuf, RawData, Rpc};
use rmpv::Value;

#[test]
fn scalars_come_back_from_their_encoding() {
    assert_eq!(bool::from_value(&true.into_value()), Some(true));
    assert_eq!(bool::from_value(&false.into_value()), Some(false));
    assert_eq!(i8::from_value(&(-1i8).into_value()), Some(-1));
    assert_eq!(i16::from_value(&(-300i16).into_value()), Some(-300));
    assert_eq!(i32::from_value(&(-1i32).into_value()), Some(-1));
    assert_eq!(i64::from_value(&i64::MIN.into_value()), Some(i64::MIN));
    assert_eq!(i64::from_value(&i64::MAX.into_value()), Some(i64::MAX));
    assert_eq!(u8::from_value(&255u8.into_value()), Some(255));
    assert_eq!(u16::from_value(&65535u16.into_value()), Some(65535));
    assert_eq!(u32::from_value(&u32::MAX.into_value()), Some(u32::MAX));
    assert_eq!(u64::from_value(&u64::MAX.into_value()), Some(u64::MAX));
    assert_eq!(
        String::from_value(&"hello".to_string().into_value()),
        Some("hello".to_string())
    );
}

#[test]
fn scalars_are_encoded_as_the_wire_scalar() {
    assert_eq!(true.into_value(), Value::Boolean(true));
    assert_eq!((-5i8).into_value(), Value::from(-5i64));
    assert_eq!(7i16.into_value(), Value::from(7u64));
    assert_eq!((-70000i32).into_value(), Value::from(-70000i64));
    assert_eq!(9i64.into_value(), Value::from(9i64));
    assert_eq!(200u8.into_value(), Value::from(200u8));
    assert_eq!(60000u16.into_value(), Value::from(60000u16));
    assert_eq!(7u32.into_value(), Value::from(7u32));
    assert_eq!(u64::MAX.into_value(), Value::from(u64::MAX));
    assert_eq!("hi".to_string().into_value(), Value::from("hi"));
}

#[test]
fn unsigned_decoding_narrows_by_range() {
    assert_eq!(u8::from_value(&Value::from(300u64)), None);
    assert_eq!(u8::from_value(&Value::from(200u64)), Some(200));
    assert_eq!(u8::from_value(&Value::from(256u64)), None);
    assert_eq!(u8::from_value(&Value::from(255u64)), Some(255));
    assert_eq!(u16::from_value(&Value::from(65536u64)), None);
    assert_eq!(u32::from_value(&Value::from(4294967296u64)), None);
    assert_eq!(u32::from_value(&Value::from(4294967295u64)), Some(u32::MAX));
    assert_eq!(u64::from_value(&Value::from(u64::MAX)), Some(u64::MAX));
}

#[test]
fn unsigned_decoding_refuses_negative_numbers() {
    assert_eq!(u8::from_value(&Value::from(-1)), None);
    assert_eq!(u16::from_value(&Value::from(-1)), None);
    assert_eq!(u32::from_value(&Value::from(-1)), None);
    assert_eq!(u64::from_value(&Value::from(-1)), None);
}

#[test]
fn signed_decoding_narrows_by_range() {
    assert_eq!(i8::from_value(&Value::from(127)), Some(127));
    assert_eq!(i8::from_value(&Value::from(128)), None);
    assert_eq!(i8::from_value(&Value::from(-128)), Some(-128));
    assert_eq!(i8::from_value(&Value::from(-129)), None);
    assert_eq!(i16::from_value(&Value::from(32768)), None);
    assert_eq!(i32::from_value(&Value::from(2147483648i64)), None);
    assert_eq!(i32::from_value(&Value::from(-2147483648i64)), Some(i32::MIN));
    assert_eq!(i64::from_value(&Value::from(u64::MAX)), None);
    assert_eq!(
        i64::from_value(&Value::from(9223372036854775807u64)),
        Some(i64::MAX)
    );
    assert_eq!(i64::from_value(&Value::from(9223372036854775808u64)), None);
}

#[test]
fn decoding_refuses_another_shape() {
    assert_eq!(bool::from_value(&Value::from(1)), None);
    assert_eq!(bool::from_value(&Value::Nil), None);
    assert_eq!(i32::from_value(&Value::Boolean(true)), None);
    assert_eq!(i32::from_value(&Value::from("1")), None);
    assert_eq!(i32::from_value(&Value::F64(1.0)), None);
    assert_eq!(u32::from_value(&Value::F32(1.0)), None);
    assert_eq!(u8::from_value(&Value::Binary(vec![1])), None);
    assert_eq!(String::from_value(&Value::from(1)), None);
    assert_eq!(String::from_value(&Value::Binary(vec![104, 105])), None);
    assert_eq!(String::from_value(&Value::Nil), None);
    assert_eq!(Vec::<i32>::from_value(&Value::from(1)), None);
    assert_eq!(Vec::<i32>::from_value(&Value::Map(vec![])), None);
    assert_eq!(Vec::<u8>::from_value(&Value::Binary(vec![1, 2])), None);
}

#[test]
fn array_decodes_wholly_or_not_at_all() {
    let bad = Value::Array(vec![Value::from(1), Value::from(2), Value::from("oops")]);
    assert_eq!(Vec::<i32>::from_value(&bad), None);
    let good = Value::Array(vec![Value::from(1), Value::from(2), Value::from(3)]);
    assert_eq!(Vec::<i32>::from_value(&good), Some(vec![1, 2, 3]));
    let first_bad = Value::Array(vec![Value::Nil, Value::from(2)]);
    assert_eq!(Vec::<i32>::from_value(&first_bad), None);
    let too_wide = Value::Array(vec![Value::from(1), Value::from(70000)]);
    assert_eq!(Vec::<u16>::from_value(&too_wide), None);
    assert_eq!(Vec::<u32>::from_value(&too_wide), Some(vec![1, 70000]));
}

#[test]
fn empty_array_decodes_to_an_empty_list() {
    let empty = Value::Array(vec![]);
    assert_eq!(Vec::<bool>::from_value(&empty), Some(vec![]));
    assert_eq!(Vec::<String>::from_value(&empty), Some(vec![]));
    assert_eq!(Vec::<u64>::new().into_value(), Value::Array(vec![]));
}

#[test]
fn lists_are_encoded_in_order() {
    assert_eq!(
        vec![3i32, -1, 2].into_value(),
        Value::Array(vec![Value::from(3), Value::from(-1), Value::from(2)])
    );
    assert_eq!(
        vec![true, false].into_value(),
        Value::Array(vec![Value::Boolean(true), Value::Boolean(false)])
    );
    assert_eq!(
        vec!["a".to_string(), "b".to_string()].into_value(),
        Value::Array(vec![Value::from("a"), Value::from("b")])
    );
    assert_eq!(
        vec![1u8, 2].into_value(),
        Value::Array(vec![Value::from(1), Value::from(2)])
    );
}

#[test]
fn lists_come_back_from_their_encoding() {
    let flags = vec![true, false, true];
    assert_eq!(Vec::<bool>::from_value(&flags.clone().into_value()), Some(flags));
    let numbers = vec![i64::MIN, -1, 0, i64::MAX];
    assert_eq!(
        Vec::<i64>::from_value(&numbers.clone().into_value()),
        Some(numbers)
    );
    let big = vec![0, u64::MAX];
    assert_eq!(Vec::<u64>::from_value(&big.clone().into_value()), Some(big));
    let words = vec!["x".to_string(), String::new(), "héllo".to_string()];
    assert_eq!(
        Vec::<String>::from_value(&words.clone().into_value()),
        Some(words)
    );
}

#[test]
fn raw_data_travels_as_an_array_of_integers() {
    let wire = RawData(vec![0, 1, 255]).into_value();
    assert_eq!(
        wire,
        Value::Array(vec![Value::from(0), Value::from(1), Value::from(255)])
    );
    assert_eq!(wire.as_array().unwrap().len(), 3);
    assert_eq!(RawData::from_value(&wire).unwrap().0, vec![0, 1, 255]);
    let too_big = Value::Array(vec![Value::from(0), Value::from(256)]);
    assert!(RawData::from_value(&too_big).is_none());
    assert!(RawData::from_value(&Value::Binary(vec![0, 1])).is_none());
}

#[test]
fn rpc_and_protobuf_travel_as_raw_data_does() {
    let wire = Rpc(vec![7, 8]).into_value();
    assert_eq!(wire, Value::Array(vec![Value::from(7), Value::from(8)]));
    assert_eq!(Rpc::from_value(&wire).unwrap().0, vec![7, 8]);
    let wire = Protobuf(vec![9]).into_value();
    assert_eq!(wire, Value::Array(vec![Value::from(9)]));
    assert_eq!(Protobuf::from_value(&wire).unwrap().0, vec![9]);
    let bad = Value::Array(vec![Value::from(-1)]);
    assert!(Rpc::from_value(&bad).is_none());
    assert!(Protobuf::from_value(&bad).is_none());
}

#[test]
fn json_travels_as_a_text() {
    let wire = JsonString("{\"a\":1}".to_string()).into_value();
    assert_eq!(wire, Value::from("{\"a\":1}"));
    assert_eq!(JsonString::from_value(&wire).unwrap().0, "{\"a\":1}");
    assert!(JsonString::from_value(&Value::from(1)).is_none());
}

#[test]
fn opaque_value_travels_as_itself() {
    let value = Value::Map(vec![(Value::from("k"), Value::F64(1.5))]);
    assert_eq!(Value::from_value(&value), Some(value.clone()));
    assert_eq!(value.clone().into_value(), value);
    assert_eq!(Value::from_value(&Value::Nil), Some(Value::Nil));
}

#[test]
fn every_type_names_its_kind() {
    assert_eq!(bool::data_type(), DataType::Boolean);
    assert_eq!(i8::data_type(), DataType::Int);
    assert_eq!(i16::data_type(), DataType::Int);
    assert_eq!(i32::data_type(), DataType::Int);
    assert_eq!(i64::data_type(), DataType::Int);
    assert_eq!(u8::data_type(), DataType::Int);
    assert_eq!(u16::data_type(), DataType::Int);
    assert_eq!(u32::data_type(), DataType::Int);
    assert_eq!(u64::data_type(), DataType::Int);
    assert_eq!(String::data_type(), DataType::String);
    assert_eq!(JsonString::data_type(), DataType::Json);
    assert_eq!(RawData::data_type(), DataType::Raw);
    assert_eq!(Rpc::data_type(), DataType::Rpc);
    assert_eq!(Protobuf::data_type(), DataType::Protobuf);
    assert_eq!(Value::data_type(), DataType::Msgpack);
}

#[test]
fn every_list_names_its_kind() {
    assert_eq!(Vec::<bool>::data_type(), DataType::BooleanArray);
    assert_eq!(Vec::<i8>::data_type(), DataType::IntArray);
    assert_eq!(Vec::<i16>::data_type(), DataType::IntArray);
    assert_eq!(Vec::<i32>::data_type(), DataType::IntArray);
    assert_eq!(Vec::<i64>::data_type(), DataType::IntArray);
    assert_eq!(Vec::<u8>::data_type(), DataType::IntArray);
    assert_eq!(Vec::<u16>::data_type(), DataType::IntArray);
    assert_eq!(Vec::<u32>::data_type(), DataType::IntArray);
    assert_eq!(Vec::<u64>::data_type(), DataType::IntArray);
    assert_eq!(Vec::<String>::data_type(), DataType::StringArray);
    assert_eq!(bool::array_type(), DataType::BooleanArray);
    assert_eq!(String::array_type(), DataType::StringArray);
}

#[test]
fn wrappers_give_their_contents_back() {
    let text: String = JsonString("[]".to_string()).into();
    assert_eq!(text, "[]");
    let bytes: Vec<u8> = RawData(vec![1, 2]).into();
    assert_eq!(bytes, vec![1, 2]);
    let bytes: Vec<u8> = Rpc::from(vec![3]).into();
    assert_eq!(bytes, vec![3]);
    let bytes: Vec<u8> = Protobuf::from(vec![4, 5]).into();
    assert_eq!(bytes, vec![4, 5]);
    assert_eq!(JsonString::from("{}".to_string()).0, "{}");
    assert_eq!(RawData::from(vec![9]).0, vec![9]);
}

#[test]
fn wrappers_compare_by_their_contents() {
    assert_eq!(RawData(vec![1, 2]), RawData(vec![1, 2]));
    assert_ne!(RawData(vec![1, 2]), RawData(vec![1, 3]));
    assert_ne!(RawData(vec![1, 2]), RawData(vec![1]));
    assert_eq!(Rpc(vec![]), Rpc(vec![]));
    assert_ne!(Protobuf(vec![0]), Protobuf(vec![]));
    assert_eq!(JsonString("{}".to_string()), JsonString("{}".to_string()));
    assert_ne!(JsonString("{}".to_string()), JsonString("[]".to_string()));
}

#[test]
fn byte_wrappers_are_built_byte_by_byte() {
    let mut data = RawData::new();
    assert_eq!(data, RawData(vec![]));
    for byte in [0u8, 1, 255] {
        data.push(byte);
    }
    assert_eq!(data, RawData(vec![0, 1, 255]));
    let mut call = Rpc::new();
    call.push(7);
    assert_eq!(call, Rpc(vec![7]));
    let mut message = Protobuf::new();
    message.push(8);
    message.push(9);
    assert_eq!(message, Protobuf(vec![8, 9]));
    assert_eq!(RawData::from_value(&data.clone().into_value()), Some(data));
}

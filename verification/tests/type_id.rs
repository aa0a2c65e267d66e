use dash89::data_type::DataType;
use dash89::type_id::{DataTypeVisitor, InvalidTypeId};

#[test]
fn unknown_id_is_refused_by_name() {
    let refused = DataTypeVisitor.visit_u64(99).unwrap_err();
    assert_eq!(refused, InvalidTypeId { id: 99 });
    assert_eq!(refused.message(), "99 is not a valid type id");
    assert!(refused.message().contains("99"));
}

#[test]
fn known_ids_are_read_from_either_sign() {
    for id in [0u32, 1, 2, 3, 4, 5, 16, 17, 18, 19, 20] {
        let kind = DataType::from_id(id).unwrap();
        assert_eq!(DataTypeVisitor.visit_u64(id as u64), Ok(kind.clone()));
        assert_eq!(DataTypeVisitor.visit_i64(id as i64), Ok(kind));
    }
    assert_eq!(DataTypeVisitor.visit_u64(4), Ok(DataType::String));
    assert_eq!(DataTypeVisitor.visit_i64(5), Ok(DataType::Raw));
}

#[test]
fn negative_id_is_refused() {
    let refused = DataTypeVisitor.visit_i64(-1).unwrap_err();
    assert_eq!(refused.id, -1);
    assert_eq!(refused.message(), "-1 is not a valid type id");
    let refused = DataTypeVisitor.visit_i64(i64::MIN).unwrap_err();
    assert_eq!(
        refused.message(),
        "-9223372036854775808 is not a valid type id"
    );
}

#[test]
fn id_beyond_32_bits_is_refused() {
    let refused = DataTypeVisitor.visit_u64(4294967296).unwrap_err();
    assert_eq!(refused.id, 4294967296);
    assert_eq!(refused.message(), "4294967296 is not a valid type id");
    let refused = DataTypeVisitor.visit_u64(u64::MAX).unwrap_err();
    assert_eq!(
        refused.message(),
        "18446744073709551615 is not a valid type id"
    );
    let refused = DataTypeVisitor.visit_i64(4294967296 + 4).unwrap_err();
    assert_eq!(refused.id, 4294967300);
}

#[test]
fn the_id_without_a_kind_is_refused() {
    let refused = DataTypeVisitor.visit_u64(4294967295).unwrap_err();
    assert_eq!(refused.message(), "4294967295 is not a valid type id");
    assert!(DataTypeVisitor.visit_u64(6).is_err());
    assert!(DataTypeVisitor.visit_i64(21).is_err());
}

#[test]
fn message_writes_every_digit() {
    assert_eq!(
        InvalidTypeId { id: 0 }.message(),
        "0 is not a valid type id"
    );
    assert_eq!(
        InvalidTypeId { id: 1234567890 }.message(),
        "1234567890 is not a valid type id"
    );
    assert_eq!(
        InvalidTypeId { id: i128::MIN }.message(),
        format!("{} is not a valid type id", i128::MIN)
    );
    assert_eq!(
        InvalidTypeId { id: i128::MAX }.message(),
        format!("{} is not a valid type id", i128::MAX)
    );
}

#[test]
fn visitor_says_what_it_expects() {
    assert_eq!(DataTypeVisitor.expecting(), "a valid type id");
}

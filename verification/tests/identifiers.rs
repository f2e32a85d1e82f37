use chatapp::adapters::{IdType, ObjectId};

#[test]
fn object_id_reads_its_own_text() {
    let id = ObjectId::parse_str("53e37d08776f724e42000000").unwrap();
    assert_eq!(id.bytes, [0x53, 0xe3, 0x7d, 0x08, 0x77, 0x6f, 0x72, 0x4e, 0x42, 0x00, 0x00, 0x00]);
    assert_eq!(id.to_hex(), "53e37d08776f724e42000000");
    assert_eq!(IdType::ObjectId(id).to_string(), "53e37d08776f724e42000000");
}

#[test]
fn object_id_text_is_lower_case_and_reads_either_case() {
    let id = ObjectId { bytes: [0xAB, 0xCD, 0xEF, 0x01, 0x23, 0x45, 0x67, 0x89, 0x0a, 0xff, 0x10, 0x00] };
    assert_eq!(id.to_hex(), "abcdef01234567890aff1000");
    assert_eq!(ObjectId::parse_str("ABCDEF01234567890AFF1000"), Some(id));
    assert_eq!(ObjectId::parse_str("abCDef01234567890aFf1000"), Some(id));
    assert_eq!(ObjectId::parse_str(&id.to_hex()), Some(id));
}

#[test]
fn object_id_refuses_what_is_not_24_hex_digits() {
    assert_eq!(ObjectId::parse_str(""), None);
    assert_eq!(ObjectId::parse_str("53e37d08776f724e4200000"), None);
    assert_eq!(ObjectId::parse_str("53e37d08776f724e420000000"), None);
    assert_eq!(ObjectId::parse_str("53e37d08776f724e4200000000"), None);
    assert_eq!(ObjectId::parse_str("53e37d08776f724e4200000g"), None);
    assert_eq!(ObjectId::parse_str("53e37d08776f724e4200000 "), None);
    assert_eq!(ObjectId::parse_str("jon@winterfell.com"), None);
    assert_eq!(ObjectId::parse_str("53e37d08776f724e42000\u{e9}0"), None);
}

#[test]
fn fresh_object_ids_differ() {
    let a = ObjectId::new();
    let b = ObjectId::new();
    assert_ne!(a, b);
    assert_eq!(a, a.clone());
}

#[test]
fn identifiers_are_equal_by_kind_and_value() {
    let native = ObjectId::parse_str("53e37d08776f724e42000000").unwrap();
    let other = ObjectId::parse_str("53e37d08776f724e42000001").unwrap();
    assert_eq!(IdType::ObjectId(native), IdType::ObjectId(native));
    assert_ne!(IdType::ObjectId(native), IdType::ObjectId(other));
    assert_eq!(IdType::String("jon".to_string()), IdType::String("jon".to_string()));
    assert_ne!(IdType::String("jon".to_string()), IdType::String("arya".to_string()));
    assert_ne!(
        IdType::String("53e37d08776f724e42000000".to_string()),
        IdType::ObjectId(native)
    );
    assert_eq!(IdType::ObjectId(native).clone(), IdType::ObjectId(native));
    assert_eq!(IdType::String("jon".to_string()).clone(), IdType::String("jon".to_string()));
}

#[test]
fn identifier_text_and_native_form() {
    let native = ObjectId::parse_str("53e37d08776f724e42000000").unwrap();
    assert_eq!(IdType::String("jon".to_string()).to_string(), "jon");
    assert_eq!(IdType::String("jon".to_string()).to_object_id(), None);
    assert_eq!(
        IdType::String("53E37D08776F724E42000000".to_string()).to_object_id(),
        Some(native)
    );
    assert_eq!(IdType::ObjectId(native).to_object_id(), Some(native));
    let text = IdType::String(IdType::ObjectId(native).to_string());
    assert_eq!(text.to_object_id(), Some(native));
}

use polodb_python::object_id::ObjectId;

#[test]
fn parse_lower_case_hex() {
    let id = ObjectId::parse("53e37d08776f724e42000000").ok().unwrap();
    assert_eq!(
        id.bytes(),
        [0x53, 0xe3, 0x7d, 0x08, 0x77, 0x6f, 0x72, 0x4e, 0x42, 0x00, 0x00, 0x00]
    );
}

#[test]
fn parse_upper_case_hex() {
    let id = ObjectId::parse("53E37D08776F724E42000000").ok().unwrap();
    assert_eq!(id.hex(), "53e37d08776f724e42000000");
}

#[test]
fn parse_rejects_wrong_length() {
    assert!(ObjectId::parse("53e37d08776f724e420000").is_err());
    assert!(ObjectId::parse("53e37d08776f724e4200000000").is_err());
    assert!(ObjectId::parse("").is_err());
    assert!(ObjectId::parse("53e37d08776f724e4200000").is_err());
}

#[test]
fn parse_rejects_non_hex_character() {
    let error = ObjectId::parse("53e37d08776f724e4200000g").err().unwrap();
    assert!(error.message.contains("invalid character 'g'"));
    assert!(ObjectId::parse("53e37d08776f724e4200000é").is_err());
}

#[test]
fn hex_of_bytes() {
    let id = ObjectId::from_bytes([0, 1, 2, 3, 4, 5, 6, 7, 8, 9, 0xab, 0xff]);
    assert_eq!(id.hex(), "00010203040506070809abff");
}

#[test]
fn repr_shows_hex() {
    let id = ObjectId::from_bytes([0xde, 0xad, 0xbe, 0xef, 0, 0, 0, 0, 0, 0, 0, 1]);
    assert_eq!(id.repr(), "ObjectId('deadbeef0000000000000001')");
}

#[test]
fn generated_id_round_trips_through_hex() {
    let id = ObjectId::new(None).ok().unwrap();
    let same = ObjectId::new(Some(id.hex().as_str())).ok().unwrap();
    assert!(id.same_as(&same));
    assert_eq!(id.bytes(), same.bytes());
}

#[test]
fn generated_ids_differ() {
    let a = ObjectId::generate();
    let b = ObjectId::generate();
    assert!(!a.same_as(&b));
}

#[test]
fn new_with_text_parses() {
    assert!(ObjectId::new(Some("not an id")).is_err());
    let id = ObjectId::new(Some("000000000000000000000000")).ok().unwrap();
    assert_eq!(id.bytes(), [0u8; 12]);
}

#[test]
fn same_as_compares_bytes() {
    let a = ObjectId::from_bytes([1; 12]);
    let mut bytes = [1u8; 12];
    bytes[11] = 2;
    let b = ObjectId::from_bytes(bytes);
    assert!(a.same_as(&a));
    assert!(!a.same_as(&b));
}

#[test]
fn invalid_text_gets_bson_message() {
    for text in ["not-an-object-id", "", "507f1f77bcf86cd79943901", "507f1f77bcf86cd79943901100"] {
        let expected = bson::oid::ObjectId::parse_str(text).unwrap_err().to_string();
        let error = ObjectId::new(Some(text)).err().unwrap();
        assert_eq!(error.message, expected);
        assert!(!error.message.is_empty());
    }
}

#[test]
fn length_message_names_the_text() {
    let error = ObjectId::parse("507f1f77bcf86cd79943901").err().unwrap();
    assert!(error.message.contains("must be exactly 12 bytes"));
    assert!(error.message.contains("\"507f1f77bcf86cd79943901\""));
}

#[test]
fn from_parsed_keeps_bytes_and_message() {
    let id = ObjectId::from_parsed(Ok([7; 12])).ok().unwrap();
    assert_eq!(id.bytes(), [7; 12]);
    let error = ObjectId::from_parsed(Err("bad".to_string())).err().unwrap();
    assert_eq!(error.message, "bad");
}

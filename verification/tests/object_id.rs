use crud_toy::repository::mongo::object_id::ObjectId;

#[test]
fn hex_round_trip() {
    let bytes: Vec<u8> = vec![0, 1, 2, 3, 4, 5, 6, 7, 8, 9, 250, 255];
    let oid = ObjectId::new(bytes.clone());
    let hex = oid.to_hex();
    assert_eq!(hex, "00010203040506070809faff");
    assert_eq!(hex.len(), 24);
    let back = ObjectId::from_hex(&hex).unwrap();
    assert_eq!(back.bytes(), &bytes);
}

#[test]
fn to_hex_is_lowercase() {
    let oid = ObjectId::new(vec![0xAB, 0xCD, 0xEF, 0, 0, 0, 0, 0, 0, 0, 0, 0x1A]);
    assert_eq!(oid.to_hex(), "abcdef00000000000000001a");
}

#[test]
fn from_hex_accepts_both_cases() {
    let lower = ObjectId::from_hex("abcdef00000000000000001a").unwrap();
    let upper = ObjectId::from_hex("ABCDEF00000000000000001A").unwrap();
    assert_eq!(lower, upper);
}

#[test]
fn from_hex_rejects_bad_input() {
    assert!(ObjectId::from_hex("").is_none());
    assert!(ObjectId::from_hex("abc").is_none());
    assert!(ObjectId::from_hex("abcdef00000000000000001").is_none());
    assert!(ObjectId::from_hex("abcdef00000000000000001a0").is_none());
    assert!(ObjectId::from_hex("zzcdef00000000000000001a").is_none());
    assert!(ObjectId::from_hex("abcdef0000000000000000g1").is_none());
}

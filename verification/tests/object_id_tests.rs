use mongodb::bson::oid::ObjectId;
use rust_web_starter::users::object_id::{object_ids_match, valid_object_id};

#[test]
fn valid_object_id_accepts_24_hex_digits() {
    assert!(valid_object_id("0123456789abcdef01234567"));
    assert!(valid_object_id("0123456789ABCDEF01234567"));
    assert!(valid_object_id("AbCdEf0123456789aBcDeF01"));
}

#[test]
fn valid_object_id_rejects_other_shapes() {
    assert!(!valid_object_id(""));
    assert!(!valid_object_id("0123456789abcdef0123456"));
    assert!(!valid_object_id("0123456789abcdef012345678"));
    assert!(!valid_object_id("0123456789abcdefg1234567"));
    assert!(!valid_object_id("not an identifier at all"));
}

#[test]
fn object_ids_match_is_case_insensitive() {
    assert!(object_ids_match(
        "0123456789abcdef01234567",
        "0123456789ABCDEF01234567"
    ));
    assert!(object_ids_match(
        "aAbBcCdDeEfF000011112222",
        "AaBbCcDdEeFf000011112222"
    ));
    assert!(!object_ids_match(
        "0123456789abcdef01234567",
        "0123456789abcdef01234568"
    ));
    assert!(!object_ids_match("0123", "0123456789abcdef01234567"));
}

#[test]
fn validity_agrees_with_the_store_parser() {
    for s in [
        "0123456789abcdef01234567",
        "0123456789ABCDEF01234567",
        "0123456789abcdef0123456",
        "0123456789abcdefg1234567",
        "",
        "zzz",
    ] {
        assert_eq!(
            valid_object_id(s),
            ObjectId::parse_str(s).is_ok(),
            "disagreement on {:?}",
            s
        );
    }
}

#[test]
fn generated_identifiers_are_canonical() {
    let id = ObjectId::new().to_hex();
    assert!(valid_object_id(&id));
    assert_eq!(id, id.to_lowercase());
    let upper = id.to_uppercase();
    assert!(object_ids_match(&id, &upper));
    assert_eq!(ObjectId::parse_str(&upper).unwrap().to_hex(), id);
}

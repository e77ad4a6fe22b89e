use user_service::object_id::UserId;
use user_service::outcome::ApiError;

#[test]
fn parse_well_formed_lower_case() {
    let id = UserId::parse_str("00112233445566778899aabb").unwrap();
    let expected: Vec<u8> = vec![
        0x00, 0x11, 0x22, 0x33, 0x44, 0x55, 0x66, 0x77, 0x88, 0x99, 0xaa, 0xbb,
    ];
    for (i, b) in expected.iter().enumerate() {
        assert_eq!(id.byte_at(i), *b);
    }
}

#[test]
fn parse_accepts_upper_case() {
    let lower = UserId::parse_str("00112233445566778899aabb").unwrap();
    let upper = UserId::parse_str("00112233445566778899AABB").unwrap();
    assert!(lower.matches(&upper));
}

#[test]
fn parse_rejects_non_hex_characters() {
    let r = UserId::parse_str("zz112233445566778899aabb");
    assert_eq!(r.err(), Some(ApiError::ClientError));
}

#[test]
fn parse_rejects_wrong_length() {
    assert_eq!(UserId::parse_str("").err(), Some(ApiError::ClientError));
    assert_eq!(UserId::parse_str("abc").err(), Some(ApiError::ClientError));
    assert_eq!(
        UserId::parse_str("00112233445566778899aab").err(),
        Some(ApiError::ClientError)
    );
    assert_eq!(
        UserId::parse_str("00112233445566778899aabbc").err(),
        Some(ApiError::ClientError)
    );
}

#[test]
fn hex_round_trips_through_string_form() {
    let id = UserId::parse_str("0123456789abcdef01234567").unwrap();
    let s = id.to_hex();
    assert_eq!(s, "0123456789abcdef01234567");
    let back = UserId::parse_str(&s).unwrap();
    assert!(id.matches(&back));
}

#[test]
fn to_hex_emits_lower_case() {
    let id = UserId::parse_str("0123456789ABCDEF01234567").unwrap();
    assert_eq!(id.to_hex(), "0123456789abcdef01234567");
}

#[test]
fn from_bytes_demands_twelve_bytes() {
    assert!(UserId::from_bytes(vec![1, 2, 3]).is_none());
    let id = UserId::from_bytes(vec![0, 0, 0, 0, 0, 0, 0, 0, 0, 0, 0, 7]).unwrap();
    assert_eq!(id.to_hex(), "000000000000000000000007");
}

#[test]
fn duplicate_keeps_the_bytes() {
    let id = UserId::parse_str("00112233445566778899aabb").unwrap();
    let copy = id.duplicate();
    assert!(id.matches(&copy));
    assert_eq!(copy.to_hex(), "00112233445566778899aabb");
}

#[test]
fn matches_tells_identifiers_apart() {
    let a = UserId::parse_str("00112233445566778899aabb").unwrap();
    let b = UserId::parse_str("00112233445566778899aabc").unwrap();
    assert!(!a.matches(&b));
}

use ble_peripheral_rust::uuid::{ShortUuid, Uuid, UuidExtension, BLUETOOTH_BASE_UUID};

#[test]
fn base_uuid_value() {
    assert_eq!(BLUETOOTH_BASE_UUID, 0x00000000_0000_1000_8000_00805F9B34FB_u128);
}

#[test]
fn from_short_expands_into_base() {
    let u = Uuid::from_short(0x2A3D_u16);
    assert_eq!(u.as_u128(), 0x00002A3D_0000_1000_8000_00805F9B34FB_u128);
}

#[test]
fn from_short_zero_is_base() {
    let u = Uuid::from_short(0);
    assert_eq!(u.as_u128(), BLUETOOTH_BASE_UUID);
}

#[test]
fn from_string_hyphenated() {
    let u = Uuid::from_string("00002a3d-0000-1000-8000-00805f9b34fb");
    assert_eq!(u.as_u128(), 0x00002A3D_0000_1000_8000_00805F9B34FB_u128);
}

#[test]
fn from_string_hyphenated_uppercase() {
    let u = Uuid::from_string("00002A3D-0000-1000-8000-00805F9B34FB");
    assert_eq!(u.as_u128(), 0x00002A3D_0000_1000_8000_00805F9B34FB_u128);
}

#[test]
fn from_string_simple_form() {
    let u = Uuid::from_string("0123456789abcdef0123456789abcdef");
    assert_eq!(u.as_u128(), 0x0123456789abcdef0123456789abcdef_u128);
}

#[test]
fn from_string_short_four_digits() {
    let u = Uuid::from_string("1209");
    assert_eq!(u.as_u128(), 0x00001209_0000_1000_8000_00805F9B34FB_u128);
}

#[test]
fn from_string_short_eight_digits() {
    let u = Uuid::from_string("00112233");
    assert_eq!(u.as_u128(), 0x00112233_0000_1000_8000_00805F9B34FB_u128);
}

#[test]
fn parse_str_matches_from_string() {
    let p = Uuid::parse_str("180d").unwrap();
    assert_eq!(p, Uuid::from_short(0x180d_u16));
}

#[test]
fn parse_str_rejects_bad_input() {
    assert!(Uuid::parse_str("").is_none());
    assert!(Uuid::parse_str("xyz").is_none());
    assert!(Uuid::parse_str("123").is_none());
    assert!(Uuid::parse_str("12345").is_none());
    assert!(Uuid::parse_str("00002a3d+0000-1000-8000-00805f9b34fb").is_none());
    assert!(Uuid::parse_str("00002a3d-0000-1000-8000-00805f9b34fg").is_none());
    assert!(Uuid::parse_str("0123456789abcdef0123456789abcde").is_none());
}

#[test]
fn nil_is_zero() {
    assert_eq!(Uuid::nil().as_u128(), 0);
}

#[test]
fn from_u128_round_trip() {
    let u = Uuid::from_u128(42);
    assert_eq!(u.as_u128(), 42);
}

#[test]
fn get_uuid_from_raw_bits() {
    let u = 0x00002A3D_0000_1000_8000_00805F9B34FB_u128.get_uuid();
    assert_eq!(u, Uuid::from_short(0x2A3D_u16));
}

#[test]
fn to_hyphenated_string_round_trips() {
    let u = Uuid::from_short(0x2A3D_u16);
    let s = u.to_hyphenated_string();
    assert_eq!(s.as_str(), "00002a3d-0000-1000-8000-00805f9b34fb");
    assert_eq!(Uuid::parse_str(&s).unwrap(), u);
}

#[test]
fn to_hyphenated_string_of_nil() {
    assert_eq!(
        Uuid::nil().to_hyphenated_string().as_str(),
        "00000000-0000-0000-0000-000000000000"
    );
}

#[test]
fn to_hyphenated_string_uses_lowercase_digits() {
    let u = Uuid::from_u128(0x0123456789ABCDEF_0123456789ABCDEF_u128);
    assert_eq!(
        u.to_hyphenated_string().as_str(),
        "01234567-89ab-cdef-0123-456789abcdef"
    );
}

#[test]
fn as_fields_splits_the_bits() {
    let u = Uuid::from_u128(0x00002A3D_0000_1000_8000_00805F9B34FB_u128);
    let (d1, d2, d3, d4) = u.as_fields();
    assert_eq!(d1, 0x00002A3D);
    assert_eq!(d2, 0x0000);
    assert_eq!(d3, 0x1000);
    assert_eq!(d4, [0x80, 0x00, 0x00, 0x80, 0x5F, 0x9B, 0x34, 0xFB]);
}

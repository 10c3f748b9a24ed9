use ble_peripheral_rust::peripheral::client_id::device_id_from_full_id;

#[test]
fn takes_the_tail_after_the_last_dash() {
    let id = device_id_from_full_id("Bluetooth#Bluetooth00:11:22:33:44:55-aa:bb:cc:dd:ee:ff");
    assert_eq!(id.as_str(), "aa:bb:cc:dd:ee:ff");
}

#[test]
fn keeps_an_identifier_without_a_dash() {
    assert_eq!(device_id_from_full_id("client7").as_str(), "client7");
}

#[test]
fn multiple_dashes_use_the_last_one() {
    assert_eq!(device_id_from_full_id("a-b-c").as_str(), "c");
}

#[test]
fn trailing_dash_leaves_nothing() {
    assert_eq!(device_id_from_full_id("abc-").as_str(), "");
    assert_eq!(device_id_from_full_id("").as_str(), "");
}

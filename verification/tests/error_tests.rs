use ble_peripheral_rust::error::{Error, ErrorType};

#[test]
fn new_keeps_name_and_description() {
    let e = Error::new("Adapter", "not found", ErrorType::Bluez);
    assert_eq!(e.name().as_str(), "Adapter");
    assert_eq!(e.description().as_str(), "not found");
    assert_eq!(e.error_type(), ErrorType::Bluez);
}

#[test]
fn from_type_uses_the_subsystem_message() {
    let e = Error::from_type(ErrorType::PermissionDenied);
    assert_eq!(e.name().as_str(), "<BlePeripheralRust PermissionDenied Error>");
    assert_eq!(e.description().as_str(), "<BlePeripheralRust PermissionDenied Error>");
    assert_eq!(e.error_type(), ErrorType::PermissionDenied);
}

#[test]
fn from_string_keeps_the_description() {
    let e = Error::from_string(String::from("adapter gone"), ErrorType::ChannelError);
    assert_eq!(e.name().as_str(), "<BlePeripheralRust ChannelError Error>");
    assert_eq!(e.description().as_str(), "adapter gone");
    assert_eq!(e.error_type(), ErrorType::ChannelError);
}

#[test]
fn combined_description_joins_name_and_description() {
    let e = Error::new("Adapter", "not found", ErrorType::Windows);
    assert_eq!(e.combined_description().as_str(), "Adapter: not found");
}

#[test]
fn subsystem_names() {
    assert_eq!(ErrorType::Bluez.as_str(), "Bluez");
    assert_eq!(ErrorType::CoreBluetooth.as_str(), "CoreBluetooth");
    assert_eq!(ErrorType::Windows.as_str(), "Windows");
    assert_eq!(ErrorType::PermissionDenied.as_str(), "PermissionDenied");
    assert_eq!(ErrorType::ChannelError.as_str(), "ChannelError");
}

#[test]
fn subsystem_message_form() {
    assert_eq!(ErrorType::Bluez.to_message().as_str(), "<BlePeripheralRust Bluez Error>");
}

use ble_peripheral_rust::gatt::peripheral_event::RequestResponse;
use ble_peripheral_rust::peripheral::codes::ReqError;

const ALL_OUTCOMES: [RequestResponse; 5] = [
    RequestResponse::Success,
    RequestResponse::InvalidHandle,
    RequestResponse::RequestNotSupported,
    RequestResponse::InvalidOffset,
    RequestResponse::UnlikelyError,
];

#[test]
fn corebluetooth_table() {
    assert_eq!(RequestResponse::Success.to_cb_error(), 0);
    assert_eq!(RequestResponse::InvalidHandle.to_cb_error(), 1);
    assert_eq!(RequestResponse::RequestNotSupported.to_cb_error(), 6);
    assert_eq!(RequestResponse::InvalidOffset.to_cb_error(), 7);
    assert_eq!(RequestResponse::UnlikelyError.to_cb_error(), 14);
}

#[test]
fn windows_table() {
    assert_eq!(RequestResponse::Success.to_gatt_protocol_error(), 0);
    assert_eq!(RequestResponse::InvalidHandle.to_gatt_protocol_error(), 1);
    assert_eq!(RequestResponse::RequestNotSupported.to_gatt_protocol_error(), 6);
    assert_eq!(RequestResponse::InvalidOffset.to_gatt_protocol_error(), 7);
    assert_eq!(RequestResponse::UnlikelyError.to_gatt_protocol_error(), 14);
}

#[test]
fn bluez_table() {
    assert_eq!(RequestResponse::Success.to_req_err(), None);
    assert_eq!(RequestResponse::InvalidHandle.to_req_err(), Some(ReqError::Failed));
    assert_eq!(RequestResponse::RequestNotSupported.to_req_err(), Some(ReqError::NotSupported));
    assert_eq!(RequestResponse::InvalidOffset.to_req_err(), Some(ReqError::InvalidOffset));
    assert_eq!(RequestResponse::UnlikelyError.to_req_err(), Some(ReqError::Failed));
}

#[test]
fn every_outcome_has_a_code_in_every_table() {
    for outcome in ALL_OUTCOMES {
        let cb = outcome.to_cb_error();
        let gatt = outcome.to_gatt_protocol_error();
        assert!(matches!(cb, 0 | 1 | 6 | 7 | 14));
        assert!(matches!(gatt, 0 | 1 | 6 | 7 | 14));
        assert_eq!(cb, gatt as i64);
        let req = outcome.to_req_err();
        assert_eq!(req.is_none(), outcome == RequestResponse::Success);
    }
}

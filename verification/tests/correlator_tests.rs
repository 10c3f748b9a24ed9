use ble_peripheral_rust::error::ErrorType;
use ble_peripheral_rust::gatt::peripheral_event::{
    PeripheralEvent, PeripheralRequest, ReadRequestResponse, RequestResponse, WriteRequestResponse,
};
use ble_peripheral_rust::peripheral::codes::ReqError;
use ble_peripheral_rust::peripheral::correlator::{
    bluez_read_reply, bluez_write_reply, cb_read_ack, cb_write_ack, make_read_request,
    make_write_request, read_reply_outcome, winrt_read_reply, winrt_write_reply,
    write_reply_outcome, Responder,
};
use ble_peripheral_rust::uuid::{ShortUuid, Uuid};

fn request() -> PeripheralRequest {
    PeripheralRequest {
        client: String::from("client-1"),
        service: Uuid::from_short(0x1234_u16),
        characteristic: Uuid::from_short(0x2A3D_u16),
    }
}

#[test]
fn responder_resolves_once_and_delivers() {
    let (mut responder, mut rx) = Responder::<WriteRequestResponse>::new();
    let first = responder.resolve(WriteRequestResponse { response: RequestResponse::Success });
    assert!(first.is_ok());
    let got = rx.try_recv().unwrap();
    assert_eq!(got.response, RequestResponse::Success);
}

#[test]
fn responder_rejects_second_resolution() {
    let (mut responder, mut rx) = Responder::<WriteRequestResponse>::new();
    assert!(responder.resolve(WriteRequestResponse { response: RequestResponse::Success }).is_ok());
    let second =
        responder.resolve(WriteRequestResponse { response: RequestResponse::InvalidOffset });
    let err = second.unwrap_err();
    assert_eq!(err.error_type(), ErrorType::ChannelError);
    // The receiver still saw exactly the first acknowledgment.
    let got = rx.try_recv().unwrap();
    assert_eq!(got.response, RequestResponse::Success);
    assert!(rx.try_recv().is_err());
}

#[test]
fn responder_resolution_survives_dropped_receiver() {
    let (mut responder, rx) = Responder::<WriteRequestResponse>::new();
    drop(rx);
    // Resolving still counts as the single resolution; nothing panics.
    assert!(responder.resolve(WriteRequestResponse { response: RequestResponse::Success }).is_ok());
    assert!(
        responder.resolve(WriteRequestResponse { response: RequestResponse::Success }).is_err()
    );
}

#[test]
fn make_read_request_builds_the_correlated_event() {
    let (event, mut rx) = make_read_request(request(), 4);
    match event {
        PeripheralEvent::ReadRequest { request: q, offset, mut responder } => {
            assert_eq!(q.client.as_str(), "client-1");
            assert_eq!(q.service, Uuid::from_short(0x1234_u16));
            assert_eq!(q.characteristic, Uuid::from_short(0x2A3D_u16));
            assert_eq!(offset, 4);
            let sent = responder.resolve(ReadRequestResponse {
                value: vec![7, 8],
                response: RequestResponse::Success,
            });
            assert!(sent.is_ok());
        }
        _ => panic!("expected a read request event"),
    }
    let got = rx.try_recv().unwrap();
    assert_eq!(got.value, vec![7, 8]);
    assert_eq!(got.response, RequestResponse::Success);
}

#[test]
fn make_write_request_builds_the_correlated_event() {
    let (event, mut rx) = make_write_request(request(), vec![1, 2, 3], 0);
    match event {
        PeripheralEvent::WriteRequest { request: q, value, offset, mut responder } => {
            assert_eq!(q.client.as_str(), "client-1");
            assert_eq!(value, vec![1, 2, 3]);
            assert_eq!(offset, 0);
            assert!(responder
                .resolve(WriteRequestResponse { response: RequestResponse::InvalidOffset })
                .is_ok());
        }
        _ => panic!("expected a write request event"),
    }
    assert_eq!(rx.try_recv().unwrap().response, RequestResponse::InvalidOffset);
}

#[test]
fn dropped_read_reply_falls_back_to_unlikely_error() {
    let out = read_reply_outcome(None);
    assert_eq!(out.response, RequestResponse::UnlikelyError);
    assert!(out.value.is_empty());
}

#[test]
fn dropped_write_reply_falls_back_to_unlikely_error() {
    let out = write_reply_outcome(None);
    assert_eq!(out.response, RequestResponse::UnlikelyError);
}

#[test]
fn received_reply_passes_through() {
    let out = read_reply_outcome(Some(ReadRequestResponse {
        value: vec![9],
        response: RequestResponse::Success,
    }));
    assert_eq!(out.response, RequestResponse::Success);
    assert_eq!(out.value, vec![9]);
}

#[test]
fn cb_read_ack_success_carries_value() {
    let (code, value) = cb_read_ack(Some(ReadRequestResponse {
        value: vec![5, 6],
        response: RequestResponse::Success,
    }));
    assert_eq!(code, 0);
    assert_eq!(value, vec![5, 6]);
}

#[test]
fn cb_acks_on_dropped_slot() {
    let (code, value) = cb_read_ack(None);
    assert_eq!(code, 14);
    assert!(value.is_empty());
    assert_eq!(cb_write_ack(None), 14);
}

#[test]
fn bluez_replies() {
    let ok = bluez_read_reply(Some(ReadRequestResponse {
        value: vec![1],
        response: RequestResponse::Success,
    }));
    assert_eq!(ok.unwrap(), vec![1]);
    let rejected = bluez_read_reply(Some(ReadRequestResponse {
        value: vec![],
        response: RequestResponse::RequestNotSupported,
    }));
    assert_eq!(rejected.unwrap_err(), ReqError::NotSupported);
    assert_eq!(bluez_read_reply(None).unwrap_err(), ReqError::Failed);
    assert!(bluez_write_reply(Some(WriteRequestResponse {
        response: RequestResponse::Success
    }))
    .is_ok());
    assert_eq!(bluez_write_reply(None).unwrap_err(), ReqError::Failed);
}

#[test]
fn winrt_replies() {
    let ok = winrt_read_reply(Some(ReadRequestResponse {
        value: vec![3],
        response: RequestResponse::Success,
    }));
    assert_eq!(ok.unwrap(), vec![3]);
    let rejected = winrt_read_reply(Some(ReadRequestResponse {
        value: vec![],
        response: RequestResponse::InvalidOffset,
    }));
    assert_eq!(rejected.unwrap_err(), 7);
    assert_eq!(winrt_read_reply(None).unwrap_err(), 14);
    assert!(winrt_write_reply(Some(WriteRequestResponse {
        response: RequestResponse::Success
    }))
    .is_ok());
    assert_eq!(winrt_write_reply(None).unwrap_err(), 14);
}

use ble_peripheral_rust::error::ErrorType;
use ble_peripheral_rust::peripheral::delegate::{
    wait_timed_out, PeripheralDelegate, WaitOutcome, COMPLETION_WAIT_TIMEOUT_MS,
};
use ble_peripheral_rust::uuid::{ShortUuid, Uuid};

#[test]
fn advertisement_wait_is_unique_until_finished() {
    let mut d = PeripheralDelegate::new();
    assert!(!d.is_waiting_for_advertisement_result());
    let rx = d.begin_advertisement_wait().unwrap();
    assert!(d.is_waiting_for_advertisement_result());
    let second = d.begin_advertisement_wait();
    let err = second.unwrap_err();
    assert_eq!(err.error_type(), ErrorType::CoreBluetooth);
    assert_eq!(err.description().as_str(), "Already in progress");
    drop(rx);
    d.finish_advertisement_wait();
    assert!(!d.is_waiting_for_advertisement_result());
    assert!(d.begin_advertisement_wait().is_ok());
}

#[test]
fn advertisement_resolution_reaches_the_waiter() {
    let mut d = PeripheralDelegate::new();
    let mut rx = d.begin_advertisement_wait().unwrap();
    assert!(d.resolve_advertisement(Some(String::from("adapter off"))));
    assert!(!d.is_waiting_for_advertisement_result());
    let got = rx.try_recv().unwrap();
    assert_eq!(got.unwrap().as_str(), "adapter off");
    // With no wait in flight the resolution is a no-op.
    assert!(!d.resolve_advertisement(None));
}

#[test]
fn service_wait_is_unique_per_key() {
    let mut d = PeripheralDelegate::new();
    let svc = Uuid::from_short(0x1234_u16);
    let other = Uuid::from_short(0x5678_u16);
    assert!(!d.is_waiting_for_service_result(svc));
    let _rx = d.begin_service_wait(svc).unwrap();
    assert!(d.is_waiting_for_service_result(svc));
    let second = d.begin_service_wait(svc);
    let err = second.unwrap_err();
    assert_eq!(err.description().as_str(), "Already in progress");
    // A different key is free.
    let _rx2 = d.begin_service_wait(other).unwrap();
    assert!(d.is_waiting_for_service_result(other));
}

#[test]
fn service_key_is_reusable_after_resolution_and_after_timeout() {
    let mut d = PeripheralDelegate::new();
    let svc = Uuid::from_short(0x1234_u16);
    let mut rx = d.begin_service_wait(svc).unwrap();
    assert!(d.resolve_service(svc, None));
    assert!(!d.is_waiting_for_service_result(svc));
    assert!(rx.try_recv().unwrap().is_none());
    // Reuse after resolution.
    let rx2 = d.begin_service_wait(svc).unwrap();
    drop(rx2);
    // Timeout path: the waiting side deregisters without a resolution.
    d.finish_service_wait(svc);
    assert!(!d.is_waiting_for_service_result(svc));
    assert!(d.begin_service_wait(svc).is_ok());
}

#[test]
fn resolving_an_unknown_service_is_a_no_op() {
    let mut d = PeripheralDelegate::new();
    let svc = Uuid::from_short(0x1234_u16);
    assert!(!d.resolve_service(svc, None));
}

#[test]
fn resolve_event_maps_every_outcome() {
    let d = PeripheralDelegate::new();
    assert!(d.resolve_event(WaitOutcome::Completed(None)).is_ok());

    let backend = d.resolve_event(WaitOutcome::Completed(Some(String::from("adapter off"))));
    let err = backend.unwrap_err();
    assert_eq!(err.error_type(), ErrorType::CoreBluetooth);
    assert_eq!(err.description().as_str(), "adapter off");

    let closed = d.resolve_event(WaitOutcome::ChannelClosed).unwrap_err();
    assert_eq!(closed.description().as_str(), "Channel error while waiting");

    let timeout = d.resolve_event(WaitOutcome::TimedOut).unwrap_err();
    assert_eq!(timeout.error_type(), ErrorType::CoreBluetooth);
    assert_eq!(timeout.description().as_str(), "Timeout waiting for event");
}

#[test]
fn timeout_fires_exactly_at_the_bound() {
    assert_eq!(COMPLETION_WAIT_TIMEOUT_MS, 5000);
    let start: u64 = 1_000;
    assert!(!wait_timed_out(start, start));
    assert!(!wait_timed_out(start, start + COMPLETION_WAIT_TIMEOUT_MS - 1));
    assert!(wait_timed_out(start, start + COMPLETION_WAIT_TIMEOUT_MS));
    assert!(wait_timed_out(start, start + COMPLETION_WAIT_TIMEOUT_MS + 1));
}

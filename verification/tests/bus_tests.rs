use ble_peripheral_rust::gatt::peripheral_event::{PeripheralEvent, PeripheralRequest};
use ble_peripheral_rust::peripheral::bus::{EventBus, DEFAULT_EVENT_BUS_CAPACITY};
use ble_peripheral_rust::peripheral::correlator::make_write_request;
use ble_peripheral_rust::uuid::{ShortUuid, Uuid};

fn state(is_powered: bool) -> PeripheralEvent {
    PeripheralEvent::StateUpdate { is_powered }
}

fn powered(e: &PeripheralEvent) -> bool {
    match e {
        PeripheralEvent::StateUpdate { is_powered } => *is_powered,
        _ => panic!("expected a state update"),
    }
}

#[test]
fn default_capacity_value() {
    assert_eq!(DEFAULT_EVENT_BUS_CAPACITY, 256);
    let mut bus = EventBus::with_default_capacity();
    assert_eq!(bus.len(), 0);
    assert!(bus.publish(state(true)).is_ok());
    assert_eq!(bus.len(), 1);
}

#[test]
fn events_come_out_in_publish_order() {
    let mut bus = EventBus::new(4);
    assert!(bus.publish(state(false)).is_ok());
    assert!(bus.publish(state(true)).is_ok());
    assert_eq!(bus.len(), 2);
    assert!(!powered(&bus.consume().unwrap()));
    assert!(powered(&bus.consume().unwrap()));
    assert!(bus.consume().is_none());
}

#[test]
fn full_bus_hands_the_event_back() {
    let mut bus = EventBus::new(1);
    assert!(bus.publish(state(true)).is_ok());
    let rejected = bus.publish(state(false));
    match rejected {
        Err(e) => assert!(!powered(&e)),
        Ok(()) => panic!("the bus should have been full"),
    }
    // Consuming makes room again.
    assert!(powered(&bus.consume().unwrap()));
    assert!(bus.publish(state(false)).is_ok());
}

#[test]
fn interleaved_publish_and_consume_keeps_order() {
    let mut bus = EventBus::new(2);
    assert!(bus.publish(state(true)).is_ok());
    assert!(bus.publish(state(false)).is_ok());
    assert!(powered(&bus.consume().unwrap()));
    assert!(bus.publish(state(true)).is_ok());
    assert!(!powered(&bus.consume().unwrap()));
    assert!(powered(&bus.consume().unwrap()));
    assert!(bus.consume().is_none());
}

#[test]
fn writes_from_one_client_are_observed_in_submission_order() {
    let request = || PeripheralRequest {
        client: String::from("client-1"),
        service: Uuid::from_short(0x1234_u16),
        characteristic: Uuid::from_short(0x2A3D_u16),
    };
    let mut bus = EventBus::new(8);
    let (first, _rx0) = make_write_request(request(), vec![1], 0);
    let (second, _rx1) = make_write_request(request(), vec![2], 1);
    assert!(bus.publish(first).is_ok());
    assert!(bus.publish(second).is_ok());

    let offsets: Vec<u64> = (0..2)
        .map(|_| match bus.consume().unwrap() {
            PeripheralEvent::WriteRequest { offset, .. } => offset,
            _ => panic!("expected a write request"),
        })
        .collect();
    assert_eq!(offsets, vec![0, 1]);
}

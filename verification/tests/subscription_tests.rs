use ble_peripheral_rust::gatt::peripheral_event::PeripheralEvent;
use ble_peripheral_rust::peripheral::subscriptions::{subscription_events, SubscriptionTracker};
use ble_peripheral_rust::uuid::{ShortUuid, Uuid};

fn svc() -> Uuid {
    Uuid::from_short(0x1234_u16)
}

fn chr() -> Uuid {
    Uuid::from_short(0x2A3D_u16)
}

fn names(v: &[String]) -> Vec<&str> {
    v.iter().map(|s| s.as_str()).collect()
}

#[test]
fn snapshot_sequence_emits_the_right_diffs() {
    let mut t = SubscriptionTracker::new();

    let (added, removed) = t.update(svc(), chr(), vec![]);
    assert!(added.is_empty());
    assert!(removed.is_empty());

    let (added, removed) = t.update(svc(), chr(), vec![String::from("A")]);
    assert_eq!(names(&added), ["A"]);
    assert!(removed.is_empty());

    let (added, removed) = t.update(svc(), chr(), vec![String::from("A"), String::from("B")]);
    assert_eq!(names(&added), ["B"]);
    assert!(removed.is_empty());

    let (added, removed) = t.update(svc(), chr(), vec![String::from("B")]);
    assert!(added.is_empty());
    assert_eq!(names(&removed), ["A"]);

    let (added, removed) = t.update(svc(), chr(), vec![]);
    assert!(added.is_empty());
    assert_eq!(names(&removed), ["B"]);
}

#[test]
fn unchanged_snapshot_emits_nothing() {
    let mut t = SubscriptionTracker::new();
    let (_, _) = t.update(svc(), chr(), vec![String::from("A"), String::from("B")]);
    let (added, removed) = t.update(svc(), chr(), vec![String::from("A"), String::from("B")]);
    assert!(added.is_empty());
    assert!(removed.is_empty());
    let events = subscription_events(svc(), chr(), added, removed);
    assert!(events.is_empty());
}

#[test]
fn first_observation_treats_all_as_added() {
    let mut t = SubscriptionTracker::new();
    let (added, removed) =
        t.update(svc(), chr(), vec![String::from("X"), String::from("Y")]);
    assert_eq!(names(&added), ["X", "Y"]);
    assert!(removed.is_empty());
}

#[test]
fn characteristics_are_tracked_independently() {
    let mut t = SubscriptionTracker::new();
    let other = Uuid::from_short(0x2A14_u16);
    let (_, _) = t.update(svc(), chr(), vec![String::from("A")]);
    let (added, removed) = t.update(svc(), other, vec![String::from("A")]);
    assert_eq!(names(&added), ["A"]);
    assert!(removed.is_empty());
    assert_eq!(names(&t.subscribers(svc(), chr())), ["A"]);
    assert_eq!(names(&t.subscribers(svc(), other)), ["A"]);
}

#[test]
fn subscribers_of_an_unobserved_characteristic_are_empty() {
    let t = SubscriptionTracker::new();
    assert!(t.subscribers(svc(), chr()).is_empty());
}

#[test]
fn events_report_adds_before_removes() {
    let added = vec![String::from("A"), String::from("B")];
    let removed = vec![String::from("C")];
    let events = subscription_events(svc(), chr(), added, removed);
    assert_eq!(events.len(), 3);
    let expect = [("A", true), ("B", true), ("C", false)];
    for (event, (client, subscribed)) in events.iter().zip(expect.iter()) {
        match event {
            PeripheralEvent::CharacteristicSubscriptionUpdate { request, subscribed: s } => {
                assert_eq!(request.client.as_str(), *client);
                assert_eq!(s, subscribed);
                assert_eq!(request.service, svc());
                assert_eq!(request.characteristic, chr());
            }
            _ => panic!("expected a subscription update"),
        }
    }
}

use ble_peripheral_rust::peripheral::writers::WriterRegistry;
use ble_peripheral_rust::uuid::{ShortUuid, Uuid};

fn chr() -> Uuid {
    Uuid::from_short(0x2A3D_u16)
}

fn other() -> Uuid {
    Uuid::from_short(0x2A14_u16)
}

#[test]
fn insert_then_remove_returns_the_writer() {
    let mut w: WriterRegistry<u32> = WriterRegistry::new();
    assert!(!w.contains(chr()));
    w.insert(chr(), 7);
    assert!(w.contains(chr()));
    assert!(!w.contains(other()));
    assert_eq!(w.remove(chr()), Some(7));
    assert!(!w.contains(chr()));
    assert_eq!(w.remove(chr()), None);
}

#[test]
fn insert_replaces_the_previous_writer() {
    let mut w: WriterRegistry<u32> = WriterRegistry::new();
    w.insert(chr(), 1);
    w.insert(chr(), 2);
    assert_eq!(w.remove(chr()), Some(2));
    assert_eq!(w.remove(chr()), None);
}

#[test]
fn keys_are_independent() {
    let mut w: WriterRegistry<String> = WriterRegistry::new();
    w.insert(chr(), String::from("first"));
    w.insert(other(), String::from("second"));
    assert_eq!(w.remove(chr()).unwrap().as_str(), "first");
    assert!(w.contains(other()));
    assert_eq!(w.remove(other()).unwrap().as_str(), "second");
}

use yee_player::slot::HandOff;

#[test]
fn empty_slot_gives_nothing() {
    let mut slot = HandOff::<u32>::new();
    assert!(!slot.is_pending());
    assert_eq!(slot.take(), None);
    assert_eq!(slot.take(), None);
}

#[test]
fn value_is_taken_once() {
    let mut slot = HandOff::new();
    slot.put(5u32);
    assert!(slot.is_pending());
    assert_eq!(slot.take(), Some(5));
    assert!(!slot.is_pending());
    assert_eq!(slot.take(), None);
}

#[test]
fn latest_value_wins() {
    let mut slot = HandOff::new();
    slot.put("first");
    slot.put("second");
    assert_eq!(slot.take(), Some("second"));
    assert_eq!(slot.take(), None);
}

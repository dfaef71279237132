use mimicry::slot::Slot;

#[test]
fn new_slot_is_empty_and_free() {
    let slot: Slot<u8> = Slot::new();
    assert!(!slot.is_reserved());
    assert_eq!(slot.fetch(), None);
    let slot: Slot<u8> = Slot::default();
    assert!(!slot.is_reserved());
    assert_eq!(slot.fetch(), None);
}

#[test]
fn installed_state_is_fetched_until_release() {
    let mut slot = Slot::new();
    slot.install(String::from("state"));
    assert!(slot.is_reserved());
    assert_eq!(slot.fetch().map(String::as_str), Some("state"));
    assert_eq!(slot.release(), Some(String::from("state")));
    assert!(!slot.is_reserved());
    assert_eq!(slot.fetch(), None);
    assert_eq!(slot.release(), None);
}

#[test]
fn released_state_reflects_every_change_made_while_installed() {
    let mut slot = Slot::new();
    slot.install(vec![0_u32]);
    for call in 1..=3 {
        slot.fetch_mut().unwrap().push(call);
    }
    let recovered = slot.release().unwrap();
    assert_eq!(recovered, [0, 1, 2, 3]);
    // A call made after the release finds nothing to change.
    assert!(slot.fetch_mut().is_none());
    assert_eq!(slot.release(), None);
    assert_eq!(recovered, [0, 1, 2, 3]);
}

#[test]
fn reserved_slot_holds_no_state() {
    let mut slot: Slot<u8> = Slot::new();
    slot.reserve();
    assert!(slot.is_reserved());
    assert_eq!(slot.fetch(), None);
    assert!(slot.fetch_mut().is_none());
    assert_eq!(slot.release(), None);
    assert!(!slot.is_reserved());
}

#[test]
fn slot_can_be_used_again_after_release() {
    let mut slot = Slot::new();
    slot.install(1_u8);
    assert_eq!(slot.release(), Some(1));
    slot.install(2_u8);
    assert_eq!(slot.fetch(), Some(&2));
    *slot.fetch_mut().unwrap() = 3;
    assert_eq!(slot.release(), Some(3));
}

use harpoon::slots::{HarpoonData, HarpoonSlot};

fn slot(name: &str) -> HarpoonSlot {
    HarpoonSlot {
        session_name: name.to_string(),
        tab_name: "tab".to_string(),
        tab_position: 1,
        pane_id: 7,
        pane_title: "title".to_string(),
    }
}

#[test]
fn a_new_list_is_empty() {
    let data = HarpoonData::default();
    assert_eq!(data.slots.len(), 0);
    assert!(data.get_slot(0).is_none());
    assert!(data.get_slot(usize::MAX).is_none());
}

#[test]
fn room_is_made_up_to_the_index() {
    let mut data = HarpoonData::default();
    data.ensure_slot(2);
    assert_eq!(data.slots.len(), 3);
    assert!(data.slots.iter().all(|s| s.is_none()));
    data.ensure_slot(1);
    assert_eq!(data.slots.len(), 3);
}

#[test]
fn room_keeps_what_is_there() {
    let mut data = HarpoonData::default();
    data.set_slot(1, slot("one"));
    data.ensure_slot(4);
    assert_eq!(data.slots.len(), 5);
    assert_eq!(data.get_slot(1).unwrap().session_name, "one");
    assert!(data.get_slot(0).is_none());
    assert!(data.get_slot(4).is_none());
}

#[test]
fn an_assigned_slot_is_found() {
    let mut data = HarpoonData::default();
    data.set_slot(3, slot("three"));
    data.set_slot(0, slot("zero"));
    data.set_slot(3, slot("other"));
    assert_eq!(data.slots.len(), 4);
    assert_eq!(data.get_slot(3).unwrap().session_name, "other");
    assert_eq!(data.get_slot(0).unwrap().session_name, "zero");
    assert!(data.get_slot(1).is_none());
}

#[test]
fn a_cleared_slot_is_free() {
    let mut data = HarpoonData::default();
    data.set_slot(1, slot("one"));
    data.set_slot(0, slot("zero"));
    assert!(data.clear_slot(1));
    assert!(data.get_slot(1).is_none());
    assert_eq!(data.get_slot(0).unwrap().session_name, "zero");
    assert_eq!(data.slots.len(), 2);
    assert!(!data.clear_slot(2));
    assert_eq!(data.slots.len(), 2);
}

#[test]
fn a_copy_says_the_same() {
    let mut data = HarpoonData::default();
    data.set_slot(2, slot("two"));
    let copy = data.clone();
    assert_eq!(format!("{:?}", copy), format!("{:?}", data));
    let copied = copy.get_slot(2).unwrap().clone();
    assert_eq!(copied.tab_name, "tab");
    assert_eq!(copied.tab_position, 1);
    assert_eq!(copied.pane_id, 7);
    assert_eq!(copied.pane_title, "title");
}

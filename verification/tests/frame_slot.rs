use camcore::frame_slot::FrameSlot;

#[test]
fn roundtrip_single_consume() {
    let mut slot = FrameSlot::new();
    let frame = vec![0xFFu8, 0xD8, 0xFF, 0xE0, 0x00, 0x10];
    slot.publish(&frame);
    assert_eq!(slot.take_if_fresh(), Some(frame));
    assert_eq!(slot.take_if_fresh(), None);
}

#[test]
fn fresh_slot_yields_empty_frame_once() {
    let mut slot = FrameSlot::new();
    assert_eq!(slot.take_if_fresh(), Some(Vec::new()));
    assert_eq!(slot.take_if_fresh(), None);
}

#[test]
fn newest_frame_wins() {
    let mut slot = FrameSlot::new();
    slot.publish(&[1, 2, 3]);
    slot.publish(&[4, 5]);
    assert_eq!(slot.take_if_fresh(), Some(vec![4u8, 5]));
    assert_eq!(slot.take_if_fresh(), None);
}

#[test]
fn republish_after_consume_delivers_again() {
    let mut slot = FrameSlot::new();
    slot.publish(&[9]);
    assert_eq!(slot.take_if_fresh(), Some(vec![9u8]));
    slot.publish(&[9]);
    assert_eq!(slot.take_if_fresh(), Some(vec![9u8]));
    assert_eq!(slot.take_if_fresh(), None);
}

#[test]
fn publish_replaces_wholesale_not_append() {
    let mut slot = FrameSlot::new();
    slot.publish(&[1, 2, 3, 4, 5]);
    slot.publish(&[6]);
    assert_eq!(slot.take_if_fresh(), Some(vec![6u8]));
}

#[test]
fn empty_frame_publishes_like_any_other() {
    let mut slot = FrameSlot::new();
    slot.publish(&[1]);
    slot.publish(&[]);
    assert_eq!(slot.take_if_fresh(), Some(Vec::new()));
    assert_eq!(slot.take_if_fresh(), None);
}

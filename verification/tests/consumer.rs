use camcore::consumer::{ConsumeOutcome, consume_frame, decode_frame};
use camcore::frame_slot::FrameSlot;

fn tiny_png() -> Vec<u8> {
    let img = image::DynamicImage::ImageRgb8(image::RgbImage::new(2, 3));
    let mut cursor = std::io::Cursor::new(Vec::new());
    img.write_to(&mut cursor, image::ImageFormat::Png).unwrap();
    cursor.into_inner()
}

#[test]
fn valid_frame_is_decoded_once() {
    let mut slot = FrameSlot::new();
    slot.publish(&tiny_png());
    match consume_frame(&mut slot) {
        ConsumeOutcome::Decoded(img) => {
            assert_eq!(image::GenericImageView::dimensions(&img), (2, 3));
        }
        _ => panic!("a valid image must decode"),
    }
    // The frame was consumed by the decode tick; nothing is left.
    assert!(matches!(consume_frame(&mut slot), ConsumeOutcome::NoFrame));
}

#[test]
fn garbage_frame_reports_decode_failure_and_is_still_consumed() {
    let mut slot = FrameSlot::new();
    slot.publish(&[0xDE, 0xAD, 0xBE, 0xEF, 0x00, 0x01]);
    assert!(matches!(
        consume_frame(&mut slot),
        ConsumeOutcome::DecodeFailed
    ));
    assert!(matches!(consume_frame(&mut slot), ConsumeOutcome::NoFrame));
}

#[test]
fn decode_step_alone_classifies_the_bytes() {
    // The split the locking consumer uses: bytes taken out of the slot
    // first, decoded afterwards.
    let mut slot = FrameSlot::new();
    slot.publish(&tiny_png());
    let bytes = slot.take_if_fresh().expect("a fresh frame was published");
    match decode_frame(&bytes) {
        ConsumeOutcome::Decoded(img) => {
            assert_eq!(image::GenericImageView::dimensions(&img), (2, 3));
        }
        _ => panic!("a valid image must decode"),
    }
    assert!(matches!(
        decode_frame(&vec![0u8, 1, 2]),
        ConsumeOutcome::DecodeFailed
    ));
}

#[test]
fn stale_image_retained_until_next_valid_frame() {
    let mut slot = FrameSlot::new();
    slot.publish(&tiny_png());
    assert!(matches!(
        consume_frame(&mut slot),
        ConsumeOutcome::Decoded(_)
    ));
    // A bad frame consumes but does not replace the displayed image; the
    // next good frame decodes again.
    slot.publish(&[1, 2, 3]);
    assert!(matches!(
        consume_frame(&mut slot),
        ConsumeOutcome::DecodeFailed
    ));
    slot.publish(&tiny_png());
    assert!(matches!(
        consume_frame(&mut slot),
        ConsumeOutcome::Decoded(_)
    ));
}

//! The consumer side of the frame hand-off: take the fresh frame from the
//! slot — at most once — and decode it into a displayable image.
//!
//! Taking and decoding are separate steps on purpose. A consumer that
//! shares the slot with the worker under a lock must hold that lock only
//! for the duration of the copy, never across a decode: it takes the bytes
//! out with [`FrameSlot::take_if_fresh`] under the lock and calls
//! [`decode_frame`] after releasing it. [`consume_frame`] composes the two
//! for callers that own the slot directly. A frame that fails to decode is
//! reported as such, so the embedding program keeps showing the stale
//! image; the frame still counts as consumed.

use vstd::prelude::*;

use crate::frame_slot::FrameSlot;
use crate::frame_slot::take_m;

verus! {

/// The image crate's decoded image, carried through opaquely: the library
/// never looks inside it.
#[verifier::external_type_specification]
#[verifier::external_body]
pub struct ExDynamicImage(image::DynamicImage);

/// Whether a byte sequence decodes into an image. The decoder's notion,
/// not restated here: the library only relies on it being a function of
/// the bytes alone.
pub uninterp spec fn decodable(bytes: Seq<u8>) -> bool;

/// Relies on image::load_from_memory in the pinned version: it guesses the
/// format from the bytes' own signature and decodes from the byte slice
/// alone, so whether it succeeds is a function of the bytes.
#[verifier::external_body]
fn load_image(bytes: &[u8]) -> (r: Option<image::DynamicImage>)
    ensures
        r is Some <==> decodable(bytes@),
{
    image::load_from_memory(bytes).ok()
}

/// What one consumer tick found.
pub enum ConsumeOutcome {
    /// The slot held nothing fresh; nothing was consumed.
    NoFrame,
    /// A fresh frame was consumed but its bytes decode into no image; the
    /// caller keeps displaying the stale image.
    DecodeFailed,
    /// A fresh frame was consumed and decoded.
    Decoded(image::DynamicImage),
}

/// The decode step alone, for bytes already taken out of the slot: yields
/// the decoded image or reports the failure, never `NoFrame`. Run this
/// outside any lock that guards the slot.
pub fn decode_frame(bytes: &Vec<u8>) -> (r: ConsumeOutcome)
    ensures
        r !is NoFrame,
        r is Decoded <==> decodable(bytes@),
        r is DecodeFailed <==> !decodable(bytes@),
{
    match load_image(bytes.as_slice()) {
        Some(img) => ConsumeOutcome::Decoded(img),
        None => ConsumeOutcome::DecodeFailed,
    }
}

/// One consumer tick over a directly owned slot: takes the fresh frame, if
/// any, and decodes it. The frame is consumed whether or not it decodes,
/// so it is delivered at most once; the slot is otherwise unchanged. A
/// consumer that reaches the slot through a lock calls the two steps
/// separately instead, so the lock is held only for the copy.
pub fn consume_frame(slot: &mut FrameSlot) -> (r: ConsumeOutcome)
    ensures
        final(slot)@ == take_m(old(slot)@).0,
        take_m(old(slot)@).1 is None <==> r is NoFrame,
        take_m(old(slot)@).1 matches Some(b) ==> (r is Decoded <==> decodable(b)) && (
        r is DecodeFailed <==> !decodable(b)),
{
    match slot.take_if_fresh() {
        None => ConsumeOutcome::NoFrame,
        Some(bytes) => decode_frame(&bytes),
    }
}

} // verus!

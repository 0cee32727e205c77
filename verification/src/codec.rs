//! The frame encoder of `defmt`, as far as the logger drives it.
//!
//! The encoder is a value of `defmt` that this crate cannot look into. Which
//! bytes it makes of a frame depends on the encoding that `defmt` was built
//! with, so the contracts give those bytes names instead of spelling them out:
//! for each of the encoder's three operations, the encoder it leaves behind
//! and the bytes it sends to its sink, as a function of the encoder it starts
//! from and of the payload.

use crate::transport::write_serial;
use crate::transport::EraseWrite;
use defmt::Encoder;
use vstd::prelude::*;

verus! {

#[verifier::external_type_specification]
#[verifier::external_body]
pub struct ExEncoder(defmt::Encoder);

/// The encoder that `Encoder::start_frame` leaves behind, and the bytes it
/// sends to its sink, for the encoder it is called on.
pub uninterp spec fn started_frame(encoder: Encoder) -> (Encoder, Seq<u8>);

/// The encoder that `Encoder::write` leaves behind, and the bytes it sends to
/// its sink, for the encoder it is called on and the payload it is given.
pub uninterp spec fn encoded(encoder: Encoder, data: Seq<u8>) -> (Encoder, Seq<u8>);

/// The encoder that `Encoder::end_frame` leaves behind, and the bytes it sends
/// to its sink, for the encoder it is called on.
pub uninterp spec fn ended_frame(encoder: Encoder) -> (Encoder, Seq<u8>);

/// The encoder that has taken in `writes` one after another, and all the bytes
/// it sent to its sink while doing so.
pub open spec fn encoded_all(encoder: Encoder, writes: Seq<Seq<u8>>) -> (Encoder, Seq<u8>)
    decreases writes.len(),
{
    if writes.len() == 0 {
        (encoder, Seq::empty())
    } else {
        let before = encoded_all(encoder, writes.drop_last());
        let last = encoded(before.0, writes.last());
        (last.0, before.1 + last.1)
    }
}

/// One frame as the encoder puts it on the wire: the opening bytes once, the
/// encoding of each write in the order of the writes, the closing bytes once.
/// The first part is the encoder that the frame leaves behind.
pub open spec fn frame(encoder: Encoder, writes: Seq<Seq<u8>>) -> (Encoder, Seq<u8>) {
    let opened = started_frame(encoder);
    let body = encoded_all(opened.0, writes);
    let closed = ended_frame(body.0);
    (closed.0, opened.1 + body.1 + closed.1)
}

/// Frames one after another as the encoder puts them on the wire: each frame
/// whole, in the order of the frames.
pub open spec fn frames(encoder: Encoder, all: Seq<Seq<Seq<u8>>>) -> (Encoder, Seq<u8>)
    decreases all.len(),
{
    if all.len() == 0 {
        (encoder, Seq::empty())
    } else {
        let before = frames(encoder, all.drop_last());
        let last = frame(before.0, all.last());
        (last.0, before.1 + last.1)
    }
}

/// `defmt::Encoder::new`: a fresh encoder. Nothing is claimed of it.
pub assume_specification[ defmt::Encoder::new ]() -> (encoder: Encoder);

/// Calls `defmt::Encoder::start_frame` with `write_serial` on `slot` as its
/// sink. The encoder hands the sink the frame's opening bytes, in order and in
/// as many pieces as it likes; what they add up to is a function of the encoder
/// alone, and the slot's transport has been handed exactly them. The slot
/// holds the reference that it held before.
#[verifier::external_body]
pub(crate) fn start_frame<W: EraseWrite + ?Sized>(encoder: &mut Encoder, slot: &mut Option<&mut W>)
    ensures
        *final(encoder) == started_frame(*old(encoder)).0,
        crate::transport::slot_wire(*final(slot)) == crate::transport::delivered(
            crate::transport::slot_wire(*old(slot)),
            started_frame(*old(encoder)).1,
        ),
        *old(slot) is Some ==> final((*final(slot))->0).wire() == final((*old(slot))->0).wire(),
{
    encoder.start_frame(|chunk| write_serial(slot, chunk));
}

/// Calls `defmt::Encoder::write` with `write_serial` on `slot` as its sink.
/// The encoder hands the sink the encoding of `data`, in order and in as many
/// pieces as it likes; what they add up to is a function of the encoder and of
/// `data` alone, and the slot's transport has been handed exactly them. The
/// slot holds the reference that it held before.
#[verifier::external_body]
pub(crate) fn write<W: EraseWrite + ?Sized>(
    encoder: &mut Encoder,
    data: &[u8],
    slot: &mut Option<&mut W>,
)
    ensures
        *final(encoder) == encoded(*old(encoder), data@).0,
        crate::transport::slot_wire(*final(slot)) == crate::transport::delivered(
            crate::transport::slot_wire(*old(slot)),
            encoded(*old(encoder), data@).1,
        ),
        *old(slot) is Some ==> final((*final(slot))->0).wire() == final((*old(slot))->0).wire(),
{
    encoder.write(data, |chunk| write_serial(slot, chunk));
}

/// Calls `defmt::Encoder::end_frame` with `write_serial` on `slot` as its
/// sink. The encoder hands the sink the frame's closing bytes, in order and in
/// as many pieces as it likes; what they add up to is a function of the encoder
/// alone, and the slot's transport has been handed exactly them. The slot
/// holds the reference that it held before.
#[verifier::external_body]
pub(crate) fn end_frame<W: EraseWrite + ?Sized>(encoder: &mut Encoder, slot: &mut Option<&mut W>)
    ensures
        *final(encoder) == ended_frame(*old(encoder)).0,
        crate::transport::slot_wire(*final(slot)) == crate::transport::delivered(
            crate::transport::slot_wire(*old(slot)),
            ended_frame(*old(encoder)).1,
        ),
        *old(slot) is Some ==> final((*final(slot))->0).wire() == final((*old(slot))->0).wire(),
{
    encoder.end_frame(|chunk| write_serial(slot, chunk));
}

} // verus!

//! What holds of the logger over whole runs of calls.

use crate::logger::LoggerState;
use crate::transport::Wire;
use critical_section::RestoreState;
use vstd::prelude::*;

verus! {

/// Delivering `first` and then `second` is delivering `first + second`.
pub proof fn lemma_delivered_twice(wire: Option<Wire>, first: Seq<u8>, second: Seq<u8>)
    ensures
        crate::transport::delivered(crate::transport::delivered(wire, first), second)
            == crate::transport::delivered(wire, first + second),
{
    if let Some(w) = wire {
        assert((w.bytes + first) + second =~= w.bytes + (first + second));
    }
}

/// Delivering no bytes changes nothing.
pub proof fn lemma_delivered_nothing(wire: Option<Wire>)
    ensures
        crate::transport::delivered(wire, Seq::empty()) == wire,
{
    if let Some(w) = wire {
        assert(w.bytes + Seq::<u8>::empty() =~= w.bytes);
    }
}

/// Writes reach the transport in the order in which they were made: after a
/// run of writes the transport has been handed what the encoder made of them,
/// one after another, and nothing else. The flag and the token stay as they were.
pub proof fn lemma_writes_arrive_in_order(state: LoggerState, writes: Seq<Seq<u8>>)
    ensures
        state.written_all(writes).transport == crate::transport::delivered(
            state.transport,
            crate::codec::encoded_all(state.encoder, writes).1,
        ),
        state.written_all(writes).encoder == crate::codec::encoded_all(state.encoder, writes).0,
        state.written_all(writes).taken == state.taken,
        state.written_all(writes).restore == state.restore,
    decreases writes.len(),
{
    if writes.len() == 0 {
        lemma_delivered_nothing(state.transport);
    } else {
        lemma_writes_arrive_in_order(state, writes.drop_last());
        let before = crate::codec::encoded_all(state.encoder, writes.drop_last());
        let last = crate::codec::encoded(before.0, writes.last());
        lemma_delivered_twice(state.transport, before.1, last.1);
    }
}

/// A frame reaches the transport whole: its opening bytes once, then its
/// writes in the order in which they were made, then its closing bytes once.
/// When it is over no frame is under way, so the next one may start.
pub proof fn lemma_frame_arrives_whole(
    state: LoggerState,
    restore: RestoreState,
    writes: Seq<Seq<u8>>,
)
    ensures
        state.framed(restore, writes).transport == crate::transport::delivered(
            state.transport,
            crate::codec::frame(state.encoder, writes).1,
        ),
        state.framed(restore, writes).encoder == crate::codec::frame(state.encoder, writes).0,
        state.framed(restore, writes).can_acquire(),
        state.framed(restore, writes).restore == restore,
        state.acquired(restore).written_all(writes).taken,
{
    let opened = crate::codec::started_frame(state.encoder);
    let body = crate::codec::encoded_all(opened.0, writes);
    let closed = crate::codec::ended_frame(body.0);
    lemma_writes_arrive_in_order(state.acquired(restore), writes);
    lemma_delivered_twice(state.transport, opened.1, body.1);
    lemma_delivered_twice(state.transport, opened.1 + body.1, closed.1);
}

/// Frames logged one after another reach the transport one after another:
/// each whole, in the order in which they were logged, none mixed with another.
pub proof fn lemma_frames_arrive_in_order(
    state: LoggerState,
    restores: Seq<RestoreState>,
    all: Seq<Seq<Seq<u8>>>,
)
    requires
        state.can_acquire(),
        restores.len() == all.len(),
    ensures
        state.framed_all(restores, all).transport == crate::transport::delivered(
            state.transport,
            crate::codec::frames(state.encoder, all).1,
        ),
        state.framed_all(restores, all).encoder == crate::codec::frames(state.encoder, all).0,
        state.framed_all(restores, all).can_acquire(),
    decreases all.len(),
{
    if all.len() == 0 {
        lemma_delivered_nothing(state.transport);
    } else {
        lemma_frames_arrive_in_order(state, restores.drop_last(), all.drop_last());
        let before = state.framed_all(restores.drop_last(), all.drop_last());
        let sent = crate::codec::frames(state.encoder, all.drop_last());
        lemma_frame_arrives_whole(before, restores.last(), all.last());
        lemma_delivered_twice(
            state.transport,
            sent.1,
            crate::codec::frame(sent.0, all.last()).1,
        );
    }
}

/// Once a transport is registered, no other can be: the slot takes one
/// transport at a time, whatever has been logged since.
pub proof fn lemma_registered_slot_is_closed(
    state: LoggerState,
    wire: Wire,
    restores: Seq<RestoreState>,
    all: Seq<Seq<Seq<u8>>>,
)
    requires
        state.can_register(),
        restores.len() == all.len(),
    ensures
        !state.registered(wire).can_register(),
        !state.registered(wire).framed_all(restores, all).can_register(),
{
    lemma_frames_arrive_in_order(state.registered(wire), restores, all);
}

/// With no transport registered nothing is delivered: the slot stays empty
/// through every call, so logging is a no-op.
pub proof fn lemma_nothing_is_delivered_without_transport(
    state: LoggerState,
    restore: RestoreState,
    bytes: Seq<u8>,
    writes: Seq<Seq<u8>>,
)
    ensures
        state.unregistered().transport is None,
        state.transport is None ==> {
            &&& state.acquired(restore).transport is None
            &&& state.written(bytes).transport is None
            &&& state.flushed().transport is None
            &&& state.released().transport is None
            &&& state.written_all(writes).transport is None
            &&& state.framed(restore, writes).transport is None
        },
{
    lemma_writes_arrive_in_order(state, writes);
    lemma_frame_arrives_whole(state, restore, writes);
}

/// While a frame is under way the slot cannot be touched and no other frame
/// can start; the release that ends the frame opens all of it again.
pub proof fn lemma_frame_holds_the_logger(
    state: LoggerState,
    restore: RestoreState,
    writes: Seq<Seq<u8>>,
)
    ensures
        !state.acquired(restore).written_all(writes).can_register(),
        !state.acquired(restore).written_all(writes).can_unregister(),
        !state.acquired(restore).written_all(writes).can_acquire(),
        !state.acquired(restore).written_all(writes).flushed().can_unregister(),
        state.framed(restore, writes).can_unregister(),
        state.framed(restore, writes).can_acquire(),
        state.framed(restore, writes).can_register() == (state.transport is None),
{
    lemma_writes_arrive_in_order(state.acquired(restore), writes);
    lemma_frame_arrives_whole(state, restore, writes);
}

/// Taking the transport out leaves a logger that drops what is logged and
/// that takes a new transport, at once or after any number of frames.
pub proof fn lemma_unregistered_logger_starts_over(
    state: LoggerState,
    restores: Seq<RestoreState>,
    all: Seq<Seq<Seq<u8>>>,
    wire: Wire,
)
    requires
        state.can_unregister(),
        restores.len() == all.len(),
    ensures
        state.unregistered().can_register(),
        state.unregistered().framed_all(restores, all).transport is None,
        state.unregistered().framed_all(restores, all).can_register(),
        state.unregistered().framed_all(restores, all).registered(wire).transport == Some(wire),
{
    lemma_frames_arrive_in_order(state.unregistered(), restores, all);
}

/// Two frames do not mix: the one that started first is on the wire whole
/// before the first byte of the other, since the other cannot start before the
/// first has ended.
pub proof fn lemma_frames_do_not_interleave(
    state: LoggerState,
    first_restore: RestoreState,
    first: Seq<Seq<u8>>,
    second_restore: RestoreState,
    second: Seq<Seq<u8>>,
)
    ensures
        forall|done: int|
            0 <= done <= first.len() ==> !(#[trigger] state.acquired(first_restore).written_all(
                first.take(done),
            )).can_acquire(),
        state.framed(first_restore, first).framed(second_restore, second).transport
            == crate::transport::delivered(
            state.transport,
            crate::codec::frame(state.encoder, first).1 + crate::codec::frame(
                crate::codec::frame(state.encoder, first).0,
                second,
            ).1,
        ),
{
    assert forall|done: int| 0 <= done <= first.len() implies !(
    #[trigger] state.acquired(first_restore).written_all(first.take(done))).can_acquire() by {
        lemma_writes_arrive_in_order(state.acquired(first_restore), first.take(done));
    }
    lemma_frame_arrives_whole(state, first_restore, first);
    lemma_frame_arrives_whole(state.framed(first_restore, first), second_restore, second);
    lemma_delivered_twice(
        state.transport,
        crate::codec::frame(state.encoder, first).1,
        crate::codec::frame(crate::codec::frame(state.encoder, first).0, second).1,
    );
}

} // verus!

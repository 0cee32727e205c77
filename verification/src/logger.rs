//! The logger: one transport slot, one frame at a time.

use crate::codec;
use crate::transport::EraseWrite;
use crate::transport::Wire;
use critical_section::RestoreState;
use defmt::Encoder;
use vstd::prelude::*;

verus! {

#[verifier::external_type_specification]
#[verifier::external_body]
pub struct ExRestoreState(critical_section::RestoreState);

/// `critical_section::RestoreState::invalid`: a token that stands for no
/// critical section. Nothing is claimed of it.
pub assume_specification[ critical_section::RestoreState::invalid ]() -> (state: RestoreState);

/// The logger as the contracts see it.
#[verifier::ext_equal]
pub struct LoggerState {
    /// Whether a frame is under way: set by `acquire`, cleared by the
    /// `release` that ends the frame.
    pub taken: bool,
    /// The critical-section token that the last `acquire` was given.
    pub restore: RestoreState,
    /// The frame encoder.
    pub encoder: Encoder,
    /// What the registered transport has been asked to do; `None` while no
    /// transport is registered.
    pub transport: Option<Wire>,
}

impl LoggerState {
    /// The logger once a whole frame is logged: a frame is started under
    /// `restore`, each of `writes` is logged, and the frame is ended.
    pub open spec fn framed(self, restore: RestoreState, writes: Seq<Seq<u8>>) -> LoggerState {
        self.acquired(restore).written_all(writes).released()
    }

    /// The logger once each of `all` is logged as a frame of its own, one
    /// after another, the frame at `i` under the token `restores[i]`.
    pub open spec fn framed_all(
        self,
        restores: Seq<RestoreState>,
        all: Seq<Seq<Seq<u8>>>,
    ) -> LoggerState
        decreases all.len(),
    {
        if all.len() == 0 {
            self
        } else {
            self.framed_all(restores.drop_last(), all.drop_last()).framed(
                restores.last(),
                all.last(),
            )
        }
    }

    /// Whether a transport may be registered: none is, and no frame is under way.
    pub open spec fn can_register(self) -> bool {
        !self.taken && self.transport is None
    }

    /// Whether the transport may be taken out: no frame is under way.
    pub open spec fn can_unregister(self) -> bool {
        !self.taken
    }

    /// Whether a frame may be started: none is under way.
    pub open spec fn can_acquire(self) -> bool {
        !self.taken
    }

    /// The logger once a transport with the record `wire` is registered.
    pub open spec fn registered(self, wire: Wire) -> LoggerState {
        LoggerState { transport: Some(wire), ..self }
    }

    /// The logger once its transport is taken out.
    pub open spec fn unregistered(self) -> LoggerState {
        LoggerState { transport: None, ..self }
    }

    /// The logger once a frame is started under the token `restore`: the
    /// encoder has opened a frame and its opening bytes are delivered.
    pub open spec fn acquired(self, restore: RestoreState) -> LoggerState {
        LoggerState {
            taken: true,
            restore,
            encoder: codec::started_frame(self.encoder).0,
            transport: crate::transport::delivered(
                self.transport,
                codec::started_frame(self.encoder).1,
            ),
        }
    }

    /// The logger once `bytes` are logged: the encoder has taken them in and
    /// their encoding is delivered.
    pub open spec fn written(self, bytes: Seq<u8>) -> LoggerState {
        LoggerState {
            encoder: codec::encoded(self.encoder, bytes).0,
            transport: crate::transport::delivered(
                self.transport,
                codec::encoded(self.encoder, bytes).1,
            ),
            ..self
        }
    }

    /// The logger once each of `writes` is logged, one after another.
    pub open spec fn written_all(self, writes: Seq<Seq<u8>>) -> LoggerState
        decreases writes.len(),
    {
        if writes.len() == 0 {
            self
        } else {
            self.written_all(writes.drop_last()).written(writes.last())
        }
    }

    /// The logger once a flush is passed on to its transport.
    pub open spec fn flushed(self) -> LoggerState {
        LoggerState {
            transport: match self.transport {
                Some(wire) => Some(wire.after_flush()),
                None => None,
            },
            ..self
        }
    }

    /// The logger once the frame is ended: the encoder has closed the frame,
    /// its closing bytes are delivered, and the flag is cleared.
    pub open spec fn released(self) -> LoggerState {
        LoggerState {
            taken: false,
            encoder: codec::ended_frame(self.encoder).0,
            transport: crate::transport::delivered(
                self.transport,
                codec::ended_frame(self.encoder).1,
            ),
            ..self
        }
    }
}

/// The state behind the logging hooks: the frame encoder, the flag that tells
/// whether a frame is under way, the critical-section token of that frame, and
/// the slot for the one registered transport.
///
/// The transport stays with whoever registered it: the logger holds a
/// reference for as long as the registration lasts.
pub struct GlobalSerialLogger<'a, W: EraseWrite + ?Sized> {
    encoder: Encoder,
    taken: bool,
    cs_restore: RestoreState,
    erased_write: Option<&'a mut W>,
}

impl<'a, W: EraseWrite + ?Sized> View for GlobalSerialLogger<'a, W> {
    type V = LoggerState;

    closed spec fn view(&self) -> LoggerState {
        LoggerState {
            taken: self.taken,
            restore: self.cs_restore,
            encoder: self.encoder,
            transport: crate::transport::slot_wire(self.erased_write),
        }
    }
}

impl<'a, W: EraseWrite + ?Sized> GlobalSerialLogger<'a, W> {
    /// The reference in the transport slot.
    pub closed spec fn slot(&self) -> Option<&'a mut W> {
        self.erased_write
    }

    /// A logger with no transport registered and no frame under way.
    pub fn new() -> (logger: Self)
        ensures
            !logger@.taken,
            logger@.transport is None,
    {
        GlobalSerialLogger {
            encoder: Encoder::new(),
            taken: false,
            cs_restore: RestoreState::invalid(),
            erased_write: None,
        }
    }

    /// Whether a frame is under way.
    pub fn is_taken(&self) -> (taken: bool)
        ensures
            taken == self@.taken,
    {
        self.taken
    }

    /// Whether a transport is registered.
    pub fn is_registered(&self) -> (registered: bool)
        ensures
            registered == self@.transport is Some,
    {
        self.erased_write.is_some()
    }

    /// Starts a frame. `restore` is the token of the critical section that the
    /// caller entered for this frame; it is kept until `release` hands it back.
    /// Starting a frame while one is under way is ruled out.
    ///
    /// The last clause, here and below, says that the reference in the slot
    /// stays the one that was registered: what its transport ends up with is
    /// what the registered transport ends up with.
    pub fn acquire(&mut self, restore: RestoreState)
        requires
            old(self)@.can_acquire(),
        ensures
            final(self)@ == old(self)@.acquired(restore),
            old(self)@.transport is Some ==> final(final(self).slot()->0).wire() == final(
                old(self).slot()->0
            ).wire(),
    {
        self.taken = true;
        self.cs_restore = restore;
        codec::start_frame(&mut self.encoder, &mut self.erased_write);
    }

    /// Ends the frame and hands back the token that `acquire` was given, for
    /// the caller to leave its critical section with. The flag is cleared by
    /// the time the caller holds the token.
    pub fn release(&mut self) -> (restore: RestoreState)
        requires
            old(self)@.taken,
        ensures
            final(self)@ == old(self)@.released(),
            restore == old(self)@.restore,
            old(self)@.transport is Some ==> final(final(self).slot()->0).wire() == final(
                old(self).slot()->0
            ).wire(),
    {
        codec::end_frame(&mut self.encoder, &mut self.erased_write);
        self.taken = false;
        self.cs_restore
    }

    /// Logs `bytes`: the encoder's output for them goes to the transport, or
    /// nowhere while no transport is registered.
    pub fn write(&mut self, bytes: &[u8])
        ensures
            final(self)@ == old(self)@.written(bytes@),
            old(self)@.transport is Some ==> final(final(self).slot()->0).wire() == final(
                old(self).slot()->0
            ).wire(),
    {
        codec::write(&mut self.encoder, bytes, &mut self.erased_write);
    }

    /// Passes a flush on to the transport, if one is registered.
    pub fn flush(&mut self)
        ensures
            final(self)@ == old(self)@.flushed(),
            old(self)@.transport is Some ==> final(final(self).slot()->0).wire() == final(
                old(self).slot()->0
            ).wire(),
    {
        if let Some(writer) = &mut self.erased_write {
            writer.flush();
        }
    }
}

/// Registers `serial` as the transport that log frames go to. Registering
/// while a transport is registered, or while a frame is under way, is ruled out.
///
/// The logger borrows `serial` for as long as it lives: what `serial` ends up
/// with is what the reference in the slot ends up with.
pub fn defmt_serial<'a, W: EraseWrite + ?Sized>(
    logger: &mut GlobalSerialLogger<'a, W>,
    serial: &'a mut W,
)
    requires
        old(logger)@.can_register(),
    ensures
        final(logger)@ == old(logger)@.registered(old(serial).wire()),
        final(final(logger).slot()->0).wire() == final(serial).wire(),
{
    logger.erased_write = Some(serial);
}

/// Takes the transport out of the logger; with none registered nothing
/// changes. Doing so while a frame is under way is ruled out.
///
/// What the transport had been asked to do by then is all that it will ever
/// have been asked through this registration.
pub fn release<'a, W: EraseWrite + ?Sized>(logger: &mut GlobalSerialLogger<'a, W>)
    requires
        old(logger)@.can_unregister(),
    ensures
        final(logger)@ == old(logger)@.unregistered(),
        old(logger)@.transport is Some ==> Some(final(old(logger).slot()->0).wire())
            == old(logger)@.transport,
{
    logger.erased_write = None;
}

} // verus!

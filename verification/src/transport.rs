//! The capability a transport offers, and the record of what it was asked to do.

use vstd::prelude::*;

verus! {

/// What a transport has been asked to do since it came into being.
///
/// The record is kept in requests, not in what reached the far end: a
/// transport that fails to put a byte on its line keeps that to itself.
#[verifier::ext_equal]
pub struct Wire {
    /// Every byte handed to the transport, oldest first.
    pub bytes: Seq<u8>,
    /// How many of those bytes had been handed over when a flush was last asked for.
    pub flushed: nat,
}

impl Wire {
    /// The record of a transport that was never asked for anything.
    pub open spec fn untouched() -> Wire {
        Wire { bytes: Seq::empty(), flushed: 0 }
    }

    /// The record after `buf` has been handed over.
    pub open spec fn after_write(self, buf: Seq<u8>) -> Wire {
        Wire { bytes: self.bytes + buf, flushed: self.flushed }
    }

    /// The record after a flush has been asked for.
    pub open spec fn after_flush(self) -> Wire {
        Wire { bytes: self.bytes, flushed: self.bytes.len() }
    }
}

/// A transport with its concrete type and its error type taken away: it takes
/// bytes and flushes, and never reports a failure.
///
/// The contracts of `write` and `flush` bind every implementation: what is
/// proved of the logger holds for a transport that keeps to them.
pub trait EraseWrite {
    /// What this transport has been asked to do so far. It is read in
    /// contracts only and never called: an implementation in ordinary Rust
    /// gives it a body that cannot be reached.
    spec fn wire(&self) -> Wire;

    /// Hands all of `buf` to the transport.
    fn write(&mut self, buf: &[u8])
        ensures
            final(self).wire() == old(self).wire().after_write(buf@),
    ;

    /// Asks the transport to push out what it still holds back.
    fn flush(&mut self)
        ensures
            final(self).wire() == old(self).wire().after_flush(),
    ;
}

/// A transport that keeps in memory what it is handed.
pub struct Buffer {
    bytes: Vec<u8>,
    flushed: usize,
}

impl Buffer {
    /// An empty buffer.
    pub fn new() -> (buffer: Self)
        ensures
            buffer.wire() == Wire::untouched(),
    {
        Buffer { bytes: Vec::new(), flushed: 0 }
    }

    /// Every byte handed to the buffer, oldest first.
    pub fn bytes(&self) -> (bytes: &[u8])
        ensures
            bytes@ == self.wire().bytes,
    {
        self.bytes.as_slice()
    }

    /// How many bytes the buffer held when a flush was last asked for.
    pub fn flushed(&self) -> (flushed: usize)
        ensures
            flushed == self.wire().flushed,
    {
        self.flushed
    }
}

impl EraseWrite for Buffer {
    closed spec fn wire(&self) -> Wire {
        Wire { bytes: self.bytes@, flushed: self.flushed as nat }
    }

    fn write(&mut self, buf: &[u8]) {
        self.bytes.extend_from_slice(buf);
    }

    fn flush(&mut self) {
        self.flushed = self.bytes.len();
    }
}

/// What the transport in `slot` has been asked to do, if there is one.
pub open spec fn slot_wire<W: EraseWrite + ?Sized>(slot: Option<&mut W>) -> Option<Wire> {
    match slot {
        Some(writer) => Some(writer.wire()),
        None => None,
    }
}

/// A slot's record once `bytes` are delivered to it: `bytes` more where a
/// transport is registered, still nothing where none is.
pub open spec fn delivered(wire: Option<Wire>, bytes: Seq<u8>) -> Option<Wire> {
    match wire {
        Some(w) => Some(w.after_write(bytes)),
        None => None,
    }
}

/// Forwards `remaining` to the transport in `slot`; with no transport
/// registered the bytes are dropped. The slot holds the reference that it
/// held before.
pub fn write_serial<W: EraseWrite + ?Sized>(slot: &mut Option<&mut W>, remaining: &[u8])
    ensures
        slot_wire(*final(slot)) == delivered(slot_wire(*old(slot)), remaining@),
        *old(slot) is Some ==> final((*final(slot))->0).wire() == final((*old(slot))->0).wire(),
{
    if let Some(writer) = slot {
        writer.write(remaining);
    }
}

} // verus!

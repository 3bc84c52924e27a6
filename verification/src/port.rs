//! The serial device boundary: an abstract port capability with a
//! mathematical model of its readable byte queue.
//!
//! A port is modelled by three spec-level quantities: the queue of bytes
//! currently available to be read back (`pending`), the bytes a write of a
//! given payload adds to that queue (`echo_of`, the device's echo behaviour),
//! and the negotiated symbol rate (`baud`). Every operation's effect on the
//! model is pinned by its contract, so the echo-test engine can be verified
//! against any device: a faithful loopback, a device that swallows data, or
//! a real driver supplied by the surrounding program.

use vstd::prelude::*;

verus! {

/// An error reported by a device operation. Trials treat these as non-fatal:
/// the operation is not retried and the trial proceeds with whatever data
/// resulted.
#[derive(Clone, Copy, Debug, PartialEq, Eq, Structural)]
pub struct PortError {}

/// How many bytes a read drains: all that are available, capped by the
/// receive buffer's capacity.
pub open spec fn read_len(avail: nat, cap: nat) -> nat {
    if avail <= cap {
        avail
    } else {
        cap
    }
}

/// The receive buffer after a read: the drained prefix of the device queue,
/// then the untouched tail of the buffer.
pub open spec fn buf_after_read(pending: Seq<u8>, buf: Seq<u8>) -> Seq<u8> {
    let n = read_len(pending.len(), buf.len()) as int;
    pending.take(n) + buf.skip(n)
}

/// The device queue after a read into a buffer of the given contents.
pub open spec fn queue_after_read(pending: Seq<u8>, buf: Seq<u8>) -> Seq<u8> {
    pending.skip(read_len(pending.len(), buf.len()) as int)
}

/// A serial device configured as a loopback endpoint, lent to the engine for
/// the duration of each trial. The engine never opens, closes or reconfigures
/// it.
/// A verified implementation overrides the three model functions and is
/// proved to maintain them; an unverified driver adapter outside the library
/// may leave them at their defaults, and is trusted to behave as a device.
pub trait Port: Sized {
    /// The bytes queued in the device, available to be read back.
    open spec fn pending(&self) -> Seq<u8> {
        Seq::empty()
    }

    /// The bytes a write of `data` adds to the readable queue: identity for a
    /// faithful echo device, empty for one that swallows its input.
    open spec fn echo_of(&self, data: Seq<u8>) -> Seq<u8> {
        Seq::empty()
    }

    /// The negotiated symbol rate, if the device reports one.
    open spec fn baud(&self) -> Option<u64> {
        None
    }

    /// Flush the device's transmit side so that written data is on the wire.
    /// The readable queue and the device's behaviour are unaffected.
    fn flush(&mut self) -> (r: Result<(), PortError>)
        ensures
            final(self).pending() == old(self).pending(),
            forall|d: Seq<u8>| final(self).echo_of(d) == old(self).echo_of(d),
            final(self).baud() == old(self).baud(),
    ;

    /// Write a payload to the device; its echo joins the readable queue.
    fn write(&mut self, data: &Vec<u8>) -> (r: Result<usize, PortError>)
        ensures
            final(self).pending() == old(self).pending() + old(self).echo_of(data@),
            forall|d: Seq<u8>| final(self).echo_of(d) == old(self).echo_of(d),
            final(self).baud() == old(self).baud(),
            r matches Ok(n) ==> n <= data@.len(),
    ;

    /// Read into `buf`: fills as much of the buffer as is currently
    /// available, which may be fewer bytes than requested; positions past the
    /// drained prefix keep their old contents.
    fn read(&mut self, buf: &mut Vec<u8>) -> (r: Result<usize, PortError>)
        ensures
            final(buf)@ == buf_after_read(old(self).pending(), old(buf)@),
            final(self).pending() == queue_after_read(old(self).pending(), old(buf)@),
            forall|d: Seq<u8>| final(self).echo_of(d) == old(self).echo_of(d),
            final(self).baud() == old(self).baud(),
            r matches Ok(n) ==> n == read_len(old(self).pending().len(), old(buf)@.len()),
    ;

    /// The currently negotiated symbol rate, or `None` if the device cannot
    /// report one.
    fn current_baud_rate(&self) -> (r: Option<u64>)
        ensures
            r == self.baud(),
    ;

    /// Block for the given number of milliseconds while bits travel the wire.
    /// An in-memory device returns immediately; the model is unaffected
    /// either way.
    fn wait(&mut self, millis: u64)
        ensures
            final(self).pending() == old(self).pending(),
            forall|d: Seq<u8>| final(self).echo_of(d) == old(self).echo_of(d),
            final(self).baud() == old(self).baud(),
    ;
}

} // verus!

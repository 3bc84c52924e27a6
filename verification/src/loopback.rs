//! In-memory devices: a faithful loopback that echoes every byte written, and
//! a sink that swallows its input. Both implement the port capability with a
//! fully verified model, so trials over them have provable outcomes.

use vstd::prelude::*;

use crate::port::{buf_after_read, queue_after_read, read_len, Port, PortError};

verus! {

/// A faithful in-memory loopback device: every byte written is queued and
/// read back unchanged, in order.
pub struct EchoPort {
    queue: Vec<u8>,
    rate: u64,
}

impl EchoPort {
    /// A fresh loopback device with nothing queued, reporting the given
    /// symbol rate.
    pub fn new(rate: u64) -> (p: EchoPort)
        ensures
            p.pending() == Seq::<u8>::empty(),
            forall|d: Seq<u8>| p.echo_of(d) == d,
            p.baud() == Some(rate),
    {
        EchoPort { queue: Vec::new(), rate }
    }
}

impl Port for EchoPort {
    closed spec fn pending(&self) -> Seq<u8> {
        self.queue@
    }

    closed spec fn echo_of(&self, data: Seq<u8>) -> Seq<u8> {
        data
    }

    closed spec fn baud(&self) -> Option<u64> {
        Some(self.rate)
    }

    fn flush(&mut self) -> (r: Result<(), PortError>) {
        Ok(())
    }

    fn write(&mut self, data: &Vec<u8>) -> (r: Result<usize, PortError>) {
        let ghost q0 = self.queue@;
        let ghost r0 = self.rate;
        proof {
            assert(q0 + data@.take(0) =~= q0);
        }
        let mut i: usize = 0;
        while i < data.len()
            invariant
                i <= data@.len(),
                self.queue@ == q0 + data@.take(i as int),
                self.rate == r0,
            decreases data@.len() - i,
        {
            self.queue.push(data[i]);
            i = i + 1;
            proof {
                assert(self.queue@ =~= q0 + data@.take(i as int));
            }
        }
        proof {
            assert(q0 + data@.take(data@.len() as int) =~= q0 + data@);
        }
        Ok(data.len())
    }

    fn read(&mut self, buf: &mut Vec<u8>) -> (r: Result<usize, PortError>) {
        let ghost q0 = self.queue@;
        let ghost b0 = buf@;
        let ghost r0 = self.rate;
        let n: usize = if self.queue.len() <= buf.len() {
            self.queue.len()
        } else {
            buf.len()
        };
        let mut i: usize = 0;
        while i < n
            invariant
                i <= n,
                n == read_len(q0.len(), b0.len()),
                self.queue@ == q0,
                self.rate == r0,
                buf@.len() == b0.len(),
                forall|j: int| 0 <= j < i ==> buf@[j] == q0[j],
                forall|j: int| i <= j < b0.len() ==> buf@[j] == b0[j],
            decreases n - i,
        {
            let byte = self.queue[i];
            buf.set(i, byte);
            i = i + 1;
        }
        let ghost b1 = buf@;
        let mut rest: Vec<u8> = Vec::new();
        let mut j: usize = n;
        while j < self.queue.len()
            invariant
                n <= j <= q0.len(),
                n == read_len(q0.len(), b0.len()),
                self.queue@ == q0,
                self.rate == r0,
                buf@ == b1,
                rest@ =~= q0.subrange(n as int, j as int),
            decreases q0.len() - j,
        {
            let byte = self.queue[j];
            rest.push(byte);
            j = j + 1;
        }
        self.queue = rest;
        proof {
            assert(buf@ =~= buf_after_read(q0, b0));
            assert(self.queue@ =~= queue_after_read(q0, b0));
        }
        Ok(n)
    }

    fn current_baud_rate(&self) -> (r: Option<u64>) {
        Some(self.rate)
    }

    fn wait(&mut self, millis: u64) {
    }
}

/// A device that accepts every write and never returns a byte: a pure
/// passthrough failure. It reports no symbol rate, so the engine falls back
/// to its default.
pub struct SinkPort {}

impl SinkPort {
    /// A fresh sink device.
    pub fn new() -> (p: SinkPort)
        ensures
            p.pending() == Seq::<u8>::empty(),
            forall|d: Seq<u8>| p.echo_of(d) == Seq::<u8>::empty(),
            p.baud() == Option::<u64>::None,
    {
        SinkPort {}
    }
}

impl Port for SinkPort {
    closed spec fn pending(&self) -> Seq<u8> {
        Seq::empty()
    }

    closed spec fn echo_of(&self, data: Seq<u8>) -> Seq<u8> {
        Seq::empty()
    }

    closed spec fn baud(&self) -> Option<u64> {
        None
    }

    fn flush(&mut self) -> (r: Result<(), PortError>) {
        Ok(())
    }

    fn write(&mut self, data: &Vec<u8>) -> (r: Result<usize, PortError>) {
        proof {
            assert(Seq::<u8>::empty() + Seq::<u8>::empty() =~= Seq::<u8>::empty());
        }
        Ok(data.len())
    }

    fn read(&mut self, buf: &mut Vec<u8>) -> (r: Result<usize, PortError>) {
        proof {
            assert(buf@ =~= buf_after_read(Seq::<u8>::empty(), buf@));
            assert(Seq::<u8>::empty() =~= queue_after_read(Seq::<u8>::empty(), buf@));
        }
        Ok(0)
    }

    fn current_baud_rate(&self) -> (r: Option<u64>) {
        None
    }

    fn wait(&mut self, millis: u64) {
    }
}

} // verus!

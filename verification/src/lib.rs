//! A serial loopback test library: payload generation, a timing model for a
//! UART-style transport, an echo-test engine over an abstract port device,
//! trial orchestration, and result reporting.

pub mod engine;
pub mod loopback;
pub mod orchestrator;
pub mod payload;
pub mod port;
pub mod report;

use vstd::prelude::*;

verus! {

/// A sequence of `n` zero bytes: the shape of a freshly cleared receive buffer.
pub open spec fn zero_seq(n: nat) -> Seq<u8> {
    Seq::new(n, |i: int| 0u8)
}

} // verus!

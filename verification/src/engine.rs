//! The echo-test engine: one write/wait/read round trip against a port, with
//! a timing budget derived from the payload size and the negotiated baud rate.

use vstd::prelude::*;

use crate::port::{buf_after_read, queue_after_read, Port};
use crate::payload::zero_data;
use crate::zero_seq;

verus! {

/// Symbol rate assumed when the device cannot report one.
pub const DEFAULT_BAUD: u64 = 9600;

/// Multiplier over the one-way transmission time. A round trip needs a factor
/// of 2; the extra margin tolerates scheduling jitter and device latency.
pub const ROUND_TRIP_SAFETY_FACTOR: u64 = 3;

/// Bits each payload byte occupies on the wire: 8 data bits framed with
/// start/stop/parity overhead, approximated as 10.
pub const WIRE_BITS_PER_BYTE: u64 = 10;

/// Milliseconds in a second.
pub const MILLIS_PER_SECOND: u64 = 1000;

/// The wait between write and read, in milliseconds, before saturation.
///
/// With `bits = 8 * size` payload bits and an on-wire bit rate of
/// `8 * baud / 10` bits per second, the one-way time is `bits / bit_rate`
/// seconds, i.e. `1000 * 10 * size / baud` milliseconds; the whole budget is
/// that times the safety factor, truncated once at the end.
pub open spec fn wait_millis_spec(size: nat, baud: nat) -> nat
    recommends
        baud >= 1,
{
    ((ROUND_TRIP_SAFETY_FACTOR * MILLIS_PER_SECOND * WIRE_BITS_PER_BYTE * size) / (baud as int)) as nat
}

/// Compute the timing budget for one trial, saturating at `u64::MAX`.
pub fn wait_millis(size: usize, baud: u64) -> (ms: u64)
    requires
        baud >= 1,
    ensures
        wait_millis_spec(size as nat, baud as nat) <= u64::MAX ==> ms == wait_millis_spec(
            size as nat,
            baud as nat,
        ),
        wait_millis_spec(size as nat, baud as nat) > u64::MAX ==> ms == u64::MAX,
{
    proof {
        assert(ROUND_TRIP_SAFETY_FACTOR * MILLIS_PER_SECOND * WIRE_BITS_PER_BYTE == 30000);
    }
    let budget: u128 = 30000u128 * (size as u128) / (baud as u128);
    if budget > u64::MAX as u128 {
        u64::MAX
    } else {
        budget as u64
    }
}

/// Byte-exact comparison of two buffers.
pub fn bytes_equal(a: &Vec<u8>, b: &Vec<u8>) -> (r: bool)
    ensures
        r == (a@ == b@),
{
    if a.len() != b.len() {
        return false;
    }
    let mut i: usize = 0;
    while i < a.len()
        invariant
            i <= a@.len(),
            a@.len() == b@.len(),
            forall|j: int| 0 <= j < i ==> a@[j] == b@[j],
        decreases a@.len() - i,
    {
        if a[i] != b[i] {
            return false;
        }
        i = i + 1;
    }
    proof {
        assert(a@ =~= b@);
    }
    true
}

/// The bytes the receive buffer holds at the comparison step of a trial over
/// a device whose queue held `pending` and whose write enqueued `echoed`: the
/// read drains that queue into a freshly zeroed buffer of `n` bytes.
pub open spec fn trial_received(pending: Seq<u8>, echoed: Seq<u8>, n: nat) -> Seq<u8> {
    buf_after_read(pending + echoed, zero_seq(n))
}

/// One echo trial: flush stale data, write the payload, flush the transmit
/// side, wait out the timing budget, read into a zeroed buffer of the same
/// length, and compare. Device errors are non-fatal: the comparison runs
/// against whatever data resulted.
pub fn run_trial<P: Port>(port: &mut P, sent: &Vec<u8>) -> (passed: bool)
    ensures
        passed == (sent@ == trial_received(
            old(port).pending(),
            old(port).echo_of(sent@),
            sent@.len(),
        )),
        sent@.len() == 0 ==> passed,
        final(port).pending() == queue_after_read(
            old(port).pending() + old(port).echo_of(sent@),
            zero_seq(sent@.len()),
        ),
        forall|d: Seq<u8>| final(port).echo_of(d) == old(port).echo_of(d),
        final(port).baud() == old(port).baud(),
{
    let _ = port.flush();
    let _ = port.write(sent);
    let _ = port.flush();
    let baud = match port.current_baud_rate() {
        Some(b) => if b >= 1 {
            b
        } else {
            DEFAULT_BAUD
        },
        None => DEFAULT_BAUD,
    };
    let ms = wait_millis(sent.len(), baud);
    port.wait(ms);
    let mut received = zero_data(sent.len());
    let _ = port.read(&mut received);
    let passed = bytes_equal(sent, &received);
    proof {
        if sent@.len() == 0 {
            assert(sent@ =~= trial_received(
                old(port).pending(),
                old(port).echo_of(sent@),
                sent@.len(),
            ));
        }
    }
    passed
}

/// A device with an empty queue that echoes every write unchanged hands the
/// whole payload back, so the trial's comparison succeeds for any payload.
pub proof fn lemma_faithful_echo_passes(sent: Seq<u8>)
    ensures
        trial_received(Seq::<u8>::empty(), sent, sent.len()) == sent,
{
    assert(Seq::<u8>::empty() + sent =~= sent);
    assert(trial_received(Seq::<u8>::empty(), sent, sent.len()) =~= sent);
}

/// A device that accepts writes but never returns a byte leaves the zeroed
/// receive buffer untouched, so the trial fails for every payload that holds
/// at least one non-zero byte.
pub proof fn lemma_silent_device_fails(sent: Seq<u8>)
    requires
        exists|i: int| 0 <= i < sent.len() && sent[i] != 0,
    ensures
        trial_received(Seq::<u8>::empty(), Seq::<u8>::empty(), sent.len()) != sent,
{
    let i = choose|i: int| 0 <= i < sent.len() && sent[i] != 0;
    assert(trial_received(Seq::<u8>::empty(), Seq::<u8>::empty(), sent.len()) =~= zero_seq(
        sent.len(),
    ));
    assert(zero_seq(sent.len())[i] == 0);
}

} // verus!

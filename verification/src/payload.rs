//! Payload generation: zero-filled buffers for receive staging and random
//! buffers for transmission.

use vstd::prelude::*;

verus! {

/// How a payload is filled: drawn from the process-wide random generator for
/// transmission, or zeroed to stage a receive buffer.
#[derive(Clone, Copy, Debug, PartialEq, Eq, Structural)]
pub enum PayloadMode {
    Random,
    Zero,
}

/// Relies on rand::random: one byte drawn uniformly from the thread-local
/// generator; nothing is promised of its value.
#[verifier::external_body]
fn random_byte() -> u8 {
    rand::random()
}

/// Create a byte array of the given size, each byte drawn independently from
/// the process-wide random generator.
pub fn random_data(size: usize) -> (v: Vec<u8>)
    ensures
        v@.len() == size,
{
    let mut v: Vec<u8> = Vec::new();
    let mut i: usize = 0;
    while i < size
        invariant
            i <= size,
            v@.len() == i,
        decreases size - i,
    {
        v.push(random_byte());
        i = i + 1;
    }
    v
}

/// Produce a payload of the given size in the given mode. Always succeeds,
/// for any size.
pub fn generate(size: usize, mode: PayloadMode) -> (v: Vec<u8>)
    ensures
        v@.len() == size,
        mode is Zero ==> v@ == crate::zero_seq(size as nat),
{
    match mode {
        PayloadMode::Random => random_data(size),
        PayloadMode::Zero => zero_data(size),
    }
}

/// Zero-mode generation is deterministic: two buffers produced for the same
/// size are bit-identical.
pub proof fn lemma_zero_mode_deterministic(a: Seq<u8>, b: Seq<u8>, size: nat)
    requires
        a == crate::zero_seq(size),
        b == crate::zero_seq(size),
    ensures
        a == b,
{
}

/// Create a zeroed byte array of the given size.
pub fn zero_data(size: usize) -> (v: Vec<u8>)
    ensures
        v@ == crate::zero_seq(size as nat),
{
    let mut v: Vec<u8> = Vec::new();
    let mut i: usize = 0;
    while i < size
        invariant
            i <= size,
            v@ =~= crate::zero_seq(i as nat),
        decreases size - i,
    {
        v.push(0);
        i = i + 1;
        proof {
            assert(v@ =~= crate::zero_seq(i as nat));
        }
    }
    proof {
        assert(v@ =~= crate::zero_seq(size as nat));
    }
    v
}

} // verus!

//! The SHAKE256 extendable-output function of `tiny_keccak`, as a sponge that
//! absorbs bytes and then hands out an unbounded stream of output bytes.

use tiny_keccak::{Hasher, Shake, Xof};
use vstd::prelude::*;

verus! {

#[verifier::external_type_specification]
#[verifier::external_body]
pub struct ExShake(Shake);

/// The bytes that a SHAKE256 sponge has absorbed so far.
pub uninterp spec fn shake_absorbed(s: Shake) -> Seq<u8>;

/// How many output bytes have been squeezed out of a SHAKE256 sponge so far.
pub uninterp spec fn shake_squeezed(s: Shake) -> nat;

/// Whether output has ever been taken from a SHAKE256 sponge. The first
/// squeeze, even of no bytes, pads and permutes the state and switches the
/// sponge to squeezing; input absorbed after that is no longer appended to the
/// message.
pub uninterp spec fn shake_has_squeezed(s: Shake) -> bool;

/// Byte number `i` of the SHAKE256 output stream on the message `msg`.
pub uninterp spec fn shake256_stream_byte(msg: Seq<u8>, i: nat) -> u8;

/// The `len` bytes of the SHAKE256 output stream on `msg` that start at
/// position `start`.
pub open spec fn shake256_output(msg: Seq<u8>, start: nat, len: nat) -> Seq<u8> {
    Seq::new(len, |k: int| shake256_stream_byte(msg, (start + k) as nat))
}

/// Calls `tiny_keccak::Shake::v256`: a fresh SHAKE256 sponge that has absorbed
/// nothing and handed out nothing.
#[verifier::external_body]
pub(crate) fn shake256_new() -> (s: Shake)
    ensures
        shake_absorbed(s) == Seq::<u8>::empty(),
        shake_squeezed(s) == 0,
        !shake_has_squeezed(s),
{
    Shake::v256()
}

/// Calls `<Shake as Hasher>::update` on a sponge that was never squeezed: it
/// absorbs `input` after what it held (in absorbing mode tiny_keccak folds the
/// bytes into the same rate buffer, so absorbing in pieces is absorbing the
/// concatenation).
#[verifier::external_body]
pub(crate) fn shake_update(s: &mut Shake, input: &[u8])
    requires
        !shake_has_squeezed(*old(s)),
    ensures
        shake_absorbed(*final(s)) == shake_absorbed(*old(s)) + input@,
        shake_squeezed(*final(s)) == shake_squeezed(*old(s)),
        !shake_has_squeezed(*final(s)),
{
    s.update(input)
}

/// Calls `<Shake as Xof>::squeeze`: `out` is overwritten with the next
/// `out.len()` bytes of the output stream on what the sponge absorbed, and the
/// stream position moves past them (tiny_keccak keeps its offset in the output
/// block between calls).
#[verifier::external_body]
pub(crate) fn shake_squeeze(s: &mut Shake, out: &mut [u8])
    ensures
        final(out)@ == Seq::new(
            old(out)@.len(),
            |k: int| shake256_stream_byte(shake_absorbed(*old(s)), (shake_squeezed(*old(s)) + k) as nat),
        ),
        shake_absorbed(*final(s)) == shake_absorbed(*old(s)),
        shake_squeezed(*final(s)) == shake_squeezed(*old(s)) + old(out)@.len(),
        shake_has_squeezed(*final(s)),
{
    s.squeeze(out)
}

/// Squeezing `n` bytes and then `m` more gives the same bytes as squeezing
/// `n + m` at once: the output is one stream. For an entropy pool this says
/// that two consecutive fills hand out what one fill of their total length
/// would.
pub proof fn lemma_output_split(msg: Seq<u8>, start: nat, n: nat, m: nat)
    ensures
        shake256_output(msg, start, n) + shake256_output(msg, start + n, m)
            == shake256_output(msg, start, n + m),
{
    assert(shake256_output(msg, start, n) + shake256_output(msg, start + n, m)
        =~= shake256_output(msg, start, n + m));
}

} // verus!

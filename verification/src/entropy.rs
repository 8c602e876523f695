//! One-shot random byte generation: operating-system entropy and the CPU's
//! RDRAND/RDSEED values are absorbed by SHAKE256, whose output stream gives
//! as many bytes as are asked for.

use crate::cpu_entropy;
use crate::shake::{
    shake256_new, shake256_output, shake_absorbed, shake_has_squeezed, shake_squeeze, shake_squeezed, shake_update,
};
use tiny_keccak::Shake;
use vstd::bytes::*;
use vstd::prelude::*;

verus! {

#[verifier::external_type_specification]
#[verifier::external_body]
pub struct ExGetrandomError(getrandom::Error);

/// Why random bytes could not be produced.
#[derive(Clone, Copy, Debug, PartialEq, Eq, Structural)]
pub enum EntropyError {
    /// The operating system refused to provide entropy.
    OsEntropyUnavailable,
}

/// Calls `getrandom::fill` on a 64-byte buffer: the filled buffer, or the
/// error the operating system gave. Nothing is stated of the bytes, which are
/// random, nor of whether the call succeeds, which depends on the system.
#[verifier::external_body]
fn os_fill_64() -> (r: Result<[u8; 64], getrandom::Error>) {
    let mut buf = [0u8; 64];
    match getrandom::fill(&mut buf) {
        Ok(()) => Ok(buf),
        Err(e) => Err(e),
    }
}

/// 64 bytes of operating-system entropy, or `OsEntropyUnavailable` when the
/// system refuses to provide them.
pub(crate) fn os_entropy() -> (r: Result<[u8; 64], EntropyError>) {
    match os_fill_64() {
        Ok(buf) => Ok(buf),
        Err(_) => Err(EntropyError::OsEntropyUnavailable),
    }
}

/// What a CPU random value adds to the seed: its eight little-endian bytes,
/// or nothing when it is zero (zero stands for "the instruction gave
/// nothing").
pub open spec fn cpu_contribution(v: u64) -> Seq<u8> {
    if v != 0 {
        spec_u64_to_le_bytes(v)
    } else {
        Seq::<u8>::empty()
    }
}

/// The message that SHAKE256 absorbs: the RDRAND value, the RDSEED value
/// (each only when nonzero) and then the operating-system bytes.
pub open spec fn seed_material(rdrand: u64, rdseed: u64, os: Seq<u8>) -> Seq<u8> {
    cpu_contribution(rdrand) + cpu_contribution(rdseed) + os
}

/// The bytes that one generation hands out for the given entropy sources.
pub open spec fn mixed_bytes(size: nat, os: Seq<u8>, rdrand: u64, rdseed: u64) -> Seq<u8> {
    shake256_output(seed_material(rdrand, rdseed, os), 0, size)
}

/// Absorbs the CPU values that are nonzero into a fresh sponge, which has
/// absorbed nothing else.
pub(crate) fn absorb_cpu_values(s: &mut Shake, rdrand: u64, rdseed: u64)
    requires
        shake_absorbed(*old(s)) == Seq::<u8>::empty(),
        shake_squeezed(*old(s)) == 0,
        !shake_has_squeezed(*old(s)),
    ensures
        shake_absorbed(*final(s)) == cpu_contribution(rdrand) + cpu_contribution(rdseed),
        shake_squeezed(*final(s)) == 0,
        !shake_has_squeezed(*final(s)),
{
    if rdrand != 0 {
        let bytes = u64_to_le_bytes(rdrand);
        shake_update(s, bytes.as_slice());
    }
    if rdseed != 0 {
        let bytes = u64_to_le_bytes(rdseed);
        shake_update(s, bytes.as_slice());
    }
    assert(shake_absorbed(*s) =~= cpu_contribution(rdrand) + cpu_contribution(rdseed));
}

/// `size` random bytes from given entropy: the first `size` bytes of the
/// SHAKE256 stream on the nonzero CPU values and the operating-system bytes.
/// A CPU value of zero means that the instruction gave nothing.
pub fn random_bytes_from_sources(size: usize, os: &[u8; 64], rdrand: u64, rdseed: u64) -> (r: Vec<u8>)
    ensures
        r@ == mixed_bytes(size as nat, os@, rdrand, rdseed),
        r@.len() == size,
{
    let mut hasher = shake256_new();
    absorb_cpu_values(&mut hasher, rdrand, rdseed);
    shake_update(&mut hasher, os.as_slice());
    let mut out: Vec<u8> = vec![0u8; size];
    shake_squeeze(&mut hasher, out.as_mut_slice());
    proof {
        assert(seed_material(rdrand, rdseed, os@) =~= shake_absorbed(hasher));
    }
    out
}

/// Generating `n` bytes and generating `m >= n` bytes from the same entropy
/// agree on the first `n` bytes: the outputs are prefixes of one stream.
pub proof fn lemma_mixed_bytes_prefix(n: nat, m: nat, os: Seq<u8>, rdrand: u64, rdseed: u64)
    requires
        n <= m,
    ensures
        mixed_bytes(n, os, rdrand, rdseed) == mixed_bytes(m, os, rdrand, rdseed).subrange(0, n as int),
{
    assert(mixed_bytes(n, os, rdrand, rdseed) =~= mixed_bytes(m, os, rdrand, rdseed).subrange(0, n as int));
}

/// `size` random bytes: 64 bytes of operating-system entropy and, when the
/// processor gives them, one RDRAND and one RDSEED value (up to 50 queries
/// each) are mixed by SHAKE256. Whatever the sources gave, the result is the
/// SHAKE256 stream on their seed material. Fails only when the operating
/// system refuses entropy.
pub fn generate_random_bytes(size: usize) -> (r: Result<Vec<u8>, EntropyError>)
    ensures
        r matches Ok(bytes) ==> bytes@.len() == size && exists|os: Seq<u8>, rdrand: u64, rdseed: u64|
            os.len() == 64 && bytes@ == #[trigger] mixed_bytes(size as nat, os, rdrand, rdseed),
{
    let os = match os_entropy() {
        Ok(buf) => buf,
        Err(e) => return Err(e),
    };
    let rdrand = match cpu_entropy::gen_rdrand(50) {
        Some(v) => v,
        None => 0,
    };
    let rdseed = match cpu_entropy::gen_rdseed(50) {
        Some(v) => v,
        None => 0,
    };
    let r = random_bytes_from_sources(size, &os, rdrand, rdseed);
    assert(os@.len() == 64);
    Ok(r)
}

} // verus!

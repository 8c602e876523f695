//! A deterministic random bit generator seeded from hardware and operating
//! system entropy: a SHAKE256 sponge absorbs the seed once, and every request
//! takes the next bytes of its output stream.

use crate::cpu_entropy;
use crate::entropy::{absorb_cpu_values, mixed_bytes, os_entropy, seed_material, EntropyError};
use crate::shake::{shake256_new, shake256_output, shake_absorbed, shake_squeeze, shake_squeezed, shake_update};
use tiny_keccak::Shake;
use vstd::bytes::*;
use vstd::prelude::*;

verus! {

/// A SHAKE256 output stream over a seed taken from the CPU and the operating
/// system, and the number of bytes handed out so far.
pub struct HardwareEntropyPool {
    state: Shake,
    counter: usize,
}

impl HardwareEntropyPool {
    /// The message that the pool's sponge absorbed.
    pub closed spec fn seed(&self) -> Seq<u8> {
        shake_absorbed(self.state)
    }

    /// How many bytes the pool has handed out.
    pub closed spec fn position(&self) -> nat {
        self.counter as nat
    }

    /// The counter agrees with the sponge's stream position.
    #[verifier::type_invariant]
    spec fn counter_matches_stream(self) -> bool {
        shake_squeezed(self.state) == self.counter as nat
    }

    /// A pool over the given entropy: the nonzero CPU values and the
    /// operating-system bytes, in that order.
    pub fn from_sources(os: &[u8; 64], rdrand: u64, rdseed: u64) -> (pool: Self)
        ensures
            pool.seed() == seed_material(rdrand, rdseed, os@),
            pool.position() == 0,
    {
        let mut hasher = shake256_new();
        absorb_cpu_values(&mut hasher, rdrand, rdseed);
        shake_update(&mut hasher, os.as_slice());
        HardwareEntropyPool { state: hasher, counter: 0 }
    }

    /// A pool seeded with 64 bytes of operating-system entropy and, when the
    /// processor gives them, one RDRAND and one RDSEED value (up to 50 queries
    /// each), together with whether RDRAND and whether RDSEED gave nothing (a
    /// degraded source). Fails only when the operating system refuses entropy.
    pub fn new_with_report() -> (r: Result<(Self, bool, bool), EntropyError>)
        ensures
            r matches Ok((pool, rdrand_missing, rdseed_missing)) ==> pool.position() == 0
                && exists|os: Seq<u8>, rdrand: u64, rdseed: u64|
                os.len() == 64 && pool.seed() == #[trigger] seed_material(rdrand, rdseed, os)
                    && rdrand_missing == (rdrand == 0) && rdseed_missing == (rdseed == 0),
    {
        let os = match os_entropy() {
            Ok(buf) => buf,
            Err(e) => return Err(e),
        };
        let rdrand = match cpu_entropy::gen_rdrand(50) {
            Some(v) => v,
            None => 0,
        };
        let rdseed = match cpu_entropy::gen_rdseed(50) {
            Some(v) => v,
            None => 0,
        };
        let pool = Self::from_sources(&os, rdrand, rdseed);
        assert(os@.len() == 64);
        Ok((pool, rdrand == 0, rdseed == 0))
    }

    /// A pool seeded with 64 bytes of operating-system entropy and, when the
    /// processor gives them, one RDRAND and one RDSEED value (up to 50 queries
    /// each). Fails only when the operating system refuses entropy.
    pub fn new() -> (r: Result<Self, EntropyError>)
        ensures
            r matches Ok(pool) ==> pool.position() == 0 && exists|os: Seq<u8>, rdrand: u64, rdseed: u64|
                os.len() == 64 && pool.seed() == #[trigger] seed_material(rdrand, rdseed, os),
    {
        match Self::new_with_report() {
            Ok((pool, _, _)) => Ok(pool),
            Err(e) => Err(e),
        }
    }

    /// How many bytes the pool has handed out.
    pub fn bytes_squeezed(&self) -> (n: usize)
        ensures
            n == self.position(),
    {
        self.counter
    }

    /// Fills `dst` with the next `dst.len()` bytes of the pool's stream.
    pub fn fill_bytes(&mut self, dst: &mut [u8])
        requires
            old(self).position() + old(dst)@.len() <= usize::MAX,
        ensures
            final(self).seed() == old(self).seed(),
            final(self).position() == old(self).position() + old(dst)@.len(),
            final(dst)@ == shake256_output(old(self).seed(), old(self).position(), old(dst)@.len()),
    {
        proof {
            use_type_invariant(&*self);
        }
        // Take the pool out of `self` (leaving a fresh sponge there), so that
        // the sponge and the counter can be advanced one after the other.
        let mut taken = HardwareEntropyPool { state: shake256_new(), counter: 0 };
        std::mem::swap(self, &mut taken);
        proof {
            use_type_invariant(&taken);
        }
        let HardwareEntropyPool { mut state, counter } = taken;
        shake_squeeze(&mut state, dst);
        *self = HardwareEntropyPool { state, counter: counter + dst.len() };
        assert(final(dst)@ =~= shake256_output(old(self).seed(), old(self).position(), old(dst)@.len()));
    }

    /// The next four bytes of the stream, read as a little-endian `u32`.
    pub fn next_u32(&mut self) -> (r: u32)
        requires
            old(self).position() + 4 <= usize::MAX,
        ensures
            final(self).seed() == old(self).seed(),
            final(self).position() == old(self).position() + 4,
            r == spec_u32_from_le_bytes(shake256_output(old(self).seed(), old(self).position(), 4)),
    {
        let mut buf: Vec<u8> = vec![0u8; 4];
        self.fill_bytes(buf.as_mut_slice());
        u32_from_le_bytes(buf.as_slice())
    }

    /// The next eight bytes of the stream, read as a little-endian `u64`.
    pub fn next_u64(&mut self) -> (r: u64)
        requires
            old(self).position() + 8 <= usize::MAX,
        ensures
            final(self).seed() == old(self).seed(),
            final(self).position() == old(self).position() + 8,
            r == spec_u64_from_le_bytes(shake256_output(old(self).seed(), old(self).position(), 8)),
    {
        let mut buf: Vec<u8> = vec![0u8; 8];
        self.fill_bytes(buf.as_mut_slice());
        u64_from_le_bytes(buf.as_slice())
    }
}

/// `size` random bytes taken from a freshly seeded pool. Fails only when the
/// operating system refuses entropy.
pub fn generate_random_bytes(size: usize) -> (r: Result<Vec<u8>, EntropyError>)
    ensures
        r matches Ok(bytes) ==> bytes@.len() == size && exists|os: Seq<u8>, rdrand: u64, rdseed: u64|
            os.len() == 64 && bytes@ == #[trigger] mixed_bytes(size as nat, os, rdrand, rdseed),
{
    let mut pool = match HardwareEntropyPool::new() {
        Ok(pool) => pool,
        Err(e) => return Err(e),
    };
    let ghost seed = pool.seed();
    let mut out: Vec<u8> = vec![0u8; size];
    pool.fill_bytes(out.as_mut_slice());
    proof {
        let (os, a, b) = choose|os: Seq<u8>, rdrand: u64, rdseed: u64|
            os.len() == 64 && seed == #[trigger] seed_material(rdrand, rdseed, os);
        assert(out@ == mixed_bytes(size as nat, os, a, b));
    }
    Ok(out)
}

} // verus!

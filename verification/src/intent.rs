//! Stretching an intent text into a 32-byte key that biases point clouds.

use crate::entropy::{self, mixed_bytes, EntropyError};
use crate::shake::{shake256_new, shake256_output, shake_squeeze, shake_update};
use crate::vault::{argon2id_v13_hash, get_master_key, master_key_accepted, SecurityProfile};
use vstd::prelude::*;
use vstd::string::StringSliceAdditionalSpecFns;

verus! {

/// The key of an intent with a given salt: the Argon2id master key at the
/// `Fast` profile, or, where Argon2 refuses the input, the first 32 bytes of
/// SHAKE256 on the intent's bytes followed by the salt.
pub open spec fn intent_key(intent: Seq<u8>, salt: Seq<u8>) -> Seq<u8> {
    if master_key_accepted(intent.len(), salt.len(), SecurityProfile::Fast) {
        argon2id_v13_hash(
            intent,
            salt,
            SecurityProfile::Fast.costs().0,
            SecurityProfile::Fast.costs().1,
            SecurityProfile::Fast.costs().2,
        )
    } else {
        shake256_output(intent + salt, 0, 32)
    }
}

/// The intent key of `intent_text` with the salt `salt`.
pub fn hash_intent_with_salt(intent_text: &str, salt: &[u8]) -> (r: [u8; 32])
    ensures
        r@ == intent_key(intent_text.spec_bytes(), salt@),
{
    match get_master_key(intent_text, salt, SecurityProfile::Fast) {
        Ok(key) => key,
        Err(_) => {
            let mut hasher = shake256_new();
            shake_update(&mut hasher, intent_text.as_bytes());
            shake_update(&mut hasher, salt);
            let mut out = [0u8; 32];
            shake_squeeze(&mut hasher, &mut out);
            assert(out@ =~= intent_key(intent_text.spec_bytes(), salt@));
            out
        },
    }
}

/// The intent key of `intent_text` with a fresh 16-byte salt drawn from the
/// entropy generator. Fails only when the operating system refuses entropy.
pub fn hash_intent(intent_text: &str) -> (r: Result<[u8; 32], EntropyError>)
    ensures
        r matches Ok(key) ==> exists|os: Seq<u8>, rdrand: u64, rdseed: u64|
            os.len() == 64 && key@ == intent_key(
                intent_text.spec_bytes(),
                #[trigger] mixed_bytes(16, os, rdrand, rdseed),
            ),
{
    let salt = match entropy::generate_random_bytes(16) {
        Ok(bytes) => bytes,
        Err(e) => return Err(e),
    };
    let key = hash_intent_with_salt(intent_text, salt.as_slice());
    proof {
        let (os, a, b) = choose|os: Seq<u8>, rdrand: u64, rdseed: u64|
            os.len() == 64 && salt@ == #[trigger] mixed_bytes(16, os, rdrand, rdseed);
        assert(key@ == intent_key(intent_text.spec_bytes(), mixed_bytes(16, os, a, b)));
    }
    Ok(key)
}

} // verus!

//! Master-key derivation with Argon2id, at a cost chosen by a security
//! profile.

use vstd::prelude::*;
use vstd::string::StringSliceAdditionalSpecFns;

verus! {

#[verifier::external_type_specification]
#[verifier::external_body]
pub struct ExB64Error(argon2::password_hash::errors::B64Error);

#[verifier::external_type_specification]
pub struct ExArgon2Error(argon2::Error);

/// The cost levels of the key derivation.
#[derive(Clone, Copy, Debug, PartialEq, Eq, Structural)]
pub enum SecurityProfile {
    /// 16 MiB of memory, two passes.
    Fast,
    /// 32 MiB of memory, three passes.
    Standard,
}

/// The profile that a numeric code names: 1 is `Fast`, 2 is `Standard`.
pub open spec fn profile_of_code(n: u8) -> Option<SecurityProfile> {
    if n == 1 {
        Some(SecurityProfile::Fast)
    } else if n == 2 {
        Some(SecurityProfile::Standard)
    } else {
        None
    }
}

impl SecurityProfile {
    /// The numeric code of the profile.
    pub open spec fn code(self) -> u8 {
        match self {
            SecurityProfile::Fast => 1,
            SecurityProfile::Standard => 2,
        }
    }

    /// Argon2 memory cost in KiB, number of passes and lanes of the profile.
    pub open spec fn costs(self) -> (u32, u32, u32) {
        match self {
            SecurityProfile::Fast => (16384u32, 2u32, 1u32),
            SecurityProfile::Standard => (32768u32, 3u32, 1u32),
        }
    }

    /// The profile with the numeric code `n`, if there is one.
    pub fn from_u8(n: u8) -> (r: Option<Self>)
        ensures
            r == profile_of_code(n),
    {
        match n {
            1 => Some(SecurityProfile::Fast),
            2 => Some(SecurityProfile::Standard),
            _ => None,
        }
    }

    /// The numeric code of the profile (1 for `Fast`, 2 for `Standard`).
    pub fn to_u8(self) -> (n: u8)
        ensures
            n == self.code(),
    {
        match self {
            SecurityProfile::Fast => 1,
            SecurityProfile::Standard => 2,
        }
    }

    /// Argon2 memory cost in KiB, number of passes and lanes of the profile.
    pub fn argon2_costs(self) -> (c: (u32, u32, u32))
        ensures
            c == self.costs(),
    {
        match self {
            SecurityProfile::Fast => (16 * 1024, 2, 1),
            SecurityProfile::Standard => (32 * 1024, 3, 1),
        }
    }
}

/// A profile's code names that profile, and only the codes of profiles name
/// one.
pub proof fn lemma_profile_code_roundtrip(p: SecurityProfile, n: u8)
    ensures
        profile_of_code(p.code()) == Some(p),
        profile_of_code(n) == Some(p) ==> p.code() == n,
        profile_of_code(n) is Some <==> (n == 1 || n == 2),
{
}

/// The 32-byte Argon2id (version 0x13) hash of `password` with `salt` at
/// memory cost `m_cost` KiB, `t_cost` passes and `p_cost` lanes.
pub uninterp spec fn argon2id_v13_hash(password: Seq<u8>, salt: Seq<u8>, m_cost: u32, t_cost: u32, p_cost: u32) -> Seq<u8>;

/// Whether the argon2 crate accepts these costs and input lengths for a
/// 32-byte output.
pub open spec fn argon2_accepts(pwd_len: nat, salt_len: nat, m_cost: u32, t_cost: u32, p_cost: u32) -> bool {
    &&& argon2_costs_valid(m_cost, t_cost, p_cost)
    &&& pwd_len <= 0xFFFF_FFFF
    &&& 8 <= salt_len <= 0xFFFF_FFFF
}

/// The error that argon2 reports for valid costs and a refused input: a too
/// long password is checked first, then a too short salt, then a too long one.
pub open spec fn argon2_input_error(pwd_len: nat, salt_len: nat) -> argon2::Error {
    if pwd_len > 0xFFFF_FFFF {
        argon2::Error::PwdTooLong
    } else if salt_len < 8 {
        argon2::Error::SaltTooShort
    } else {
        argon2::Error::SaltTooLong
    }
}

/// Whether argon2's `Params::new` accepts these costs for a 32-byte output.
pub open spec fn argon2_costs_valid(m_cost: u32, t_cost: u32, p_cost: u32) -> bool {
    &&& m_cost >= 8
    &&& m_cost >= 8 * p_cost
    &&& t_cost >= 1
    &&& 1 <= p_cost <= 0xFF_FFFF
}

/// Calls `argon2::Params::new(m_cost, t_cost, p_cost, Some(32))`,
/// `argon2::Argon2::new` for Argon2id version 0x13 and
/// `Argon2::hash_password_into` with a 32-byte output. The argon2 source
/// refuses the costs as `Params::new` checks them (memory at least 8 KiB and 8
/// KiB per lane, at least one pass, 1 to 2^24 - 1 lanes) and the inputs as
/// `verify_inputs` checks them (password at most 2^32 - 1 bytes, salt 8 to
/// 2^32 - 1 bytes, checked in that order, after the output length, which is
/// right here); otherwise the output is the Argon2id hash. The memory cost
/// is bounded so that the block allocation stays small; the lane count so that
/// `p_cost * 8` does not overflow in `Params::new`.
#[verifier::external_body]
fn argon2id_hash(password: &[u8], salt: &[u8], m_cost: u32, t_cost: u32, p_cost: u32) -> (r: Result<[u8; 32], argon2::Error>)
    requires
        m_cost <= 32 * 1024,
        p_cost <= 0x1FFF_FFFF,
    ensures
        r is Ok <==> argon2_accepts(password@.len(), salt@.len(), m_cost, t_cost, p_cost),
        r matches Ok(k) ==> k@ == argon2id_v13_hash(password@, salt@, m_cost, t_cost, p_cost),
        argon2_costs_valid(m_cost, t_cost, p_cost) ==> (r matches Err(e)
            ==> e == argon2_input_error(password@.len(), salt@.len())),
{
    let params = argon2::Params::new(m_cost, t_cost, p_cost, Some(32))?;
    let hasher = argon2::Argon2::new(argon2::Algorithm::Argon2id, argon2::Version::V0x13, params);
    let mut out = [0u8; 32];
    hasher.hash_password_into(password, salt, &mut out)?;
    Ok(out)
}

/// Calls the `Display` impl of `argon2::Error` (through `to_string`): the
/// error's message. Stated for the three input errors, whose messages are
/// fixed strings in argon2's `error.rs`; nothing is stated of the others.
#[verifier::external_body]
fn argon2_error_text(e: &argon2::Error) -> (s: String)
    ensures
        *e == argon2::Error::PwdTooLong ==> s@ == "password is too long"@,
        *e == argon2::Error::SaltTooShort ==> s@ == "salt is too short"@,
        *e == argon2::Error::SaltTooLong ==> s@ == "salt is too long"@,
{
    e.to_string()
}

/// Whether `get_master_key` derives a key for a password of `pwd_len` bytes
/// and a salt of `salt_len` bytes under `profile`.
pub open spec fn master_key_accepted(pwd_len: nat, salt_len: nat, profile: SecurityProfile) -> bool {
    argon2_accepts(pwd_len, salt_len, profile.costs().0, profile.costs().1, profile.costs().2)
}

/// The message `get_master_key` fails with for a password of `pwd_len` bytes
/// and a salt of `salt_len` bytes that argon2 refuses.
pub open spec fn master_key_error(pwd_len: nat, salt_len: nat) -> Seq<char> {
    if pwd_len > 0xFFFF_FFFF {
        "password is too long"@
    } else if salt_len < 8 {
        "salt is too short"@
    } else {
        "salt is too long"@
    }
}

/// The master key of `password` with the salt `entropy`: the 32-byte
/// Argon2id hash at the profile's cost. It fails, with argon2's message, when
/// the salt is shorter than 8 bytes or the password or salt is longer than
/// 2^32 - 1 bytes.
pub fn get_master_key(password: &str, entropy: &[u8], profile: SecurityProfile) -> (r: Result<[u8; 32], String>)
    ensures
        r is Ok <==> (password.spec_bytes().len() <= 0xFFFF_FFFF && 8 <= entropy@.len() <= 0xFFFF_FFFF),
        r is Ok <==> master_key_accepted(password.spec_bytes().len(), entropy@.len(), profile),
        r matches Ok(k) ==> k@ == argon2id_v13_hash(
            password.spec_bytes(),
            entropy@,
            profile.costs().0,
            profile.costs().1,
            profile.costs().2,
        ),
        r matches Err(msg) ==> msg@ == master_key_error(password.spec_bytes().len(), entropy@.len()),
{
    let (m, t, p) = profile.argon2_costs();
    match argon2id_hash(password.as_bytes(), entropy, m, t, p) {
        Ok(key) => Ok(key),
        Err(e) => Err(argon2_error_text(&e)),
    }
}

} // verus!

//! Memory-hard key derivation (Argon2id).

use vstd::prelude::*;

verus! {

/// What Argon2id (version 0x13) produces for the given costs, passphrase, salt and
/// output length.
pub uninterp spec fn argon2id_output(
    m_cost: u32,
    t_cost: u32,
    p_cost: u32,
    pwd: Seq<u8>,
    salt: Seq<u8>,
    out_len: usize,
) -> Seq<u8>;

/// Memory cost in KiB blocks.
pub const M_COST: u32 = 19456;

/// Number of passes over memory.
pub const T_COST: u32 = 2;

/// Degree of parallelism.
pub const P_COST: u32 = 4;

/// Length of a derived key in bytes.
pub const KEY_LEN: usize = 32;

/// Shortest salt that the derivation accepts.
pub const MIN_SALT_LEN: usize = 8;

/// Longest salt, and longest passphrase, that the derivation accepts.
pub const MAX_INPUT_LEN: usize = 0xFFFF_FFFF;

/// The key that the vault derives from a passphrase and a salt.
pub open spec fn derived_key(pwd: Seq<u8>, salt: Seq<u8>) -> Seq<u8> {
    argon2id_output(M_COST, T_COST, P_COST, pwd, salt, KEY_LEN)
}

/// The inputs on which the derivation succeeds.
pub open spec fn derivation_accepts(pwd: Seq<u8>, salt: Seq<u8>) -> bool {
    &&& pwd.len() <= MAX_INPUT_LEN
    &&& MIN_SALT_LEN <= salt.len() <= MAX_INPUT_LEN
}

/// Relies on `argon2::Params::new` and `argon2::Argon2::hash_password_into` with
/// Argon2id, version 0x13: the output is a function of the costs, the passphrase, the
/// salt and the output length alone, and has the requested length. With the costs in
/// the ranges that `Params::new` documents and the lengths within
/// `hash_password_into`'s limits, neither call returns an error.
#[verifier::external_body]
pub(crate) fn argon2id_hash(
    m_cost: u32,
    t_cost: u32,
    p_cost: u32,
    pwd: &[u8],
    salt: &[u8],
    out_len: usize,
) -> (r: Vec<u8>)
    requires
        1 <= p_cost <= 0xFF_FFFF,
        8 * p_cost <= m_cost,
        1 <= t_cost,
        4 <= out_len <= MAX_INPUT_LEN,
        pwd@.len() <= MAX_INPUT_LEN,
        MIN_SALT_LEN <= salt@.len() <= MAX_INPUT_LEN,
    ensures
        r@ == argon2id_output(m_cost, t_cost, p_cost, pwd@, salt@, out_len),
        r@.len() == out_len,
{
    let params = argon2::Params::new(m_cost, t_cost, p_cost, Some(out_len)).unwrap();
    let hasher = argon2::Argon2::new(argon2::Algorithm::Argon2id, argon2::Version::V0x13, params);
    let mut out = vec![0u8; out_len];
    hasher.hash_password_into(pwd, salt, &mut out).unwrap();
    out
}

/// Equal passphrases and salts give equal keys: the derivation is deterministic.
pub proof fn lemma_derivation_deterministic(p1: Seq<u8>, s1: Seq<u8>, p2: Seq<u8>, s2: Seq<u8>)
    requires
        p1 == p2,
        s1 == s2,
    ensures
        derived_key(p1, s1) == derived_key(p2, s2),
{
}

} // verus!

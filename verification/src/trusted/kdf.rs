use vstd::prelude::*;

verus! {

/// How an Argon2 key derivation failed: at checking the cost parameters, or
/// at hashing; each with argon2's own description of the cause.
#[derive(Debug)]
pub enum KdfFailure {
    Params(String),
    Derivation(String),
}

/// The cost parameters that `argon2::Params::new` accepts (with no fixed output length).
pub open spec fn argon2_params_valid(m_cost: u32, t_cost: u32, p_cost: u32) -> bool {
    &&& m_cost >= 8
    &&& m_cost >= p_cost * 8
    &&& t_cost >= 1
    &&& p_cost >= 1
    &&& p_cost <= 0xFF_FFFF
}

/// argon2's description of the first cost parameter that `Params::new` refuses.
pub open spec fn argon2_params_error(m_cost: u32, t_cost: u32, p_cost: u32) -> Seq<char> {
    if m_cost < 8 || m_cost < p_cost * 8 {
        "memory cost is too small"@
    } else if t_cost < 1 {
        "time cost is too small"@
    } else if p_cost < 1 {
        "not enough threads"@
    } else {
        "too many threads"@
    }
}

/// The password and salt lengths that `hash_password_into` accepts.
pub open spec fn argon2_inputs_valid(password_len: nat, salt_len: nat) -> bool {
    &&& password_len <= 0xFFFF_FFFF
    &&& 8 <= salt_len
    &&& salt_len <= 0xFFFF_FFFF
}

/// argon2's description of the first input that `hash_password_into` refuses.
pub open spec fn argon2_inputs_error(password_len: nat, salt_len: nat) -> Seq<char> {
    if password_len > 0xFFFF_FFFF {
        "password is too long"@
    } else if salt_len < 8 {
        "salt is too short"@
    } else {
        "salt is too long"@
    }
}

/// The 32-byte Argon2id (version 0x13) output for the given costs, password and salt.
pub uninterp spec fn argon2id_key(
    m_cost: u32,
    t_cost: u32,
    p_cost: u32,
    password: Seq<u8>,
    salt: Seq<u8>,
) -> Seq<u8>;

/// What `argon2id_derive` gives: a refusal of the costs, then of the input
/// lengths, each with argon2's text for it, or else the Argon2id key.
pub open spec fn argon2id_outcome(
    m_cost: u32,
    t_cost: u32,
    p_cost: u32,
    password: Seq<u8>,
    salt: Seq<u8>,
    r: Result<[u8; 32], KdfFailure>,
) -> bool {
    if !argon2_params_valid(m_cost, t_cost, p_cost) {
        r matches Err(KdfFailure::Params(e)) && e@ == argon2_params_error(m_cost, t_cost, p_cost)
    } else if !argon2_inputs_valid(password.len(), salt.len()) {
        r matches Err(KdfFailure::Derivation(e)) && e@ == argon2_inputs_error(
            password.len(),
            salt.len(),
        )
    } else {
        r matches Ok(k) && k@ == argon2id_key(m_cost, t_cost, p_cost, password, salt)
    }
}

/// `argon2::Params::new(m_cost, t_cost, p_cost, None)`, then
/// `Argon2::new(Algorithm::Argon2id, Version::V0x13, params).hash_password_into`
/// into a 32-byte buffer. The two calls stand together because the parameters
/// object is opaque: only the costs name the result.
/// Claimed, from argon2's source: the costs are checked first, then the input
/// lengths, each refusal carrying argon2's text for it; otherwise the result
/// is the Argon2id key of the inputs. Where `m_cost` is at least 8,
/// `Params::new` computes `p_cost * 8` in `u32`, which `requires` keeps from
/// overflowing. Not stated: the memory that
/// the hashing allocates (`m_cost` KiB) may not be had on a given machine.
#[verifier::external_body]
pub fn argon2id_derive(
    m_cost: u32,
    t_cost: u32,
    p_cost: u32,
    password: &[u8],
    salt: &[u8],
) -> (r: Result<[u8; 32], KdfFailure>)
    requires
        m_cost < 8 || p_cost <= 0x1FFF_FFFF,
    ensures
        argon2id_outcome(m_cost, t_cost, p_cost, password@, salt@, r),
        r is Ok ==> r->Ok_0@ == argon2id_key(m_cost, t_cost, p_cost, password@, salt@),
{
    let params = argon2::Params::new(m_cost, t_cost, p_cost, None)
        .map_err(|e| KdfFailure::Params(e.to_string()))?;
    let mut key = [0u8; 32];
    argon2::Argon2::new(argon2::Algorithm::Argon2id, argon2::Version::V0x13, params)
        .hash_password_into(password, salt, &mut key)
        .map_err(|e| KdfFailure::Derivation(e.to_string()))?;
    Ok(key)
}

} // verus!

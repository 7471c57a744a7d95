//! The BLS12-381 construction that serves as a verifiable random function.
//!
//! The oracle holds a secret scalar `sk`; its public key is `sk * G1_BASE`,
//! a point of G1. The proof for a seed `m` is `sk * hash_to_g2(m)`, a point
//! of G2. A proof is accepted when `e(G1_BASE, proof) * e(-pk, hash_to_g2(m))`
//! is the identity, which one multi-pairing check decides. `G1_BASE` is not
//! the standard generator: it is `hash_to_g1` of a fixed message under a
//! fixed tag, so that only the well-known scalar field order has to be
//! written down by hand.

use vstd::prelude::*;

use crate::crypto::{
    bls_g1_mul, bls_g2_mul, bls_hash_to_g1, bls_hash_to_g2, bls_pairing_check, g1_mul,
    g1_point_check, g1_point_valid, g2_mul, g2_point_check, g2_point_valid, hash_to_g1,
    hash_to_g2, pairing_check,
};
pub use crate::encoding::ORDER_BE;
use crate::encoding::{be_value, scalar_order, scalar_value};

verus! {

/// Fixed message hashed to G1 to derive the base point:
/// `stellar-vrf-service:g1-base:v1`.
pub const G1_BASE_SEED: [u8; 30] = [
    0x73, 0x74, 0x65, 0x6c, 0x6c, 0x61, 0x72, 0x2d, 0x76, 0x72, 0x66, 0x2d, 0x73, 0x65, 0x72,
    0x76, 0x69, 0x63, 0x65, 0x3a, 0x67, 0x31, 0x2d, 0x62, 0x61, 0x73, 0x65, 0x3a, 0x76, 0x31,
];

/// Domain separation tag for deriving the base point:
/// `STELLAR-VRF-SERVICE_BLS12381G1_XMD:SHA-256_SSWU_RO_BASE_V1`.
pub const G1_BASE_DST: [u8; 58] = [
    0x53, 0x54, 0x45, 0x4c, 0x4c, 0x41, 0x52, 0x2d, 0x56, 0x52, 0x46, 0x2d, 0x53, 0x45, 0x52,
    0x56, 0x49, 0x43, 0x45, 0x5f, 0x42, 0x4c, 0x53, 0x31, 0x32, 0x33, 0x38, 0x31, 0x47, 0x31,
    0x5f, 0x58, 0x4d, 0x44, 0x3a, 0x53, 0x48, 0x41, 0x2d, 0x32, 0x35, 0x36, 0x5f, 0x53, 0x53,
    0x57, 0x55, 0x5f, 0x52, 0x4f, 0x5f, 0x42, 0x41, 0x53, 0x45, 0x5f, 0x56, 0x31,
];

/// Domain separation tag for hashing a request's seed to G2:
/// `STELLAR-VRF-SERVICE_BLS12381G2_XMD:SHA-256_SSWU_RO_SIG_V1`.
pub const G2_SIG_DST: [u8; 57] = [
    0x53, 0x54, 0x45, 0x4c, 0x4c, 0x41, 0x52, 0x2d, 0x56, 0x52, 0x46, 0x2d, 0x53, 0x45, 0x52,
    0x56, 0x49, 0x43, 0x45, 0x5f, 0x42, 0x4c, 0x53, 0x31, 0x32, 0x33, 0x38, 0x31, 0x47, 0x32,
    0x5f, 0x58, 0x4d, 0x44, 0x3a, 0x53, 0x48, 0x41, 0x2d, 0x32, 0x35, 0x36, 0x5f, 0x53, 0x53,
    0x57, 0x55, 0x5f, 0x52, 0x4f, 0x5f, 0x53, 0x49, 0x47, 0x5f, 0x56, 0x31,
];

/// The big-endian encoding of `r - 1`, that is of `-1` in the scalar field:
/// the order with its last byte lowered by one.
pub open spec fn neg_one_scalar() -> Seq<u8> {
    ORDER_BE@.update(31, (ORDER_BE@[31] - 1) as u8)
}

/// This contract's base point of G1.
pub open spec fn g1_base_point() -> Seq<u8> {
    bls_hash_to_g1(G1_BASE_SEED@, G1_BASE_DST@)
}

/// The point of G2 that the seed `seed` is hashed to.
pub open spec fn seed_point(seed: Seq<u8>) -> Seq<u8> {
    bls_hash_to_g2(seed, G2_SIG_DST@)
}

/// Whether `proof` is a valid proof for `seed` under the public key
/// `pubkey`: `e(G1_BASE, proof) * e(-pubkey, H(seed))` is the identity.
pub open spec fn proof_verifies(pubkey: Seq<u8>, seed: Seq<u8>, proof: Seq<u8>) -> bool {
    bls_pairing_check(
        seq![g1_base_point(), bls_g1_mul(pubkey, (scalar_order() - 1) as nat)],
        seq![proof, seed_point(seed)],
    )
}

/// Lowering the last byte of a big-endian encoding by one lowers its value
/// by one.
pub proof fn lemma_be_value_decrement_last(bytes: Seq<u8>)
    requires
        bytes.len() > 0,
        bytes.last() > 0,
    ensures
        be_value(bytes.update(bytes.len() - 1, (bytes.last() - 1) as u8)) + 1 == be_value(bytes),
{
    let lowered = bytes.update(bytes.len() - 1, (bytes.last() - 1) as u8);
    assert(lowered.drop_last() =~= bytes.drop_last());
}

/// The scalar `-1`: the field order `r` minus one, big-endian.
fn neg_one() -> (scalar: [u8; 32])
    ensures
        scalar@ == neg_one_scalar(),
        be_value(scalar@) + 1 == be_value(ORDER_BE@),
{
    let mut order_minus_one = ORDER_BE;
    order_minus_one[31] = order_minus_one[31] - 1;
    proof {
        lemma_be_value_decrement_last(ORDER_BE@);
    }
    assert(order_minus_one@ =~= neg_one_scalar());
    order_minus_one
}

/// This contract's fixed base point of G1,
/// `hash_to_g1(G1_BASE_SEED, G1_BASE_DST)`.
pub fn g1_base(env: &soroban_sdk::Env) -> (base: [u8; 96])
    ensures
        base@ == g1_base_point(),
        base@ == bls_hash_to_g1(G1_BASE_SEED@, G1_BASE_DST@),
        g1_point_valid(base@),
{
    hash_to_g1(env, G1_BASE_SEED.as_slice(), G1_BASE_DST.as_slice())
}

/// Verifies a proof for `seed` against `pubkey`: `pubkey` is an uncompressed
/// G1 point, `proof` an uncompressed G2 point. The host traps unless both
/// decode into their subgroups, which `requires` leaves out.
pub fn verify(env: &soroban_sdk::Env, pubkey: &[u8; 96], seed: &[u8], proof: &[u8; 192]) -> (valid: bool)
    requires
        g1_point_valid(pubkey@),
        g2_point_valid(proof@),
    ensures
        valid == proof_verifies(pubkey@, seed@, proof@),
        valid == bls_pairing_check(
            seq![
                bls_hash_to_g1(G1_BASE_SEED@, G1_BASE_DST@),
                bls_g1_mul(pubkey@, (scalar_order() - 1) as nat),
            ],
            seq![proof@, bls_hash_to_g2(seed@, G2_SIG_DST@)],
        ),
{
    let hm = hash_to_g2(env, seed, G2_SIG_DST.as_slice());
    let base = g1_base(env);
    let minus_one = neg_one();
    proof {
        vstd::arithmetic::div_mod::lemma_small_mod(be_value(minus_one@), scalar_order());
    }
    let pk_neg = g1_mul(env, pubkey, &minus_one);
    // e(base, proof) == e(pk, hm)  <=>  e(base, proof) * e(-pk, hm) == 1
    pairing_check(env, &base, &pk_neg, proof, &hm)
}

/// Derives the proof for `seed` under the secret scalar `sk` (big-endian):
/// `sk * hash_to_g2(seed)`.
pub fn sign(env: &soroban_sdk::Env, sk: &[u8; 32], seed: &[u8]) -> (proof: [u8; 192])
    ensures
        proof@ == bls_g2_mul(seed_point(seed@), scalar_value(sk@)),
        proof@ == bls_g2_mul(bls_hash_to_g2(seed@, G2_SIG_DST@), be_value(sk@) % scalar_order()),
        g2_point_valid(proof@),
{
    let hm = hash_to_g2(env, seed, G2_SIG_DST.as_slice());
    g2_mul(env, &hm, sk)
}

/// Derives the public key for the secret scalar `sk` (big-endian):
/// `sk * G1_BASE`.
pub fn pubkey(env: &soroban_sdk::Env, sk: &[u8; 32]) -> (key: [u8; 96])
    ensures
        key@ == bls_g1_mul(g1_base_point(), scalar_value(sk@)),
        key@ == bls_g1_mul(bls_hash_to_g1(G1_BASE_SEED@, G1_BASE_DST@), be_value(sk@) % scalar_order()),
        g1_point_valid(key@),
{
    let base = g1_base(env);
    g1_mul(env, &base, sk)
}

/// Verifies a proof as `verify` does, first deciding whether the host
/// would trap on the key or the proof: `None` when either fails to decode
/// into its subgroup, the verdict otherwise.
pub fn verify_checked(env: &soroban_sdk::Env, pubkey: &[u8; 96], seed: &[u8], proof: &[u8; 192]) -> (verdict: Option<bool>)
    ensures
        verdict is None <==> !(g1_point_valid(pubkey@) && g2_point_valid(proof@)),
        verdict matches Some(valid) ==> valid == proof_verifies(pubkey@, seed@, proof@),
{
    if g1_point_check(env, pubkey) && g2_point_check(env, proof) {
        Some(verify(env, pubkey, seed, proof))
    } else {
        None
    }
}

/// The scalar `-1` that verification multiplies the key by encodes `r - 1`,
/// for `r = 0x73eda753299d7d483339d80809a1d80553bda402fffe5bfeffffffff00000001`.
pub proof fn law_scalar_constants()
    ensures
        scalar_order() == 0x73eda753299d7d483339d80809a1d80553bda402fffe5bfeffffffff00000001nat,
        be_value(neg_one_scalar()) + 1 == scalar_order(),
{
    crate::encoding::law_scalar_order();
    lemma_be_value_decrement_last(ORDER_BE@);
}

/// The seed is hashed to G2 as it is, under the tag `G2_SIG_DST`: a proof
/// verifies exactly when `e(G1_BASE, proof) * e(pk * (r - 1), H(seed))` is the
/// identity, where `G1_BASE` is the host's `hash_to_g1` of `G1_BASE_SEED`
/// under `G1_BASE_DST` and `H(seed)` is the host's `hash_to_g2` of the seed's
/// own bytes under `G2_SIG_DST`.
pub proof fn law_proof_check_hashes_the_seed_itself(pubkey: Seq<u8>, seed: Seq<u8>, proof: Seq<u8>)
    ensures
        seed_point(seed) == bls_hash_to_g2(seed, G2_SIG_DST@),
        g1_base_point() == bls_hash_to_g1(G1_BASE_SEED@, G1_BASE_DST@),
        proof_verifies(pubkey, seed, proof) == bls_pairing_check(
            seq![
                bls_hash_to_g1(G1_BASE_SEED@, G1_BASE_DST@),
                bls_g1_mul(pubkey, (scalar_order() - 1) as nat),
            ],
            seq![proof, bls_hash_to_g2(seed, G2_SIG_DST@)],
        ),
{
}

} // verus!

//! The calls into the Soroban host's cryptography that the oracle's logic
//! makes, each behind a trusted item.
//!
//! Points of BLS12-381 travel as their uncompressed encodings: 96 bytes for
//! a point of G1, 192 bytes for a point of G2. Scalars travel as 32-byte
//! big-endian integers. Every host function here is deterministic: its
//! result depends on its arguments alone. A host call may also trap when the
//! transaction's resource budget runs out; that depends on the machine
//! state, not on the arguments, and no contract here speaks of it.

use vstd::prelude::*;

use soroban_sdk::crypto::bls12_381::{Bls12381Fr, Bls12381G1Affine, Bls12381G2Affine};
use soroban_sdk::{Bytes, BytesN};

use crate::encoding::{
    g1_encoding_check, g1_encoding_ok, g1_on_curve, g2_encoding_check, g2_encoding_ok, g2_on_curve,
    scalar_value,
};

verus! {

/// The Soroban environment handle through which host functions are called.
#[verifier::external_type_specification]
#[verifier::external_body]
pub struct ExEnv(soroban_sdk::Env);

/// The SHA-256 digest of `data`, as the Soroban host computes it.
pub uninterp spec fn sha256_digest(data: Seq<u8>) -> Seq<u8>;

/// The encoding of the point of G1 that the host's `hash_to_g1` derives from
/// `msg` under the domain separation tag `dst`.
pub uninterp spec fn bls_hash_to_g1(msg: Seq<u8>, dst: Seq<u8>) -> Seq<u8>;

/// The encoding of the point of G2 that the host's `hash_to_g2` derives from
/// `msg` under the domain separation tag `dst`.
pub uninterp spec fn bls_hash_to_g2(msg: Seq<u8>, dst: Seq<u8>) -> Seq<u8>;

/// The encoding of the point of G1 that the host's `g1_mul` returns for the
/// encoded `point` and the scalar `scalar` (below the order `r`).
pub uninterp spec fn bls_g1_mul(point: Seq<u8>, scalar: nat) -> Seq<u8>;

/// The encoding of the point of G2 that the host's `g2_mul` returns for the
/// encoded `point` and the scalar `scalar` (below the order `r`).
pub uninterp spec fn bls_g2_mul(point: Seq<u8>, scalar: nat) -> Seq<u8>;

/// What the host's multi-pairing check answers for the encoded G1 points
/// `g1` paired element-wise with the encoded G2 points `g2`: whether the
/// product of the pairings is the identity of the target group.
pub uninterp spec fn bls_pairing_check(g1: Seq<Seq<u8>>, g2: Seq<Seq<u8>>) -> bool;

/// What the host's `g1_is_in_subgroup` answers for a well-formed encoding of
/// a point on the curve: whether the point lies in the prime-order subgroup.
pub uninterp spec fn bls_g1_in_subgroup(point: Seq<u8>) -> bool;

/// What the host's `g2_is_in_subgroup` answers for a well-formed encoding of
/// a point on the twist: whether the point lies in the prime-order subgroup.
pub uninterp spec fn bls_g2_in_subgroup(point: Seq<u8>) -> bool;

/// Whether the host decodes `point` as a point of the prime-order subgroup
/// of G1: the check that it applies to every G1 argument of `g1_mul` and of
/// `pairing_check`, trapping when it fails.
pub open spec fn g1_point_valid(point: Seq<u8>) -> bool {
    &&& g1_encoding_ok(point)
    &&& g1_on_curve(point)
    &&& bls_g1_in_subgroup(point)
}

/// Whether the host decodes `point` as a point of the prime-order subgroup
/// of G2: the check that it applies to every G2 argument of `g2_mul` and of
/// `pairing_check`, trapping when it fails.
pub open spec fn g2_point_valid(point: Seq<u8>) -> bool {
    &&& g2_encoding_ok(point)
    &&& g2_on_curve(point)
    &&& bls_g2_in_subgroup(point)
}

/// Calls `soroban_sdk::crypto::Crypto::sha256` on `data`. Claimed: the
/// 32-byte result is the host's SHA-256 digest of the bytes, a function of
/// the bytes alone. The host accepts input of any length.
#[verifier::external_body]
pub(crate) fn sha256(env: &soroban_sdk::Env, data: &[u8]) -> (digest: [u8; 32])
    ensures
        digest@ == sha256_digest(data@),
{
    env.crypto().sha256(&Bytes::from_slice(env, data)).to_array()
}

/// Calls `soroban_sdk::crypto::bls12_381::Bls12_381::hash_to_g1`. Claimed:
/// the result is a function of the message and the tag alone, and it is the
/// canonical encoding of a point of the prime-order subgroup (the host clears
/// the cofactor, and serializes coordinates below `p` with only the infinity
/// flag possibly set). The host traps on a tag that is empty or longer than
/// 255 bytes, which `requires` leaves out.
#[verifier::external_body]
pub(crate) fn hash_to_g1(env: &soroban_sdk::Env, msg: &[u8], dst: &[u8]) -> (point: [u8; 96])
    requires
        0 < dst@.len() <= 255,
    ensures
        point@ == bls_hash_to_g1(msg@, dst@),
        g1_point_valid(point@),
{
    let bls = env.crypto().bls12_381();
    bls.hash_to_g1(&Bytes::from_slice(env, msg), &Bytes::from_slice(env, dst)).to_array()
}

/// Calls `soroban_sdk::crypto::bls12_381::Bls12_381::hash_to_g2`. Claimed:
/// the result is a function of the message and the tag alone, and it is the
/// canonical encoding of a point of the prime-order subgroup of G2. The host
/// traps on a tag that is empty or longer than 255 bytes, which `requires`
/// leaves out.
#[verifier::external_body]
pub(crate) fn hash_to_g2(env: &soroban_sdk::Env, msg: &[u8], dst: &[u8]) -> (point: [u8; 192])
    requires
        0 < dst@.len() <= 255,
    ensures
        point@ == bls_hash_to_g2(msg@, dst@),
        g2_point_valid(point@),
{
    let bls = env.crypto().bls12_381();
    bls.hash_to_g2(&Bytes::from_slice(env, msg), &Bytes::from_slice(env, dst)).to_array()
}

/// Calls `soroban_sdk::crypto::bls12_381::Bls12_381::g1_mul` on the decoded
/// point and the scalar `Bls12381Fr::from_bytes(scalar)`. Claimed: the
/// result is a function of the point's encoding and of the scalar's
/// big-endian value reduced modulo `r` (`Bls12381Fr::from_bytes` reduces it),
/// and it is the canonical encoding of a multiple of a point of the subgroup,
/// which lies in the subgroup. The host
/// traps unless the point decodes into the subgroup, which `requires` leaves
/// out.
#[verifier::external_body]
pub(crate) fn g1_mul(env: &soroban_sdk::Env, point: &[u8; 96], scalar: &[u8; 32]) -> (product: [u8; 96])
    requires
        g1_point_valid(point@),
    ensures
        product@ == bls_g1_mul(point@, scalar_value(scalar@)),
        g1_point_valid(product@),
{
    let p = Bls12381G1Affine::from_array(env, point);
    let s = Bls12381Fr::from_bytes(BytesN::from_array(env, scalar));
    env.crypto().bls12_381().g1_mul(&p, &s).to_array()
}

/// Calls `soroban_sdk::crypto::bls12_381::Bls12_381::g2_mul` on the decoded
/// point and the scalar `Bls12381Fr::from_bytes(scalar)`. Claimed: the
/// result is a function of the point's encoding and of the scalar's
/// big-endian value reduced modulo `r` (`Bls12381Fr::from_bytes` reduces it),
/// and it is the canonical encoding of a multiple of a point of the subgroup,
/// which lies in the subgroup. The host
/// traps unless the point decodes into the subgroup, which `requires` leaves
/// out.
#[verifier::external_body]
pub(crate) fn g2_mul(env: &soroban_sdk::Env, point: &[u8; 192], scalar: &[u8; 32]) -> (product: [u8; 192])
    requires
        g2_point_valid(point@),
    ensures
        product@ == bls_g2_mul(point@, scalar_value(scalar@)),
        g2_point_valid(product@),
{
    let p = Bls12381G2Affine::from_array(env, point);
    let s = Bls12381Fr::from_bytes(BytesN::from_array(env, scalar));
    env.crypto().bls12_381().g2_mul(&p, &s).to_array()
}

/// Calls `soroban_sdk::crypto::bls12_381::Bls12_381::pairing_check` on the
/// two pairs `(a1, b1)` and `(a2, b2)`. Claimed: the answer is a function of
/// the four encodings alone. The host traps unless every point decodes into
/// its subgroup, which `requires` leaves out (the two vectors it is handed
/// have the same length, two, which it also demands).
#[verifier::external_body]
pub(crate) fn pairing_check(
    env: &soroban_sdk::Env,
    a1: &[u8; 96],
    a2: &[u8; 96],
    b1: &[u8; 192],
    b2: &[u8; 192],
) -> (holds: bool)
    requires
        g1_point_valid(a1@),
        g1_point_valid(a2@),
        g2_point_valid(b1@),
        g2_point_valid(b2@),
    ensures
        holds == bls_pairing_check(seq![a1@, a2@], seq![b1@, b2@]),
{
    let g1 = soroban_sdk::Vec::from_array(
        env,
        [Bls12381G1Affine::from_array(env, a1), Bls12381G1Affine::from_array(env, a2)],
    );
    let g2 = soroban_sdk::Vec::from_array(
        env,
        [Bls12381G2Affine::from_array(env, b1), Bls12381G2Affine::from_array(env, b2)],
    );
    env.crypto().bls12_381().pairing_check(g1, g2)
}

/// Calls `soroban_sdk::crypto::bls12_381::Bls12_381::g1_is_on_curve`.
/// Claimed: the answer is whether the decoded point satisfies the curve
/// equation `y^2 = x^3 + 4`, the point at infinity included. The host traps
/// on an encoding it cannot decode, which `requires` leaves out.
#[verifier::external_body]
pub(crate) fn g1_is_on_curve(env: &soroban_sdk::Env, point: &[u8; 96]) -> (on_curve: bool)
    requires
        g1_encoding_ok(point@),
    ensures
        on_curve == g1_on_curve(point@),
{
    env.crypto().bls12_381().g1_is_on_curve(&Bls12381G1Affine::from_array(env, point))
}

/// Calls `soroban_sdk::crypto::bls12_381::Bls12_381::g1_is_in_subgroup`.
/// Claimed: the answer is a function of the encoding alone. The host traps
/// unless the encoding decodes to a point on the curve, which `requires`
/// leaves out.
#[verifier::external_body]
pub(crate) fn g1_is_in_subgroup(env: &soroban_sdk::Env, point: &[u8; 96]) -> (in_subgroup: bool)
    requires
        g1_encoding_ok(point@),
        g1_on_curve(point@),
    ensures
        in_subgroup == bls_g1_in_subgroup(point@),
{
    env.crypto().bls12_381().g1_is_in_subgroup(&Bls12381G1Affine::from_array(env, point))
}

/// Calls `soroban_sdk::crypto::bls12_381::Bls12_381::g2_is_on_curve`.
/// Claimed: the answer is whether the decoded point satisfies the twist's
/// equation `y^2 = x^3 + 4(1 + u)`, the point at infinity included. The host traps
/// on an encoding it cannot decode, which `requires` leaves out.
#[verifier::external_body]
pub(crate) fn g2_is_on_curve(env: &soroban_sdk::Env, point: &[u8; 192]) -> (on_curve: bool)
    requires
        g2_encoding_ok(point@),
    ensures
        on_curve == g2_on_curve(point@),
{
    env.crypto().bls12_381().g2_is_on_curve(&Bls12381G2Affine::from_array(env, point))
}

/// Calls `soroban_sdk::crypto::bls12_381::Bls12_381::g2_is_in_subgroup`.
/// Claimed: the answer is a function of the encoding alone. The host traps
/// unless the encoding decodes to a point on the twist, which `requires`
/// leaves out.
#[verifier::external_body]
pub(crate) fn g2_is_in_subgroup(env: &soroban_sdk::Env, point: &[u8; 192]) -> (in_subgroup: bool)
    requires
        g2_encoding_ok(point@),
        g2_on_curve(point@),
    ensures
        in_subgroup == bls_g2_in_subgroup(point@),
{
    env.crypto().bls12_381().g2_is_in_subgroup(&Bls12381G2Affine::from_array(env, point))
}

/// Whether the host accepts `point` as a point of the prime-order subgroup
/// of G1, decided without a call that could trap: the encoding is checked
/// first, then the curve equation, then the subgroup.
pub fn g1_point_check(env: &soroban_sdk::Env, point: &[u8; 96]) -> (valid: bool)
    ensures
        valid == g1_point_valid(point@),
{
    g1_encoding_check(point) && g1_is_on_curve(env, point) && g1_is_in_subgroup(env, point)
}

/// Whether the host accepts `point` as a point of the prime-order subgroup
/// of G2, decided without a call that could trap: the encoding is checked
/// first, then the curve equation, then the subgroup.
pub fn g2_point_check(env: &soroban_sdk::Env, point: &[u8; 192]) -> (valid: bool)
    ensures
        valid == g2_point_valid(point@),
{
    g2_encoding_check(point) && g2_is_on_curve(env, point) && g2_is_in_subgroup(env, point)
}

} // verus!

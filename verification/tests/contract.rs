use soroban_sdk::{Bytes, Env};
use vrf_oracle::contract::{Address, Status, VrfError, VrfOracleContract};
use vrf_oracle::vrf;

/// The 32-byte big-endian encoding of a small scalar.
fn scalar(value: u32) -> [u8; 32] {
    let mut bytes = [0u8; 32];
    bytes[28..].copy_from_slice(&value.to_be_bytes());
    bytes
}

fn fresh_env() -> Env {
    let env = Env::default();
    // Every call below runs directly against the host rather than inside one
    // metered contract invocation, so lift the per-invocation budget.
    let mut budget = env.cost_estimate().budget();
    budget.reset_unlimited();
    env
}

fn address(name: &str) -> Address {
    Address::new(name.as_bytes().to_vec())
}

fn setup(env: &Env) -> (VrfOracleContract, Address, [u8; 32]) {
    let mut contract = VrfOracleContract::new();
    let admin = address("GADMIN0000000000000000000000000000000000000000000000000");
    let sk = scalar(424_242);
    let oracle_pubkey = vrf::pubkey(env, &sk);

    contract.initialize(admin.duplicate(), oracle_pubkey).unwrap();
    (contract, admin, sk)
}

fn sha256_of(env: &Env, data: &[u8]) -> [u8; 32] {
    env.crypto().sha256(&Bytes::from_slice(env, data)).to_array()
}

#[test]
fn full_request_and_fulfill_cycle_succeeds_with_a_valid_proof() {
    let env = fresh_env();

    let (mut contract, _admin, sk) = setup(&env);
    let requester = address("GREQUESTER00000000000000000000000000000000000000000000");
    let seed = vec![1u8, 2, 3, 4];

    let id = contract.request_randomness(requester, seed.clone()).unwrap();
    let pending = contract.get_request(id).unwrap();
    assert_eq!(pending.status, Status::Pending);
    assert!(pending.random.is_none());

    let proof = vrf::sign(&env, &sk, &seed);
    contract.fulfill_randomness(&env, id, proof).unwrap();

    let fulfilled = contract.get_request(id).unwrap();
    assert_eq!(fulfilled.status, Status::Fulfilled);
    assert!(fulfilled.random.is_some());

    // Independently re-derivable: sha256(proof) is exactly the stored value.
    let expected = sha256_of(&env, &proof);
    assert_eq!(fulfilled.random.unwrap(), expected);
}

#[test]
fn fulfill_rejects_a_forged_proof() {
    let env = fresh_env();

    let (mut contract, _admin, _sk) = setup(&env);
    let requester = address("GREQUESTER00000000000000000000000000000000000000000000");
    let seed = vec![1u8, 2, 3, 4];
    let id = contract.request_randomness(requester, seed.clone()).unwrap();

    // Sign with the wrong scalar - a proof that's well-formed but invalid.
    let wrong_sk = scalar(1);
    let forged_proof = vrf::sign(&env, &wrong_sk, &seed);

    let result = contract.fulfill_randomness(&env, id, forged_proof);
    assert_eq!(result, Err(VrfError::InvalidProof));
    assert_eq!(VrfError::InvalidProof.code(), 5);
    // The refused proof leaves the request pending.
    assert_eq!(contract.get_request(id).unwrap().status, Status::Pending);
}

#[test]
fn fulfill_rejects_a_second_submission_for_the_same_request() {
    let env = fresh_env();

    let (mut contract, _admin, sk) = setup(&env);
    let requester = address("GREQUESTER00000000000000000000000000000000000000000000");
    let seed = vec![9u8, 9, 9];
    let id = contract.request_randomness(requester, seed.clone()).unwrap();

    let proof = vrf::sign(&env, &sk, &seed);
    contract.fulfill_randomness(&env, id, proof).unwrap();
    let result = contract.fulfill_randomness(&env, id, proof);
    assert_eq!(result, Err(VrfError::AlreadyFulfilled));
    assert_eq!(VrfError::AlreadyFulfilled.code(), 4);
}

#[test]
fn fulfill_rejects_an_unknown_request_id() {
    let env = fresh_env();

    let (mut contract, _admin, sk) = setup(&env);
    let seed = vec![0u8];
    let proof = vrf::sign(&env, &sk, &seed);

    let result = contract.fulfill_randomness(&env, 999, proof);
    assert_eq!(result, Err(VrfError::RequestNotFound));
    assert_eq!(VrfError::RequestNotFound.code(), 3);
}

#[test]
fn admin_can_rotate_the_oracle_pubkey() {
    let env = fresh_env();

    let (mut contract, admin, _sk) = setup(&env);
    let new_sk = scalar(7);
    let new_pubkey = vrf::pubkey(&env, &new_sk);

    contract.set_oracle_pubkey(&admin, new_pubkey).unwrap();
    assert_eq!(contract.get_oracle_pubkey().unwrap(), new_pubkey);
}

#[test]
fn initialize_is_refused_the_second_time() {
    let env = fresh_env();
    let (mut contract, admin, _sk) = setup(&env);
    let before = contract.get_oracle_pubkey().unwrap();
    let other_key = vrf::pubkey(&env, &scalar(3));
    assert_eq!(
        contract.initialize(admin.duplicate(), other_key),
        Err(VrfError::AlreadyInitialized)
    );
    assert_eq!(VrfError::AlreadyInitialized.code(), 2);
    assert_eq!(contract.get_oracle_pubkey().unwrap(), before);
}

#[test]
fn uninitialized_contract_refuses_requests_and_lookups() {
    let mut contract = VrfOracleContract::new();
    let requester = address("GREQUESTER00000000000000000000000000000000000000000000");
    assert_eq!(
        contract.request_randomness(requester.duplicate(), vec![1u8]),
        Err(VrfError::NotInitialized)
    );
    assert_eq!(VrfError::NotInitialized.code(), 1);
    assert_eq!(contract.get_oracle_pubkey(), Err(VrfError::NotInitialized));
    assert_eq!(
        contract.set_oracle_pubkey(&requester, [0u8; 96]),
        Err(VrfError::NotInitialized)
    );
    assert!(matches!(contract.get_request(0), Err(VrfError::RequestNotFound)));
}

#[test]
fn non_admin_cannot_rotate_the_oracle_pubkey() {
    let env = fresh_env();
    let (mut contract, _admin, _sk) = setup(&env);
    let before = contract.get_oracle_pubkey().unwrap();
    let intruder = address("GINTRUDER000000000000000000000000000000000000000000000");
    let result = contract.set_oracle_pubkey(&intruder, vrf::pubkey(&env, &scalar(5)));
    assert_eq!(result, Err(VrfError::NotInitialized));
    assert_eq!(contract.get_oracle_pubkey().unwrap(), before);
}

#[test]
fn request_ids_count_up_from_zero() {
    let env = fresh_env();
    let (mut contract, _admin, _sk) = setup(&env);
    let requester = address("GREQUESTER00000000000000000000000000000000000000000000");
    for expected in 0u64..4 {
        let id = contract
            .request_randomness(requester.duplicate(), vec![expected as u8])
            .unwrap();
        assert_eq!(id, expected);
        let request = contract.get_request(id).unwrap();
        assert_eq!(request.seed, vec![expected as u8]);
        assert_eq!(request.requester.as_bytes(), requester.as_bytes());
    }
    assert!(matches!(contract.get_request(4), Err(VrfError::RequestNotFound)));
}

#[test]
fn fulfilling_one_request_leaves_the_others_pending() {
    let env = fresh_env();
    let (mut contract, _admin, sk) = setup(&env);
    let requester = address("GREQUESTER00000000000000000000000000000000000000000000");
    let first = contract.request_randomness(requester.duplicate(), vec![1u8]).unwrap();
    let second = contract.request_randomness(requester.duplicate(), vec![2u8]).unwrap();
    let proof = vrf::sign(&env, &sk, &[2u8]);
    contract.fulfill_randomness(&env, second, proof).unwrap();
    assert_eq!(contract.get_request(first).unwrap().status, Status::Pending);
    assert!(contract.get_request(first).unwrap().random.is_none());
    assert_eq!(contract.get_request(second).unwrap().status, Status::Fulfilled);
}

#[test]
fn a_proof_for_another_seed_is_rejected() {
    let env = fresh_env();
    let (mut contract, _admin, sk) = setup(&env);
    let requester = address("GREQUESTER00000000000000000000000000000000000000000000");
    let id = contract.request_randomness(requester, vec![1u8, 2, 3]).unwrap();
    let proof = vrf::sign(&env, &sk, &[3u8, 2, 1]);
    assert_eq!(
        contract.fulfill_randomness(&env, id, proof),
        Err(VrfError::InvalidProof)
    );
}

#[test]
fn after_rotation_only_the_new_key_proves() {
    let env = fresh_env();
    let (mut contract, admin, old_sk) = setup(&env);
    let new_sk = scalar(99);
    contract
        .set_oracle_pubkey(&admin, vrf::pubkey(&env, &new_sk))
        .unwrap();
    let requester = address("GREQUESTER00000000000000000000000000000000000000000000");
    let seed = vec![4u8, 5, 6];
    let id = contract.request_randomness(requester, seed.clone()).unwrap();
    let old_proof = vrf::sign(&env, &old_sk, &seed);
    assert_eq!(
        contract.fulfill_randomness(&env, id, old_proof),
        Err(VrfError::InvalidProof)
    );
    let new_proof = vrf::sign(&env, &new_sk, &seed);
    assert_eq!(contract.fulfill_randomness(&env, id, new_proof), Ok(()));
    assert_eq!(
        contract.get_request(id).unwrap().random,
        Some(sha256_of(&env, &new_proof))
    );
}

#[test]
fn verify_accepts_exactly_the_matching_proof() {
    let env = fresh_env();
    let sk = scalar(424_242);
    let pk = vrf::pubkey(&env, &sk);
    let seed = [7u8, 7, 7];
    let proof = vrf::sign(&env, &sk, &seed);
    assert!(vrf::verify(&env, &pk, &seed, &proof));
    assert!(!vrf::verify(&env, &pk, &[7u8, 7], &proof));
    let other = vrf::sign(&env, &scalar(2), &seed);
    assert!(!vrf::verify(&env, &pk, &seed, &other));
}

#[test]
fn the_base_point_is_hash_to_g1_of_the_fixed_seed() {
    let env = fresh_env();
    let base = vrf::g1_base(&env);
    let expected = env
        .crypto()
        .bls12_381()
        .hash_to_g1(
            &Bytes::from_slice(&env, &vrf::G1_BASE_SEED),
            &Bytes::from_slice(&env, &vrf::G1_BASE_DST),
        )
        .to_array();
    assert_eq!(base, expected);
    // The public key for the scalar one is the base point itself.
    assert_eq!(vrf::pubkey(&env, &scalar(1)), base);
    assert_ne!(vrf::pubkey(&env, &scalar(2)), base);
}

#[test]
fn the_constants_spell_the_documented_strings() {
    assert_eq!(&vrf::G1_BASE_SEED[..], b"stellar-vrf-service:g1-base:v1");
    assert_eq!(
        &vrf::G1_BASE_DST[..],
        b"STELLAR-VRF-SERVICE_BLS12381G1_XMD:SHA-256_SSWU_RO_BASE_V1"
    );
    assert_eq!(
        &vrf::G2_SIG_DST[..],
        b"STELLAR-VRF-SERVICE_BLS12381G2_XMD:SHA-256_SSWU_RO_SIG_V1"
    );
    assert_eq!(vrf::ORDER_BE[0], 0x73);
    assert_eq!(vrf::ORDER_BE[31], 0x01);
}

#[test]
fn the_stored_random_is_not_the_proof_itself() {
    let env = fresh_env();
    let (mut contract, _admin, sk) = setup(&env);
    let requester = address("GREQUESTER00000000000000000000000000000000000000000000");
    let id = contract.request_randomness(requester, vec![42u8]).unwrap();
    let proof = vrf::sign(&env, &sk, &[42u8]);
    contract.fulfill_randomness(&env, id, proof).unwrap();
    let random = contract.get_request(id).unwrap().random.unwrap();
    assert_ne!(&random[..], &proof[..32]);
    // SHA-256 of the empty string, as a fixed check of the host's digest.
    let empty = sha256_of(&env, &[]);
    assert_eq!(empty[0], 0xe3);
    assert_eq!(empty[31], 0x55);
}

#[test]
fn addresses_compare_by_their_bytes() {
    let a = address("GAAA");
    let b = address("GAAA");
    let c = address("GAAB");
    let d = address("GAA");
    assert!(a.same_as(&b));
    assert!(!a.same_as(&c));
    assert!(!a.same_as(&d));
    assert!(a.duplicate().same_as(&a));
}

/// `r + value`, big-endian, for a small `value` (the low bytes of `r` are
/// `00 00 00 01`).
fn order_plus(value: u8) -> [u8; 32] {
    let mut bytes = vrf::ORDER_BE;
    bytes[31] += value;
    bytes
}

#[test]
fn scalars_act_modulo_the_group_order() {
    let env = fresh_env();
    assert_eq!(vrf::pubkey(&env, &order_plus(5)), vrf::pubkey(&env, &scalar(5)));
    let seed = [3u8, 1, 4];
    assert_eq!(vrf::sign(&env, &order_plus(5), &seed), vrf::sign(&env, &scalar(5), &seed));
    // r itself is the scalar zero: the key is the point at infinity.
    let mut infinity = [0u8; 96];
    infinity[0] = 0x40;
    assert_eq!(vrf::pubkey(&env, &vrf::ORDER_BE), infinity);
    assert_eq!(vrf::pubkey(&env, &scalar(0)), infinity);
}

#[test]
fn interleaved_calls_keep_ids_keys_and_pending_requests() {
    let env = fresh_env();
    let (mut contract, admin, sk) = setup(&env);
    let key = contract.get_oracle_pubkey().unwrap();
    let requester = address("GREQUESTER00000000000000000000000000000000000000000000");
    let a = contract.request_randomness(requester.duplicate(), vec![1u8]).unwrap();
    let b = contract.request_randomness(requester.duplicate(), vec![2u8]).unwrap();
    contract
        .fulfill_randomness(&env, b, vrf::sign(&env, &sk, &[2u8]))
        .unwrap();
    assert_eq!(
        contract.fulfill_randomness(&env, a, vrf::sign(&env, &scalar(8), &[1u8])),
        Err(VrfError::InvalidProof)
    );
    let intruder = address("GINTRUDER");
    assert!(contract.set_oracle_pubkey(&intruder, [1u8; 96]).is_err());
    assert!(contract.initialize(intruder, [1u8; 96]).is_err());
    // The key reads back until a rotation succeeds.
    assert_eq!(contract.get_oracle_pubkey().unwrap(), key);
    // The first request is still exactly as recorded.
    let first = contract.get_request(a).unwrap();
    assert_eq!(first.status, Status::Pending);
    assert_eq!(first.random, None);
    assert_eq!(first.seed, vec![1u8]);
    assert!(first.requester.same_as(&requester));
    // A later request takes a fresh id: one more than the earlier id plus the
    // requests granted in between.
    let c = contract.request_randomness(requester.duplicate(), vec![3u8]).unwrap();
    assert_eq!(c, a + 2);
    // The stored random value is the digest of the proof that verified.
    assert_eq!(
        contract.get_request(b).unwrap().random,
        Some(sha256_of(&env, &vrf::sign(&env, &sk, &[2u8])))
    );
    let rotated = vrf::pubkey(&env, &scalar(4));
    contract.set_oracle_pubkey(&admin, rotated).unwrap();
    assert_eq!(contract.get_oracle_pubkey().unwrap(), rotated);
}

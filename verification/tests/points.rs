use soroban_sdk::crypto::bls12_381::{Bls12381Fp, Bls12381G1Affine};
use soroban_sdk::{BytesN, Env};
use vrf_oracle::contract::{Address, Event, Request, Status, VrfError, VrfOracleContract};
use vrf_oracle::crypto::{g1_point_check, g2_point_check};
use vrf_oracle::encoding::{fp_is_canonical, g1_encoding_check, g2_encoding_check, FP_MODULUS_BE};
use vrf_oracle::vrf;

fn scalar(value: u32) -> [u8; 32] {
    let mut bytes = [0u8; 32];
    bytes[28..].copy_from_slice(&value.to_be_bytes());
    bytes
}

fn fresh_env() -> Env {
    let env = Env::default();
    let mut budget = env.cost_estimate().budget();
    budget.reset_unlimited();
    env
}

fn infinity_g1() -> [u8; 96] {
    let mut bytes = [0u8; 96];
    bytes[0] = 0x40;
    bytes
}

#[test]
fn field_elements_below_the_modulus_are_canonical() {
    let mut below = FP_MODULUS_BE;
    below[47] -= 1;
    assert!(fp_is_canonical(&below, 0));
    assert!(!fp_is_canonical(&FP_MODULUS_BE, 0));
    let mut above = FP_MODULUS_BE;
    above[0] += 1;
    assert!(!fp_is_canonical(&above, 0));
    assert!(fp_is_canonical(&[0u8; 48], 0));
    let mut shifted = [0xffu8; 60];
    shifted[12..].copy_from_slice(&below);
    assert!(fp_is_canonical(&shifted, 12));
    assert!(!fp_is_canonical(&shifted, 0));
}

#[test]
fn encodings_with_flags_are_checked_as_the_host_does() {
    assert!(g1_encoding_check(&infinity_g1()));
    let mut infinity_with_garbage = infinity_g1();
    infinity_with_garbage[95] = 1;
    assert!(!g1_encoding_check(&infinity_with_garbage));
    let mut compressed = [0u8; 96];
    compressed[0] = 0x80;
    assert!(!g1_encoding_check(&compressed));
    let mut sorted = [0u8; 96];
    sorted[0] = 0x20;
    assert!(!g1_encoding_check(&sorted));
    assert!(g1_encoding_check(&[0u8; 96]));
    let mut big_y = [0u8; 96];
    big_y[48..].copy_from_slice(&FP_MODULUS_BE);
    assert!(!g1_encoding_check(&big_y));
    let mut g2_infinity = [0u8; 192];
    g2_infinity[0] = 0x40;
    assert!(g2_encoding_check(&g2_infinity));
    let mut big_last = [0u8; 192];
    big_last[144..].copy_from_slice(&FP_MODULUS_BE);
    assert!(!g2_encoding_check(&big_last));
    assert!(!g2_encoding_check(&[0xffu8; 192]));
}

#[test]
fn point_checks_accept_exactly_subgroup_points() {
    let env = fresh_env();
    let key = vrf::pubkey(&env, &scalar(11));
    assert!(g1_point_check(&env, &key));
    assert!(g1_point_check(&env, &infinity_g1()));
    // (0, 0) is well encoded but not on the curve y^2 = x^3 + 4.
    assert!(!g1_point_check(&env, &[0u8; 96]));
    assert!(!g1_point_check(&env, &[0xffu8; 96]));

    // A point of the curve outside the prime-order subgroup.
    let mut fp = [0u8; 48];
    fp[47] = 5;
    let mapped = env
        .crypto()
        .bls12_381()
        .map_fp_to_g1(&Bls12381Fp::from_bytes(BytesN::from_array(&env, &fp)));
    let in_subgroup = env.crypto().bls12_381().g1_is_in_subgroup(&mapped);
    assert!(env.crypto().bls12_381().g1_is_on_curve(&mapped));
    assert_eq!(g1_point_check(&env, &mapped.to_array()), in_subgroup);
    assert!(!in_subgroup);
    let subgroup_point = Bls12381G1Affine::from_array(&env, &key);
    assert!(env.crypto().bls12_381().g1_is_in_subgroup(&subgroup_point));

    // Changing y moves a curve point off the curve.
    let mut moved = key;
    moved[95] ^= 1;
    assert!(!g1_point_check(&env, &moved));

    let proof = vrf::sign(&env, &scalar(11), &[1u8]);
    assert!(g2_point_check(&env, &proof));
    let mut moved_proof = proof;
    moved_proof[191] ^= 1;
    assert!(!g2_point_check(&env, &moved_proof));
    assert!(!g2_point_check(&env, &[0u8; 192]));
    assert!(!g2_point_check(&env, &[0xffu8; 192]));
}

#[test]
fn checked_verification_refuses_undecodable_points() {
    let env = fresh_env();
    let sk = scalar(424_242);
    let pk = vrf::pubkey(&env, &sk);
    let seed = [8u8, 8];
    let proof = vrf::sign(&env, &sk, &seed);
    assert_eq!(vrf::verify_checked(&env, &pk, &seed, &proof), Some(true));
    assert_eq!(vrf::verify_checked(&env, &pk, &[9u8], &proof), Some(false));
    assert_eq!(vrf::verify_checked(&env, &pk, &seed, &[0u8; 192]), None);
    assert_eq!(vrf::verify_checked(&env, &[0u8; 96], &seed, &proof), None);
}

#[test]
fn checked_fulfillment_reports_a_trap_and_changes_nothing() {
    let env = fresh_env();
    let sk = scalar(424_242);
    let mut contract = VrfOracleContract::new();
    let admin = Address::new(b"GADMIN".to_vec());
    contract.initialize(admin, vrf::pubkey(&env, &sk)).unwrap();
    let id = contract
        .request_randomness(Address::new(b"GREQ".to_vec()), vec![1u8])
        .unwrap();
    let garbage = [0xffu8; 192];
    assert!(contract.fulfill_randomness_checked(&env, id, garbage).is_none());
    assert_eq!(contract.get_request(id).unwrap().status, Status::Pending);
    assert_eq!(contract.events().len(), 1);
    // An unknown id is refused before the pairing check could trap.
    assert_eq!(
        contract.fulfill_randomness_checked(&env, id + 1, garbage),
        Some(Err(VrfError::RequestNotFound))
    );
    let proof = vrf::sign(&env, &sk, &[1u8]);
    assert_eq!(contract.fulfill_randomness_checked(&env, id, proof), Some(Ok(())));
    assert_eq!(
        contract.fulfill_randomness_checked(&env, id, garbage),
        Some(Err(VrfError::AlreadyFulfilled))
    );
}

#[test]
fn events_record_each_request_and_fulfillment_in_order() {
    let env = fresh_env();
    let sk = scalar(3);
    let mut contract = VrfOracleContract::new();
    contract
        .initialize(Address::new(b"GADMIN".to_vec()), vrf::pubkey(&env, &sk))
        .unwrap();
    let id = contract
        .request_randomness(Address::new(b"GREQ".to_vec()), vec![5u8, 6])
        .unwrap();
    let proof = vrf::sign(&env, &sk, &[5u8, 6]);
    contract.fulfill_randomness(&env, id, proof).unwrap();
    let events = contract.events();
    assert_eq!(events.len(), 2);
    match &events[0] {
        Event::Requested(e) => {
            assert_eq!(e.request_id, id);
            assert_eq!(e.seed, vec![5u8, 6]);
            assert_eq!(e.requester.as_bytes(), b"GREQ");
        }
        Event::Fulfilled(_) => panic!("the request is announced first"),
    }
    match &events[1] {
        Event::Fulfilled(e) => {
            assert_eq!(e.request_id, id);
            assert_eq!(Some(e.random), contract.get_request(id).unwrap().random);
        }
        Event::Requested(_) => panic!("the fulfillment is announced second"),
    }
    assert_eq!(contract.request_count(), 1);
}

#[test]
fn restore_accepts_exactly_consistent_storage() {
    let pending = || Request {
        requester: Address::new(b"GREQ".to_vec()),
        seed: vec![1u8],
        status: Status::Pending,
        random: None,
    };
    assert!(VrfOracleContract::restore(None, None, vec![pending()]).is_none());
    assert!(VrfOracleContract::restore(Some(Address::new(b"GA".to_vec())), None, vec![]).is_none());
    let inconsistent = Request { random: Some([1u8; 32]), ..pending() };
    assert!(VrfOracleContract::restore(
        Some(Address::new(b"GA".to_vec())),
        Some([0u8; 96]),
        vec![pending(), inconsistent]
    )
    .is_none());
    let fulfilled = Request {
        status: Status::Fulfilled,
        random: Some([2u8; 32]),
        ..pending()
    };
    let restored = VrfOracleContract::restore(
        Some(Address::new(b"GA".to_vec())),
        Some([7u8; 96]),
        vec![pending(), fulfilled],
    )
    .unwrap();
    assert_eq!(restored.request_count(), 2);
    assert_eq!(restored.get_request(1).unwrap().random, Some([2u8; 32]));
    assert_eq!(restored.get_oracle_pubkey(), Ok([7u8; 96]));
    assert!(restored.events().is_empty());
    assert!(VrfOracleContract::restore(None, None, vec![]).is_some());
}

#[test]
fn settle_records_the_given_random_value() {
    let mut contract = VrfOracleContract::new();
    contract
        .initialize(Address::new(b"GADMIN".to_vec()), [0u8; 96])
        .unwrap();
    let first = contract
        .request_randomness(Address::new(b"GREQ".to_vec()), vec![1u8])
        .unwrap();
    let second = contract
        .request_randomness(Address::new(b"GREQ".to_vec()), vec![2u8])
        .unwrap();
    assert_eq!(contract.settle(second, None), Err(VrfError::InvalidProof));
    assert_eq!(contract.get_request(second).unwrap().status, Status::Pending);
    assert_eq!(contract.settle(first, Some([9u8; 32])), Ok(()));
    let settled = contract.get_request(first).unwrap();
    assert_eq!(settled.status, Status::Fulfilled);
    assert_eq!(settled.random, Some([9u8; 32]));
    assert_eq!(settled.seed, vec![1u8]);
    assert_eq!(contract.get_request(second).unwrap().random, None);
    assert_eq!(contract.events().len(), 3);
}

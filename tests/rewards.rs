use rewards_proof::api::{
    finish_generation, finish_verification, first_failing_proof, rewards_proof_generation, rewards_proof_setup,
    rewards_proof_setup_with_bits, rewards_proof_verification,
    rewards_proof_verification_multiple, RewardsError, RANGE_BITS,
};
use rewards_proof::generators::RewardsGenerators;
use rewards_proof::subproofs::range_proof;

type Bundle = (Vec<u8>, Vec<u8>, Vec<u8>, (Vec<u8>, Vec<u8>, Vec<u8>, Vec<u8>));

fn generate(gens: &RewardsGenerators, state: &[u64], policy: &[u64]) -> Bundle {
    let value: u64 = state.iter().zip(policy).map(|(a, b)| a * b).sum();
    rewards_proof_generation(gens, value, &state.to_vec(), &policy.to_vec(), state.len() as u64)
        .expect("generation succeeds")
}

fn verify(gens: &RewardsGenerators, a: &Bundle, policy: &[u64]) -> bool {
    rewards_proof_verification(gens, &a.0, &a.2, &a.1, &policy.to_vec(), &a.3)
}

#[test]
fn concrete_scenario_verifies_and_policy_change_rejects() {
    let gens = rewards_proof_setup_with_bits(3, 8).unwrap();
    let state = vec![3u64, 1, 4];
    let policy = vec![2u64, 0, 5];
    let artifact = rewards_proof_generation(&gens, 26, &state, &policy, 3).unwrap();
    assert!(verify(&gens, &artifact, &policy));
    assert!(!verify(&gens, &artifact, &[2, 0, 6]));
}

#[test]
fn round_trip_with_default_width() {
    let gens = rewards_proof_setup(4).unwrap();
    assert_eq!(gens.range_bits(), RANGE_BITS);
    assert_eq!(gens.catalog_size(), 4);
    let artifact = generate(&gens, &[1, 2, 3, 4], &[5, 6, 7, 8]);
    assert!(verify(&gens, &artifact, &[5, 6, 7, 8]));
}

#[test]
fn round_trip_single_entry_catalog() {
    let gens = rewards_proof_setup(1).unwrap();
    let artifact = generate(&gens, &[9], &[11]);
    assert!(verify(&gens, &artifact, &[11]));
}

#[test]
fn artifact_has_the_wire_layout() {
    let gens = rewards_proof_setup(3).unwrap();
    let artifact = generate(&gens, &[3, 1, 4], &[2, 0, 5]);
    assert_eq!(artifact.2.len(), 32);
    // three entries are padded to four bases
    assert_eq!(artifact.3 .0.len(), 4 * 32);
    assert_eq!(artifact.3 .1.len(), 32);
    assert_eq!(artifact.3 .2.len(), 32);
    assert_eq!(artifact.3 .3.len(), 32);
    assert_eq!(artifact.0.len() % 32, 0);
    assert_eq!(artifact.1.len() % 32, 0);
}

#[test]
fn range_boundary_largest_value_verifies() {
    let gens = rewards_proof_setup_with_bits(1, 8).unwrap();
    let artifact = rewards_proof_generation(&gens, 255, &vec![255], &vec![1], 1).unwrap();
    assert!(verify(&gens, &artifact, &[1]));
}

#[test]
fn range_boundary_first_value_out_of_range_fails() {
    let gens = rewards_proof_setup_with_bits(1, 8).unwrap();
    let r = rewards_proof_generation(&gens, 256, &vec![256], &vec![1], 1);
    assert_eq!(r.err(), Some(RewardsError::ProofGeneration));
}

#[test]
fn range_boundary_sixteen_bits() {
    let gens = rewards_proof_setup(1).unwrap();
    let ok = rewards_proof_generation(&gens, 65535, &vec![65535], &vec![1], 1).unwrap();
    assert!(verify(&gens, &ok, &[1]));
    let r = rewards_proof_generation(&gens, 65536, &vec![65536], &vec![1], 1);
    assert_eq!(r.err(), Some(RewardsError::ProofGeneration));
}

#[test]
fn reward_must_be_the_inner_product() {
    let gens = rewards_proof_setup(3).unwrap();
    let r = rewards_proof_generation(&gens, 27, &vec![3, 1, 4], &vec![2, 0, 5], 3);
    assert_eq!(r.err(), Some(RewardsError::ProofGeneration));
}

#[test]
fn overflowing_inner_product_fails_generation() {
    let gens = rewards_proof_setup_with_bits(2, 64).unwrap();
    let r = rewards_proof_generation(&gens, 0, &vec![u64::MAX, 2], &vec![2, 1], 2);
    assert_eq!(r.err(), Some(RewardsError::ProofGeneration));
}

#[test]
fn size_mismatch_is_invalid_configuration() {
    let gens = rewards_proof_setup(4).unwrap();
    let r = rewards_proof_generation(&gens, 26, &vec![3, 1, 4], &vec![2, 0, 5], 3);
    assert_eq!(r.err(), Some(RewardsError::InvalidConfiguration));
    let r = rewards_proof_generation(&gens, 26, &vec![3, 1, 4, 0], &vec![2, 0, 5], 4);
    assert_eq!(r.err(), Some(RewardsError::InvalidConfiguration));
    let r = rewards_proof_generation(&gens, 26, &vec![3, 1, 4, 0], &vec![2, 0, 5, 0], 3);
    assert_eq!(r.err(), Some(RewardsError::InvalidConfiguration));
}

#[test]
fn setup_rejects_empty_catalog_and_unsupported_width() {
    assert_eq!(rewards_proof_setup(0).err(), Some(RewardsError::InvalidConfiguration));
    assert_eq!(
        rewards_proof_setup_with_bits(4, 12).err(),
        Some(RewardsError::InvalidConfiguration)
    );
    assert_eq!(
        rewards_proof_setup_with_bits(0, 8).err(),
        Some(RewardsError::InvalidConfiguration)
    );
    assert!(rewards_proof_setup_with_bits(4, 64).is_ok());
}

#[test]
fn setup_sizes_the_two_generator_sets() {
    let gens = rewards_proof_setup(5).unwrap();
    assert_eq!(gens.range().capacity(), 16);
    assert_eq!(gens.linear().capacity(), 8);
    assert_eq!(gens.linear().bases(8).len(), 8);
}

fn flipped(v: &[u8], i: usize) -> Vec<u8> {
    let mut w = v.to_vec();
    w[i] ^= 0x01;
    w
}

#[test]
fn tampering_with_any_buffer_rejects() {
    let gens = rewards_proof_setup(2).unwrap();
    let policy = [3u64, 4];
    let a = generate(&gens, &[5, 6], &policy);
    assert!(verify(&gens, &a, &policy));

    for i in [0usize, 100, a.0.len() - 1] {
        let t = (flipped(&a.0, i), a.1.clone(), a.2.clone(), a.3.clone());
        assert!(!verify(&gens, &t, &policy), "range proof byte {}", i);
    }
    for i in [0usize, 40, a.1.len() - 1] {
        let t = (a.0.clone(), flipped(&a.1, i), a.2.clone(), a.3.clone());
        assert!(!verify(&gens, &t, &policy), "linear proof byte {}", i);
    }
    for i in [0usize, 31] {
        let t = (a.0.clone(), a.1.clone(), flipped(&a.2, i), a.3.clone());
        assert!(!verify(&gens, &t, &policy), "range commitment byte {}", i);
    }
    let bundle = &a.3;
    for i in [0usize, 33, bundle.0.len() - 1] {
        let b = (flipped(&bundle.0, i), bundle.1.clone(), bundle.2.clone(), bundle.3.clone());
        let t = (a.0.clone(), a.1.clone(), a.2.clone(), b);
        assert!(!verify(&gens, &t, &policy), "bases byte {}", i);
    }
    for i in [0usize, 31] {
        let f = (bundle.0.clone(), flipped(&bundle.1, i), bundle.2.clone(), bundle.3.clone());
        assert!(!verify(&gens, &(a.0.clone(), a.1.clone(), a.2.clone(), f), &policy));
        let b = (bundle.0.clone(), bundle.1.clone(), flipped(&bundle.2, i), bundle.3.clone());
        assert!(!verify(&gens, &(a.0.clone(), a.1.clone(), a.2.clone(), b), &policy));
        let c = (bundle.0.clone(), bundle.1.clone(), bundle.2.clone(), flipped(&bundle.3, i));
        assert!(!verify(&gens, &(a.0.clone(), a.1.clone(), a.2.clone(), c), &policy));
    }
}

#[test]
fn malformed_bytes_reject_without_panicking() {
    let gens = rewards_proof_setup(2).unwrap();
    let policy = [3u64, 4];
    let a = generate(&gens, &[5, 6], &policy);
    let short = (a.0[..a.0.len() - 1].to_vec(), a.1.clone(), a.2.clone(), a.3.clone());
    assert!(!verify(&gens, &short, &policy));
    let empty: Bundle = (vec![], vec![], vec![], (vec![], vec![], vec![], vec![]));
    assert!(!verify(&gens, &empty, &policy));
    let mut bad_bases = a.3.clone();
    bad_bases.0 = vec![0xff; 64];
    assert!(!verify(&gens, &(a.0.clone(), a.1.clone(), a.2.clone(), bad_bases), &policy));
    let mut few_bases = a.3.clone();
    few_bases.0.truncate(32);
    assert!(!verify(&gens, &(a.0.clone(), a.1.clone(), a.2.clone(), few_bases), &policy));
    assert!(!verify(&gens, &a, &[3, 4, 0]));
}

#[test]
fn policy_mismatch_rejects() {
    let gens = rewards_proof_setup(4).unwrap();
    let a = generate(&gens, &[1, 0, 2, 7], &[4, 4, 4, 4]);
    assert!(verify(&gens, &a, &[4, 4, 4, 4]));
    assert!(!verify(&gens, &a, &[4, 4, 4, 5]));
    assert!(!verify(&gens, &a, &[0, 0, 0, 0]));
}

#[test]
fn artifact_from_other_width_rejects() {
    let gens8 = rewards_proof_setup_with_bits(2, 8).unwrap();
    let gens16 = rewards_proof_setup(2).unwrap();
    let a = generate(&gens8, &[1, 2], &[3, 4]);
    assert!(verify(&gens8, &a, &[3, 4]));
    assert!(!verify(&gens16, &a, &[3, 4]));
}

type Batch = (Vec<Vec<u8>>, Vec<Vec<u8>>, Vec<Vec<u8>>, Vec<(Vec<u8>, Vec<u8>, Vec<u8>, Vec<u8>)>);

fn batch(artifacts: &[Bundle]) -> Batch {
    (
        artifacts.iter().map(|a| a.0.clone()).collect(),
        artifacts.iter().map(|a| a.2.clone()).collect(),
        artifacts.iter().map(|a| a.1.clone()).collect(),
        artifacts.iter().map(|a| a.3.clone()).collect(),
    )
}

#[test]
fn batch_of_valid_artifacts_verifies() {
    let gens = rewards_proof_setup(2).unwrap();
    let policy = vec![1u64, 2];
    let arts: Vec<Bundle> = (0..3u64).map(|k| generate(&gens, &[k, k + 1], &policy)).collect();
    let (rp, rc, lp, lc) = batch(&arts);
    assert!(rewards_proof_verification_multiple(&gens, &rp, &rc, &lp, &policy, &lc, 3));
    assert_eq!(first_failing_proof(&gens, &rp, &rc, &lp, &policy, &lc, 3), None);
}

#[test]
fn batch_fails_fast_at_invalid_artifact() {
    let gens = rewards_proof_setup(2).unwrap();
    let policy = vec![1u64, 2];
    let mut arts: Vec<Bundle> = (0..3u64).map(|k| generate(&gens, &[k, k + 1], &policy)).collect();
    let other = generate(&gens, &[1, 1], &[2, 2]);
    arts.push(other);
    let (rp, rc, lp, lc) = batch(&arts);
    assert!(!rewards_proof_verification_multiple(&gens, &rp, &rc, &lp, &policy, &lc, 4));
    assert_eq!(first_failing_proof(&gens, &rp, &rc, &lp, &policy, &lc, 4), Some(3));
    assert!(rewards_proof_verification_multiple(&gens, &rp, &rc, &lp, &policy, &lc, 3));
}

#[test]
fn batch_with_invalid_first_artifact_reports_index_zero() {
    let gens = rewards_proof_setup(2).unwrap();
    let policy = vec![1u64, 2];
    let mut arts: Vec<Bundle> = vec![generate(&gens, &[1, 1], &[2, 2])];
    arts.push(generate(&gens, &[1, 1], &policy));
    let (rp, rc, lp, lc) = batch(&arts);
    assert_eq!(first_failing_proof(&gens, &rp, &rc, &lp, &policy, &lc, 2), Some(0));
    assert!(!rewards_proof_verification_multiple(&gens, &rp, &rc, &lp, &policy, &lc, 2));
}

#[test]
fn batch_counting_past_the_artifacts_fails_at_the_first_missing() {
    let gens = rewards_proof_setup(2).unwrap();
    let policy = vec![1u64, 2];
    let arts: Vec<Bundle> = vec![generate(&gens, &[1, 1], &policy)];
    let (rp, rc, lp, lc) = batch(&arts);
    assert_eq!(first_failing_proof(&gens, &rp, &rc, &lp, &policy, &lc, 2), Some(1));
    assert_eq!(first_failing_proof(&gens, &rp, &rc, &lp, &policy, &lc, 0), None);
    assert!(rewards_proof_verification_multiple(&gens, &rp, &rc, &lp, &policy, &lc, 0));
}

#[test]
fn undecodable_commitments_reject() {
    let gens = rewards_proof_setup(2).unwrap();
    let policy = [3u64, 4];
    let a = generate(&gens, &[5, 6], &policy);
    let bad_range = (a.0.clone(), a.1.clone(), vec![0xff; 32], a.3.clone());
    assert!(!verify(&gens, &bad_range, &policy));
    let mut bundle = a.3.clone();
    bundle.3 = vec![0xff; 32];
    assert!(!verify(&gens, &(a.0.clone(), a.1.clone(), a.2.clone(), bundle), &policy));
}

#[test]
fn finish_verification_follows_the_range_verdict() {
    let gens = rewards_proof_setup(2).unwrap();
    let policy = vec![3u64, 4];
    let a = generate(&gens, &[5, 6], &policy);
    assert!(finish_verification(&gens, true, &a.1, &policy, &a.3));
    assert!(!finish_verification(&gens, false, &a.1, &policy, &a.3));
    assert!(!finish_verification(&gens, true, &a.1, &vec![3, 5], &a.3));
    assert!(!finish_verification(&gens, true, &a.1, &vec![3, 4, 0], &a.3));
}

#[test]
fn finish_generation_succeeds_exactly_when_the_range_prover_did() {
    let gens = rewards_proof_setup(3).unwrap();
    let state = vec![3u64, 1, 4];
    let policy = vec![2u64, 0, 5];
    let r = finish_generation(&gens, 26, &state, &policy, None);
    assert_eq!(r.err(), Some(RewardsError::ProofGeneration));
    let made = range_proof(gens.range(), 26, gens.range_bits());
    let commitment = made.as_ref().unwrap().1;
    let a = finish_generation(&gens, 26, &state, &policy, made).unwrap();
    assert_eq!(a.2, commitment.to_bytes().to_vec());
    assert!(verify(&gens, &a, &policy));
}

#[test]
fn well_framed_range_proof_that_does_not_decode_rejects() {
    let gens = rewards_proof_setup(2).unwrap();
    let policy = [3u64, 4];
    let a = generate(&gens, &[5, 6], &policy);
    let mut rp = a.0.clone();
    // the fifth element is a scalar; all ones is not canonical
    for byte in &mut rp[128..160] {
        *byte = 0xff;
    }
    assert!(!verify(&gens, &(rp, a.1.clone(), a.2.clone(), a.3.clone()), &policy));
    let mut lp = a.1.clone();
    let n = lp.len();
    for byte in &mut lp[n - 32..] {
        *byte = 0xff;
    }
    assert!(!verify(&gens, &(a.0.clone(), lp, a.2.clone(), a.3.clone()), &policy));
}

#[test]
fn generator_sets_hold_the_default_pedersen_bases() {
    let gens = rewards_proof_setup(4).unwrap();
    let basepoint: [u8; 32] = [
        0xe2, 0xf2, 0xae, 0x0a, 0x6a, 0xbc, 0x4e, 0x71, 0xa8, 0x84, 0xa9, 0x61, 0xc5, 0x00, 0x51,
        0x5f, 0x58, 0xe3, 0x0b, 0x6a, 0xa5, 0x82, 0xdd, 0x8d, 0xb6, 0xa6, 0x59, 0x45, 0xe0, 0x8d,
        0x2d, 0x76,
    ];
    let defaults = bulletproofs::PedersenGens::default();
    for set in [gens.range(), gens.linear()] {
        assert_eq!(set.pedersen().B.compress().to_bytes(), basepoint);
        assert_eq!(set.pedersen().B_blinding.compress(), defaults.B_blinding.compress());
    }
}

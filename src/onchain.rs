//! The verification entry point a ledger program calls: it checks a submitted
//! artifact against the program's policy and records who submitted it, when,
//! and whether it verified. Reading the signer and the clock is the host's
//! part; both arrive here as plain values.

use crate::api::{
    artifact_well_formed, linear_leg_accepts, rewards_proof_setup, rewards_proof_verification,
    RewardsError,
};
use crate::codec::wire_view;
use vstd::prelude::*;

verus! {

/// The catalog size of the program's policy.
pub const ONCHAIN_CATALOG_SIZE: u64 = 64;

/// The weight the program's policy gives every catalog entry.
pub const ONCHAIN_POLICY_WEIGHT: u64 = 7;

/// What the program records for a submission.
#[derive(Clone, Copy, Debug)]
pub struct ProofVerificationState {
    pub author: [u8; 32],
    pub timestamp: i64,
    pub verified: bool,
}

/// The accounts of a submission: the state account that is written, and the
/// public key of the signer who submits.
#[derive(Clone, Copy, Debug)]
pub struct VerifyRewardsProof {
    pub proof_state: ProofVerificationState,
    pub author: [u8; 32],
}

/// A submitted rewards proof, in its wire encoding.
#[derive(Debug)]
pub struct Data {
    pub range_proof: Vec<u8>,
    pub linear_proof: Vec<u8>,
    pub range_commitments: Vec<u8>,
    pub linear_commitments: (Vec<u8>, Vec<u8>, Vec<u8>, Vec<u8>),
    pub number_of_proofs: usize,
}

/// The program's policy: every catalog entry weighs the same.
pub open spec fn onchain_policy() -> Seq<u64> {
    Seq::new(ONCHAIN_CATALOG_SIZE as nat, |i: int| ONCHAIN_POLICY_WEIGHT)
}

/// The program's policy: every catalog entry weighs the same.
pub fn onchain_policy_vector() -> (r: Vec<u64>)
    ensures
        r@ == onchain_policy(),
{
    let mut v: Vec<u64> = Vec::new();
    let mut i: u64 = 0;
    while i < ONCHAIN_CATALOG_SIZE
        invariant
            i <= ONCHAIN_CATALOG_SIZE,
            v@.len() == i,
            forall|j: int| 0 <= j < v@.len() ==> v@[j] == ONCHAIN_POLICY_WEIGHT,
        decreases ONCHAIN_CATALOG_SIZE - i,
    {
        v.push(ONCHAIN_POLICY_WEIGHT);
        i = i + 1;
    }
    assert(v@ =~= onchain_policy());
    v
}

/// Verifies the submitted artifact against the program's policy and records
/// the signer, the time of submission and the verdict in the state account.
pub fn verify_rewards_proof(ctx: &mut VerifyRewardsProof, data: &Data, timestamp: i64) -> (r:
    Result<(), RewardsError>)
    ensures
        r.is_ok(),
        final(ctx).author == old(ctx).author,
        final(ctx).proof_state.author == old(ctx).author,
        final(ctx).proof_state.timestamp == timestamp,
        final(ctx).proof_state.verified ==> artifact_well_formed(
            ONCHAIN_CATALOG_SIZE as nat,
            data.range_proof@,
            data.range_commitments@,
            data.linear_proof@,
            wire_view(data.linear_commitments),
        ),
        final(ctx).proof_state.verified ==> linear_leg_accepts(
            ONCHAIN_CATALOG_SIZE as nat,
            onchain_policy(),
            data.linear_proof@,
            wire_view(data.linear_commitments),
        ),
{
    ctx.proof_state.author = ctx.author;
    ctx.proof_state.timestamp = timestamp;
    let policy = onchain_policy_vector();
    let gens = match rewards_proof_setup(ONCHAIN_CATALOG_SIZE) {
        Ok(g) => g,
        Err(e) => {
            return Err(e);
        },
    };
    ctx.proof_state.verified = rewards_proof_verification(
        &gens,
        &data.range_proof,
        &data.range_commitments,
        &data.linear_proof,
        &policy,
        &data.linear_commitments,
    );
    Ok(())
}

} // verus!

//! The rewards proof: a range proof that the reward has `n` bits and a linear
//! proof that the committed state vector has that inner product with the
//! policy vector, generated together and verified together.

use crate::arith::{
    checked_inner_product, dot, fits_in_bits, in_range, lemma_dot_zero_padding,
    lemma_padded_len_bounds, pad_seq, pad_with_zeros, padded_len, padded_length, supported_bits,
};
use crate::binder::{decompress_all, points_of, scalars_of};
use crate::codec::{
    all_points, chunks, decode_bundle, lemma_bundle_round_trip, points_view, read_point,
    wire_framed, wire_view, write_point, LinearCommitments, WireView,
};
use crate::crypto::{
    decompress, decompresses, encoding_of, linear_accepts, linear_proof_from_bytes,
    linear_proof_decodes, linear_proof_of, linear_proof_shape, range_proof_decodes, linear_proof_to_bytes, pedersen_commit_of, point_of,
    range_proof_framed, range_proof_from_bytes, range_proof_to_bytes,
    scalar_of, transcript_of,
};
use crate::subproofs::{honest_bundle, LINEAR_LABEL};
use bulletproofs::RangeProof;
use curve25519_dalek::ristretto::CompressedRistretto;
use curve25519_dalek::scalar::Scalar;
use crate::generators::{rewards_generators, standard_set, valid_catalog_size, RewardsGenerators};
use crate::subproofs::{linear_proof, linear_verify, range_proof, range_verify};
use vstd::prelude::*;

verus! {

/// Why a rewards configuration or proof could not be made.
#[derive(Clone, Copy, Debug, PartialEq, Eq, Structural)]
pub enum RewardsError {
    /// Zero or mismatched vector lengths, or an unsupported range width.
    InvalidConfiguration,
    /// The witness breaks a precondition of the proof, or the prover refused.
    ProofGeneration,
}

/// The range width, in bits, that rewards are proven in by default.
pub const RANGE_BITS: usize = 16;

/// Generators for a catalog of `incentive_catalog_size` entries, with rewards
/// proven in `[0, 2^16)`.
pub fn rewards_proof_setup(incentive_catalog_size: u64) -> (r: Result<
    RewardsGenerators,
    RewardsError,
>)
    ensures
        r.is_ok() == valid_catalog_size(incentive_catalog_size as nat),
        r.is_ok() ==> r->Ok_0.spec_catalog_size() == incentive_catalog_size,
        r.is_ok() ==> r->Ok_0.spec_range_bits() == RANGE_BITS,
        r.is_ok() ==> standard_set(r->Ok_0.spec_range(), RANGE_BITS),
        r.is_ok() ==> standard_set(
            r->Ok_0.spec_linear(),
            padded_len(incentive_catalog_size as nat) as usize,
        ),
        r.is_err() ==> r->Err_0 == RewardsError::InvalidConfiguration,
{
    rewards_proof_setup_with_bits(incentive_catalog_size, RANGE_BITS)
}

/// Generators for a catalog of `incentive_catalog_size` entries, with rewards
/// proven in `[0, 2^range_bits)`; the width is one of 8, 16, 32 and 64.
pub fn rewards_proof_setup_with_bits(incentive_catalog_size: u64, range_bits: usize) -> (r:
    Result<RewardsGenerators, RewardsError>)
    ensures
        r.is_ok() == (valid_catalog_size(incentive_catalog_size as nat)
            && supported_bits(range_bits as nat)),
        r.is_ok() ==> r->Ok_0.spec_catalog_size() == incentive_catalog_size,
        r.is_ok() ==> r->Ok_0.spec_range_bits() == range_bits,
        r.is_ok() ==> standard_set(r->Ok_0.spec_range(), range_bits),
        r.is_ok() ==> standard_set(
            r->Ok_0.spec_linear(),
            padded_len(incentive_catalog_size as nat) as usize,
        ),
        r.is_err() ==> r->Err_0 == RewardsError::InvalidConfiguration,
{
    match rewards_generators(incentive_catalog_size, range_bits) {
        Some(g) => Ok(g),
        None => Err(RewardsError::InvalidConfiguration),
    }
}

/// Whether the vectors and the declared catalog size match the generators.
pub open spec fn generation_configured(
    gens: RewardsGenerators,
    state: Seq<u64>,
    policy: Seq<u64>,
    catalog_size: nat,
) -> bool {
    &&& catalog_size == gens.spec_catalog_size()
    &&& state.len() == catalog_size
    &&& policy.len() == catalog_size
}

/// Whether `value` is the inner product of the vectors and lies in the range.
pub open spec fn witness_valid(
    gens: RewardsGenerators,
    value: u64,
    state: Seq<u64>,
    policy: Seq<u64>,
) -> bool {
    dot(state, policy) == value && in_range(value as int, gens.spec_range_bits())
}

/// Whether the range half of an artifact passes every check of its encoding:
/// whole proof elements and one compressed point that decompresses.
pub open spec fn range_part_well_formed(range_proof: Seq<u8>, range_commitment: Seq<u8>) -> bool {
    &&& range_proof_framed(range_proof.len())
    &&& range_commitment.len() == 32
    &&& decompresses(range_commitment)
}

/// Whether a commitment bundle for a catalog of `catalog_size` entries has
/// the shape of a bundle, one base per padded catalog entry, and bases `G`,
/// `F` and `B` that decompress.
pub open spec fn bundle_well_formed(catalog_size: nat, bundle: WireView) -> bool {
    &&& wire_framed(bundle)
    &&& bundle.0.len() == 32 * padded_len(catalog_size)
    &&& forall|i: int|
        0 <= i < chunks(bundle.0).len() ==> decompresses(#[trigger] chunks(bundle.0)[i])
    &&& decompresses(bundle.1)
    &&& decompresses(bundle.2)
}

/// Whether an artifact for a catalog of `catalog_size` entries passes every
/// check of its encoding: the range half, a linear proof of whole elements,
/// the bundle, and a commitment `C` that decompresses.
pub open spec fn artifact_well_formed(
    catalog_size: nat,
    range_proof: Seq<u8>,
    range_commitment: Seq<u8>,
    linear_proof: Seq<u8>,
    bundle: WireView,
) -> bool {
    &&& range_part_well_formed(range_proof, range_commitment)
    &&& linear_proof_shape(linear_proof.len())
    &&& bundle_well_formed(catalog_size, bundle)
    &&& decompresses(bundle.3)
}

/// Whether the linear half of an artifact holds against `policy`: the policy
/// has the catalog's length, the bundle is well formed, the proof decodes,
/// and the linear verifier accepts it on the decoded bases and the policy
/// padded with zeros to the padded catalog length.
pub open spec fn linear_leg_accepts(
    catalog_size: nat,
    policy: Seq<u64>,
    linear_proof: Seq<u8>,
    bundle: WireView,
) -> bool {
    &&& policy.len() == catalog_size
    &&& bundle_well_formed(catalog_size, bundle)
    &&& linear_proof_decodes(linear_proof)
    &&& linear_accepts(
        transcript_of(LINEAR_LABEL@),
        linear_proof_of(linear_proof),
        bundle.3,
        points_of(chunks(bundle.0)),
        point_of(bundle.1),
        point_of(bundle.2),
        scalars_of(pad_seq(policy, padded_len(catalog_size))),
    )
}

/// The rest of generation once the range prover has answered with `made`:
/// the linear proof over the padded vectors and the encoding of the
/// artifact. It succeeds exactly when the range prover made a proof.
pub fn finish_generation(
    gens: &RewardsGenerators,
    value: u64,
    private_value: &Vec<u64>,
    public_value: &Vec<u64>,
    made: Option<(RangeProof, CompressedRistretto)>,
) -> (r: Result<(Vec<u8>, Vec<u8>, Vec<u8>, (Vec<u8>, Vec<u8>, Vec<u8>, Vec<u8>)), RewardsError>)
    requires
        generation_configured(*gens, private_value@, public_value@, gens.spec_catalog_size()),
        dot(private_value@, public_value@) == value,
    ensures
        r.is_ok() == made.is_some(),
        r.is_err() ==> r->Err_0 == RewardsError::ProofGeneration,
        r.is_ok() ==> r->Ok_0.2@ == made->Some_0.1.0@,
        r.is_ok() ==> range_proof_framed(r->Ok_0.0@.len()),
        r.is_ok() ==> linear_proof_shape(r->Ok_0.1@.len()),
        r.is_ok() ==> bundle_well_formed(gens.spec_catalog_size(), wire_view(r->Ok_0.3)),
        r.is_ok() ==> decompresses(r->Ok_0.3.3@),
        r.is_ok() ==> honest_bundle(
            gens.spec_linear(),
            pad_seq(private_value@, padded_len(gens.spec_catalog_size())),
            value,
            decode_bundle(wire_view(r->Ok_0.3))->Some_0,
        ),
{
    let (r_proof, r_commitment) = match made {
        Some(pc) => pc,
        None => {
            return Err(RewardsError::ProofGeneration);
        },
    };
    let catalog = gens.catalog_size();
    let len = padded_length(catalog as usize);
    proof {
        lemma_padded_len_bounds(catalog as nat);
    }
    let state = pad_with_zeros(private_value, len);
    let policy = pad_with_zeros(public_value, len);
    proof {
        lemma_dot_zero_padding(private_value@, public_value@, state@, policy@);
    }
    let (l_proof, commitments) = match linear_proof(gens.linear(), &state, &policy, len) {
        Ok(pc) => pc,
        Err(e) => {
            return Err(e);
        },
    };
    let bundle = commitments.to_wire();
    proof {
        let pv = points_view(commitments.g@);
        assert forall|i: int| 0 <= i < pv.len() implies #[trigger] pv[i].len() == 32 by {}
        assert(all_points(pv));
        lemma_bundle_round_trip(commitments@);
        assert(decode_bundle(wire_view(bundle)) == Some(commitments@));
        assert(chunks(bundle.0@) == pv);
        assert forall|i: int| 0 <= i < chunks(bundle.0@).len() implies decompresses(
            #[trigger] chunks(bundle.0@)[i],
        ) by {
            assert(chunks(bundle.0@)[i] == pv[i]);
        }
    }
    Ok(
        (
            range_proof_to_bytes(&r_proof),
            linear_proof_to_bytes(&l_proof),
            write_point(&r_commitment),
            bundle,
        ),
    )
}

/// A rewards proof that `value`, the inner product of the private
/// `private_value` and the public `public_value`, lies in the range of
/// `gens`. It returns the range proof, the linear proof, the range commitment
/// and the linear commitment bundle, each as bytes. The vectors are padded
/// with zeros to the next power of two, which leaves the inner product as it
/// is. On a configured call with a valid witness only the range prover can
/// refuse; what follows its answer is `finish_generation`.
///
/// The two sub-proofs are independent statements: nothing in the proof system
/// binds the value proven in range to the inner product the linear proof
/// opens. Only this function, which refuses a `value` other than the inner
/// product, ties them together at generation time.
pub fn rewards_proof_generation(
    gens: &RewardsGenerators,
    value: u64,
    private_value: &Vec<u64>,
    public_value: &Vec<u64>,
    incentive_catalog_size: u64,
) -> (r: Result<(Vec<u8>, Vec<u8>, Vec<u8>, (Vec<u8>, Vec<u8>, Vec<u8>, Vec<u8>)), RewardsError>)
    ensures
        (r.is_err() && r->Err_0 == RewardsError::InvalidConfiguration) == !generation_configured(
            *gens,
            private_value@,
            public_value@,
            incentive_catalog_size as nat,
        ),
        generation_configured(*gens, private_value@, public_value@, incentive_catalog_size as nat)
            && !witness_valid(*gens, value, private_value@, public_value@) ==> r.is_err()
            && r->Err_0 == RewardsError::ProofGeneration,
        r.is_ok() ==> witness_valid(*gens, value, private_value@, public_value@),
        r.is_ok() ==> artifact_well_formed(
            incentive_catalog_size as nat,
            r->Ok_0.0@,
            r->Ok_0.2@,
            r->Ok_0.1@,
            wire_view(r->Ok_0.3),
        ),
        r.is_ok() ==> exists|blinding: Scalar|
            r->Ok_0.2@ == encoding_of(
                pedersen_commit_of(gens.spec_range().spec_pedersen(), scalar_of(value), blinding),
            ),
        r.is_ok() ==> honest_bundle(
            gens.spec_linear(),
            pad_seq(private_value@, padded_len(incentive_catalog_size as nat)),
            value,
            decode_bundle(wire_view(r->Ok_0.3))->Some_0,
        ),
{
    let catalog = gens.catalog_size();
    let bits = gens.range_bits();
    if incentive_catalog_size != catalog || private_value.len() as u64 != catalog
        || public_value.len() as u64 != catalog {
        return Err(RewardsError::InvalidConfiguration);
    }
    match checked_inner_product(private_value, public_value) {
        Some(p) => {
            if p != value {
                return Err(RewardsError::ProofGeneration);
            }
        },
        None => {
            return Err(RewardsError::ProofGeneration);
        },
    }
    if !fits_in_bits(value, bits) {
        return Err(RewardsError::ProofGeneration);
    }
    let made = range_proof(gens.range(), value, bits);
    finish_generation(gens, value, private_value, public_value, made)
}

/// The rest of verification once the range verifier has answered with
/// `range_accepted`: it rejects where the range verifier did, and otherwise
/// decodes the linear half and returns the linear verifier's verdict.
pub fn finish_verification(
    gens: &RewardsGenerators,
    range_accepted: bool,
    linear_proof: &Vec<u8>,
    public_value: &Vec<u64>,
    linear_proof_commitments: &(Vec<u8>, Vec<u8>, Vec<u8>, Vec<u8>),
) -> (r: bool)
    ensures
        r == (range_accepted && linear_leg_accepts(
            gens.spec_catalog_size(),
            public_value@,
            linear_proof@,
            wire_view(*linear_proof_commitments),
        )),
        r ==> linear_proof_shape(linear_proof@.len()),
        r ==> decompresses(linear_proof_commitments.3@),
{
    if !range_accepted {
        return false;
    }
    let catalog = gens.catalog_size();
    if public_value.len() as u64 != catalog {
        return false;
    }
    let l_proof = match linear_proof_from_bytes(linear_proof.as_slice()) {
        Some(p) => p,
        None => {
            return false;
        },
    };
    let bundle = match LinearCommitments::from_wire(linear_proof_commitments) {
        Some(b) => b,
        None => {
            return false;
        },
    };
    let len = padded_length(catalog as usize);
    proof {
        lemma_padded_len_bounds(catalog as nat);
    }
    let ghost w = wire_view(*linear_proof_commitments);
    proof {
        let n = w.0.len();
        assert(points_view(bundle.g@).len() == bundle.g@.len());
        assert(chunks(w.0) == points_view(bundle.g@));
        assert(chunks(w.0).len() == n / 32);
        assert(n == 32 * (n / 32)) by (nonlinear_arith)
            requires
                n % 32 == 0,
        ;
    }
    if bundle.g.len() != len {
        return false;
    }
    let g = match decompress_all(&bundle.g) {
        Some(g) => g,
        None => {
            proof {
                let k = choose|k: int|
                    0 <= k < bundle.g@.len() && !decompresses(#[trigger] bundle.g@[k].0@);
                assert(chunks(w.0)[k] == bundle.g@[k].0@);
            }
            return false;
        },
    };
    let f = match decompress(&bundle.f) {
        Some(f) => f,
        None => {
            return false;
        },
    };
    let b = match decompress(&bundle.b) {
        Some(b) => b,
        None => {
            return false;
        },
    };
    let policy = pad_with_zeros(public_value, len);
    let accepted = linear_verify(&l_proof, &policy, &g, &f, &b, &bundle.c);
    proof {
        assert forall|i: int| 0 <= i < chunks(w.0).len() implies decompresses(
            #[trigger] chunks(w.0)[i],
        ) by {
            assert(chunks(w.0)[i] == bundle.g@[i].0@);
        }
        assert(g@ =~= points_of(chunks(w.0)));
    }
    accepted
}

/// Whether an artifact proves, against `public_value`, a reward in the range
/// of `gens`: the range verifier must accept the range half, and the linear
/// half must hold (`linear_leg_accepts`). It never fails on malformed bytes:
/// they are rejected. The range verifier draws fresh randomness, so its
/// verdict is not a function of the artifact; what follows it is
/// `finish_verification`, whose result this is.
///
/// Acceptance shows two independent statements: a committed value lies in
/// the range, and `C` opens to an inner product with the policy. Nothing here
/// binds the two values to each other.
pub fn rewards_proof_verification(
    gens: &RewardsGenerators,
    range_proof: &Vec<u8>,
    range_proof_commitments: &Vec<u8>,
    linear_proof: &Vec<u8>,
    public_value: &Vec<u64>,
    linear_proof_commitments: &(Vec<u8>, Vec<u8>, Vec<u8>, Vec<u8>),
) -> (r: bool)
    ensures
        r ==> public_value@.len() == gens.spec_catalog_size(),
        r ==> range_proof_decodes(range_proof@),
        r ==> artifact_well_formed(
            gens.spec_catalog_size(),
            range_proof@,
            range_proof_commitments@,
            linear_proof@,
            wire_view(*linear_proof_commitments),
        ),
        r ==> linear_leg_accepts(
            gens.spec_catalog_size(),
            public_value@,
            linear_proof@,
            wire_view(*linear_proof_commitments),
        ),
{
    let catalog = gens.catalog_size();
    let bits = gens.range_bits();
    if public_value.len() as u64 != catalog {
        return false;
    }
    let r_proof = match range_proof_from_bytes(range_proof.as_slice()) {
        Some(p) => p,
        None => {
            return false;
        },
    };
    let r_commitment = match read_point(range_proof_commitments) {
        Some(c) => c,
        None => {
            return false;
        },
    };
    let range_accepted = range_verify(gens.range(), &r_proof, &r_commitment, bits);
    finish_verification(gens, range_accepted, linear_proof, public_value, linear_proof_commitments)
}

/// Whether batch member `i` is present in every list, passes every check of
/// its encoding, and has a linear half that holds against `policy`: what
/// verification establishes of a member it accepts.
pub open spec fn member_passes(
    gens: RewardsGenerators,
    range_proofs: Seq<Vec<u8>>,
    range_commitments: Seq<Vec<u8>>,
    linear_proofs: Seq<Vec<u8>>,
    policy: Seq<u64>,
    bundles: Seq<(Vec<u8>, Vec<u8>, Vec<u8>, Vec<u8>)>,
    i: int,
) -> bool {
    &&& 0 <= i
    &&& i < range_proofs.len()
    &&& i < range_commitments.len()
    &&& i < linear_proofs.len()
    &&& i < bundles.len()
    &&& policy.len() == gens.spec_catalog_size()
    &&& artifact_well_formed(
        gens.spec_catalog_size(),
        range_proofs[i]@,
        range_commitments[i]@,
        linear_proofs[i]@,
        wire_view(bundles[i]),
    )
    &&& linear_leg_accepts(
        gens.spec_catalog_size(),
        policy,
        linear_proofs[i]@,
        wire_view(bundles[i]),
    )
}

/// The outcome of a fail-fast pass over `count` members: `None` only where
/// every member passed `ok`, and otherwise the index where the pass stopped,
/// with every member before it passing `ok`.
pub open spec fn fail_fast_outcome(
    r: Option<usize>,
    ok: spec_fn(int) -> bool,
    count: nat,
) -> bool {
    match r {
        None => forall|i: int| 0 <= i < count ==> #[trigger] ok(i),
        Some(k) => k < count && forall|i: int| 0 <= i < k ==> #[trigger] ok(i),
    }
}

/// A fail-fast pass stops at or before the first member that fails `ok`: a
/// failing member at index `k` makes the batch fail, with an index of at most
/// `k`, and a failing first member is reported as index 0.
pub proof fn lemma_fail_fast(r: Option<usize>, ok: spec_fn(int) -> bool, count: nat, k: int)
    requires
        fail_fast_outcome(r, ok, count),
        0 <= k < count,
        !ok(k),
    ensures
        r.is_some(),
        r->Some_0 <= k,
        k == 0 ==> r == Some(0usize),
{
    match r {
        None => {
            assert(ok(k));
        },
        Some(j) => {
            if j > k {
                assert(ok(k));
            }
        },
    }
}

/// One step of a fail-fast pass: go on past an accepted member, stop at a
/// rejected one and report its index.
pub fn fail_fast_step(i: usize, accepted: bool) -> (r: Option<usize>)
    ensures
        r == (if accepted {
            None
        } else {
            Some(i)
        }),
{
    if accepted {
        None
    } else {
        Some(i)
    }
}

/// The index of the first artifact of the batch that is missing or does not
/// verify against `public_value`, or `None` where all `number_of_proofs`
/// verify. Verification stops at the first failure.
pub fn first_failing_proof(
    gens: &RewardsGenerators,
    range_proof: &Vec<Vec<u8>>,
    range_proof_commitments: &Vec<Vec<u8>>,
    linear_proof: &Vec<Vec<u8>>,
    public_value: &Vec<u64>,
    linear_proof_commitments: &Vec<(Vec<u8>, Vec<u8>, Vec<u8>, Vec<u8>)>,
    number_of_proofs: usize,
) -> (r: Option<usize>)
    ensures
        fail_fast_outcome(
            r,
            |i: int|
                member_passes(
                    *gens,
                    range_proof@,
                    range_proof_commitments@,
                    linear_proof@,
                    public_value@,
                    linear_proof_commitments@,
                    i,
                ),
            number_of_proofs as nat,
        ),
{
    let mut i: usize = 0;
    while i < number_of_proofs
        invariant
            i <= number_of_proofs,
            forall|j: int|
                0 <= j < i ==> #[trigger] member_passes(
                    *gens,
                    range_proof@,
                    range_proof_commitments@,
                    linear_proof@,
                    public_value@,
                    linear_proof_commitments@,
                    j,
                ),
        decreases number_of_proofs - i,
    {
        if i >= range_proof.len() || i >= range_proof_commitments.len() || i >= linear_proof.len()
            || i >= linear_proof_commitments.len() {
            return Some(i);
        }
        let accepted = rewards_proof_verification(
            gens,
            &range_proof[i],
            &range_proof_commitments[i],
            &linear_proof[i],
            public_value,
            &linear_proof_commitments[i],
        );
        match fail_fast_step(i, accepted) {
            Some(k) => {
                return Some(k);
            },
            None => {},
        }
        i = i + 1;
    }
    None
}

/// Whether every one of the first `number_of_proofs` artifacts verifies
/// against `public_value`; it stops at the first that does not.
pub fn rewards_proof_verification_multiple(
    gens: &RewardsGenerators,
    range_proof: &Vec<Vec<u8>>,
    range_proof_commitments: &Vec<Vec<u8>>,
    linear_proof: &Vec<Vec<u8>>,
    public_value: &Vec<u64>,
    linear_proof_commitments: &Vec<(Vec<u8>, Vec<u8>, Vec<u8>, Vec<u8>)>,
    number_of_proofs: usize,
) -> (r: bool)
    ensures
        number_of_proofs == 0 ==> r,
        r ==> forall|i: int|
            0 <= i < number_of_proofs ==> #[trigger] member_passes(
                *gens,
                range_proof@,
                range_proof_commitments@,
                linear_proof@,
                public_value@,
                linear_proof_commitments@,
                i,
            ),
{
    let failing = first_failing_proof(
        gens,
        range_proof,
        range_proof_commitments,
        linear_proof,
        public_value,
        linear_proof_commitments,
        number_of_proofs,
    );
    proof {
        let ok = |i: int|
            member_passes(
                *gens,
                range_proof@,
                range_proof_commitments@,
                linear_proof@,
                public_value@,
                linear_proof_commitments@,
                i,
            );
        if failing.is_none() {
            assert forall|i: int| 0 <= i < number_of_proofs implies #[trigger] member_passes(
                *gens,
                range_proof@,
                range_proof_commitments@,
                linear_proof@,
                public_value@,
                linear_proof_commitments@,
                i,
            ) by {
                assert(ok(i));
            }
        }
    }
    failing.is_none()
}

} // verus!

//! The two sub-proofs, each on its own transcript label: a range proof that a
//! committed value has `n` bits, and a linear proof that a commitment opens to
//! the inner product of a private vector with a public one.

use crate::api::RewardsError;
use crate::arith::{checked_inner_product, dot, fits_in_bits, in_range, is_pow2, is_power_of_two, supported_bits};
use crate::binder::{
    bind_commitment, combined_commitment, compress_all, encodings_of, scalars_of, to_scalars,
};
use crate::codec::{points_view, BundleView, LinearCommitments};
use crate::crypto::{
    compress, decompresses, encoding_of, first_party_bases, fresh_rng, linear_accepts,
    open_transcript, pedersen_commit_of, prove_linear, prove_range, random_scalar,
    scalar_from_u64, scalar_of, transcript_of, verify_linear, verify_range,
};
use crate::generators::GeneratorSet;
use bulletproofs::{LinearProof, RangeProof};
use curve25519_dalek::ristretto::{CompressedRistretto, RistrettoPoint};
use curve25519_dalek::scalar::Scalar;
use vstd::prelude::*;

verus! {

/// Transcript label of the range proof.
pub const RANGE_LABEL: &'static str = "rangeproof";

/// Transcript label of the linear proof.
pub const LINEAR_LABEL: &'static str = "linear proof";

/// The two transcript labels differ, so neither proof can be replayed as the
/// other.
pub proof fn lemma_labels_differ()
    ensures
        RANGE_LABEL@ != LINEAR_LABEL@,
{
    reveal_strlit("rangeproof");
    reveal_strlit("linear proof");
    assert(RANGE_LABEL@.len() != LINEAR_LABEL@.len());
}

/// A range proof that `value` has `n` bits under a fresh blinding, and the
/// commitment to `value`. `None` where the width is not 8, 16, 32 or 64,
/// where `value` does not fit in `n` bits (it is never truncated), where the
/// set has fewer than `n` bases, or where the prover refused.
pub fn range_proof(gens: &GeneratorSet, value: u64, n: usize) -> (r: Option<
    (RangeProof, CompressedRistretto),
>)
    ensures
        r.is_some() ==> supported_bits(n as nat) && n <= gens.spec_capacity(),
        r.is_some() ==> in_range(value as int, n as nat),
        r.is_some() ==> decompresses(r->Some_0.1.0@),
        r.is_some() ==> exists|blinding: Scalar|
            r->Some_0.1.0@ == encoding_of(
                pedersen_commit_of(gens.spec_pedersen(), scalar_of(value), blinding),
            ),
{
    if !(n == 8 || n == 16 || n == 32 || n == 64) {
        return None;
    }
    if !fits_in_bits(value, n) {
        return None;
    }
    let mut rng = fresh_rng();
    let blinding = random_scalar(&mut rng);
    let mut transcript = open_transcript(RANGE_LABEL);
    let made = prove_range(
        gens.bulletproofs(),
        gens.pedersen(),
        &mut transcript,
        value,
        &blinding,
        n,
    );
    proof {
        if made.is_some() {
            assert(made->Some_0.1.0@ == encoding_of(
                pedersen_commit_of(gens.spec_pedersen(), scalar_of(value), blinding),
            ));
        }
    }
    made
}

/// Whether the proof shows that the value under `commitment` has `n` bits.
/// It rejects an unsupported width, a set with fewer than `n` bases, and a
/// commitment that does not decompress.
pub fn range_verify(
    gens: &GeneratorSet,
    range_proof: &RangeProof,
    commitment: &CompressedRistretto,
    n: usize,
) -> (r: bool)
    ensures
        r ==> supported_bits(n as nat) && n <= gens.spec_capacity(),
        r ==> decompresses(commitment.0@),
{
    let mut transcript = open_transcript(RANGE_LABEL);
    verify_range(range_proof, gens.bulletproofs(), gens.pedersen(), &mut transcript, commitment, n)
}

/// Whether a linear proof can be made over `gens` for vectors `a` and `b` of
/// length `n`: both have that length, the set has exactly `n` bases, and `n`
/// is a power of two.
pub open spec fn linear_configured(gens: GeneratorSet, a: Seq<u64>, b: Seq<u64>, n: nat) -> bool {
    &&& a.len() == n
    &&& b.len() == n
    &&& gens.spec_capacity() == n
    &&& is_pow2(n)
}

/// Whether a commitment bundle holds the bases of `gens`, its value base `F`
/// and blinding base `B`, and a combined commitment to `a` with inner product
/// `product` under some blinding.
pub open spec fn honest_bundle(gens: GeneratorSet, a: Seq<u64>, product: u64, v: BundleView) -> bool {
    let bases = first_party_bases(gens.spec_bulletproofs(), gens.spec_capacity() as usize);
    let pg = gens.spec_pedersen();
    &&& v.0 == encodings_of(bases)
    &&& v.1 == encoding_of(pg.B)
    &&& v.2 == encoding_of(pg.B_blinding)
    &&& exists|blinding: Scalar|
        v.3 == encoding_of(
            combined_commitment(
                scalars_of(a),
                blinding,
                scalar_of(product),
                bases,
                pg.B,
                pg.B_blinding,
            ),
        )
}

/// A linear proof that a fresh commitment opens to `<a, b>`, with the bundle
/// the verifier needs: the bases `G` of the set, the value base `F`, the
/// blinding base `B` and the commitment `C`. The configuration must fit (see
/// `linear_configured`), and the inner product must fit in a `u64`.
pub fn linear_proof(gens: &GeneratorSet, a: &Vec<u64>, b: &Vec<u64>, n: usize) -> (r: Result<
    (LinearProof, LinearCommitments),
    RewardsError,
>)
    ensures
        (r.is_err() && r->Err_0 == RewardsError::InvalidConfiguration) == !linear_configured(
            *gens,
            a@,
            b@,
            n as nat,
        ),
        linear_configured(*gens, a@, b@, n as nat) && dot(a@, b@) > u64::MAX ==> r.is_err()
            && r->Err_0 == RewardsError::ProofGeneration,
        linear_configured(*gens, a@, b@, n as nat) && dot(a@, b@) <= u64::MAX ==> r.is_ok(),
        r.is_ok() ==> honest_bundle(*gens, a@, dot(a@, b@) as u64, r->Ok_0.1@),
        r.is_ok() ==> forall|i: int|
            0 <= i < n ==> decompresses(#[trigger] r->Ok_0.1.g@[i].0@),
        r.is_ok() ==> r->Ok_0.1.g@.len() == n,
        r.is_ok() ==> decompresses(r->Ok_0.1.f.0@),
        r.is_ok() ==> decompresses(r->Ok_0.1.b.0@),
        r.is_ok() ==> decompresses(r->Ok_0.1.c.0@),
{
    if !(a.len() == n && b.len() == n && gens.capacity() == n && is_power_of_two(n)) {
        return Err(RewardsError::InvalidConfiguration);
    }
    let product = match checked_inner_product(a, b) {
        Some(p) => p,
        None => {
            return Err(RewardsError::ProofGeneration);
        },
    };
    let mut rng = fresh_rng();
    let blinding = random_scalar(&mut rng);
    let g = gens.bases(n);
    let f: RistrettoPoint = gens.pedersen().B;
    let b_base: RistrettoPoint = gens.pedersen().B_blinding;
    let a_scalars = to_scalars(a);
    let c = bind_commitment(&a_scalars, blinding, scalar_from_u64(product), &g, f, b_base);
    let g_compressed = compress_all(&g);
    let f_compressed = compress(&f);
    let b_compressed = compress(&b_base);
    let mut transcript = open_transcript(LINEAR_LABEL);
    let created = prove_linear(
        &mut transcript,
        &mut rng,
        &c,
        blinding,
        a_scalars,
        to_scalars(b),
        g,
        &f,
        &b_base,
    );
    let commitments = LinearCommitments {
        g: g_compressed,
        f: f_compressed,
        b: b_compressed,
        c,
    };
    proof {
        let bases = first_party_bases(gens.spec_bulletproofs(), gens.spec_capacity() as usize);
        let pg = gens.spec_pedersen();
        assert(g@ == bases);
        assert(f == pg.B && b_base == pg.B_blinding);
        assert(product == dot(a@, b@) as u64);
        assert(points_view(commitments.g@) =~= encodings_of(g@));
        assert(commitments@.3 == encoding_of(
            combined_commitment(
                scalars_of(a@),
                blinding,
                scalar_of(product),
                g@,
                f,
                b_base,
            ),
        ));
    }
    match created {
        Some(p) => Ok((p, commitments)),
        None => Err(RewardsError::ProofGeneration),
    }
}

/// Whether the proof shows that `c` opens to the inner product of a hidden
/// vector with `b`, under the bases `g`, `f` and `blinding_base`: the linear
/// verifier's verdict on a fresh transcript under the linear label.
pub fn linear_verify(
    linear_proof: &LinearProof,
    b: &Vec<u64>,
    g: &Vec<RistrettoPoint>,
    f: &RistrettoPoint,
    blinding_base: &RistrettoPoint,
    c: &CompressedRistretto,
) -> (r: bool)
    ensures
        r == linear_accepts(
            transcript_of(LINEAR_LABEL@),
            *linear_proof,
            c.0@,
            g@,
            *f,
            *blinding_base,
            scalars_of(b@),
        ),
        g@.len() != b@.len() ==> !r,
        b@.len() == 0 ==> !r,
        !decompresses(c.0@) ==> !r,
{
    let mut transcript = open_transcript(LINEAR_LABEL);
    verify_linear(linear_proof, &mut transcript, c, g, f, blinding_base, to_scalars(b))
}

} // verus!

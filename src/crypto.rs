//! The curve, transcript and proof-system primitives this library builds on.
//! Every item here is trusted: its contract states what the outside crate's
//! source shows, and nothing more.

use bulletproofs::{BulletproofGens, LinearProof, PedersenGens, RangeProof};
use curve25519_dalek::ristretto::{CompressedRistretto, RistrettoPoint};
use curve25519_dalek::scalar::Scalar;
use curve25519_dalek::traits::VartimeMultiscalarMul;
use crate::arith::{is_pow2, supported_bits};
use merlin::Transcript;
use rand::rngs::ThreadRng;
use vstd::prelude::*;

verus! {

#[verifier::external_type_specification]
#[verifier::external_body]
pub struct ExScalar(Scalar);

#[verifier::external_type_specification]
#[verifier::external_body]
pub struct ExRistrettoPoint(RistrettoPoint);

#[verifier::external_type_specification]
pub struct ExCompressedRistretto(CompressedRistretto);

#[verifier::external_type_specification]
pub struct ExPedersenGens(PedersenGens);

#[verifier::external_type_specification]
#[verifier::external_body]
pub struct ExBulletproofGens(BulletproofGens);

#[verifier::external_type_specification]
#[verifier::external_body]
pub struct ExRangeProof(RangeProof);

#[verifier::external_type_specification]
#[verifier::external_body]
pub struct ExLinearProof(LinearProof);

#[verifier::external_type_specification]
#[verifier::external_body]
pub struct ExTranscript(Transcript);

#[verifier::external_type_specification]
#[verifier::external_body]
pub struct ExThreadRng(ThreadRng);

/// Whether 32 bytes are the canonical encoding of a Ristretto point.
pub uninterp spec fn decompresses(bytes: Seq<u8>) -> bool;

/// The field element that a `u64` stands for.
pub uninterp spec fn scalar_of(v: u64) -> Scalar;

/// The canonical 32-byte encoding of a point.
pub uninterp spec fn encoding_of(p: RistrettoPoint) -> Seq<u8>;

/// The point that a canonical 32-byte encoding stands for.
pub uninterp spec fn point_of(bytes: Seq<u8>) -> RistrettoPoint;

/// The sum of `scalars[i] * points[i]`.
pub uninterp spec fn msm_of(scalars: Seq<Scalar>, points: Seq<RistrettoPoint>) -> RistrettoPoint;

/// The Pedersen commitment `value * B + blinding * B_blinding` under `g`.
pub open spec fn pedersen_commit_of(g: PedersenGens, value: Scalar, blinding: Scalar) -> RistrettoPoint {
    msm_of(seq![value, blinding], seq![g.B, g.B_blinding])
}

/// The encoding of the point that SHA3-512 hash-to-group makes of `input`.
pub uninterp spec fn hashed_point_encoding(input: Seq<u8>) -> Seq<u8>;

/// Whether a byte string decodes to a range proof.
pub uninterp spec fn range_proof_decodes(bytes: Seq<u8>) -> bool;

/// Whether a byte string decodes to a linear proof.
pub uninterp spec fn linear_proof_decodes(bytes: Seq<u8>) -> bool;

/// The encoding of the Ristretto basepoint.
pub open spec fn basepoint_encoding() -> Seq<u8> {
    seq![
        0xe2u8, 0xf2, 0xae, 0x0a, 0x6a, 0xbc, 0x4e, 0x71, 0xa8, 0x84, 0xa9, 0x61, 0xc5, 0x00, 0x51,
        0x5f, 0x58, 0xe3, 0x0b, 0x6a, 0xa5, 0x82, 0xdd, 0x8d, 0xb6, 0xa6, 0x59, 0x45, 0xe0, 0x8d,
        0x2d, 0x76,
    ]
}

/// A fresh transcript under a label.
pub uninterp spec fn transcript_of(label: Seq<char>) -> Transcript;

/// The generator set made for `capacity` bases and `parties` parties.
pub uninterp spec fn bulletproof_gens_of(capacity: usize, parties: usize) -> BulletproofGens;

/// The first `n` bases of the first party of a generator set.
pub uninterp spec fn first_party_bases(g: BulletproofGens, n: usize) -> Seq<RistrettoPoint>;

/// The linear proof that a byte string decodes to.
pub uninterp spec fn linear_proof_of(bytes: Seq<u8>) -> LinearProof;

/// The verdict of the linear verifier, from the transcript it starts with,
/// on a proof, the commitment's bytes, the bases `G`, `F` and `B`, and the
/// public vector.
pub uninterp spec fn linear_accepts(
    t: Transcript,
    p: LinearProof,
    c: Seq<u8>,
    g: Seq<RistrettoPoint>,
    f: RistrettoPoint,
    blinding_base: RistrettoPoint,
    b: Seq<Scalar>,
) -> bool;

/// How many per-index bases a generator set precomputed for each party.
pub uninterp spec fn generator_capacity(g: BulletproofGens) -> nat;

/// How many parties a generator set was made for.
pub uninterp spec fn party_capacity(g: BulletproofGens) -> nat;

/// Byte lengths that `RangeProof::from_bytes` may accept: whole 32-byte
/// elements, at least seven of them.
pub open spec fn range_proof_framed(len: nat) -> bool {
    len % 32 == 0 && len >= 7 * 32
}

/// Byte lengths of `2k + 3` whole 32-byte elements: the shape in which
/// `LinearProof::to_bytes` writes a proof with `k` folding rounds.
pub open spec fn linear_proof_shape(len: nat) -> bool {
    len % 32 == 0 && len >= 3 * 32 && ((len / 32 - 3) as nat) % 2 == 0
}

/// Relies on merlin's `Transcript::new`: a fresh transcript under a label.
#[verifier::external_body]
pub(crate) fn open_transcript(label: &'static str) -> (r: Transcript)
    ensures
        r == transcript_of(label@),
{
    Transcript::new(label.as_bytes())
}

/// Relies on rand's `thread_rng`: a handle on the cryptographically secure
/// thread-local generator.
#[verifier::external_body]
pub(crate) fn fresh_rng() -> (r: ThreadRng) {
    rand::thread_rng()
}

/// Relies on `Scalar::random`: a uniformly drawn scalar; nothing is known of it.
#[verifier::external_body]
pub(crate) fn random_scalar(rng: &mut ThreadRng) -> (r: Scalar) {
    Scalar::random(rng)
}

/// Relies on `Scalar::from(u64)`: the scalar depends on the integer alone.
#[verifier::external_body]
pub(crate) fn scalar_from_u64(v: u64) -> (r: Scalar)
    ensures
        r == scalar_of(v),
{
    Scalar::from(v)
}

/// Relies on `PedersenGens::default`: the value base is the Ristretto
/// basepoint, and the blinding base is SHA3-512 hash-to-group of the
/// basepoint's encoding.
#[verifier::external_body]
pub(crate) fn default_pedersen_gens() -> (r: PedersenGens)
    ensures
        encoding_of(r.B) == basepoint_encoding(),
        encoding_of(r.B_blinding) == hashed_point_encoding(basepoint_encoding()),
{
    PedersenGens::default()
}

/// Relies on `BulletproofGens::new`: `parties` parties, each with exactly
/// `capacity` bases, derived from the sizes alone.
#[verifier::external_body]
pub(crate) fn new_bulletproof_gens(capacity: usize, parties: usize) -> (r: BulletproofGens)
    ensures
        r == bulletproof_gens_of(capacity, parties),
        generator_capacity(r) == capacity,
        party_capacity(r) == parties,
{
    BulletproofGens::new(capacity, parties)
}

/// Relies on `BulletproofGens::share(0).G(n)`: the first `n` bases of the
/// first party, or all of them where fewer were precomputed.
#[verifier::external_body]
pub(crate) fn first_party_points(g: &BulletproofGens, n: usize) -> (r: Vec<RistrettoPoint>)
    requires
        party_capacity(*g) >= 1,
    ensures
        r@ == first_party_bases(*g, n),
        r@.len() == if n <= generator_capacity(*g) {
            n as nat
        } else {
            generator_capacity(*g)
        },
{
    g.share(0).G(n).cloned().collect()
}

/// Relies on `RistrettoPoint::vartime_multiscalar_mul`: the sum of
/// `scalars[i] * points[i]`; it panics on lengths that differ.
#[verifier::external_body]
pub(crate) fn multiscalar_mul(scalars: &Vec<Scalar>, points: &Vec<RistrettoPoint>) -> (r:
    RistrettoPoint)
    requires
        scalars.len() == points.len(),
    ensures
        r == msm_of(scalars@, points@),
{
    RistrettoPoint::vartime_multiscalar_mul(scalars.iter(), points.iter())
}

/// Relies on `RistrettoPoint::compress`: the canonical 32-byte encoding.
#[verifier::external_body]
pub(crate) fn compress(p: &RistrettoPoint) -> (r: CompressedRistretto)
    ensures
        r.0@ == encoding_of(*p),
        decompresses(r.0@),
{
    p.compress()
}

/// Relies on `CompressedRistretto::decompress`: a point exactly when the bytes
/// are a canonical encoding.
#[verifier::external_body]
pub(crate) fn decompress(c: &CompressedRistretto) -> (r: Option<RistrettoPoint>)
    ensures
        r.is_some() == decompresses(c.0@),
        r.is_some() ==> r->Some_0 == point_of(c.0@),
{
    c.decompress()
}

/// Relies on `CompressedRistretto::from_slice`: it takes exactly 32 bytes, as
/// they are.
#[verifier::external_body]
pub(crate) fn compressed_from_slice(bytes: &[u8]) -> (r: Option<CompressedRistretto>)
    ensures
        r.is_some() == (bytes@.len() == 32),
        r.is_some() ==> r->Some_0.0@ == bytes@,
{
    CompressedRistretto::from_slice(bytes).ok()
}

/// Relies on `RangeProof::prove_single`: a proof that the committed `v` has
/// `n` bits, and the compressed Pedersen commitment to `v` under the given
/// blinding; `None` where the prover refused. It refuses a width other than
/// 8, 16, 32 or 64, a set with fewer than `n` bases, and a set without a
/// party.
#[verifier::external_body]
pub(crate) fn prove_range(
    bp_gens: &BulletproofGens,
    pc_gens: &PedersenGens,
    transcript: &mut Transcript,
    v: u64,
    blinding: &Scalar,
    n: usize,
) -> (r: Option<(RangeProof, CompressedRistretto)>)
    ensures
        r.is_some() ==> supported_bits(n as nat) && n <= generator_capacity(*bp_gens)
            && party_capacity(*bp_gens) >= 1,
        r.is_some() ==> r->Some_0.1.0@ == encoding_of(
            pedersen_commit_of(*pc_gens, scalar_of(v), *blinding),
        ),
        r.is_some() ==> decompresses(r->Some_0.1.0@),
{
    RangeProof::prove_single(bp_gens, pc_gens, transcript, v, blinding, n).ok()
}

/// Relies on `RangeProof::to_bytes`: `2 lg n + 9` elements of 32 bytes, and
/// `n` is at least 8.
#[verifier::external_body]
pub(crate) fn range_proof_to_bytes(p: &RangeProof) -> (r: Vec<u8>)
    ensures
        range_proof_framed(r@.len()),
{
    p.to_bytes()
}

/// Relies on `RangeProof::from_bytes`: it refuses a length that is not whole
/// 32-byte elements or is under seven of them.
#[verifier::external_body]
pub(crate) fn range_proof_from_bytes(bytes: &[u8]) -> (r: Option<RangeProof>)
    ensures
        r.is_some() == range_proof_decodes(bytes@),
        !range_proof_framed(bytes@.len()) ==> r.is_none(),
{
    RangeProof::from_bytes(bytes).ok()
}

/// Relies on `RangeProof::verify_single`: whether the proof shows that the
/// committed value has `n` bits. It draws fresh randomness for the check. It
/// rejects a width other than 8, 16, 32 or 64, a set with fewer than `n`
/// bases or without a party, and a commitment that does not decompress.
#[verifier::external_body]
pub(crate) fn verify_range(
    range_proof: &RangeProof,
    bp_gens: &BulletproofGens,
    pc_gens: &PedersenGens,
    transcript: &mut Transcript,
    commitment: &CompressedRistretto,
    n: usize,
) -> (r: bool)
    ensures
        r ==> supported_bits(n as nat) && n <= generator_capacity(*bp_gens) && party_capacity(
            *bp_gens,
        ) >= 1 && decompresses(commitment.0@),
{
    range_proof.verify_single(bp_gens, pc_gens, transcript, commitment, n).is_ok()
}

/// Relies on `LinearProof::create`: a proof that `c` opens to the inner
/// product of `a` and `b` under the bases `g`, `f` and `blinding_base`. It
/// refuses exactly where the lengths differ or are not a power of two.
#[verifier::external_body]
pub(crate) fn prove_linear(
    transcript: &mut Transcript,
    rng: &mut ThreadRng,
    c: &CompressedRistretto,
    blinding: Scalar,
    a: Vec<Scalar>,
    b: Vec<Scalar>,
    g: Vec<RistrettoPoint>,
    f: &RistrettoPoint,
    blinding_base: &RistrettoPoint,
) -> (r: Option<LinearProof>)
    ensures
        r.is_some() == (g@.len() == b@.len() && a@.len() == b@.len() && is_pow2(b@.len() as nat)),
{
    LinearProof::create(transcript, rng, c, blinding, a, b, g, f, blinding_base).ok()
}

/// Relies on `LinearProof::to_bytes`: `2 lg n + 3` elements of 32 bytes.
#[verifier::external_body]
pub(crate) fn linear_proof_to_bytes(p: &LinearProof) -> (r: Vec<u8>)
    ensures
        linear_proof_shape(r@.len()),
{
    p.to_bytes()
}

/// Relies on `LinearProof::from_bytes`: it refuses a length that is not
/// `2k + 3` whole 32-byte elements.
#[verifier::external_body]
pub(crate) fn linear_proof_from_bytes(bytes: &[u8]) -> (r: Option<LinearProof>)
    ensures
        r.is_some() == linear_proof_decodes(bytes@),
        !linear_proof_shape(bytes@.len()) ==> r.is_none(),
        r.is_some() ==> r->Some_0 == linear_proof_of(bytes@),
{
    LinearProof::from_bytes(bytes).ok()
}

/// Relies on `LinearProof::verify`: whether the proof shows that `c` opens to
/// the inner product of a hidden vector with `b`. It draws no randomness, so
/// the verdict depends on its arguments and the transcript alone. It fails
/// where `g` and `b` differ in length, where `b` is empty, and where `c` does
/// not decompress.
#[verifier::external_body]
pub(crate) fn verify_linear(
    linear_proof: &LinearProof,
    transcript: &mut Transcript,
    c: &CompressedRistretto,
    g: &Vec<RistrettoPoint>,
    f: &RistrettoPoint,
    blinding_base: &RistrettoPoint,
    b: Vec<Scalar>,
) -> (r: bool)
    ensures
        r == linear_accepts(*old(transcript), *linear_proof, c.0@, g@, *f, *blinding_base, b@),
        g.len() != b.len() ==> !r,
        b.len() == 0 ==> !r,
        !decompresses(c.0@) ==> !r,
{
    linear_proof.verify(transcript, c, g, f, blinding_base, b).is_ok()
}

} // verus!

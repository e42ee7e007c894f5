//! Public commitment generators: one set sized for the range proof and one
//! sized for the linear proof.

use crate::arith::{padded_len, padded_length, supported_bits};
use crate::crypto::{
    basepoint_encoding, bulletproof_gens_of, default_pedersen_gens, encoding_of,
    hashed_point_encoding, first_party_bases, first_party_points,
    generator_capacity, new_bulletproof_gens, party_capacity,
};
use bulletproofs::{BulletproofGens, PedersenGens};
use curve25519_dalek::ristretto::RistrettoPoint;
use vstd::prelude::*;

verus! {

/// A value base, a blinding base and `capacity` per-index bases.
pub struct GeneratorSet {
    capacity: usize,
    pedersen: PedersenGens,
    bulletproofs: BulletproofGens,
}

impl GeneratorSet {
    #[verifier::type_invariant]
    spec fn holds_capacity(&self) -> bool {
        &&& self.bulletproofs == bulletproof_gens_of(self.capacity, 1)
        &&& generator_capacity(self.bulletproofs) == self.capacity
        &&& party_capacity(self.bulletproofs) == 1
        &&& encoding_of(self.pedersen.B) == basepoint_encoding()
        &&& encoding_of(self.pedersen.B_blinding) == hashed_point_encoding(basepoint_encoding())
    }

    /// The value and blinding bases.
    pub closed spec fn spec_pedersen(&self) -> PedersenGens {
        self.pedersen
    }

    /// The precomputed per-index bases.
    pub closed spec fn spec_bulletproofs(&self) -> BulletproofGens {
        self.bulletproofs
    }

    /// How many per-index bases the set holds.
    pub closed spec fn spec_capacity(&self) -> nat {
        self.capacity as nat
    }

    /// How many per-index bases the set holds.
    pub fn capacity(&self) -> (r: usize)
        ensures
            r == self.spec_capacity(),
    {
        self.capacity
    }

    /// The value and blinding bases.
    pub fn pedersen(&self) -> (r: &PedersenGens)
        ensures
            *r == self.spec_pedersen(),
            encoding_of(r.B) == basepoint_encoding(),
            encoding_of(r.B_blinding) == hashed_point_encoding(basepoint_encoding()),
    {
        proof {
            use_type_invariant(self);
        }
        &self.pedersen
    }

    /// The precomputed per-index bases.
    pub fn bulletproofs(&self) -> (r: &BulletproofGens)
        ensures
            *r == self.spec_bulletproofs(),
            *r == bulletproof_gens_of(self.spec_capacity() as usize, 1),
            generator_capacity(*r) == self.spec_capacity(),
            party_capacity(*r) == 1,
    {
        proof {
            use_type_invariant(self);
        }
        &self.bulletproofs
    }

    /// The first `n` per-index bases.
    pub fn bases(&self, n: usize) -> (r: Vec<RistrettoPoint>)
        requires
            n <= self.spec_capacity(),
        ensures
            r@.len() == n,
            r@ == first_party_bases(self.spec_bulletproofs(), n),
    {
        proof {
            use_type_invariant(self);
        }
        first_party_points(&self.bulletproofs, n)
    }
}

/// Whether `g` is the set that `setup(capacity)` makes: the basepoint as value
/// base, its SHA3-512 hash-to-group as blinding base, and the per-index bases
/// made for `capacity` entries and one party. It depends on `capacity` alone.
pub open spec fn standard_set(g: GeneratorSet, capacity: usize) -> bool {
    &&& g.spec_capacity() == capacity
    &&& g.spec_bulletproofs() == bulletproof_gens_of(capacity, 1)
    &&& encoding_of(g.spec_pedersen().B) == basepoint_encoding()
    &&& encoding_of(g.spec_pedersen().B_blinding) == hashed_point_encoding(basepoint_encoding())
}

/// A generator set with `capacity` per-index bases: the default value and
/// blinding bases, and the bases made for `capacity` entries and one party.
pub fn setup(capacity: usize) -> (r: GeneratorSet)
    ensures
        standard_set(r, capacity),
{
    let pedersen = default_pedersen_gens();
    let bulletproofs = new_bulletproof_gens(capacity, 1);
    GeneratorSet { capacity, pedersen, bulletproofs }
}

/// The largest catalog a linear proof can cover.
pub const MAX_CATALOG_SIZE: u64 = 0x8000_0000;

/// Catalog sizes that a rewards configuration accepts.
pub open spec fn valid_catalog_size(n: nat) -> bool {
    1 <= n <= MAX_CATALOG_SIZE
}

/// The two generator sets a rewards proof needs, with the range width and
/// the catalog size they were made for.
pub struct RewardsGenerators {
    range: GeneratorSet,
    linear: GeneratorSet,
    range_bits: usize,
    catalog_size: u64,
}

impl RewardsGenerators {
    #[verifier::type_invariant]
    spec fn sized(&self) -> bool {
        &&& supported_bits(self.range_bits as nat)
        &&& self.range.spec_capacity() == self.range_bits
        &&& valid_catalog_size(self.catalog_size as nat)
        &&& self.linear.spec_capacity() == padded_len(self.catalog_size as nat)
    }

    /// The bit width `n` of the range `[0, 2^n)` that rewards are proven in.
    pub closed spec fn spec_range_bits(&self) -> nat {
        self.range_bits as nat
    }

    /// The length of the state and policy vectors.
    pub closed spec fn spec_catalog_size(&self) -> nat {
        self.catalog_size as nat
    }

    /// The bases of the range proof.
    pub closed spec fn spec_range(&self) -> GeneratorSet {
        self.range
    }

    /// The bases of the linear proof.
    pub closed spec fn spec_linear(&self) -> GeneratorSet {
        self.linear
    }

    /// The bit width `n` of the range `[0, 2^n)` that rewards are proven in.
    pub fn range_bits(&self) -> (r: usize)
        ensures
            r == self.spec_range_bits(),
            supported_bits(r as nat),
            self.spec_range().spec_capacity() == r,
    {
        proof {
            use_type_invariant(self);
        }
        self.range_bits
    }

    /// The length of the state and policy vectors.
    pub fn catalog_size(&self) -> (r: u64)
        ensures
            r == self.spec_catalog_size(),
            valid_catalog_size(r as nat),
            self.spec_linear().spec_capacity() == padded_len(r as nat),
    {
        proof {
            use_type_invariant(self);
        }
        self.catalog_size
    }

    /// The bases of the range proof.
    pub fn range(&self) -> (r: &GeneratorSet)
        ensures
            *r == self.spec_range(),
    {
        &self.range
    }

    /// The bases of the linear proof.
    pub fn linear(&self) -> (r: &GeneratorSet)
        ensures
            *r == self.spec_linear(),
    {
        &self.linear
    }
}

/// Generators for a catalog of `catalog_size` entries and rewards of
/// `range_bits` bits; `None` where either size is out of bounds.
pub fn rewards_generators(catalog_size: u64, range_bits: usize) -> (r: Option<RewardsGenerators>)
    ensures
        r.is_some() == (valid_catalog_size(catalog_size as nat) && supported_bits(
            range_bits as nat,
        )),
        r.is_some() ==> r->Some_0.spec_catalog_size() == catalog_size,
        r.is_some() ==> r->Some_0.spec_range_bits() == range_bits,
        r.is_some() ==> standard_set(r->Some_0.spec_range(), range_bits),
        r.is_some() ==> standard_set(
            r->Some_0.spec_linear(),
            padded_len(catalog_size as nat) as usize,
        ),
{
    if catalog_size == 0 || catalog_size > MAX_CATALOG_SIZE {
        return None;
    }
    if !(range_bits == 8 || range_bits == 16 || range_bits == 32 || range_bits == 64) {
        return None;
    }
    let range = setup(range_bits);
    let linear = setup(padded_length(catalog_size as usize));
    Some(RewardsGenerators { range, linear, range_bits, catalog_size })
}

} // verus!

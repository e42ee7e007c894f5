//! The commitment binder: `C = <a, G> + r * B + <a, b> * F`, computed as one
//! multi-scalar multiplication, and the conversions around it.

use crate::crypto::{
    compress, decompress, decompresses, encoding_of, msm_of, multiscalar_mul, point_of,
    scalar_from_u64, scalar_of,
};
use curve25519_dalek::ristretto::{CompressedRistretto, RistrettoPoint};
use curve25519_dalek::scalar::Scalar;
use vstd::prelude::*;

verus! {

/// Each integer as a field element.
pub open spec fn scalars_of(v: Seq<u64>) -> Seq<Scalar> {
    v.map_values(|x: u64| scalar_of(x))
}

/// Each point's canonical encoding.
pub open spec fn encodings_of(points: Seq<RistrettoPoint>) -> Seq<Seq<u8>> {
    points.map_values(|p: RistrettoPoint| encoding_of(p))
}

/// The point each encoding stands for.
pub open spec fn points_of(encodings: Seq<Seq<u8>>) -> Seq<RistrettoPoint> {
    encodings.map_values(|e: Seq<u8>| point_of(e))
}

/// The combined commitment `C = <a, G> + r * B + <a, b> * F`, as a point.
pub open spec fn combined_commitment(
    a: Seq<Scalar>,
    blinding: Scalar,
    product: Scalar,
    g: Seq<RistrettoPoint>,
    f: RistrettoPoint,
    b: RistrettoPoint,
) -> RistrettoPoint {
    msm_of(a.push(blinding).push(product), g.push(b).push(f))
}

/// Each integer as a field element.
pub fn to_scalars(v: &Vec<u64>) -> (r: Vec<Scalar>)
    ensures
        r@ == scalars_of(v@),
{
    let mut out: Vec<Scalar> = Vec::with_capacity(v.len());
    let mut i: usize = 0;
    while i < v.len()
        invariant
            i <= v@.len(),
            out@.len() == i,
            forall|j: int| 0 <= j < i ==> out@[j] == scalar_of(#[trigger] v@[j]),
        decreases v.len() - i,
    {
        out.push(scalar_from_u64(v[i]));
        i = i + 1;
    }
    assert(out@ =~= scalars_of(v@));
    out
}

/// The scalars and bases of the combined commitment, paired by index: each
/// `a[i]` with `G[i]`, then the blinding `r` with `B` and the inner product
/// with `F`.
pub fn commitment_terms(
    a: &Vec<Scalar>,
    blinding: Scalar,
    product: Scalar,
    g: &Vec<RistrettoPoint>,
    f: RistrettoPoint,
    b: RistrettoPoint,
) -> (r: (Vec<Scalar>, Vec<RistrettoPoint>))
    requires
        a@.len() == g@.len(),
    ensures
        r.0@ == a@.push(blinding).push(product),
        r.1@ == g@.push(b).push(f),
{
    let mut scalars: Vec<Scalar> = Vec::new();
    let mut points: Vec<RistrettoPoint> = Vec::new();
    let mut i: usize = 0;
    while i < a.len()
        invariant
            a@.len() == g@.len(),
            i <= a@.len(),
            scalars@ == a@.take(i as int),
            points@ == g@.take(i as int),
        decreases a.len() - i,
    {
        let s: Scalar = a[i];
        let p: RistrettoPoint = g[i];
        scalars.push(s);
        points.push(p);
        proof {
            assert(a@.take(i + 1) =~= a@.take(i as int).push(s));
            assert(g@.take(i + 1) =~= g@.take(i as int).push(p));
        }
        i = i + 1;
    }
    scalars.push(blinding);
    scalars.push(product);
    points.push(b);
    points.push(f);
    assert(a@.take(a@.len() as int) =~= a@);
    assert(g@.take(g@.len() as int) =~= g@);
    (scalars, points)
}

/// The combined commitment to `a` under the bases `G`, blinded by `r` on `B`,
/// with the inner product on `F`, compressed.
pub fn bind_commitment(
    a: &Vec<Scalar>,
    blinding: Scalar,
    product: Scalar,
    g: &Vec<RistrettoPoint>,
    f: RistrettoPoint,
    b: RistrettoPoint,
) -> (r: CompressedRistretto)
    requires
        a@.len() == g@.len(),
    ensures
        r.0@ == encoding_of(combined_commitment(a@, blinding, product, g@, f, b)),
        decompresses(r.0@),
{
    let (scalars, points) = commitment_terms(a, blinding, product, g, f, b);
    compress(&multiscalar_mul(&scalars, &points))
}

/// Each point compressed.
pub fn compress_all(points: &Vec<RistrettoPoint>) -> (r: Vec<CompressedRistretto>)
    ensures
        r@.len() == points@.len(),
        forall|i: int| 0 <= i < r@.len() ==> #[trigger] r@[i].0@ == encoding_of(points@[i]),
        forall|i: int| 0 <= i < r@.len() ==> decompresses(#[trigger] r@[i].0@),
{
    let mut out: Vec<CompressedRistretto> = Vec::with_capacity(points.len());
    let mut i: usize = 0;
    while i < points.len()
        invariant
            i <= points@.len(),
            out@.len() == i,
            forall|j: int| 0 <= j < i ==> #[trigger] out@[j].0@ == encoding_of(points@[j]),
            forall|j: int| 0 <= j < i ==> decompresses(#[trigger] out@[j].0@),
        decreases points.len() - i,
    {
        out.push(compress(&points[i]));
        i = i + 1;
    }
    out
}

/// Each compressed point decompressed, or `None` where one of them is not a
/// canonical encoding.
pub fn decompress_all(points: &Vec<CompressedRistretto>) -> (r: Option<Vec<RistrettoPoint>>)
    ensures
        r.is_some() == (forall|i: int|
            0 <= i < points@.len() ==> decompresses(#[trigger] points@[i].0@)),
        r.is_some() ==> r->Some_0@.len() == points@.len(),
        r.is_some() ==> forall|i: int|
            0 <= i < points@.len() ==> #[trigger] r->Some_0@[i] == point_of(points@[i].0@),
{
    let mut out: Vec<RistrettoPoint> = Vec::with_capacity(points.len());
    let mut i: usize = 0;
    while i < points.len()
        invariant
            i <= points@.len(),
            out@.len() == i,
            forall|j: int| 0 <= j < i ==> decompresses(#[trigger] points@[j].0@),
            forall|j: int| 0 <= j < i ==> #[trigger] out@[j] == point_of(points@[j].0@),
        decreases points.len() - i,
    {
        match decompress(&points[i]) {
            Some(p) => out.push(p),
            None => return None,
        }
        i = i + 1;
    }
    Some(out)
}

} // verus!

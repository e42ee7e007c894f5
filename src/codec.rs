//! The wire format of a linear-proof commitment bundle: the bases `G` as
//! concatenated 32-byte compressed points, then `F`, `B` and `C` as one
//! compressed point each.

use crate::crypto::compressed_from_slice;
use curve25519_dalek::ristretto::CompressedRistretto;
use vstd::prelude::*;
use vstd::slice::{slice_subrange, slice_to_vec};

verus! {

/// Size of a compressed point on the wire.
pub const POINT_BYTES: usize = 32;

/// The concatenation of a sequence of byte strings, in order.
pub open spec fn concat_all(s: Seq<Seq<u8>>) -> Seq<u8>
    decreases s.len(),
{
    if s.len() == 0 {
        Seq::empty()
    } else {
        concat_all(s.drop_last()) + s.last()
    }
}

/// `bytes` cut into consecutive 32-byte chunks.
pub open spec fn chunks(bytes: Seq<u8>) -> Seq<Seq<u8>> {
    Seq::new(bytes.len() / 32, |i: int| bytes.subrange(32 * i, 32 * i + 32))
}

/// The bytes of each compressed point.
pub open spec fn points_view(points: Seq<CompressedRistretto>) -> Seq<Seq<u8>> {
    points.map_values(|p: CompressedRistretto| p.0@)
}

/// Whether every entry is one compressed point long.
pub open spec fn all_points(s: Seq<Seq<u8>>) -> bool {
    forall|i: int| 0 <= i < s.len() ==> #[trigger] s[i].len() == 32
}

/// A commitment bundle as plain bytes: the bases `G`, then `F`, `B` and `C`.
pub type BundleView = (Seq<Seq<u8>>, Seq<u8>, Seq<u8>, Seq<u8>);

/// The four wire buffers of a bundle.
pub type WireView = (Seq<u8>, Seq<u8>, Seq<u8>, Seq<u8>);

/// Whether four wire buffers have the shape of a bundle.
pub open spec fn wire_framed(w: WireView) -> bool {
    w.0.len() % 32 == 0 && w.1.len() == 32 && w.2.len() == 32 && w.3.len() == 32
}

/// A bundle as it is written on the wire.
pub open spec fn encode_bundle(v: BundleView) -> WireView {
    (concat_all(v.0), v.1, v.2, v.3)
}

/// The bundle that four wire buffers hold, if they have its shape.
pub open spec fn decode_bundle(w: WireView) -> Option<BundleView> {
    if wire_framed(w) {
        Some((chunks(w.0), w.1, w.2, w.3))
    } else {
        None
    }
}

/// The view of the wire buffers as byte sequences.
pub open spec fn wire_view(w: (Vec<u8>, Vec<u8>, Vec<u8>, Vec<u8>)) -> WireView {
    (w.0@, w.1@, w.2@, w.3@)
}

/// The linear proof's commitment bundle: the bases `G` it was made over, the
/// value base `F`, the blinding base `B` and the combined commitment `C`.
pub struct LinearCommitments {
    pub g: Vec<CompressedRistretto>,
    pub f: CompressedRistretto,
    pub b: CompressedRistretto,
    pub c: CompressedRistretto,
}

impl View for LinearCommitments {
    type V = BundleView;

    open spec fn view(&self) -> BundleView {
        (points_view(self.g@), self.f.0@, self.b.0@, self.c.0@)
    }
}

/// A concatenation of 32-byte strings is 32 bytes per entry long.
pub proof fn lemma_concat_all_len(s: Seq<Seq<u8>>)
    requires
        all_points(s),
    ensures
        concat_all(s).len() == 32 * s.len(),
    decreases s.len(),
{
    if s.len() > 0 {
        assert(all_points(s.drop_last()));
        lemma_concat_all_len(s.drop_last());
        assert(s.last().len() == 32);
    }
}

/// Cutting a concatenation of 32-byte strings into chunks gives the strings back.
pub proof fn lemma_chunks_of_concat(s: Seq<Seq<u8>>)
    requires
        all_points(s),
    ensures
        chunks(concat_all(s)) == s,
    decreases s.len(),
{
    lemma_concat_all_len(s);
    if s.len() > 0 {
        let init = s.drop_last();
        assert(all_points(init));
        lemma_chunks_of_concat(init);
        lemma_concat_all_len(init);
        let whole = concat_all(s);
        assert(whole == concat_all(init) + s.last());
        assert forall|i: int| 0 <= i < s.len() implies #[trigger] chunks(whole)[i] == s[i] by {
            if i < s.len() - 1 {
                assert(chunks(concat_all(init))[i] == init[i]);
                assert(whole.subrange(32 * i, 32 * i + 32) =~= concat_all(init).subrange(
                    32 * i,
                    32 * i + 32,
                ));
            } else {
                assert(s[i].len() == 32);
                assert(whole.subrange(32 * i, 32 * i + 32) =~= s.last());
            }
        }
        assert(chunks(whole) =~= s);
    } else {
        assert(chunks(concat_all(s)) =~= s);
    }
}

/// Writing a bundle of 32-byte points to the wire and reading it back gives
/// the same bundle.
pub proof fn lemma_bundle_round_trip(v: BundleView)
    requires
        all_points(v.0),
        v.1.len() == 32,
        v.2.len() == 32,
        v.3.len() == 32,
    ensures
        decode_bundle(encode_bundle(v)) == Some(v),
{
    lemma_concat_all_len(v.0);
    lemma_chunks_of_concat(v.0);
    assert(wire_framed(encode_bundle(v)));
}

/// Compressed points concatenated in order.
pub fn join_points(points: &Vec<CompressedRistretto>) -> (r: Vec<u8>)
    ensures
        r@ == concat_all(points_view(points@)),
{
    let mut out: Vec<u8> = Vec::new();
    let mut i: usize = 0;
    while i < points.len()
        invariant
            i <= points.len(),
            out@ == concat_all(points_view(points@).take(i as int)),
        decreases points.len() - i,
    {
        let bytes = slice_to_vec(points[i].0.as_slice());
        let mut chunk = bytes;
        proof {
            let s = points_view(points@);
            assert(s.take(i + 1).drop_last() =~= s.take(i as int));
        }
        out.append(&mut chunk);
        i = i + 1;
    }
    assert(points_view(points@).take(points.len() as int) =~= points_view(points@));
    out
}

/// `bytes` read as consecutive compressed points, or `None` where its length
/// is not a whole number of them.
pub fn split_points(bytes: &Vec<u8>) -> (r: Option<Vec<CompressedRistretto>>)
    ensures
        r.is_some() == (bytes@.len() % 32 == 0),
        r.is_some() ==> points_view(r->Some_0@) == chunks(bytes@),
{
    if bytes.len() % POINT_BYTES != 0 {
        return None;
    }
    let count = bytes.len() / POINT_BYTES;
    let mut out: Vec<CompressedRistretto> = Vec::with_capacity(count);
    let mut i: usize = 0;
    let mut pos: usize = 0;
    while i < count
        invariant
            count == bytes@.len() / 32,
            bytes@.len() == 32 * count,
            bytes@.len() <= usize::MAX,
            i <= count,
            pos == 32 * i,
            out@.len() == i,
            forall|j: int|
                0 <= j < i ==> (#[trigger] out@[j]).0@ == bytes@.subrange(32 * j, 32 * j + 32),
        decreases count - i,
    {
        assert(pos + 32 <= bytes@.len()) by (nonlinear_arith)
            requires
                pos == 32 * i,
                i < count,
                bytes@.len() == 32 * count,
        ;
        let chunk = slice_subrange(bytes.as_slice(), pos, pos + POINT_BYTES);
        let point = compressed_from_slice(chunk);
        match point {
            Some(p) => {
                out.push(p);
            },
            None => {
                return None;
            },
        }
        i = i + 1;
        pos = pos + POINT_BYTES;
    }
    assert(points_view(out@) =~= chunks(bytes@));
    Some(out)
}

/// One compressed point read from exactly 32 bytes.
pub fn read_point(bytes: &Vec<u8>) -> (r: Option<CompressedRistretto>)
    ensures
        r.is_some() == (bytes@.len() == 32),
        r.is_some() ==> r->Some_0.0@ == bytes@,
{
    compressed_from_slice(bytes.as_slice())
}

/// The bytes of one compressed point.
pub fn write_point(p: &CompressedRistretto) -> (r: Vec<u8>)
    ensures
        r@ == p.0@,
{
    slice_to_vec(p.0.as_slice())
}

impl LinearCommitments {
    /// The bundle as its four wire buffers.
    pub fn to_wire(&self) -> (r: (Vec<u8>, Vec<u8>, Vec<u8>, Vec<u8>))
        ensures
            wire_view(r) == encode_bundle(self@),
    {
        (join_points(&self.g), write_point(&self.f), write_point(&self.b), write_point(&self.c))
    }

    /// The bundle held by four wire buffers, or `None` where they do not have
    /// its shape.
    pub fn from_wire(w: &(Vec<u8>, Vec<u8>, Vec<u8>, Vec<u8>)) -> (r: Option<LinearCommitments>)
        ensures
            r.is_some() == wire_framed(wire_view(*w)),
            r.is_some() ==> decode_bundle(wire_view(*w)) == Some(r->Some_0@),
    {
        let g = split_points(&w.0);
        let f = read_point(&w.1);
        let b = read_point(&w.2);
        let c = read_point(&w.3);
        match (g, f, b, c) {
            (Some(g), Some(f), Some(b), Some(c)) => Some(LinearCommitments { g, f, b, c }),
            _ => None,
        }
    }
}

} // verus!

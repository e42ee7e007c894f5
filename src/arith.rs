//! Integer arithmetic of a reward claim: the inner product of the state and
//! policy vectors, the range bound, and padding to a power-of-two length.

use vstd::arithmetic::power2::{lemma2_to64, pow2};
use vstd::prelude::*;

verus! {

/// `sum_{j < i} a[j] * b[j]`.
pub open spec fn dot_prefix(a: Seq<u64>, b: Seq<u64>, i: nat) -> int
    decreases i,
{
    if i == 0 {
        0
    } else {
        dot_prefix(a, b, (i - 1) as nat) + a[i - 1] * b[i - 1]
    }
}

/// The inner product of two vectors of the same length.
pub open spec fn dot(a: Seq<u64>, b: Seq<u64>) -> int {
    dot_prefix(a, b, a.len())
}

/// The partial sums of an inner product of non-negative terms never decrease.
pub proof fn lemma_dot_prefix_monotone(a: Seq<u64>, b: Seq<u64>, i: nat, j: nat)
    requires
        i <= j,
    ensures
        0 <= dot_prefix(a, b, i) <= dot_prefix(a, b, j),
    decreases j,
{
    if j > i {
        lemma_dot_prefix_monotone(a, b, i, (j - 1) as nat);
        assert(a[j - 1] * b[j - 1] >= 0) by (nonlinear_arith)
            requires
                a[j - 1] >= 0,
                b[j - 1] >= 0,
        ;
    } else if i > 0 {
        lemma_dot_prefix_monotone(a, b, (i - 1) as nat, (i - 1) as nat);
        assert(a[i - 1] * b[i - 1] >= 0) by (nonlinear_arith)
            requires
                a[i - 1] >= 0,
                b[i - 1] >= 0,
        ;
    }
}

/// The inner product of `a` and `b`, or `None` where it does not fit in a `u64`.
pub fn checked_inner_product(a: &Vec<u64>, b: &Vec<u64>) -> (r: Option<u64>)
    requires
        a.len() == b.len(),
    ensures
        r.is_some() == (dot(a@, b@) <= u64::MAX),
        r.is_some() ==> r->Some_0 == dot(a@, b@),
{
    let mut acc: u64 = 0;
    let mut i: usize = 0;
    while i < a.len()
        invariant
            a.len() == b.len(),
            i <= a.len(),
            acc == dot_prefix(a@, b@, i as nat),
        decreases a.len() - i,
    {
        let x = a[i] as u128;
        let y = b[i] as u128;
        assert(x * y <= u64::MAX as u128 * u64::MAX as u128) by (nonlinear_arith)
            requires
                x <= u64::MAX,
                y <= u64::MAX,
        ;
        let term: u128 = x * y;
        let next: u128 = acc as u128 + term;
        if next > u64::MAX as u128 {
            proof {
                lemma_dot_prefix_monotone(a@, b@, (i + 1) as nat, a.len() as nat);
            }
            return None;
        }
        acc = next as u64;
        i = i + 1;
    }
    Some(acc)
}

/// Bit widths that the range proof supports.
pub open spec fn supported_bits(n: nat) -> bool {
    n == 8 || n == 16 || n == 32 || n == 64
}

/// Whether `v` lies in `[0, 2^n)`.
pub open spec fn in_range(v: int, n: nat) -> bool {
    0 <= v < pow2(n)
}

/// The range boundary: `2^n - 1` is the largest value in the range and
/// `2^n` the smallest outside it.
pub proof fn lemma_range_boundary(n: nat)
    ensures
        in_range(pow2(n) - 1, n),
        !in_range(pow2(n) as int, n),
{
    vstd::arithmetic::power2::lemma_pow2_pos(n);
}

/// Whether `v` fits in `n` bits, for a supported width.
pub fn fits_in_bits(v: u64, n: usize) -> (r: bool)
    requires
        supported_bits(n as nat),
    ensures
        r == in_range(v as int, n as nat),
{
    proof {
        lemma2_to64();
    }
    if n == 8 {
        v < 0x100
    } else if n == 16 {
        v < 0x1_0000
    } else if n == 32 {
        v < 0x1_0000_0000
    } else {
        proof {
            vstd::arithmetic::power2::lemma_pow2_pos(64);
            assert(pow2(64) == 0x1_0000_0000_0000_0000) by {
                vstd::arithmetic::power2::lemma_pow2_adds(32, 32);
            }
        }
        true
    }
}

/// Whether `x` is a power of two.
pub open spec fn is_pow2(x: nat) -> bool
    decreases x,
{
    if x <= 1 {
        x == 1
    } else {
        x % 2 == 0 && is_pow2(x / 2)
    }
}

/// Doubling `p` until it reaches `n`.
pub open spec fn grow_to(p: nat, n: nat) -> nat
    decreases (if p < n { n - p } else { 0 }),
{
    if p == 0 || p >= n {
        p
    } else {
        grow_to(2 * p, n)
    }
}

/// The least power of two that is at least `n`.
pub open spec fn padded_len(n: nat) -> nat {
    grow_to(1, n)
}

proof fn lemma_grow_to_bounds(p: nat, n: nat)
    requires
        is_pow2(p),
        p < 2 * n || p == 1,
    ensures
        is_pow2(grow_to(p, n)),
        n <= grow_to(p, n),
        grow_to(p, n) < 2 * n || grow_to(p, n) == 1,
    decreases (if p < n { n - p } else { 0 }),
{
    if p < n {
        assert(is_pow2(2 * p)) by {
            assert((2 * p) / 2 == p);
        }
        lemma_grow_to_bounds(2 * p, n);
    }
}

/// The padded length is a power of two, at least `n`, and under `2n` for
/// `n >= 1`.
pub proof fn lemma_padded_len_bounds(n: nat)
    ensures
        is_pow2(padded_len(n)),
        n <= padded_len(n),
        n >= 1 ==> padded_len(n) < 2 * n,
{
    lemma_grow_to_bounds(1, n);
}

/// The least power of two that is at least `n`.
pub fn padded_length(n: usize) -> (r: usize)
    requires
        n <= 0x8000_0000,
    ensures
        r == padded_len(n as nat),
{
    let mut p: usize = 1;
    while p < n
        invariant
            1 <= p,
            p < 2 * n || p == 1,
            n <= 0x8000_0000,
            grow_to(p as nat, n as nat) == padded_len(n as nat),
        decreases (if p < n { n - p } else { 0 }),
    {
        p = p * 2;
    }
    p
}

/// Whether `n` is a power of two.
pub fn is_power_of_two(n: usize) -> (r: bool)
    ensures
        r == is_pow2(n as nat),
{
    let mut x: usize = n;
    while x > 1 && x % 2 == 0
        invariant
            is_pow2(x as nat) == is_pow2(n as nat),
        decreases x,
    {
        x = x / 2;
    }
    x == 1
}

/// `v` followed by zeros up to length `len`.
pub open spec fn pad_seq(v: Seq<u64>, len: nat) -> Seq<u64> {
    v + Seq::new((len - v.len()) as nat, |i: int| 0u64)
}

/// `v` followed by zeros up to length `len`.
pub fn pad_with_zeros(v: &Vec<u64>, len: usize) -> (r: Vec<u64>)
    requires
        v.len() <= len,
    ensures
        r@ == pad_seq(v@, len as nat),
        r@.len() == len,
        r@.subrange(0, v.len() as int) == v@,
        forall|i: int| v.len() <= i < len ==> r@[i] == 0,
{
    let mut r: Vec<u64> = Vec::with_capacity(len);
    let mut i: usize = 0;
    while i < len
        invariant
            v.len() <= len,
            i <= len,
            r@.len() == i,
            forall|j: int| 0 <= j < i && j < v.len() ==> r@[j] == v@[j],
            forall|j: int| v.len() <= j < i ==> r@[j] == 0,
        decreases len - i,
    {
        if i < v.len() {
            r.push(v[i]);
        } else {
            r.push(0);
        }
        i = i + 1;
    }
    assert(r@.subrange(0, v.len() as int) =~= v@);
    assert(r@ =~= pad_seq(v@, len as nat));
    r
}

/// Zeros appended to both vectors leave their inner product unchanged.
pub proof fn lemma_dot_zero_padding(a: Seq<u64>, b: Seq<u64>, pa: Seq<u64>, pb: Seq<u64>)
    requires
        a.len() == b.len(),
        pa.len() == pb.len(),
        a.len() <= pa.len(),
        pa.subrange(0, a.len() as int) == a,
        pb.subrange(0, b.len() as int) == b,
        forall|i: int| a.len() <= i < pa.len() ==> pa[i] == 0,
    ensures
        dot(pa, pb) == dot(a, b),
{
    lemma_dot_prefix_padding(a, b, pa, pb, pa.len());
}

proof fn lemma_dot_prefix_padding(a: Seq<u64>, b: Seq<u64>, pa: Seq<u64>, pb: Seq<u64>, i: nat)
    requires
        a.len() == b.len(),
        pa.len() == pb.len(),
        a.len() <= pa.len(),
        i <= pa.len(),
        pa.subrange(0, a.len() as int) == a,
        pb.subrange(0, b.len() as int) == b,
        forall|k: int| a.len() <= k < pa.len() ==> pa[k] == 0,
    ensures
        dot_prefix(pa, pb, i) == if i <= a.len() {
            dot_prefix(a, b, i)
        } else {
            dot_prefix(a, b, a.len())
        },
    decreases i,
{
    if i > 0 {
        lemma_dot_prefix_padding(a, b, pa, pb, (i - 1) as nat);
        if i <= a.len() {
            assert(pa[i - 1] == pa.subrange(0, a.len() as int)[i - 1]);
            assert(pb[i - 1] == pb.subrange(0, b.len() as int)[i - 1]);
        } else {
            assert(pa[i - 1] == 0);
            assert(pa[i - 1] * pb[i - 1] == 0);
        }
    }
}

} // verus!

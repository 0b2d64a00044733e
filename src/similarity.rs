//! Embeddings and the cosine similarity between two of them.
//!
//! An embedding is a vector of fixed-point components. The similarity of
//! `a` and `b` is `dot(a, b) / sqrt(dot(a, a) * dot(b, b))`; it is kept as
//! the exact triple (dot product, squared norm of `a`, squared norm of `b`)
//! and compared against a threshold without rounding.
use vstd::prelude::*;
use crate::config::SIMILARITY_SCALE;

verus! {

/// The most components an embedding holds.
pub const MAX_DIM: usize = 4096;

/// The sum of `a[i] * b[i]` over the first `n` positions.
pub open spec fn dot_prefix(a: Seq<i16>, b: Seq<i16>, n: nat) -> int
    decreases n,
{
    if n == 0 {
        0
    } else {
        dot_prefix(a, b, (n - 1) as nat) + a[n - 1] * b[n - 1]
    }
}

/// The dot product of two vectors of the same length.
pub open spec fn dot(a: Seq<i16>, b: Seq<i16>) -> int {
    dot_prefix(a, b, a.len())
}

/// Whether a vector has a component that is not zero.
pub open spec fn nonzero(a: Seq<i16>) -> bool {
    exists|i: int| 0 <= i < a.len() && a[i] != 0
}

/// Whether the similarity `dot / sqrt(norm_sq_a * norm_sq_b)` is a finite
/// number strictly above `threshold / SIMILARITY_SCALE`, for a threshold
/// at or above zero.
pub open spec fn exceeds_spec(dot: int, norm_sq_a: int, norm_sq_b: int, threshold: int) -> bool {
    &&& norm_sq_a > 0
    &&& norm_sq_b > 0
    &&& dot > 0
    &&& dot * dot * (SIMILARITY_SCALE * SIMILARITY_SCALE) > threshold * threshold * (norm_sq_a
        * norm_sq_b)
}

/// Whether the similarity `dot / sqrt(norm_sq_a * norm_sq_b)` is a finite
/// number equal to `num / den`, for `num` at or above zero and `den` above it.
pub open spec fn equals_spec(dot: int, norm_sq_a: int, norm_sq_b: int, num: int, den: int) -> bool {
    &&& norm_sq_a > 0
    &&& norm_sq_b > 0
    &&& dot >= 0
    &&& dot * dot * (den * den) == num * num * (norm_sq_a * norm_sq_b)
}

proof fn lemma_product_bound(x: i16, y: i16)
    ensures
        -0x4000_0000 <= x * y <= 0x4000_0000,
{
    assert(-0x4000_0000 <= x * y <= 0x4000_0000) by (nonlinear_arith)
        requires
            -0x8000 <= x <= 0x7fff,
            -0x8000 <= y <= 0x7fff,
    ;
}

proof fn lemma_dot_prefix_bound(a: Seq<i16>, b: Seq<i16>, n: nat)
    requires
        n <= a.len(),
        n <= b.len(),
    ensures
        -(n * 0x4000_0000) <= dot_prefix(a, b, n) <= n * 0x4000_0000,
    decreases n,
{
    if n > 0 {
        lemma_dot_prefix_bound(a, b, (n - 1) as nat);
        lemma_product_bound(a[n - 1], b[n - 1]);
    }
}

proof fn lemma_square_sum_nonneg(a: Seq<i16>, n: nat)
    requires
        n <= a.len(),
    ensures
        dot_prefix(a, a, n) >= 0,
        (exists|i: int| 0 <= i < n && a[i] != 0) ==> dot_prefix(a, a, n) > 0,
    decreases n,
{
    if n > 0 {
        lemma_square_sum_nonneg(a, (n - 1) as nat);
        let x = a[n - 1];
        assert(x * x >= 0) by (nonlinear_arith);
        assert(x != 0 ==> x * x > 0) by (nonlinear_arith);
        if exists|i: int| 0 <= i < n && a[i] != 0 {
            let i = choose|i: int| 0 <= i < n && a[i] != 0;
            if i < n - 1 {
                assert(exists|j: int| 0 <= j < n - 1 && a[j] != 0);
            }
        }
    }
}

proof fn lemma_dot_prefix_symmetric(a: Seq<i16>, b: Seq<i16>, n: nat)
    requires
        n <= a.len(),
        n <= b.len(),
    ensures
        dot_prefix(a, b, n) == dot_prefix(b, a, n),
    decreases n,
{
    if n > 0 {
        lemma_dot_prefix_symmetric(a, b, (n - 1) as nat);
        assert(a[n - 1] * b[n - 1] == b[n - 1] * a[n - 1]) by (nonlinear_arith);
    }
}

/// A feature vector of at most `MAX_DIM` fixed-point components.
#[derive(Debug)]
pub struct Embedding {
    values: Vec<i16>,
}

impl View for Embedding {
    type V = Seq<i16>;

    closed spec fn view(&self) -> Seq<i16> {
        self.values@
    }
}

impl Embedding {
    #[verifier::type_invariant]
    spec fn inv(&self) -> bool {
        self.values@.len() <= MAX_DIM
    }

    /// Wraps `values`; `None` where there are more than `MAX_DIM` of them.
    pub fn new(values: Vec<i16>) -> (r: Option<Embedding>)
        ensures
            r is Some <==> values@.len() <= MAX_DIM,
            r matches Some(e) ==> e@ == values@,
    {
        if values.len() <= MAX_DIM {
            let e = Embedding { values };
            assert(e@ == values@);
            Some(e)
        } else {
            None
        }
    }

    /// The components.
    pub fn values(&self) -> (r: &Vec<i16>)
        ensures
            r@ == self@,
    {
        &self.values
    }

    /// The number of components.
    pub fn len(&self) -> (r: usize)
        ensures
            r == self@.len(),
            r <= MAX_DIM,
    {
        proof {
            use_type_invariant(self);
        }
        self.values.len()
    }

    /// A copy with the same components.
    pub fn duplicate(&self) -> (r: Embedding)
        ensures
            r@ == self@,
    {
        proof {
            use_type_invariant(self);
        }
        let mut values: Vec<i16> = Vec::new();
        let mut i: usize = 0;
        while i < self.values.len()
            invariant
                i <= self.values@.len(),
                self.values@.len() <= MAX_DIM,
                values@ == self.values@.take(i as int),
            decreases self.values@.len() - i,
        {
            values.push(self.values[i]);
            i += 1;
            assert(values@ =~= self.values@.take(i as int));
        }
        assert(values@ =~= self.values@);
        Embedding { values }
    }
}

/// The similarity of two embeddings, kept exact.
#[derive(Debug)]
pub struct Similarity {
    dot: i64,
    norm_sq_a: u64,
    norm_sq_b: u64,
}

impl Similarity {
    #[verifier::type_invariant]
    spec fn inv(&self) -> bool {
        &&& -0x400_0000_0000 <= self.dot <= 0x400_0000_0000
        &&& self.norm_sq_a <= 0x400_0000_0000
        &&& self.norm_sq_b <= 0x400_0000_0000
    }

    /// The dot product of the two embeddings.
    pub closed spec fn dot_spec(&self) -> int {
        self.dot as int
    }

    /// The squared norm of the first embedding.
    pub closed spec fn norm_sq_a_spec(&self) -> int {
        self.norm_sq_a as int
    }

    /// The squared norm of the second embedding.
    pub closed spec fn norm_sq_b_spec(&self) -> int {
        self.norm_sq_b as int
    }

    /// Whether the similarity is a finite number: both norms are non-zero.
    pub open spec fn finite_spec(&self) -> bool {
        self.norm_sq_a_spec() > 0 && self.norm_sq_b_spec() > 0
    }

    /// Whether the similarity is finite and strictly above
    /// `threshold / SIMILARITY_SCALE`.
    pub open spec fn exceeds_threshold(&self, threshold: int) -> bool {
        exceeds_spec(self.dot_spec(), self.norm_sq_a_spec(), self.norm_sq_b_spec(), threshold)
    }

    /// The dot product of the two embeddings.
    pub fn dot(&self) -> (r: i64)
        ensures
            r == self.dot_spec(),
    {
        self.dot
    }

    /// The squared norm of the first embedding.
    pub fn norm_sq_a(&self) -> (r: u64)
        ensures
            r == self.norm_sq_a_spec(),
    {
        self.norm_sq_a
    }

    /// The squared norm of the second embedding.
    pub fn norm_sq_b(&self) -> (r: u64)
        ensures
            r == self.norm_sq_b_spec(),
    {
        self.norm_sq_b
    }

    /// Whether the similarity is a finite number.
    pub fn is_finite(&self) -> (r: bool)
        ensures
            r == self.finite_spec(),
    {
        self.norm_sq_a > 0 && self.norm_sq_b > 0
    }

    /// Whether the similarity is finite and strictly above
    /// `threshold / SIMILARITY_SCALE`. Equal is not above.
    pub fn exceeds(&self, threshold: u32) -> (r: bool)
        ensures
            r == self.exceeds_threshold(threshold as int),
    {
        proof {
            use_type_invariant(self);
        }
        if self.norm_sq_a == 0 || self.norm_sq_b == 0 || self.dot <= 0 {
            return false;
        }
        let d = self.dot as u128;
        let na = self.norm_sq_a as u128;
        let nb = self.norm_sq_b as u128;
        let t = threshold as u128;
        assert(d * d <= 0x10_0000_0000_0000_0000_0000) by (nonlinear_arith)
            requires
                0 < d <= 0x400_0000_0000,
        ;
        assert(na * nb <= 0x10_0000_0000_0000_0000_0000) by (nonlinear_arith)
            requires
                na <= 0x400_0000_0000,
                nb <= 0x400_0000_0000,
        ;
        assert(t * t <= 0xffff_ffff * 0xffff_ffff) by (nonlinear_arith)
            requires
                t <= 0xffff_ffff,
        ;
        let dd = d * d;
        assert(dd * 1_000_000_000_000 <= 0x10_0000_0000_0000_0000_0000 * 1_000_000_000_000)
            by (nonlinear_arith)
            requires
                dd <= 0x10_0000_0000_0000_0000_0000,
        ;
        let left = dd * 1_000_000_000_000u128;
        let squared = t * t;
        let norms = na * nb;
        match squared.checked_mul(norms) {
            Some(right) => left > right,
            None => false,
        }
    }
}

/// Dimensionality of the two embeddings, where they differ.
#[derive(Debug, Clone, Copy, PartialEq, Eq, Structural)]
pub struct DimensionMismatch {
    pub left: usize,
    pub right: usize,
}

/// The cosine similarity of `a` and `b`. Embeddings of different
/// dimensionality are refused, never truncated.
pub fn cosine_similarity(a: &Embedding, b: &Embedding) -> (r: Result<Similarity, DimensionMismatch>)
    ensures
        r is Err <==> a@.len() != b@.len(),
        r matches Err(e) ==> e.left == a@.len() && e.right == b@.len(),
        r matches Ok(s) ==> {
            &&& s.dot_spec() == dot(a@, b@)
            &&& s.norm_sq_a_spec() == dot(a@, a@)
            &&& s.norm_sq_b_spec() == dot(b@, b@)
        },
{
    proof {
        use_type_invariant(a);
        use_type_invariant(b);
    }
    let xs = a.values();
    let ys = b.values();
    if xs.len() != ys.len() {
        return Err(DimensionMismatch { left: xs.len(), right: ys.len() });
    }
    let n = xs.len();
    let mut d: i64 = 0;
    let mut na: u64 = 0;
    let mut nb: u64 = 0;
    let mut i: usize = 0;
    while i < n
        invariant
            n == xs@.len(),
            n == ys@.len(),
            n <= MAX_DIM,
            i <= n,
            d == dot_prefix(xs@, ys@, i as nat),
            na == dot_prefix(xs@, xs@, i as nat),
            nb == dot_prefix(ys@, ys@, i as nat),
        decreases n - i,
    {
        let x = xs[i];
        let y = ys[i];
        proof {
            lemma_dot_prefix_bound(xs@, ys@, i as nat);
            lemma_dot_prefix_bound(xs@, xs@, i as nat);
            lemma_dot_prefix_bound(ys@, ys@, i as nat);
            lemma_square_sum_nonneg(xs@, (i + 1) as nat);
            lemma_square_sum_nonneg(ys@, (i + 1) as nat);
            lemma_product_bound(x, y);
            lemma_product_bound(x, x);
            lemma_product_bound(y, y);
            assert(i * 0x4000_0000 <= 0x400_0000_0000 - 0x4000_0000) by (nonlinear_arith)
                requires
                    i < 4096,
            ;
        }
        let xx: i64 = (x as i64) * (x as i64);
        let yy: i64 = (y as i64) * (y as i64);
        proof {
            assert(xx >= 0 && yy >= 0) by (nonlinear_arith)
                requires
                    xx == x * x,
                    yy == y * y,
            ;
        }
        d = d + (x as i64) * (y as i64);
        na = na + xx as u64;
        nb = nb + yy as u64;
        i = i + 1;
    }
    proof {
        lemma_dot_prefix_bound(xs@, ys@, n as nat);
        lemma_dot_prefix_bound(xs@, xs@, n as nat);
        lemma_dot_prefix_bound(ys@, ys@, n as nat);
        assert(n * 0x4000_0000 <= 0x400_0000_0000) by (nonlinear_arith)
            requires
                n <= 4096,
        ;
    }
    Ok(Similarity { dot: d, norm_sq_a: na, norm_sq_b: nb })
}

/// Cosine similarity is symmetric: scoring `b` against `a` gives the same
/// dot product as scoring `a` against `b`, with the two norms swapped, so
/// the two scores are the same number and pass the same thresholds.
pub proof fn lemma_similarity_symmetric(a: Embedding, b: Embedding)
    requires
        a@.len() == b@.len(),
    ensures
        dot(a@, b@) == dot(b@, a@),
        forall|threshold: int|
            exceeds_spec(dot(a@, b@), dot(a@, a@), dot(b@, b@), threshold) == exceeds_spec(
                dot(b@, a@),
                dot(b@, b@),
                dot(a@, a@),
                threshold,
            ),
        forall|num: int, den: int|
            equals_spec(dot(a@, b@), dot(a@, a@), dot(b@, b@), num, den) == equals_spec(
                dot(b@, a@),
                dot(b@, b@),
                dot(a@, a@),
                num,
                den,
            ),
{
    lemma_dot_prefix_symmetric(a@, b@, a@.len());
    let na = dot(a@, a@);
    let nb = dot(b@, b@);
    assert(na * nb == nb * na) by (nonlinear_arith);
}

/// A non-zero embedding is exactly as similar to itself as 1.0: the score
/// is finite, equals one, and passes a threshold at or above zero exactly
/// when the threshold is below one.
pub proof fn lemma_self_similarity(a: Embedding)
    requires
        nonzero(a@),
    ensures
        dot(a@, a@) > 0,
        equals_spec(dot(a@, a@), dot(a@, a@), dot(a@, a@), 1, 1),
        forall|threshold: int|
            0 <= threshold ==> (exceeds_spec(dot(a@, a@), dot(a@, a@), dot(a@, a@), threshold)
                <==> threshold < SIMILARITY_SCALE),
{
    lemma_square_sum_nonneg(a@, a@.len());
    let n = dot(a@, a@);
    assert(n * n * (1 * 1) == 1 * 1 * (n * n)) by (nonlinear_arith);
    assert forall|threshold: int| 0 <= threshold implies (exceeds_spec(n, n, n, threshold)
        <==> threshold < SIMILARITY_SCALE) by {
        let s: int = SIMILARITY_SCALE as int;
        assert(n * n * (s * s) > threshold * threshold * (n * n) <==> threshold < s)
            by (nonlinear_arith)
            requires
                n > 0,
                threshold >= 0,
                s > 0,
        ;
    }
}

/// A similarity that equals the threshold exactly does not pass it: the
/// comparison is strict.
pub proof fn lemma_threshold_strict(a: Embedding, b: Embedding, threshold: int)
    requires
        equals_spec(dot(a@, b@), dot(a@, a@), dot(b@, b@), threshold, SIMILARITY_SCALE as int),
    ensures
        !exceeds_spec(dot(a@, b@), dot(a@, a@), dot(b@, b@), threshold),
{
}

} // verus!

//! Index arithmetic of the deterministic uniform sample, which covers `(0, 1)`
//! evenly as it is generated.
use vstd::prelude::*;

verus! {

/// Numerator of the `i`-th observation of the deterministic uniform sample of size
/// `2*n*n - 1`, whose denominator is `2*n*n`. Even positions walk the lower half
/// bucket by bucket; each odd position mirrors the even one before it.
pub open spec fn uniform_index_spec(n: int, i: int) -> int {
    let j = i / 2;
    let left = (j % n) * n + j / n + 1;
    if i % 2 == 0 { left } else { 2 * n * n - left }
}

/// Numerator of the `i`-th observation of the deterministic uniform sample; see
/// [`uniform_index_spec`]. The observation is the numerator over `2*n*n`.
pub fn uniform_observation_index(n: u64, i: u64) -> (r: u64)
    requires
        n > 0,
        2 * n * n <= u64::MAX,
        i < 2 * n * n - 1,
    ensures
        r == uniform_index_spec(n as int, i as int),
        1 <= r < 2 * n * n,
{
    let side = i % 2;
    let j = i / 2;
    let bucket_idx = j % n;
    let item_idx = j / n;
    proof {
        assert(j < n * n) by (nonlinear_arith)
            requires
                j == i / 2,
                i < 2 * n * n - 1,
        ;
        assert(item_idx < n) by (nonlinear_arith)
            requires
                item_idx == j / n,
                j < n * n,
                n > 0,
        ;
        assert(2 * n <= 2 * n * n && 2 * n * n == 2 * (n * n) && n * n > 0) by (nonlinear_arith)
            requires
                n > 0,
        ;
        assert(bucket_idx < n);
        assert(bucket_idx * n + item_idx + 1 <= n * n <= u64::MAX) by (nonlinear_arith)
            requires
                bucket_idx < n,
                item_idx < n,
                2 * n * n <= u64::MAX,
        ;
    }
    let left_idx = bucket_idx * n + item_idx + 1;
    if side == 0 {
        left_idx
    } else {
        2 * n * n - left_idx
    }
}

/// Size `2*n*n - 1` of the deterministic uniform sample for `n`, or `None` when `n`
/// is zero or `2*n*n` does not fit in a `u64`.
pub fn uniform_sample_size(n: u64) -> (r: Option<u64>)
    ensures
        r is Some <==> (n > 0 && 2 * n * n <= u64::MAX),
        r is Some ==> r->Some_0 == 2 * n * n - 1,
{
    if n == 0 {
        return None;
    }
    match n.checked_mul(n) {
        None => {
            proof {
                assert(2 * n * n > u64::MAX) by (nonlinear_arith)
                    requires
                        n * n > u64::MAX,
                ;
            }
            None
        },
        Some(sq) => match sq.checked_mul(2) {
            None => {
                assert(2 * n * n == 2 * sq) by (nonlinear_arith)
                    requires
                        sq == n * n,
                ;
                None
            },
            Some(twice) => {
                assert(2 * n * n == 2 * sq && sq >= 1) by (nonlinear_arith)
                    requires
                        sq == n * n,
                        n > 0,
                ;
                Some(twice - 1)
            },
        },
    }
}

/// The numerator of a position of the lower half: bucket `j % n`, item `j / n`.
spec fn lower_index(n: int, j: int) -> int {
    (j % n) * n + j / n + 1
}

proof fn lemma_lower_index(n: int, a: int, b: int)
    requires
        n > 0,
        0 <= a < n * n,
        0 <= b < n * n,
    ensures
        1 <= lower_index(n, a) <= n * n,
        lower_index(n, a) == n * n ==> a == n * n - 1,
        lower_index(n, a) == lower_index(n, b) ==> a == b,
{
    vstd::arithmetic::div_mod::lemma_fundamental_div_mod(a, n);
    vstd::arithmetic::div_mod::lemma_fundamental_div_mod(b, n);
    let (qa, ra) = (a / n, a % n);
    let (qb, rb) = (b / n, b % n);
    assert(0 <= ra < n && 0 <= rb < n);
    assert(0 <= qa < n) by (nonlinear_arith)
        requires
            a == n * qa + ra,
            0 <= ra < n,
            0 <= a < n * n,
    ;
    assert(0 <= qb < n) by (nonlinear_arith)
        requires
            b == n * qb + rb,
            0 <= rb < n,
            0 <= b < n * n,
    ;
    assert(1 <= ra * n + qa + 1 <= n * n) by (nonlinear_arith)
        requires
            0 <= ra < n,
            0 <= qa < n,
    ;
    if ra * n + qa + 1 == n * n {
        assert(ra == n - 1 && qa == n - 1) by (nonlinear_arith)
            requires
                0 <= ra < n,
                0 <= qa < n,
                ra * n + qa + 1 == n * n,
        ;
        assert(a == n * n - 1) by (nonlinear_arith)
            requires
                a == n * qa + ra,
                ra == n - 1,
                qa == n - 1,
        ;
    }
    if ra * n + qa == rb * n + qb {
        vstd::arithmetic::div_mod::lemma_fundamental_div_mod_converse(ra * n + qa, n, ra, qa);
        vstd::arithmetic::div_mod::lemma_fundamental_div_mod_converse(ra * n + qa, n, rb, qb);
    }
}

/// Over the `2*n*n - 1` positions of the sample the numerators are distinct and lie
/// in `1..2*n*n`, so each of those numerators comes exactly once.
pub proof fn lemma_uniform_index_one_to_one(n: int, i: int, k: int)
    requires
        n > 0,
        0 <= i < 2 * n * n - 1,
        0 <= k < 2 * n * n - 1,
    ensures
        1 <= uniform_index_spec(n, i) < 2 * n * n,
        i != k ==> uniform_index_spec(n, i) != uniform_index_spec(n, k),
{
    assert(n * n >= 1) by (nonlinear_arith)
        requires
            n > 0,
    ;
    assert(2 * n * n == 2 * (n * n)) by (nonlinear_arith);
    let (ji, jk) = (i / 2, k / 2);
    lemma_lower_index(n, ji, jk);
    lemma_lower_index(n, jk, ji);
    assert(i == 2 * ji + i % 2 && k == 2 * jk + k % 2);
}

} // verus!

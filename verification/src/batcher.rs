//! Round-robin splitting of an ordered sequence into one batch per executor.
//!
//! Batch `i` (0-indexed) of a split into `k` batches receives the input
//! elements at positions `i`, `i + k`, `i + 2k`, ... — so the batches are
//! disjoint, cover the input exactly, keep the input order, and their sizes
//! differ by at most one.

use vstd::prelude::*;

verus! {

use vstd::arithmetic::div_mod::{
    lemma_fundamental_div_mod,
    lemma_fundamental_div_mod_converse,
    lemma_mod_division_less_than_divisor,
    lemma_small_mod,
};
use vstd::arithmetic::mul::lemma_mul_inequality;

/// Number of elements that batch `i` receives when a sequence of length `n`
/// is split round-robin into `k` batches.
pub open spec fn rr_len(n: int, k: int, i: int) -> int {
    if i < n {
        (n - i - 1) / k + 1
    } else {
        0
    }
}

/// Batch `i` of the round-robin split of `s` into `k` batches: the elements
/// of `s` at positions `i`, `i + k`, `i + 2k`, ...
pub open spec fn rr_batch<T>(s: Seq<T>, k: int, i: int) -> Seq<T> {
    Seq::new(rr_len(s.len() as int, k, i) as nat, |j: int| s[i + j * k])
}

/// Sum of the sizes of batches `0`, ..., `upto - 1` of a round-robin split
/// of `n` elements into `k` batches.
pub open spec fn rr_len_sum(n: int, k: int, upto: int) -> int
    decreases upto,
{
    if upto <= 0 {
        0
    } else {
        rr_len_sum(n, k, upto - 1) + rr_len(n, k, upto - 1)
    }
}

/// Handing one more element to the split grows exactly one batch size —
/// that of batch `n % k` — by one.
proof fn lemma_rr_len_step(n: int, k: int, i: int)
    requires
        k >= 1,
        n >= 0,
        0 <= i < k,
    ensures
        rr_len(n + 1, k, i) == rr_len(n, k, i) + if i == n % k {
            1int
        } else {
            0int
        },
{
    lemma_mod_division_less_than_divisor(n, k);
    if n < i {
        lemma_small_mod(n as nat, k as nat);
    } else if n == i {
        lemma_small_mod(n as nat, k as nat);
        assert(rr_len(n + 1, k, i) == (n - i) / k + 1);
        assert((n - i) / k == 0) by {
            lemma_fundamental_div_mod_converse(0, k, 0, 0);
        }
    } else {
        let d = n - i;
        let q = d / k;
        let r = d % k;
        lemma_fundamental_div_mod(d, k);
        lemma_mod_division_less_than_divisor(d, k);
        assert(d == q * k + r);
        assert(rr_len(n + 1, k, i) == d / k + 1);
        assert(rr_len(n, k, i) == (d - 1) / k + 1);
        if r == 0 {
            // d - 1 == (q - 1) * k + (k - 1)
            assert(q >= 1) by {
                if q <= 0 {
                    lemma_mul_inequality(q, 0, k);
                }
            }
            assert(d - 1 == (q - 1) * k + (k - 1)) by {
                assert((q - 1) * k == q * k - k) by (nonlinear_arith);
            }
            lemma_fundamental_div_mod_converse(d - 1, k, q - 1, k - 1);
            assert((d - 1) / k == q - 1);
            // i == n % k holds exactly here
            assert(n == i + q * k);
            assert(n % k == i) by {
                assert(n == q * k + i);
                lemma_fundamental_div_mod_converse(n, k, q, i);
            }
        } else {
            assert(d - 1 == q * k + (r - 1));
            lemma_fundamental_div_mod_converse(d - 1, k, q, r - 1);
            assert((d - 1) / k == q);
            // i != n % k here
            assert(n == q * k + (i + r));
            if i + r < k {
                lemma_fundamental_div_mod_converse(n, k, q, i + r);
                assert(n % k == i + r);
            } else {
                assert(n == (q + 1) * k + (i + r - k)) by (nonlinear_arith)
                    requires
                        n == q * k + (i + r),
                ;
                lemma_fundamental_div_mod_converse(n, k, q + 1, i + r - k);
                assert(n % k == i + r - k);
                assert(i + r - k != i);
            }
        }
    }
}

/// Extending the input by its next element extends batch `j % k` by that
/// element and leaves every other batch unchanged.
proof fn lemma_rr_step<T>(s: Seq<T>, j: int, k: int, b: int)
    requires
        k >= 1,
        0 <= j < s.len(),
        0 <= b < k,
    ensures
        rr_batch(s.take(j + 1), k, b) == if b == j % k {
            rr_batch(s.take(j), k, b).push(s[j])
        } else {
            rr_batch(s.take(j), k, b)
        },
{
    lemma_rr_len_step(j, k, b);
    let old_len = rr_len(j, k, b);
    assert forall|m: int| 0 <= m < old_len implies s.take(j + 1)[b + #[trigger] (m * k)]
        == s.take(j)[b + m * k] by {
        lemma_rr_index_bound(j, k, b, m);
    }
    if b == j % k {
        let q = j / k;
        lemma_fundamental_div_mod(j, k);
        assert(b + q * k == j) by {
            assert(j == k * q + b);
        }
        assert(rr_len(j + 1, k, b) == old_len + 1);
        assert(old_len == q) by {
            if j == b {
                lemma_fundamental_div_mod_converse(0, k, 0, 0);
                lemma_small_mod(j as nat, k as nat);
                assert(q == 0) by {
                    lemma_fundamental_div_mod_converse(j, k, 0, j);
                }
            } else {
                // j > b since j % k == b and j != b
                assert(j > b) by {
                    lemma_mod_division_less_than_divisor(j, k);
                    if j < b {
                        lemma_small_mod(j as nat, k as nat);
                    }
                }
                assert(j - b - 1 == (q - 1) * k + (k - 1)) by (nonlinear_arith)
                    requires
                        j == k * q + b,
                ;
                assert(q >= 1) by {
                    if q <= 0 {
                        lemma_mul_inequality(q, 0, k);
                        assert(q * k <= 0) by (nonlinear_arith)
                            requires
                                q <= 0,
                                k >= 1,
                        ;
                    }
                }
                lemma_fundamental_div_mod_converse(j - b - 1, k, q - 1, k - 1);
            }
        }
        assert(rr_batch(s.take(j + 1), k, b) =~= rr_batch(s.take(j), k, b).push(s[j]));
    } else {
        assert(rr_len(j + 1, k, b) == old_len);
        assert(rr_batch(s.take(j + 1), k, b) =~= rr_batch(s.take(j), k, b));
    }
}

/// A valid slot of batch `b` of `n` elements indexes into the input:
/// `m < rr_len(n, k, b)` puts `b + m * k` below `n`.
proof fn lemma_rr_index_bound(n: int, k: int, b: int, m: int)
    requires
        k >= 1,
        0 <= b < k,
        0 <= m < rr_len(n, k, b),
    ensures
        b + m * k < n,
{
    assert(b < n);
    let d = n - b - 1;
    assert(m <= d / k);
    lemma_fundamental_div_mod(d, k);
    lemma_mod_division_less_than_divisor(d, k);
    lemma_mul_inequality(m, d / k, k);
    assert(m * k <= (d / k) * k);
    assert((d / k) * k <= d) by {
        assert(d == k * (d / k) + d % k);
    }
}

/// Batch completeness: the input element at position `p` stands in batch
/// `p % k`, at position `p / k`, of the round-robin split into `k` batches.
/// Together with [`lemma_rr_slot`] this says the batches partition the
/// input: no element is omitted and no slot holds anything else.
pub proof fn lemma_rr_complete<T>(s: Seq<T>, k: int, p: int)
    requires
        k >= 1,
        0 <= p < s.len(),
    ensures
        0 <= p % k < k,
        0 <= p / k < rr_len(s.len() as int, k, p % k),
        rr_batch(s, k, p % k)[p / k] == s[p],
{
    let n = s.len() as int;
    let i = p % k;
    let q = p / k;
    lemma_fundamental_div_mod(p, k);
    lemma_mod_division_less_than_divisor(p, k);
    assert(p == k * q + i);
    assert(q >= 0) by {
        if q < 0 {
            assert(k * q <= -k) by (nonlinear_arith)
                requires
                    k >= 1,
                    q <= -1,
            ;
        }
    }
    // q <= (n - i - 1) / k, because q * k <= n - i - 1
    let d = n - i - 1;
    assert(q * k <= d);
    assert(q <= d / k) by {
        lemma_fundamental_div_mod(d, k);
        lemma_mod_division_less_than_divisor(d, k);
        if q > d / k {
            lemma_mul_inequality(d / k + 1, q, k);
            assert((d / k + 1) * k == (d / k) * k + k) by (nonlinear_arith);
            assert(d == k * (d / k) + d % k);
        }
    }
    assert(i + q * k == p);
}

/// Batch disjointness: distinct slots of the round-robin split draw from
/// distinct input positions — the map from slot `(i, j)` to input position
/// `i + j * k` is injective.
pub proof fn lemma_rr_disjoint(k: int, i1: int, j1: int, i2: int, j2: int)
    requires
        k >= 1,
        0 <= i1 < k,
        0 <= i2 < k,
        0 <= j1,
        0 <= j2,
        i1 + j1 * k == i2 + j2 * k,
    ensures
        i1 == i2,
        j1 == j2,
{
    let p = i1 + j1 * k;
    assert(p == k * j1 + i1);
    assert(p == k * j2 + i2);
    lemma_fundamental_div_mod_converse(p, k, j1, i1);
    lemma_fundamental_div_mod_converse(p, k, j2, i2);
}

/// What a slot of the split holds: position `j` of batch `i` is exactly the
/// input element at position `i + j * k`.
pub proof fn lemma_rr_slot<T>(s: Seq<T>, k: int, i: int, j: int)
    requires
        k >= 1,
        0 <= i < k,
        0 <= j < rr_len(s.len() as int, k, i),
    ensures
        0 <= i + j * k < s.len(),
        rr_batch(s, k, i)[j] == s[i + j * k],
{
    lemma_rr_index_bound(s.len() as int, k, i, j);
    assert(j * k >= 0) by {
        lemma_mul_inequality(0, j, k);
    }
}

/// Batch balance: any two batches of a round-robin split differ in size by
/// at most one.
pub proof fn lemma_rr_balanced(n: int, k: int, i1: int, i2: int)
    requires
        k >= 1,
        n >= 0,
        0 <= i1 < k,
        0 <= i2 < k,
    ensures
        rr_len(n, k, i1) - rr_len(n, k, i2) <= 1,
{
    if i1 < n && i2 < n {
        let a = n - i1 - 1;
        let b = n - i2 - 1;
        // a <= b + k - 1, so a / k <= b / k + 1
        assert(a <= b + k);
        assert(a / k <= (b + k) / k) by {
            vstd::arithmetic::div_mod::lemma_div_is_ordered(a, b + k, k);
        }
        assert(b / k + 1 == (b + 1 * k) / k) by {
            vstd::arithmetic::div_mod::lemma_hoist_over_denominator(b, 1, k as nat);
        }
    } else if i1 < n {
        // batch i2 is empty; batch i1 gets at most one element, at position i1
        let a = n - i1 - 1;
        assert(n <= i2 < k);
        assert(a <= k - 1);
        assert(a / k == 0) by {
            lemma_fundamental_div_mod_converse(a, k, 0, a);
        }
    }
}

/// Batch completeness, counted: the batch sizes of a round-robin split of
/// `n` elements into `k` batches sum to exactly `n`.
pub proof fn lemma_rr_sum(n: int, k: int)
    requires
        k >= 1,
        n >= 0,
    ensures
        rr_len_sum(n, k, k) == n,
    decreases n,
{
    if n == 0 {
        lemma_rr_sum_zero(n, k, k);
    } else {
        lemma_rr_sum(n - 1, k);
        lemma_mod_division_less_than_divisor(n - 1, k);
        lemma_rr_sum_step(n - 1, k, k);
    }
}

/// All batches of an empty input are empty, so any partial sum is zero.
proof fn lemma_rr_sum_zero(n: int, k: int, upto: int)
    requires
        n == 0,
        k >= 1,
        upto <= k,
    ensures
        rr_len_sum(n, k, upto) == 0,
    decreases upto,
{
    if upto > 0 {
        lemma_rr_sum_zero(n, k, upto - 1);
    }
}

/// Adding one element to the input raises the partial size sum by one
/// exactly when the sum already covers the batch `n % k` that receives it.
proof fn lemma_rr_sum_step(n: int, k: int, upto: int)
    requires
        k >= 1,
        n >= 0,
        0 <= upto <= k,
    ensures
        rr_len_sum(n + 1, k, upto) == rr_len_sum(n, k, upto) + if n % k < upto {
            1int
        } else {
            0int
        },
    decreases upto,
{
    lemma_mod_division_less_than_divisor(n, k);
    if upto > 0 {
        lemma_rr_sum_step(n, k, upto - 1);
        lemma_rr_len_step(n, k, upto - 1);
    }
}

/// Splits `items` into `n_batches` ordered sub-sequences, round-robin:
/// batch `i` receives the elements at input positions `i`, `i + n_batches`,
/// `i + 2 * n_batches`, ... in input order.
pub fn split<T>(items: Vec<T>, n_batches: usize) -> (batches: Vec<Vec<T>>)
    requires
        n_batches >= 1,
    ensures
        batches@.len() == n_batches as int,
        forall|i: int|
            0 <= i < n_batches ==> #[trigger] batches@[i]@ == rr_batch(
                items@,
                n_batches as int,
                i,
            ),
{
    let ghost orig = items@;
    let ghost k = n_batches as int;
    let mut items = items;
    let mut batches: Vec<Vec<T>> = Vec::new();
    let mut i: usize = 0;
    while i < n_batches
        invariant
            i <= n_batches,
            batches@.len() == i as int,
            forall|b: int| 0 <= b < i ==> #[trigger] batches@[b]@ == Seq::<T>::empty(),
        decreases n_batches - i,
    {
        batches.push(Vec::new());
        i += 1;
    }
    let n = items.len();
    let mut j: usize = 0;
    proof {
        assert(orig.take(0) =~= Seq::<T>::empty());
        assert forall|b: int| 0 <= b < k implies batches@[b]@ == rr_batch(
            orig.take(0),
            k,
            b,
        ) by {
            assert(rr_len(0, k, b) == 0);
            assert(rr_batch(orig.take(0), k, b) =~= Seq::<T>::empty());
        }
    }
    while j < n
        invariant
            j <= n,
            n_batches >= 1,
            k == n_batches as int,
            n as int == orig.len(),
            items@ == orig.skip(j as int),
            batches@.len() == k,
            forall|b: int| 0 <= b < k ==> #[trigger] batches@[b]@ == rr_batch(orig.take(j as int), k, b),
        decreases n - j,
    {
        proof {
            assert(items@[0] == orig[j as int]);
        }
        let x = items.remove(0);
        let target = j % n_batches;
        proof {
            lemma_mod_division_less_than_divisor(j as int, k);
        }
        let mut b = batches.remove(target);
        b.push(x);
        batches.insert(target, b);
        proof {
            assert(items@ =~= orig.skip(j as int + 1));
            assert forall|bb: int| 0 <= bb < k implies batches@[bb]@ == rr_batch(
                orig.take(j as int + 1),
                k,
                bb,
            ) by {
                lemma_rr_step(orig, j as int, k, bb);
            }
        }
        j += 1;
    }
    proof {
        assert(orig.take(n as int) =~= orig);
    }
    batches
}

} // verus!

//! The grade statistics engine.
//!
//! Pure descriptive statistics over a population of values: sum, arithmetic
//! mean, extrema, population variance (mean of squared deviations, dividing
//! by the population size), and the decomposition of a T-score — the
//! normalized ranking `(v - average) / std_dev * 10 + 50` with the degenerate
//! population (empty, or every value equal) mapped to exactly `50`.
//!
//! Everything is computed exactly: sums in `i128`, fractional results as
//! [`Rat`]. The square root that turns a variance into a standard deviation
//! is irrational and is left to the caller; the contracts here pin the exact
//! rational quantities it is applied to, so in particular the degenerate-
//! population decision (variance exactly zero) is made here, exactly, and
//! never depends on rounding.

use vstd::prelude::*;
use vstd::seq_lib::{commutative_foldl, lemma_fold_left_permutation};

use crate::rat::Rat;

verus! {

/// Largest population size the exact variance computation accepts (`2^20`).
///
/// Together with [`VAL_MAX`] this keeps every intermediate product of the
/// squared-deviation sum inside `i128`; see [`variance_int`].
pub const LEN_MAX: usize = 0x10_0000;

/// Largest value magnitude the exact variance computation accepts (`2^30`).
pub const VAL_MAX: i64 = 0x4000_0000;

/// [`VAL_MAX`] times [`LEN_MAX`] (`2^50`): the largest magnitude the sum of a
/// population within those bounds — and so the numerator of its average over
/// the denominator [`LEN_MAX`] — can reach.
pub const SUM_MAX: i128 = 0x4_0000_0000_0000;

/// The sum of a population.
pub open spec fn sum_seq(s: Seq<i64>) -> int
    decreases s.len(),
{
    if s.len() == 0 {
        0
    } else {
        sum_seq(s.drop_last()) + s.last()
    }
}

/// The sum of squared deviations of a population from the rational
/// `num / den`, scaled by `den * den` to stay integral: each term is
/// `(v * den - num)^2`, so the variance of `s` around `num / den` is this sum
/// over `s.len() * den * den`.
pub open spec fn sq_dev_sum(s: Seq<i64>, num: int, den: int) -> int
    decreases s.len(),
{
    if s.len() == 0 {
        0
    } else {
        sq_dev_sum(s.drop_last(), num, den) + (s.last() * den - num) * (s.last() * den - num)
    }
}

/// Every two values of the population are equal.
pub open spec fn all_equal(s: Seq<i64>) -> bool {
    forall|i: int, j: int| 0 <= i < s.len() && 0 <= j < s.len() ==> s[i] == s[j]
}

/// `m` is the maximum of the population: it occurs in it and nothing exceeds it.
pub open spec fn is_max_of(s: Seq<i64>, m: i64) -> bool {
    &&& s.contains(m)
    &&& forall|i: int| 0 <= i < s.len() ==> s[i] <= m
}

/// `m` is the minimum of the population.
pub open spec fn is_min_of(s: Seq<i64>, m: i64) -> bool {
    &&& s.contains(m)
    &&& forall|i: int| 0 <= i < s.len() ==> m <= s[i]
}

/// Any partial sum of `i64` values stays well inside `i128`.
proof fn lemma_sum_seq_bounds(s: Seq<i64>)
    ensures
        -(s.len() as int) * 0x8000_0000_0000_0000 <= sum_seq(s),
        sum_seq(s) <= (s.len() as int) * 0x8000_0000_0000_0000,
    decreases s.len(),
{
    if s.len() > 0 {
        lemma_sum_seq_bounds(s.drop_last());
    }
}

/// The exact sum of the population.
///
/// A sum of at most `usize::MAX` values of `i64` always fits in `i128`, so
/// this is total: no input overflows and none is rejected.
pub fn sum_int(arr: &Vec<i64>) -> (r: i128)
    ensures
        r == sum_seq(arr@),
{
    let mut acc: i128 = 0;
    let mut i: usize = 0;
    while i < arr.len()
        invariant
            i <= arr.len(),
            acc == sum_seq(arr@.take(i as int)),
        decreases arr.len() - i,
    {
        proof {
            lemma_sum_seq_bounds(arr@.take(i as int));
            assert(arr@.take(i as int).len() as int * 0x8000_0000_0000_0000
                <= arr@.len() as int * 0x8000_0000_0000_0000) by (nonlinear_arith)
                requires
                    arr@.take(i as int).len() <= arr@.len(),
            ;
            assert(arr@.len() as int * 0x8000_0000_0000_0000 < i128::MAX) by (nonlinear_arith)
                requires
                    arr@.len() < 0x1_0000_0000_0000_0000,
            ;
            assert(arr@.take(i as int + 1).drop_last() =~= arr@.take(i as int));
        }
        acc = acc + arr[i] as i128;
        i = i + 1;
    }
    proof {
        assert(arr@.take(arr@.len() as int) =~= arr@);
    }
    acc
}

/// The largest value of the population, or `or` when it is empty.
pub fn max_int(arr: &Vec<i64>, or: i64) -> (r: i64)
    ensures
        arr@.len() == 0 ==> r == or,
        arr@.len() > 0 ==> is_max_of(arr@, r),
{
    if arr.len() == 0 {
        return or;
    }
    let mut best: i64 = arr[0];
    let mut i: usize = 1;
    while i < arr.len()
        invariant
            1 <= i <= arr.len(),
            exists|k: int| 0 <= k < i && arr@[k] == best,
            forall|k: int| 0 <= k < i ==> arr@[k] <= best,
        decreases arr.len() - i,
    {
        if arr[i] > best {
            best = arr[i];
        }
        i = i + 1;
    }
    best
}

/// The smallest value of the population, or `or` when it is empty.
pub fn min_int(arr: &Vec<i64>, or: i64) -> (r: i64)
    ensures
        arr@.len() == 0 ==> r == or,
        arr@.len() > 0 ==> is_min_of(arr@, r),
{
    if arr.len() == 0 {
        return or;
    }
    let mut best: i64 = arr[0];
    let mut i: usize = 1;
    while i < arr.len()
        invariant
            1 <= i <= arr.len(),
            exists|k: int| 0 <= k < i && arr@[k] == best,
            forall|k: int| 0 <= k < i ==> best <= arr@[k],
        decreases arr.len() - i,
    {
        if arr[i] < best {
            best = arr[i];
        }
        i = i + 1;
    }
    best
}

/// Whether every value of the population equals every other (vacuously true
/// of the empty population).
pub fn is_all_equal_int(arr: &Vec<i64>) -> (r: bool)
    ensures
        r == all_equal(arr@),
{
    if arr.len() == 0 {
        return true;
    }
    let first = arr[0];
    let mut i: usize = 1;
    while i < arr.len()
        invariant
            1 <= i <= arr.len(),
            first == arr@[0],
            forall|k: int| 0 <= k < i ==> arr@[k] == first,
        decreases arr.len() - i,
    {
        if arr[i] != first {
            return false;
        }
        i = i + 1;
    }
    true
}

/// Each squared deviation is nonnegative, so the scaled sum is.
proof fn lemma_sq_dev_sum_nonneg(s: Seq<i64>, num: int, den: int)
    ensures
        sq_dev_sum(s, num, den) >= 0,
    decreases s.len(),
{
    if s.len() > 0 {
        lemma_sq_dev_sum_nonneg(s.drop_last(), num, den);
        let t = s.last() * den - num;
        assert(t * t >= 0) by (nonlinear_arith);
    }
}

/// The scaled sum of squared deviations vanishes exactly when every value
/// equals the rational `num / den`.
proof fn lemma_sq_dev_sum_zero_iff(s: Seq<i64>, num: int, den: int)
    ensures
        sq_dev_sum(s, num, den) == 0 <==> (forall|i: int|
            0 <= i < s.len() ==> #[trigger] (s[i] * den) == num),
    decreases s.len(),
{
    if s.len() > 0 {
        lemma_sq_dev_sum_zero_iff(s.drop_last(), num, den);
        lemma_sq_dev_sum_nonneg(s.drop_last(), num, den);
        let t = s.last() * den - num;
        assert(t * t >= 0 && (t * t == 0 <==> t == 0)) by (nonlinear_arith);
        assert(forall|i: int| 0 <= i < s.len() - 1 ==> s.drop_last()[i] == s[i]);
        if sq_dev_sum(s, num, den) == 0 {
            assert(forall|i: int| 0 <= i < s.len() ==> #[trigger] (s[i] * den) == num) by {
                assert(forall|i: int|
                    0 <= i < s.len() - 1 ==> #[trigger] (s[i] * den) == s.drop_last()[i] * den);
                assert(s.last() * den == num);
            }
        }
        if forall|i: int| 0 <= i < s.len() ==> #[trigger] (s[i] * den) == num {
            assert(forall|i: int|
                0 <= i < s.len() - 1 ==> #[trigger] (s.drop_last()[i] * den) == s[i] * den);
            assert(s.last() * den - num == 0);
        }
    }
}

/// When every value lies in `[lo, hi]`, the sum lies between `len * lo` and
/// `len * hi`.
proof fn lemma_sum_seq_range(s: Seq<i64>, lo: int, hi: int)
    requires
        forall|i: int| 0 <= i < s.len() ==> lo <= #[trigger] s[i] <= hi,
    ensures
        s.len() * lo <= sum_seq(s) <= s.len() * hi,
    decreases s.len(),
{
    if s.len() == 0 {
        assert(s.len() * lo == 0 && s.len() * hi == 0) by (nonlinear_arith)
            requires
                s.len() == 0,
        ;
    } else {
        let d = s.drop_last();
        assert(forall|i: int| 0 <= i < d.len() ==> lo <= #[trigger] d[i] <= hi);
        lemma_sum_seq_range(d, lo, hi);
        assert(s.len() == d.len() + 1 && lo <= s.last() <= hi);
        assert((d.len() + 1) * lo == d.len() * lo + lo && (d.len() + 1) * hi == d.len() * hi + hi)
            by (nonlinear_arith);
    }
}

/// Each squared deviation of a bounded value from a bounded rational is at
/// most `2^102`, so the scaled sum is at most `len * 2^102`.
proof fn lemma_sq_dev_sum_bound(s: Seq<i64>, num: int, den: int)
    requires
        forall|i: int| 0 <= i < s.len() ==> -VAL_MAX <= #[trigger] s[i] <= VAL_MAX,
        1 <= den <= LEN_MAX,
        -SUM_MAX <= num <= SUM_MAX,
    ensures
        sq_dev_sum(s, num, den) <= s.len() * 0x40_0000_0000_0000_0000_0000_0000,
    decreases s.len(),
{
    if s.len() == 0 {
        assert(s.len() * 0x40_0000_0000_0000_0000_0000_0000 == 0) by (nonlinear_arith)
            requires
                s.len() == 0,
        ;
    } else {
        let d = s.drop_last();
        assert(forall|i: int| 0 <= i < d.len() ==> -VAL_MAX <= #[trigger] d[i] <= VAL_MAX);
        lemma_sq_dev_sum_bound(d, num, den);
        let t = s.last() * den - num;
        assert(t * t <= 0x40_0000_0000_0000_0000_0000_0000) by (nonlinear_arith)
            requires
                -VAL_MAX <= s.last() <= VAL_MAX,
                1 <= den <= LEN_MAX,
                -SUM_MAX <= num <= SUM_MAX,
                t == s.last() * den - num,
        ;
        assert((d.len() + 1) * 0x40_0000_0000_0000_0000_0000_0000 == d.len()
            * 0x40_0000_0000_0000_0000_0000_0000 + 0x40_0000_0000_0000_0000_0000_0000)
            by (nonlinear_arith);
    }
}

/// The population variance around the rational average `avg`, as the exact
/// rational `sq_dev_sum / (len * den^2)`; zero for the empty population.
///
/// This is the square of the population standard deviation; the (generally
/// irrational) square root is the caller's affair. The bounds in the
/// `requires` are what keeps the exact fixed-width arithmetic free of
/// overflow: every value within [`VAL_MAX`], the population and the average's
/// denominator within [`LEN_MAX`], the average's numerator within their
/// product.
pub fn variance_int(arr: &Vec<i64>, avg: &Rat) -> (r: Rat)
    requires
        avg.wf(),
        avg.den <= LEN_MAX as i128,
        -SUM_MAX <= avg.num <= SUM_MAX,
        arr@.len() <= LEN_MAX,
        forall|i: int| 0 <= i < arr@.len() ==> -VAL_MAX <= #[trigger] arr@[i] <= VAL_MAX,
    ensures
        arr@.len() == 0 ==> r.num == 0 && r.den == 1,
        arr@.len() > 0 ==> r.num == sq_dev_sum(arr@, avg.num as int, avg.den as int) && r.den
            == arr@.len() * avg.den * avg.den,
        r.wf(),
        r.num >= 0,
{
    if arr.len() == 0 {
        return Rat { num: 0, den: 1 };
    }
    let ghost gnum = avg.num as int;
    let ghost gden = avg.den as int;
    let mut acc: i128 = 0;
    let mut i: usize = 0;
    while i < arr.len()
        invariant
            i <= arr.len(),
            arr@.len() <= LEN_MAX,
            forall|k: int| 0 <= k < arr@.len() ==> -VAL_MAX <= #[trigger] arr@[k] <= VAL_MAX,
            1 <= avg.den <= LEN_MAX as i128,
            -SUM_MAX <= avg.num <= SUM_MAX,
            gnum == avg.num as int,
            gden == avg.den as int,
            0 <= acc == sq_dev_sum(arr@.take(i as int), gnum, gden),
        decreases arr.len() - i,
    {
        proof {
            lemma_sq_dev_sum_bound(arr@.take(i as int), gnum, gden);
            assert(arr@.take(i as int).len() * 0x40_0000_0000_0000_0000_0000_0000 <= (LEN_MAX
                as int) * 0x40_0000_0000_0000_0000_0000_0000) by (nonlinear_arith)
                requires
                    arr@.take(i as int).len() <= LEN_MAX as int,
            ;
        }
        let v = arr[i];
        proof {
            assert(-0x4_0000_0000_0000 <= (v as i128) * avg.den <= 0x4_0000_0000_0000)
                by (nonlinear_arith)
                requires
                    -VAL_MAX <= v <= VAL_MAX,
                    1 <= avg.den <= LEN_MAX as i128,
            ;
        }
        let t: i128 = (v as i128) * avg.den - avg.num;
        proof {
            assert(0 <= t * t <= 0x40_0000_0000_0000_0000_0000_0000) by (nonlinear_arith)
                requires
                    -0x8_0000_0000_0000 <= t <= 0x8_0000_0000_0000,
            ;
            assert(arr@.take(i as int + 1).drop_last() =~= arr@.take(i as int));
            lemma_sq_dev_sum_nonneg(arr@.take(i as int), gnum, gden);
        }
        acc = acc + t * t;
        i = i + 1;
    }
    proof {
        assert(arr@.take(arr@.len() as int) =~= arr@);
        assert(1 <= (arr@.len() as i128) * avg.den <= 0x100_0000_0000 && 1 <= ((arr@.len() as i128)
            * avg.den) * avg.den <= 0x1000_0000_0000_0000) by (nonlinear_arith)
            requires
                1 <= arr@.len() as i128 <= LEN_MAX as i128,
                1 <= avg.den <= LEN_MAX as i128,
        ;
    }
    let den: i128 = (arr.len() as i128) * avg.den * avg.den;
    Rat { num: acc, den }
}

/// When every value of a non-empty population is equal, the sum is the
/// population size times the common value.
proof fn lemma_sum_seq_all_equal(s: Seq<i64>)
    requires
        s.len() > 0,
        all_equal(s),
    ensures
        sum_seq(s) == s.len() * s[0],
    decreases s.len(),
{
    if s.len() == 1 {
        assert(sum_seq(s.drop_last()) == 0);
    } else {
        let d = s.drop_last();
        assert(all_equal(d));
        lemma_sum_seq_all_equal(d);
        assert(s.last() == s[0]);
        assert(d.len() * s[0] + s[0] == s.len() * s[0]) by (nonlinear_arith)
            requires
                d.len() + 1 == s.len(),
        ;
    }
}

/// Around its own average, a non-empty population has variance zero exactly
/// when all of its values are equal: the degenerate-population test of the
/// T-score is the all-equal test.
pub proof fn lemma_variance_zero_iff_all_equal(s: Seq<i64>)
    requires
        s.len() > 0,
    ensures
        sq_dev_sum(s, sum_seq(s), s.len() as int) == 0 <==> all_equal(s),
{
    let n = s.len() as int;
    let sum = sum_seq(s);
    lemma_sq_dev_sum_zero_iff(s, sum, n);
    if sq_dev_sum(s, sum, n) == 0 {
        assert forall|i: int, j: int| 0 <= i < s.len() && 0 <= j < s.len() implies s[i] == s[j] by {
            assert(s[i] * n == sum && s[j] * n == sum);
            assert(s[i] * n == s[j] * n && n >= 1 ==> s[i] == s[j]) by (nonlinear_arith);
        }
    }
    if all_equal(s) {
        lemma_sum_seq_all_equal(s);
        assert forall|i: int| 0 <= i < s.len() implies #[trigger] (s[i] * n) == sum by {
            assert(s[i] == s[0]);
            assert(s[0] * n == n * s[0]) by (nonlinear_arith);
        }
    }
}

/// The decomposition of a T-score.
///
/// `Degenerate` stands for the exact score `50`; `Spread { diff, variance }`
/// stands for `diff / sqrt(variance) * 10 + 50`, where `diff` is the distance
/// of the subject value from the population average and `variance` the
/// population variance — both exact rationals, with `variance` positive.
#[derive(Clone, Copy, Debug, PartialEq, Eq, Structural)]
pub enum TScore {
    /// The population is empty or all of its values are equal (equivalently,
    /// its standard deviation is exactly zero): the T-score is exactly `50`.
    Degenerate,
    /// The population spreads: the T-score is
    /// `diff / sqrt(variance) * 10 + 50`.
    Spread {
        /// Subject value minus the population average, exactly.
        diff: Rat,
        /// Population variance (square of the standard deviation), exactly;
        /// positive.
        variance: Rat,
    },
}

/// What [`t_score_int`] returns for subject `v` over population `s`.
pub open spec fn t_score_ok(r: TScore, v: int, s: Seq<i64>) -> bool {
    match r {
        TScore::Degenerate => s.len() == 0 || all_equal(s),
        TScore::Spread { diff, variance } => {
            &&& s.len() > 0
            &&& !all_equal(s)
            &&& diff.num == v * s.len() - sum_seq(s)
            &&& diff.den == s.len()
            &&& variance.num == sq_dev_sum(s, sum_seq(s), s.len() as int)
            &&& variance.den == s.len() * s.len() * s.len()
            &&& variance.num > 0
            &&& diff.wf()
            &&& variance.wf()
        },
    }
}

/// The T-score of subject value `v` within the population `arr`, decomposed
/// into its exact rational parts.
///
/// The degenerate-population policy is decided here, exactly: the result is
/// [`TScore::Degenerate`] precisely when the population is empty or all its
/// values are equal, which is precisely when its standard deviation is zero.
/// Otherwise the parts of `(v - average) / std_dev * 10 + 50` that are
/// rational — the deviation `v - average` and the variance — are returned
/// exactly, and the variance is positive, so the caller's square root and
/// division are well defined.
pub fn t_score_int(v: i64, arr: &Vec<i64>) -> (r: TScore)
    requires
        -VAL_MAX <= v <= VAL_MAX,
        arr@.len() <= LEN_MAX,
        forall|i: int| 0 <= i < arr@.len() ==> -VAL_MAX <= #[trigger] arr@[i] <= VAL_MAX,
    ensures
        t_score_ok(r, v as int, arr@),
{
    if arr.len() == 0 {
        return TScore::Degenerate;
    }
    if is_all_equal_int(arr) {
        return TScore::Degenerate;
    }
    let sum = sum_int(arr);
    proof {
        lemma_sum_seq_range(arr@, -VAL_MAX as int, VAL_MAX as int);
        assert(arr@.len() * (-VAL_MAX as int) >= -SUM_MAX && arr@.len() * (VAL_MAX as int)
            <= SUM_MAX) by (nonlinear_arith)
            requires
                arr@.len() <= LEN_MAX as int,
        ;
        assert(-SUM_MAX <= (v as i128) * (arr@.len() as i128) <= SUM_MAX) by (nonlinear_arith)
            requires
                -VAL_MAX <= v <= VAL_MAX,
                0 <= arr@.len() <= LEN_MAX as int,
        ;
    }
    let n = arr.len();
    let avg = Rat { num: sum, den: n as i128 };
    let diff = Rat { num: (v as i128) * (n as i128) - sum, den: n as i128 };
    let variance = variance_int(arr, &avg);
    proof {
        lemma_variance_zero_iff_all_equal(arr@);
        lemma_sq_dev_sum_nonneg(arr@, sum as int, n as int);
    }
    TScore::Spread { diff, variance }
}

/// The arithmetic mean of the population as an exact rational, or `or` when
/// the population is empty.
pub fn average_int(arr: &Vec<i64>, or: Rat) -> (r: Rat)
    requires
        or.wf(),
    ensures
        arr@.len() == 0 ==> r == or,
        arr@.len() > 0 ==> r.num == sum_seq(arr@) && r.den == arr@.len(),
        r.wf(),
{
    if arr.len() == 0 {
        return or;
    }
    let num = sum_int(arr);
    Rat { num, den: arr.len() as i128 }
}

// ----- the same statistics over a population of rationals -----
/// Every rational of the population is small enough for exact comparison.
pub open spec fn all_small(s: Seq<Rat>) -> bool {
    forall|i: int| 0 <= i < s.len() ==> (#[trigger] s[i]).small()
}

/// Every two values of the rational population denote the same value.
pub open spec fn all_equal_rat(s: Seq<Rat>) -> bool {
    forall|i: int, j: int| 0 <= i < s.len() && 0 <= j < s.len() ==> s[i].eq_spec(s[j])
}

/// `m` occurs in the rational population and nothing in it exceeds it.
pub open spec fn is_max_of_rat(s: Seq<Rat>, m: Rat) -> bool {
    &&& s.contains(m)
    &&& forall|i: int| 0 <= i < s.len() ==> (#[trigger] s[i]).le_spec(m)
}

/// `m` occurs in the rational population and is at most everything in it.
pub open spec fn is_min_of_rat(s: Seq<Rat>, m: Rat) -> bool {
    &&& s.contains(m)
    &&& forall|i: int| 0 <= i < s.len() ==> m.le_spec(#[trigger] s[i])
}

/// The largest value of a rational population, or `or` when it is empty.
pub fn max_rat(arr: &Vec<Rat>, or: Rat) -> (r: Rat)
    requires
        all_small(arr@),
    ensures
        arr@.len() == 0 ==> r == or,
        arr@.len() > 0 ==> is_max_of_rat(arr@, r),
{
    if arr.len() == 0 {
        return or;
    }
    let mut best: Rat = arr[0];
    let mut i: usize = 1;
    while i < arr.len()
        invariant
            1 <= i <= arr.len(),
            all_small(arr@),
            best.small(),
            exists|k: int| 0 <= k < i && arr@[k] == best,
            forall|k: int| 0 <= k < i ==> (#[trigger] arr@[k]).le_spec(best),
        decreases arr.len() - i,
    {
        let v = arr[i];
        if best.le(&v) {
            proof {
                assert forall|k: int| 0 <= k < i implies (#[trigger] arr@[k]).le_spec(v) by {
                    crate::rat::lemma_le_trans(arr@[k], best, v);
                }
            }
            best = v;
        } else {
            proof {
                crate::rat::lemma_le_total(v, best);
            }
        }
        i = i + 1;
    }
    best
}

/// The smallest value of a rational population, or `or` when it is empty.
pub fn min_rat(arr: &Vec<Rat>, or: Rat) -> (r: Rat)
    requires
        all_small(arr@),
    ensures
        arr@.len() == 0 ==> r == or,
        arr@.len() > 0 ==> is_min_of_rat(arr@, r),
{
    if arr.len() == 0 {
        return or;
    }
    let mut best: Rat = arr[0];
    let mut i: usize = 1;
    while i < arr.len()
        invariant
            1 <= i <= arr.len(),
            all_small(arr@),
            best.small(),
            exists|k: int| 0 <= k < i && arr@[k] == best,
            forall|k: int| 0 <= k < i ==> best.le_spec(#[trigger] arr@[k]),
        decreases arr.len() - i,
    {
        let v = arr[i];
        if v.le(&best) {
            proof {
                assert forall|k: int| 0 <= k < i implies v.le_spec(#[trigger] arr@[k]) by {
                    crate::rat::lemma_le_trans(v, best, arr@[k]);
                }
            }
            best = v;
        } else {
            proof {
                crate::rat::lemma_le_total(best, v);
            }
        }
        i = i + 1;
    }
    best
}

/// Whether every value of the rational population denotes the same value
/// (vacuously true of the empty population).
pub fn is_all_equal_rat(arr: &Vec<Rat>) -> (r: bool)
    requires
        all_small(arr@),
    ensures
        r == all_equal_rat(arr@),
{
    if arr.len() == 0 {
        return true;
    }
    let first = arr[0];
    let mut i: usize = 1;
    while i < arr.len()
        invariant
            1 <= i <= arr.len(),
            all_small(arr@),
            first == arr@[0],
            forall|k: int| 0 <= k < i ==> (#[trigger] arr@[k]).eq_spec(first),
        decreases arr.len() - i,
    {
        let v = arr[i];
        if !v.equiv(&first) {
            return false;
        }
        i = i + 1;
    }
    proof {
        assert forall|a: int, b: int|
            0 <= a < arr@.len() && 0 <= b < arr@.len() implies arr@[a].eq_spec(arr@[b]) by {
            crate::rat::lemma_eq_trans(arr@[a], first, arr@[b]);
        }
    }
    true
}

// ----- the laws of the statistics -----
/// A rational extremum is unique up to rational equality: two results that
/// both meet the contract of [`max_rat`] (or of [`min_rat`]) on the same
/// population denote the same value — so a second call returns an equal
/// result.
pub proof fn lemma_rat_extrema_unique(s: Seq<Rat>, mx1: Rat, mx2: Rat, mn1: Rat, mn2: Rat)
    requires
        forall|i: int| 0 <= i < s.len() ==> (#[trigger] s[i]).wf(),
        is_max_of_rat(s, mx1),
        is_max_of_rat(s, mx2),
        is_min_of_rat(s, mn1),
        is_min_of_rat(s, mn2),
    ensures
        mx1.eq_spec(mx2),
        mn1.eq_spec(mn2),
{
    let k1 = choose|k: int| 0 <= k < s.len() && s[k] == mx1;
    let k2 = choose|k: int| 0 <= k < s.len() && s[k] == mx2;
    assert(s[k1].le_spec(mx2) && s[k2].le_spec(mx1));
    crate::rat::lemma_le_antisymmetric(mx1, mx2);
    let j1 = choose|k: int| 0 <= k < s.len() && s[k] == mn1;
    let j2 = choose|k: int| 0 <= k < s.len() && s[k] == mn2;
    assert(mn1.le_spec(s[j2]) && mn2.le_spec(s[j1]));
    crate::rat::lemma_le_antisymmetric(mn1, mn2);
}

/// Two rational sequences with equal multisets contain the same values.
proof fn lemma_multiset_same_contains_rat(s1: Seq<Rat>, s2: Seq<Rat>)
    requires
        s1.to_multiset() == s2.to_multiset(),
    ensures
        forall|x: Rat| s1.contains(x) == s2.contains(x),
{
    broadcast use vstd::seq_lib::group_to_multiset_ensures;

    assert forall|x: Rat| s1.contains(x) == s2.contains(x) by {
        assert(s1.contains(x) <==> s1.to_multiset().count(x) > 0);
        assert(s2.contains(x) <==> s2.to_multiset().count(x) > 0);
    }
}

/// The rational statistics do not depend on the order of the population
/// either: the all-equal test and the extrema are the same for any two
/// populations that are permutations of one another.
pub proof fn lemma_rat_statistics_permutation_invariant(s1: Seq<Rat>, s2: Seq<Rat>)
    requires
        s1.to_multiset() == s2.to_multiset(),
    ensures
        s1.len() == s2.len(),
        all_equal_rat(s1) == all_equal_rat(s2),
        forall|m: Rat| #[trigger] is_max_of_rat(s1, m) == is_max_of_rat(s2, m),
        forall|m: Rat| #[trigger] is_min_of_rat(s1, m) == is_min_of_rat(s2, m),
{
    broadcast use vstd::seq_lib::group_to_multiset_ensures;

    assert(s1.to_multiset().len() == s1.len() && s2.to_multiset().len() == s2.len());
    lemma_multiset_same_contains_rat(s1, s2);
    lemma_multiset_same_contains_rat(s2, s1);
    if all_equal_rat(s1) {
        lemma_all_equal_rat_transfer(s1, s2);
    }
    if all_equal_rat(s2) {
        lemma_all_equal_rat_transfer(s2, s1);
    }
    assert forall|m: Rat| #[trigger] is_max_of_rat(s1, m) == is_max_of_rat(s2, m) by {
        lemma_rat_extremum_transfer(s1, s2, m);
        lemma_rat_extremum_transfer(s2, s1, m);
    }
    assert forall|m: Rat| #[trigger] is_min_of_rat(s1, m) == is_min_of_rat(s2, m) by {
        lemma_rat_extremum_transfer(s1, s2, m);
        lemma_rat_extremum_transfer(s2, s1, m);
    }
}

/// When two rational populations contain the same values, all-equal carries
/// over.
proof fn lemma_all_equal_rat_transfer(s1: Seq<Rat>, s2: Seq<Rat>)
    requires
        forall|x: Rat| s1.contains(x) == s2.contains(x),
        all_equal_rat(s1),
    ensures
        all_equal_rat(s2),
{
    assert forall|i: int, j: int|
        0 <= i < s2.len() && 0 <= j < s2.len() implies s2[i].eq_spec(s2[j]) by {
        assert(s2.contains(s2[i]) && s2.contains(s2[j]));
        let ki = choose|k: int| 0 <= k < s1.len() && s1[k] == s2[i];
        let kj = choose|k: int| 0 <= k < s1.len() && s1[k] == s2[j];
        assert(s1[ki].eq_spec(s1[kj]));
    }
}

/// When two rational populations contain the same values, an extremum of the
/// first is one of the second.
proof fn lemma_rat_extremum_transfer(s1: Seq<Rat>, s2: Seq<Rat>, m: Rat)
    requires
        forall|x: Rat| s1.contains(x) == s2.contains(x),
    ensures
        is_max_of_rat(s1, m) ==> is_max_of_rat(s2, m),
        is_min_of_rat(s1, m) ==> is_min_of_rat(s2, m),
{
    if is_max_of_rat(s1, m) {
        assert forall|i: int| 0 <= i < s2.len() implies (#[trigger] s2[i]).le_spec(m) by {
            assert(s2.contains(s2[i]));
            let k = choose|k: int| 0 <= k < s1.len() && s1[k] == s2[i];
            assert(s1[k].le_spec(m));
        }
    }
    if is_min_of_rat(s1, m) {
        assert forall|i: int| 0 <= i < s2.len() implies m.le_spec(#[trigger] s2[i]) by {
            assert(s2.contains(s2[i]));
            let k = choose|k: int| 0 <= k < s1.len() && s1[k] == s2[i];
            assert(m.le_spec(s1[k]));
        }
    }
}

/// The average of a one-value population is that value.
///
/// (That the average of an empty population is the given default is already
/// the first `ensures` of [`average_int`].)
pub proof fn lemma_average_singleton(s: Seq<i64>, avg: Rat)
    requires
        s.len() == 1,
        avg.num == sum_seq(s),
        avg.den == s.len(),
    ensures
        avg.eq_spec((Rat { num: s[0] as i128, den: 1 })),
{
    assert(s.drop_last().len() == 0);
    assert(sum_seq(s.drop_last()) == 0);
    assert(sum_seq(s) == s.last());
    assert(s.last() == s[0]);
}

/// Around its own average, a one-value population has variance zero.
///
/// (That the empty population has variance zero is already the first
/// `ensures` of [`variance_int`].)
pub proof fn lemma_variance_singleton(s: Seq<i64>)
    requires
        s.len() == 1,
    ensures
        sq_dev_sum(s, sum_seq(s), s.len() as int) == 0,
{
    lemma_variance_zero_iff_all_equal(s);
}

/// Over an empty population, or one whose values are all equal, the T-score
/// is exactly `50`: any result satisfying the T-score contract is
/// [`TScore::Degenerate`].
pub proof fn lemma_t_score_degenerate(r: TScore, v: int, s: Seq<i64>)
    requires
        t_score_ok(r, v, s),
        s.len() == 0 || all_equal(s),
    ensures
        r == TScore::Degenerate,
{
}

/// For a non-empty population, the minimum is at most the average and the
/// average is at most the maximum (as exact rationals).
pub proof fn lemma_average_between_extrema(s: Seq<i64>, lo: i64, hi: i64, avg: Rat)
    requires
        s.len() > 0,
        is_min_of(s, lo),
        is_max_of(s, hi),
        avg.num == sum_seq(s),
        avg.den == s.len(),
    ensures
        (Rat { num: lo as i128, den: 1 }).le_spec(avg),
        avg.le_spec((Rat { num: hi as i128, den: 1 })),
{
    lemma_sum_seq_range(s, lo as int, hi as int);
    assert(s.len() * (lo as int) == (lo as int) * s.len() && s.len() * (hi as int) == (hi as int)
        * s.len()) by (nonlinear_arith);
}

/// The statistics are functions of the population (and subject value) alone:
/// any two results that meet the contracts of [`max_int`], [`min_int`] and
/// [`t_score_int`] on the same input are equal — so a second call returns
/// the identical result. (The contracts of [`sum_int`], [`average_int`] and
/// [`variance_int`] pin every field of their result by an equation, so for
/// them there is nothing to state.)
pub proof fn lemma_statistics_deterministic(
    s: Seq<i64>,
    v: int,
    mx1: i64,
    mx2: i64,
    mn1: i64,
    mn2: i64,
    t1: TScore,
    t2: TScore,
)
    requires
        is_max_of(s, mx1),
        is_max_of(s, mx2),
        is_min_of(s, mn1),
        is_min_of(s, mn2),
        t_score_ok(t1, v, s),
        t_score_ok(t2, v, s),
    ensures
        mx1 == mx2,
        mn1 == mn2,
        t1 == t2,
{
    let k1 = choose|k: int| 0 <= k < s.len() && s[k] == mx1;
    let k2 = choose|k: int| 0 <= k < s.len() && s[k] == mx2;
    assert(s[k1] <= mx2 && s[k2] <= mx1);
    let j1 = choose|k: int| 0 <= k < s.len() && s[k] == mn1;
    let j2 = choose|k: int| 0 <= k < s.len() && s[k] == mn2;
    assert(mn1 <= s[j2] && mn2 <= s[j1]);
}

/// `sum_seq` is a left fold of addition.
proof fn lemma_sum_seq_is_fold(s: Seq<i64>, f: spec_fn(int, i64) -> int)
    requires
        forall|b: int, a: i64| #[trigger] f(b, a) == b + a,
    ensures
        sum_seq(s) == s.fold_left(0int, f),
    decreases s.len(),
{
    if s.len() > 0 {
        lemma_sum_seq_is_fold(s.drop_last(), f);
    }
}

/// `sq_dev_sum` is a left fold of adding squared deviations.
proof fn lemma_sq_dev_sum_is_fold(s: Seq<i64>, num: int, den: int, f: spec_fn(int, i64) -> int)
    requires
        forall|b: int, a: i64| #[trigger] f(b, a) == b + (a * den - num) * (a * den - num),
    ensures
        sq_dev_sum(s, num, den) == s.fold_left(0int, f),
    decreases s.len(),
{
    if s.len() > 0 {
        lemma_sq_dev_sum_is_fold(s.drop_last(), num, den, f);
    }
}

/// Two sequences with equal multisets contain the same values.
proof fn lemma_multiset_same_contains(s1: Seq<i64>, s2: Seq<i64>)
    requires
        s1.to_multiset() == s2.to_multiset(),
    ensures
        forall|x: i64| s1.contains(x) == s2.contains(x),
{
    broadcast use vstd::seq_lib::group_to_multiset_ensures;

    assert forall|x: i64| s1.contains(x) == s2.contains(x) by {
        assert(s1.contains(x) <==> s1.to_multiset().count(x) > 0);
        assert(s2.contains(x) <==> s2.to_multiset().count(x) > 0);
    }
}

/// The statistics do not depend on the order of the population: every
/// quantity the contracts of this module speak of — the population size, the
/// sum (hence the average), the scaled sum of squared deviations (hence the
/// variance and the T-score), the all-equal test and the extrema — is the
/// same for any two populations that are permutations of one another.
pub proof fn lemma_statistics_permutation_invariant(s1: Seq<i64>, s2: Seq<i64>, num: int, den: int)
    requires
        s1.to_multiset() == s2.to_multiset(),
    ensures
        s1.len() == s2.len(),
        sum_seq(s1) == sum_seq(s2),
        sq_dev_sum(s1, num, den) == sq_dev_sum(s2, num, den),
        all_equal(s1) == all_equal(s2),
        forall|m: i64| #[trigger] is_max_of(s1, m) == is_max_of(s2, m),
        forall|m: i64| #[trigger] is_min_of(s1, m) == is_min_of(s2, m),
{
    broadcast use vstd::seq_lib::group_to_multiset_ensures;

    assert(s1.to_multiset().len() == s1.len() && s2.to_multiset().len() == s2.len());
    lemma_multiset_same_contains(s1, s2);
    let plus = |b: int, a: i64| b + a;
    assert(forall|b: int, a: i64| #[trigger] plus(b, a) == b + a);
    lemma_sum_seq_is_fold(s1, plus);
    lemma_sum_seq_is_fold(s2, plus);
    assert(commutative_foldl(plus));
    lemma_fold_left_permutation(s1, s2, plus, 0int);
    let sq = |b: int, a: i64| b + (a * den - num) * (a * den - num);
    assert(forall|b: int, a: i64| #[trigger] sq(b, a) == b + (a * den - num) * (a * den - num));
    lemma_sq_dev_sum_is_fold(s1, num, den, sq);
    lemma_sq_dev_sum_is_fold(s2, num, den, sq);
    assert(commutative_foldl(sq));
    lemma_fold_left_permutation(s1, s2, sq, 0int);
    if all_equal(s1) {
        lemma_all_equal_transfer(s1, s2);
    }
    if all_equal(s2) {
        lemma_multiset_same_contains(s2, s1);
        lemma_all_equal_transfer(s2, s1);
    }
    assert forall|m: i64| #[trigger] is_max_of(s1, m) == is_max_of(s2, m) by {
        if is_max_of(s1, m) {
            lemma_extremum_transfer(s1, s2, m);
        }
        if is_max_of(s2, m) {
            lemma_multiset_same_contains(s2, s1);
            lemma_extremum_transfer(s2, s1, m);
        }
    }
    assert forall|m: i64| #[trigger] is_min_of(s1, m) == is_min_of(s2, m) by {
        if is_min_of(s1, m) {
            lemma_extremum_transfer(s1, s2, m);
        }
        if is_min_of(s2, m) {
            lemma_multiset_same_contains(s2, s1);
            lemma_extremum_transfer(s2, s1, m);
        }
    }
}

/// When two populations contain the same values, all-equal carries over.
proof fn lemma_all_equal_transfer(s1: Seq<i64>, s2: Seq<i64>)
    requires
        forall|x: i64| s1.contains(x) == s2.contains(x),
        all_equal(s1),
    ensures
        all_equal(s2),
{
    assert forall|i: int, j: int|
        0 <= i < s2.len() && 0 <= j < s2.len() implies s2[i] == s2[j] by {
        assert(s2.contains(s2[i]) && s2.contains(s2[j]));
        let ki = choose|k: int| 0 <= k < s1.len() && s1[k] == s2[i];
        let kj = choose|k: int| 0 <= k < s1.len() && s1[k] == s2[j];
        assert(s1[ki] == s1[kj]);
    }
}

/// When two populations contain the same values, an extremum of the first is
/// one of the second.
proof fn lemma_extremum_transfer(s1: Seq<i64>, s2: Seq<i64>, m: i64)
    requires
        forall|x: i64| s1.contains(x) == s2.contains(x),
    ensures
        is_max_of(s1, m) ==> is_max_of(s2, m),
        is_min_of(s1, m) ==> is_min_of(s2, m),
{
    if is_max_of(s1, m) {
        assert forall|i: int| 0 <= i < s2.len() implies s2[i] <= m by {
            assert(s2.contains(s2[i]));
            let k = choose|k: int| 0 <= k < s1.len() && s1[k] == s2[i];
            assert(s1[k] <= m);
        }
    }
    if is_min_of(s1, m) {
        assert forall|i: int| 0 <= i < s2.len() implies m <= s2[i] by {
            assert(s2.contains(s2[i]));
            let k = choose|k: int| 0 <= k < s1.len() && s1[k] == s2[i];
            assert(m <= s1[k]);
        }
    }
}

} // verus!

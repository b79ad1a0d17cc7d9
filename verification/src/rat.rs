//! An exact rational number.
//!
//! The statistics engine never rounds: averages, variances and GPAs are
//! carried as a numerator over a positive denominator. A caller that wants a
//! decimal approximation divides the two fields itself; everything the
//! library states and proves is in terms of the exact value.

use vstd::prelude::*;

verus! {

/// Magnitude bound under which two rationals can be compared by cross
/// multiplication in `i128` without overflow (`2^62`, so that any product of
/// two bounded fields stays below `2^124`).
pub const CMP_MAX: i128 = 0x4000_0000_0000_0000;

/// A rational number `num / den` with a positive denominator.
///
/// Two values represent the same rational when they cross multiply equally
/// ([`Rat::eq_spec`]); the fields are public so that contracts can pin the
/// exact numerator and denominator a function computes.
#[derive(Clone, Copy, Debug, PartialEq, Eq, Structural)]
pub struct Rat {
    pub num: i128,
    pub den: i128,
}

impl Rat {
    /// The denominator is positive, so the value is defined and the order
    /// relations below are the usual ones.
    pub open spec fn wf(self) -> bool {
        self.den >= 1
    }

    /// `self` and `other` denote the same rational value.
    pub open spec fn eq_spec(self, other: Rat) -> bool {
        self.num * other.den == other.num * self.den
    }

    /// `self <= other` as rational values (for positive denominators).
    pub open spec fn le_spec(self, other: Rat) -> bool {
        self.num * other.den <= other.num * self.den
    }

    /// Both fields are small enough for exact `i128` cross multiplication.
    pub open spec fn small(self) -> bool {
        &&& -CMP_MAX <= self.num <= CMP_MAX
        &&& 1 <= self.den <= CMP_MAX
    }

    /// The rational `num / den`.
    pub fn new(num: i64, den: i64) -> (r: Rat)
        requires
            den >= 1,
        ensures
            r.num == num,
            r.den == den,
            r.wf(),
    {
        Rat { num: num as i128, den: den as i128 }
    }

    /// The integer `v` as a rational.
    pub fn from_int(v: i64) -> (r: Rat)
        ensures
            r.num == v,
            r.den == 1,
            r.wf(),
            -CMP_MAX <= v as i128 <= CMP_MAX ==> r.small(),
    {
        Rat { num: v as i128, den: 1 }
    }

    /// Exact order test by cross multiplication.
    pub fn le(&self, other: &Rat) -> (r: bool)
        requires
            self.small(),
            other.small(),
        ensures
            r == self.le_spec(*other),
    {
        proof {
            lemma_cross_mul_in_range(self.num, other.den);
            lemma_cross_mul_in_range(other.num, self.den);
        }
        self.num * other.den <= other.num * self.den
    }

    /// Exact equality test of the denoted values by cross multiplication.
    pub fn equiv(&self, other: &Rat) -> (r: bool)
        requires
            self.small(),
            other.small(),
        ensures
            r == self.eq_spec(*other),
    {
        proof {
            lemma_cross_mul_in_range(self.num, other.den);
            lemma_cross_mul_in_range(other.num, self.den);
        }
        self.num * other.den == other.num * self.den
    }
}

/// `le_spec` is total: of two well-formed rationals, one is at most the other.
pub proof fn lemma_le_total(a: Rat, b: Rat)
    requires
        a.wf(),
        b.wf(),
    ensures
        a.le_spec(b) || b.le_spec(a),
{
}

/// `le_spec` is antisymmetric up to `eq_spec`: two rationals each at most the
/// other denote the same value.
pub proof fn lemma_le_antisymmetric(a: Rat, b: Rat)
    requires
        a.wf(),
        b.wf(),
        a.le_spec(b),
        b.le_spec(a),
    ensures
        a.eq_spec(b),
{
}

/// `le_spec` is transitive on well-formed rationals.
pub proof fn lemma_le_trans(a: Rat, b: Rat, c: Rat)
    requires
        a.wf(),
        b.wf(),
        c.wf(),
        a.le_spec(b),
        b.le_spec(c),
    ensures
        a.le_spec(c),
{
    assert(a.num * c.den <= c.num * a.den) by (nonlinear_arith)
        requires
            a.den >= 1,
            b.den >= 1,
            c.den >= 1,
            a.num * b.den <= b.num * a.den,
            b.num * c.den <= c.num * b.den,
    ;
}

/// `eq_spec` is transitive on well-formed rationals.
pub proof fn lemma_eq_trans(a: Rat, b: Rat, c: Rat)
    requires
        a.wf(),
        b.wf(),
        c.wf(),
        a.eq_spec(b),
        b.eq_spec(c),
    ensures
        a.eq_spec(c),
{
    assert(a.num * c.den == c.num * a.den) by (nonlinear_arith)
        requires
            a.den >= 1,
            b.den >= 1,
            c.den >= 1,
            a.num * b.den == b.num * a.den,
            b.num * c.den == c.num * b.den,
    ;
}

/// A product of two factors bounded by [`CMP_MAX`] fits in `i128`.
proof fn lemma_cross_mul_in_range(a: i128, b: i128)
    requires
        -CMP_MAX <= a <= CMP_MAX,
        -CMP_MAX <= b <= CMP_MAX,
    ensures
        i128::MIN <= a * b <= i128::MAX,
{
    assert(-CMP_MAX * CMP_MAX <= a * b <= CMP_MAX * CMP_MAX) by (nonlinear_arith)
        requires
            -CMP_MAX <= a <= CMP_MAX,
            -CMP_MAX <= b <= CMP_MAX,
    ;
}

} // verus!

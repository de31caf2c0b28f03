//! Exact numbers: decimal lengths as they are entered, and the rational
//! coordinates that the geometry is computed in.

use vstd::prelude::*;

verus! {

/// A rational number `num / den` over the mathematical integers.
pub struct Rational {
    pub num: int,
    pub den: int,
}

impl Rational {
    /// The integer `n` as a rational.
    pub open spec fn whole(n: int) -> Rational {
        Rational { num: n, den: 1 }
    }

    /// A usable rational has a positive denominator.
    pub open spec fn wf(self) -> bool {
        self.den > 0
    }

    /// Equality of value, whatever the representation.
    pub open spec fn same(self, other: Rational) -> bool {
        self.num * other.den == other.num * self.den
    }

    pub open spec fn plus(self, other: Rational) -> Rational {
        Rational {
            num: self.num * other.den + other.num * self.den,
            den: self.den * other.den,
        }
    }

    pub open spec fn minus(self, other: Rational) -> Rational {
        Rational {
            num: self.num * other.den - other.num * self.den,
            den: self.den * other.den,
        }
    }

    pub open spec fn negated(self) -> Rational {
        Rational { num: -self.num, den: self.den }
    }

    /// `k` times this number.
    pub open spec fn scaled(self, k: int) -> Rational {
        Rational { num: k * self.num, den: self.den }
    }

    /// This number divided by the non-zero integer `k`.
    pub open spec fn shared(self, k: int) -> Rational {
        Rational { num: self.num, den: self.den * k }
    }
}

/// `n` thousandths of a drawing unit.
pub open spec fn thousandths(n: int) -> Rational {
    Rational { num: n, den: 1000 }
}

/// Half of `n` thousandths of a drawing unit.
pub open spec fn halved(n: int) -> Rational {
    thousandths(n).shared(2)
}

/// Whether the integer `n` can be held in an `i128`.
pub open spec fn fits(n: int) -> bool {
    i128::MIN <= n <= i128::MAX
}

/// Whether the sum and the difference of `a` and `b` can be formed without
/// leaving `i128`: both cross products, their sum, their difference and the
/// product of the denominators fit.
pub open spec fn combine_fits(a: Rational, b: Rational) -> bool {
    &&& fits(a.num * b.den)
    &&& fits(b.num * a.den)
    &&& fits(a.den * b.den)
    &&& fits(a.num * b.den + b.num * a.den)
    &&& fits(a.num * b.den - b.num * a.den)
}

/// Sums and differences of usable rationals are usable.
pub proof fn lemma_combine_well_formed(a: Rational, b: Rational)
    requires
        a.wf(),
        b.wf(),
    ensures
        a.plus(b).wf(),
        a.minus(b).wf(),
{
    assert(a.den * b.den > 0) by (nonlinear_arith)
        requires
            a.den > 0,
            b.den > 0,
    ;
}

/// A rational number held as two machine integers. The value is
/// `num / den`; it is not kept in lowest terms.
#[derive(Clone, Copy, Debug, PartialEq, Eq, Structural)]
pub struct Ratio {
    pub num: i128,
    pub den: i128,
}

impl View for Ratio {
    type V = Rational;

    open spec fn view(&self) -> Rational {
        Rational { num: self.num as int, den: self.den as int }
    }
}

impl Ratio {
    /// The integer `n` as a ratio.
    pub fn whole(n: i128) -> (r: Ratio)
        ensures
            r@ == Rational::whole(n as int),
    {
        Ratio { num: n, den: 1 }
    }

    /// Half of `n` thousandths of a drawing unit.
    pub fn half(n: i128) -> (r: Ratio)
        ensures
            r@ == halved(n as int),
    {
        Ratio { num: n, den: 2 * SCALE }
    }

    /// The sum `self + other` and the difference `self - other`, over the
    /// product of the two denominators; `None` exactly when one of the
    /// intermediate integers leaves `i128`.
    pub fn checked_plus_minus(self, other: Ratio) -> (r: Option<(Ratio, Ratio)>)
        ensures
            r is Some <==> combine_fits(self@, other@),
            r matches Some(pair) ==> pair.0@ == self@.plus(other@) && pair.1@ == self@.minus(
                other@,
            ),
            r matches Some(pair) ==> (self@.wf() && other@.wf() ==> pair.0@.wf() && pair.1@.wf()),
    {
        proof {
            if self@.wf() && other@.wf() {
                lemma_combine_well_formed(self@, other@);
            }
        }
        let left: i128 = match self.num.checked_mul(other.den) {
            Some(v) => v,
            None => { return None; },
        };
        let right: i128 = match other.num.checked_mul(self.den) {
            Some(v) => v,
            None => { return None; },
        };
        let den: i128 = match self.den.checked_mul(other.den) {
            Some(v) => v,
            None => { return None; },
        };
        let sum: i128 = match left.checked_add(right) {
            Some(v) => v,
            None => { return None; },
        };
        let difference: i128 = match left.checked_sub(right) {
            Some(v) => v,
            None => { return None; },
        };
        Some((Ratio { num: sum, den }, Ratio { num: difference, den }))
    }
}

/// Thousandths in one drawing unit.
pub const SCALE: i128 = 1000;

/// A decimal quantity in drawing units, exact to three places: the value is
/// `thousandths / 1000`.
#[derive(Clone, Copy, Debug, PartialEq, Eq, Structural)]
pub struct Length {
    pub thousandths: i32,
}

impl Length {
    /// The same value as a ratio.
    pub fn to_ratio(self) -> (r: Ratio)
        ensures
            r@ == thousandths(self.thousandths as int),
    {
        Ratio { num: self.thousandths as i128, den: SCALE }
    }
}

} // verus!

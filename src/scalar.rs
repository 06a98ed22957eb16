use vstd::prelude::*;

verus! {

/// The number type that springs are simulated in: a floating-point format
/// such as single or double precision, supplied by the user.
///
/// Each operation is described by a spec function of the same name with a
/// `spec_` prefix: an implementation computes a function of its arguments
/// alone, and that function is what the spec function stands for. The
/// library's contracts are exact formulas over these spec functions, in the
/// order in which the operations are evaluated. An IEEE format meets this
/// for every result but a NaN, whose bit pattern Rust leaves open; where a
/// contract reaches a NaN it speaks of some NaN.
///
/// An implementation also promises the few order laws below, which IEEE
/// formats meet (a comparison with a NaN is false).
pub trait Scalar: Copy + Sized {
    spec fn spec_zero() -> Self;

    spec fn spec_one() -> Self;

    /// The machine epsilon of the format.
    spec fn spec_epsilon() -> Self;

    spec fn spec_add(self, o: Self) -> Self;

    spec fn spec_sub(self, o: Self) -> Self;

    spec fn spec_mul(self, o: Self) -> Self;

    spec fn spec_div(self, o: Self) -> Self;

    spec fn spec_neg(self) -> Self;

    spec fn spec_exp(self) -> Self;

    spec fn spec_sin(self) -> Self;

    spec fn spec_cos(self) -> Self;

    spec fn spec_sqrt(self) -> Self;

    /// The larger of the two values.
    spec fn spec_max(self, o: Self) -> Self;

    /// Whether `self` is strictly less than `o`.
    spec fn spec_lt(self, o: Self) -> bool;

    /// The larger of two values is never below the second.
    proof fn lemma_max_not_below(a: Self, b: Self)
        ensures
            !a.spec_max(b).spec_lt(b),
    ;

    /// `lt` is transitive.
    proof fn lemma_lt_transitive(a: Self, b: Self, c: Self)
        requires
            a.spec_lt(b),
            b.spec_lt(c),
        ensures
            a.spec_lt(c),
    ;

    /// `lt` is asymmetric.
    proof fn lemma_lt_asymmetric(a: Self, b: Self)
        requires
            a.spec_lt(b),
        ensures
            !b.spec_lt(a),
    ;

    /// One minus epsilon is below one plus epsilon.
    proof fn lemma_epsilon_band()
        ensures
            Self::spec_one().spec_sub(Self::spec_epsilon()).spec_lt(
                Self::spec_one().spec_add(Self::spec_epsilon()),
            ),
    ;

    fn zero() -> (r: Self)
        ensures
            r == Self::spec_zero(),
    ;

    fn one() -> (r: Self)
        ensures
            r == Self::spec_one(),
    ;

    fn epsilon() -> (r: Self)
        ensures
            r == Self::spec_epsilon(),
    ;

    fn add(self, o: Self) -> (r: Self)
        ensures
            r == self.spec_add(o),
    ;

    fn sub(self, o: Self) -> (r: Self)
        ensures
            r == self.spec_sub(o),
    ;

    fn mul(self, o: Self) -> (r: Self)
        ensures
            r == self.spec_mul(o),
    ;

    fn div(self, o: Self) -> (r: Self)
        ensures
            r == self.spec_div(o),
    ;

    fn neg(self) -> (r: Self)
        ensures
            r == self.spec_neg(),
    ;

    fn exp(self) -> (r: Self)
        ensures
            r == self.spec_exp(),
    ;

    fn sin(self) -> (r: Self)
        ensures
            r == self.spec_sin(),
    ;

    fn cos(self) -> (r: Self)
        ensures
            r == self.spec_cos(),
    ;

    fn sqrt(self) -> (r: Self)
        ensures
            r == self.spec_sqrt(),
    ;

    fn max(self, o: Self) -> (r: Self)
        ensures
            r == self.spec_max(o),
    ;

    fn lt(self, o: Self) -> (r: bool)
        ensures
            r == self.spec_lt(o),
    ;
}

} // verus!

use vstd::prelude::*;

verus! {

/// The number type a simulation computes with.
///
/// Each operation has a mathematical counterpart, a spec function of the same
/// arguments, and the executable method returns exactly that value. The
/// library assumes nothing else of the arithmetic: no associativity, no
/// neutral element, no ordering. Its contracts are therefore exact for any
/// deterministic number type, rounded or not.
pub trait Scalar: Sized + Copy {
    /// The additive constant that matrices and vectors are cleared to.
    spec fn nil() -> Self;

    /// The multiplicative constant.
    spec fn unit() -> Self;

    spec fn plus(self, rhs: Self) -> Self;

    spec fn minus(self, rhs: Self) -> Self;

    spec fn times(self, rhs: Self) -> Self;

    spec fn over(self, rhs: Self) -> Self;

    spec fn negated(self) -> Self;

    /// The scalar that stands for the count `i`.
    spec fn of_index(i: usize) -> Self;

    /// The whole part of the scalar as a count.
    spec fn whole(self) -> usize;

    /// The decimal rendering of the scalar.
    spec fn text(self) -> String;

    /// The rendering of the scalar as a cell of a printed matrix: fixed width,
    /// fixed number of decimals.
    spec fn cell(self) -> String;

    fn zero() -> (r: Self)
        ensures
            r == Self::nil(),
    ;

    fn one() -> (r: Self)
        ensures
            r == Self::unit(),
    ;

    fn add(self, rhs: Self) -> (r: Self)
        ensures
            r == self.plus(rhs),
    ;

    fn sub(self, rhs: Self) -> (r: Self)
        ensures
            r == self.minus(rhs),
    ;

    fn mul(self, rhs: Self) -> (r: Self)
        ensures
            r == self.times(rhs),
    ;

    fn div(self, rhs: Self) -> (r: Self)
        ensures
            r == self.over(rhs),
    ;

    fn neg(self) -> (r: Self)
        ensures
            r == self.negated(),
    ;

    fn from_index(i: usize) -> (r: Self)
        ensures
            r == Self::of_index(i),
    ;

    fn truncate(self) -> (r: usize)
        ensures
            r == self.whole(),
    ;

    fn to_text(self) -> (r: String)
        ensures
            r@ == self.text()@,
    ;

    fn to_cell(self) -> (r: String)
        ensures
            r@ == self.cell()@,
    ;
}

} // verus!

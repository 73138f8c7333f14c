//! The numeric type the simulation computes with.
use vstd::prelude::*;

verus! {

/// The arithmetic the simulation needs from its numbers.
///
/// The engine is written once over this trait; the host supplies the
/// concrete number type (IEEE doubles in the renderer). Each operation is
/// named by a spec function of its arguments, so the engine's contracts can
/// say which computation produced each value; nothing more is assumed of
/// the arithmetic.
pub trait Scalar: Copy + Sized {
    /// The number `num / den` stands for.
    spec fn spec_ratio(num: i32, den: u32) -> Self;

    spec fn spec_from_u32(n: u32) -> Self;

    spec fn spec_pi() -> Self;

    spec fn spec_plus(self, other: Self) -> Self;

    spec fn spec_minus(self, other: Self) -> Self;

    spec fn spec_times(self, other: Self) -> Self;

    spec fn spec_divided_by(self, other: Self) -> Self;

    spec fn spec_negated(self) -> Self;

    spec fn spec_sqrt(self) -> Self;

    spec fn spec_sin(self) -> Self;

    spec fn spec_cos(self) -> Self;

    spec fn spec_less_than(self, other: Self) -> bool;

    /// The value `num / den`.
    fn ratio(num: i32, den: u32) -> (r: Self)
        ensures
            r == Self::spec_ratio(num, den),
    ;

    /// The value `n`.
    fn from_u32(n: u32) -> (r: Self)
        ensures
            r == Self::spec_from_u32(n),
    ;

    /// The circle constant π.
    fn pi() -> (r: Self)
        ensures
            r == Self::spec_pi(),
    ;

    fn plus(self, other: Self) -> (r: Self)
        ensures
            r == self.spec_plus(other),
    ;

    fn minus(self, other: Self) -> (r: Self)
        ensures
            r == self.spec_minus(other),
    ;

    fn times(self, other: Self) -> (r: Self)
        ensures
            r == self.spec_times(other),
    ;

    fn divided_by(self, other: Self) -> (r: Self)
        ensures
            r == self.spec_divided_by(other),
    ;

    fn negated(self) -> (r: Self)
        ensures
            r == self.spec_negated(),
    ;

    fn sqrt(self) -> (r: Self)
        ensures
            r == self.spec_sqrt(),
    ;

    fn sin(self) -> (r: Self)
        ensures
            r == self.spec_sin(),
    ;

    fn cos(self) -> (r: Self)
        ensures
            r == self.spec_cos(),
    ;

    fn less_than(self, other: Self) -> (r: bool)
        ensures
            r == self.spec_less_than(other),
    ;
}

} // verus!

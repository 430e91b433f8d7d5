//! The arithmetic that loan computations need from a numeric type.
use vstd::prelude::*;

verus! {

/// A numeric type that money amounts and interest rates are held in.
///
/// The library fixes the order of the operations of every computation; the
/// type fixes what each single operation yields (the binary uses `f64`).
/// Each operation is stated to return its spec counterpart, that is, to be a
/// function of its arguments alone; nothing more is claimed of its value, so
/// what the library proves holds for every deterministic implementation.
/// The spec counterparts carry placeholder bodies only so that impls written
/// outside verified code compile; the library reasons about them for a
/// generic type, where those bodies are never unfolded.
pub trait Amount: Copy + Sized {
    closed spec fn spec_from_int(n: i32) -> Self {
        arbitrary()
    }

    closed spec fn spec_plus(self, other: Self) -> Self {
        arbitrary()
    }

    closed spec fn spec_minus(self, other: Self) -> Self {
        arbitrary()
    }

    closed spec fn spec_times(self, other: Self) -> Self {
        arbitrary()
    }

    closed spec fn spec_divided_by(self, other: Self) -> Self {
        arbitrary()
    }

    closed spec fn spec_power(self, n: i32) -> Self {
        arbitrary()
    }

    closed spec fn spec_less_than(self, other: Self) -> bool {
        arbitrary()
    }

    closed spec fn spec_is_zero(self) -> bool {
        arbitrary()
    }

    /// The value of a whole number.
    fn from_int(n: i32) -> (r: Self)
        ensures
            r == Self::spec_from_int(n),
    ;

    /// The sum of two amounts.
    fn plus(self, other: Self) -> (r: Self)
        ensures
            r == self.spec_plus(other),
    ;

    /// The difference of two amounts.
    fn minus(self, other: Self) -> (r: Self)
        ensures
            r == self.spec_minus(other),
    ;

    /// The product of two amounts.
    fn times(self, other: Self) -> (r: Self)
        ensures
            r == self.spec_times(other),
    ;

    /// The quotient of two amounts.
    fn divided_by(self, other: Self) -> (r: Self)
        ensures
            r == self.spec_divided_by(other),
    ;

    /// The amount raised to a whole power.
    fn power(self, n: i32) -> (r: Self)
        ensures
            r == self.spec_power(n),
    ;

    /// Whether this amount is strictly less than the other.
    fn less_than(self, other: Self) -> (r: bool)
        ensures
            r == self.spec_less_than(other),
    ;

    /// Whether this amount is zero.
    fn is_zero(self) -> (r: bool)
        ensures
            r == self.spec_is_zero(),
    ;
}

/// Whether an amount is below zero.
pub open spec fn is_negative<A: Amount>(x: A) -> bool {
    x.spec_less_than(A::spec_from_int(0))
}

} // verus!

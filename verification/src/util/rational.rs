//! Rational numbers, as the native library passes time bases and rates.

use vstd::prelude::*;

verus! {

/// A numerator over a denominator, kept as given: nothing is reduced.
#[derive(Clone, Copy, Debug, PartialEq, Eq, Hash)]
pub struct Rational(pub i32, pub i32);

impl Rational {
    pub fn new(numerator: i32, denominator: i32) -> (rational: Rational)
        ensures
            rational == Rational(numerator, denominator),
    {
        Rational(numerator, denominator)
    }

    pub fn numerator(&self) -> (numerator: i32)
        ensures
            numerator == self.0,
    {
        self.0
    }

    pub fn denominator(&self) -> (denominator: i32)
        ensures
            denominator == self.1,
    {
        self.1
    }
}

} // verus!

//! Observations of the trajectory-equation residual.
//!
//! The residual of the trajectory equation at a pitch angle `a` is
//! `(drag^2 * range * tan(a)) / gravity + p - (drop * drag^2) / gravity
//! + ln(1 - p)` with `p = (range * drag) / (velocity * cos(a))`.  Its roots
//! in `a` are the valid firing angles.  The searches in this crate never
//! evaluate it themselves: the caller evaluates it and reports what it saw,
//! in one of the two shapes below.

use vstd::prelude::*;

verus! {

/// The sign of a residual value, as the caller observed it.
///
/// `Negative` is a value strictly below zero, `Positive` any other finite
/// value, and `NonFinite` an evaluation that left the equation's domain
/// (`cos(a) = 0`, or `p >= 1` making the logarithm undefined).
#[derive(Clone, Copy, PartialEq, Eq, Structural, Debug)]
pub enum Sgn {
    Negative,
    Positive,
    NonFinite,
}

/// A residual value classified against the tolerance the query named.
///
/// `Small` means the magnitude is within that tolerance, so the evaluated
/// pitch counts as a root (or, at the critical pitch, as a tangent graze).
/// `Negative` and `Positive` report the sign of a value outside the
/// tolerance, and `NonFinite` an evaluation outside the equation's domain.
#[derive(Clone, Copy, PartialEq, Eq, Structural, Debug)]
pub enum ResidualClass {
    Small,
    Negative,
    Positive,
    NonFinite,
}

/// Whether a classified residual has the same definite sign as an earlier
/// observation.  A non-finite observation matches nothing, so a search that
/// compares signs falls through to its failure arm rather than treating two
/// undefined values as equal.
pub open spec fn same_sign(class: ResidualClass, sign: Sgn) -> bool {
    ||| (class is Negative && sign is Negative)
    ||| (class is Positive && sign is Positive)
}

/// Executable form of [`same_sign`].
pub fn same_sign_exec(class: ResidualClass, sign: Sgn) -> (r: bool)
    ensures
        r == same_sign(class, sign),
{
    match (class, sign) {
        (ResidualClass::Negative, Sgn::Negative) => true,
        (ResidualClass::Positive, Sgn::Positive) => true,
        _ => false,
    }
}

} // verus!

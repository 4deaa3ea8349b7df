//! Firing-solution core for a projectile under a simplified drag law.
//!
//! Given the horizontal range to a target, its signed vertical displacement,
//! a drag coefficient, a muzzle velocity and a gravitational constant, the
//! trajectory equation has up to two pitch-angle roots: a flat "direct" arc
//! and a lobbed "indirect" arc.  Locating them takes three steps: find the
//! stationary (critical) pitch of the equation, test reachability there, and
//! bracket and refine one root on each side of the critical pitch.
//!
//! The arithmetic of the trajectory equation is IEEE-754 work that the caller
//! performs; this crate verifies everything the solver *decides*.  The two
//! searches are state machines ([`critical::CriticalSearch`] and
//! [`solver::AngleSearch`]) that hand the caller a query naming the pitch to
//! evaluate, receive the observed sign or magnitude class of the residual,
//! and take every branching decision themselves: which bracket endpoint to
//! replace, when a root is accepted, when a target is declared out of range,
//! and when an iteration ceiling ends a search that would otherwise not
//! terminate.  Pitch angles travel through the machines as their 64-bit
//! encodings, so a returned root is bit-for-bit an angle the caller evaluated.
//!
//! Around the core stand the ammunition table ([`ammo`]) and the two input
//! sanitizers ([`input`]) that reduce free-form text to a numeric prefix.

pub mod ammo;
pub mod critical;
pub mod input;
pub mod residual;
pub mod solver;
pub mod text;

pub use input::verify_positive_integer_input;
pub use input::verify_signed_float_input;

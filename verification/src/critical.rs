//! The critical-point search.
//!
//! The stationary pitch of the trajectory equation separates the direct and
//! indirect solution branches and is also the angle of maximum range.  It is
//! the zero of the auxiliary equation
//! `gravity * range * sin(a) + drag * velocity * range - velocity^2 * cos(a)`,
//! found by false position between the two asymptotic seeds
//! `atan2(gravity * range, velocity^2)` and
//! `atan2(gravity * range, -velocity^2)`, which bracket it by construction.
//!
//! The caller owns the floating-point work.  Each round it reads the current
//! bracket from [`CriticalSearch::query`], evaluates the auxiliary function
//! at both endpoints, forms the false-position candidate
//! `c = b - f(b) * (b - a) / (f(b) - f(a))`, and reports the candidate with
//! the observed signs through [`CriticalSearch::step`]; the machine decides
//! which endpoint the candidate replaces, when it converged, and when the
//! iteration ceiling ends the search.  Angles travel as their 64-bit
//! encodings and are never interpreted here.

use vstd::prelude::*;
use crate::residual::ResidualClass;
use crate::residual::Sgn;
use crate::residual::same_sign;
use crate::residual::same_sign_exec;

verus! {

/// The iteration ceiling of the false-position loop.  The bracket spans
/// less than a half turn and false position converges far faster than one
/// digit per round; a search that is still open after this many rounds is
/// reported exhausted instead of looping on.
pub const CRIT_CAP: u32 = 128;

/// How a finished critical-point search ended.
#[derive(Clone, Copy, PartialEq, Eq, Structural, Debug)]
pub enum CritOutcome {
    /// The auxiliary function's magnitude at `pitch` is within the
    /// convergence tolerance; `pitch` is the critical pitch's encoding.
    Converged { pitch: u64 },
    /// The iteration ceiling passed without convergence.
    Exhausted,
    /// An evaluation came back non-finite: the geometric assumptions are
    /// broken and no answer would be trustworthy.
    Fault,
}

/// What the caller must evaluate next: the auxiliary function's sign at
/// `end_a`, and its classified value at the false-position candidate drawn
/// from the bracket `[end_a, end_b]`.
#[derive(Clone, Copy, PartialEq, Eq, Structural, Debug)]
pub struct CritQuery {
    pub end_a: u64,
    pub end_b: u64,
}

/// One round of observations: the candidate's encoding, the sign at
/// `end_a`, and the candidate's value classified against the convergence
/// tolerance.
#[derive(Clone, Copy, PartialEq, Eq, Structural, Debug)]
pub struct CritAnswer {
    pub candidate: u64,
    pub at_end_a: Sgn,
    pub at_candidate: ResidualClass,
}

/// The false-position search for the critical pitch.
///
/// `end_a` and `end_b` are the bracket endpoints' encodings; `iters` counts
/// the rounds taken; `outcome` is set exactly when the search is finished.
pub struct CriticalSearch {
    pub end_a: u64,
    pub end_b: u64,
    pub iters: u32,
    pub outcome: Option<CritOutcome>,
}

impl CriticalSearch {
    /// The search's bookkeeping is sound: the round counter never passes
    /// the ceiling.
    pub open spec fn wf(self) -> bool {
        self.iters <= CRIT_CAP
    }

    /// Whether the search is finished.
    pub open spec fn done(self) -> bool {
        self.outcome is Some
    }

    /// How the search moves under one round of observations.
    ///
    /// A candidate within tolerance converges the search.  A non-finite
    /// observation, at the candidate or at `end_a`, is a fault.  Otherwise
    /// the candidate replaces the endpoint whose sign it shares: `end_a`
    /// when the signs match, `end_b` when they do not, exactly the
    /// false-position update; the round counter grows by one, and a search
    /// at the ceiling is exhausted instead.
    pub open spec fn step_spec(self, ans: CritAnswer) -> CriticalSearch {
        if ans.at_candidate is Small {
            CriticalSearch { outcome: Some(CritOutcome::Converged { pitch: ans.candidate }), ..self }
        } else if ans.at_candidate is NonFinite || ans.at_end_a is NonFinite {
            CriticalSearch { outcome: Some(CritOutcome::Fault), ..self }
        } else if self.iters >= CRIT_CAP {
            CriticalSearch { outcome: Some(CritOutcome::Exhausted), ..self }
        } else if same_sign(ans.at_candidate, ans.at_end_a) {
            CriticalSearch { end_a: ans.candidate, iters: (self.iters + 1) as u32, ..self }
        } else {
            CriticalSearch { end_b: ans.candidate, iters: (self.iters + 1) as u32, ..self }
        }
    }

    /// The rounds a search can still take before it must finish.
    pub open spec fn measure(self) -> nat {
        if self.done() {
            0
        } else {
            (CRIT_CAP - self.iters + 1) as nat
        }
    }

    /// Opens a search on the bracket `[end_a, end_b]`, the two asymptotic
    /// seed angles' encodings.
    pub fn new(end_a: u64, end_b: u64) -> (s: CriticalSearch)
        ensures
            s.wf(),
            !s.done(),
            s.end_a == end_a,
            s.end_b == end_b,
            s.iters == 0,
    {
        CriticalSearch { end_a, end_b, iters: 0, outcome: None }
    }

    /// The evaluations the caller owes, or nothing once the search is done.
    pub fn query(&self) -> (q: Option<CritQuery>)
        ensures
            q == (if self.done() {
                Option::<CritQuery>::None
            } else {
                Some(CritQuery { end_a: self.end_a, end_b: self.end_b })
            }),
    {
        match self.outcome {
            Some(_) => None,
            None => Some(CritQuery { end_a: self.end_a, end_b: self.end_b }),
        }
    }

    /// The search's result, once it is finished.
    pub fn result(&self) -> (r: Option<CritOutcome>)
        ensures
            r == self.outcome,
    {
        self.outcome
    }

    /// Takes one round of observations and moves as [`Self::step_spec`]
    /// says.
    pub fn step(&mut self, ans: CritAnswer)
        requires
            old(self).wf(),
            !old(self).done(),
        ensures
            final(self).wf(),
            *final(self) == old(self).step_spec(ans),
    {
        match ans.at_candidate {
            ResidualClass::Small => {
                self.outcome = Some(CritOutcome::Converged { pitch: ans.candidate });
            }
            ResidualClass::NonFinite => {
                self.outcome = Some(CritOutcome::Fault);
            }
            _ => {
                if matches!(ans.at_end_a, Sgn::NonFinite) {
                    self.outcome = Some(CritOutcome::Fault);
                } else if self.iters >= CRIT_CAP {
                    self.outcome = Some(CritOutcome::Exhausted);
                } else if same_sign_exec(ans.at_candidate, ans.at_end_a) {
                    self.end_a = ans.candidate;
                    self.iters = self.iters + 1;
                } else {
                    self.end_b = ans.candidate;
                    self.iters = self.iters + 1;
                }
            }
        }
    }

    /// Every round brings the search strictly nearer its end: a caller that
    /// answers queries until none is left terminates.
    pub proof fn lemma_step_decreases(self, ans: CritAnswer)
        requires
            self.wf(),
            !self.done(),
        ensures
            self.step_spec(ans).measure() < self.measure(),
    {
    }

    /// A fault arises only from a non-finite observation, at the candidate
    /// or at the bracket endpoint whose sign the update compares against.
    pub proof fn lemma_fault_only_on_nonfinite(self, ans: CritAnswer)
        requires
            self.wf(),
            !self.done(),
        ensures
            self.step_spec(ans).outcome == Some(CritOutcome::Fault) ==> (
            ans.at_candidate is NonFinite || ans.at_end_a is NonFinite),
    {
    }

    /// A search converges only on a candidate the caller reported within
    /// the convergence tolerance, and the pitch it returns is exactly that
    /// candidate's encoding.
    pub proof fn lemma_converged_is_observed_root(self, ans: CritAnswer)
        requires
            self.wf(),
            !self.done(),
        ensures
            forall|p: u64|
                self.step_spec(ans).outcome == Some(CritOutcome::Converged { pitch: p })
                    ==> ans.candidate == p && ans.at_candidate is Small,
    {
    }
}

} // verus!

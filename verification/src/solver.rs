//! The dual root search: one firing angle on each side of the critical pitch.
//!
//! The search opens on a critical pitch already found (see [`crate::critical`])
//! and runs in three stages.  First the reachability test: the residual at the
//! critical pitch, the equation's maximum, decides whether the target can be
//! hit at all, or is grazed tangentially by the critical pitch itself.  Then,
//! once per branch, a bracket walk: a probe starts a quarter turn beyond the
//! critical side of the branch and walks back in fixed steps until the
//! residual turns negative, which brackets a root between the probe and the
//! critical pitch.  Last, a secant refinement inside that bracket accepts a
//! candidate once its residual's magnitude is within the convergence
//! tolerance.  The low branch yields the direct (flat) root, the high branch
//! the indirect (lobbed) root.
//!
//! The caller owns every floating-point evaluation: the machine hands it a
//! [`Query`] naming the pitch encodings to evaluate, receives an [`Answer`]
//! with the observed signs, and takes every decision itself.  A walk whose
//! probes never leave the equation's invalid domain, or a refinement that
//! never converges, ends at an iteration ceiling with the branch reported
//! lost, an extension of "out of range" rather than a hang.

use vstd::prelude::*;
use crate::residual::ResidualClass;
use crate::residual::Sgn;
use crate::residual::same_sign;
use crate::residual::same_sign_exec;

verus! {

/// The ceiling on bracket-walk steps per branch.  A walk moves a tenth of a
/// degree per step, so this allows more than a full turn before the branch
/// is declared lost.
pub const WALK_CAP: u32 = 4000;

/// The ceiling on secant rounds per branch.  When the far endpoint of the
/// bracket sticks — and against this equation's logarithmic wall it usually
/// does — the refinement crawls one-sidedly and a root can honestly take
/// hundreds of thousands of rounds, so the ceiling is generous; a branch
/// still open after this many rounds is declared lost rather than left
/// looping on floating-point dust.
pub const SEC_CAP: u32 = 10_000_000;

/// The two solution branches on either side of the critical pitch.
#[derive(Clone, Copy, PartialEq, Eq, Structural, Debug)]
pub enum Branch {
    /// The flat arc below the critical pitch: the direct shot.
    Low,
    /// The lobbed arc above the critical pitch: the indirect shot.
    High,
}

/// The direction a branch's probe walks in, one fixed step at a time.
#[derive(Clone, Copy, PartialEq, Eq, Structural, Debug)]
pub enum StepDir {
    /// Toward greater pitch: the low branch walks up from a quarter turn
    /// below.
    TowardPositive,
    /// Toward lesser pitch: the high branch walks down from a quarter turn
    /// above.
    TowardNegative,
}

/// The walk direction of each branch: both walk back toward the critical
/// pitch from their side's far end.
pub open spec fn walk_dir(branch: Branch) -> StepDir {
    if branch is Low {
        StepDir::TowardPositive
    } else {
        StepDir::TowardNegative
    }
}

/// How one branch of the search ended.
#[derive(Clone, Copy, PartialEq, Eq, Structural, Debug)]
pub enum BranchResult {
    /// `pitch` encodes an angle whose residual the caller observed within
    /// the convergence tolerance: a firing solution.
    Found { pitch: u64 },
    /// The branch's walk or refinement hit its ceiling without a root; the
    /// branch counts as out of range.
    Lost,
}

/// How a finished search ended.
#[derive(Clone, Copy, PartialEq, Eq, Structural, Debug)]
pub enum Outcome {
    /// The residual at the critical pitch is negative or undefined: no
    /// pitch reaches the target.
    Unreachable,
    /// The residual at the critical pitch is within the tangent tolerance:
    /// the critical pitch itself is the single grazing solution, and stands
    /// as both the direct and the indirect root.
    Tangent,
    /// Both branches were searched; each either found its root or was lost.
    Roots { direct: BranchResult, indirect: BranchResult },
    /// A secant round saw a residual that matched neither bracket
    /// endpoint's sign, which only a non-finite evaluation inside an
    /// established bracket can produce: the search's assumptions are broken
    /// and no answer would be trustworthy.
    Fault,
}

/// Where the search stands and what it is waiting to observe.
#[derive(Clone, Copy, PartialEq, Eq, Structural, Debug)]
pub enum Phase {
    /// Awaiting the classified residual at the critical pitch.
    Reach,
    /// Awaiting the branch's initial probe angle, a quarter turn beyond the
    /// branch's side of a near-horizontal bias.
    Probe { branch: Branch },
    /// Awaiting the residual's sign at the probe.
    Walk { branch: Branch, probe: u64, steps: u32 },
    /// Awaiting the probe moved one walk step onward.
    Stepping { branch: Branch, probe: u64, steps: u32 },
    /// Awaiting a secant round on the bracket `[pos_end, neg_end]`, whose
    /// residuals have opposite signs.
    Refine { branch: Branch, pos_end: u64, neg_end: u64, iters: u32 },
    /// The search is finished and its outcome recorded.
    Done,
}

/// What the caller must evaluate next.
///
/// Pitches are named by their 64-bit encodings.  `ResidualAtCritical` asks
/// for the residual at the critical pitch classified against the tangent
/// tolerance, with a strictly negative value reported `Negative` even
/// within it.  `ResidualSign` asks for the strict sign of the residual at a
/// probe, `Negative` exactly when it is finite and below zero.  `ProbeSeed`
/// and `ProbeStep` ask for angle arithmetic only: the branch's starting
/// probe, and a probe moved one fixed step.  `SecantStep` asks for a full
/// secant round on the bracket: the candidate
/// `c = neg_end - f(neg_end) * (neg_end - pos_end) / (f(neg_end) - f(pos_end))`,
/// the residual signs at both endpoints, and the candidate's residual
/// classified against the convergence tolerance.
#[derive(Clone, Copy, PartialEq, Eq, Structural, Debug)]
pub enum Query {
    ResidualAtCritical { pitch: u64 },
    ProbeSeed { branch: Branch },
    ResidualSign { pitch: u64 },
    ProbeStep { from: u64, dir: StepDir },
    SecantStep { pos_end: u64, neg_end: u64 },
}

/// The caller's observations, shaped to the query that asked for them.
#[derive(Clone, Copy, PartialEq, Eq, Structural, Debug)]
pub enum Answer {
    /// Answers `ResidualAtCritical`.
    Class { class: ResidualClass },
    /// Answers `ProbeSeed` and `ProbeStep` with an angle's encoding.
    Bits { bits: u64 },
    /// Answers `ResidualSign`.
    Sign { sign: Sgn },
    /// Answers `SecantStep`.
    Secant { candidate: u64, at_pos_end: Sgn, at_neg_end: Sgn, at_candidate: ResidualClass },
}

/// Whether an answer has the shape the phase's query asked for.
pub open spec fn answer_fits(phase: Phase, ans: Answer) -> bool {
    match phase {
        Phase::Reach => ans is Class,
        Phase::Probe { .. } => ans is Bits,
        Phase::Walk { .. } => ans is Sign,
        Phase::Stepping { .. } => ans is Bits,
        Phase::Refine { .. } => ans is Secant,
        Phase::Done => false,
    }
}

/// The dual root search.
///
/// `critical` is the critical pitch's encoding; `direct` holds the low
/// branch's result once that branch has ended; `outcome` is set exactly
/// when the search is finished.
pub struct AngleSearch {
    pub critical: u64,
    pub phase: Phase,
    pub direct: Option<BranchResult>,
    pub outcome: Option<Outcome>,
}

impl AngleSearch {
    /// The search's bookkeeping is sound: counters stay within their
    /// ceilings, the low branch's result is recorded exactly from the point
    /// the high branch starts, and an outcome is recorded exactly when the
    /// search is done.
    pub open spec fn wf(self) -> bool {
        &&& match self.phase {
            Phase::Reach => self.direct is None,
            Phase::Probe { branch } => self.branch_wf(branch),
            Phase::Walk { branch, steps, .. } => steps <= WALK_CAP && self.branch_wf(branch),
            Phase::Stepping { branch, steps, .. } => steps < WALK_CAP && self.branch_wf(branch),
            Phase::Refine { branch, iters, .. } => iters <= SEC_CAP && self.branch_wf(branch),
            Phase::Done => true,
        }
        &&& (self.outcome is Some <==> self.phase is Done)
    }

    /// While a branch is being searched, the low branch's slot is filled
    /// exactly when that branch is the high one.
    pub open spec fn branch_wf(self, branch: Branch) -> bool {
        self.direct is Some <==> branch is High
    }

    /// Whether the search is finished.
    pub open spec fn done(self) -> bool {
        self.outcome is Some
    }

    /// The machine that records `res` as the end of `branch`: a finished
    /// low branch opens the high branch's probe; a finished high branch
    /// finishes the search with both branches' results.
    pub open spec fn finish_branch_spec(self, branch: Branch, res: BranchResult) -> AngleSearch {
        match branch {
            Branch::Low => AngleSearch {
                phase: Phase::Probe { branch: Branch::High },
                direct: Some(res),
                ..self
            },
            Branch::High => AngleSearch {
                phase: Phase::Done,
                outcome: Some(Outcome::Roots { direct: self.direct->0, indirect: res }),
                ..self
            },
        }
    }

    /// The machine finished with outcome `o`.
    pub open spec fn finish_spec(self, o: Outcome) -> AngleSearch {
        AngleSearch { phase: Phase::Done, outcome: Some(o), ..self }
    }

    /// How the search moves under one observation.
    ///
    /// At `Reach`: a negative residual at the critical pitch, the
    /// equation's maximum, means no pitch reaches the target; one within
    /// the tangent tolerance makes the critical pitch the single grazing
    /// solution; an undefined one means even the best pitch leaves the
    /// domain, an extension of out of range; otherwise the low branch
    /// opens.
    ///
    /// In a walk: a negative residual closes the bracket
    /// `[critical, probe]` and refinement begins; any other observation
    /// walks the probe one step onward, stepping past probes outside the
    /// domain, until the step ceiling declares the branch lost.
    ///
    /// In a refinement round: a candidate within the convergence tolerance
    /// is the branch's root; otherwise the candidate replaces the bracket
    /// endpoint whose residual sign it shares, preferring `pos_end` when
    /// both match; a candidate matching neither endpoint is a fault, and
    /// the round ceiling declares the branch lost.
    pub open spec fn step_spec(self, ans: Answer) -> AngleSearch {
        match (self.phase, ans) {
            (Phase::Reach, Answer::Class { class }) => match class {
                ResidualClass::Negative => self.finish_spec(Outcome::Unreachable),
                ResidualClass::Small => self.finish_spec(Outcome::Tangent),
                ResidualClass::Positive => AngleSearch {
                    phase: Phase::Probe { branch: Branch::Low },
                    ..self
                },
                ResidualClass::NonFinite => self.finish_spec(Outcome::Unreachable),
            },
            (Phase::Probe { branch }, Answer::Bits { bits }) => AngleSearch {
                phase: Phase::Walk { branch, probe: bits, steps: 0 },
                ..self
            },
            (Phase::Walk { branch, probe, steps }, Answer::Sign { sign }) => {
                if sign is Negative {
                    AngleSearch {
                        phase: Phase::Refine {
                            branch,
                            pos_end: self.critical,
                            neg_end: probe,
                            iters: 0,
                        },
                        ..self
                    }
                } else if steps < WALK_CAP {
                    AngleSearch { phase: Phase::Stepping { branch, probe, steps }, ..self }
                } else {
                    self.finish_branch_spec(branch, BranchResult::Lost)
                }
            },
            (Phase::Stepping { branch, probe, steps }, Answer::Bits { bits }) => AngleSearch {
                phase: Phase::Walk { branch, probe: bits, steps: (steps + 1) as u32 },
                ..self
            },
            (
                Phase::Refine { branch, pos_end, neg_end, iters },
                Answer::Secant { candidate, at_pos_end, at_neg_end, at_candidate },
            ) => {
                if at_candidate is Small {
                    self.finish_branch_spec(branch, BranchResult::Found { pitch: candidate })
                } else if at_candidate is NonFinite {
                    self.finish_spec(Outcome::Fault)
                } else if iters >= SEC_CAP {
                    self.finish_branch_spec(branch, BranchResult::Lost)
                } else if same_sign(at_candidate, at_pos_end) {
                    AngleSearch {
                        phase: Phase::Refine {
                            branch,
                            pos_end: candidate,
                            neg_end,
                            iters: (iters + 1) as u32,
                        },
                        ..self
                    }
                } else if same_sign(at_candidate, at_neg_end) {
                    AngleSearch {
                        phase: Phase::Refine {
                            branch,
                            pos_end,
                            neg_end: candidate,
                            iters: (iters + 1) as u32,
                        },
                        ..self
                    }
                } else {
                    self.finish_spec(Outcome::Fault)
                }
            },
            _ => self,
        }
    }

    /// The full budget of one branch, from its probe seed on.
    pub open spec fn branch_budget() -> nat {
        2 * (WALK_CAP as nat) + (SEC_CAP as nat) + 4
    }

    /// The budget still ahead of the current branch: the low branch carries
    /// the whole high branch's budget too.
    pub open spec fn branch_offset(branch: Branch) -> nat {
        if branch is Low {
            Self::branch_budget() + 1
        } else {
            0
        }
    }

    /// How many observations the search can still take before it must
    /// finish.
    pub open spec fn measure(self) -> nat {
        match self.phase {
            Phase::Done => 0,
            Phase::Reach => 2 * Self::branch_budget() + 3,
            Phase::Probe { branch } => Self::branch_budget() + Self::branch_offset(branch),
            Phase::Walk { branch, steps, .. } => 2 * ((WALK_CAP - steps) as nat) + (SEC_CAP as nat)
                + 3 + Self::branch_offset(branch),
            Phase::Stepping { branch, steps, .. } => 2 * ((WALK_CAP - steps) as nat) + (
            SEC_CAP as nat) + 2 + Self::branch_offset(branch),
            Phase::Refine { branch, iters, .. } => ((SEC_CAP - iters) as nat) + 1
                + Self::branch_offset(branch),
        }
    }

    /// Opens a search for the two roots around `critical`, the critical
    /// pitch's encoding.
    pub fn new(critical: u64) -> (s: AngleSearch)
        ensures
            s.wf(),
            !s.done(),
            s.critical == critical,
            s.phase == Phase::Reach,
            s.direct is None,
    {
        AngleSearch { critical, phase: Phase::Reach, direct: None, outcome: None }
    }

    /// The evaluation the caller owes, or nothing once the search is done.
    pub fn query(&self) -> (q: Option<Query>)
        ensures
            q == self.query_spec(),
    {
        match self.phase {
            Phase::Reach => Some(Query::ResidualAtCritical { pitch: self.critical }),
            Phase::Probe { branch } => Some(Query::ProbeSeed { branch }),
            Phase::Walk { probe, .. } => Some(Query::ResidualSign { pitch: probe }),
            Phase::Stepping { branch, probe, .. } => Some(
                Query::ProbeStep { from: probe, dir: walk_dir_exec(branch) },
            ),
            Phase::Refine { pos_end, neg_end, .. } => Some(
                Query::SecantStep { pos_end, neg_end },
            ),
            Phase::Done => None,
        }
    }

    /// The query each phase stands for.
    pub open spec fn query_spec(self) -> Option<Query> {
        match self.phase {
            Phase::Reach => Some(Query::ResidualAtCritical { pitch: self.critical }),
            Phase::Probe { branch } => Some(Query::ProbeSeed { branch }),
            Phase::Walk { probe, .. } => Some(Query::ResidualSign { pitch: probe }),
            Phase::Stepping { branch, probe, .. } => Some(
                Query::ProbeStep { from: probe, dir: walk_dir(branch) },
            ),
            Phase::Refine { pos_end, neg_end, .. } => Some(
                Query::SecantStep { pos_end, neg_end },
            ),
            Phase::Done => None,
        }
    }

    /// The search's outcome, once it is finished.
    pub fn result(&self) -> (r: Option<Outcome>)
        ensures
            r == self.outcome,
    {
        self.outcome
    }

    /// Takes one observation and moves as [`Self::step_spec`] says.
    pub fn step(&mut self, ans: Answer)
        requires
            old(self).wf(),
            answer_fits(old(self).phase, ans),
        ensures
            final(self).wf(),
            *final(self) == old(self).step_spec(ans),
    {
        match (self.phase, ans) {
            (Phase::Reach, Answer::Class { class }) => match class {
                ResidualClass::Negative => self.finish(Outcome::Unreachable),
                ResidualClass::Small => self.finish(Outcome::Tangent),
                ResidualClass::Positive => {
                    self.phase = Phase::Probe { branch: Branch::Low };
                },
                ResidualClass::NonFinite => self.finish(Outcome::Unreachable),
            },
            (Phase::Probe { branch }, Answer::Bits { bits }) => {
                self.phase = Phase::Walk { branch, probe: bits, steps: 0 };
            },
            (Phase::Walk { branch, probe, steps }, Answer::Sign { sign }) => {
                if matches!(sign, Sgn::Negative) {
                    self.phase = Phase::Refine {
                        branch,
                        pos_end: self.critical,
                        neg_end: probe,
                        iters: 0,
                    };
                } else if steps < WALK_CAP {
                    self.phase = Phase::Stepping { branch, probe, steps };
                } else {
                    self.finish_branch(branch, BranchResult::Lost);
                }
            },
            (Phase::Stepping { branch, probe, steps }, Answer::Bits { bits }) => {
                self.phase = Phase::Walk { branch, probe: bits, steps: steps + 1 };
            },
            (
                Phase::Refine { branch, pos_end, neg_end, iters },
                Answer::Secant { candidate, at_pos_end, at_neg_end, at_candidate },
            ) => {
                if matches!(at_candidate, ResidualClass::Small) {
                    self.finish_branch(branch, BranchResult::Found { pitch: candidate });
                } else if matches!(at_candidate, ResidualClass::NonFinite) {
                    self.finish(Outcome::Fault);
                } else if iters >= SEC_CAP {
                    self.finish_branch(branch, BranchResult::Lost);
                } else if same_sign_exec(at_candidate, at_pos_end) {
                    self.phase = Phase::Refine {
                        branch,
                        pos_end: candidate,
                        neg_end,
                        iters: iters + 1,
                    };
                } else if same_sign_exec(at_candidate, at_neg_end) {
                    self.phase = Phase::Refine {
                        branch,
                        pos_end,
                        neg_end: candidate,
                        iters: iters + 1,
                    };
                } else {
                    self.finish(Outcome::Fault);
                }
            },
            _ => {},
        }
    }

    /// Records `res` as the end of `branch` and moves on.
    fn finish_branch(&mut self, branch: Branch, res: BranchResult)
        requires
            old(self).wf(),
            !old(self).done(),
            old(self).branch_wf(branch),
        ensures
            *final(self) == old(self).finish_branch_spec(branch, res),
    {
        match branch {
            Branch::Low => {
                self.direct = Some(res);
                self.phase = Phase::Probe { branch: Branch::High };
            },
            Branch::High => {
                let direct = self.direct.unwrap();
                self.outcome = Some(Outcome::Roots { direct, indirect: res });
                self.phase = Phase::Done;
            },
        }
    }

    /// Finishes the search with outcome `o`.
    fn finish(&mut self, o: Outcome)
        requires
            !old(self).done(),
        ensures
            *final(self) == old(self).finish_spec(o),
    {
        self.outcome = Some(o);
        self.phase = Phase::Done;
    }

    /// Every observation brings the search strictly nearer its end: a
    /// caller that answers queries until none is left terminates, whatever
    /// it observes.
    pub proof fn lemma_step_decreases(self, ans: Answer)
        requires
            self.wf(),
            answer_fits(self.phase, ans),
        ensures
            self.step_spec(ans).measure() < self.measure(),
    {
    }

    /// A branch's root is accepted only from a secant round whose candidate
    /// the caller observed within the convergence tolerance, and the pitch
    /// recorded is bit-for-bit that candidate.  This holds of the direct
    /// root's slot the moment it is filled, and of the indirect root when
    /// the search finishes.
    pub proof fn lemma_found_root_was_converged(self, ans: Answer)
        requires
            self.wf(),
            answer_fits(self.phase, ans),
        ensures
            self.direct is None ==> (self.step_spec(ans).direct matches Some(
                BranchResult::Found { pitch },
            ) ==> (ans matches Answer::Secant { candidate, at_candidate, .. } && candidate == pitch
                && at_candidate is Small)),
            self.step_spec(ans).outcome matches Some(
                Outcome::Roots { direct: _, indirect: BranchResult::Found { pitch } },
            ) ==> (ans matches Answer::Secant { candidate, at_candidate, .. } && candidate == pitch
                && at_candidate is Small),
    {
    }

    /// No observation moves the critical pitch: the encoding the search
    /// was opened on is the one every query names and the one a tangent
    /// outcome stands for.
    pub proof fn lemma_critical_is_pinned(self, ans: Answer)
        ensures
            self.step_spec(ans).critical == self.critical,
    {
    }

    /// The search declares the target unreachable only from the
    /// reachability test, on a residual at the critical pitch observed
    /// negative or outside the equation's domain — never from a walk or a
    /// refinement, whose dead ends cost only their own branch.
    pub proof fn lemma_unreachable_only_at_reachability(self, ans: Answer)
        requires
            self.wf(),
            answer_fits(self.phase, ans),
        ensures
            self.step_spec(ans).outcome == Some(Outcome::Unreachable) ==> self.phase is Reach
                && (ans == (Answer::Class { class: ResidualClass::Negative }) || ans == (
            Answer::Class { class: ResidualClass::NonFinite })),
    {
    }

    /// A fault arises only inside a refinement round, and only on an
    /// observation that breaks the bracket's assumptions: a candidate's
    /// residual outside the domain, or one whose definite sign matches
    /// neither endpoint.  Every other dead end costs a branch or the
    /// target, never the search's soundness.
    pub proof fn lemma_fault_only_on_broken_bracket(self, ans: Answer)
        requires
            self.wf(),
            answer_fits(self.phase, ans),
        ensures
            self.step_spec(ans).outcome == Some(Outcome::Fault) ==> (self.phase is Refine
                && (ans matches Answer::Secant { at_pos_end, at_neg_end, at_candidate, .. }
                && (at_candidate is NonFinite || (!same_sign(at_candidate, at_pos_end)
                && !same_sign(at_candidate, at_neg_end))))),
    {
    }

    /// The tangent outcome comes only from the reachability test, on a
    /// residual at the critical pitch observed within the tangent
    /// tolerance; the critical pitch then stands as both roots.
    pub proof fn lemma_tangent_only_at_reachability(self, ans: Answer)
        requires
            self.wf(),
            answer_fits(self.phase, ans),
        ensures
            self.step_spec(ans).outcome == Some(Outcome::Tangent) ==> self.phase is Reach && ans
                == (Answer::Class { class: ResidualClass::Small }),
    {
    }
}

/// Executable form of [`walk_dir`].
pub fn walk_dir_exec(branch: Branch) -> (d: StepDir)
    ensures
        d == walk_dir(branch),
{
    match branch {
        Branch::Low => StepDir::TowardPositive,
        Branch::High => StepDir::TowardNegative,
    }
}

} // verus!

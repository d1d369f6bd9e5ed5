//! Six-position calibration: how long the fit may run, and when it has failed.
//!
//! The fit refines a per-axis gain and bias from six gravity samples, one step
//! at a time, and says after each step whether it has converged. The steps are
//! the caller's; [`Solve`] counts them and gives the verdict.

use vstd::prelude::*;

verus! {

/// Orientations in which the vehicle is held still, one sample each.
pub const POSITIONS: usize = 6;

/// Sensor reads that are averaged into the sample of one orientation.
pub const READS_PER_POSITION: u32 = 100;

/// Steps after which a fit that has not converged has failed.
pub const MAX_ITERATIONS: u32 = 50;

/// Why a calibration produced no model.
#[derive(Clone, Copy, Debug, PartialEq, Eq, Structural)]
pub enum CalibrationError {
    /// The fit ran for [`MAX_ITERATIONS`] steps and none of them converged.
    DidNotConverge,
}

/// Where a fit stands.
#[derive(Clone, Copy, Debug, PartialEq, Eq, Structural)]
pub enum Verdict {
    /// No step has converged and the ceiling is not reached: step again.
    Undecided,
    /// The step numbered `iterations`, counting from one, converged: the
    /// fit's model is valid.
    Converged { iterations: u32 },
    /// The fit has failed; there is no model.
    Failed(CalibrationError),
}

/// Step `i`, counting from zero, is the first to converge, and it comes
/// before the ceiling.
pub open spec fn converges_at(signals: Seq<bool>, i: int) -> bool {
    &&& 0 <= i < signals.len()
    &&& i < MAX_ITERATIONS
    &&& signals[i]
    &&& forall|j: int| 0 <= j < i ==> !signals[j]
}

/// The verdict on a fit whose steps gave `signals`, in order: converged at
/// the first step that said so, if that was among the first
/// [`MAX_ITERATIONS`]; failed once that many steps have passed without one;
/// undecided until then.
pub open spec fn verdict_of(signals: Seq<bool>) -> Verdict {
    if exists|i: int| converges_at(signals, i) {
        Verdict::Converged { iterations: ((choose|i: int| converges_at(signals, i)) + 1) as u32 }
    } else if signals.len() >= MAX_ITERATIONS {
        Verdict::Failed(CalibrationError::DidNotConverge)
    } else {
        Verdict::Undecided
    }
}

/// A fit converges at one step at most.
pub proof fn lemma_converges_once(signals: Seq<bool>, i: int, k: int)
    requires
        converges_at(signals, i),
        converges_at(signals, k),
    ensures
        i == k,
{
    if i < k {
        assert(!signals[i]);
    } else if k < i {
        assert(!signals[k]);
    }
}

/// A fit whose step `i` is the first to converge, `i` below the ceiling, has
/// converged after `i + 1` iterations, whatever the later steps say. With
/// `i == 0`: a fit that converges at once is accepted on iteration 1.
pub proof fn lemma_first_convergence_decides(signals: Seq<bool>, i: int)
    requires
        converges_at(signals, i),
    ensures
        verdict_of(signals) == (Verdict::Converged { iterations: (i + 1) as u32 }),
        1 <= i + 1 <= MAX_ITERATIONS,
{
    let k = choose|k: int| converges_at(signals, k);
    lemma_converges_once(signals, i, k);
}

/// A fit none of whose steps converges is undecided for
/// `MAX_ITERATIONS - 1` steps and has failed from step [`MAX_ITERATIONS`] on.
pub proof fn lemma_no_convergence_fails_at_ceiling(signals: Seq<bool>)
    requires
        forall|i: int| 0 <= i < signals.len() ==> !signals[i],
    ensures
        signals.len() < MAX_ITERATIONS ==> verdict_of(signals) == Verdict::Undecided,
        signals.len() >= MAX_ITERATIONS ==> verdict_of(signals) == Verdict::Failed(
            CalibrationError::DidNotConverge,
        ),
{
    assert forall|i: int| !converges_at(signals, i) by {
        if 0 <= i < signals.len() {
            assert(!signals[i]);
        }
    }
}

/// A verdict, once reached, stands: further steps do not change it.
pub proof fn lemma_verdict_is_final(signals: Seq<bool>, next: bool)
    requires
        verdict_of(signals) != Verdict::Undecided,
    ensures
        verdict_of(signals.push(next)) == verdict_of(signals),
{
    let longer = signals.push(next);
    if exists|i: int| converges_at(signals, i) {
        let i = choose|i: int| converges_at(signals, i);
        assert(converges_at(longer, i)) by {
            assert(longer[i] == signals[i]);
            assert forall|j: int| 0 <= j < i implies !longer[j] by {
                assert(longer[j] == signals[j]);
            }
        }
        lemma_first_convergence_decides(longer, i);
    } else {
        assert forall|i: int| !converges_at(longer, i) by {
            if converges_at(longer, i) {
                assert(longer[i] == signals[i]);
                assert forall|j: int| 0 <= j < i implies !signals[j] by {
                    assert(longer[j] == signals[j]);
                }
                assert(converges_at(signals, i));
            }
        }
    }
}

/// The verdict after one more step of a fit that was undecided.
proof fn lemma_verdict_after_step(signals: Seq<bool>, next: bool)
    requires
        signals.len() < MAX_ITERATIONS,
        forall|i: int| 0 <= i < signals.len() ==> !signals[i],
    ensures
        next ==> verdict_of(signals.push(next)) == (Verdict::Converged {
            iterations: (signals.len() + 1) as u32,
        }),
        !next && signals.len() + 1 < MAX_ITERATIONS ==> verdict_of(signals.push(next))
            == Verdict::Undecided,
        !next && signals.len() + 1 >= MAX_ITERATIONS ==> verdict_of(signals.push(next))
            == Verdict::Failed(CalibrationError::DidNotConverge),
{
    let longer = signals.push(next);
    if next {
        assert(converges_at(longer, signals.len() as int)) by {
            assert forall|j: int| 0 <= j < signals.len() implies !longer[j] by {
                assert(longer[j] == signals[j]);
            }
        }
        lemma_first_convergence_decides(longer, signals.len() as int);
    } else {
        assert forall|i: int| 0 <= i < longer.len() implies !longer[i] by {
            if i < signals.len() {
                assert(longer[i] == signals[i]);
            }
        }
        lemma_no_convergence_fails_at_ceiling(longer);
    }
}

/// One run of the fit: the signals of its steps so far, and the verdict on
/// them.
pub struct Solve {
    steps: u32,
    verdict: Verdict,
    signals: Ghost<Seq<bool>>,
}

impl View for Solve {
    type V = Seq<bool>;

    closed spec fn view(&self) -> Seq<bool> {
        self.signals@
    }
}

impl Solve {
    #[verifier::type_invariant]
    spec fn type_inv(self) -> bool {
        &&& self.verdict == verdict_of(self.signals@)
        &&& self.verdict == Verdict::Undecided ==> {
            &&& self.steps == self.signals@.len()
            &&& self.steps < MAX_ITERATIONS
            &&& forall|i: int| 0 <= i < self.signals@.len() ==> !self.signals@[i]
        }
    }

    /// A fit that has taken no step.
    pub fn new() -> (run: Solve)
        ensures
            run@ == Seq::<bool>::empty(),
    {
        proof {
            lemma_no_convergence_fails_at_ceiling(Seq::<bool>::empty());
        }
        Solve { steps: 0, verdict: Verdict::Undecided, signals: Ghost(Seq::empty()) }
    }

    /// The verdict on the steps so far.
    pub fn verdict(&self) -> (v: Verdict)
        ensures
            v == verdict_of(self@),
    {
        proof {
            use_type_invariant(self);
        }
        self.verdict
    }

    /// Takes the signal of one more step and gives the verdict on all steps
    /// so far. While that is `Undecided`, the fit is to be stepped
    /// once more.
    pub fn record(&mut self, converged: bool) -> (v: Verdict)
        ensures
            final(self)@ == old(self)@.push(converged),
            v == verdict_of(final(self)@),
    {
        proof {
            use_type_invariant(&*self);
        }
        let ghost before = self.signals@;
        match self.verdict {
            Verdict::Undecided => {
                proof {
                    lemma_verdict_after_step(before, converged);
                }
                let steps: u32 = self.steps + 1;
                let verdict = if converged {
                    Verdict::Converged { iterations: steps }
                } else if steps >= MAX_ITERATIONS {
                    Verdict::Failed(CalibrationError::DidNotConverge)
                } else {
                    Verdict::Undecided
                };
                proof {
                    if verdict == Verdict::Undecided {
                        assert forall|i: int| 0 <= i < before.push(converged).len() implies !before.push(
                            converged,
                        )[i] by {
                            if i < before.len() {
                                assert(before.push(converged)[i] == before[i]);
                            }
                        }
                    }
                }
                *self = Solve { steps, verdict, signals: Ghost(before.push(converged)) };
                verdict
            },
            decided => {
                proof {
                    lemma_verdict_is_final(before, converged);
                }
                *self = Solve { steps: self.steps, verdict: decided, signals: Ghost(before.push(converged)) };
                decided
            },
        }
    }
}

} // verus!

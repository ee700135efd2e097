//! Iteration budget shared by the Kepler-equation solvers.
//!
//! Every iterative kernel of the anomaly solvers (the Newton phases of the
//! elliptic and hyperbolic solves, the bracket expansion and the bisection
//! fallbacks) runs at most `max_iter` iterations and stops early when one
//! iteration reports convergence or a break condition. [`iterate`] owns that
//! counting; the numeric body of one iteration is the `step` closure.

use vstd::prelude::*;

verus! {

/// What one iteration of a solver loop decided.
#[derive(Debug)]
pub enum Step<S, R> {
    /// The iteration converged on `R`; the loop returns it.
    Done(R),
    /// The loop goes on from the new state.
    Continue(S),
    /// The loop breaks early with this state (for example a non-finite iterate).
    Halt(S),
}

/// How a bounded loop ended.
#[derive(Debug)]
pub enum Outcome<S, R> {
    /// One iteration reported convergence.
    Converged(R),
    /// One iteration broke out of the loop early.
    Halted(S),
    /// All `max_iter` iterations ran without convergence; the final state.
    Exhausted(S),
}

/// `states` are the states visited by a loop that started at `init`:
/// iteration `k` ran on `states[k]` and continued to `states[k + 1]`.
pub open spec fn is_run<S, R, F: Fn(u32, S) -> Step<S, R>>(step: F, init: S, states: Seq<S>) -> bool {
    &&& states.len() >= 1
    &&& states[0] == init
    &&& forall|k: int|
        0 <= k < states.len() - 1 ==> call_ensures(
            step,
            (k as u32, #[trigger] states[k]),
            Step::Continue(states[k + 1]),
        )
}

/// The outcome that a run of at most `max_iter` iterations of `step` from
/// `init` can end in.
pub open spec fn ends_in<S, R, F: Fn(u32, S) -> Step<S, R>>(
    step: F,
    max_iter: u32,
    init: S,
    out: Outcome<S, R>,
) -> bool {
    match out {
        Outcome::Converged(r) => exists|states: Seq<S>|
            #![trigger is_run(step, init, states)]
            is_run(step, init, states) && states.len() <= max_iter && call_ensures(
                step,
                ((states.len() - 1) as u32, states.last()),
                Step::Done(r),
            ),
        Outcome::Halted(s) => exists|states: Seq<S>|
            #![trigger is_run(step, init, states)]
            is_run(step, init, states) && states.len() <= max_iter && call_ensures(
                step,
                ((states.len() - 1) as u32, states.last()),
                Step::Halt(s),
            ),
        Outcome::Exhausted(s) => exists|states: Seq<S>|
            #![trigger is_run(step, init, states)]
            is_run(step, init, states) && states.len() == max_iter + 1 && states.last() == s,
    }
}

/// Runs `step` for iterations `0, 1, …, max_iter - 1`, stopping at the first
/// iteration that converges or halts.
///
/// The index handed to `step` is the iteration number, so a step can treat
/// its last iteration specially. `Exhausted` is only reported after exactly
/// `max_iter` iterations have continued.
pub fn iterate<S, R, F: Fn(u32, S) -> Step<S, R>>(max_iter: u32, init: S, step: F) -> (out: Outcome<S, R>)
    requires
        forall|i: u32, s: S| i < max_iter ==> call_requires(step, (i, s)),
    ensures
        ends_in(step, max_iter, init, out),
{
    let ghost states: Seq<S> = seq![init];
    let mut state = init;
    let mut i: u32 = 0;
    while i < max_iter
        invariant
            i <= max_iter,
            forall|j: u32, s: S| j < max_iter ==> call_requires(step, (j, s)),
            is_run(step, init, states),
            states.len() == i + 1,
            states.last() == state,
        decreases max_iter - i,
    {
        match step(i, state) {
            Step::Done(r) => {
                proof {
                    assert(is_run(step, init, states));
                }
                return Outcome::Converged(r);
            },
            Step::Halt(s) => {
                proof {
                    assert(is_run(step, init, states));
                }
                return Outcome::Halted(s);
            },
            Step::Continue(s) => {
                proof {
                    let next = states.push(s);
                    assert forall|k: int| 0 <= k < next.len() - 1 implies call_ensures(
                        step,
                        (k as u32, #[trigger] next[k]),
                        Step::Continue(next[k + 1]),
                    ) by {
                        if k < states.len() - 1 {
                            assert(next[k] == states[k]);
                            assert(next[k + 1] == states[k + 1]);
                        }
                    }
                    states = next;
                }
                state = s;
                i = i + 1;
            },
        }
    }
    proof {
        assert(is_run(step, init, states));
    }
    Outcome::Exhausted(state)
}

} // verus!

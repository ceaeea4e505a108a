//! Runs of step-by-step procedures: sequences of steps each of which follows from the one
//! before it.
use vstd::prelude::*;

verus! {

/// Whether the step behind place `i` of a sequence follows from the step at that place.
pub open spec fn linked<S>(follows: spec_fn(S, S) -> bool, steps: Seq<S>, i: int) -> bool {
    follows(steps[i], steps[i + 1])
}

/// Whether each step of a sequence follows from the one before it.
pub open spec fn is_run<S>(follows: spec_fn(S, S) -> bool, steps: Seq<S>) -> bool {
    forall|i: int| 0 <= i < steps.len() - 1 ==> #[trigger] linked(follows, steps, i)
}

/// Whether no step follows from one of a later phase.
pub open spec fn in_order<S>(follows: spec_fn(S, S) -> bool, phase: spec_fn(S) -> int) -> bool {
    forall|a: S, b: S| #[trigger] follows(a, b) ==> phase(a) <= phase(b)
}

/// Whether steps up to the phase `top` move on by at most one phase at a time.
pub open spec fn one_at_a_time<S>(
    follows: spec_fn(S, S) -> bool,
    phase: spec_fn(S) -> int,
    top: int,
) -> bool {
    forall|a: S, b: S| #[trigger] follows(a, b) && phase(b) <= top ==> phase(b) <= phase(a) + 1
}

/// Whether a step of phase `p` is followed by steps of later phases only.
pub open spec fn left_at_once<S>(
    follows: spec_fn(S, S) -> bool,
    phase: spec_fn(S) -> int,
    p: int,
) -> bool {
    forall|a: S, b: S| #[trigger] follows(a, b) && phase(a) == p ==> p < phase(b)
}

/// Whether what `kept` finds in a step is found in each step that follows, unless that one has
/// `ended` the procedure; and whether nothing follows a step that has.
pub open spec fn handed_on<S, T>(
    follows: spec_fn(S, S) -> bool,
    kept: spec_fn(S) -> Option<T>,
    ended: spec_fn(S) -> bool,
) -> bool {
    &&& forall|a: S, b: S| #[trigger] follows(a, b) ==> !ended(a)
    &&& forall|a: S, b: S| #[trigger]
        follows(a, b) && kept(a) is Some && !ended(b) ==> kept(b) == kept(a)
}

/// Phases never go back in a run.
pub proof fn lemma_in_order<S>(
    follows: spec_fn(S, S) -> bool,
    phase: spec_fn(S) -> int,
    steps: Seq<S>,
    i: int,
    j: int,
)
    requires
        is_run(follows, steps),
        in_order(follows, phase),
        0 <= i <= j < steps.len(),
    ensures
        phase(steps[i]) <= phase(steps[j]),
    decreases j - i,
{
    if i < j {
        lemma_in_order(follows, phase, steps, i, j - 1);
        assert(linked(follows, steps, j - 1));
        assert(follows(steps[j - 1], steps[j]));
    }
}

/// A phase that is left at once is not met again.
pub proof fn lemma_once<S>(
    follows: spec_fn(S, S) -> bool,
    phase: spec_fn(S) -> int,
    steps: Seq<S>,
    i: int,
    j: int,
)
    requires
        is_run(follows, steps),
        in_order(follows, phase),
        left_at_once(follows, phase, phase(steps[i])),
        0 <= i < j < steps.len(),
    ensures
        phase(steps[i]) < phase(steps[j]),
{
    assert(linked(follows, steps, i));
    assert(follows(steps[i], steps[i + 1]));
    lemma_in_order(follows, phase, steps, i + 1, j);
}

/// A run that comes to a phase has been through each phase between its first and that one.
pub proof fn lemma_passes<S>(
    follows: spec_fn(S, S) -> bool,
    phase: spec_fn(S) -> int,
    top: int,
    steps: Seq<S>,
    k: int,
    p: int,
) -> (i: int)
    requires
        is_run(follows, steps),
        in_order(follows, phase),
        one_at_a_time(follows, phase, top),
        0 <= k < steps.len(),
        phase(steps[0]) <= p <= phase(steps[k]) <= top,
    ensures
        0 <= i <= k,
        phase(steps[i]) == p,
    decreases k,
{
    if phase(steps[k]) == p {
        k
    } else {
        assert(linked(follows, steps, k - 1));
        assert(follows(steps[k - 1], steps[k]));
        lemma_passes(follows, phase, top, steps, k - 1, p)
    }
}

/// What is handed on from step to step is the same wherever it is found.
pub proof fn lemma_handed_on<S, T>(
    follows: spec_fn(S, S) -> bool,
    kept: spec_fn(S) -> Option<T>,
    ended: spec_fn(S) -> bool,
    steps: Seq<S>,
    i: int,
    j: int,
)
    requires
        is_run(follows, steps),
        handed_on(follows, kept, ended),
        0 <= i <= j < steps.len(),
        kept(steps[i]) is Some,
        !ended(steps[j]),
    ensures
        kept(steps[j]) == kept(steps[i]),
    decreases j - i,
{
    if i < j {
        assert(linked(follows, steps, j - 1));
        assert(follows(steps[j - 1], steps[j]));
        lemma_handed_on(follows, kept, ended, steps, i, j - 1);
    }
}

} // verus!

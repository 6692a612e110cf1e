//! Runs of a transition function over a sequence of events, and the two
//! induction principles that the laws of the state machines rest on.
//!
//! A machine is a function from a state and an event to the next state and
//! an action. A run starts in some state and takes the events of a sequence
//! one by one.

use vstd::prelude::*;

verus! {

/// The state that the machine is in when it has taken all of `events`, in
/// order, starting from `init`.
pub open spec fn run<S, E, A>(step: spec_fn(S, E) -> (S, A), init: S, events: Seq<E>) -> S
    decreases events.len(),
{
    if events.len() == 0 {
        init
    } else {
        step(run(step, init, events.drop_last()), events.last()).0
    }
}

/// The state in which the machine takes the event at index `i`: the state
/// after the first `i` events.
pub open spec fn state_at<S, E, A>(
    step: spec_fn(S, E) -> (S, A),
    init: S,
    events: Seq<E>,
    i: int,
) -> S
    recommends
        0 <= i <= events.len(),
{
    run(step, init, events.take(i))
}

/// The action that the machine asks for when it takes the event at index `i`.
pub open spec fn action_at<S, E, A>(
    step: spec_fn(S, E) -> (S, A),
    init: S,
    events: Seq<E>,
    i: int,
) -> A
    recommends
        0 <= i < events.len(),
{
    step(state_at(step, init, events, i), events[i]).1
}

/// A run begins in its initial state.
pub proof fn lemma_state_at_start<S, E, A>(
    step: spec_fn(S, E) -> (S, A),
    init: S,
    events: Seq<E>,
)
    ensures
        state_at(step, init, events, 0) == init,
{
    assert(events.take(0).len() == 0);
}

/// The state after the whole sequence is the state at its length.
pub proof fn lemma_state_at_end<S, E, A>(
    step: spec_fn(S, E) -> (S, A),
    init: S,
    events: Seq<E>,
)
    ensures
        state_at(step, init, events, events.len() as int) == run(step, init, events),
{
    assert(events.take(events.len() as int) =~= events);
}

/// Each state of a run follows from the one before it by one step.
pub proof fn lemma_state_at_next<S, E, A>(
    step: spec_fn(S, E) -> (S, A),
    init: S,
    events: Seq<E>,
    i: int,
)
    requires
        0 <= i < events.len(),
    ensures
        state_at(step, init, events, i + 1) == step(state_at(step, init, events, i), events[i]).0,
{
    let prefix = events.take(i + 1);
    assert(prefix.drop_last() =~= events.take(i));
    assert(prefix.last() == events[i]);
}

/// A property that holds of the state at index `i` and that every step
/// preserves holds of every later state of the run.
pub proof fn lemma_preserved_from<S, E, A>(
    step: spec_fn(S, E) -> (S, A),
    init: S,
    events: Seq<E>,
    holds: spec_fn(S) -> bool,
    i: int,
    j: int,
)
    requires
        0 <= i <= j <= events.len(),
        holds(state_at(step, init, events, i)),
        forall|s: S, e: E| holds(s) ==> holds(#[trigger] step(s, e).0),
    ensures
        holds(state_at(step, init, events, j)),
    decreases j - i,
{
    if i < j {
        lemma_preserved_from(step, init, events, holds, i, j - 1);
        lemma_state_at_next(step, init, events, j - 1);
    }
}

/// A property that holds of the initial state and that every step preserves
/// holds of every state of the run.
pub proof fn lemma_invariant<S, E, A>(
    step: spec_fn(S, E) -> (S, A),
    init: S,
    events: Seq<E>,
    holds: spec_fn(S) -> bool,
    j: int,
)
    requires
        0 <= j <= events.len(),
        holds(init),
        forall|s: S, e: E| holds(s) ==> holds(#[trigger] step(s, e).0),
    ensures
        holds(state_at(step, init, events, j)),
{
    lemma_state_at_start(step, init, events);
    lemma_preserved_from(step, init, events, holds, 0, j);
}

/// A property that does not hold of the initial state, and that a step can
/// only bring about together with an action of a certain kind, holds of a
/// state of the run only after a step with such an action. Returns the index
/// of that step.
pub proof fn lemma_established_by<S, E, A>(
    step: spec_fn(S, E) -> (S, A),
    init: S,
    events: Seq<E>,
    reached: spec_fn(S) -> bool,
    cause: spec_fn(A) -> bool,
    k: int,
) -> (j: int)
    requires
        0 <= k <= events.len(),
        !reached(init),
        reached(state_at(step, init, events, k)),
        forall|s: S, e: E| !reached(s) && reached(#[trigger] step(s, e).0) ==> cause(step(s, e).1),
    ensures
        0 <= j < k,
        cause(action_at(step, init, events, j)),
    decreases k,
{
    lemma_state_at_start(step, init, events);
    lemma_state_at_next(step, init, events, k - 1);
    if reached(state_at(step, init, events, k - 1)) {
        lemma_established_by(step, init, events, reached, cause, k - 1)
    } else {
        k - 1
    }
}

} // verus!

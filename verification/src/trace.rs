//! The loop-wide laws. A run of the event loop is a sequence of steps, each
//! either a platform event or the outcome of the frame just rendered; the
//! functions here fold the per-step transitions of `crate::state` over such a
//! sequence and prove what holds of every run: the state invariant is kept,
//! a terminating step terminates exactly once and nothing is rendered
//! afterwards, a lost surface is reconfigured before the next frame, and out
//! of memory ends all processing.

use vstd::prelude::*;

use crate::events::{Action, Event, SurfaceError};
use crate::state::{
    is_exit_event, spec_event_action, spec_event_state, spec_render_action, spec_render_state,
    State,
};

verus! {

/// One input to the loop: a platform event, or the outcome of the frame the
/// loop owner just rendered on the state's request.
#[derive(Clone, Copy, Debug)]
pub enum Step {
    Platform(Event),
    Rendered(Result<(), SurfaceError>),
}

/// The state after one step.
pub open spec fn step_state(s: State, step: Step) -> State {
    match step {
        Step::Platform(e) => spec_event_state(s, e),
        Step::Rendered(r) => spec_render_state(s, r),
    }
}

/// The action one step asks of the loop owner.
pub open spec fn step_action(s: State, step: Step) -> Action {
    match step {
        Step::Platform(e) => spec_event_action(s, e),
        Step::Rendered(r) => spec_render_action(s, r),
    }
}

/// The state after consuming all of `steps`, starting from `s0`.
pub open spec fn run_state(s0: State, steps: Seq<Step>) -> State
    decreases steps.len(),
{
    if steps.len() == 0 {
        s0
    } else {
        step_state(run_state(s0, steps.drop_last()), steps.last())
    }
}

/// The action the step at position `i` asks for, in the run of `steps` from
/// `s0`.
pub open spec fn action_at(s0: State, steps: Seq<Step>, i: int) -> Action
    recommends
        0 <= i < steps.len(),
{
    step_action(run_state(s0, steps.take(i)), steps[i])
}

/// A terminated loop absorbs every step: the state stays as it is and no
/// action is asked for.
pub proof fn lemma_terminated_step(s: State, step: Step)
    requires
        !s.running,
    ensures
        step_state(s, step) == s,
        step_action(s, step) == Action::Continue,
{
}

/// A terminated loop stays terminated and unchanged over any sequence of
/// steps.
pub proof fn lemma_terminated_run(s: State, steps: Seq<Step>)
    requires
        !s.running,
    ensures
        run_state(s, steps) == s,
    decreases steps.len(),
{
    if steps.len() > 0 {
        lemma_terminated_run(s, steps.drop_last());
        lemma_terminated_step(s, steps.last());
    }
}

/// A step whose action is `Exit` leaves the loop terminated.
pub proof fn lemma_exit_terminates(s: State, step: Step)
    requires
        step_action(s, step) == Action::Exit,
    ensures
        !step_state(s, step).running,
{
}

/// Running a concatenation is running the two parts in turn.
pub proof fn lemma_run_state_concat(s0: State, a: Seq<Step>, b: Seq<Step>)
    ensures
        run_state(s0, a + b) == run_state(run_state(s0, a), b),
    decreases b.len(),
{
    if b.len() == 0 {
        assert(a + b =~= a);
    } else {
        assert((a + b).drop_last() =~= a + b.drop_last());
        lemma_run_state_concat(s0, a, b.drop_last());
    }
}

/// Every step preserves the state invariant: the stored configuration keeps
/// strictly positive dimensions and the size mirror keeps agreeing with it.
pub proof fn lemma_step_preserves_wf(s: State, step: Step)
    requires
        s.wf(),
    ensures
        step_state(s, step).wf(),
{
}

/// Every run preserves the state invariant.
pub proof fn lemma_run_preserves_wf(s0: State, steps: Seq<Step>)
    requires
        s0.wf(),
    ensures
        run_state(s0, steps).wf(),
    decreases steps.len(),
{
    if steps.len() > 0 {
        lemma_run_preserves_wf(s0, steps.drop_last());
        lemma_step_preserves_wf(run_state(s0, steps.drop_last()), steps.last());
    }
}

/// After a step whose action is `Exit`, every later step of the run asks for
/// nothing: the loop never exits twice and never renders another frame.
pub proof fn lemma_nothing_after_exit(s0: State, steps: Seq<Step>, i: int, j: int)
    requires
        0 <= i < j < steps.len(),
        action_at(s0, steps, i) == Action::Exit,
    ensures
        action_at(s0, steps, j) == Action::Continue,
{
    let si = run_state(s0, steps.take(i));
    lemma_exit_terminates(si, steps[i]);
    assert(steps.take(i + 1).drop_last() =~= steps.take(i));
    assert(steps.take(j) =~= steps.take(i + 1) + steps.subrange(i + 1, j));
    lemma_run_state_concat(s0, steps.take(i + 1), steps.subrange(i + 1, j));
    lemma_terminated_run(run_state(s0, steps.take(i + 1)), steps.subrange(i + 1, j));
    lemma_terminated_step(run_state(s0, steps.take(j)), steps[j]);
}

/// A close request or an escape press reaching a running loop terminates it
/// exactly once: that step's action is `Exit`, and every later step asks for
/// nothing — in particular no further frame is rendered and no second exit
/// is issued.
pub proof fn lemma_exit_event_terminates_once(s0: State, steps: Seq<Step>, i: int)
    requires
        0 <= i < steps.len(),
        run_state(s0, steps.take(i)).running,
        steps[i] matches Step::Platform(Event::Window(we)) && is_exit_event(we),
    ensures
        action_at(s0, steps, i) == Action::Exit,
        forall|j: int|
            i < j < steps.len() ==> #[trigger] action_at(s0, steps, j) == Action::Continue,
{
    assert forall|j: int|
        i < j < steps.len() implies #[trigger] action_at(s0, steps, j) == Action::Continue by {
        lemma_nothing_after_exit(s0, steps, i, j);
    }
}

/// A surface lost on one frame is reconfigured before the next frame is
/// attempted: the step consuming the loss itself asks for the
/// reconfiguration, so before any later render there is a reconfigure step —
/// and the stored configuration is not changed by it.
pub proof fn lemma_lost_reconfigures_before_next_frame(s0: State, steps: Seq<Step>, i: int, j: int)
    requires
        0 <= i < j < steps.len(),
        run_state(s0, steps.take(i)).wf(),
        run_state(s0, steps.take(i)).running,
        steps[i] == Step::Rendered(Err::<(), SurfaceError>(SurfaceError::Lost)),
        action_at(s0, steps, j) == Action::Render,
    ensures
        action_at(s0, steps, i) == Action::Reconfigure,
        exists|k: int|
            i <= k < j && #[trigger] action_at(s0, steps, k) == Action::Reconfigure,
        step_state(run_state(s0, steps.take(i)), steps[i]).config == run_state(
            s0,
            steps.take(i),
        ).config,
{
    assert(action_at(s0, steps, i) == Action::Reconfigure);
}

/// An out-of-memory error on a running loop terminates it with no further
/// processing: the step's action is `Exit`, every later step asks for
/// nothing, and the state never changes again.
pub proof fn lemma_out_of_memory_halts(s0: State, steps: Seq<Step>, i: int)
    requires
        0 <= i < steps.len(),
        run_state(s0, steps.take(i)).running,
        steps[i] == Step::Rendered(Err::<(), SurfaceError>(SurfaceError::OutOfMemory)),
    ensures
        action_at(s0, steps, i) == Action::Exit,
        forall|j: int|
            i < j < steps.len() ==> #[trigger] action_at(s0, steps, j) == Action::Continue,
        forall|j: int|
            i < j <= steps.len() ==> #[trigger] run_state(s0, steps.take(j)) == run_state(
                s0,
                steps.take(i + 1),
            ),
{
    assert forall|j: int|
        i < j < steps.len() implies #[trigger] action_at(s0, steps, j) == Action::Continue by {
        lemma_nothing_after_exit(s0, steps, i, j);
    }
    let si1 = run_state(s0, steps.take(i + 1));
    assert(steps.take(i + 1).drop_last() =~= steps.take(i));
    assert(!si1.running);
    assert forall|j: int|
        i < j <= steps.len() implies #[trigger] run_state(s0, steps.take(j)) == si1 by {
        assert(steps.take(j) =~= steps.take(i + 1) + steps.subrange(i + 1, j));
        lemma_run_state_concat(s0, steps.take(i + 1), steps.subrange(i + 1, j));
        lemma_terminated_run(si1, steps.subrange(i + 1, j));
    }
}

} // verus!

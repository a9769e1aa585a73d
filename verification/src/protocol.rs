//! The lifecycle protocol as an abstract transition system.
//!
//! `Phase` forgets the concrete renderer and completion-signal values and
//! keeps only what the protocol turns on: whether the application is still
//! awaiting its renderer, and whether the one-shot completion signal is still
//! in its slot.  `step` is the transition function that every handler of
//! [`crate::application::App`] refines, and the lemmas below state the
//! protocol's global guarantees over whole event traces.

use vstd::prelude::*;

verus! {

/// Abstract phase of the application state machine.
pub enum Phase {
    /// No renderer yet; `has_signal` says whether the one-shot completion
    /// signal is still in its slot, i.e. whether an activation may still
    /// create the window and begin renderer construction.
    Awaiting { has_signal: bool },
    /// A renderer is installed; window events are forwarded to it.
    Ready,
}

/// The events that drive the lifecycle, as the platform layer delivers them.
pub enum LifecycleEvent {
    /// The platform allows the application to create OS-level resources.
    Activate,
    /// The asynchronous construction task delivered the renderer.
    RendererReady,
    /// The window was resized.
    Resized,
    /// The platform asks for a frame.
    RedrawRequested,
    /// The user asked to close the window.
    CloseRequested,
    /// Any other window event; the protocol ignores it.
    Other,
}

/// Whether an activation in `phase` creates the window and begins renderer
/// construction: only while awaiting, and only while the completion signal
/// has not been taken yet.
pub open spec fn can_begin_construction(phase: Phase) -> bool {
    phase matches Phase::Awaiting { has_signal } && has_signal
}

/// One transition of the protocol.  Activation consumes the signal slot but
/// never changes the phase itself; only delivery of the renderer moves the
/// application to `Ready`; window events never change the phase.
pub open spec fn step(phase: Phase, event: LifecycleEvent) -> Phase {
    match event {
        LifecycleEvent::Activate => match phase {
            Phase::Awaiting { .. } => Phase::Awaiting { has_signal: false },
            Phase::Ready => Phase::Ready,
        },
        LifecycleEvent::RendererReady => Phase::Ready,
        _ => phase,
    }
}

/// Phase reached after a whole sequence of events.
pub open spec fn run_trace(phase: Phase, events: Seq<LifecycleEvent>) -> Phase
    decreases events.len(),
{
    if events.len() == 0 {
        phase
    } else {
        run_trace(step(phase, events[0]), events.drop_first())
    }
}

/// Number of steps along the trace on which renderer construction begins
/// (the window-creating activations).
pub open spec fn constructions_begun(phase: Phase, events: Seq<LifecycleEvent>) -> nat
    decreases events.len(),
{
    if events.len() == 0 {
        0
    } else {
        (if events[0] is Activate && can_begin_construction(phase) {
            1nat
        } else {
            0nat
        }) + constructions_begun(step(phase, events[0]), events.drop_first())
    }
}

/// Number of steps along the trace that move the application from awaiting
/// to ready.
pub open spec fn transitions_to_ready(phase: Phase, events: Seq<LifecycleEvent>) -> nat
    decreases events.len(),
{
    if events.len() == 0 {
        0
    } else {
        (if !(phase is Ready) && step(phase, events[0]) is Ready {
            1nat
        } else {
            0nat
        }) + transitions_to_ready(step(phase, events[0]), events.drop_first())
    }
}

/// A single event keeps a ready application ready: the transition to `Ready`
/// is one-directional.
pub proof fn lemma_step_preserves_ready(phase: Phase, event: LifecycleEvent)
    requires
        phase is Ready,
    ensures
        step(phase, event) is Ready,
{
}

/// Once the completion signal has been taken, no event puts it back: a later
/// activation can never begin a second construction.
pub proof fn lemma_step_preserves_spent_signal(phase: Phase, event: LifecycleEvent)
    requires
        !can_begin_construction(phase),
    ensures
        !can_begin_construction(step(phase, event)),
{
}

/// `Ready` is absorbing over whole traces: whatever events the platform still
/// delivers, a ready application stays ready.
pub proof fn lemma_ready_is_absorbing(phase: Phase, events: Seq<LifecycleEvent>)
    requires
        phase is Ready,
    ensures
        run_trace(phase, events) is Ready,
    decreases events.len(),
{
    if events.len() > 0 {
        lemma_step_preserves_ready(phase, events[0]);
        lemma_ready_is_absorbing(step(phase, events[0]), events.drop_first());
    }
}

/// From a ready phase no further awaiting-to-ready transition happens.
pub proof fn lemma_no_transition_after_ready(phase: Phase, events: Seq<LifecycleEvent>)
    requires
        phase is Ready,
    ensures
        transitions_to_ready(phase, events) == 0,
    decreases events.len(),
{
    if events.len() > 0 {
        lemma_step_preserves_ready(phase, events[0]);
        lemma_no_transition_after_ready(step(phase, events[0]), events.drop_first());
    }
}

/// For any starting phase and any sequence of events, the application moves
/// from awaiting to ready at most once: there is never a second live
/// renderer installation transition.
pub proof fn lemma_single_transition(phase: Phase, events: Seq<LifecycleEvent>)
    ensures
        transitions_to_ready(phase, events) <= 1,
    decreases events.len(),
{
    if events.len() > 0 {
        let next = step(phase, events[0]);
        if !(phase is Ready) && next is Ready {
            lemma_no_transition_after_ready(next, events.drop_first());
        } else {
            lemma_single_transition(next, events.drop_first());
        }
    }
}

/// Once construction can no longer begin, it never begins along the rest of
/// the trace.
pub proof fn lemma_no_construction_without_signal(phase: Phase, events: Seq<LifecycleEvent>)
    requires
        !can_begin_construction(phase),
    ensures
        constructions_begun(phase, events) == 0,
    decreases events.len(),
{
    if events.len() > 0 {
        lemma_step_preserves_spent_signal(phase, events[0]);
        lemma_no_construction_without_signal(step(phase, events[0]), events.drop_first());
    }
}

/// For any starting phase and any sequence of events — in particular any
/// number of activation signals — at most one window creation and renderer
/// construction ever begins.
pub proof fn lemma_single_construction(phase: Phase, events: Seq<LifecycleEvent>)
    ensures
        constructions_begun(phase, events) <= 1,
    decreases events.len(),
{
    if events.len() > 0 {
        let next = step(phase, events[0]);
        if events[0] is Activate && can_begin_construction(phase) {
            lemma_no_construction_without_signal(next, events.drop_first());
        } else {
            lemma_single_construction(next, events.drop_first());
        }
    }
}

/// From a fresh application — awaiting, signal in its slot — a trace that
/// begins with an activation begins exactly one construction, however many
/// further activations follow before or after the renderer arrives.
pub proof fn lemma_exactly_one_construction(events: Seq<LifecycleEvent>)
    requires
        events.len() > 0,
        events[0] is Activate,
    ensures
        constructions_begun((Phase::Awaiting { has_signal: true }), events) == 1,
{
    let fresh = Phase::Awaiting { has_signal: true };
    lemma_no_construction_without_signal(step(fresh, events[0]), events.drop_first());
}

} // verus!

//! The deferred-initialization application state machine.
//!
//! [`App`] holds either the not-yet-renderable state, with the one-shot
//! completion signal still in its slot, or the ready state holding the
//! renderer handle.  Its handlers decide; the platform layer performs.  Each
//! handler returns what the platform layer must do — hand the taken signal to
//! the construction task, forward a call to the renderer, request a redraw,
//! or exit the loop — and its contract pins both the decision and the new
//! state down, as a refinement of [`crate::protocol::step`].

use vstd::prelude::*;

use crate::protocol::{can_begin_construction, step, LifecycleEvent, Phase};

verus! {

/// The window events the platform delivers to the application, reduced to
/// what the protocol turns on.
#[derive(Clone, Copy, Debug, PartialEq, Eq)]
pub enum WindowEventKind {
    /// The window surface now has the given size in physical pixels.
    Resized { width: u32, height: u32 },
    /// The platform asks for a frame.
    RedrawRequested,
    /// The user asked to close the window.
    CloseRequested,
    /// Any other window event; the protocol ignores it.
    Other,
}

/// What the platform layer must perform after a state-machine step.
#[derive(Clone, Copy, Debug, PartialEq, Eq)]
pub enum EngineCommand {
    /// Nothing to perform; in particular, events that arrive while the
    /// renderer is still under construction are dropped, not buffered.
    Ignore,
    /// Ask the platform to schedule a redraw soon, so the first frame is
    /// presented without waiting for a natural redraw trigger.
    RequestRedraw,
    /// Forward to the renderer: present one frame.
    DrawFrame,
    /// Forward to the renderer: the surface now has this size.
    ResizeSurface { width: u32, height: u32 },
    /// Terminate the event loop.
    ExitLoop,
}

/// The two states of the application, as an explicit sum type: there is no
/// third state, and at most one renderer is ever held.
pub enum ApplicationState<R, S> {
    /// Initial state.  The completion signal is consumed (taken) exactly
    /// once, on the first activation; while the slot is empty a construction
    /// is already in flight, so later activations must not start another.
    AwaitingRenderer { completion_signal: Option<S> },
    /// The renderer arrived; it stays installed until the loop exits.
    Ready { renderer: R },
}

/// The application object the event loop drives: the state machine plus its
/// event handlers.
pub struct App<R, S> {
    /// The current state.  The platform layer may read it to reach the
    /// renderer when performing a forwarded command; every transition goes
    /// through the handlers below.
    pub state: ApplicationState<R, S>,
}

/// The abstract lifecycle event that a window event stands for.
pub open spec fn lifecycle_event_of(event: WindowEventKind) -> LifecycleEvent {
    match event {
        WindowEventKind::Resized { .. } => LifecycleEvent::Resized,
        WindowEventKind::RedrawRequested => LifecycleEvent::RedrawRequested,
        WindowEventKind::CloseRequested => LifecycleEvent::CloseRequested,
        WindowEventKind::Other => LifecycleEvent::Other,
    }
}

/// The command owed for a window event in a given phase: close always exits,
/// resize and redraw are forwarded only once the renderer exists, and
/// everything else is ignored.
pub open spec fn window_dispatch(phase: Phase, event: WindowEventKind) -> EngineCommand {
    match event {
        WindowEventKind::Resized { width, height } => if phase is Ready {
            EngineCommand::ResizeSurface { width, height }
        } else {
            EngineCommand::Ignore
        },
        WindowEventKind::RedrawRequested => if phase is Ready {
            EngineCommand::DrawFrame
        } else {
            EngineCommand::Ignore
        },
        WindowEventKind::CloseRequested => EngineCommand::ExitLoop,
        WindowEventKind::Other => EngineCommand::Ignore,
    }
}

impl<R, S> App<R, S> {
    /// The abstract phase this state stands for.
    pub open spec fn phase(&self) -> Phase {
        match self.state {
            ApplicationState::AwaitingRenderer { completion_signal } => Phase::Awaiting {
                has_signal: completion_signal is Some,
            },
            ApplicationState::Ready { .. } => Phase::Ready,
        }
    }

    /// A fresh application: awaiting its renderer, with the one-shot
    /// completion signal in its slot.
    pub fn new(completion_signal: S) -> (app: Self)
        ensures
            app.state == (ApplicationState::<R, S>::AwaitingRenderer {
                completion_signal: Some(completion_signal),
            }),
            app.phase() == (Phase::Awaiting { has_signal: true }),
    {
        App {
            state: ApplicationState::AwaitingRenderer { completion_signal: Some(completion_signal) },
        }
    }

    /// The platform delivered an activation signal (it may do so more than
    /// once).  On the first activation while awaiting, the completion signal
    /// is taken and returned, and the platform layer must create the one
    /// window and begin renderer construction with it; on every other call
    /// nothing is returned and nothing changes, so no second window is ever
    /// created.  The state itself does not change here: it changes only when
    /// construction later completes.
    pub fn on_activate(&mut self) -> (taken: Option<S>)
        ensures
            final(self).phase() == step(old(self).phase(), LifecycleEvent::Activate),
            (taken is Some) == can_begin_construction(old(self).phase()),
            old(self).state matches ApplicationState::AwaitingRenderer { completion_signal } ==> {
                &&& taken == completion_signal
                &&& final(self).state == (ApplicationState::<R, S>::AwaitingRenderer {
                    completion_signal: None,
                })
            },
            old(self).state is Ready ==> taken is None && *final(self) == *old(self),
    {
        match &mut self.state {
            ApplicationState::AwaitingRenderer { completion_signal } => completion_signal.take(),
            ApplicationState::Ready { .. } => None,
        }
    }

    /// The construction task delivered the renderer: install it.  The
    /// transition to ready is unconditional, and the returned command asks
    /// for exactly one immediate redraw, so the first frame is presented
    /// without waiting for a platform-driven redraw event.
    pub fn on_renderer_ready(&mut self, renderer: R) -> (cmd: EngineCommand)
        ensures
            final(self).state == (ApplicationState::<R, S>::Ready { renderer }),
            final(self).phase() == step(old(self).phase(), LifecycleEvent::RendererReady),
            cmd == EngineCommand::RequestRedraw,
    {
        self.state = ApplicationState::Ready { renderer };
        EngineCommand::RequestRedraw
    }

    /// Dispatch one window event: the returned command is exactly what
    /// [`window_dispatch`] owes for it.  In particular a close request exits
    /// the loop from either state, a resize or redraw while the renderer is
    /// still under construction is dropped without any call into a renderer,
    /// and the state never changes — dispatching needs no mutation at all.
    pub fn on_window_event(&self, event: WindowEventKind) -> (cmd: EngineCommand)
        ensures
            cmd == window_dispatch(self.phase(), event),
            event is CloseRequested ==> cmd == EngineCommand::ExitLoop,
            !(self.phase() is Ready) && (event is Resized || event is RedrawRequested)
                ==> cmd == EngineCommand::Ignore,
            self.phase() == step(self.phase(), lifecycle_event_of(event)),
    {
        match event {
            WindowEventKind::Resized { width, height } => self.resized(width, height),
            WindowEventKind::RedrawRequested => self.draw(),
            WindowEventKind::CloseRequested => EngineCommand::ExitLoop,
            WindowEventKind::Other => EngineCommand::Ignore,
        }
    }

    /// Decide what a redraw request amounts to: a frame once the renderer
    /// exists, nothing before.
    fn draw(&self) -> (cmd: EngineCommand)
        ensures
            cmd == (if self.phase() is Ready {
                EngineCommand::DrawFrame
            } else {
                EngineCommand::Ignore
            }),
    {
        match &self.state {
            ApplicationState::Ready { .. } => EngineCommand::DrawFrame,
            ApplicationState::AwaitingRenderer { .. } => EngineCommand::Ignore,
        }
    }

    /// Decide what a resize amounts to: a surface reconfiguration once the
    /// renderer exists, nothing before — the eventual renderer starts from
    /// whatever size the window has at construction time.
    fn resized(&self, width: u32, height: u32) -> (cmd: EngineCommand)
        ensures
            cmd == (if self.phase() is Ready {
                EngineCommand::ResizeSurface { width, height }
            } else {
                EngineCommand::Ignore
            }),
    {
        match &self.state {
            ApplicationState::Ready { .. } => EngineCommand::ResizeSurface { width, height },
            ApplicationState::AwaitingRenderer { .. } => EngineCommand::Ignore,
        }
    }
}

} // verus!

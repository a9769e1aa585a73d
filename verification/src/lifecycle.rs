//! The engine lifecycle: one event loop, one application object, one run.
//!
//! [`EngineContext`] owns exactly one event loop handle and one
//! [`App`].  The event loop is consumed exactly once when running starts:
//! `run` takes the context by value and yields the loop together with the
//! application object, for the platform runner to drive to completion.

use vstd::prelude::*;

use crate::application::{App, ApplicationState};
use crate::protocol::Phase;

verus! {

/// The lifecycle of one application run.  `L` is the platform's event-loop
/// handle, `R` the renderer handle, `S` the one-shot completion-signal
/// endpoint tied to the loop's custom-event channel.
pub struct EngineContext<L, R, S> {
    /// The event loop, present until `run` consumes it.
    pub event_loop: Option<L>,
    /// The application object the loop will drive.
    pub app: App<R, S>,
}

impl<L, R, S> EngineContext<L, R, S> {
    /// A fresh lifecycle: it holds the given event loop and an application
    /// that is awaiting its renderer, with the completion signal in its
    /// slot.
    pub fn new(event_loop: L, completion_signal: S) -> (ctx: Self)
        ensures
            ctx.event_loop == Some(event_loop),
            ctx.app.state == (ApplicationState::<R, S>::AwaitingRenderer {
                completion_signal: Some(completion_signal),
            }),
            ctx.app.phase() == (Phase::Awaiting { has_signal: true }),
    {
        EngineContext { event_loop: Some(event_loop), app: App::new(completion_signal) }
    }

    /// Start the run: consume the lifecycle and hand the event loop,
    /// together with the application object, to the platform runner.  Taking
    /// the context by value makes a second run impossible, and the loop is
    /// yielded exactly when it is still present — exactly once per
    /// lifecycle, since only construction puts it there.
    pub fn run(self) -> (parts: Option<(L, App<R, S>)>)
        ensures
            self.event_loop matches Some(event_loop) ==> parts == Some((event_loop, self.app)),
            self.event_loop is None ==> parts is None,
    {
        let EngineContext { event_loop, app } = self;
        match event_loop {
            Some(event_loop) => Some((event_loop, app)),
            None => None,
        }
    }
}

} // verus!

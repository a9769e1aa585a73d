//! Startup and lifecycle shell for an interactive windowed application.
//!
//! The library owns the deferred-initialization protocol of such an
//! application: a window may only be created once the platform has delivered
//! its activation signal, and the rendering context is constructed
//! asynchronously from that window, so the application must tolerate window
//! events that arrive before a renderer exists.  The decision logic is kept
//! here as a verified state machine from state and event to next state and
//! platform command; a thin platform layer drives the actual event loop,
//! performs the commands, and feeds the resulting events back in.

pub mod application;
pub mod lifecycle;
pub mod protocol;

pub use application::{App, ApplicationState, EngineCommand, WindowEventKind};
pub use lifecycle::EngineContext;
pub use protocol::{LifecycleEvent, Phase};

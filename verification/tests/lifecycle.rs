// The lifecycle shell from the platform layer's point of view: the tests
// drive the state machine exactly as an event loop would, with plain test
// stand-ins for the renderer handle, the completion signal and the event
// loop itself.

use engine::{App, ApplicationState, EngineCommand, EngineContext, WindowEventKind};

#[derive(Debug, Clone, Copy, PartialEq, Eq)]
struct TestRenderer(u32);

#[test]
fn activate_completes_into_ready_with_redraw() {
    // Activate, then simulate the construction task completing with a
    // concrete handle: the state must hold exactly that handle, and exactly
    // one immediate redraw must be requested.
    let mut app: App<TestRenderer, u32> = App::new(11);
    let taken = app.on_activate();
    assert_eq!(taken, Some(11));
    let cmd = app.on_renderer_ready(TestRenderer(42));
    assert_eq!(cmd, EngineCommand::RequestRedraw);
    assert!(matches!(
        app.state,
        ApplicationState::Ready { renderer: TestRenderer(42) }
    ));
}

#[test]
fn double_activation_creates_one_window() {
    // Two activations in a row before construction completes: only the
    // first hands out the completion signal, so only one window-creating
    // construction ever begins.
    let mut app: App<TestRenderer, u32> = App::new(7);
    let first = app.on_activate();
    let second = app.on_activate();
    assert_eq!(first, Some(7));
    assert_eq!(second, None);
    let third = app.on_activate();
    assert_eq!(third, None);
}

#[test]
fn resize_before_ready_is_dropped() {
    // A resize delivered while the renderer is still under construction is
    // dropped: nothing is forwarded, nothing is buffered, and once the
    // renderer arrives only its immediate redraw is requested — the dropped
    // geometry is never replayed.
    let mut app: App<TestRenderer, u32> = App::new(1);
    let _ = app.on_activate();
    let cmd = app.on_window_event(WindowEventKind::Resized { width: 800, height: 600 });
    assert_eq!(cmd, EngineCommand::Ignore);
    let cmd = app.on_renderer_ready(TestRenderer(1));
    assert_eq!(cmd, EngineCommand::RequestRedraw);
    // A resize after readiness is forwarded with its own size, showing that
    // the earlier 800x600 was dropped rather than queued.
    let cmd = app.on_window_event(WindowEventKind::Resized { width: 1024, height: 768 });
    assert_eq!(cmd, EngineCommand::ResizeSurface { width: 1024, height: 768 });
}

#[test]
fn close_without_activation_exits() {
    // Close requested immediately after creation, before any activation:
    // the loop must exit, and no window creation was ever asked for (the
    // completion signal is still in its slot).
    let ctx: EngineContext<u8, TestRenderer, u32> = EngineContext::new(0, 9);
    let (_event_loop, app) = ctx.run().expect("a fresh lifecycle holds its event loop");
    let cmd = app.on_window_event(WindowEventKind::CloseRequested);
    assert_eq!(cmd, EngineCommand::ExitLoop);
    assert!(matches!(
        app.state,
        ApplicationState::AwaitingRenderer { completion_signal: Some(9) }
    ));
}

#[test]
fn close_exits_from_either_state() {
    let mut app: App<TestRenderer, u32> = App::new(3);
    assert_eq!(
        app.on_window_event(WindowEventKind::CloseRequested),
        EngineCommand::ExitLoop
    );
    let _ = app.on_activate();
    let _ = app.on_renderer_ready(TestRenderer(3));
    assert_eq!(
        app.on_window_event(WindowEventKind::CloseRequested),
        EngineCommand::ExitLoop
    );
}

#[test]
fn at_most_one_live_renderer() {
    // A duplicated renderer delivery replaces the handle rather than ever
    // holding two: the state is a sum type, and the second delivery leaves
    // exactly the second handle installed.
    let mut app: App<TestRenderer, u32> = App::new(5);
    let _ = app.on_activate();
    let _ = app.on_renderer_ready(TestRenderer(1));
    let cmd = app.on_renderer_ready(TestRenderer(2));
    assert_eq!(cmd, EngineCommand::RequestRedraw);
    assert!(matches!(
        app.state,
        ApplicationState::Ready { renderer: TestRenderer(2) }
    ));
}

#[test]
fn redraw_before_ready_is_dropped() {
    let app: App<TestRenderer, u32> = App::new(2);
    assert_eq!(
        app.on_window_event(WindowEventKind::RedrawRequested),
        EngineCommand::Ignore
    );
}

#[test]
fn redraw_when_ready_draws_a_frame() {
    let mut app: App<TestRenderer, u32> = App::new(2);
    let _ = app.on_activate();
    let _ = app.on_renderer_ready(TestRenderer(8));
    assert_eq!(
        app.on_window_event(WindowEventKind::RedrawRequested),
        EngineCommand::DrawFrame
    );
}

#[test]
fn other_events_are_ignored_in_both_states() {
    let mut app: App<TestRenderer, u32> = App::new(4);
    assert_eq!(app.on_window_event(WindowEventKind::Other), EngineCommand::Ignore);
    let _ = app.on_activate();
    let _ = app.on_renderer_ready(TestRenderer(4));
    assert_eq!(app.on_window_event(WindowEventKind::Other), EngineCommand::Ignore);
}

#[test]
fn activation_after_ready_changes_nothing() {
    let mut app: App<TestRenderer, u32> = App::new(6);
    let _ = app.on_activate();
    let _ = app.on_renderer_ready(TestRenderer(6));
    assert_eq!(app.on_activate(), None);
    assert!(matches!(
        app.state,
        ApplicationState::Ready { renderer: TestRenderer(6) }
    ));
}

#[test]
fn run_without_event_loop_yields_nothing() {
    // A lifecycle whose loop was already taken has nothing left to run.
    let ctx: EngineContext<u8, TestRenderer, u32> = EngineContext {
        event_loop: None,
        app: App::new(1),
    };
    assert!(ctx.run().is_none());
}

#[test]
fn run_yields_the_loop_and_the_untouched_application() {
    let ctx: EngineContext<u8, TestRenderer, u32> = EngineContext::new(77, 13);
    let (event_loop, mut app) = ctx.run().expect("a fresh lifecycle holds its event loop");
    assert_eq!(event_loop, 77);
    assert_eq!(app.on_activate(), Some(13));
}

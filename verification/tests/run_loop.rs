use wgpu_boilerplate::control_flow::ControlFlow;
use wgpu_boilerplate::events::{Action, Event, RedrawTarget};
use wgpu_boilerplate::geometry::{ScaleFactor, Size};
use wgpu_boilerplate::profile::HostProfile;
use wgpu_boilerplate::state::{FrameStep, GraphicsError, Negotiation, State, WindowHandle};
use wgpu_boilerplate::surface::{SurfaceCaps, TextureFormat};

fn simple_caps() -> SurfaceCaps {
    SurfaceCaps {
        formats: vec![TextureFormat { id: 0, srgb: true }],
        present_modes: vec![0],
        alpha_modes: vec![0],
    }
}

/// Drives a fresh loop to the rendering phase, as the shell would: resume,
/// then treat the first sizing event as the creation trigger.
fn rendering_loop(t0: u64, width: u32, height: u32) -> ControlFlow {
    let mut cf = ControlFlow::new(t0);
    let window = WindowHandle {
        inner_size: Size::new(width, height),
    };
    cf.resumed(window);
    let action = cf.window_event(Event::Resized(Size::new(width, height)), t0);
    let consumed = match action {
        Action::CreateContext(w) => w,
        other => panic!("expected context creation, got {:?}", other),
    };
    assert_eq!(consumed, window);
    let state = State::new(
        &HostProfile::native(),
        consumed,
        Negotiation::Ready(simple_caps()),
    )
    .unwrap();
    cf.install_state(state);
    cf
}

#[test]
fn new_loop_is_uninitialized() {
    let cf = ControlFlow::new(7);
    assert!(cf.window.is_none());
    assert!(cf.state.is_none());
    assert_eq!(cf.last_render, 7);
    assert_eq!(cf.about_to_wait(), None);
}

#[test]
fn resume_stores_the_window() {
    let mut cf = ControlFlow::new(0);
    let window = WindowHandle {
        inner_size: Size::new(640, 480),
    };
    cf.resumed(window);
    assert_eq!(cf.window, Some(window));
    assert!(cf.state.is_none());
}

#[test]
fn first_resize_consumes_window_and_asks_for_context() {
    let mut cf = ControlFlow::new(0);
    let window = WindowHandle {
        inner_size: Size::new(640, 480),
    };
    cf.resumed(window);
    let action = cf.window_event(Event::Resized(Size::new(640, 480)), 1);
    assert_eq!(action, Action::CreateContext(window));
    // The window is consumed exactly once: it is gone from the loop.
    assert!(cf.window.is_none());
    assert!(cf.state.is_none());
}

#[test]
fn events_before_context_do_nothing() {
    let mut cf = ControlFlow::new(0);
    cf.resumed(WindowHandle {
        inner_size: Size::new(640, 480),
    });
    // No resize, scale or render can reach a context that does not exist;
    // the close-request path is likewise not taken before it exists.
    assert_eq!(cf.window_event(Event::RedrawRequested, 5), Action::Nothing);
    assert_eq!(cf.window_event(Event::CloseRequested, 6), Action::Nothing);
    assert_eq!(
        cf.window_event(Event::ScaleFactorChanged(ScaleFactor::new(2, 1)), 7),
        Action::Nothing
    );
    assert_eq!(cf.window_event(Event::Other, 8), Action::Nothing);
    assert!(cf.state.is_none());
    assert!(cf.window.is_some());
}

#[test]
fn idle_tick_targets_window_then_context_window() {
    let mut cf = ControlFlow::new(0);
    assert_eq!(cf.about_to_wait(), None);
    cf.resumed(WindowHandle {
        inner_size: Size::new(640, 480),
    });
    assert_eq!(cf.about_to_wait(), Some(RedrawTarget::Window));
    let cf = rendering_loop(0, 640, 480);
    assert_eq!(cf.about_to_wait(), Some(RedrawTarget::ContextWindow));
}

#[test]
fn resize_event_updates_context_and_reconfigures() {
    let mut cf = rendering_loop(0, 800, 600);
    let action = cf.window_event(Event::Resized(Size::new(1024, 768)), 10);
    let config = match action {
        Action::ConfigureSurface(config) => config,
        other => panic!("expected reconfiguration, got {:?}", other),
    };
    assert_eq!(config.width, 1024);
    assert_eq!(config.height, 768);
    assert_eq!(cf.state.unwrap().size, Size::new(1024, 768));
}

#[test]
fn zero_resize_event_does_nothing() {
    let mut cf = rendering_loop(0, 800, 600);
    let before = cf;
    let action = cf.window_event(Event::Resized(Size::new(0, 0)), 10);
    assert_eq!(action, Action::Nothing);
    assert_eq!(cf, before);
}

#[test]
fn scale_event_updates_context_and_reconfigures() {
    let mut cf = rendering_loop(0, 800, 600);
    let action = cf.window_event(Event::ScaleFactorChanged(ScaleFactor::new(3, 2)), 10);
    let config = match action {
        Action::ConfigureSurface(config) => config,
        other => panic!("expected reconfiguration, got {:?}", other),
    };
    assert_eq!(config.width, 1200);
    assert_eq!(config.height, 900);
    assert_eq!(cf.state.unwrap().size, Size::new(1200, 900));
}

#[test]
fn three_redraws_report_consecutive_deltas() {
    let (t0, t1, t2, t3) = (100, 116, 149, 150);
    let mut cf = rendering_loop(t0, 800, 600);
    let first = cf.window_event(Event::RedrawRequested, t1);
    assert_eq!(first, Action::Render { dt: t1 - t0 });
    let second = cf.window_event(Event::RedrawRequested, t2);
    assert_eq!(second, Action::Render { dt: t2 - t1 });
    let third = cf.window_event(Event::RedrawRequested, t3);
    assert_eq!(third, Action::Render { dt: t3 - t2 });
    assert_eq!(cf.last_render, t3);
}

#[test]
fn redraw_with_stalled_clock_reports_zero_delta() {
    let mut cf = rendering_loop(50, 800, 600);
    assert_eq!(
        cf.window_event(Event::RedrawRequested, 50),
        Action::Render { dt: 0 }
    );
    assert_eq!(
        cf.window_event(Event::RedrawRequested, 40),
        Action::Render { dt: 0 }
    );
    assert_eq!(cf.last_render, 40);
}

#[test]
fn close_request_signals_exit() {
    let mut cf = rendering_loop(0, 800, 600);
    let before = cf;
    assert_eq!(cf.window_event(Event::CloseRequested, 10), Action::Exit);
    assert_eq!(cf, before);
}

#[test]
fn other_events_are_ignored_once_rendering() {
    let mut cf = rendering_loop(0, 800, 600);
    let before = cf;
    assert_eq!(cf.window_event(Event::Other, 10), Action::Nothing);
    assert_eq!(cf, before);
}

#[test]
fn render_frame_returns_the_plan() {
    let mut cf = rendering_loop(0, 800, 600);
    let plan = cf.render_frame(true).unwrap();
    assert_eq!(plan.len(), 7);
    assert_eq!(plan[5], FrameStep::SubmitCommands);
    assert_eq!(plan[6], FrameStep::PresentFrame);
}

#[test]
fn render_frame_propagates_acquisition_failure() {
    let mut cf = rendering_loop(0, 800, 600);
    let r = cf.render_frame(false);
    assert_eq!(r.unwrap_err(), GraphicsError::SurfaceAcquisitionFailed);
}

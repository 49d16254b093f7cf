use hello_triangle::events::{
    Action, Event, KeyCode, KeyState, KeyboardInput, SurfaceError, WindowEvent,
};
use hello_triangle::state::{Extent, PresentMode, State, SurfaceConfig, TextureFormat};

fn fresh_state() -> State {
    State::new(TextureFormat::Bgra8UnormSrgb, Extent { width: 800, height: 600 })
}

#[test]
fn new_state_stores_initial_configuration() {
    let s = fresh_state();
    assert!(s.running);
    assert_eq!(s.size, Extent { width: 800, height: 600 });
    assert_eq!(
        s.config,
        SurfaceConfig {
            format: TextureFormat::Bgra8UnormSrgb,
            width: 800,
            height: 600,
            present_mode: PresentMode::Fifo,
        }
    );
}

#[test]
fn resize_with_zero_width_is_ignored() {
    let mut s = fresh_state();
    let before = s;
    let reconfigure = s.resize(Extent { width: 0, height: 400 });
    assert!(!reconfigure);
    assert_eq!(s, before);
}

#[test]
fn resize_with_zero_height_is_ignored() {
    let mut s = fresh_state();
    let before = s;
    let reconfigure = s.resize(Extent { width: 400, height: 0 });
    assert!(!reconfigure);
    assert_eq!(s, before);
}

#[test]
fn resize_with_both_dimensions_zero_is_ignored() {
    let mut s = fresh_state();
    let before = s;
    let reconfigure = s.resize(Extent { width: 0, height: 0 });
    assert!(!reconfigure);
    assert_eq!(s, before);
}

#[test]
fn resize_with_positive_dimensions_updates_configuration() {
    let mut s = fresh_state();
    let reconfigure = s.resize(Extent { width: 1024, height: 768 });
    assert!(reconfigure);
    assert_eq!(s.config.width, 1024);
    assert_eq!(s.config.height, 768);
    assert_eq!(s.size, Extent { width: 1024, height: 768 });
    assert_eq!(s.config.format, TextureFormat::Bgra8UnormSrgb);
    assert_eq!(s.config.present_mode, PresentMode::Fifo);
    assert!(s.running);
}

#[test]
fn resize_to_one_by_one_is_applied() {
    let mut s = fresh_state();
    let reconfigure = s.resize(Extent { width: 1, height: 1 });
    assert!(reconfigure);
    assert_eq!(s.config.width, 1);
    assert_eq!(s.config.height, 1);
}

#[test]
fn resized_event_with_zero_dimension_asks_for_nothing() {
    let mut s = fresh_state();
    let before = s;
    let a = s.handle_event(&Event::Window(WindowEvent::Resized(0, 0)));
    assert_eq!(a, Action::Continue);
    assert_eq!(s, before);
}

#[test]
fn resized_event_with_positive_dimensions_asks_for_reconfigure() {
    let mut s = fresh_state();
    let a = s.handle_event(&Event::Window(WindowEvent::Resized(640, 480)));
    assert_eq!(a, Action::Reconfigure);
    assert_eq!(s.config.width, 640);
    assert_eq!(s.config.height, 480);
}

#[test]
fn scale_factor_change_resizes_like_a_resize() {
    let mut s = fresh_state();
    let a = s.handle_event(&Event::Window(WindowEvent::ScaleFactorChanged(1600, 1200)));
    assert_eq!(a, Action::Reconfigure);
    assert_eq!(s.config.width, 1600);
    assert_eq!(s.config.height, 1200);

    let before = s;
    let a = s.handle_event(&Event::Window(WindowEvent::ScaleFactorChanged(0, 1200)));
    assert_eq!(a, Action::Continue);
    assert_eq!(s, before);
}

#[test]
fn close_requested_exits_exactly_once() {
    let mut s = fresh_state();
    let a = s.handle_event(&Event::Window(WindowEvent::CloseRequested));
    assert_eq!(a, Action::Exit);
    assert!(!s.running);

    // No further frame is rendered and no second exit is issued.
    let a = s.handle_event(&Event::RedrawRequested);
    assert_eq!(a, Action::Continue);
    let a = s.handle_event(&Event::Window(WindowEvent::CloseRequested));
    assert_eq!(a, Action::Continue);
    let a = s.handle_event(&Event::MainEventsCleared);
    assert_eq!(a, Action::Continue);
}

#[test]
fn escape_press_exits_exactly_once() {
    let mut s = fresh_state();
    let escape = Event::Window(WindowEvent::Keyboard(KeyboardInput {
        state: KeyState::Pressed,
        key: KeyCode::Escape,
    }));
    let a = s.handle_event(&escape);
    assert_eq!(a, Action::Exit);
    assert!(!s.running);

    let a = s.handle_event(&escape);
    assert_eq!(a, Action::Continue);
    let a = s.handle_event(&Event::RedrawRequested);
    assert_eq!(a, Action::Continue);
}

#[test]
fn escape_release_does_not_exit() {
    let mut s = fresh_state();
    let a = s.handle_event(&Event::Window(WindowEvent::Keyboard(KeyboardInput {
        state: KeyState::Released,
        key: KeyCode::Escape,
    })));
    assert_eq!(a, Action::Continue);
    assert!(s.running);
}

#[test]
fn other_key_press_does_not_exit() {
    let mut s = fresh_state();
    let a = s.handle_event(&Event::Window(WindowEvent::Keyboard(KeyboardInput {
        state: KeyState::Pressed,
        key: KeyCode::Other,
    })));
    assert_eq!(a, Action::Continue);
    assert!(s.running);
}

#[test]
fn redraw_requested_renders_while_running() {
    let mut s = fresh_state();
    let a = s.handle_event(&Event::RedrawRequested);
    assert_eq!(a, Action::Render);
    assert!(s.running);
}

#[test]
fn idle_requests_the_next_redraw() {
    let mut s = fresh_state();
    let a = s.handle_event(&Event::MainEventsCleared);
    assert_eq!(a, Action::RequestRedraw);
}

#[test]
fn unrecognised_events_are_ignored() {
    let mut s = fresh_state();
    let before = s;
    assert_eq!(s.handle_event(&Event::Other), Action::Continue);
    assert_eq!(s.handle_event(&Event::Window(WindowEvent::Other)), Action::Continue);
    assert_eq!(s, before);
}

#[test]
fn successful_frame_asks_for_nothing() {
    let mut s = fresh_state();
    let before = s;
    let a = s.after_render(Ok(()));
    assert_eq!(a, Action::Continue);
    assert_eq!(s, before);
}

#[test]
fn lost_surface_is_reconfigured_before_the_next_frame() {
    let mut s = fresh_state();
    assert_eq!(s.handle_event(&Event::RedrawRequested), Action::Render);
    let before = s;
    // Frame N reports the surface lost: the very next action is the
    // reconfiguration, with the stored configuration unchanged.
    let a = s.after_render(Err(SurfaceError::Lost));
    assert_eq!(a, Action::Reconfigure);
    assert_eq!(s.config, before.config);
    // Frame N+1 is then attempted as usual.
    assert_eq!(s.handle_event(&Event::RedrawRequested), Action::Render);
}

#[test]
fn transient_errors_drop_the_frame_and_carry_on() {
    let mut s = fresh_state();
    let before = s;
    assert_eq!(s.after_render(Err(SurfaceError::Outdated)), Action::Continue);
    assert_eq!(s.after_render(Err(SurfaceError::Timeout)), Action::Continue);
    assert_eq!(s, before);
    assert_eq!(s.handle_event(&Event::RedrawRequested), Action::Render);
}

#[test]
fn out_of_memory_terminates_with_no_further_processing() {
    let mut s = fresh_state();
    assert_eq!(s.handle_event(&Event::RedrawRequested), Action::Render);
    let a = s.after_render(Err(SurfaceError::OutOfMemory));
    assert_eq!(a, Action::Exit);
    assert!(!s.running);

    // Every later step leaves the state unchanged and asks for nothing.
    let after = s;
    assert_eq!(s.handle_event(&Event::RedrawRequested), Action::Continue);
    assert_eq!(s.handle_event(&Event::MainEventsCleared), Action::Continue);
    assert_eq!(s.handle_event(&Event::Window(WindowEvent::Resized(100, 100))), Action::Continue);
    assert_eq!(s.after_render(Ok(())), Action::Continue);
    assert_eq!(s, after);
}

#[test]
fn input_handles_no_event() {
    let mut s = fresh_state();
    let before = s;
    assert!(!s.input(&WindowEvent::CloseRequested));
    assert!(!s.input(&WindowEvent::Resized(10, 10)));
    assert_eq!(s, before);
}

#[test]
fn update_changes_nothing() {
    let mut s = fresh_state();
    let before = s;
    s.update();
    assert_eq!(s, before);
}

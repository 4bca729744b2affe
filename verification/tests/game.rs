use loopframe::game::surface::SurfaceAccess;
use loopframe::game::EventOutcome;
use loopframe::game::GameEvent;
use loopframe::game::GameInitialisationFailure;
use loopframe::game::GameState;
use loopframe::game::SurfaceError;
use loopframe::game::WindowSize;
use loopframe::game::DEFAULT_MOUSE_SENSITIVITY;
use loopframe::game::input::KeyCode;
use loopframe::game::input::LinearInputType;
use loopframe::game::input::ModifiersState;
use loopframe::game::input::MouseInputType;
use loopframe::game::input::VectorInputType;
use loopframe::ExitFlag;
use loopframe::GameCommand;
use loopframe::InputMode;

fn fresh(width: u32, height: u32) -> GameState {
    let mut state = GameState::new(WindowSize { width, height });
    // Settle the seeded SetInputMode(Unified) command.
    state.pre_frame_update();
    state
}

#[test]
fn input_mode_policies() {
    assert!(!InputMode::Exclusive.should_propogate_raw_input());
    assert!(!InputMode::UI.should_handle_input());
    assert!(InputMode::Unified.should_handle_input());
    assert!(InputMode::Unified.should_propogate_raw_input());

    assert!(InputMode::Exclusive.should_handle_input());
    assert!(InputMode::Exclusive.should_hide_cursor());
    assert!(InputMode::Exclusive.should_lock_cursor());
    assert!(InputMode::UI.should_propogate_raw_input());
    assert!(!InputMode::UI.should_hide_cursor());
    assert!(!InputMode::UI.should_lock_cursor());
    assert!(!InputMode::Unified.should_hide_cursor());
    assert!(!InputMode::Unified.should_lock_cursor());
}

#[test]
fn command_drain_applies_in_order() {
    // Mode Unified, sensitivity 0.01 (the defaults); enqueue a new
    // sensitivity then a new mode; after one tick's drain both have
    // taken effect and the cursor-visibility policy follows the mode.
    let mut state = GameState::new(WindowSize { width: 800, height: 600 });
    assert_eq!(state.input_mode, InputMode::Unified);
    assert_eq!(state.mouse_sensitivity, DEFAULT_MOUSE_SENSITIVITY);
    state.enqueue_command(GameCommand::SetMouseSensitivity(50));
    state.enqueue_command(GameCommand::SetInputMode(InputMode::Exclusive));
    state.pre_frame_update();
    assert_eq!(state.mouse_sensitivity, 50);
    assert_eq!(state.input_mode, InputMode::Exclusive);
    assert!(!state.cursor_visible);
    assert!(state.commands.is_empty());
}

#[test]
fn exit_command_raises_the_flag() {
    let mut state = fresh(800, 600);
    assert!(!state.exit_flag.get());
    state.enqueue_command(GameCommand::Exit);
    let outcome = state.process_event(GameEvent::RedrawRequested);
    assert!(state.exit_flag.get());
    assert!(outcome.exit_loop);
    assert!(outcome.render);
}

#[test]
fn close_request_notifies_but_does_not_end_the_loop() {
    let mut state = fresh(800, 600);
    let outcome = state.process_event(GameEvent::CloseRequested);
    assert!(outcome.notify_exit_requested);
    assert!(!outcome.exit_loop);
    assert!(state.exit_flag.get());
}

#[test]
fn zero_resize_is_ignored() {
    let mut state = fresh(800, 600);
    let outcome = state.process_event(GameEvent::Resized(WindowSize { width: 0, height: 0 }));
    assert_eq!(outcome.resized, None);
    assert_eq!(state.size, WindowSize { width: 800, height: 600 });
    assert_eq!(state.surface.get(), SurfaceAccess::Ready);
}

#[test]
fn real_resize_updates_size_and_queues_surface_resize() {
    let mut state = fresh(800, 600);
    let size = WindowSize { width: 1024, height: 768 };
    let outcome = state.process_event(GameEvent::Resized(size));
    assert_eq!(outcome.resized, Some(size));
    assert_eq!(state.size, size);
    assert_eq!(state.surface.get(), SurfaceAccess::NotReady);
}

#[test]
fn keyboard_dispatch_respects_mode_and_flags() {
    let mut state = fresh(800, 600);
    let press = GameEvent::KeyboardInput {
        key: KeyCode::KeyE,
        pressed: true,
        synthetic: false,
        repeat: false,
    };
    let outcome = state.process_event(press);
    let (input, activation) = outcome.linear.expect("unified mode handles input");
    assert_eq!(input, LinearInputType::KnownKeyboard(KeyCode::KeyE));
    assert_eq!(activation.get(), 1000);

    let repeat = GameEvent::KeyboardInput {
        key: KeyCode::KeyE,
        pressed: true,
        synthetic: false,
        repeat: true,
    };
    assert_eq!(state.process_event(repeat).linear, None);

    let synthetic = GameEvent::KeyboardInput {
        key: KeyCode::KeyE,
        pressed: true,
        synthetic: true,
        repeat: false,
    };
    assert_eq!(state.process_event(synthetic).linear, None);

    state.enqueue_command(GameCommand::SetInputMode(InputMode::UI));
    state.pre_frame_update();
    assert_eq!(state.process_event(press).linear, None);
}

#[test]
fn cursor_movement_without_lock() {
    let mut state = fresh(800, 600);
    let outcome = state.process_event(GameEvent::CursorMoved { x: 5, y: 1 });
    // Deltas measured from the initial (0, 0) position, default
    // sensitivity 0.01.
    let (input, activation) = outcome.linear.expect("dx clears the jitter threshold");
    assert_eq!(input, LinearInputType::Mouse(MouseInputType::MoveRight));
    assert_eq!(activation.get(), 50);
    let (vec_input, vec_activation) = outcome.vector.expect("vector always fires");
    assert_eq!(vec_input, VectorInputType::MouseMove);
    assert_eq!(vec_activation.get(), (50, 10));
    assert_eq!(outcome.warp_cursor_to, None);
    assert_eq!(state.last_cursor_position, (5, 1));
    // A second event to the same position produces no deltas.
    let outcome = state.process_event(GameEvent::CursorMoved { x: 5, y: 1 });
    assert_eq!(outcome.linear, None);
    assert_eq!(outcome.vector.unwrap().1.get(), (0, 0));
}

#[test]
fn cursor_movement_with_lock_warps_to_centre() {
    let mut state = fresh(800, 600);
    state.enqueue_command(GameCommand::SetInputMode(InputMode::Exclusive));
    state.pre_frame_update();
    let outcome = state.process_event(GameEvent::CursorMoved { x: 10, y: 10 });
    assert_eq!(outcome.warp_cursor_to, Some((400, 300)));
    // The centre becomes the remembered position, so the warp itself
    // does not echo as a spurious delta.
    assert_eq!(state.last_cursor_position, (400, 300));
    let outcome = state.process_event(GameEvent::CursorMoved { x: 400, y: 300 });
    assert_eq!(outcome.warp_cursor_to, None);
    assert_eq!(outcome.linear, None);
}

#[test]
fn ui_mode_suppresses_mapped_input_but_tracks_cursor() {
    let mut state = fresh(800, 600);
    state.enqueue_command(GameCommand::SetInputMode(InputMode::UI));
    state.pre_frame_update();
    let outcome = state.process_event(GameEvent::CursorMoved { x: 50, y: 50 });
    assert_eq!(outcome.linear, None);
    assert_eq!(outcome.vector, None);
    assert_eq!(state.last_cursor_position, (50, 50));
    assert!(state.cursor_visible);
}

#[test]
fn about_to_wait_requests_redraw() {
    let mut state = fresh(800, 600);
    let outcome = state.process_event(GameEvent::AboutToWait);
    assert!(outcome.request_redraw);
    assert!(!outcome.render);
}

#[test]
fn unhandled_events_do_nothing() {
    let mut state = fresh(800, 600);
    for event in [
        GameEvent::ScaleFactorChanged,
        GameEvent::ModifiersChanged(ModifiersState::default()),
        GameEvent::OtherWindowInput,
        GameEvent::OtherWindow,
        GameEvent::DeviceInput,
        GameEvent::DeviceOther,
        GameEvent::Other,
    ] {
        let outcome = state.process_event(event);
        assert_eq!(outcome, EventOutcome::quiet());
    }
}

#[test]
fn raw_event_forwarding_policy() {
    let keyboard = GameEvent::KeyboardInput {
        key: KeyCode::KeyE,
        pressed: true,
        synthetic: false,
        repeat: false,
    };
    let resized = GameEvent::Resized(WindowSize { width: 10, height: 10 });

    let mut state = fresh(800, 600);
    state.enqueue_command(GameCommand::SetInputMode(InputMode::Exclusive));
    state.pre_frame_update();
    // Exclusive mode withholds input events from the game's raw
    // interceptor, but non-input events still pass.
    assert!(!state.should_forward_raw(&keyboard));
    assert!(state.should_forward_raw(&resized));

    state.enqueue_command(GameCommand::SetInputMode(InputMode::UI));
    state.pre_frame_update();
    assert!(state.should_forward_raw(&keyboard));

    assert!(GameState::is_input_event(&keyboard));
    assert!(GameState::is_input_event(&GameEvent::CursorMoved { x: 0, y: 0 }));
    assert!(GameState::is_input_event(&GameEvent::DeviceInput));
    assert!(!GameState::is_input_event(&resized));
    assert!(!GameState::is_input_event(&GameEvent::RedrawRequested));
    assert!(!GameState::is_input_event(&GameEvent::DeviceOther));
}

#[test]
fn render_error_recovery() {
    let mut state = fresh(800, 600);
    // A lost surface forces a resize-equivalent recovery at the
    // current size.
    assert!(!state.handle_render_error(SurfaceError::Lost));
    assert_eq!(state.surface.get(), SurfaceAccess::NotReady);
    // Out of memory ends the loop.
    assert!(state.handle_render_error(SurfaceError::OutOfMemory));
    // Transient errors are left to the next tick.
    assert!(!state.handle_render_error(SurfaceError::Outdated));
    assert!(!state.handle_render_error(SurfaceError::Timeout));
}

#[test]
fn exit_flag_is_monotonic() {
    let mut flag = ExitFlag::new();
    assert!(!flag.get());
    flag.set();
    assert!(flag.get());
    flag.set();
    assert!(flag.get());
}

#[test]
fn initialisation_failures_describe_themselves() {
    let adapter = GameInitialisationFailure::AdapterError;
    assert_eq!(
        adapter.describe(),
        "failed to find an adapter (GPU) that supports the render surface"
    );
    let device = GameInitialisationFailure::DeviceError(String::from("backend says no"));
    assert_eq!(
        device.describe(),
        "failed to request a device from the adapter chosen: backend says no"
    );
}

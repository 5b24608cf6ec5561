use dip_desktop::event::{
    DomainEvent, KeyboardEvent, NativeAction, NativeWindowEvent, UserEvent, Warning, WindowCommand,
};
use dip_desktop::policy::{NextWake, UpdateMode, UpdateModeSettings, decide};
use dip_desktop::registry::OpenWindowRequest;
use dip_desktop::runloop::{ControlDirective, RunLoop, make_mouse_motion};
use dip_desktop::tasks::AsyncResultEvent;
use dip_desktop::window::{WindowDescriptor, WindowMode};

fn reactive_settings(max_wait_ms: u64) -> UpdateModeSettings {
    UpdateModeSettings {
        focused_mode: UpdateMode::Reactive { max_wait_ms },
        unfocused_mode: UpdateMode::ReactiveLowPower { max_wait_ms },
    }
}

fn continuous_settings() -> UpdateModeSettings {
    UpdateModeSettings {
        focused_mode: UpdateMode::Continuous,
        unfocused_mode: UpdateMode::Continuous,
    }
}

fn open_request(native_id: u64) -> OpenWindowRequest {
    OpenWindowRequest {
        native_id,
        descriptor: WindowDescriptor {
            requested_width_milli: 800_000,
            requested_height_milli: 600_000,
            scale_factor_override_milli: None,
            mode: WindowMode::Windowed,
            resizable: true,
            decorations: true,
        },
    }
}

/// A loop with its window already open, as after startup.
fn loop_with_window(settings: UpdateModeSettings, now_ms: u64, native_id: u64) -> RunLoop {
    let mut rl = RunLoop::new(settings, now_ms);
    rl.start_tick(now_ms, false);
    rl.main_events_cleared(now_ms, &vec![open_request(native_id)]);
    rl.finish_tick(false);
    rl
}

#[test]
fn decide_continuous_always_updates() {
    for focused in [false, true] {
        for trigger in [false, true] {
            let d = decide(UpdateMode::Continuous, focused, 500, 100, trigger);
            assert!(d.should_update);
            assert_eq!(d.next_wake, NextWake::Immediate);
        }
    }
}

#[test]
fn decide_reactive_deadline_is_last_update_plus_max_wait() {
    // No triggering input, not yet elapsed: no update, wake at 60+50.
    let d = decide(UpdateMode::Reactive { max_wait_ms: 50 }, true, 100, 60, false);
    assert!(!d.should_update);
    assert_eq!(d.next_wake, NextWake::At { deadline_ms: 110 });
    // Once the max-wait has elapsed the decision is to update even with
    // no input at all.
    let d = decide(UpdateMode::Reactive { max_wait_ms: 50 }, true, 110, 60, false);
    assert!(d.should_update);
    // Triggering input updates before the deadline too.
    let d = decide(UpdateMode::ReactiveLowPower { max_wait_ms: 50 }, false, 70, 60, true);
    assert!(d.should_update);
}

#[test]
fn decide_ignores_focus() {
    let a = decide(UpdateMode::Reactive { max_wait_ms: 9 }, true, 30, 25, false);
    let b = decide(UpdateMode::Reactive { max_wait_ms: 9 }, false, 30, 25, false);
    assert_eq!(a, b);
}

#[test]
fn continuous_directive_polls_every_tick() {
    let mut rl = loop_with_window(continuous_settings(), 0, 7);
    for tick in 1..5u64 {
        rl.start_tick(tick * 10, false);
        rl.main_events_cleared(tick * 10, &Vec::new());
        let d = rl.finish_tick(false);
        assert_eq!(d, ControlDirective::PollImmediately);
    }
}

#[test]
fn reactive_directive_sleeps_until_deadline() {
    let mut rl = loop_with_window(reactive_settings(50), 0, 7);
    // The opening tick updated at t=0 (timeout flag starts false but the
    // first main phase recomputes only if something triggered; with a
    // fresh loop nothing did, so last_update stays 0).
    rl.start_tick(10, false);
    rl.main_events_cleared(10, &Vec::new());
    let d = rl.finish_tick(false);
    assert_eq!(d, ControlDirective::WaitUntil { deadline_ms: 50 });
}

#[test]
fn reactive_updates_once_max_wait_elapses() {
    let mut rl = loop_with_window(reactive_settings(50), 0, 7);
    // At t=60 the max-wait of 50 has elapsed with zero native events:
    // the tick decides to update.
    rl.start_tick(60, true);
    let out = rl.main_events_cleared(60, &Vec::new());
    assert!(out.should_update);
    assert_eq!(rl.state.last_update_ms, 60);
    let d = rl.finish_tick(false);
    assert_eq!(d, ControlDirective::WaitUntil { deadline_ms: 110 });
}

#[test]
fn suspended_loop_never_updates() {
    let mut rl = loop_with_window(continuous_settings(), 0, 7);
    rl.set_suspended();
    rl.start_tick(10, false);
    let out = rl.main_events_cleared(10, &Vec::new());
    assert!(!out.should_update);
    rl.finish_tick(false);
    rl.set_resumed();
    rl.start_tick(20, false);
    let out = rl.main_events_cleared(20, &Vec::new());
    assert!(out.should_update);
}

#[test]
fn exit_signal_terminates_whatever_else_happened() {
    // Continuous mode, a redraw queued this tick — exit still wins.
    let mut rl = loop_with_window(continuous_settings(), 0, 7);
    rl.start_tick(10, false);
    rl.request_redraw();
    rl.main_events_cleared(10, &Vec::new());
    let d = rl.finish_tick(true);
    assert_eq!(d, ControlDirective::Terminate);
    assert!(rl.terminated);

    // Reactive mode with a pending deadline — exit still wins.
    let mut rl = loop_with_window(reactive_settings(50), 0, 8);
    rl.start_tick(10, false);
    rl.main_events_cleared(10, &Vec::new());
    let d = rl.finish_tick(true);
    assert_eq!(d, ControlDirective::Terminate);
}

#[test]
fn redraw_request_forces_poll_in_reactive_mode() {
    let mut rl = loop_with_window(reactive_settings(50), 0, 7);
    rl.start_tick(10, false);
    rl.request_redraw();
    rl.main_events_cleared(10, &Vec::new());
    let d = rl.finish_tick(false);
    assert_eq!(d, ControlDirective::PollImmediately);
    // The flag carries into the next tick's update decision.
    rl.start_tick(20, false);
    let out = rl.main_events_cleared(20, &Vec::new());
    assert!(out.should_update);
}

#[test]
fn native_resize_emits_through_the_loop() {
    let mut rl = loop_with_window(reactive_settings(50), 0, 7);
    rl.start_tick(10, false);
    let out = rl.handle_native_window_event(
        7,
        NativeWindowEvent::Resized { width: 850, height: 600 },
    );
    assert!(out.warning.is_none());
    assert_eq!(out.emitted.len(), 1);
    assert!(matches!(
        out.emitted[0],
        DomainEvent::WindowResized { width_milli: 850_000, height_milli: 600_000, .. }
    ));
    // Native input counts as a trigger for the update decision.
    let main = rl.main_events_cleared(10, &Vec::new());
    assert!(main.should_update);
}

#[test]
fn native_event_for_unknown_window_is_skipped() {
    let mut rl = loop_with_window(reactive_settings(50), 0, 7);
    rl.start_tick(10, false);
    let out = rl.handle_native_window_event(
        99,
        NativeWindowEvent::Resized { width: 850, height: 600 },
    );
    assert_eq!(out.warning, Some(Warning::UnknownNativeWindow));
    assert!(out.emitted.is_empty());
    assert!(out.actions.is_empty());
    // A skipped event is not triggering input.
    let main = rl.main_events_cleared(10, &Vec::new());
    assert!(!main.should_update);
}

#[test]
fn native_close_focus_move_and_files() {
    let mut rl = loop_with_window(reactive_settings(50), 0, 7);
    rl.start_tick(10, false);

    let out = rl.handle_native_window_event(7, NativeWindowEvent::CloseRequested);
    assert!(matches!(out.emitted[0], DomainEvent::WindowCloseRequested { .. }));

    let out = rl.handle_native_window_event(7, NativeWindowEvent::Focused { focused: true });
    assert!(matches!(out.emitted[0], DomainEvent::WindowFocused { focused: true, .. }));
    assert!(rl.registry.any_focused());

    let out = rl.handle_native_window_event(7, NativeWindowEvent::Moved { x: 30, y: -4 });
    assert!(matches!(out.emitted[0], DomainEvent::WindowMoved { x: 30, y: -4, .. }));

    let out = rl.handle_native_window_event(
        7,
        NativeWindowEvent::DroppedFile { path: String::from("a.txt") },
    );
    assert!(matches!(&out.emitted[0], DomainEvent::FileDropped { path, .. } if path == "a.txt"));

    let out = rl.handle_native_window_event(
        7,
        NativeWindowEvent::HoveredFile { path: String::from("b.txt") },
    );
    assert!(matches!(&out.emitted[0], DomainEvent::FileHovered { path, .. } if path == "b.txt"));

    let out = rl.handle_native_window_event(7, NativeWindowEvent::HoveredFileCancelled);
    assert!(matches!(out.emitted[0], DomainEvent::FileHoverCancelled { .. }));
}

#[test]
fn native_scale_change_with_override_forces_and_acts() {
    let mut rl = RunLoop::new(reactive_settings(50), 0);
    rl.start_tick(0, false);
    let mut req = open_request(7);
    req.descriptor.scale_factor_override_milli = Some(2000);
    rl.main_events_cleared(0, &vec![req]);
    rl.finish_tick(false);

    rl.start_tick(10, false);
    let out = rl.handle_native_window_event(
        7,
        NativeWindowEvent::ScaleFactorChanged { scale_milli: 3000, inner_width: 11, inner_height: 22 },
    );
    // The backend report is always surfaced; the override pins the
    // effective factor, so no scale-factor-changed event follows, and
    // the inner size is forced back to the override-scaled request.
    assert!(matches!(
        out.emitted[0],
        DomainEvent::WindowBackendScaleFactorChanged { scale_milli: 3000, .. }
    ));
    assert!(!out.emitted.iter().any(|e| matches!(e, DomainEvent::WindowScaleFactorChanged { .. })));
    assert_eq!(out.actions.len(), 1);
    assert!(matches!(
        out.actions[0],
        NativeAction::SetInnerSize { width: 1600, height: 1200 }
    ));
}

#[test]
fn native_scale_change_without_override_rescales() {
    let mut rl = loop_with_window(reactive_settings(50), 0, 7);
    rl.start_tick(10, false);
    let out = rl.handle_native_window_event(
        7,
        NativeWindowEvent::ScaleFactorChanged {
            scale_milli: 2000,
            inner_width: 1600,
            inner_height: 1200,
        },
    );
    // In order: the backend report, the effective-factor change, and the
    // resize that recomputing the logical size at the new factor owes.
    assert_eq!(out.emitted.len(), 3);
    assert!(matches!(
        out.emitted[0],
        DomainEvent::WindowBackendScaleFactorChanged { scale_milli: 2000, .. }
    ));
    assert!(matches!(
        out.emitted[1],
        DomainEvent::WindowScaleFactorChanged { scale_milli: 2000, .. }
    ));
    assert!(matches!(
        out.emitted[2],
        DomainEvent::WindowResized { width_milli: 800_000, height_milli: 600_000, .. }
    ));
    assert!(out.actions.is_empty());
}

#[test]
fn every_window_command_queues_exactly_one_redraw() {
    let commands = vec![
        WindowCommand::Update,
        WindowCommand::Close,
        WindowCommand::Drag,
        WindowCommand::Visible { visible: false },
        WindowCommand::Minimize { minimized: true },
        WindowCommand::Maximize { maximized: true },
        WindowCommand::MaximizeToggle,
        WindowCommand::FullscreenToggle,
        WindowCommand::Focus,
        WindowCommand::Resizable { resizable: false },
        WindowCommand::AlwaysOnTop { always_on_top: true },
        WindowCommand::CursorVisible { visible: false },
        WindowCommand::CursorGrab { grab: true },
        WindowCommand::SetTitle { title: String::from("t") },
        WindowCommand::SetDecorations { decorations: false },
        WindowCommand::SetZoomLevel { zoom_milli: 1500 },
        WindowCommand::Print,
        WindowCommand::DevTools,
        WindowCommand::Eval { script: String::from("1+1") },
    ];
    let n = commands.len() as u64;
    let mut rl = loop_with_window(reactive_settings(50), 0, 7);
    rl.start_tick(10, false);
    let before = rl.state.redraws_this_tick;
    for command in commands {
        let out = rl.handle_window_command(command);
        assert!(out.warning.is_none());
    }
    assert_eq!(rl.state.redraws_this_tick, before + n);
}

#[test]
fn window_command_without_window_is_dropped() {
    let mut rl = RunLoop::new(reactive_settings(50), 0);
    rl.start_tick(0, false);
    let out = rl.handle_window_command(WindowCommand::Print);
    assert_eq!(out.warning, Some(Warning::NoWindowForCommand));
    assert!(out.emitted.is_empty());
    assert!(out.actions.is_empty());
    assert_eq!(rl.state.redraws_this_tick, 0);
}

#[test]
fn window_commands_mutate_and_act() {
    let mut rl = loop_with_window(reactive_settings(50), 0, 7);
    rl.start_tick(10, false);

    let out = rl.handle_window_command(WindowCommand::Close);
    assert!(matches!(out.emitted[0], DomainEvent::WindowCloseRequested { .. }));

    let out = rl.handle_window_command(WindowCommand::Focus);
    assert!(matches!(out.emitted[0], DomainEvent::WindowFocused { focused: true, .. }));
    assert!(rl.registry.any_focused());

    let out = rl.handle_window_command(WindowCommand::MaximizeToggle);
    assert!(matches!(out.actions[0], NativeAction::SetMaximized { maximized: true }));

    let out = rl.handle_window_command(WindowCommand::FullscreenToggle);
    assert!(matches!(out.actions[0], NativeAction::SetFullscreen { fullscreen: true }));

    // A drag is refused while fullscreen and honored when windowed again.
    let out = rl.handle_window_command(WindowCommand::Drag);
    assert!(out.actions.is_empty());
    rl.handle_window_command(WindowCommand::FullscreenToggle);
    let out = rl.handle_window_command(WindowCommand::Drag);
    assert!(matches!(out.actions[0], NativeAction::Drag));

    let out = rl.handle_window_command(WindowCommand::SetTitle { title: String::from("hello") });
    assert!(matches!(&out.actions[0], NativeAction::SetTitle { title } if title == "hello"));
}

#[test]
fn domain_command_forwarded_verbatim() {
    let mut rl = loop_with_window(reactive_settings(50), 0, 7);
    rl.start_tick(10, false);
    let payload = vec![1u8, 2, 3];
    let out = rl.handle_user_event(UserEvent::DomainCommand { payload: payload.clone() });
    assert_eq!(out.emitted.len(), 1);
    assert!(matches!(&out.emitted[0], DomainEvent::DomainCommand { payload: p } if *p == payload));
    // Forwarding queues no redraw.
    assert_eq!(rl.state.redraws_this_tick, 0);
}

#[test]
fn async_result_forwarded_verbatim() {
    let mut rl = loop_with_window(reactive_settings(50), 0, 7);
    rl.start_tick(10, false);
    let result = AsyncResultEvent { task_id: 4, success: false, payload: vec![9u8] };
    let out = rl.handle_user_event(UserEvent::AsyncResult { result });
    assert!(matches!(
        &out.emitted[0],
        DomainEvent::AsyncResult { result } if result.task_id == 4 && !result.success
    ));
    assert_eq!(rl.state.redraws_this_tick, 0);
}

#[test]
fn keyboard_with_character_yields_three_events_in_order() {
    let mut rl = loop_with_window(reactive_settings(50), 0, 7);
    rl.start_tick(10, false);
    let event = KeyboardEvent {
        key: String::from("a"),
        scan_code: 30,
        key_code: Some(65),
        pressed: true,
    };
    let out = rl.handle_user_event(UserEvent::Keyboard { event });
    assert_eq!(out.emitted.len(), 3);
    assert!(matches!(&out.emitted[0], DomainEvent::Keyboard { event } if event.key == "a"));
    assert!(matches!(
        out.emitted[1],
        DomainEvent::KeyboardInput { input } if input.scan_code == 30 && input.key_code == Some(65) && input.pressed
    ));
    assert!(matches!(out.emitted[2], DomainEvent::ReceivedCharacter { ch: 'a' }));
    // The keyboard fan-out queues one redraw.
    assert_eq!(rl.state.redraws_this_tick, 1);
}

#[test]
fn keyboard_without_character_yields_two_events() {
    let mut rl = loop_with_window(reactive_settings(50), 0, 7);
    rl.start_tick(10, false);
    let event = KeyboardEvent {
        key: String::from("Escape"),
        scan_code: 1,
        key_code: Some(27),
        pressed: true,
    };
    let out = rl.handle_user_event(UserEvent::Keyboard { event });
    assert_eq!(out.emitted.len(), 2);
    assert!(matches!(&out.emitted[0], DomainEvent::Keyboard { .. }));
    assert!(matches!(out.emitted[1], DomainEvent::KeyboardInput { .. }));
}

#[test]
fn keyboard_multibyte_character_is_produced() {
    let mut rl = loop_with_window(reactive_settings(50), 0, 7);
    rl.start_tick(10, false);
    let event = KeyboardEvent {
        key: String::from("é"),
        scan_code: 0,
        key_code: None,
        pressed: true,
    };
    let out = rl.handle_user_event(UserEvent::Keyboard { event });
    assert_eq!(out.emitted.len(), 3);
    assert!(matches!(out.emitted[2], DomainEvent::ReceivedCharacter { ch: 'é' }));
}

#[test]
fn device_motion_is_forwarded() {
    let e = make_mouse_motion(1500, -2500);
    assert!(matches!(
        e,
        DomainEvent::MouseMotion { delta_x_milli: 1500, delta_y_milli: -2500 }
    ));
}

#[test]
fn second_open_request_through_the_loop_warns_once() {
    let mut rl = loop_with_window(reactive_settings(50), 0, 7);
    rl.start_tick(10, false);
    let out = rl.main_events_cleared(10, &vec![open_request(8)]);
    assert_eq!(out.created, None);
    assert_eq!(out.open_warnings, 1);
    assert_eq!(rl.registry.count(), 1);
}

#[test]
fn native_event_for_closed_window_is_skipped_with_its_own_warning() {
    let mut rl = loop_with_window(reactive_settings(50), 0, 7);
    rl.registry.close_primary().unwrap();
    rl.start_tick(10, false);
    let out = rl.handle_native_window_event(
        7,
        NativeWindowEvent::Resized { width: 850, height: 600 },
    );
    assert_eq!(out.warning, Some(Warning::WindowClosed));
    assert!(out.emitted.is_empty());
    let out = rl.handle_native_window_event(
        99,
        NativeWindowEvent::Resized { width: 850, height: 600 },
    );
    assert_eq!(out.warning, Some(Warning::UnknownNativeWindow));
}

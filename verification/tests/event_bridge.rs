use vide::events::{Direction, UiEvent};
use vide::frame::{
    frame_key_event, frame_sleep_duration, process_pending_events, RawEvent, FRAME_LENGTH_NS,
};
use vide::keyboard::{produce_keybinding_string, KeyCode, ModifierSet};
use vide::redraw_scheduler::{perform_redraw_calls, RedrawCall, RedrawScheduler};
use vide::window::{FullscreenAction, WindowState};

fn control() -> ModifierSet {
    ModifierSet {
        shift: false,
        control: true,
        alt: false,
        gui: false,
    }
}

#[test]
fn redraw_queue_coalesces() {
    let mut sched = RedrawScheduler::new();
    assert!(!sched.should_draw());
    sched.queue_next_frame();
    sched.queue_next_frame();
    sched.queue_next_frame();
    assert!(sched.should_draw());
    assert!(!sched.should_draw());
    sched.queue_next_frame();
    assert!(sched.should_draw());
    assert!(!sched.should_draw());
}

#[test]
fn redraw_calls_replay() {
    let mut sched = RedrawScheduler::new();
    let calls = vec![
        RedrawCall::Noop,
        RedrawCall::QueueNextFrame,
        RedrawCall::Noop,
        RedrawCall::QueueNextFrame,
    ];
    perform_redraw_calls(&mut sched, &calls);
    assert!(sched.should_draw());
    assert!(!sched.should_draw());
    let noops = vec![RedrawCall::Noop, RedrawCall::Noop];
    perform_redraw_calls(&mut sched, &noops);
    assert!(!sched.should_draw());
}

#[test]
fn motion_without_button_never_drags() {
    let mut w = WindowState::new((4, 4));
    assert_eq!(w.handle_pointer_motion(55, 25, 1), None);
    assert_eq!(w.handle_pointer_motion(995, 475, 1), None);
    assert_eq!(w.mouse_position, (99, 47));
    assert!(!w.mouse_down);
}

#[test]
fn motion_with_button_drags_only_on_change() {
    let mut w = WindowState::new((4, 4));
    w.handle_pointer_motion(55, 25, 1);
    assert_eq!(w.handle_pointer_down(), UiEvent::MousePressed(5, 2));
    // Sub-cell jitter: logical position unchanged, nothing emitted.
    assert_eq!(w.handle_pointer_motion(57, 29, 1), None);
    // A real move emits exactly one drag carrying the new position.
    assert_eq!(
        w.handle_pointer_motion(65, 25, 1),
        Some(UiEvent::MouseDragged(6, 2))
    );
    assert_eq!(w.handle_pointer_up(), UiEvent::MouseReleased(6, 2));
    assert!(!w.mouse_down);
}

#[test]
fn motion_clamps_negative_pixels() {
    let mut w = WindowState::new((4, 4));
    w.handle_pointer_motion(-30, -1, 1);
    assert_eq!(w.mouse_position, (0, 0));
}

#[test]
fn motion_divides_by_scale() {
    let mut w = WindowState::new((4, 4));
    w.handle_pointer_motion(100, 60, 2);
    assert_eq!(w.mouse_position, (5, 3));
}

#[test]
fn wheel_vertical_only() {
    let mut w = WindowState::new((4, 4));
    w.handle_pointer_motion(35, 45, 1);
    let events = w.handle_mouse_wheel(0, 5);
    assert_eq!(events, vec![UiEvent::Scroll(Direction::Up, 3, 4)]);
}

#[test]
fn wheel_diagonal_two_events_in_order() {
    let w = WindowState::new((4, 4));
    let events = w.handle_mouse_wheel(-3, -2);
    assert_eq!(
        events,
        vec![
            UiEvent::Scroll(Direction::Left, 0, 0),
            UiEvent::Scroll(Direction::Down, 0, 0),
        ]
    );
}

#[test]
fn wheel_zero_emits_nothing() {
    let w = WindowState::new((4, 4));
    assert_eq!(w.handle_mouse_wheel(0, 0), Vec::<UiEvent>::new());
}

#[test]
fn wheel_right_and_up() {
    let w = WindowState::new((4, 4));
    let events = w.handle_mouse_wheel(2, 7);
    assert_eq!(
        events,
        vec![
            UiEvent::Scroll(Direction::Right, 0, 0),
            UiEvent::Scroll(Direction::Up, 0, 0),
        ]
    );
}

#[test]
fn encode_nothing_is_none() {
    assert_eq!(
        produce_keybinding_string(None, None, ModifierSet::empty()),
        None
    );
}

#[test]
fn encode_literal_text_passes_through() {
    assert_eq!(
        produce_keybinding_string(Some(KeyCode::A), Some("a".to_owned()), ModifierSet::empty()),
        Some("a".to_owned())
    );
}

#[test]
fn encode_shift_keeps_literal_text() {
    let shift = ModifierSet {
        shift: true,
        control: false,
        alt: false,
        gui: false,
    };
    assert_eq!(
        produce_keybinding_string(Some(KeyCode::A), Some("A".to_owned()), shift),
        Some("A".to_owned())
    );
}

#[test]
fn encode_control_chord_is_deterministic() {
    let first = produce_keybinding_string(Some(KeyCode::A), None, control());
    let second = produce_keybinding_string(Some(KeyCode::A), None, control());
    assert_eq!(first, Some("<C-a>".to_owned()));
    assert_eq!(first, second);
}

#[test]
fn encode_orders_modifiers_fixed() {
    let all = ModifierSet {
        shift: true,
        control: true,
        alt: true,
        gui: true,
    };
    assert_eq!(
        produce_keybinding_string(Some(KeyCode::X), None, all),
        Some("<S-C-M-D-x>".to_owned())
    );
}

#[test]
fn encode_named_key_is_bracketed() {
    assert_eq!(
        produce_keybinding_string(Some(KeyCode::Escape), None, ModifierSet::empty()),
        Some("<esc>".to_owned())
    );
    assert_eq!(
        produce_keybinding_string(Some(KeyCode::Return), None, control()),
        Some("<C-cr>".to_owned())
    );
}

#[test]
fn encode_bare_printable_key_is_plain() {
    assert_eq!(
        produce_keybinding_string(Some(KeyCode::B), None, ModifierSet::empty()),
        Some("b".to_owned())
    );
    assert_eq!(
        produce_keybinding_string(Some(KeyCode::Num7), None, ModifierSet::empty()),
        Some("7".to_owned())
    );
}

#[test]
fn encode_chord_overrides_text() {
    assert_eq!(
        produce_keybinding_string(Some(KeyCode::C), Some("c".to_owned()), control()),
        Some("<C-c>".to_owned())
    );
}

#[test]
fn fullscreen_round_trip_restores_geometry() {
    let mut w = WindowState::new((4, 4));
    assert!(!w.fullscreen);
    let entered = w.toggle_fullscreen((640, 480), (17, 23));
    assert_eq!(entered, FullscreenAction::Enter);
    assert!(w.fullscreen);
    assert_eq!(w.cached_size, (640, 480));
    assert_eq!(w.cached_position, (17, 23));
    // Whatever geometry the platform reports while fullscreen, exiting
    // restores exactly what was cached on entry.
    let restored = w.toggle_fullscreen((1920, 1080), (0, 0));
    assert_eq!(restored, FullscreenAction::Restore((640, 480), (17, 23)));
    assert!(!w.fullscreen);
}

#[test]
fn draw_frame_tracks_size_and_consumes_flag() {
    let mut w = WindowState::new((4, 4));
    let mut sched = RedrawScheduler::new();
    assert_eq!(w.previous_logical_size, (40, 41));
    sched.queue_next_frame();
    let first = w.draw_frame(&mut sched, (40, 41));
    assert!(!first.resized);
    assert!(first.should_render);
    let second = w.draw_frame(&mut sched, (80, 60));
    assert!(second.resized);
    assert!(!second.should_render);
    assert_eq!(w.previous_logical_size, (80, 60));
}

#[test]
fn focus_gained_queues_redraw() {
    let w = WindowState::new((4, 4));
    let mut sched = RedrawScheduler::new();
    assert_eq!(w.handle_focus_lost(), UiEvent::FocusLost);
    assert_eq!(w.handle_focus_gained(&mut sched), UiEvent::FocusGained);
    assert!(sched.should_draw());
}

#[test]
fn batch_stops_at_quit() {
    let mut w = WindowState::new((4, 4));
    let mut sched = RedrawScheduler::new();
    let events = vec![
        RawEvent::MouseButtonDown,
        RawEvent::Quit,
        RawEvent::MouseButtonUp,
        RawEvent::FocusLost,
    ];
    let (emitted, _inputs, quit) = process_pending_events(&mut w, &mut sched, &events, 1);
    assert!(quit);
    assert_eq!(
        emitted,
        vec![UiEvent::MousePressed(0, 0), UiEvent::Quit]
    );
    // The release after the quit was never routed.
    assert!(w.mouse_down);
}

#[test]
fn batch_routes_in_delivery_order() {
    let mut w = WindowState::new((4, 4));
    let mut sched = RedrawScheduler::new();
    let events = vec![
        RawEvent::MouseMotion(55, 25),
        RawEvent::MouseButtonDown,
        RawEvent::MouseMotion(65, 25),
        RawEvent::MouseWheel(0, 1),
        RawEvent::MouseButtonUp,
    ];
    let (emitted, inputs, quit) = process_pending_events(&mut w, &mut sched, &events, 1);
    assert!(!quit);
    assert_eq!(
        emitted,
        vec![
            UiEvent::MousePressed(5, 2),
            UiEvent::MouseDragged(6, 2),
            UiEvent::Scroll(Direction::Up, 6, 2),
            UiEvent::MouseReleased(6, 2),
        ]
    );
    assert_eq!(inputs.keycode, None);
    assert_eq!(inputs.keytext, None);
    assert!(!inputs.ignore_text);
}

#[test]
fn batch_buffers_key_input() {
    let mut w = WindowState::new((4, 4));
    let mut sched = RedrawScheduler::new();
    let events = vec![
        RawEvent::KeyDown(Some(KeyCode::A)),
        RawEvent::TextInput("a".to_owned()),
        RawEvent::WindowOther,
    ];
    let (emitted, inputs, quit) = process_pending_events(&mut w, &mut sched, &events, 1);
    assert!(!quit);
    assert_eq!(emitted, Vec::<UiEvent>::new());
    assert_eq!(inputs.keycode, Some(KeyCode::A));
    assert_eq!(inputs.keytext, Some("a".to_owned()));
    assert!(!inputs.ignore_text);
    // Unclassified window activity queued a redraw.
    assert!(sched.should_draw());
    assert_eq!(
        frame_key_event(&w, inputs, ModifierSet::empty()),
        Some(UiEvent::KeyboardInput("a".to_owned()))
    );
}

#[test]
fn focus_regain_suppresses_text_one_frame() {
    let mut w = WindowState::new((4, 4));
    let mut sched = RedrawScheduler::new();
    let events = vec![
        RawEvent::FocusGained,
        RawEvent::KeyDown(Some(KeyCode::A)),
        RawEvent::TextInput("a".to_owned()),
    ];
    let (emitted, inputs, _quit) = process_pending_events(&mut w, &mut sched, &events, 1);
    assert_eq!(emitted, vec![UiEvent::FocusGained]);
    assert!(inputs.ignore_text);
    assert_eq!(frame_key_event(&w, inputs, ModifierSet::empty()), None);
    // Regaining focus forced a redraw.
    assert!(sched.should_draw());
}

#[test]
fn pacing_sleeps_the_remainder() {
    assert_eq!(FRAME_LENGTH_NS, 1_000_000_000 / 144);
    assert_eq!(frame_sleep_duration(0), FRAME_LENGTH_NS);
    assert_eq!(
        frame_sleep_duration(FRAME_LENGTH_NS - 1000),
        1000
    );
}

#[test]
fn pacing_never_waits_over_budget() {
    assert_eq!(frame_sleep_duration(FRAME_LENGTH_NS), 0);
    assert_eq!(frame_sleep_duration(FRAME_LENGTH_NS + 1), 0);
    assert_eq!(frame_sleep_duration(u64::MAX), 0);
    // The budget is a constant: a slow frame does not shorten the next one.
    assert_eq!(frame_sleep_duration(0), FRAME_LENGTH_NS);
}

#[test]
fn new_state_is_windowed_and_idle() {
    let w = WindowState::new((64, 64));
    assert!(!w.mouse_down);
    assert_eq!(w.mouse_position, (0, 0));
    assert!(!w.fullscreen);
    assert_eq!(w.previous_logical_size, (640, 641));
    assert_eq!(w.title, "Neovide");
}

#[test]
fn quit_event_translates() {
    let w = WindowState::new((4, 4));
    assert_eq!(w.handle_quit(), UiEvent::Quit);
}

#[test]
fn keyboard_input_wraps_encoder() {
    let w = WindowState::new((4, 4));
    assert_eq!(
        w.handle_keyboard_input(Some(KeyCode::A), None, control()),
        Some(UiEvent::KeyboardInput("<C-a>".to_owned()))
    );
    assert_eq!(
        w.handle_keyboard_input(None, None, ModifierSet::empty()),
        None
    );
}

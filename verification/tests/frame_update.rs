use widget_bridge::event::{ElementState, Event, Key, KeyCode, Modifiers};
use widget_bridge::session::Ui;
use widget_bridge::update::{
    update_ui, KeyboardInput, MouseButtonInput, SessionAction, State, UpdateUiSystemParams,
};

fn empty_params(width: u32, height: u32) -> UpdateUiSystemParams {
    UpdateUiSystemParams {
        state: State::default(),
        window_width: width,
        window_height: height,
        keyboard_events: Vec::new(),
        character_events: Vec::new(),
        mouse_button_events: Vec::new(),
        cursor_moved_events: Vec::new(),
        mouse_wheel_events: Vec::new(),
        window_resize_events: Vec::new(),
    }
}

#[test]
fn events_translate_in_the_fixed_category_order() {
    let mut params = empty_params(1280, 720);
    params.window_resize_events.push((800, 600));
    params.keyboard_events.push(KeyboardInput {
        key_code: Some(KeyCode::A),
        state: ElementState::Pressed,
    });
    params.character_events.push('a' as u32);
    params.cursor_moved_events.push((10, 20));
    params.mouse_wheel_events.push((0, -1));
    params.mouse_button_events.push(MouseButtonInput {
        button: widget_bridge::event::MouseButton::Left,
        state: ElementState::Pressed,
    });
    let events = params.translate_events();
    assert_eq!(
        events,
        vec![
            Event::Resize(800, 600),
            Event::Press(Key::A),
            Event::Text('a' as u32),
            // the cursor is flipped against the window height
            Event::Cursor(10, 700),
            Event::Scroll(0, -1),
            Event::Press(Key::LeftMouseButton),
        ]
    );
}

#[test]
fn redundant_resize_notifications_are_dropped() {
    // the window reports 800x600 and the host delivers a stale notification
    // carrying the same size: nothing is forwarded
    let mut params = empty_params(800, 600);
    params.window_resize_events.push((800, 600));
    let events = params.translate_events();
    assert_eq!(events, Vec::new());
    assert_eq!(params.state.current_window_size, Some((800, 600)));
}

#[test]
fn repeated_resize_notifications_forward_once() {
    let mut params = empty_params(800, 600);
    params.window_resize_events.push((1024, 768));
    params.window_resize_events.push((1024, 768));
    params.window_resize_events.push((640, 480));
    params.window_resize_events.push((640, 480));
    let events = params.translate_events();
    // each size change is forwarded exactly once
    assert_eq!(events, vec![Event::Resize(1024, 768), Event::Resize(640, 480)]);
    assert_eq!(params.state.current_window_size, Some((640, 480)));
}

#[test]
fn stale_resize_notification_forces_no_redraw() {
    // a session whose applied size is already 800x600 receives one host
    // notification carrying 800x600: no event is delivered and no draw
    // extraction follows
    let mut params = empty_params(800, 600);
    let mut ui: Ui<u32> = Ui::new();
    update_ui(&mut params, &mut ui, None);
    params.window_resize_events.push((800, 600));
    let actions = update_ui(&mut params, &mut ui, None);
    assert_eq!(actions, Vec::new());
    assert!(!ui.needs_redraw());
}

#[test]
fn keyboard_without_scan_code_is_dropped() {
    let mut params = empty_params(1280, 720);
    params.keyboard_events.push(KeyboardInput { key_code: None, state: ElementState::Pressed });
    params.keyboard_events.push(KeyboardInput {
        key_code: Some(KeyCode::F1),
        state: ElementState::Pressed,
    });
    let events = params.translate_events();
    assert_eq!(events, Vec::new());
}

#[test]
fn modifier_state_persists_across_frames() {
    let mut params = empty_params(1280, 720);
    params.keyboard_events.push(KeyboardInput {
        key_code: Some(KeyCode::LShift),
        state: ElementState::Pressed,
    });
    let events = params.translate_events();
    assert_eq!(
        events,
        vec![
            Event::Modifiers(Modifiers { ctrl: false, alt: false, shift: true, logo: false }),
            Event::Press(Key::Shift),
        ]
    );
    // next frame: shift is still held in the persistent record
    params.keyboard_events.clear();
    assert!(params.state.modifiers.shift);
}

#[test]
fn commands_apply_before_this_frames_input_events() {
    let mut params = empty_params(800, 600);
    params.keyboard_events.push(KeyboardInput {
        key_code: Some(KeyCode::B),
        state: ElementState::Pressed,
    });
    let mut ui: Ui<&'static str> = Ui::new();
    ui.send_command("A");
    ui.send_command("B");
    ui.send_command("C");
    let actions = update_ui(&mut params, &mut ui, None);
    assert_eq!(
        actions,
        vec![
            // first frame: the window size was never applied
            SessionAction::Resize(800, 600),
            // background commands in FIFO order, strictly before input
            SessionAction::Command("A"),
            SessionAction::Command("B"),
            SessionAction::Command("C"),
            SessionAction::Event(Event::Press(Key::B)),
            // the session ended dirty, so the draw list is extracted once
            SessionAction::Draw,
        ]
    );
}

#[test]
fn quiet_frames_request_no_redraw() {
    let mut params = empty_params(800, 600);
    let mut ui: Ui<u32> = Ui::new();
    let first = update_ui(&mut params, &mut ui, None);
    assert_eq!(first, vec![SessionAction::Resize(800, 600), SessionAction::Draw]);
    // second frame with the same size and no input: nothing happens at all
    let second = update_ui(&mut params, &mut ui, None);
    assert_eq!(second, Vec::new());
    assert!(!ui.needs_redraw());
}

#[test]
fn stylesheet_swap_forces_a_redraw() {
    let mut params = empty_params(800, 600);
    let mut ui: Ui<u32> = Ui::new();
    update_ui(&mut params, &mut ui, None);
    let actions = update_ui(&mut params, &mut ui, Some(9));
    assert_eq!(actions, vec![SessionAction::ReplaceStylesheet(9), SessionAction::Draw]);
}

#[test]
fn window_resize_reaches_the_session_once() {
    let mut params = empty_params(800, 600);
    let mut ui: Ui<u32> = Ui::new();
    update_ui(&mut params, &mut ui, None);
    // the host window changed size
    params.window_width = 1024;
    params.window_height = 768;
    let actions = update_ui(&mut params, &mut ui, None);
    assert_eq!(actions, vec![SessionAction::Resize(1024, 768), SessionAction::Draw]);
    // the same size again is not forwarded
    let again = update_ui(&mut params, &mut ui, None);
    assert_eq!(again, Vec::new());
}

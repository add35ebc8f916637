use widget_bridge::event::{
    flip_cursor_y, key_to_char, translate_key_code, translate_keyboard_input,
    translate_mouse_button, ElementState, Event, Key, KeyCode, Modifiers, MouseButton, State,
};

#[test]
fn letter_scan_codes_translate_one_to_one() {
    assert_eq!(translate_key_code(KeyCode::A), Some(Key::A));
    assert_eq!(translate_key_code(KeyCode::Z), Some(Key::Z));
    assert_eq!(translate_key_code(KeyCode::Key1), Some(Key::Key1));
    assert_eq!(translate_key_code(KeyCode::Key0), Some(Key::Key0));
    assert_eq!(translate_key_code(KeyCode::Return), Some(Key::Enter));
    assert_eq!(translate_key_code(KeyCode::Back), Some(Key::Backspace));
    assert_eq!(translate_key_code(KeyCode::Space), Some(Key::Space));
}

#[test]
fn unrecognized_scan_codes_are_silently_dropped() {
    assert_eq!(translate_key_code(KeyCode::F1), None);
    assert_eq!(translate_key_code(KeyCode::Insert), None);
    assert_eq!(translate_key_code(KeyCode::PageDown), None);
    assert_eq!(translate_key_code(KeyCode::Minus), None);
    // only the left variant of each modifier translates to a key
    assert_eq!(translate_key_code(KeyCode::LShift), Some(Key::Shift));
    assert_eq!(translate_key_code(KeyCode::RShift), None);
    assert_eq!(translate_key_code(KeyCode::RControl), None);
    assert_eq!(translate_key_code(KeyCode::LWin), None);
}

#[test]
fn mouse_buttons_map_through_fixed_table() {
    assert_eq!(translate_mouse_button(MouseButton::Left), Some(Key::LeftMouseButton));
    assert_eq!(translate_mouse_button(MouseButton::Right), Some(Key::RightMouseButton));
    assert_eq!(translate_mouse_button(MouseButton::Middle), Some(Key::MiddleMouseButton));
    assert_eq!(translate_mouse_button(MouseButton::Other(4)), None);
}

#[test]
fn press_a_with_no_modifiers_emits_press_then_text() {
    // end-to-end: press 'A' with no modifiers held
    let mut modifiers = Modifiers::none();
    let mut events: Vec<Event> = Vec::new();
    translate_keyboard_input(&mut modifiers, KeyCode::A, ElementState::Pressed, &mut events);
    assert_eq!(events, vec![Event::Press(Key::A)]);
    // the key-derived fallback composition then yields the lowercase letter
    let composed = key_to_char(Key::A, modifiers.shift);
    assert_eq!(composed, Some('a'));
    events.push(Event::Text(composed.unwrap() as u32));
    assert_eq!(events, vec![Event::Press(Key::A), Event::Text('a' as u32)]);
}

#[test]
fn press_a_with_shift_held_composes_uppercase() {
    let mut modifiers = Modifiers::none();
    let mut events: Vec<Event> = Vec::new();
    // hold shift: a modifiers event comes first, then the shift key press
    translate_keyboard_input(&mut modifiers, KeyCode::LShift, ElementState::Pressed, &mut events);
    assert!(modifiers.shift);
    assert_eq!(
        events,
        vec![
            Event::Modifiers(Modifiers { ctrl: false, alt: false, shift: true, logo: false }),
            Event::Press(Key::Shift),
        ]
    );
    // now press 'A': the composed character follows the shift state
    translate_keyboard_input(&mut modifiers, KeyCode::A, ElementState::Pressed, &mut events);
    assert_eq!(events.last(), Some(&Event::Press(Key::A)));
    assert_eq!(key_to_char(Key::A, modifiers.shift), Some('A'));
}

#[test]
fn right_modifier_variants_update_the_same_flags() {
    let mut modifiers = Modifiers::none();
    let mut events: Vec<Event> = Vec::new();
    translate_keyboard_input(
        &mut modifiers,
        KeyCode::RControl,
        ElementState::Pressed,
        &mut events,
    );
    assert!(modifiers.ctrl);
    // the right control key itself translates to no key: only the
    // modifiers event is emitted
    assert_eq!(
        events,
        vec![Event::Modifiers(Modifiers { ctrl: true, alt: false, shift: false, logo: false })]
    );
    translate_keyboard_input(
        &mut modifiers,
        KeyCode::RControl,
        ElementState::Released,
        &mut events,
    );
    assert!(!modifiers.ctrl);
}

#[test]
fn logo_keys_set_the_logo_flag() {
    let mut modifiers = Modifiers::none();
    let mut events: Vec<Event> = Vec::new();
    translate_keyboard_input(&mut modifiers, KeyCode::LWin, ElementState::Pressed, &mut events);
    assert!(modifiers.logo);
    assert!(!modifiers.shift);
}

#[test]
fn key_to_char_covers_digits_and_space() {
    assert_eq!(key_to_char(Key::Key7, false), Some('7'));
    assert_eq!(key_to_char(Key::Key7, true), Some('7'));
    assert_eq!(key_to_char(Key::Space, false), Some(' '));
    assert_eq!(key_to_char(Key::Enter, false), None);
    assert_eq!(key_to_char(Key::LeftMouseButton, false), None);
}

#[test]
fn cursor_y_is_flipped_against_window_height() {
    assert_eq!(flip_cursor_y(720, 0), 720);
    assert_eq!(flip_cursor_y(720, 720), 0);
    assert_eq!(flip_cursor_y(720, 100), 620);
}

#[test]
fn window_size_changes_are_deduplicated() {
    let mut state = State::default();
    assert_eq!(state.observe_window_size(1280, 720), Some((1280, 720)));
    assert_eq!(state.observe_window_size(1280, 720), None);
    assert_eq!(state.observe_window_size(1280, 721), Some((1280, 721)));
    assert_eq!(state.observe_window_size(1280, 721), None);
}

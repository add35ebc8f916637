//! Translation of host input primitives into the widget library's event model.
//!
//! Keyboard scan codes map 1:1 onto the fixed set of recognized keys;
//! unrecognized codes are silently dropped. Modifier keys update a persistent
//! modifier-state record and additionally emit a `Modifiers` event carrying
//! the full current state. Cursor coordinates arrive in a top-left origin and
//! are flipped against the window height. Mouse buttons map through a fixed
//! three-entry table. Resize events are deduplicated against the last seen
//! window size.

use vstd::prelude::*;

verus! {

/// A host keyboard scan code, as delivered by the windowing layer.
#[derive(Clone, Copy, Debug, PartialEq, Eq, Structural)]
pub enum KeyCode {
    Key1,
    Key2,
    Key3,
    Key4,
    Key5,
    Key6,
    Key7,
    Key8,
    Key9,
    Key0,
    A,
    B,
    C,
    D,
    E,
    F,
    G,
    H,
    I,
    J,
    K,
    L,
    M,
    N,
    O,
    P,
    Q,
    R,
    S,
    T,
    U,
    V,
    W,
    X,
    Y,
    Z,
    Escape,
    Tab,
    LShift,
    RShift,
    LControl,
    RControl,
    LAlt,
    RAlt,
    LWin,
    RWin,
    Space,
    Return,
    Back,
    Home,
    End,
    Left,
    Right,
    Up,
    Down,
    F1,
    F2,
    F3,
    F4,
    Insert,
    Delete,
    PageUp,
    PageDown,
    Minus,
    Equals,
}

/// A key in the widget library's fixed key enumeration.
#[derive(Clone, Copy, Debug, PartialEq, Eq, Structural)]
pub enum Key {
    Key1,
    Key2,
    Key3,
    Key4,
    Key5,
    Key6,
    Key7,
    Key8,
    Key9,
    Key0,
    A,
    B,
    C,
    D,
    E,
    F,
    G,
    H,
    I,
    J,
    K,
    L,
    M,
    N,
    O,
    P,
    Q,
    R,
    S,
    T,
    U,
    V,
    W,
    X,
    Y,
    Z,
    Escape,
    Tab,
    Shift,
    Ctrl,
    Alt,
    Space,
    Enter,
    Backspace,
    Home,
    End,
    Left,
    Right,
    Up,
    Down,
    LeftMouseButton,
    RightMouseButton,
    MiddleMouseButton,
}

/// A host mouse button.
#[derive(Clone, Copy, Debug, PartialEq, Eq, Structural)]
pub enum MouseButton {
    Left,
    Right,
    Middle,
    Other(u16),
}

/// Whether a key or button transitioned to pressed or to released.
#[derive(Clone, Copy, Debug, PartialEq, Eq, Structural)]
pub enum ElementState {
    Pressed,
    Released,
}

/// The full modifier-key state: one flag per modifier, left and right
/// variants folded together.
#[derive(Clone, Copy, Debug, PartialEq, Eq, Structural)]
pub struct Modifiers {
    pub ctrl: bool,
    pub alt: bool,
    pub shift: bool,
    pub logo: bool,
}

impl Modifiers {
    /// The state with no modifier held.
    pub fn none() -> (r: Modifiers)
        ensures
            r == (Modifiers { ctrl: false, alt: false, shift: false, logo: false }),
    {
        Modifiers { ctrl: false, alt: false, shift: false, logo: false }
    }
}

/// A normalized input event in the widget library's model. Composed text
/// input carries the character's unicode scalar value.
#[derive(Clone, Copy, Debug, PartialEq, Eq, Structural)]
pub enum Event {
    Resize(u32, u32),
    Modifiers(Modifiers),
    Press(Key),
    Release(Key),
    Text(u32),
    Cursor(u32, u32),
    Scroll(i32, i32),
}

/// The scan-code translation table: the keys the widget library recognizes,
/// everything else dropped.
pub open spec fn spec_translate_key_code(key_code: KeyCode) -> Option<Key> {
    match key_code {
        KeyCode::Key1 => Some(Key::Key1),
        KeyCode::Key2 => Some(Key::Key2),
        KeyCode::Key3 => Some(Key::Key3),
        KeyCode::Key4 => Some(Key::Key4),
        KeyCode::Key5 => Some(Key::Key5),
        KeyCode::Key6 => Some(Key::Key6),
        KeyCode::Key7 => Some(Key::Key7),
        KeyCode::Key8 => Some(Key::Key8),
        KeyCode::Key9 => Some(Key::Key9),
        KeyCode::Key0 => Some(Key::Key0),
        KeyCode::A => Some(Key::A),
        KeyCode::B => Some(Key::B),
        KeyCode::C => Some(Key::C),
        KeyCode::D => Some(Key::D),
        KeyCode::E => Some(Key::E),
        KeyCode::F => Some(Key::F),
        KeyCode::G => Some(Key::G),
        KeyCode::H => Some(Key::H),
        KeyCode::I => Some(Key::I),
        KeyCode::J => Some(Key::J),
        KeyCode::K => Some(Key::K),
        KeyCode::L => Some(Key::L),
        KeyCode::M => Some(Key::M),
        KeyCode::N => Some(Key::N),
        KeyCode::O => Some(Key::O),
        KeyCode::P => Some(Key::P),
        KeyCode::Q => Some(Key::Q),
        KeyCode::R => Some(Key::R),
        KeyCode::S => Some(Key::S),
        KeyCode::T => Some(Key::T),
        KeyCode::U => Some(Key::U),
        KeyCode::V => Some(Key::V),
        KeyCode::W => Some(Key::W),
        KeyCode::X => Some(Key::X),
        KeyCode::Y => Some(Key::Y),
        KeyCode::Z => Some(Key::Z),
        KeyCode::Escape => Some(Key::Escape),
        KeyCode::Tab => Some(Key::Tab),
        KeyCode::LShift => Some(Key::Shift),
        KeyCode::LControl => Some(Key::Ctrl),
        KeyCode::LAlt => Some(Key::Alt),
        KeyCode::Space => Some(Key::Space),
        KeyCode::Return => Some(Key::Enter),
        KeyCode::Back => Some(Key::Backspace),
        KeyCode::Home => Some(Key::Home),
        KeyCode::End => Some(Key::End),
        KeyCode::Left => Some(Key::Left),
        KeyCode::Right => Some(Key::Right),
        KeyCode::Up => Some(Key::Up),
        KeyCode::Down => Some(Key::Down),
        _ => None,
    }
}

/// Maps one host scan code to the widget library's key, or `None` for a
/// code outside the recognized set.
pub fn translate_key_code(key_code: KeyCode) -> (r: Option<Key>)
    ensures
        r == spec_translate_key_code(key_code),
{
    match key_code {
        KeyCode::Key1 => Some(Key::Key1),
        KeyCode::Key2 => Some(Key::Key2),
        KeyCode::Key3 => Some(Key::Key3),
        KeyCode::Key4 => Some(Key::Key4),
        KeyCode::Key5 => Some(Key::Key5),
        KeyCode::Key6 => Some(Key::Key6),
        KeyCode::Key7 => Some(Key::Key7),
        KeyCode::Key8 => Some(Key::Key8),
        KeyCode::Key9 => Some(Key::Key9),
        KeyCode::Key0 => Some(Key::Key0),
        KeyCode::A => Some(Key::A),
        KeyCode::B => Some(Key::B),
        KeyCode::C => Some(Key::C),
        KeyCode::D => Some(Key::D),
        KeyCode::E => Some(Key::E),
        KeyCode::F => Some(Key::F),
        KeyCode::G => Some(Key::G),
        KeyCode::H => Some(Key::H),
        KeyCode::I => Some(Key::I),
        KeyCode::J => Some(Key::J),
        KeyCode::K => Some(Key::K),
        KeyCode::L => Some(Key::L),
        KeyCode::M => Some(Key::M),
        KeyCode::N => Some(Key::N),
        KeyCode::O => Some(Key::O),
        KeyCode::P => Some(Key::P),
        KeyCode::Q => Some(Key::Q),
        KeyCode::R => Some(Key::R),
        KeyCode::S => Some(Key::S),
        KeyCode::T => Some(Key::T),
        KeyCode::U => Some(Key::U),
        KeyCode::V => Some(Key::V),
        KeyCode::W => Some(Key::W),
        KeyCode::X => Some(Key::X),
        KeyCode::Y => Some(Key::Y),
        KeyCode::Z => Some(Key::Z),
        KeyCode::Escape => Some(Key::Escape),
        KeyCode::Tab => Some(Key::Tab),
        KeyCode::LShift => Some(Key::Shift),
        KeyCode::LControl => Some(Key::Ctrl),
        KeyCode::LAlt => Some(Key::Alt),
        KeyCode::Space => Some(Key::Space),
        KeyCode::Return => Some(Key::Enter),
        KeyCode::Back => Some(Key::Backspace),
        KeyCode::Home => Some(Key::Home),
        KeyCode::End => Some(Key::End),
        KeyCode::Left => Some(Key::Left),
        KeyCode::Right => Some(Key::Right),
        KeyCode::Up => Some(Key::Up),
        KeyCode::Down => Some(Key::Down),
        _ => None,
    }
}

/// The mouse-button translation table: left, right and middle map onto three
/// key codes, other buttons are dropped.
pub open spec fn spec_translate_mouse_button(button: MouseButton) -> Option<Key> {
    match button {
        MouseButton::Left => Some(Key::LeftMouseButton),
        MouseButton::Right => Some(Key::RightMouseButton),
        MouseButton::Middle => Some(Key::MiddleMouseButton),
        MouseButton::Other(_) => None,
    }
}

/// Maps one host mouse button to the widget library's key, or `None` for a
/// button outside the fixed three-entry table.
pub fn translate_mouse_button(button: MouseButton) -> (r: Option<Key>)
    ensures
        r == spec_translate_mouse_button(button),
{
    match button {
        MouseButton::Left => Some(Key::LeftMouseButton),
        MouseButton::Right => Some(Key::RightMouseButton),
        MouseButton::Middle => Some(Key::MiddleMouseButton),
        MouseButton::Other(_) => None,
    }
}

/// Whether this scan code is one of the modifier keys, left or right variant.
pub open spec fn spec_is_modifier_key(key_code: KeyCode) -> bool {
    match key_code {
        KeyCode::LControl | KeyCode::RControl => true,
        KeyCode::LAlt | KeyCode::RAlt => true,
        KeyCode::LShift | KeyCode::RShift => true,
        KeyCode::LWin | KeyCode::RWin => true,
        _ => false,
    }
}

/// The modifier state after one keyboard transition: the flag of the affected
/// modifier follows the pressed state, all other flags keep their value.
pub open spec fn spec_modifiers_after(m: Modifiers, key_code: KeyCode, pressed: bool) -> Modifiers {
    match key_code {
        KeyCode::LControl | KeyCode::RControl => Modifiers { ctrl: pressed, ..m },
        KeyCode::LAlt | KeyCode::RAlt => Modifiers { alt: pressed, ..m },
        KeyCode::LShift | KeyCode::RShift => Modifiers { shift: pressed, ..m },
        KeyCode::LWin | KeyCode::RWin => Modifiers { logo: pressed, ..m },
        _ => m,
    }
}

/// The events one keyboard transition produces: a `Modifiers` event first if
/// a modifier key was involved, then `Press` or `Release` of the translated
/// key if the scan code is recognized.
pub open spec fn spec_keyboard_events(m: Modifiers, key_code: KeyCode, pressed: bool) -> Seq<Event> {
    let head: Seq<Event> = if spec_is_modifier_key(key_code) {
        seq![Event::Modifiers(spec_modifiers_after(m, key_code, pressed))]
    } else {
        Seq::empty()
    };
    let tail: Seq<Event> = match spec_translate_key_code(key_code) {
        Some(key) => if pressed {
            seq![Event::Press(key)]
        } else {
            seq![Event::Release(key)]
        },
        None => Seq::empty(),
    };
    head + tail
}

/// Feeds one keyboard transition through the modifier-state record, appending
/// the produced events to `events`.
pub fn translate_keyboard_input(
    modifiers: &mut Modifiers,
    key_code: KeyCode,
    state: ElementState,
    events: &mut Vec<Event>,
) ensures
        *final(modifiers) == spec_modifiers_after(
            *old(modifiers),
            key_code,
            state == ElementState::Pressed,
        ),
        final(events)@ == old(events)@ + spec_keyboard_events(
            *old(modifiers),
            key_code,
            state == ElementState::Pressed,
        ),
{
    let pressed = match state {
        ElementState::Pressed => true,
        ElementState::Released => false,
    };
    let is_modifier = match key_code {
        KeyCode::LControl | KeyCode::RControl => {
            modifiers.ctrl = pressed;
            true
        },
        KeyCode::LAlt | KeyCode::RAlt => {
            modifiers.alt = pressed;
            true
        },
        KeyCode::LShift | KeyCode::RShift => {
            modifiers.shift = pressed;
            true
        },
        KeyCode::LWin | KeyCode::RWin => {
            modifiers.logo = pressed;
            true
        },
        _ => false,
    };
    if is_modifier {
        events.push(Event::Modifiers(*modifiers));
    }
    match translate_key_code(key_code) {
        Some(key) => {
            if pressed {
                events.push(Event::Press(key));
            } else {
                events.push(Event::Release(key));
            }
        },
        None => {},
    }
    proof {
        assert(events@ =~= old(events)@ + spec_keyboard_events(
            *old(modifiers),
            key_code,
            state == ElementState::Pressed,
        ));
    }
}

/// The fallback key-to-character table, used only when the host provides no
/// composed character input: letters follow the shift state, digits and the
/// space bar are fixed.
pub open spec fn spec_key_to_char(key: Key, shift: bool) -> Option<char> {
    match key {
        Key::A => Some(if shift { 'A' } else { 'a' }),
        Key::B => Some(if shift { 'B' } else { 'b' }),
        Key::C => Some(if shift { 'C' } else { 'c' }),
        Key::D => Some(if shift { 'D' } else { 'd' }),
        Key::E => Some(if shift { 'E' } else { 'e' }),
        Key::F => Some(if shift { 'F' } else { 'f' }),
        Key::G => Some(if shift { 'G' } else { 'g' }),
        Key::H => Some(if shift { 'H' } else { 'h' }),
        Key::I => Some(if shift { 'I' } else { 'i' }),
        Key::J => Some(if shift { 'J' } else { 'j' }),
        Key::K => Some(if shift { 'K' } else { 'k' }),
        Key::L => Some(if shift { 'L' } else { 'l' }),
        Key::M => Some(if shift { 'M' } else { 'm' }),
        Key::N => Some(if shift { 'N' } else { 'n' }),
        Key::O => Some(if shift { 'O' } else { 'o' }),
        Key::P => Some(if shift { 'P' } else { 'p' }),
        Key::Q => Some(if shift { 'Q' } else { 'q' }),
        Key::R => Some(if shift { 'R' } else { 'r' }),
        Key::S => Some(if shift { 'S' } else { 's' }),
        Key::T => Some(if shift { 'T' } else { 't' }),
        Key::U => Some(if shift { 'U' } else { 'u' }),
        Key::V => Some(if shift { 'V' } else { 'v' }),
        Key::W => Some(if shift { 'W' } else { 'w' }),
        Key::X => Some(if shift { 'X' } else { 'x' }),
        Key::Y => Some(if shift { 'Y' } else { 'y' }),
        Key::Z => Some(if shift { 'Z' } else { 'z' }),
        Key::Key1 => Some('1'),
        Key::Key2 => Some('2'),
        Key::Key3 => Some('3'),
        Key::Key4 => Some('4'),
        Key::Key5 => Some('5'),
        Key::Key6 => Some('6'),
        Key::Key7 => Some('7'),
        Key::Key8 => Some('8'),
        Key::Key9 => Some('9'),
        Key::Key0 => Some('0'),
        Key::Space => Some(' '),
        _ => None,
    }
}

/// Derives the printable character for a key under the given shift state, or
/// `None` for a key that composes no character.
pub fn key_to_char(key: Key, shift: bool) -> (r: Option<char>)
    ensures
        r == spec_key_to_char(key, shift),
{
    match key {
        Key::A => Some(if shift { 'A' } else { 'a' }),
        Key::B => Some(if shift { 'B' } else { 'b' }),
        Key::C => Some(if shift { 'C' } else { 'c' }),
        Key::D => Some(if shift { 'D' } else { 'd' }),
        Key::E => Some(if shift { 'E' } else { 'e' }),
        Key::F => Some(if shift { 'F' } else { 'f' }),
        Key::G => Some(if shift { 'G' } else { 'g' }),
        Key::H => Some(if shift { 'H' } else { 'h' }),
        Key::I => Some(if shift { 'I' } else { 'i' }),
        Key::J => Some(if shift { 'J' } else { 'j' }),
        Key::K => Some(if shift { 'K' } else { 'k' }),
        Key::L => Some(if shift { 'L' } else { 'l' }),
        Key::M => Some(if shift { 'M' } else { 'm' }),
        Key::N => Some(if shift { 'N' } else { 'n' }),
        Key::O => Some(if shift { 'O' } else { 'o' }),
        Key::P => Some(if shift { 'P' } else { 'p' }),
        Key::Q => Some(if shift { 'Q' } else { 'q' }),
        Key::R => Some(if shift { 'R' } else { 'r' }),
        Key::S => Some(if shift { 'S' } else { 's' }),
        Key::T => Some(if shift { 'T' } else { 't' }),
        Key::U => Some(if shift { 'U' } else { 'u' }),
        Key::V => Some(if shift { 'V' } else { 'v' }),
        Key::W => Some(if shift { 'W' } else { 'w' }),
        Key::X => Some(if shift { 'X' } else { 'x' }),
        Key::Y => Some(if shift { 'Y' } else { 'y' }),
        Key::Z => Some(if shift { 'Z' } else { 'z' }),
        Key::Key1 => Some('1'),
        Key::Key2 => Some('2'),
        Key::Key3 => Some('3'),
        Key::Key4 => Some('4'),
        Key::Key5 => Some('5'),
        Key::Key6 => Some('6'),
        Key::Key7 => Some('7'),
        Key::Key8 => Some('8'),
        Key::Key9 => Some('9'),
        Key::Key0 => Some('0'),
        Key::Space => Some(' '),
        _ => None,
    }
}

/// Translates one cursor position from the host's top-left origin to the
/// widget library's bottom-left origin by flipping the Y axis against the
/// window height.
pub fn flip_cursor_y(window_height: u32, y: u32) -> (r: u32)
    requires
        y <= window_height,
    ensures
        r == window_height - y,
{
    window_height - y
}

/// The persistent translation state: the current modifier record and the last
/// seen window size, used to drop redundant resize notifications.
pub struct State {
    pub modifiers: Modifiers,
    pub current_window_size: Option<(u32, u32)>,
}

impl Default for State {
    /// The initial state: no modifier held, no window size seen yet.
    fn default() -> (r: Self)
        ensures
            r.modifiers == (Modifiers { ctrl: false, alt: false, shift: false, logo: false }),
            r.current_window_size is None,
    {
        State {
            modifiers: Modifiers { ctrl: false, alt: false, shift: false, logo: false },
            current_window_size: None,
        }
    }
}

impl State {
    /// Records the window size seen this frame and reports the size to apply,
    /// `Some` only on an actual change.
    pub fn observe_window_size(&mut self, width: u32, height: u32) -> (r: Option<(u32, u32)>)
        ensures
            final(self).modifiers == old(self).modifiers,
            final(self).current_window_size == Some((width, height)),
            r == if old(self).current_window_size == Some((width, height)) {
                Option::<(u32, u32)>::None
            } else {
                Some((width, height))
            },
    {
        let changed = match self.current_window_size {
            None => true,
            Some((w, h)) => !(w == width && h == height),
        };
        self.current_window_size = Some((width, height));
        if changed {
            Some((width, height))
        } else {
            None
        }
    }
}

} // verus!

//! The per-frame UI update: one bundle of frame inputs, translated into the
//! widget library's event stream, driving each session in the fixed order —
//! resize on an actual size change, stylesheet swap, the drained
//! asynchronous commands in FIFO order, then this frame's input events, and
//! a single draw extraction when the session ended up dirty.

use vstd::prelude::*;

use crate::event::{ElementState, Event, KeyCode, Modifiers, MouseButton};
use crate::event::{
    spec_keyboard_events, spec_modifiers_after, spec_translate_mouse_button,
    translate_keyboard_input, translate_mouse_button,
};
use crate::session::{resize_triggers, Ui};

verus! {

/// One raw keyboard transition from the host, with the scan code the host
/// may or may not have resolved.
#[derive(Clone, Copy, Debug, PartialEq, Eq, Structural)]
pub struct KeyboardInput {
    /// The resolved scan code, if the host knew one.
    pub key_code: Option<KeyCode>,
    /// Whether the key went down or up.
    pub state: ElementState,
}

/// One raw mouse button transition from the host.
#[derive(Clone, Copy, Debug, PartialEq, Eq, Structural)]
pub struct MouseButtonInput {
    /// The button.
    pub button: MouseButton,
    /// Whether the button went down or up.
    pub state: ElementState,
}

/// The persistent per-system state carried across frames: the modifier
/// record, and the last seen window size used to drop redundant resize
/// notifications.
pub struct State {
    /// The current modifier-key state.
    pub modifiers: Modifiers,
    /// The last seen window size.
    pub current_window_size: Option<(u32, u32)>,
}

impl Default for State {
    /// Initially no modifier is held and no window size was seen yet.
    fn default() -> (r: Self)
        ensures
            r.modifiers == (Modifiers { ctrl: false, alt: false, shift: false, logo: false }),
            r.current_window_size is None,
    {
        State {
            modifiers: Modifiers { ctrl: false, alt: false, shift: false, logo: false },
            current_window_size: None,
        }
    }
}

/// Everything the per-frame update needs from the host, gathered into one
/// plain parameter struct.
pub struct UpdateUiSystemParams {
    /// The persistent translation state.
    pub state: State,
    /// The logical window width.
    pub window_width: u32,
    /// The logical window height, also the axis the cursor is flipped
    /// against.
    pub window_height: u32,
    /// This frame's keyboard transitions, in arrival order.
    pub keyboard_events: Vec<KeyboardInput>,
    /// This frame's composed character input, as unicode scalar values, in
    /// arrival order.
    pub character_events: Vec<u32>,
    /// This frame's mouse button transitions, in arrival order.
    pub mouse_button_events: Vec<MouseButtonInput>,
    /// This frame's cursor positions, top-left origin, in arrival order.
    pub cursor_moved_events: Vec<(u32, u32)>,
    /// This frame's wheel deltas, in arrival order.
    pub mouse_wheel_events: Vec<(i32, i32)>,
    /// This frame's window resize notifications, in arrival order.
    pub window_resize_events: Vec<(u32, u32)>,
}

/// The last seen window size after a sequence of resize notifications:
/// every notification updates it, whether or not it is forwarded.
pub open spec fn spec_last_seen(
    last: Option<(u32, u32)>,
    sizes: Seq<(u32, u32)>,
) -> Option<(u32, u32)> {
    if sizes.len() == 0 {
        last
    } else {
        Some(sizes.last())
    }
}

/// The events a sequence of resize notifications translates to, starting
/// from a last seen size: a notification is forwarded only when its size
/// differs from the last seen one — a redundant notification is silently
/// dropped.
pub open spec fn spec_resize_events(last: Option<(u32, u32)>, sizes: Seq<(u32, u32)>) -> Seq<
    Event,
>
    decreases sizes.len(),
{
    if sizes.len() == 0 {
        Seq::empty()
    } else {
        spec_resize_events(last, sizes.drop_last()) + (
        if resize_triggers(spec_last_seen(last, sizes.drop_last()), sizes.last()) {
            seq![Event::Resize(sizes.last().0, sizes.last().1)]
        } else {
            Seq::empty()
        })
    }
}

/// The events composed character input translates to.
pub open spec fn spec_text_events(chars: Seq<u32>) -> Seq<Event>
    decreases chars.len(),
{
    if chars.len() == 0 {
        Seq::empty()
    } else {
        spec_text_events(chars.drop_last()).push(Event::Text(chars.last()))
    }
}

/// The events cursor positions translate to: the Y axis is flipped against
/// the window height.
pub open spec fn spec_cursor_events(cursors: Seq<(u32, u32)>, window_height: u32) -> Seq<Event>
    decreases cursors.len(),
{
    if cursors.len() == 0 {
        Seq::empty()
    } else {
        spec_cursor_events(cursors.drop_last(), window_height).push(
            Event::Cursor(cursors.last().0, (window_height - cursors.last().1) as u32),
        )
    }
}

/// The events wheel deltas translate to.
pub open spec fn spec_scroll_events(wheels: Seq<(i32, i32)>) -> Seq<Event>
    decreases wheels.len(),
{
    if wheels.len() == 0 {
        Seq::empty()
    } else {
        spec_scroll_events(wheels.drop_last()).push(
            Event::Scroll(wheels.last().0, wheels.last().1),
        )
    }
}

/// The modifier state after one raw keyboard transition.
pub open spec fn spec_item_modifiers(m: Modifiers, k: KeyboardInput) -> Modifiers {
    match k.key_code {
        Some(code) => spec_modifiers_after(m, code, k.state == ElementState::Pressed),
        None => m,
    }
}

/// The events one raw keyboard transition translates to; a transition
/// without a resolved scan code is dropped.
pub open spec fn spec_item_keyboard_events(m: Modifiers, k: KeyboardInput) -> Seq<Event> {
    match k.key_code {
        Some(code) => spec_keyboard_events(m, code, k.state == ElementState::Pressed),
        None => Seq::empty(),
    }
}

/// The modifier state after a whole sequence of keyboard transitions.
pub open spec fn spec_modifiers_fold(m0: Modifiers, ks: Seq<KeyboardInput>) -> Modifiers
    decreases ks.len(),
{
    if ks.len() == 0 {
        m0
    } else {
        spec_item_modifiers(spec_modifiers_fold(m0, ks.drop_last()), ks.last())
    }
}

/// The events a whole sequence of keyboard transitions translates to, each
/// one under the modifier state its predecessors left behind.
pub open spec fn spec_keyboard_stream(m0: Modifiers, ks: Seq<KeyboardInput>) -> Seq<Event>
    decreases ks.len(),
{
    if ks.len() == 0 {
        Seq::empty()
    } else {
        spec_keyboard_stream(m0, ks.drop_last()) + spec_item_keyboard_events(
            spec_modifiers_fold(m0, ks.drop_last()),
            ks.last(),
        )
    }
}

/// The events one raw mouse button transition translates to; a button
/// outside the fixed table is dropped.
pub open spec fn spec_item_button_events(b: MouseButtonInput) -> Seq<Event> {
    match spec_translate_mouse_button(b.button) {
        Some(key) => if b.state == ElementState::Pressed {
            seq![Event::Press(key)]
        } else {
            seq![Event::Release(key)]
        },
        None => Seq::empty(),
    }
}

/// The events a whole sequence of mouse button transitions translates to.
pub open spec fn spec_button_events(bs: Seq<MouseButtonInput>) -> Seq<Event>
    decreases bs.len(),
{
    if bs.len() == 0 {
        Seq::empty()
    } else {
        spec_button_events(bs.drop_last()) + spec_item_button_events(bs.last())
    }
}

/// The full event stream of one frame, in the fixed translation order:
/// resizes (deduplicated against the window size the frame reports),
/// keyboard, characters, cursor moves, wheel, mouse buttons.
pub open spec fn spec_frame_events(m0: Modifiers, p: &UpdateUiSystemParams) -> Seq<Event> {
    spec_resize_events(
        Some((p.window_width, p.window_height)),
        p.window_resize_events@,
    ) + spec_keyboard_stream(m0, p.keyboard_events@)
        + spec_text_events(p.character_events@) + spec_cursor_events(
        p.cursor_moved_events@,
        p.window_height,
    ) + spec_scroll_events(p.mouse_wheel_events@) + spec_button_events(p.mouse_button_events@)
}

/// Every cursor position lies within the window height, so the Y flip stays
/// representable.
pub open spec fn spec_cursors_in_window(p: &UpdateUiSystemParams) -> bool {
    forall|i: int|
        0 <= i < p.cursor_moved_events@.len() ==> (#[trigger] p.cursor_moved_events@[i]).1
            <= p.window_height
}

impl UpdateUiSystemParams {
    /// Translates this frame's raw host input into the widget library's
    /// event stream, updating the persistent modifier record.
    #[verifier::rlimit(50)]
    pub fn translate_events(&mut self) -> (events: Vec<Event>)
        requires
            spec_cursors_in_window(old(self)),
        ensures
            events@ == spec_frame_events(old(self).state.modifiers, old(self)),
            final(self).state.modifiers == spec_modifiers_fold(
                old(self).state.modifiers,
                old(self).keyboard_events@,
            ),
            final(self).state.current_window_size == spec_last_seen(
                Some((old(self).window_width, old(self).window_height)),
                old(self).window_resize_events@,
            ),
            final(self).window_width == old(self).window_width,
            final(self).window_height == old(self).window_height,
            final(self).keyboard_events@ == old(self).keyboard_events@,
            final(self).character_events@ == old(self).character_events@,
            final(self).mouse_button_events@ == old(self).mouse_button_events@,
            final(self).cursor_moved_events@ == old(self).cursor_moved_events@,
            final(self).mouse_wheel_events@ == old(self).mouse_wheel_events@,
            final(self).window_resize_events@ == old(self).window_resize_events@,
    {
        let ghost m0 = self.state.modifiers;
        let ghost p0 = *self;
        let mut events: Vec<Event> = Vec::new();

        // observe the size the window reports this frame; notifications are
        // then deduplicated against the last seen size
        self.state.current_window_size = Some((self.window_width, self.window_height));
        let ghost seen0: Option<(u32, u32)> = Some((self.window_width, self.window_height));

        let n = self.window_resize_events.len();
        let mut i: usize = 0;
        while i < n
            invariant
                i <= n,
                n == self.window_resize_events@.len(),
                self.keyboard_events@ == p0.keyboard_events@,
                self.character_events@ == p0.character_events@,
                self.cursor_moved_events@ == p0.cursor_moved_events@,
                self.mouse_wheel_events@ == p0.mouse_wheel_events@,
                self.mouse_button_events@ == p0.mouse_button_events@,
                self.window_resize_events@ == p0.window_resize_events@,
                self.window_width == p0.window_width,
                self.window_height == p0.window_height,
                self.state.modifiers == m0,
                self.state.current_window_size == spec_last_seen(
                    seen0,
                    self.window_resize_events@.take(i as int),
                ),
                events@ == spec_resize_events(
                    seen0,
                    self.window_resize_events@.take(i as int),
                ),
            decreases n - i,
        {
            let ghost prefix = self.window_resize_events@.take(i as int);
            proof {
                assert(self.window_resize_events@.take(i as int + 1).drop_last() =~= prefix);
                assert(self.window_resize_events@.take(i as int + 1).last()
                    == self.window_resize_events@[i as int]);
            }
            let (w, h) = self.window_resize_events[i];
            let changed = match self.state.current_window_size {
                None => true,
                Some((pw, ph)) => !(pw == w && ph == h),
            };
            self.state.current_window_size = Some((w, h));
            if changed {
                events.push(Event::Resize(w, h));
            }
            i = i + 1;
            proof {
                assert(events@ =~= spec_resize_events(
                    seen0,
                    self.window_resize_events@.take(i as int),
                ));
            }
        }
        proof {
            assert(self.window_resize_events@.take(n as int) =~= self.window_resize_events@);
        }
        let ghost part_resize = events@;

        let n = self.keyboard_events.len();
        let mut i: usize = 0;
        proof {
            assert(self.keyboard_events@.take(0) =~= Seq::<KeyboardInput>::empty());
            assert(part_resize + spec_keyboard_stream(m0, self.keyboard_events@.take(0))
                =~= part_resize);
        }
        while i < n
            invariant
                i <= n,
                n == self.keyboard_events@.len(),
                self.keyboard_events@ == p0.keyboard_events@,
                self.character_events@ == p0.character_events@,
                self.cursor_moved_events@ == p0.cursor_moved_events@,
                self.mouse_wheel_events@ == p0.mouse_wheel_events@,
                self.mouse_button_events@ == p0.mouse_button_events@,
                self.window_resize_events@ == p0.window_resize_events@,
                self.window_width == p0.window_width,
                self.window_height == p0.window_height,
                self.state.current_window_size == spec_last_seen(
                    seen0,
                    p0.window_resize_events@,
                ),
                self.state.modifiers == spec_modifiers_fold(
                    m0,
                    self.keyboard_events@.take(i as int),
                ),
                events@ == part_resize + spec_keyboard_stream(
                    m0,
                    self.keyboard_events@.take(i as int),
                ),
            decreases n - i,
        {
            let ghost prefix = self.keyboard_events@.take(i as int);
            proof {
                assert(self.keyboard_events@.take(i as int + 1).drop_last() =~= prefix);
                assert(self.keyboard_events@.take(i as int + 1).last()
                    == self.keyboard_events@[i as int]);
            }
            let k = self.keyboard_events[i];
            match k.key_code {
                Some(code) => {
                    translate_keyboard_input(&mut self.state.modifiers, code, k.state, &mut events);
                },
                None => {},
            }
            i = i + 1;
            proof {
                assert(events@ =~= part_resize + spec_keyboard_stream(
                    m0,
                    self.keyboard_events@.take(i as int),
                ));
            }
        }
        proof {
            assert(self.keyboard_events@.take(n as int) =~= self.keyboard_events@);
        }
        let ghost part_keyboard = events@;

        let n = self.character_events.len();
        let mut i: usize = 0;
        proof {
            assert(self.character_events@.take(0) =~= Seq::<u32>::empty());
            assert(part_keyboard + spec_text_events(self.character_events@.take(0))
                =~= part_keyboard);
        }
        while i < n
            invariant
                i <= n,
                n == self.character_events@.len(),
                events@ == part_keyboard + spec_text_events(
                    self.character_events@.take(i as int),
                ),
            decreases n - i,
        {
            events.push(Event::Text(self.character_events[i]));
            i = i + 1;
            proof {
                reveal_with_fuel(spec_text_events, 2);
                let cs = self.character_events@;
                assert(cs.take(i as int).drop_last() =~= cs.take(i as int - 1));
                assert(cs.take(i as int).last() == cs[i as int - 1]);
                assert(cs.take(i as int).len() == i);
                assert(spec_text_events(cs.take(i as int)) == spec_text_events(
                    cs.take(i as int).drop_last(),
                ).push(Event::Text(cs.take(i as int).last())));
                assert(events@ =~= part_keyboard + spec_text_events(cs.take(i as int)));
            }
        }
        proof {
            assert(self.character_events@.take(n as int) =~= self.character_events@);
        }
        let ghost part_text = events@;

        let n = self.cursor_moved_events.len();
        let mut i: usize = 0;
        proof {
            assert(self.cursor_moved_events@.take(0) =~= Seq::<(u32, u32)>::empty());
            assert(part_text + spec_cursor_events(
                self.cursor_moved_events@.take(0),
                self.window_height,
            ) =~= part_text);
        }
        while i < n
            invariant
                i <= n,
                n == self.cursor_moved_events@.len(),
                spec_cursors_in_window(self),
                events@ == part_text + spec_cursor_events(
                    self.cursor_moved_events@.take(i as int),
                    self.window_height,
                ),
            decreases n - i,
        {
            let (x, y) = self.cursor_moved_events[i];
            events.push(Event::Cursor(x, self.window_height - y));
            i = i + 1;
            proof {
                assert(self.cursor_moved_events@.take(i as int).drop_last()
                    =~= self.cursor_moved_events@.take(i as int - 1));
                assert(self.cursor_moved_events@.take(i as int).last()
                    == self.cursor_moved_events@[i as int - 1]);
                assert(events@ =~= part_text + spec_cursor_events(
                    self.cursor_moved_events@.take(i as int),
                    self.window_height,
                ));
            }
        }
        proof {
            assert(self.cursor_moved_events@.take(n as int) =~= self.cursor_moved_events@);
        }
        let ghost part_cursor = events@;

        let n = self.mouse_wheel_events.len();
        let mut i: usize = 0;
        proof {
            assert(self.mouse_wheel_events@.take(0) =~= Seq::<(i32, i32)>::empty());
            assert(part_cursor + spec_scroll_events(self.mouse_wheel_events@.take(0))
                =~= part_cursor);
        }
        while i < n
            invariant
                i <= n,
                n == self.mouse_wheel_events@.len(),
                events@ == part_cursor + spec_scroll_events(
                    self.mouse_wheel_events@.take(i as int),
                ),
            decreases n - i,
        {
            let (x, y) = self.mouse_wheel_events[i];
            events.push(Event::Scroll(x, y));
            i = i + 1;
            proof {
                assert(self.mouse_wheel_events@.take(i as int).drop_last()
                    =~= self.mouse_wheel_events@.take(i as int - 1));
                assert(self.mouse_wheel_events@.take(i as int).last()
                    == self.mouse_wheel_events@[i as int - 1]);
                assert(events@ =~= part_cursor + spec_scroll_events(
                    self.mouse_wheel_events@.take(i as int),
                ));
            }
        }
        proof {
            assert(self.mouse_wheel_events@.take(n as int) =~= self.mouse_wheel_events@);
        }
        let ghost part_scroll = events@;

        let n = self.mouse_button_events.len();
        let mut i: usize = 0;
        proof {
            assert(self.mouse_button_events@.take(0) =~= Seq::<MouseButtonInput>::empty());
            assert(part_scroll + spec_button_events(self.mouse_button_events@.take(0))
                =~= part_scroll);
        }
        while i < n
            invariant
                i <= n,
                n == self.mouse_button_events@.len(),
                events@ == part_scroll + spec_button_events(
                    self.mouse_button_events@.take(i as int),
                ),
            decreases n - i,
        {
            let ghost prefix = self.mouse_button_events@.take(i as int);
            proof {
                assert(self.mouse_button_events@.take(i as int + 1).drop_last() =~= prefix);
                assert(self.mouse_button_events@.take(i as int + 1).last()
                    == self.mouse_button_events@[i as int]);
            }
            let b = self.mouse_button_events[i];
            match translate_mouse_button(b.button) {
                Some(key) => {
                    match b.state {
                        ElementState::Pressed => {
                            events.push(Event::Press(key));
                        },
                        ElementState::Released => {
                            events.push(Event::Release(key));
                        },
                    }
                },
                None => {},
            }
            i = i + 1;
            proof {
                assert(events@ =~= part_scroll + spec_button_events(
                    self.mouse_button_events@.take(i as int),
                ));
            }
        }
        proof {
            assert(self.mouse_button_events@.take(n as int) =~= self.mouse_button_events@);
        }

        events
    }
}

/// What the frame update asks the host to do with one session, in order.
#[derive(Debug, Clone, PartialEq, Eq)]
pub enum SessionAction<C> {
    /// Relayout the widget tree to a new viewport.
    Resize(u32, u32),
    /// Swap the active stylesheet, forcing a full restyle.
    ReplaceStylesheet(u64),
    /// Apply one asynchronous command to the model.
    Command(C),
    /// Feed one input event into the widget tree.
    Event(Event),
    /// Extract the draw list; issued at most once per frame, and only when
    /// the session is dirty.
    Draw,
}

/// The actions that apply a sequence of drained commands, in FIFO order.
pub open spec fn spec_command_actions<C>(cs: Seq<C>) -> Seq<SessionAction<C>>
    decreases cs.len(),
{
    if cs.len() == 0 {
        Seq::empty()
    } else {
        spec_command_actions(cs.drop_last()).push(SessionAction::Command(cs.last()))
    }
}

/// The actions that feed a sequence of input events, in order.
pub open spec fn spec_event_actions<C>(es: Seq<Event>) -> Seq<SessionAction<C>>
    decreases es.len(),
{
    if es.len() == 0 {
        Seq::empty()
    } else {
        spec_event_actions(es.drop_last()).push(SessionAction::Event(es.last()))
    }
}

/// Whether the session ends this frame dirty, before the draw extraction:
/// it was dirty already, or accepted a resize, a stylesheet swap, a command
/// or an input event.
pub open spec fn spec_frame_dirty<C>(
    ui: &Ui<C>,
    m0: Modifiers,
    p: &UpdateUiSystemParams,
    stylesheet: Option<u64>,
) -> bool {
    ui.is_dirty() || resize_triggers(ui.window_size(), (p.window_width, p.window_height))
        || stylesheet is Some || ui.pending().len() > 0 || spec_frame_events(m0, p).len() > 0
}

/// The ordered actions one frame applies to one session: the resize if the
/// size actually changed, the stylesheet swap if one is attached, the
/// drained commands in FIFO order — before any input event, so background
/// state changes are visible to this frame's input handling — then the
/// frame's events, and one draw extraction iff the session ended up dirty.
pub open spec fn spec_frame_actions<C>(
    ui: &Ui<C>,
    m0: Modifiers,
    p: &UpdateUiSystemParams,
    stylesheet: Option<u64>,
) -> Seq<SessionAction<C>> {
    let resize_part: Seq<SessionAction<C>> = if resize_triggers(
        ui.window_size(),
        (p.window_width, p.window_height),
    ) {
        seq![SessionAction::Resize(p.window_width, p.window_height)]
    } else {
        Seq::empty()
    };
    let style_part: Seq<SessionAction<C>> = match stylesheet {
        Some(s) => seq![SessionAction::ReplaceStylesheet(s)],
        None => Seq::empty(),
    };
    let command_part = spec_command_actions(ui.pending());
    let event_part = spec_event_actions(spec_frame_events(m0, p));
    let draw_part: Seq<SessionAction<C>> = if spec_frame_dirty(ui, m0, p, stylesheet) {
        seq![SessionAction::Draw]
    } else {
        Seq::empty()
    };
    resize_part + style_part + command_part + event_part + draw_part
}

/// The command actions mirror the drained commands one to one, in order —
/// no command is lost, duplicated or reordered.
pub proof fn lemma_command_actions_shape<C>(cs: Seq<C>)
    ensures
        spec_command_actions::<C>(cs).len() == cs.len(),
        forall|k: int|
            0 <= k < cs.len() ==> #[trigger] spec_command_actions::<C>(cs)[k]
                == SessionAction::<C>::Command(cs[k]),
    decreases cs.len(),
{
    if cs.len() > 0 {
        lemma_command_actions_shape(cs.drop_last());
    }
}

/// The event actions mirror the frame's events one to one, in order.
pub proof fn lemma_event_actions_shape<C>(es: Seq<Event>)
    ensures
        spec_event_actions::<C>(es).len() == es.len(),
        forall|k: int|
            0 <= k < es.len() ==> #[trigger] spec_event_actions::<C>(es)[k]
                == SessionAction::<C>::Event(es[k]),
    decreases es.len(),
{
    if es.len() > 0 {
        lemma_event_actions_shape::<C>(es.drop_last());
    }
}

/// The frame ordering rule: within one frame's actions, every drained
/// command stands strictly before every input event, so state changes from
/// background work are visible to the same frame's input handling.
pub proof fn lemma_commands_precede_events<C>(
    ui: &Ui<C>,
    m0: Modifiers,
    p: &UpdateUiSystemParams,
    stylesheet: Option<u64>,
    i: int,
    j: int,
)
    requires
        0 <= i < spec_frame_actions(ui, m0, p, stylesheet).len(),
        0 <= j < spec_frame_actions(ui, m0, p, stylesheet).len(),
        spec_frame_actions(ui, m0, p, stylesheet)[i] matches SessionAction::Command(_),
        spec_frame_actions(ui, m0, p, stylesheet)[j] matches SessionAction::Event(_),
    ensures
        i < j,
{
    let actions = spec_frame_actions(ui, m0, p, stylesheet);
    let resize_len: int = if resize_triggers(
        ui.window_size(),
        (p.window_width, p.window_height),
    ) {
        1
    } else {
        0
    };
    let style_len: int = if stylesheet is Some {
        1
    } else {
        0
    };
    let head = resize_len + style_len;
    let commands = spec_command_actions::<C>(ui.pending());
    let events = spec_event_actions::<C>(spec_frame_events(m0, p));
    lemma_command_actions_shape::<C>(ui.pending());
    lemma_event_actions_shape::<C>(spec_frame_events(m0, p));
    // a command action can only come from the command part, an event
    // action only from the event part, and the command part lies wholly
    // before the event part
    assert(i < head + commands.len()) by {
        if i >= head + commands.len() {
            if i < head + commands.len() + events.len() {
                assert(actions[i] == events[i - head - commands.len()]);
            } else {
                assert(actions[i] == SessionAction::<C>::Draw);
            }
        }
    }
    assert(j >= head + commands.len()) by {
        if j < head {
            if j < resize_len {
                assert(actions[j] == SessionAction::<C>::Resize(
                    p.window_width,
                    p.window_height,
                ));
            } else {
                assert(actions[j] matches SessionAction::ReplaceStylesheet(_));
            }
        } else if j < head + commands.len() {
            assert(actions[j] == commands[j - head]);
        }
    }
}

impl UpdateUiSystemParams {
    /// Runs one frame update against one session: translates the raw input,
    /// applies resize, stylesheet and the drained commands — commands
    /// strictly before input events — feeds the events, and extracts the
    /// draw list exactly once iff the session ended up dirty. The returned
    /// actions tell the host what to perform against the widget tree, in
    /// that order.
    pub fn update<C>(&mut self, ui: &mut Ui<C>, stylesheet: Option<u64>) -> (actions: Vec<
        SessionAction<C>,
    >)
        requires
            spec_cursors_in_window(old(self)),
        ensures
            actions@ == spec_frame_actions(
                old(ui),
                old(self).state.modifiers,
                old(self),
                stylesheet,
            ),
            final(self).state.modifiers == spec_modifiers_fold(
                old(self).state.modifiers,
                old(self).keyboard_events@,
            ),
            final(self).state.current_window_size == spec_last_seen(
                Some((old(self).window_width, old(self).window_height)),
                old(self).window_resize_events@,
            ),
            final(self).window_width == old(self).window_width,
            final(self).window_height == old(self).window_height,
            final(self).keyboard_events@ == old(self).keyboard_events@,
            final(self).character_events@ == old(self).character_events@,
            final(self).mouse_button_events@ == old(self).mouse_button_events@,
            final(self).cursor_moved_events@ == old(self).cursor_moved_events@,
            final(self).mouse_wheel_events@ == old(self).mouse_wheel_events@,
            final(self).window_resize_events@ == old(self).window_resize_events@,
            final(ui).window_size() == Some((old(self).window_width, old(self).window_height)),
            final(ui).pending() == Seq::<C>::empty(),
            !final(ui).is_dirty(),
            final(ui).style_id() == if stylesheet is Some {
                stylesheet
            } else {
                old(ui).style_id()
            },
            final(ui).cap() == old(ui).cap(),
            final(ui).is_open() == old(ui).is_open(),
            old(ui).wf() ==> final(ui).wf(),
    {
        let ghost m0 = self.state.modifiers;
        let ghost p0 = *self;
        let ghost ui0 = *ui;
        let events = self.translate_events();
        let mut actions: Vec<SessionAction<C>> = Vec::new();

        let changed = ui.resize(self.window_width, self.window_height);
        if changed {
            actions.push(SessionAction::Resize(self.window_width, self.window_height));
        }

        match stylesheet {
            Some(s) => {
                ui.replace_stylesheet(s);
                actions.push(SessionAction::ReplaceStylesheet(s));
            },
            None => {},
        }
        let ghost head = actions@;

        let mut cmds = ui.update_commands();
        let ghost cmds0 = cmds@;
        let n = cmds.len();
        let mut k: usize = 0;
        while k < n
            invariant
                k <= n,
                n == cmds0.len(),
                cmds@ == cmds0.skip(k as int),
                actions@ == head + spec_command_actions(cmds0.take(k as int)),
            decreases n - k,
        {
            let c = cmds.remove(0);
            proof {
                assert(cmds0.skip(k as int)[0] == cmds0[k as int]);
                assert(cmds0.skip(k as int).remove(0) =~= cmds0.skip(k as int + 1));
            }
            actions.push(SessionAction::Command(c));
            k = k + 1;
            proof {
                assert(cmds0.take(k as int).drop_last() =~= cmds0.take(k as int - 1));
                assert(actions@ =~= head + spec_command_actions(cmds0.take(k as int)));
            }
        }
        proof {
            assert(cmds0.take(n as int) =~= cmds0);
        }
        let ghost with_commands = actions@;
        let ghost ui_mid = *ui;

        let n = events.len();
        let mut j: usize = 0;
        while j < n
            invariant
                j <= n,
                n == events@.len(),
                actions@ == with_commands + spec_event_actions(events@.take(j as int)),
                ui.pending() == ui_mid.pending(),
                ui.window_size() == ui_mid.window_size(),
                ui.style_id() == ui_mid.style_id(),
                ui.cap() == ui_mid.cap(),
                ui.is_open() == ui_mid.is_open(),
                ui.is_dirty() == (ui_mid.is_dirty() || j > 0),
                ui_mid.wf() ==> ui.wf(),
            decreases n - j,
        {
            ui.event(&events[j]);
            actions.push(SessionAction::Event(events[j]));
            j = j + 1;
            proof {
                assert(events@.take(j as int).drop_last() =~= events@.take(j as int - 1));
                assert(actions@ =~= with_commands + spec_event_actions(events@.take(j as int)));
            }
        }
        proof {
            assert(events@.take(n as int) =~= events@);
        }

        if ui.needs_redraw() {
            ui.mark_drawn();
            actions.push(SessionAction::Draw);
        }
        proof {
            assert(actions@ =~= spec_frame_actions(&ui0, m0, &p0, stylesheet));
        }
        actions
    }
}

/// Runs one frame update against one session. The entry point host systems
/// call each frame; see [`UpdateUiSystemParams::update`] for the order the
/// returned actions follow.
pub fn update_ui<C>(
    params: &mut UpdateUiSystemParams,
    ui: &mut Ui<C>,
    stylesheet: Option<u64>,
) -> (actions: Vec<SessionAction<C>>)
    requires
        spec_cursors_in_window(old(params)),
    ensures
        actions@ == spec_frame_actions(
            old(ui),
            old(params).state.modifiers,
            old(params),
            stylesheet,
        ),
        final(params).state.modifiers == spec_modifiers_fold(
            old(params).state.modifiers,
            old(params).keyboard_events@,
        ),
        final(params).state.current_window_size == spec_last_seen(
            Some((old(params).window_width, old(params).window_height)),
            old(params).window_resize_events@,
        ),
        final(params).window_width == old(params).window_width,
        final(params).window_height == old(params).window_height,
        final(params).keyboard_events@ == old(params).keyboard_events@,
        final(params).character_events@ == old(params).character_events@,
        final(params).mouse_button_events@ == old(params).mouse_button_events@,
        final(params).cursor_moved_events@ == old(params).cursor_moved_events@,
        final(params).mouse_wheel_events@ == old(params).mouse_wheel_events@,
        final(params).window_resize_events@ == old(params).window_resize_events@,
        final(ui).window_size() == Some(
            (old(params).window_width, old(params).window_height),
        ),
        final(ui).pending() == Seq::<C>::empty(),
        !final(ui).is_dirty(),
        final(ui).style_id() == if stylesheet is Some {
            stylesheet
        } else {
            old(ui).style_id()
        },
        final(ui).cap() == old(ui).cap(),
        final(ui).is_open() == old(ui).is_open(),
        old(ui).wf() ==> final(ui).wf(),
{
    params.update(ui, stylesheet)
}

} // verus!

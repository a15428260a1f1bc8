//! Keyboard and mouse state: per-key activity with hold times, pressed-edge
//! detection, and the per-tick event fold that keeps it all current.

use vstd::prelude::*;

verus! {

use crate::fixed::{Fx, FX_ONE};

/// A key or button going down or up.
pub enum KeyEventType {
    Down,
    Up,
}

/// A plain input event, as the platform layer hands them in each tick.
#[derive(Clone, Copy, Debug)]
pub enum InputEvent {
    KeyDown(Key),
    KeyUp(Key),
    MouseMotion(i32, i32),
    MouseButtonDown(MButton),
    MouseButtonUp(MButton),
    MouseWheel(i32),
}

/// Whether a key is held, and for how many ticks it has been.
#[derive(Clone, Copy, Debug, PartialEq, Eq, Structural)]
pub enum ButtonState {
    Active(u8),
    Inactive,
}

/// Mouse state: position, the three buttons, and this tick's wheel travel.
#[derive(Debug)]
pub struct Mouse {
    pub pos: (i32, i32),
    pub buttons: Vec<ButtonState>,
    pub scroll: i32,
}

/// A mouse button.
#[derive(Clone, Copy, Debug, PartialEq, Eq, Structural)]
pub enum MButton {
    Left,
    Right,
    Middle,
}

/// All input state: the mouse and every tracked key.
#[derive(Debug)]
pub struct Controller {
    pub mouse: Mouse,
    pub keys: Vec<ButtonState>,
}

/// A tracked key.
#[derive(Clone, Copy, Debug, PartialEq, Eq, Structural)]
pub enum Key {
    Up,
    Down,
    Left,
    Right,
    Escape,
    Sprint,
    Enter,
    Tab,
    Ctrl,
    Invalid,
}

/// Number of tracked keys.
pub const KEY_NUM: usize = 10;

/// Number of tracked mouse buttons.
pub const MOUSE_BUTTON_NUM: usize = 3;

/// Slot of each key in the key table.
pub open spec fn key_index_of(k: Key) -> int {
    match k {
        Key::Up => 0,
        Key::Down => 1,
        Key::Left => 2,
        Key::Right => 3,
        Key::Escape => 4,
        Key::Sprint => 5,
        Key::Enter => 6,
        Key::Tab => 7,
        Key::Ctrl => 8,
        Key::Invalid => 9,
    }
}

/// Slot of each mouse button in the button table.
pub open spec fn button_index_of(b: MButton) -> int {
    match b {
        MButton::Left => 0,
        MButton::Right => 1,
        MButton::Middle => 2,
    }
}

/// A held key one tick later: its hold time grows until it saturates.
pub open spec fn ticked_button(b: ButtonState) -> ButtonState {
    match b {
        ButtonState::Active(t) => if t == u8::MAX {
            b
        } else {
            ButtonState::Active((t + 1) as u8)
        },
        ButtonState::Inactive => ButtonState::Inactive,
    }
}

/// A key table one tick later.
pub open spec fn ticked_all(s: Seq<ButtonState>) -> Seq<ButtonState> {
    Seq::new(s.len(), |i: int| ticked_button(s[i]))
}

/// A key after a down or up event: going down starts the hold clock only
/// from rest; going up always releases.
pub open spec fn event_button(b: ButtonState, down: bool) -> ButtonState {
    if down {
        match b {
            ButtonState::Inactive => ButtonState::Active(0),
            ButtonState::Active(t) => ButtonState::Active(t),
        }
    } else {
        ButtonState::Inactive
    }
}

/// The key table after a sequence of events is applied in order.
pub open spec fn keys_after(s: Seq<ButtonState>, events: Seq<InputEvent>) -> Seq<ButtonState>
    decreases events.len(),
{
    if events.len() == 0 {
        s
    } else {
        let prev = keys_after(s, events.drop_last());
        match events.last() {
            InputEvent::KeyDown(k) => prev.update(key_index_of(k), event_button(prev[key_index_of(k)], true)),
            InputEvent::KeyUp(k) => prev.update(key_index_of(k), event_button(prev[key_index_of(k)], false)),
            _ => prev,
        }
    }
}

/// The mouse button table after a sequence of events is applied in order.
pub open spec fn buttons_after(s: Seq<ButtonState>, events: Seq<InputEvent>) -> Seq<ButtonState>
    decreases events.len(),
{
    if events.len() == 0 {
        s
    } else {
        let prev = buttons_after(s, events.drop_last());
        match events.last() {
            InputEvent::MouseButtonDown(b) => prev.update(
                button_index_of(b),
                event_button(prev[button_index_of(b)], true),
            ),
            InputEvent::MouseButtonUp(b) => prev.update(
                button_index_of(b),
                event_button(prev[button_index_of(b)], false),
            ),
            _ => prev,
        }
    }
}

/// The mouse position after a sequence of events.
pub open spec fn pos_after(p: (i32, i32), events: Seq<InputEvent>) -> (i32, i32)
    decreases events.len(),
{
    if events.len() == 0 {
        p
    } else {
        match events.last() {
            InputEvent::MouseMotion(x, y) => (x, y),
            _ => pos_after(p, events.drop_last()),
        }
    }
}

/// The wheel travel after a sequence of events; it starts each tick at
/// zero.
pub open spec fn scroll_after(events: Seq<InputEvent>) -> int
    decreases events.len(),
{
    if events.len() == 0 {
        0
    } else {
        match events.last() {
            InputEvent::MouseWheel(y) => y as int,
            _ => scroll_after(events.drop_last()),
        }
    }
}

impl Key {
    /// Slot of this key in the key table.
    pub fn index(self) -> (r: usize)
        ensures
            r as int == key_index_of(self),
            r < KEY_NUM,
    {
        match self {
            Key::Up => 0,
            Key::Down => 1,
            Key::Left => 2,
            Key::Right => 3,
            Key::Escape => 4,
            Key::Sprint => 5,
            Key::Enter => 6,
            Key::Tab => 7,
            Key::Ctrl => 8,
            Key::Invalid => 9,
        }
    }
}

impl MButton {
    /// Slot of this button in the button table.
    pub fn index(self) -> (r: usize)
        ensures
            r as int == button_index_of(self),
            r < MOUSE_BUTTON_NUM,
    {
        match self {
            MButton::Left => 0,
            MButton::Right => 1,
            MButton::Middle => 2,
        }
    }
}

impl ButtonState {
    /// Apply a down or up event to this key.
    fn update_with_event(&mut self, event: KeyEventType)
        ensures
            *final(self) == event_button(*old(self), event is Down),
    {
        match (*self, event) {
            (_, KeyEventType::Up) => {
                *self = ButtonState::Inactive;
            },
            (ButtonState::Inactive, KeyEventType::Down) => {
                *self = ButtonState::Active(0);
            },
            (ButtonState::Active(time), KeyEventType::Down) => {
                *self = ButtonState::Active(time);
            },
        }
    }

    /// Advance this key's hold clock by one tick.
    fn update_time(&mut self)
        ensures
            *final(self) == ticked_button(*old(self)),
    {
        if let ButtonState::Active(time) = *self {
            if time != u8::MAX {
                *self = ButtonState::Active(time + 1);
            }
        }
    }
}

impl Mouse {
    /// A properly sized button table.
    pub open spec fn wf(self) -> bool {
        self.buttons@.len() == MOUSE_BUTTON_NUM
    }

    pub fn new() -> (r: Mouse)
        ensures
            r.wf(),
            r.pos == (0i32, 0i32),
            r.scroll == 0,
            forall|i: int| 0 <= i < MOUSE_BUTTON_NUM ==> r.buttons@[i] == ButtonState::Inactive,
    {
        let mut buttons: Vec<ButtonState> = Vec::new();
        buttons.push(ButtonState::Inactive);
        buttons.push(ButtonState::Inactive);
        buttons.push(ButtonState::Inactive);
        Mouse { pos: (0, 0), buttons, scroll: 0 }
    }

    pub fn pos(&self) -> (r: (i32, i32))
        ensures
            r == self.pos,
    {
        self.pos
    }

    pub fn scroll(&self) -> (r: i32)
        ensures
            r == self.scroll,
    {
        self.scroll
    }

    /// Whether the button was just pressed or has been held for at least
    /// `time` ticks.
    pub fn is_button_active_delayed(&self, button: MButton, time: u8) -> (r: bool)
        requires
            self.wf(),
        ensures
            r == (self.buttons@[button_index_of(button)] == ButtonState::Active(0)
                || match self.buttons@[button_index_of(button)] {
                    ButtonState::Active(t) => t >= time,
                    _ => false,
                }),
    {
        self.was_button_pressed(button) || self.is_button_active_timed(button, time)
    }

    /// Whether the button is held at all.
    pub fn is_button_active(&self, button: MButton) -> (r: bool)
        requires
            self.wf(),
        ensures
            r == (self.buttons@[button_index_of(button)] != ButtonState::Inactive),
    {
        self.buttons[button.index()] != ButtonState::Inactive
    }

    /// Whether the button has been held for at least `time` ticks.
    pub fn is_button_active_timed(&self, button: MButton, time: u8) -> (r: bool)
        requires
            self.wf(),
        ensures
            r == match self.buttons@[button_index_of(button)] {
                ButtonState::Active(t) => t >= time,
                _ => false,
            },
    {
        match self.buttons[button.index()] {
            ButtonState::Active(t) => t >= time,
            _ => false,
        }
    }

    /// Whether the button went down this very tick.
    pub fn was_button_pressed(&self, button: MButton) -> (r: bool)
        requires
            self.wf(),
        ensures
            r == (self.buttons@[button_index_of(button)] == ButtonState::Active(0)),
    {
        self.buttons[button.index()] == ButtonState::Active(0)
    }

    /// Whether the left button went down this very tick.
    pub fn was_left_button_pressed(&self) -> (r: bool)
        requires
            self.wf(),
        ensures
            r == (self.buttons@[button_index_of(MButton::Left)] == ButtonState::Active(0)),
    {
        self.was_button_pressed(MButton::Left)
    }

    pub fn update_position(&mut self, x: i32, y: i32)
        ensures
            final(self).pos == (x, y),
            final(self).buttons == old(self).buttons,
            final(self).scroll == old(self).scroll,
    {
        self.pos = (x, y);
    }

    /// Apply a down or up event to one button.
    pub fn update_button_with_event(&mut self, button: MButton, event: KeyEventType)
        requires
            old(self).wf(),
        ensures
            final(self).wf(),
            final(self).buttons@ == old(self).buttons@.update(
                button_index_of(button),
                event_button(old(self).buttons@[button_index_of(button)], event is Down),
            ),
            final(self).pos == old(self).pos,
            final(self).scroll == old(self).scroll,
    {
        let i = button.index();
        let mut b = self.buttons[i];
        b.update_with_event(event);
        self.buttons.set(i, b);
    }
}

impl Controller {
    /// A properly sized key table and mouse.
    pub open spec fn wf(self) -> bool {
        &&& self.keys@.len() == KEY_NUM
        &&& self.mouse.wf()
    }

    pub fn new() -> (r: Controller)
        ensures
            r.wf(),
            forall|i: int| 0 <= i < KEY_NUM ==> r.keys@[i] == ButtonState::Inactive,
            forall|i: int|
                0 <= i < MOUSE_BUTTON_NUM ==> r.mouse.buttons@[i] == ButtonState::Inactive,
            r.mouse.pos == (0i32, 0i32),
            r.mouse.scroll == 0,
    {
        let mut keys: Vec<ButtonState> = Vec::new();
        let mut i: usize = 0;
        while i < KEY_NUM
            invariant
                i <= KEY_NUM,
                keys@.len() == i,
                forall|j: int| 0 <= j < i ==> keys@[j] == ButtonState::Inactive,
            decreases KEY_NUM - i,
        {
            keys.push(ButtonState::Inactive);
            i = i + 1;
        }
        Controller { mouse: Mouse::new(), keys }
    }

    /// One tick of input: every hold clock advances, the wheel resets, and
    /// then this tick's events are applied in order.
    pub fn update(&mut self, events: &Vec<InputEvent>)
        requires
            old(self).wf(),
        ensures
            final(self).wf(),
            final(self).keys@ == keys_after(ticked_all(old(self).keys@), events@),
            final(self).mouse.buttons@ == buttons_after(
                ticked_all(old(self).mouse.buttons@),
                events@,
            ),
            final(self).mouse.pos == pos_after(old(self).mouse.pos, events@),
            final(self).mouse.scroll as int == scroll_after(events@),
    {
        let mut i: usize = 0;
        while i < KEY_NUM
            invariant
                i <= KEY_NUM,
                self.keys@.len() == KEY_NUM,
                self.mouse == old(self).mouse,
                forall|j: int| 0 <= j < i ==> self.keys@[j] == ticked_button(old(self).keys@[j]),
                forall|j: int| i <= j < KEY_NUM ==> self.keys@[j] == old(self).keys@[j],
            decreases KEY_NUM - i,
        {
            let mut k = self.keys[i];
            k.update_time();
            self.keys.set(i, k);
            i = i + 1;
        }
        proof {
            assert(self.keys@ =~= ticked_all(old(self).keys@));
        }

        let mut b: usize = 0;
        while b < MOUSE_BUTTON_NUM
            invariant
                b <= MOUSE_BUTTON_NUM,
                self.mouse.buttons@.len() == MOUSE_BUTTON_NUM,
                self.keys@ == ticked_all(old(self).keys@),
                self.mouse.pos == old(self).mouse.pos,
                self.mouse.scroll == old(self).mouse.scroll,
                forall|j: int|
                    0 <= j < b ==> self.mouse.buttons@[j] == ticked_button(
                        old(self).mouse.buttons@[j],
                    ),
                forall|j: int|
                    b <= j < MOUSE_BUTTON_NUM ==> self.mouse.buttons@[j] == old(
                        self,
                    ).mouse.buttons@[j],
            decreases MOUSE_BUTTON_NUM - b,
        {
            let mut s = self.mouse.buttons[b];
            s.update_time();
            self.mouse.buttons.set(b, s);
            b = b + 1;
        }
        proof {
            assert(self.mouse.buttons@ =~= ticked_all(old(self).mouse.buttons@));
        }

        self.mouse.scroll = 0;

        let ghost keys1 = self.keys@;
        let ghost buttons1 = self.mouse.buttons@;
        let ghost pos1 = self.mouse.pos;

        let n = events.len();
        let mut e: usize = 0;
        while e < n
            invariant
                e <= n,
                n == events@.len(),
                self.wf(),
                self.keys@ == keys_after(keys1, events@.subrange(0, e as int)),
                self.mouse.buttons@ == buttons_after(buttons1, events@.subrange(0, e as int)),
                self.mouse.pos == pos_after(pos1, events@.subrange(0, e as int)),
                self.mouse.scroll as int == scroll_after(events@.subrange(0, e as int)),
            decreases n - e,
        {
            proof {
                assert(events@.subrange(0, e + 1).drop_last() =~= events@.subrange(0, e as int));
                assert(events@.subrange(0, e + 1).last() == events@[e as int]);
            }
            let event = events[e];
            match event {
                InputEvent::KeyDown(key) => {
                    let i = key.index();
                    let mut k = self.keys[i];
                    k.update_with_event(KeyEventType::Down);
                    self.keys.set(i, k);
                },
                InputEvent::KeyUp(key) => {
                    let i = key.index();
                    let mut k = self.keys[i];
                    k.update_with_event(KeyEventType::Up);
                    self.keys.set(i, k);
                },
                InputEvent::MouseMotion(x, y) => {
                    self.mouse.update_position(x, y);
                },
                InputEvent::MouseButtonDown(button) => {
                    self.mouse.update_button_with_event(button, KeyEventType::Down);
                },
                InputEvent::MouseButtonUp(button) => {
                    self.mouse.update_button_with_event(button, KeyEventType::Up);
                },
                InputEvent::MouseWheel(y) => {
                    self.mouse.scroll = y;
                },
            }
            e = e + 1;
        }
        proof {
            assert(events@.subrange(0, n as int) =~= events@);
        }
    }

    pub fn mouse(&self) -> (r: &Mouse)
        ensures
            r == &self.mouse,
    {
        &self.mouse
    }

    /// Whether the key has been held for at least `time` ticks.
    fn is_key_active_timed(&self, key: Key, time: u8) -> (r: bool)
        requires
            self.wf(),
        ensures
            r == match self.keys@[key_index_of(key)] {
                ButtonState::Active(t) => t >= time,
                _ => false,
            },
    {
        match self.keys[key.index()] {
            ButtonState::Active(t) => t >= time,
            _ => false,
        }
    }

    /// Whether the key is held and has been for at most `time` ticks.
    pub fn is_key_active_time_limited(&self, key: Key, time: u8) -> (r: bool)
        requires
            self.wf(),
        ensures
            r == match self.keys@[key_index_of(key)] {
                ButtonState::Active(t) => t <= time,
                _ => false,
            },
    {
        match self.keys[key.index()] {
            ButtonState::Active(t) => t <= time,
            _ => false,
        }
    }

    /// Whether the key was just pressed or has been held for at least
    /// `time` ticks.
    pub fn is_key_active_delayed(&self, key: Key, time: u8) -> (r: bool)
        requires
            self.wf(),
        ensures
            r == (self.keys@[key_index_of(key)] == ButtonState::Active(0)
                || match self.keys@[key_index_of(key)] {
                    ButtonState::Active(t) => t >= time,
                    _ => false,
                }),
    {
        self.was_key_pressed(key) || self.is_key_active_timed(key, time)
    }

    /// Whether the key is held at all.
    pub fn is_key_active(&self, key: Key) -> (r: bool)
        requires
            self.wf(),
        ensures
            r == (self.keys@[key_index_of(key)] != ButtonState::Inactive),
    {
        self.keys[key.index()] != ButtonState::Inactive
    }

    /// Whether the key went down this very tick.
    pub fn was_key_pressed(&self, key: Key) -> (r: bool)
        requires
            self.wf(),
        ensures
            r == (self.keys@[key_index_of(key)] == ButtonState::Active(0)),
    {
        self.keys[key.index()] == ButtonState::Active(0)
    }

    /// Whether the mouse button was just pressed or held for at least
    /// `time` ticks.
    pub fn is_button_active_delayed(&self, button: MButton, time: u8) -> (r: bool)
        requires
            self.wf(),
        ensures
            r == (self.mouse.buttons@[button_index_of(button)] == ButtonState::Active(0)
                || match self.mouse.buttons@[button_index_of(button)] {
                    ButtonState::Active(t) => t >= time,
                    _ => false,
                }),
    {
        self.mouse.is_button_active_delayed(button, time)
    }

    /// Whether the mouse button is held at all.
    pub fn is_button_active(&self, button: MButton) -> (r: bool)
        requires
            self.wf(),
        ensures
            r == (self.mouse.buttons@[button_index_of(button)] != ButtonState::Inactive),
    {
        self.mouse.is_button_active(button)
    }

    /// Whether the mouse button went down this very tick.
    pub fn was_button_pressed(&self, button: MButton) -> (r: bool)
        requires
            self.wf(),
        ensures
            r == (self.mouse.buttons@[button_index_of(button)] == ButtonState::Active(0)),
    {
        self.mouse.was_button_pressed(button)
    }

    /// The horizontal acceleration the held arrow keys ask for: one pixel
    /// per tick squared leftward, rightward, or none.
    pub fn x_acceleration(&self) -> (r: Fx)
        requires
            self.wf(),
        ensures
            r.raw == (if self.keys@[key_index_of(Key::Left)] != ButtonState::Inactive {
                -FX_ONE as int
            } else if self.keys@[key_index_of(Key::Right)] != ButtonState::Inactive {
                FX_ONE as int
            } else {
                0int
            }),
    {
        if self.is_key_active(Key::Left) {
            Fx { raw: -FX_ONE }
        } else if self.is_key_active(Key::Right) {
            Fx { raw: FX_ONE }
        } else {
            Fx { raw: 0 }
        }
    }

    /// Release every mouse button.
    pub fn clear_mouse(&mut self)
        requires
            old(self).wf(),
        ensures
            final(self).wf(),
            forall|i: int|
                0 <= i < MOUSE_BUTTON_NUM ==> final(self).mouse.buttons@[i]
                    == ButtonState::Inactive,
            final(self).keys == old(self).keys,
            final(self).mouse.pos == old(self).mouse.pos,
            final(self).mouse.scroll == old(self).mouse.scroll,
    {
        let mut i: usize = 0;
        while i < MOUSE_BUTTON_NUM
            invariant
                i <= MOUSE_BUTTON_NUM,
                self.mouse.buttons@.len() == MOUSE_BUTTON_NUM,
                self.keys == old(self).keys,
                self.mouse.pos == old(self).mouse.pos,
                self.mouse.scroll == old(self).mouse.scroll,
                forall|j: int| 0 <= j < i ==> self.mouse.buttons@[j] == ButtonState::Inactive,
            decreases MOUSE_BUTTON_NUM - i,
        {
            self.mouse.buttons.set(i, ButtonState::Inactive);
            i = i + 1;
        }
    }
}

impl Default for Controller {
    fn default() -> (r: Self)
        ensures
            r.wf(),
    {
        Self::new()
    }
}

impl Default for Mouse {
    fn default() -> (r: Self)
        ensures
            r.wf(),
    {
        Self::new()
    }
}

} // verus!

//! Clickable menu buttons laid out in a centered column.

use vstd::prelude::*;

verus! {

use crate::controller::Controller;
use crate::hitbox::{contains_point_spec, Hitbox};
use crate::render::{SCREEN_HEIGHT, SCREEN_WIDTH};

pub const BUTTON_WIDTH: u32 = 300;

pub const BUTTON_HEIGHT: u32 = 90;

pub const BUTTON_DISTANCE: u32 = 20;

/// A labelled clickable region that yields `effect` when clicked.
pub struct Button<Effect> {
    pub text: String,
    pub rect: Hitbox,
    pub effect: Effect,
}

/// A column of buttons.
pub struct ButtonColumn<T> {
    pub buttons: Vec<Button<T>>,
}

/// Collects labels and effects, then lays them out as a centered column.
pub struct ButtonColumnBuilder<'a, T> {
    pub buttons: Vec<(&'a str, T)>,
    pub width: u32,
    pub height: u32,
    pub separation: u32,
    pub shift: (i32, i32),
}

/// Things that react to a click with an argument.
pub trait OnClick<Arg, Val> {
    fn on_click(&self, arg: Arg) -> Val;
}

/// The first button in `s` containing the point, if any.
pub open spec fn first_hit<T>(s: Seq<Button<T>>, px: int, py: int) -> Option<int>
    decreases s.len(),
{
    if s.len() == 0 {
        None
    } else if contains_point_spec(s[0].rect, px, py) {
        Some(0)
    } else {
        match first_hit(s.drop_first(), px, py) {
            Some(i) => Some(i + 1),
            None => None,
        }
    }
}

impl<T> ButtonColumn<T> {
    /// The effect of the first button under the mouse, if the left button
    /// went down this very tick.
    pub fn effect_if_clicked(&self, controller: &Controller) -> (r: Option<&T>)
        requires
            controller.wf(),
        ensures
            (controller.mouse.buttons@[crate::controller::button_index_of(
                crate::controller::MButton::Left,
            )] != crate::controller::ButtonState::Active(0)) ==> r is None,
            (controller.mouse.buttons@[crate::controller::button_index_of(
                crate::controller::MButton::Left,
            )] == crate::controller::ButtonState::Active(0)) ==> (match first_hit(
                self.buttons@,
                controller.mouse.pos.0 as int,
                controller.mouse.pos.1 as int,
            ) {
                Some(i) => r is Some && *r.unwrap() == self.buttons@[i].effect,
                None => r is None,
            }),
    {
        if !controller.mouse().was_left_button_pressed() {
            return None;
        }

        let mouse_pos = controller.mouse().pos();

        let n = self.buttons.len();
        proof {
            assert(self.buttons@.subrange(0, n as int) =~= self.buttons@);
        }
        let mut i: usize = 0;
        while i < n
            invariant
                i <= n,
                n == self.buttons@.len(),
                first_hit(
                    self.buttons@,
                    mouse_pos.0 as int,
                    mouse_pos.1 as int,
                ) == (match first_hit(
                    self.buttons@.subrange(i as int, n as int),
                    mouse_pos.0 as int,
                    mouse_pos.1 as int,
                ) {
                    Some(k) => Some(k + i),
                    None => None::<int>,
                }),
            decreases n - i,
        {
            proof {
                assert(self.buttons@.subrange(i as int, n as int)[0] == self.buttons@[i as int]);
            }
            if self.buttons[i].rect.contains_point(mouse_pos.0, mouse_pos.1) {
                return Some(&self.buttons[i].effect);
            }
            proof {
                assert(self.buttons@.subrange(i as int, n as int).drop_first()
                    =~= self.buttons@.subrange(i + 1, n as int));
            }
            i = i + 1;
        }
        proof {
            assert(self.buttons@.subrange(n as int, n as int).len() == 0);
        }
        None
    }
}

impl<'a, T> ButtonColumnBuilder<'a, T> {
    pub fn new() -> (r: Self)
        ensures
            r.buttons@.len() == 0,
            r.width == BUTTON_WIDTH,
            r.height == BUTTON_HEIGHT,
            r.separation == BUTTON_DISTANCE,
            r.shift == (0i32, 0i32),
    {
        ButtonColumnBuilder {
            buttons: Vec::new(),
            width: BUTTON_WIDTH,
            height: BUTTON_HEIGHT,
            separation: BUTTON_DISTANCE,
            shift: (0, 0),
        }
    }

    /// Add one button's label and effect.
    pub fn add(self, button: (&'a str, T)) -> (r: Self)
        ensures
            r.buttons@ == self.buttons@.push(button),
            r.width == self.width,
            r.height == self.height,
            r.separation == self.separation,
            r.shift == self.shift,
    {
        let mut this = self;
        this.buttons.push(button);
        this
    }

    pub fn width(self, width: u32) -> (r: Self)
        ensures
            r.buttons@ == self.buttons@,
            r.width == width,
            r.height == self.height,
            r.separation == self.separation,
            r.shift == self.shift,
    {
        let mut this = self;
        this.width = width;
        this
    }

    pub fn height(self, height: u32) -> (r: Self)
        ensures
            r.buttons@ == self.buttons@,
            r.width == self.width,
            r.height == height,
            r.separation == self.separation,
            r.shift == self.shift,
    {
        let mut this = self;
        this.height = height;
        this
    }

    pub fn separation(self, separation: u32) -> (r: Self)
        ensures
            r.buttons@ == self.buttons@,
            r.width == self.width,
            r.height == self.height,
            r.separation == separation,
            r.shift == self.shift,
    {
        let mut this = self;
        this.separation = separation;
        this
    }

    /// Move the whole column by `shift` pixels.
    pub fn shift(self, shift: (i32, i32)) -> (r: Self)
        requires
            i32::MIN <= self.shift.0 + shift.0 <= i32::MAX,
            i32::MIN <= self.shift.1 + shift.1 <= i32::MAX,
        ensures
            r.buttons@ == self.buttons@,
            r.width == self.width,
            r.height == self.height,
            r.separation == self.separation,
            r.shift.0 == self.shift.0 + shift.0,
            r.shift.1 == self.shift.1 + shift.1,
    {
        self.shift_x(shift.0).shift_y(shift.1)
    }

    /// Move the whole column right by `shift` pixels.
    pub fn shift_x(self, shift: i32) -> (r: Self)
        requires
            i32::MIN <= self.shift.0 + shift <= i32::MAX,
        ensures
            r.buttons@ == self.buttons@,
            r.width == self.width,
            r.height == self.height,
            r.separation == self.separation,
            r.shift.0 == self.shift.0 + shift,
            r.shift.1 == self.shift.1,
    {
        let mut this = self;
        this.shift.0 = this.shift.0 + shift;
        this
    }

    /// Move the whole column down by `shift` pixels.
    pub fn shift_y(self, shift: i32) -> (r: Self)
        requires
            i32::MIN <= self.shift.1 + shift <= i32::MAX,
        ensures
            r.buttons@ == self.buttons@,
            r.width == self.width,
            r.height == self.height,
            r.separation == self.separation,
            r.shift.0 == self.shift.0,
            r.shift.1 == self.shift.1 + shift,
    {
        let mut this = self;
        this.shift.1 = this.shift.1 + shift;
        this
    }

    /// Lay the collected buttons out as one column centered on the screen,
    /// moved by the accumulated shift.
    pub fn build(self) -> (r: ButtonColumn<T>)
        requires
            1 <= self.buttons@.len() <= 16,
            0 < self.width <= SCREEN_WIDTH,
            0 < self.height,
            self.separation <= SCREEN_HEIGHT,
            self.height * self.buttons@.len() + self.separation * (self.buttons@.len() - 1)
                <= SCREEN_HEIGHT,
            -0x1000_0000 <= self.shift.0 <= 0x1000_0000,
            -0x1000_0000 <= self.shift.1 <= 0x1000_0000,
        ensures
            r.buttons@.len() == self.buttons@.len(),
            forall|i: int|
                0 <= i < self.buttons@.len() ==> {
                    let free_height = SCREEN_HEIGHT - self.height * self.buttons@.len()
                        - self.separation * (self.buttons@.len() - 1);
                    let b = #[trigger] r.buttons@[i];
                    &&& b.effect == self.buttons@[i].1
                    &&& b.text@ == self.buttons@[i].0@
                    &&& b.rect.x == (SCREEN_WIDTH - self.width) as int / 2 + self.shift.0
                    &&& b.rect.y == free_height / 2 + i * (self.height + self.separation)
                        + self.shift.1
                    &&& b.rect.width == self.width
                    &&& b.rect.height == self.height
                },
    {
        let num_of_buttons = self.buttons.len() as u32;
        proof {
            assert(self.height as int * num_of_buttons as int + self.separation as int * (
            num_of_buttons as int - 1) <= SCREEN_HEIGHT && self.height as int
                * num_of_buttons as int <= SCREEN_HEIGHT && self.separation as int * (
            num_of_buttons as int - 1) >= 0 && self.height <= SCREEN_HEIGHT)
                by (nonlinear_arith)
                requires
                    num_of_buttons as int == self.buttons@.len(),
                    1 <= self.buttons@.len() <= 16,
                    0 < self.height,
                    0 <= self.separation,
                    self.height * self.buttons@.len() + self.separation * (
                    self.buttons@.len() - 1) <= SCREEN_HEIGHT,
            ;
        }
        let free_height = SCREEN_HEIGHT - self.height * num_of_buttons - self.separation * (
        num_of_buttons - 1);
        let y_offset = (free_height / 2) as i32;
        let x = ((SCREEN_WIDTH - self.width) / 2) as i32 + self.shift.0;

        let mut buttons: Vec<Button<T>> = Vec::new();
        let mut source = self.buttons;
        let width = self.width;
        let height = self.height;
        let separation = self.separation;
        let shift_y = self.shift.1;
        let ghost src0 = source@;

        let mut i: usize = 0;
        let n = source.len();
        while i < n
            invariant
                i <= n,
                n == src0.len(),
                source@ == src0.subrange(i as int, n as int),
                1 <= n <= 16,
                0 < width <= SCREEN_WIDTH,
                0 < height <= SCREEN_HEIGHT,
                separation <= SCREEN_HEIGHT,
                height * n + separation * (n - 1) <= SCREEN_HEIGHT,
                -0x1000_0000 <= shift_y <= 0x1000_0000,
                y_offset == (SCREEN_HEIGHT - height * n - separation * (n - 1)) as int / 2,
                buttons@.len() == i,
                forall|j: int|
                    0 <= j < i ==> {
                        let b = #[trigger] buttons@[j];
                        &&& b.effect == src0[j].1
                        &&& b.text@ == src0[j].0@
                        &&& b.rect.x == x
                        &&& b.rect.y == y_offset + j * (height + separation) + shift_y
                        &&& b.rect.width == width
                        &&& b.rect.height == height
                    },
            decreases n - i,
        {
            proof {
                assert(source@[0] == src0[i as int]);
                assert(src0.subrange(i as int, n as int).drop_first() =~= src0.subrange(
                    i + 1,
                    n as int,
                ));
            }
            let (text, effect) = source.remove(0);
            proof {
                assert(0 <= (i as int) * ((height + separation) as int) <= 16 * 2 * (
                SCREEN_HEIGHT as int)) by (nonlinear_arith)
                    requires
                        0 <= i < 16,
                        0 < height <= SCREEN_HEIGHT,
                        0 <= separation <= SCREEN_HEIGHT,
                ;
            }
            let y = y_offset + (i as i32) * (height + separation) as i32 + shift_y;
            buttons.push(Button::new(text.to_owned(), x, y, width, height, effect));
            i = i + 1;
        }

        ButtonColumn { buttons }
    }
}

impl<T> Button<T> {
    pub fn new(text: String, x: i32, y: i32, width: u32, height: u32, effect: T) -> (r: Button<
        T,
    >)
        requires
            width > 0,
            height > 0,
        ensures
            r.text == text,
            r.rect == (Hitbox { x, y, width, height }),
            r.effect == effect,
    {
        Button { text, rect: Hitbox::new(x, y, width, height), effect }
    }

    pub fn text(&self) -> (r: &str)
        ensures
            r@ == self.text@,
    {
        self.text.as_str()
    }

    pub fn rect(&self) -> (r: &Hitbox)
        ensures
            r == &self.rect,
    {
        &self.rect
    }
}

} // verus!

//! What the end screen decides without a terminal: how the box with the
//! final message travels over the screen, bouncing off its edges, and which
//! colour its border takes at each bounce.

use crate::random::random_index;
use vstd::prelude::*;

verus! {

/// Width of the box, in cells.
pub const MODAL_WIDTH: u16 = 50;

/// Height of the box, in cells.
pub const MODAL_HEIGHT: u16 = 15;

/// How many border colours there are.
pub const COLOR_COUNT: usize = 7;

/// The colours the border can take, in the order they are drawn from.
#[derive(Clone, Copy, Debug, PartialEq, Eq, Structural)]
pub enum BorderColor {
    Red,
    Blue,
    Magenta,
    Cyan,
    Yellow,
    White,
    Green,
}

/// The colours in the order they are drawn from.
pub open spec fn color_pool() -> Seq<BorderColor> {
    seq![
        BorderColor::Red,
        BorderColor::Blue,
        BorderColor::Magenta,
        BorderColor::Cyan,
        BorderColor::Yellow,
        BorderColor::White,
        BorderColor::Green,
    ]
}

/// The colour that a draw stands for: the draw counts through the colours
/// and wraps around at their end.
pub open spec fn color_drawn(draw: int) -> BorderColor {
    color_pool()[draw % (COLOR_COUNT as int)]
}

/// How far the box can travel along an axis of `screen` cells when it takes
/// up `modal` of them: nothing on a screen too small for it.
pub open spec fn travel(screen: u16, modal: u16) -> int {
    if screen > modal {
        screen - modal
    } else {
        0
    }
}

/// Whether the box turns round on an axis: moving forward it does at the far
/// end of its travel, moving backward at the near end.
pub open spec fn bounces(position: int, speed: int, limit: int) -> bool {
    if speed > 0 {
        position >= limit
    } else {
        position <= 0
    }
}

/// The speed on an axis after one tick.
pub open spec fn next_speed(position: int, speed: int, limit: int) -> int {
    if bounces(position, speed, limit) {
        -speed
    } else {
        speed
    }
}

/// Where the box is and where it is heading.
#[derive(Clone, Copy, Debug, PartialEq, Eq, Structural)]
pub struct EndScreenState {
    pub acc_x: i32,
    pub acc_y: i32,
    pub rect_x: i32,
    pub rect_y: i32,
    pub border_color: BorderColor,
}

impl EndScreenState {
    /// The box moves one cell a tick on each axis and never strays more
    /// than one cell off the screen.
    pub open spec fn well_formed(self) -> bool {
        &&& self.acc_x == 1 || self.acc_x == -1
        &&& self.acc_y == 1 || self.acc_y == -1
        &&& -1 <= self.rect_x <= u16::MAX
        &&& -1 <= self.rect_y <= u16::MAX
    }

    /// The state one tick later on a screen of the given size. On each axis
    /// the box turns round where it [`bounces`], then moves one cell. A
    /// bounce recolours the border: with the colour `draw_x` stands for on a
    /// horizontal bounce, then with the one `draw_y` stands for on a
    /// vertical one.
    pub open spec fn augmented(
        self,
        width: u16,
        height: u16,
        draw_x: int,
        draw_y: int,
    ) -> EndScreenState {
        let limit_x = travel(width, MODAL_WIDTH);
        let limit_y = travel(height, MODAL_HEIGHT);
        let acc_x = next_speed(self.rect_x as int, self.acc_x as int, limit_x);
        let acc_y = next_speed(self.rect_y as int, self.acc_y as int, limit_y);
        EndScreenState {
            acc_x: acc_x as i32,
            acc_y: acc_y as i32,
            rect_x: (self.rect_x + acc_x) as i32,
            rect_y: (self.rect_y + acc_y) as i32,
            border_color: if bounces(self.rect_y as int, self.acc_y as int, limit_y) {
                color_drawn(draw_y)
            } else if bounces(self.rect_x as int, self.acc_x as int, limit_x) {
                color_drawn(draw_x)
            } else {
                self.border_color
            },
        }
    }

    /// The box in the top left corner, heading down and right, its border
    /// magenta.
    pub fn new() -> (state: Self)
        ensures
            state == (EndScreenState {
                acc_x: 1,
                acc_y: 1,
                rect_x: 0,
                rect_y: 0,
                border_color: BorderColor::Magenta,
            }),
            state.well_formed(),
    {
        EndScreenState {
            acc_x: 1,
            acc_y: 1,
            rect_x: 0,
            rect_y: 0,
            border_color: BorderColor::Magenta,
        }
    }

    /// Whether the state is [`well_formed`](EndScreenState::well_formed).
    pub fn is_well_formed(&self) -> (ok: bool)
        ensures
            ok == self.well_formed(),
    {
        let speeds = (self.acc_x == 1 || self.acc_x == -1) && (self.acc_y == 1 || self.acc_y == -1);
        let on_screen_x = -1 <= self.rect_x && self.rect_x <= u16::MAX as i32;
        let on_screen_y = -1 <= self.rect_y && self.rect_y <= u16::MAX as i32;
        speeds && on_screen_x && on_screen_y
    }

    /// Gives the border the colour that `draw` stands for.
    pub fn set_color(&mut self, draw: usize)
        ensures
            *final(self) == (EndScreenState {
                border_color: color_drawn(draw as int),
                ..*old(self)
            }),
    {
        let index = draw % COLOR_COUNT;
        self.border_color = if index == 0 {
            BorderColor::Red
        } else if index == 1 {
            BorderColor::Blue
        } else if index == 2 {
            BorderColor::Magenta
        } else if index == 3 {
            BorderColor::Cyan
        } else if index == 4 {
            BorderColor::Yellow
        } else if index == 5 {
            BorderColor::White
        } else {
            BorderColor::Green
        };
    }

    /// Gives the border a colour drawn at random.
    pub fn set_random_color(&mut self)
        ensures
            exists|draw: int|
                *final(self) == (EndScreenState {
                    border_color: #[trigger] color_drawn(draw),
                    ..*old(self)
                }),
    {
        let draw = random_index(COLOR_COUNT);
        self.set_color(draw);
    }

    /// Whether the box turns round on the horizontal axis at the next tick.
    fn bounces_x(&self, width: u16) -> (turn: bool)
        ensures
            turn == bounces(self.rect_x as int, self.acc_x as int, travel(width, MODAL_WIDTH)),
    {
        let limit: i32 = if width > MODAL_WIDTH {
            (width - MODAL_WIDTH) as i32
        } else {
            0
        };
        if self.acc_x > 0 {
            self.rect_x >= limit
        } else {
            self.rect_x <= 0
        }
    }

    /// Whether the box turns round on the vertical axis at the next tick.
    fn bounces_y(&self, height: u16) -> (turn: bool)
        ensures
            turn == bounces(self.rect_y as int, self.acc_y as int, travel(height, MODAL_HEIGHT)),
    {
        let limit: i32 = if height > MODAL_HEIGHT {
            (height - MODAL_HEIGHT) as i32
        } else {
            0
        };
        if self.acc_y > 0 {
            self.rect_y >= limit
        } else {
            self.rect_y <= 0
        }
    }

    /// Moves the box by one tick on a screen of the given size, with
    /// `draw_x` and `draw_y` in place of the random draws for the colour.
    pub fn augment_rect_with(&mut self, width: u16, height: u16, draw_x: usize, draw_y: usize)
        requires
            old(self).well_formed(),
        ensures
            *final(self) == old(self).augmented(width, height, draw_x as int, draw_y as int),
            final(self).well_formed(),
    {
        if self.bounces_x(width) {
            self.acc_x = -self.acc_x;
            self.set_color(draw_x);
        }
        if self.bounces_y(height) {
            self.acc_y = -self.acc_y;
            self.set_color(draw_y);
        }
        self.rect_x += self.acc_x;
        self.rect_y += self.acc_y;
    }

    /// Moves the box by one tick on a screen of the given size. The colour
    /// that a bounce gives the border is drawn at random.
    pub fn augment_rect(&mut self, width: u16, height: u16)
        requires
            old(self).well_formed(),
        ensures
            exists|draw_x: int, draw_y: int|
                *final(self) == #[trigger] old(self).augmented(width, height, draw_x, draw_y),
            final(self).well_formed(),
    {
        let draw_x = if self.bounces_x(width) {
            random_index(COLOR_COUNT)
        } else {
            0
        };
        let draw_y = if self.bounces_y(height) {
            random_index(COLOR_COUNT)
        } else {
            0
        };
        self.augment_rect_with(width, height, draw_x, draw_y);
    }
}

} // verus!

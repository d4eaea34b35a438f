//! Sizes, speeds and the plain values that travel between host and game.
//!
//! Every length here is in sub-units, every speed in units per second.

use vstd::prelude::*;

verus! {

/// Sub-units in one screen unit. There are as many as nanoseconds in a
/// second, which is what makes motion exact.
pub const UNIT: i64 = 1_000_000_000;

/// Gap between a side wall and the paddle next to it.
pub const PADDING: i64 = 40_000_000_000;

/// Width of the line drawn down the middle of the court.
pub const MIDDLE_LINE_W: i64 = 2_000_000_000;

/// Height of a paddle.
pub const ALTURA_RAQUETE: i64 = 100_000_000_000;

/// Width of a paddle.
pub const LARGURA_RAQUETE: i64 = 20_000_000_000;

/// Half the width of a paddle.
pub const LARGURA_RAQUETE_MEIO: i64 = 10_000_000_000;

/// Half the height of a paddle.
pub const ALTURA_RAQUETE_MEIO: i64 = 50_000_000_000;

/// Side of the ball, which is a square.
pub const TAMANHO_BOLA: i64 = 30_000_000_000;

/// Half the side of the ball.
pub const TAMANHO_BOLA_MEIO: i64 = 15_000_000_000;

/// Paddle speed in units per second, that is sub-units per nanosecond.
pub const VELOCIDADE_JOGADOR: i64 = 600;

/// Speed of the ball along each axis, in units per second.
pub const VELOCIDADE_BOLA: i32 = 500;

/// Distance from the top wall to the middle of the score text.
pub const ALTURA_PLACAR: i64 = 40_000_000_000;

/// A position in sub-units, measured from the top left corner of the
/// surface; `y` grows downwards.
#[derive(Clone, Copy, Debug, PartialEq, Eq, Structural)]
pub struct Point2 {
    pub x: i64,
    pub y: i64,
}

/// A velocity in units per second.
#[derive(Clone, Copy, Debug, PartialEq, Eq, Structural)]
pub struct Vector2 {
    pub x: i32,
    pub y: i32,
}

/// The drawable surface, in whole units.
#[derive(Clone, Copy, Debug, PartialEq, Eq, Structural)]
pub struct Surface {
    pub width: u32,
    pub height: u32,
}

/// Which of the four movement keys are held down: `w` and `s` steer the
/// left paddle, `up` and `down` the right one.
#[derive(Clone, Copy, Debug, PartialEq, Eq, Structural)]
pub struct Keys {
    pub w: bool,
    pub s: bool,
    pub up: bool,
    pub down: bool,
}

/// A pair of exact coordinates: what a [`Point2`] or a [`Vector2`] stands
/// for once machine limits are left behind.
pub struct Pair {
    pub x: int,
    pub y: int,
}

impl View for Point2 {
    type V = Pair;

    open spec fn view(&self) -> Pair {
        Pair { x: self.x as int, y: self.y as int }
    }
}

impl View for Vector2 {
    type V = Pair;

    open spec fn view(&self) -> Pair {
        Pair { x: self.x as int, y: self.y as int }
    }
}

impl Surface {
    /// Width in sub-units.
    pub open spec fn span_x(&self) -> int {
        self.width * UNIT
    }

    /// Height in sub-units.
    pub open spec fn span_y(&self) -> int {
        self.height * UNIT
    }

    /// The middle of the surface. A whole unit is an even number of
    /// sub-units, so the halves are exact.
    pub open spec fn middle(&self) -> Pair {
        Pair { x: self.width * (UNIT / 2), y: self.height * (UNIT / 2) }
    }

    /// The middle of the surface.
    pub fn center(&self) -> (c: Point2)
        ensures
            c@ == self.middle(),
            2 * c@.x == self.span_x(),
            2 * c@.y == self.span_y(),
    {
        Point2 { x: (self.width as i64) * (UNIT / 2), y: (self.height as i64) * (UNIT / 2) }
    }
}

} // verus!

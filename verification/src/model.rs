//! The game as mathematics: one frame as a function on exact integers.
//!
//! Each step of a frame is a function from [`Court`] to [`Court`]; a frame
//! is their composition, [`Court::stepped`]. The executable game refines
//! these functions; what holds of every frame is proved here, once, of the
//! functions themselves.

use vstd::prelude::*;
use crate::units::{
    Pair, Surface, Keys, UNIT, ALTURA_RAQUETE, ALTURA_RAQUETE_MEIO, LARGURA_RAQUETE_MEIO,
    TAMANHO_BOLA, TAMANHO_BOLA_MEIO, VELOCIDADE_JOGADOR, VELOCIDADE_BOLA,
};

verus! {

/// `v` brought into `lo ..= hi`: raised to `lo` when below it, otherwise
/// lowered to `hi` when above it. The lower bound is tried first, so with
/// `lo > hi` a value below `lo` still becomes `lo`.
pub open spec fn clamped(v: int, lo: int, hi: int) -> int {
    if v < lo {
        lo
    } else if v > hi {
        hi
    } else {
        v
    }
}

/// The absolute value of `v`.
pub open spec fn magnitude(v: int) -> int {
    if v < 0 {
        -v
    } else {
        v
    }
}

/// The vector `(x, y)` with each component kept where its flag is set and
/// negated where it is not.
pub open spec fn signed(x: int, y: int, keep_x: bool, keep_y: bool) -> Pair {
    Pair { x: if keep_x { x } else { -x }, y: if keep_y { y } else { -y } }
}

/// Lowest position that the centre of a paddle may take.
pub open spec fn paddle_min() -> int {
    ALTURA_RAQUETE_MEIO as int
}

/// Highest position that the centre of a paddle may take on a surface of
/// the given height.
pub open spec fn paddle_max(surface_height: u32) -> int {
    surface_height * UNIT - ALTURA_RAQUETE_MEIO
}

/// Lowest position that the centre of the ball may take.
pub open spec fn ball_min() -> int {
    TAMANHO_BOLA_MEIO as int
}

/// Highest position that the centre of the ball may take on a surface of
/// the given height.
pub open spec fn ball_max(surface_height: u32) -> int {
    surface_height * UNIT - TAMANHO_BOLA_MEIO
}

/// A paddle after one key was looked at: if the key is held, the paddle
/// travels `dt` nanoseconds in direction `dir`; held or not, it is then
/// clamped to the surface.
pub open spec fn paddle_after(p: Pair, held: bool, dir: int, dt: int, surface_height: u32) -> Pair {
    let y = if held {
        p.y + dir * VELOCIDADE_JOGADOR * dt
    } else {
        p.y
    };
    Pair { x: p.x, y: clamped(y, paddle_min(), paddle_max(surface_height)) }
}

/// The way a paddle is steered: `-1` (up) while only its "up" key is
/// held, `1` (down) while only its "down" key is held, `0` while neither
/// or both are.
pub open spec fn direction(up: bool, down: bool) -> int {
    (if down { 1int } else { 0int }) - (if up { 1int } else { 0int })
}

/// A paddle after a frame of `dt` nanoseconds: it rises by what the "up"
/// key gives if held, falls by what the "down" key gives if held, and is
/// then clamped to the surface, once.
pub open spec fn paddle_steered(p: Pair, up: bool, down: bool, dt: int, surface_height: u32) -> Pair {
    let rise = if up { VELOCIDADE_JOGADOR * dt } else { 0 };
    let fall = if down { VELOCIDADE_JOGADOR * dt } else { 0 };
    Pair { x: p.x, y: clamped(p.y - rise + fall, paddle_min(), paddle_max(surface_height)) }
}

/// Whether the box of the ball and the box of a paddle, each given by its
/// centre, share a point of their interiors.
pub open spec fn overlaps(ball: Pair, paddle: Pair) -> bool {
    &&& ball.x - TAMANHO_BOLA_MEIO < paddle.x + LARGURA_RAQUETE_MEIO
    &&& ball.x + TAMANHO_BOLA_MEIO > paddle.x - LARGURA_RAQUETE_MEIO
    &&& ball.y - TAMANHO_BOLA_MEIO < paddle.y + ALTURA_RAQUETE_MEIO
    &&& ball.y + TAMANHO_BOLA_MEIO > paddle.y - ALTURA_RAQUETE_MEIO
}

/// Height and vertical speed of a ball once the walls have been looked
/// at: below the least height the ball is put there and its speed made to
/// point down; otherwise, above the greatest height, it is put there and
/// its speed made to point up; otherwise both are left alone.
pub open spec fn off_walls(y: int, vy: int, surface_height: u32) -> (int, int) {
    if y < ball_min() {
        (ball_min(), magnitude(vy))
    } else if y > ball_max(surface_height) {
        (ball_max(surface_height), -magnitude(vy))
    } else {
        (y, vy)
    }
}

/// Everything the game knows, in exact integers: positions in sub-units,
/// the ball's velocity in units per second, and the two scores.
pub struct Court {
    pub paddle1: Pair,
    pub paddle2: Pair,
    pub ball: Pair,
    pub velocity: Pair,
    pub score1: nat,
    pub score2: nat,
}

impl Court {
    /// The court at the start of a game: paddles half-way down, one
    /// padding away from their walls, the ball in the middle, nobody has
    /// scored. The flags pick the direction in which the ball sets off.
    pub open spec fn opening(surface: Surface, keep_x: bool, keep_y: bool) -> Court {
        Court {
            paddle1: Pair {
                x: LARGURA_RAQUETE_MEIO + crate::units::PADDING,
                y: surface.middle().y,
            },
            paddle2: Pair {
                x: surface.span_x() - LARGURA_RAQUETE_MEIO - crate::units::PADDING,
                y: surface.middle().y,
            },
            ball: surface.middle(),
            velocity: signed(VELOCIDADE_BOLA as int, VELOCIDADE_BOLA as int, keep_x, keep_y),
            score1: 0,
            score2: 0,
        }
    }

    /// Whether both paddles lie wholly between the top and the bottom wall
    /// of a surface of the given height.
    pub open spec fn paddles_on_surface(self, surface_height: u32) -> bool {
        &&& paddle_min() <= self.paddle1.y <= paddle_max(surface_height)
        &&& paddle_min() <= self.paddle2.y <= paddle_max(surface_height)
    }

    /// Whether the ball lies wholly between the top and the bottom wall of
    /// a surface of the given height.
    pub open spec fn ball_between_walls(self, surface_height: u32) -> bool {
        ball_min() <= self.ball.y <= ball_max(surface_height)
    }

    /// First step of a frame: each paddle moves as its two keys say and is
    /// then clamped to the surface.
    pub open spec fn paddles_moved(self, dt: int, keys: Keys, surface_height: u32) -> Court {
        Court {
            paddle1: paddle_steered(self.paddle1, keys.w, keys.s, dt, surface_height),
            paddle2: paddle_steered(self.paddle2, keys.up, keys.down, dt, surface_height),
            ..self
        }
    }

    /// Second step: the ball travels for `dt` nanoseconds.
    pub open spec fn ball_moved(self, dt: int) -> Court {
        Court {
            ball: Pair {
                x: self.ball.x + self.velocity.x * dt,
                y: self.ball.y + self.velocity.y * dt,
            },
            ..self
        }
    }

    /// Whether the ball has passed the left wall.
    pub open spec fn out_left(self) -> bool {
        self.ball.x < 0
    }

    /// Whether the ball has passed the right wall.
    pub open spec fn out_right(self, surface: Surface) -> bool {
        self.ball.x > surface.span_x()
    }

    /// Whether the ball has left the court on either side.
    pub open spec fn is_out(self, surface: Surface) -> bool {
        self.out_left() || self.out_right(surface)
    }

    /// The point awarded and the ball put back in the middle, if the ball
    /// is out: past the left wall the right-hand player scores, past the
    /// right wall the left-hand player. The left wall is looked at first.
    pub open spec fn tallied(self, surface: Surface) -> Court {
        if self.out_left() {
            Court { ball: surface.middle(), score2: self.score2 + 1, ..self }
        } else if self.out_right(surface) {
            Court { ball: surface.middle(), score1: self.score1 + 1, ..self }
        } else {
            self
        }
    }

    /// The ball sent off anew at full speed, in the direction that the
    /// flags pick.
    pub open spec fn served(self, keep_x: bool, keep_y: bool) -> Court {
        Court {
            velocity: signed(VELOCIDADE_BOLA as int, VELOCIDADE_BOLA as int, keep_x, keep_y),
            ..self
        }
    }

    /// Third step: if the ball is out, a point is awarded and the ball is
    /// served from the middle.
    pub open spec fn scored(self, surface: Surface, keep_x: bool, keep_y: bool) -> Court {
        if self.is_out(surface) {
            self.tallied(surface).served(keep_x, keep_y)
        } else {
            self
        }
    }

    /// Whether the ball pokes through the top wall.
    pub open spec fn hits_top(self) -> bool {
        self.ball.y < ball_min()
    }

    /// Whether the ball pokes through the bottom wall, and not through the
    /// top one.
    pub open spec fn hits_bottom(self, surface_height: u32) -> bool {
        !self.hits_top() && self.ball.y > ball_max(surface_height)
    }

    /// Fourth step: a ball that pokes through the top wall is put against
    /// it and made to travel down; otherwise one that pokes through the
    /// bottom wall is put against that and made to travel up.
    pub open spec fn bounced(self, surface_height: u32) -> Court {
        let (y, vy) = off_walls(self.ball.y, self.velocity.y, surface_height);
        Court {
            ball: Pair { x: self.ball.x, y: y },
            velocity: Pair { x: self.velocity.x, y: vy },
            ..self
        }
    }

    /// Fifth step: a ball that overlaps the left paddle is made to travel
    /// right, and one that then overlaps the right paddle is made to
    /// travel left, whichever way it was going.
    pub open spec fn deflected(self) -> Court {
        let after_left = if overlaps(self.ball, self.paddle1) {
            magnitude(self.velocity.x)
        } else {
            self.velocity.x
        };
        let after_right = if overlaps(self.ball, self.paddle2) {
            -magnitude(after_left)
        } else {
            after_left
        };
        Court { velocity: Pair { x: after_right, y: self.velocity.y }, ..self }
    }

    /// The court once paddles and ball have moved and a point, if any, has
    /// been awarded: the state in which the walls are looked at.
    pub open spec fn in_flight(
        self,
        dt: int,
        keys: Keys,
        surface: Surface,
        keep_x: bool,
        keep_y: bool,
    ) -> Court {
        self.paddles_moved(dt, keys, surface.height).ball_moved(dt).scored(surface, keep_x, keep_y)
    }

    /// The court once the walls have been looked at as well: the state in
    /// which the paddles are tried against the ball.
    pub open spec fn at_paddles(
        self,
        dt: int,
        keys: Keys,
        surface: Surface,
        keep_x: bool,
        keep_y: bool,
    ) -> Court {
        self.in_flight(dt, keys, surface, keep_x, keep_y).bounced(surface.height)
    }

    /// One whole frame of `dt` nanoseconds. The flags matter only when the
    /// ball goes out during the frame: they pick the direction of the
    /// serve.
    pub open spec fn stepped(
        self,
        dt: int,
        keys: Keys,
        surface: Surface,
        keep_x: bool,
        keep_y: bool,
    ) -> Court {
        self.at_paddles(dt, keys, surface, keep_x, keep_y).deflected()
    }
}

/// Each component of a signed vector follows its own flag and no other,
/// and flipping a flag flips that component's sign: the four pairs of
/// flags give the four pairs of signs, and where a component is not zero
/// both of its signs occur.
pub proof fn lemma_signs_follow_flags(x: int, y: int, keep_x: bool, keep_y: bool)
    ensures
        signed(x, y, keep_x, keep_y).x == signed(x, y, keep_x, !keep_y).x,
        signed(x, y, keep_x, keep_y).y == signed(x, y, !keep_x, keep_y).y,
        signed(x, y, !keep_x, keep_y).x == -signed(x, y, keep_x, keep_y).x,
        signed(x, y, keep_x, !keep_y).y == -signed(x, y, keep_x, keep_y).y,
        signed(x, y, true, keep_y).x == x,
        signed(x, y, keep_x, true).y == y,
        x != 0 ==> signed(x, y, true, keep_y).x != signed(x, y, false, keep_y).x,
        y != 0 ==> signed(x, y, keep_x, true).y != signed(x, y, keep_x, false).y,
{
}

/// A product is no larger than the product of the bounds of its factors.
/// This is what keeps the distance travelled in a frame within 128 bits.
pub proof fn lemma_product_within(a: int, b: int, ma: int, mb: int)
    by (nonlinear_arith)
    requires
        -ma <= a <= ma,
        0 <= b <= mb,
    ensures
        -(ma * mb) <= a * b <= ma * mb,
{
}

/// With `lo <= hi`, a clamped value lies in `lo ..= hi`.
pub proof fn lemma_clamped_is_within(v: int, lo: int, hi: int)
    requires
        lo <= hi,
    ensures
        lo <= clamped(v, lo, hi) <= hi,
{
}

/// A value in `lo ..= hi` is its own clamp.
pub proof fn lemma_clamped_keeps_what_fits(v: int, lo: int, hi: int)
    requires
        lo <= v <= hi,
    ensures
        clamped(v, lo, hi) == v,
{
}

/// With `lo <= hi`, clamping twice is clamping once.
pub proof fn lemma_clamped_is_idempotent(v: int, lo: int, hi: int)
    requires
        lo <= hi,
    ensures
        clamped(clamped(v, lo, hi), lo, hi) == clamped(v, lo, hi),
{
}

/// A game opens with its paddles on the surface if the surface is at
/// least as high as a paddle, and with its ball between the walls if the
/// surface is at least as high as the ball.
pub proof fn lemma_opening_is_on_surface(surface: Surface, keep_x: bool, keep_y: bool)
    ensures
        surface.span_y() >= ALTURA_RAQUETE ==> Court::opening(
            surface,
            keep_x,
            keep_y,
        ).paddles_on_surface(surface.height),
        surface.span_y() >= TAMANHO_BOLA ==> Court::opening(
            surface,
            keep_x,
            keep_y,
        ).ball_between_walls(surface.height),
{
    assert(2 * surface.middle().y == surface.span_y());
}

/// On a surface at least as high as a paddle, both paddles end every
/// frame wholly on the surface, wherever they were before it. Sideways
/// they never move.
pub proof fn lemma_paddles_stay_on_surface(
    c: Court,
    dt: int,
    keys: Keys,
    surface: Surface,
    keep_x: bool,
    keep_y: bool,
)
    requires
        surface.span_y() >= ALTURA_RAQUETE,
    ensures
        c.stepped(dt, keys, surface, keep_x, keep_y).paddles_on_surface(surface.height),
        c.stepped(dt, keys, surface, keep_x, keep_y).paddle1.x == c.paddle1.x,
        c.stepped(dt, keys, surface, keep_x, keep_y).paddle2.x == c.paddle2.x,
{
}

/// A paddle that is on the surface and neither of whose keys is held is
/// where it was after the frame, however long the frame took.
pub proof fn lemma_idle_paddles_rest(
    c: Court,
    dt: int,
    keys: Keys,
    surface: Surface,
    keep_x: bool,
    keep_y: bool,
)
    ensures
        ({
            let after = c.stepped(dt, keys, surface, keep_x, keep_y);
            &&& !keys.w && !keys.s && paddle_min() <= c.paddle1.y <= paddle_max(surface.height)
                ==> after.paddle1 == c.paddle1
            &&& !keys.up && !keys.down && paddle_min() <= c.paddle2.y <= paddle_max(
                surface.height,
            ) ==> after.paddle2 == c.paddle2
        }),
{
}

/// Steering a paddle is one move in the direction that its keys add up
/// to, followed by the clamp.
pub proof fn lemma_steering_is_one_move(p: Pair, up: bool, down: bool, dt: int, surface_height: u32)
    ensures
        paddle_steered(p, up, down, dt, surface_height) == paddle_after(
            p,
            up || down,
            direction(up, down),
            dt,
            surface_height,
        ),
{
    assert(1 * VELOCIDADE_JOGADOR * dt == VELOCIDADE_JOGADOR * dt);
    assert((-1) * VELOCIDADE_JOGADOR * dt == -(VELOCIDADE_JOGADOR * dt)) by (nonlinear_arith);
    assert(0 * VELOCIDADE_JOGADOR * dt == 0) by (nonlinear_arith);
}

/// Opposite keys held together cancel out: a paddle that is on the
/// surface and both of whose keys are held is where it was after the
/// frame, however long the frame took and whichever wall it stands at.
pub proof fn lemma_opposite_keys_cancel(
    c: Court,
    dt: int,
    keys: Keys,
    surface: Surface,
    keep_x: bool,
    keep_y: bool,
)
    ensures
        ({
            let after = c.stepped(dt, keys, surface, keep_x, keep_y);
            &&& keys.w && keys.s && paddle_min() <= c.paddle1.y <= paddle_max(surface.height)
                ==> after.paddle1 == c.paddle1
            &&& keys.up && keys.down && paddle_min() <= c.paddle2.y <= paddle_max(
                surface.height,
            ) ==> after.paddle2 == c.paddle2
        }),
{
}

/// In a frame of no duration, a paddle that is on the surface stays where
/// it is, whichever keys are held.
pub proof fn lemma_paddles_rest_in_no_time(
    c: Court,
    keys: Keys,
    surface: Surface,
    keep_x: bool,
    keep_y: bool,
)
    ensures
        ({
            let after = c.stepped(0, keys, surface, keep_x, keep_y);
            &&& paddle_min() <= c.paddle1.y <= paddle_max(surface.height) ==> after.paddle1
                == c.paddle1
            &&& paddle_min() <= c.paddle2.y <= paddle_max(surface.height) ==> after.paddle2
                == c.paddle2
        }),
{
}

/// On a surface at least as high as the ball, the ball ends every frame
/// between the top and the bottom wall.
pub proof fn lemma_ball_stays_between_walls(
    c: Court,
    dt: int,
    keys: Keys,
    surface: Surface,
    keep_x: bool,
    keep_y: bool,
)
    requires
        surface.span_y() >= TAMANHO_BOLA,
    ensures
        c.stepped(dt, keys, surface, keep_x, keep_y).ball_between_walls(surface.height),
{
}

/// A frame in which the ball is taken off the top wall leaves it
/// travelling down or level; one in which it is taken off the bottom wall
/// leaves it travelling up or level.
pub proof fn lemma_walls_turn_the_ball_back(
    c: Court,
    dt: int,
    keys: Keys,
    surface: Surface,
    keep_x: bool,
    keep_y: bool,
)
    ensures
        ({
            let before = c.in_flight(dt, keys, surface, keep_x, keep_y);
            let after = c.stepped(dt, keys, surface, keep_x, keep_y);
            &&& before.hits_top() ==> after.velocity.y >= 0 && after.ball.y == ball_min()
            &&& before.hits_bottom(surface.height) ==> after.velocity.y <= 0 && after.ball.y
                == ball_max(surface.height)
            &&& !before.hits_top() && !before.hits_bottom(surface.height) ==> after.velocity.y
                == before.velocity.y && after.ball.y == before.ball.y
        }),
{
}

/// A frame that takes the ball past the left wall gives the right-hand
/// player exactly one point and the left-hand player none, and puts the
/// ball in the middle of the surface: sideways always, and in height too
/// unless the surface is lower than the ball, when the walls have the
/// last word.
pub proof fn lemma_left_exit_scores_for_player2(
    c: Court,
    dt: int,
    keys: Keys,
    surface: Surface,
    keep_x: bool,
    keep_y: bool,
)
    requires
        c.ball.x + c.velocity.x * dt < 0,
    ensures
        ({
            let after = c.stepped(dt, keys, surface, keep_x, keep_y);
            &&& after.score2 == c.score2 + 1
            &&& after.score1 == c.score1
            &&& after.ball.x == surface.middle().x
            &&& surface.span_y() >= TAMANHO_BOLA ==> after.ball == surface.middle()
            &&& magnitude(after.velocity.x) == VELOCIDADE_BOLA
            &&& magnitude(after.velocity.y) == VELOCIDADE_BOLA
        }),
{
    let after = c.stepped(dt, keys, surface, keep_x, keep_y);
    assert(2 * surface.middle().y == surface.span_y());
    assert(surface.span_y() >= TAMANHO_BOLA ==> after.ball == surface.middle());
}

/// A frame that takes the ball past the right wall gives the left-hand
/// player exactly one point and the right-hand player none, and puts the
/// ball in the middle of the surface: sideways always, and in height too
/// unless the surface is lower than the ball.
pub proof fn lemma_right_exit_scores_for_player1(
    c: Court,
    dt: int,
    keys: Keys,
    surface: Surface,
    keep_x: bool,
    keep_y: bool,
)
    requires
        c.ball.x + c.velocity.x * dt > surface.span_x(),
    ensures
        ({
            let after = c.stepped(dt, keys, surface, keep_x, keep_y);
            &&& after.score1 == c.score1 + 1
            &&& after.score2 == c.score2
            &&& after.ball.x == surface.middle().x
            &&& surface.span_y() >= TAMANHO_BOLA ==> after.ball == surface.middle()
            &&& magnitude(after.velocity.x) == VELOCIDADE_BOLA
            &&& magnitude(after.velocity.y) == VELOCIDADE_BOLA
        }),
{
    let after = c.stepped(dt, keys, surface, keep_x, keep_y);
    assert(2 * surface.middle().y == surface.span_y());
    assert(surface.span_y() >= TAMANHO_BOLA ==> after.ball == surface.middle());
}

/// Scores never fall, and a frame adds one point in all exactly if it
/// takes the ball past a side wall, and none otherwise.
pub proof fn lemma_one_point_per_exit(
    c: Court,
    dt: int,
    keys: Keys,
    surface: Surface,
    keep_x: bool,
    keep_y: bool,
)
    ensures
        ({
            let after = c.stepped(dt, keys, surface, keep_x, keep_y);
            let out = c.ball_moved(dt).is_out(surface);
            &&& after.score1 >= c.score1
            &&& after.score2 >= c.score2
            &&& out ==> after.score1 + after.score2 == c.score1 + c.score2 + 1
            &&& !out ==> after.score1 == c.score1 && after.score2 == c.score2
        }),
{
}

/// Walls and paddles turn the ball without changing its speed along
/// either axis: a frame in which the ball stays in play keeps both
/// magnitudes, and one in which it is served sets both to the serving
/// speed.
pub proof fn lemma_speed_is_kept(
    c: Court,
    dt: int,
    keys: Keys,
    surface: Surface,
    keep_x: bool,
    keep_y: bool,
)
    ensures
        ({
            let after = c.stepped(dt, keys, surface, keep_x, keep_y);
            let out = c.ball_moved(dt).is_out(surface);
            &&& !out ==> magnitude(after.velocity.x) == magnitude(c.velocity.x)
            &&& !out ==> magnitude(after.velocity.y) == magnitude(c.velocity.y)
            &&& out ==> magnitude(after.velocity.x) == VELOCIDADE_BOLA
            &&& out ==> magnitude(after.velocity.y) == VELOCIDADE_BOLA
        }),
{
}

/// A ball that overlaps the left paddle, and not the right one, leaves
/// the frame travelling right at the speed it had, whichever way it came;
/// one that overlaps the right paddle leaves it travelling left. A ball
/// that overlaps neither keeps its course. Its vertical speed is not
/// touched in any case.
pub proof fn lemma_paddles_turn_the_ball(
    c: Court,
    dt: int,
    keys: Keys,
    surface: Surface,
    keep_x: bool,
    keep_y: bool,
)
    ensures
        ({
            let before = c.at_paddles(dt, keys, surface, keep_x, keep_y);
            let after = c.stepped(dt, keys, surface, keep_x, keep_y);
            let left = overlaps(before.ball, before.paddle1);
            let right = overlaps(before.ball, before.paddle2);
            &&& left && !right ==> after.velocity.x == magnitude(before.velocity.x)
            &&& right ==> after.velocity.x == -magnitude(before.velocity.x)
            &&& !left && !right ==> after.velocity.x == before.velocity.x
            &&& after.velocity.y == before.velocity.y
            &&& after.ball == before.ball
        }),
{
}

} // verus!

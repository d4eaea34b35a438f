//! The game state and the frame that advances it.

use vstd::prelude::*;
use crate::units::{
    Point2, Vector2, Surface, Keys, UNIT, PADDING, LARGURA_RAQUETE_MEIO, ALTURA_RAQUETE_MEIO,
    ALTURA_RAQUETE, TAMANHO_BOLA, TAMANHO_BOLA_MEIO, VELOCIDADE_BOLA,
};
use crate::model::{
    Court, magnitude, overlaps, off_walls, lemma_product_within, lemma_opening_is_on_surface,
    lemma_steering_is_one_move,
    lemma_paddles_stay_on_surface, lemma_ball_stays_between_walls, lemma_one_point_per_exit,
};
use crate::paddle::{mover_raquete, steer};
use crate::chance::{randomizar_vec, with_signs};

verus! {

/// Two paddles, a ball and the score.
#[derive(Clone, Copy, Debug, PartialEq, Eq, Structural)]
pub struct EstadoJogo {
    /// Centre of the left paddle.
    pub posicao_jogador1: Point2,
    /// Centre of the right paddle.
    pub posicao_jogador2: Point2,
    /// Centre of the ball.
    pub posicao_bola: Point2,
    pub velocidade_bola: Vector2,
    pub placar_jogador1: u32,
    pub placar_jogador2: u32,
}

impl View for EstadoJogo {
    type V = Court;

    open spec fn view(&self) -> Court {
        Court {
            paddle1: self.posicao_jogador1@,
            paddle2: self.posicao_jogador2@,
            ball: self.posicao_bola@,
            velocity: self.velocidade_bola@,
            score1: self.placar_jogador1 as nat,
            score2: self.placar_jogador2 as nat,
        }
    }
}

/// The absolute value of `v`.
pub fn abs(v: i32) -> (m: i32)
    requires
        v > i32::MIN,
    ensures
        m == magnitude(v as int),
{
    if v < 0 {
        -v
    } else {
        v
    }
}

/// Whether the box of the ball and the box of a paddle, each given by its
/// centre, share a point of their interiors.
pub fn colidiu(bola: Point2, raquete: Point2) -> (hit: bool)
    ensures
        hit == overlaps(bola@, raquete@),
{
    let bx: i128 = bola.x as i128;
    let by: i128 = bola.y as i128;
    let px: i128 = raquete.x as i128;
    let py: i128 = raquete.y as i128;
    let ball_half: i128 = TAMANHO_BOLA_MEIO as i128;
    let half_w: i128 = LARGURA_RAQUETE_MEIO as i128;
    let half_h: i128 = ALTURA_RAQUETE_MEIO as i128;
    bx - ball_half < px + half_w && bx + ball_half > px - half_w && by - ball_half < py + half_h
        && by + ball_half > py - half_h
}

/// Height and vertical speed of a ball once the walls have been looked
/// at. The height that comes in may lie beyond what a coordinate can hold;
/// the one that goes out never does.
pub fn rebound(y: i128, vy: i32, altura_tela: u32) -> (r: (i64, i32))
    requires
        vy > i32::MIN,
    ensures
        (r.0 as int, r.1 as int) == off_walls(y as int, vy as int, altura_tela),
        r.1 > i32::MIN,
{
    let fundo: i64 = (altura_tela as i64) * UNIT - TAMANHO_BOLA_MEIO;
    if y < TAMANHO_BOLA_MEIO as i128 {
        (TAMANHO_BOLA_MEIO, abs(vy))
    } else if y > fundo as i128 {
        (fundo, -abs(vy))
    } else {
        (y as i64, vy)
    }
}

impl EstadoJogo {
    /// What a frame needs of the state so that no number leaves its type:
    /// room for one more point on either side, and velocity components
    /// that have a negative.
    pub open spec fn within_limits(&self) -> bool {
        &&& self.velocidade_bola.x > i32::MIN
        &&& self.velocidade_bola.y > i32::MIN
        &&& self.placar_jogador1 < u32::MAX
        &&& self.placar_jogador2 < u32::MAX
    }

    /// Whether the state is within the limits that a frame needs.
    pub fn can_update(&self) -> (ok: bool)
        ensures
            ok == self.within_limits(),
    {
        self.velocidade_bola.x > i32::MIN && self.velocidade_bola.y > i32::MIN
            && self.placar_jogador1 < u32::MAX && self.placar_jogador2 < u32::MAX
    }

    /// A new game on the given surface: paddles half-way down, one padding
    /// away from their walls, the ball in the middle and about to leave
    /// at full speed in a direction drawn at random, no points scored.
    pub fn novo(surface: Surface) -> (estado: Self)
        ensures
            exists|keep_x: bool, keep_y: bool| estado@ == Court::opening(surface, keep_x, keep_y),
            estado.within_limits(),
            surface.span_y() >= ALTURA_RAQUETE ==> estado@.paddles_on_surface(surface.height),
            surface.span_y() >= TAMANHO_BOLA ==> estado@.ball_between_walls(surface.height),
    {
        let meio = surface.center();
        let mut velocidade_bola = Vector2 { x: 0, y: 0 };
        randomizar_vec(&mut velocidade_bola, VELOCIDADE_BOLA, VELOCIDADE_BOLA);
        let estado = EstadoJogo {
            posicao_jogador1: Point2 { x: LARGURA_RAQUETE_MEIO + PADDING, y: meio.y },
            posicao_jogador2: Point2 {
                x: (surface.width as i64) * UNIT - LARGURA_RAQUETE_MEIO - PADDING,
                y: meio.y,
            },
            posicao_bola: meio,
            velocidade_bola,
            placar_jogador1: 0,
            placar_jogador2: 0,
        };
        proof {
            let keep_x = velocidade_bola.x == VELOCIDADE_BOLA;
            let keep_y = velocidade_bola.y == VELOCIDADE_BOLA;
            assert(estado@ == Court::opening(surface, keep_x, keep_y));
            lemma_opening_is_on_surface(surface, keep_x, keep_y);
        }
        estado
    }

    /// First step of a frame: each paddle moves as its two keys say and is
    /// then clamped to the surface. Keys held together cancel out before
    /// the clamp, so that a paddle at a wall stays there.
    pub fn move_paddles(&mut self, dt: u64, keys: Keys, altura_tela: u32)
        ensures
            final(self)@ == old(self)@.paddles_moved(dt as int, keys, altura_tela),
    {
        proof {
            lemma_steering_is_one_move(self.posicao_jogador1@, keys.w, keys.s, dt as int, altura_tela);
            lemma_steering_is_one_move(
                self.posicao_jogador2@,
                keys.up,
                keys.down,
                dt as int,
                altura_tela,
            );
        }
        mover_raquete(
            &mut self.posicao_jogador1,
            keys.w || keys.s,
            steer(keys.w, keys.s),
            dt,
            altura_tela,
        );
        mover_raquete(
            &mut self.posicao_jogador2,
            keys.up || keys.down,
            steer(keys.up, keys.down),
            dt,
            altura_tela,
        );
    }

    /// Second step, and what of the next two must be done before the ball
    /// can be stored. The ball travels for `dt` nanoseconds. If that takes
    /// it past a side wall, the point is awarded and the ball is put back
    /// in the middle, yet to be served. If it stays in play, it is taken
    /// off the top and bottom walls at once: until then its height may lie
    /// beyond what a coordinate can hold. Tells whether the ball went out.
    pub fn move_ball(&mut self, dt: u64, surface: Surface) -> (out: bool)
        requires
            old(self).within_limits(),
        ensures
            out == old(self)@.ball_moved(dt as int).is_out(surface),
            out ==> final(self)@ == old(self)@.ball_moved(dt as int).tallied(surface),
            !out ==> final(self)@ == old(self)@.ball_moved(dt as int).bounced(surface.height),
            final(self).velocidade_bola.x > i32::MIN,
            final(self).velocidade_bola.y > i32::MIN,
    {
        proof {
            lemma_product_within(
                self.velocidade_bola.x as int,
                dt as int,
                0x8000_0000,
                u64::MAX as int,
            );
            lemma_product_within(
                self.velocidade_bola.y as int,
                dt as int,
                0x8000_0000,
                u64::MAX as int,
            );
        }
        let x: i128 = (self.posicao_bola.x as i128) + (self.velocidade_bola.x as i128) * (dt as i128);
        let y: i128 = (self.posicao_bola.y as i128) + (self.velocidade_bola.y as i128) * (dt as i128);
        let largura_tela: i64 = (surface.width as i64) * UNIT;
        if x < 0 {
            self.posicao_bola = surface.center();
            self.placar_jogador2 = self.placar_jogador2 + 1;
            true
        } else if x > largura_tela as i128 {
            self.posicao_bola = surface.center();
            self.placar_jogador1 = self.placar_jogador1 + 1;
            true
        } else {
            let (y, vy) = rebound(y, self.velocidade_bola.y, surface.height);
            self.posicao_bola = Point2 { x: x as i64, y };
            self.velocidade_bola.y = vy;
            false
        }
    }

    /// Fourth step: a ball that pokes through the top wall is put against
    /// it and made to travel down; otherwise one that pokes through the
    /// bottom wall is put against that and made to travel up.
    pub fn bounce(&mut self, altura_tela: u32)
        requires
            old(self).velocidade_bola.y > i32::MIN,
        ensures
            final(self)@ == old(self)@.bounced(altura_tela),
            final(self).velocidade_bola.y > i32::MIN,
    {
        let (y, vy) = rebound(self.posicao_bola.y as i128, self.velocidade_bola.y, altura_tela);
        self.posicao_bola.y = y;
        self.velocidade_bola.y = vy;
    }

    /// Fifth step: a ball that overlaps the left paddle is made to travel
    /// right, and one that then overlaps the right paddle is made to
    /// travel left, whichever way it was going.
    pub fn deflect(&mut self)
        requires
            old(self).velocidade_bola.x > i32::MIN,
        ensures
            final(self)@ == old(self)@.deflected(),
            final(self).velocidade_bola.x > i32::MIN,
    {
        if colidiu(self.posicao_bola, self.posicao_jogador1) {
            self.velocidade_bola.x = abs(self.velocidade_bola.x);
        }
        if colidiu(self.posicao_bola, self.posicao_jogador2) {
            self.velocidade_bola.x = -abs(self.velocidade_bola.x);
        }
    }

    /// One frame of `dt` nanoseconds, the direction of a serve given by
    /// the caller: paddles, ball, score, walls, paddles against ball, in
    /// that order. The flags are looked at only if the ball goes out.
    pub fn update_with(&mut self, dt: u64, keys: Keys, surface: Surface, keep_x: bool, keep_y: bool)
        requires
            old(self).within_limits(),
        ensures
            final(self)@ == old(self)@.stepped(dt as int, keys, surface, keep_x, keep_y),
            final(self).velocidade_bola.x > i32::MIN,
            final(self).velocidade_bola.y > i32::MIN,
            surface.span_y() >= ALTURA_RAQUETE ==> final(self)@.paddles_on_surface(surface.height),
            surface.span_y() >= TAMANHO_BOLA ==> final(self)@.ball_between_walls(surface.height),
            final(self).placar_jogador1 >= old(self).placar_jogador1,
            final(self).placar_jogador2 >= old(self).placar_jogador2,
    {
        self.move_paddles(dt, keys, surface.height);
        if self.move_ball(dt, surface) {
            self.velocidade_bola = with_signs(VELOCIDADE_BOLA, VELOCIDADE_BOLA, keep_x, keep_y);
            self.bounce(surface.height);
        }
        self.deflect();
        proof {
            if surface.span_y() >= ALTURA_RAQUETE {
                lemma_paddles_stay_on_surface(old(self)@, dt as int, keys, surface, keep_x, keep_y);
            }
            if surface.span_y() >= TAMANHO_BOLA {
                lemma_ball_stays_between_walls(old(self)@, dt as int, keys, surface, keep_x, keep_y);
            }
            lemma_one_point_per_exit(old(self)@, dt as int, keys, surface, keep_x, keep_y);
        }
    }

    /// One frame of `dt` nanoseconds: paddles, ball, score, walls, paddles
    /// against ball, in that order. If the ball goes out, the direction of
    /// the serve is drawn at random; the frame is then one of the four
    /// that [`EstadoJogo::update_with`] can give, and otherwise the only
    /// one.
    pub fn update(&mut self, dt: u64, keys: Keys, surface: Surface)
        requires
            old(self).within_limits(),
        ensures
            exists|keep_x: bool, keep_y: bool|
                final(self)@ == old(self)@.stepped(dt as int, keys, surface, keep_x, keep_y),
            final(self).velocidade_bola.x > i32::MIN,
            final(self).velocidade_bola.y > i32::MIN,
            surface.span_y() >= ALTURA_RAQUETE ==> final(self)@.paddles_on_surface(surface.height),
            surface.span_y() >= TAMANHO_BOLA ==> final(self)@.ball_between_walls(surface.height),
            final(self).placar_jogador1 >= old(self).placar_jogador1,
            final(self).placar_jogador2 >= old(self).placar_jogador2,
    {
        let ghost mut keep_x = true;
        let ghost mut keep_y = true;
        self.move_paddles(dt, keys, surface.height);
        if self.move_ball(dt, surface) {
            randomizar_vec(&mut self.velocidade_bola, VELOCIDADE_BOLA, VELOCIDADE_BOLA);
            proof {
                keep_x = self.velocidade_bola.x == VELOCIDADE_BOLA;
                keep_y = self.velocidade_bola.y == VELOCIDADE_BOLA;
            }
            self.bounce(surface.height);
        }
        self.deflect();
        proof {
            assert(self@ == old(self)@.stepped(dt as int, keys, surface, keep_x, keep_y));
            if surface.span_y() >= ALTURA_RAQUETE {
                lemma_paddles_stay_on_surface(old(self)@, dt as int, keys, surface, keep_x, keep_y);
            }
            if surface.span_y() >= TAMANHO_BOLA {
                lemma_ball_stays_between_walls(old(self)@, dt as int, keys, surface, keep_x, keep_y);
            }
            lemma_one_point_per_exit(old(self)@, dt as int, keys, surface, keep_x, keep_y);
        }
    }
}

} // verus!

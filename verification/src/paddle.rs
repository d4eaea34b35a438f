//! Paddle movement.

use vstd::prelude::*;
use crate::units::{Point2, UNIT, ALTURA_RAQUETE_MEIO, VELOCIDADE_JOGADOR};
use crate::model::{clamped, direction, paddle_after, lemma_product_within};

verus! {

/// Brings `value` into `baixo ..= alto`, trying the lower bound first.
pub fn clamp(value: &mut i128, baixo: i128, alto: i128)
    ensures
        *final(value) == clamped(*old(value) as int, baixo as int, alto as int),
{
    if *value < baixo {
        *value = baixo;
    } else if *value > alto {
        *value = alto;
    }
}

/// The way a paddle is steered by its two keys: `-1` for up, `1` for
/// down, `0` where the keys cancel or neither is held.
pub fn steer(up: bool, down: bool) -> (dir: i32)
    ensures
        dir == direction(up, down),
{
    if up == down {
        0
    } else if up {
        -1
    } else {
        1
    }
}

/// Moves a paddle for one key: `direcao_y` times the paddle speed for `dt`
/// nanoseconds if the key is held, then the clamp to the surface in any
/// case.
pub fn mover_raquete(pos: &mut Point2, held: bool, direcao_y: i32, dt: u64, altura_tela: u32)
    ensures
        final(pos)@ == paddle_after(old(pos)@, held, direcao_y as int, dt as int, altura_tela),
{
    let mut y: i128 = pos.y as i128;
    if held {
        let rate: i64 = (direcao_y as i64) * VELOCIDADE_JOGADOR;
        proof {
            lemma_product_within(rate as int, dt as int, 600 * 0x8000_0000int, u64::MAX as int);
        }
        y = y + (rate as i128) * (dt as i128);
    }
    let top: i64 = (altura_tela as i64) * UNIT - ALTURA_RAQUETE_MEIO;
    clamp(&mut y, ALTURA_RAQUETE_MEIO as i128, top as i128);
    pos.y = y as i64;
}

} // verus!

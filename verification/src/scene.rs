//! What a frame looks like: the rectangles to fill and the score to print.

use vstd::prelude::*;
use crate::units::{
    Point2, Surface, UNIT, MIDDLE_LINE_W, ALTURA_RAQUETE, LARGURA_RAQUETE, LARGURA_RAQUETE_MEIO,
    ALTURA_RAQUETE_MEIO, TAMANHO_BOLA, TAMANHO_BOLA_MEIO, ALTURA_PLACAR,
};
use crate::state::EstadoJogo;

verus! {

/// A rectangle in sub-units: its top left corner and its size.
#[derive(Clone, Copy, Debug, PartialEq, Eq, Structural)]
pub struct Rect {
    pub x: i64,
    pub y: i64,
    pub w: i64,
    pub h: i64,
}

/// One rectangle to fill: a shape laid out around its own origin, and the
/// point of the surface at which that origin goes.
#[derive(Clone, Copy, Debug, PartialEq, Eq, Structural)]
pub struct Sprite {
    pub shape: Rect,
    pub dest: Point2,
}

/// All that a frame shows but for where the score goes, which depends on
/// how wide the host's font makes it.
#[derive(Debug)]
pub struct Scene {
    /// The rectangles, in the order in which they are to be filled.
    pub sprites: Vec<Sprite>,
    /// The score as text.
    pub placar: String,
}

/// The character for a single decimal digit.
pub open spec fn digit(d: nat) -> char {
    if d == 0 {
        '0'
    } else if d == 1 {
        '1'
    } else if d == 2 {
        '2'
    } else if d == 3 {
        '3'
    } else if d == 4 {
        '4'
    } else if d == 5 {
        '5'
    } else if d == 6 {
        '6'
    } else if d == 7 {
        '7'
    } else if d == 8 {
        '8'
    } else {
        '9'
    }
}

/// A number written in base ten, without sign or leading zeros.
pub open spec fn decimal(n: nat) -> Seq<char>
    decreases n,
{
    if n < 10 {
        seq![digit(n)]
    } else {
        decimal(n / 10).push(digit(n % 10))
    }
}

/// What keeps the two scores apart on screen: nine spaces.
pub open spec fn gap() -> Seq<char> {
    Seq::new(9, |i: int| ' ')
}

/// The score as it is printed: the left-hand player's points, the gap,
/// the right-hand player's points.
pub open spec fn score_line(score1: nat, score2: nat) -> Seq<char> {
    decimal(score1) + gap() + decimal(score2)
}

/// The shape of a paddle around its centre.
pub open spec fn paddle_shape() -> Rect {
    Rect {
        x: (-LARGURA_RAQUETE_MEIO) as i64,
        y: (-ALTURA_RAQUETE_MEIO) as i64,
        w: LARGURA_RAQUETE,
        h: ALTURA_RAQUETE,
    }
}

/// The shape of the ball around its centre.
pub open spec fn ball_shape() -> Rect {
    Rect {
        x: (-TAMANHO_BOLA_MEIO) as i64,
        y: (-TAMANHO_BOLA_MEIO) as i64,
        w: TAMANHO_BOLA,
        h: TAMANHO_BOLA,
    }
}

/// The shape of the middle line around the middle of the top wall: as
/// high as the surface.
pub open spec fn line_shape(surface: Surface) -> Rect {
    Rect { x: (-(MIDDLE_LINE_W / 2)) as i64, y: 0, w: MIDDLE_LINE_W, h: (surface.height * UNIT) as i64 }
}

/// The rectangles of a frame, bottom-most first: the middle line, the
/// left paddle, the right paddle, the ball.
pub open spec fn layout(estado: EstadoJogo, surface: Surface) -> Seq<Sprite> {
    seq![
        Sprite {
            shape: line_shape(surface),
            dest: Point2 { x: (surface.width * (UNIT / 2)) as i64, y: 0 },
        },
        Sprite { shape: paddle_shape(), dest: estado.posicao_jogador1 },
        Sprite { shape: paddle_shape(), dest: estado.posicao_jogador2 },
        Sprite { shape: ball_shape(), dest: estado.posicao_bola },
    ]
}

/// The text of a single decimal digit.
fn digit_str(d: u32) -> (s: &'static str)
    requires
        d < 10,
    ensures
        s@ == seq![digit(d as nat)],
{
    proof {
        reveal_strlit("0");
        reveal_strlit("1");
        reveal_strlit("2");
        reveal_strlit("3");
        reveal_strlit("4");
        reveal_strlit("5");
        reveal_strlit("6");
        reveal_strlit("7");
        reveal_strlit("8");
        reveal_strlit("9");
    }
    let s = if d == 0 {
        "0"
    } else if d == 1 {
        "1"
    } else if d == 2 {
        "2"
    } else if d == 3 {
        "3"
    } else if d == 4 {
        "4"
    } else if d == 5 {
        "5"
    } else if d == 6 {
        "6"
    } else if d == 7 {
        "7"
    } else if d == 8 {
        "8"
    } else {
        "9"
    };
    assert(s@ =~= seq![digit(d as nat)]);
    s
}

/// Appends `n`, written in base ten, to `text`.
pub fn push_decimal(text: &mut String, n: u32)
    ensures
        final(text)@ == old(text)@ + decimal(n as nat),
    decreases n,
{
    if n >= 10 {
        push_decimal(text, n / 10);
    }
    text.append(digit_str(n % 10));
    assert(text@ =~= old(text)@ + decimal(n as nat));
}

/// The score as it is printed.
pub fn score_text(score1: u32, score2: u32) -> (text: String)
    ensures
        text@ == score_line(score1 as nat, score2 as nat),
{
    let mut text = String::new();
    push_decimal(&mut text, score1);
    proof {
        reveal_strlit("         ");
    }
    text.append("         ");
    push_decimal(&mut text, score2);
    assert(text@ =~= score_line(score1 as nat, score2 as nat));
    text
}

/// Where the top left corner of the score goes, once the host has
/// measured the text in whole units: the text is centred on the middle of
/// the surface sideways and on the score line in height.
pub fn score_position(surface: Surface, text_w: u32, text_h: u32) -> (p: Point2)
    ensures
        p@.x == surface.middle().x - text_w * (UNIT / 2),
        p@.y == ALTURA_PLACAR - text_h * (UNIT / 2),
{
    let meio = surface.center();
    Point2 {
        x: meio.x - (text_w as i64) * (UNIT / 2),
        y: ALTURA_PLACAR - (text_h as i64) * (UNIT / 2),
    }
}

impl EstadoJogo {
    /// Lays out the frame for the host to paint: the rectangles in the
    /// order in which they are to be filled, and the score as text.
    pub fn draw(&self, surface: Surface) -> (scene: Scene)
        ensures
            scene.sprites@ == layout(*self, surface),
            scene.placar@ == score_line(self.placar_jogador1 as nat, self.placar_jogador2 as nat),
    {
        let raquete = Rect {
            x: -LARGURA_RAQUETE_MEIO,
            y: -ALTURA_RAQUETE_MEIO,
            w: LARGURA_RAQUETE,
            h: ALTURA_RAQUETE,
        };
        let bola = Rect {
            x: -TAMANHO_BOLA_MEIO,
            y: -TAMANHO_BOLA_MEIO,
            w: TAMANHO_BOLA,
            h: TAMANHO_BOLA,
        };
        let meio = Rect {
            x: -(MIDDLE_LINE_W / 2),
            y: 0,
            w: MIDDLE_LINE_W,
            h: (surface.height as i64) * UNIT,
        };
        let mut sprites: Vec<Sprite> = Vec::new();
        sprites.push(Sprite { shape: meio, dest: Point2 { x: surface.center().x, y: 0 } });
        sprites.push(Sprite { shape: raquete, dest: self.posicao_jogador1 });
        sprites.push(Sprite { shape: raquete, dest: self.posicao_jogador2 });
        sprites.push(Sprite { shape: bola, dest: self.posicao_bola });
        assert(sprites@ =~= layout(*self, surface));
        Scene { sprites, placar: score_text(self.placar_jogador1, self.placar_jogador2) }
    }
}

} // verus!

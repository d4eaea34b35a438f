use pong::state::EstadoJogo;
use pong::units::{Keys, Point2, Surface, Vector2, UNIT};

const NO_KEYS: Keys = Keys { w: false, s: false, up: false, down: false };
const SURFACE: Surface = Surface { width: 800, height: 600 };

fn state(ball: (i64, i64), velocity: (i32, i32)) -> EstadoJogo {
    EstadoJogo {
        posicao_jogador1: Point2 { x: 50 * UNIT, y: 300 * UNIT },
        posicao_jogador2: Point2 { x: 750 * UNIT, y: 300 * UNIT },
        posicao_bola: Point2 { x: ball.0, y: ball.1 },
        velocidade_bola: Vector2 { x: velocity.0, y: velocity.1 },
        placar_jogador1: 0,
        placar_jogador2: 0,
    }
}

#[test]
fn new_game_is_laid_out_on_the_surface() {
    let e = EstadoJogo::novo(SURFACE);
    assert_eq!(e.posicao_jogador1, Point2 { x: 50 * UNIT, y: 300 * UNIT });
    assert_eq!(e.posicao_jogador2, Point2 { x: 750 * UNIT, y: 300 * UNIT });
    assert_eq!(e.posicao_bola, Point2 { x: 400 * UNIT, y: 300 * UNIT });
    assert_eq!(e.velocidade_bola.x.abs(), 500);
    assert_eq!(e.velocidade_bola.y.abs(), 500);
    assert_eq!(e.placar_jogador1, 0);
    assert_eq!(e.placar_jogador2, 0);
    assert!(e.can_update());
}

#[test]
fn new_game_on_odd_surface_is_centred_exactly() {
    let e = EstadoJogo::novo(Surface { width: 801, height: 601 });
    assert_eq!(e.posicao_bola, Point2 { x: 400_500_000_000, y: 300_500_000_000 });
    assert_eq!(e.posicao_jogador1, Point2 { x: 50 * UNIT, y: 300_500_000_000 });
    assert_eq!(e.posicao_jogador2, Point2 { x: 751 * UNIT, y: 300_500_000_000 });
}

#[test]
fn new_game_on_empty_surface() {
    let e = EstadoJogo::novo(Surface { width: 0, height: 0 });
    assert_eq!(e.posicao_bola, Point2 { x: 0, y: 0 });
    assert_eq!(e.posicao_jogador1, Point2 { x: 50 * UNIT, y: 0 });
    assert_eq!(e.posicao_jogador2, Point2 { x: -50 * UNIT, y: 0 });
}

#[test]
fn ball_travels_velocity_times_time() {
    let mut e = state((400 * UNIT, 300 * UNIT), (500, -500));
    e.update(10_000_000, NO_KEYS, SURFACE);
    assert_eq!(e.posicao_bola, Point2 { x: 405 * UNIT, y: 295 * UNIT });
    assert_eq!(e.velocidade_bola, Vector2 { x: 500, y: -500 });
    assert_eq!((e.placar_jogador1, e.placar_jogador2), (0, 0));
}

#[test]
fn ball_travels_by_single_nanoseconds() {
    let mut e = state((400 * UNIT, 300 * UNIT), (-3, 7));
    e.update(1, NO_KEYS, SURFACE);
    assert_eq!(e.posicao_bola, Point2 { x: 400 * UNIT - 3, y: 300 * UNIT + 7 });
}

#[test]
fn left_exit_scores_for_player_two() {
    for velocity in [(0, 0), (500, 500), (-500, 500), (500, -500), (-500, -500), (123, -7)] {
        let mut e = state((-UNIT, 300 * UNIT), velocity);
        e.placar_jogador1 = 3;
        e.placar_jogador2 = 4;
        e.update(0, NO_KEYS, SURFACE);
        assert_eq!(e.posicao_bola, Point2 { x: 400 * UNIT, y: 300 * UNIT });
        assert_eq!(e.placar_jogador2, 5);
        assert_eq!(e.placar_jogador1, 3);
        assert_eq!(e.velocidade_bola.x.abs(), 500);
        assert_eq!(e.velocidade_bola.y.abs(), 500);
    }
}

#[test]
fn right_exit_scores_for_player_one() {
    for velocity in [(0, 0), (500, 500), (-500, 500), (500, -500), (-500, -500), (123, -7)] {
        let mut e = state((801 * UNIT, 300 * UNIT), velocity);
        e.placar_jogador1 = 3;
        e.placar_jogador2 = 4;
        e.update(0, NO_KEYS, SURFACE);
        assert_eq!(e.posicao_bola, Point2 { x: 400 * UNIT, y: 300 * UNIT });
        assert_eq!(e.placar_jogador1, 4);
        assert_eq!(e.placar_jogador2, 4);
        assert_eq!(e.velocidade_bola.x.abs(), 500);
        assert_eq!(e.velocidade_bola.y.abs(), 500);
    }
}

#[test]
fn ball_on_a_side_wall_is_still_in_play() {
    let mut e = state((0, 300 * UNIT), (0, 0));
    e.update(0, NO_KEYS, SURFACE);
    assert_eq!(e.posicao_bola, Point2 { x: 0, y: 300 * UNIT });
    assert_eq!((e.placar_jogador1, e.placar_jogador2), (0, 0));
    let mut e = state((800 * UNIT, 300 * UNIT), (0, 0));
    e.update(0, NO_KEYS, SURFACE);
    assert_eq!(e.posicao_bola, Point2 { x: 800 * UNIT, y: 300 * UNIT });
    assert_eq!((e.placar_jogador1, e.placar_jogador2), (0, 0));
}

#[test]
fn ball_one_sub_unit_out_scores() {
    let mut e = state((0, 300 * UNIT), (-1, 0));
    e.update(1, NO_KEYS, SURFACE);
    assert_eq!((e.placar_jogador1, e.placar_jogador2), (0, 1));
    let mut e = state((800 * UNIT, 300 * UNIT), (1, 0));
    e.update(1, NO_KEYS, SURFACE);
    assert_eq!((e.placar_jogador1, e.placar_jogador2), (1, 0));
}

#[test]
fn serve_goes_where_the_flags_say() {
    for (keep_x, keep_y, expected) in [
        (true, true, (500, 500)),
        (true, false, (500, -500)),
        (false, true, (-500, 500)),
        (false, false, (-500, -500)),
    ] {
        let mut e = state((-UNIT, 300 * UNIT), (-500, 0));
        e.update_with(0, NO_KEYS, SURFACE, keep_x, keep_y);
        assert_eq!(e.velocidade_bola, Vector2 { x: expected.0, y: expected.1 });
        assert_eq!(e.posicao_bola, Point2 { x: 400 * UNIT, y: 300 * UNIT });
        assert_eq!((e.placar_jogador1, e.placar_jogador2), (0, 1));
    }
}

#[test]
fn flags_are_ignored_while_the_ball_is_in_play() {
    let mut a = state((400 * UNIT, 300 * UNIT), (500, -500));
    let mut b = a;
    a.update_with(16_000_000, NO_KEYS, SURFACE, true, true);
    b.update_with(16_000_000, NO_KEYS, SURFACE, false, false);
    assert_eq!(a, b);
    assert_eq!(a.posicao_bola, Point2 { x: 408 * UNIT, y: 292 * UNIT });
}

#[test]
fn top_wall_sends_the_ball_down() {
    let mut e = state((400 * UNIT, 16 * UNIT), (500, -500));
    e.update(10_000_000, NO_KEYS, SURFACE);
    assert_eq!(e.posicao_bola, Point2 { x: 405 * UNIT, y: 15 * UNIT });
    assert_eq!(e.velocidade_bola, Vector2 { x: 500, y: 500 });
}

#[test]
fn top_wall_keeps_a_ball_that_already_travels_down() {
    let mut e = state((400 * UNIT, 0), (0, 500));
    e.update(0, NO_KEYS, SURFACE);
    assert_eq!(e.posicao_bola.y, 15 * UNIT);
    assert_eq!(e.velocidade_bola, Vector2 { x: 0, y: 500 });
}

#[test]
fn bottom_wall_sends_the_ball_up() {
    let mut e = state((400 * UNIT, 584 * UNIT), (-500, 500));
    e.update(10_000_000, NO_KEYS, SURFACE);
    assert_eq!(e.posicao_bola, Point2 { x: 395 * UNIT, y: 585 * UNIT });
    assert_eq!(e.velocidade_bola, Vector2 { x: -500, y: -500 });
}

#[test]
fn ball_touching_a_wall_does_not_bounce() {
    let mut e = state((400 * UNIT, 15 * UNIT), (0, -500));
    e.update(0, NO_KEYS, SURFACE);
    assert_eq!(e.velocidade_bola, Vector2 { x: 0, y: -500 });
    let mut e = state((400 * UNIT, 585 * UNIT), (0, 500));
    e.update(0, NO_KEYS, SURFACE);
    assert_eq!(e.velocidade_bola, Vector2 { x: 0, y: 500 });
}

#[test]
fn ball_stays_between_the_walls_over_many_frames() {
    let mut e = state((400 * UNIT, 300 * UNIT), (500, 500));
    let mut bounces = 0;
    for _ in 0..2000 {
        assert!(e.can_update());
        let before = e.velocidade_bola.y;
        e.update(16_666_667, NO_KEYS, SURFACE);
        assert!(e.posicao_bola.y >= 15 * UNIT);
        assert!(e.posicao_bola.y <= 585 * UNIT);
        assert_eq!(e.velocidade_bola.x.abs(), 500);
        assert_eq!(e.velocidade_bola.y.abs(), 500);
        if e.posicao_bola.y == 15 * UNIT {
            assert!(e.velocidade_bola.y >= 0);
        }
        if e.posicao_bola.y == 585 * UNIT {
            assert!(e.velocidade_bola.y <= 0);
        }
        if before != e.velocidade_bola.y {
            bounces += 1;
        }
    }
    assert!(bounces > 0);
}

#[test]
fn left_paddle_sends_the_ball_right() {
    let mut e = state((50 * UNIT, 300 * UNIT), (-500, 0));
    e.update(0, NO_KEYS, SURFACE);
    assert_eq!(e.velocidade_bola, Vector2 { x: 500, y: 0 });
    assert_eq!(e.posicao_bola, Point2 { x: 50 * UNIT, y: 300 * UNIT });
}

#[test]
fn left_paddle_sends_the_ball_right_after_a_real_frame() {
    let mut e = state((50 * UNIT, 300 * UNIT), (-500, 0));
    e.update(16_000_000, NO_KEYS, SURFACE);
    assert_eq!(e.velocidade_bola, Vector2 { x: 500, y: 0 });
    assert_eq!(e.posicao_bola, Point2 { x: 42 * UNIT, y: 300 * UNIT });
}

#[test]
fn left_paddle_keeps_a_ball_that_already_travels_right() {
    let mut e = state((50 * UNIT, 300 * UNIT), (500, -250));
    e.update(0, NO_KEYS, SURFACE);
    assert_eq!(e.velocidade_bola, Vector2 { x: 500, y: -250 });
}

#[test]
fn right_paddle_sends_the_ball_left() {
    let mut e = state((750 * UNIT, 300 * UNIT), (500, 125));
    e.update(0, NO_KEYS, SURFACE);
    assert_eq!(e.velocidade_bola, Vector2 { x: -500, y: 125 });
    let mut e = state((750 * UNIT, 300 * UNIT), (-500, 125));
    e.update(0, NO_KEYS, SURFACE);
    assert_eq!(e.velocidade_bola, Vector2 { x: -500, y: 125 });
}

#[test]
fn right_paddle_has_the_last_word_where_both_overlap() {
    let mut e = state((50 * UNIT, 300 * UNIT), (321, 0));
    e.posicao_jogador2 = e.posicao_jogador1;
    e.update(0, NO_KEYS, SURFACE);
    assert_eq!(e.velocidade_bola, Vector2 { x: -321, y: 0 });
}

#[test]
fn boxes_that_only_touch_do_not_collide() {
    let mut e = state((75 * UNIT, 300 * UNIT), (-500, 0));
    e.update(0, NO_KEYS, SURFACE);
    assert_eq!(e.velocidade_bola, Vector2 { x: -500, y: 0 });
    let mut e = state((75 * UNIT - 1, 300 * UNIT), (-500, 0));
    e.update(0, NO_KEYS, SURFACE);
    assert_eq!(e.velocidade_bola, Vector2 { x: 500, y: 0 });
    let mut e = state((50 * UNIT, 365 * UNIT), (-500, 0));
    e.update(0, NO_KEYS, SURFACE);
    assert_eq!(e.velocidade_bola, Vector2 { x: -500, y: 0 });
    let mut e = state((50 * UNIT, 365 * UNIT - 1), (-500, 0));
    e.update(0, NO_KEYS, SURFACE);
    assert_eq!(e.velocidade_bola, Vector2 { x: 500, y: 0 });
}

#[test]
fn paddles_follow_their_keys() {
    let mut e = state((400 * UNIT, 300 * UNIT), (0, 0));
    e.update(16_000_000, Keys { w: true, s: false, up: false, down: true }, SURFACE);
    assert_eq!(e.posicao_jogador1, Point2 { x: 50 * UNIT, y: 290_400_000_000 });
    assert_eq!(e.posicao_jogador2, Point2 { x: 750 * UNIT, y: 309_600_000_000 });
    e.update(16_000_000, Keys { w: false, s: true, up: true, down: false }, SURFACE);
    assert_eq!(e.posicao_jogador1, Point2 { x: 50 * UNIT, y: 300 * UNIT });
    assert_eq!(e.posicao_jogador2, Point2 { x: 750 * UNIT, y: 300 * UNIT });
}

#[test]
fn both_keys_held_cancel_out_away_from_the_walls() {
    let mut e = state((400 * UNIT, 300 * UNIT), (0, 0));
    e.update(16_000_000, Keys { w: true, s: true, up: true, down: true }, SURFACE);
    assert_eq!(e.posicao_jogador1, Point2 { x: 50 * UNIT, y: 300 * UNIT });
    assert_eq!(e.posicao_jogador2, Point2 { x: 750 * UNIT, y: 300 * UNIT });
}

#[test]
fn both_keys_held_at_the_top_wall_leave_the_paddle_there() {
    let mut e = state((400 * UNIT, 300 * UNIT), (500, 500));
    e.posicao_jogador1.y = 50 * UNIT;
    e.update(125_000_000, Keys { w: true, s: true, up: false, down: false }, SURFACE);
    assert_eq!(e.posicao_jogador1, Point2 { x: 50 * UNIT, y: 50 * UNIT });
}

#[test]
fn both_keys_held_at_the_bottom_wall_leave_the_paddle_there() {
    let mut e = state((400 * UNIT, 300 * UNIT), (500, 500));
    e.posicao_jogador2.y = 550 * UNIT;
    e.update(125_000_000, Keys { w: false, s: false, up: true, down: true }, SURFACE);
    assert_eq!(e.posicao_jogador2, Point2 { x: 750 * UNIT, y: 550 * UNIT });
}

#[test]
fn both_keys_held_near_a_wall_leave_the_paddle_there() {
    let mut e = state((400 * UNIT, 300 * UNIT), (500, 500));
    e.posicao_jogador1.y = 540 * UNIT;
    e.posicao_jogador2.y = 60 * UNIT;
    e.update(50_000_000, Keys { w: true, s: true, up: true, down: true }, SURFACE);
    assert_eq!(e.posicao_jogador1.y, 540 * UNIT);
    assert_eq!(e.posicao_jogador2.y, 60 * UNIT);
}

#[test]
fn paddles_stop_at_the_walls() {
    let mut e = state((400 * UNIT, 300 * UNIT), (0, 0));
    e.update(1_000_000_000, Keys { w: true, s: false, up: false, down: true }, SURFACE);
    assert_eq!(e.posicao_jogador1.y, 50 * UNIT);
    assert_eq!(e.posicao_jogador2.y, 550 * UNIT);
}

#[test]
fn paddles_stay_on_the_surface_over_many_frames() {
    let mut e = state((400 * UNIT, 300 * UNIT), (500, 500));
    for frame in 0u32..3000 {
        let keys = Keys {
            w: frame % 7 < 4,
            s: frame % 5 < 2,
            up: frame % 11 < 3,
            down: frame % 3 < 2,
        };
        assert!(e.can_update());
        e.update(16_666_667, keys, SURFACE);
        for p in [e.posicao_jogador1, e.posicao_jogador2] {
            assert!(p.y >= 50 * UNIT);
            assert!(p.y <= 550 * UNIT);
        }
        assert_eq!(e.posicao_jogador1.x, 50 * UNIT);
        assert_eq!(e.posicao_jogador2.x, 750 * UNIT);
    }
}

#[test]
fn paddle_off_the_surface_is_brought_back() {
    let mut e = state((400 * UNIT, 300 * UNIT), (0, 0));
    e.posicao_jogador1.y = -5 * UNIT;
    e.posicao_jogador2.y = 9_000 * UNIT;
    e.update(0, NO_KEYS, SURFACE);
    assert_eq!(e.posicao_jogador1.y, 50 * UNIT);
    assert_eq!(e.posicao_jogador2.y, 550 * UNIT);
}

#[test]
fn idle_paddle_in_range_is_unchanged() {
    for y in [50 * UNIT, 50 * UNIT + 1, 300 * UNIT, 421_123_456_789, 550 * UNIT] {
        let mut e = state((400 * UNIT, 300 * UNIT), (500, 500));
        e.posicao_jogador1.y = y;
        e.posicao_jogador2.y = y;
        e.update(0, NO_KEYS, SURFACE);
        assert_eq!(e.posicao_jogador1, Point2 { x: 50 * UNIT, y });
        assert_eq!(e.posicao_jogador2, Point2 { x: 750 * UNIT, y });
        e.update(16_000_000, NO_KEYS, SURFACE);
        assert_eq!(e.posicao_jogador1, Point2 { x: 50 * UNIT, y });
        assert_eq!(e.posicao_jogador2, Point2 { x: 750 * UNIT, y });
    }
}

#[test]
fn paddle_in_range_is_unchanged_in_no_time_even_with_keys() {
    let mut e = state((400 * UNIT, 300 * UNIT), (0, 0));
    e.posicao_jogador1.y = 77 * UNIT;
    e.update(0, Keys { w: true, s: true, up: true, down: true }, SURFACE);
    assert_eq!(e.posicao_jogador1.y, 77 * UNIT);
    assert_eq!(e.posicao_jogador2.y, 300 * UNIT);
}

#[test]
fn scores_never_fall_and_rise_by_one_per_exit() {
    let mut e = state((400 * UNIT, 300 * UNIT), (500, 500));
    let mut exits = 0;
    for _ in 0..5000 {
        assert!(e.can_update());
        let before = (e.placar_jogador1, e.placar_jogador2);
        e.update(16_666_667, NO_KEYS, Surface { width: 800, height: 600 });
        let after = (e.placar_jogador1, e.placar_jogador2);
        assert!(after.0 >= before.0 && after.1 >= before.1);
        let gained = (after.0 - before.0) + (after.1 - before.1);
        assert!(gained <= 1);
        if gained == 1 {
            exits += 1;
            assert_eq!(e.posicao_bola, Point2 { x: 400 * UNIT, y: 300 * UNIT });
        }
    }
    assert!(exits > 0);
    assert_eq!(exits, e.placar_jogador1 + e.placar_jogador2);
}

#[test]
fn served_ball_on_a_surface_lower_than_the_ball_meets_the_walls() {
    let low = Surface { width: 800, height: 20 };
    let mut e = state((-UNIT, 10 * UNIT), (-500, 0));
    e.update_with(0, NO_KEYS, low, true, false);
    assert_eq!(e.posicao_bola, Point2 { x: 400 * UNIT, y: 15 * UNIT });
    assert_eq!(e.velocidade_bola, Vector2 { x: 500, y: 500 });
    assert_eq!(e.placar_jogador2, 1);
}

#[test]
fn ball_on_a_surface_lower_than_the_ball_goes_to_the_bottom_bound() {
    let low = Surface { width: 800, height: 20 };
    let mut e = state((400 * UNIT, 18 * UNIT), (0, 500));
    e.update(0, NO_KEYS, low);
    assert_eq!(e.posicao_bola.y, 5 * UNIT);
    assert_eq!(e.velocidade_bola.y, -500);
}

#[test]
fn paddle_on_a_surface_lower_than_a_paddle() {
    let low = Surface { width: 800, height: 60 };
    let mut e = state((400 * UNIT, 30 * UNIT), (0, 0));
    e.posicao_jogador1.y = 20 * UNIT;
    e.posicao_jogador2.y = 55 * UNIT;
    e.update(0, NO_KEYS, low);
    // With the bounds the wrong way round the lower one is tried first.
    assert_eq!(e.posicao_jogador1.y, 50 * UNIT);
    assert_eq!(e.posicao_jogador2.y, 10 * UNIT);
}

#[test]
fn extreme_values_do_not_overflow() {
    let huge = Surface { width: u32::MAX, height: u32::MAX };
    let all = Keys { w: true, s: true, up: true, down: true };
    for (pos, vel) in [
        (i64::MAX, i32::MAX),
        (i64::MIN, i32::MAX),
        (i64::MAX, i32::MIN + 1),
        (i64::MIN, i32::MIN + 1),
    ] {
        let mut e = EstadoJogo {
            posicao_jogador1: Point2 { x: pos, y: pos },
            posicao_jogador2: Point2 { x: pos, y: pos },
            posicao_bola: Point2 { x: pos, y: pos },
            velocidade_bola: Vector2 { x: vel, y: vel },
            placar_jogador1: u32::MAX - 1,
            placar_jogador2: u32::MAX - 1,
        };
        assert!(e.can_update());
        e.update(u64::MAX, all, huge);
        assert!(e.posicao_bola.y >= 15 * UNIT);
        assert!(e.posicao_bola.y <= (u32::MAX as i64) * UNIT - 15 * UNIT);
        assert!(e.posicao_jogador1.y >= 50 * UNIT);
        assert!(e.posicao_jogador1.y <= (u32::MAX as i64) * UNIT - 50 * UNIT);
        assert_eq!(e.posicao_jogador1.x, pos);
        assert_eq!(e.placar_jogador1 + (e.placar_jogador2 - (u32::MAX - 1)), u32::MAX);
    }
}

#[test]
fn ball_far_beyond_the_bottom_is_put_on_the_bottom_wall() {
    let mut e = state((400 * UNIT, i64::MAX), (0, i32::MAX));
    e.update(u64::MAX, NO_KEYS, SURFACE);
    assert_eq!(e.posicao_bola, Point2 { x: 400 * UNIT, y: 585 * UNIT });
    assert_eq!(e.velocidade_bola, Vector2 { x: 0, y: -i32::MAX });
}

#[test]
fn limits_are_reported() {
    let mut e = state((400 * UNIT, 300 * UNIT), (500, 500));
    assert!(e.can_update());
    e.placar_jogador1 = u32::MAX;
    assert!(!e.can_update());
    e.placar_jogador1 = 0;
    e.placar_jogador2 = u32::MAX;
    assert!(!e.can_update());
    e.placar_jogador2 = u32::MAX - 1;
    assert!(e.can_update());
    e.velocidade_bola.x = i32::MIN;
    assert!(!e.can_update());
    e.velocidade_bola.x = i32::MIN + 1;
    e.velocidade_bola.y = i32::MIN;
    assert!(!e.can_update());
}

#[test]
fn steps_can_be_taken_one_by_one() {
    let keys = Keys { w: true, s: false, up: false, down: false };
    let mut whole = state((400 * UNIT, 20 * UNIT), (-500, -500));
    let mut parts = whole;
    whole.update_with(16_000_000, keys, SURFACE, true, true);
    parts.move_paddles(16_000_000, keys, SURFACE.height);
    let out = parts.move_ball(16_000_000, SURFACE);
    assert!(!out);
    parts.deflect();
    assert_eq!(whole, parts);
    assert_eq!(whole.posicao_bola, Point2 { x: 392 * UNIT, y: 15 * UNIT });
    assert_eq!(whole.velocidade_bola, Vector2 { x: -500, y: 500 });
}

#[test]
fn ball_that_goes_out_waits_in_the_middle_for_its_serve() {
    let mut e = state((2 * UNIT, 20 * UNIT), (-500, -500));
    let out = e.move_ball(10_000_000, SURFACE);
    assert!(out);
    assert_eq!(e.posicao_bola, Point2 { x: 400 * UNIT, y: 300 * UNIT });
    assert_eq!(e.velocidade_bola, Vector2 { x: -500, y: -500 });
    assert_eq!((e.placar_jogador1, e.placar_jogador2), (0, 1));
    e.bounce(SURFACE.height);
    assert_eq!(e.posicao_bola, Point2 { x: 400 * UNIT, y: 300 * UNIT });
    assert_eq!(e.velocidade_bola, Vector2 { x: -500, y: -500 });
}

//! The direction of a serve, drawn at random.

use vstd::prelude::*;
use rand::Rng;
use rand::rngs::ThreadRng;
use crate::units::Vector2;
use crate::model::signed;

verus! {

/// `rand::rngs::ThreadRng`, the handle to the generator that `rand` keeps
/// for each thread. Nothing is known of what it holds.
#[verifier::external_type_specification]
#[verifier::external_body]
pub struct ExThreadRng(rand::rngs::ThreadRng);

/// `rand::thread_rng` hands out the calling thread's generator. Nothing is
/// claimed of it. (It panics if the operating system gives no seed when
/// the thread first asks.)
pub assume_specification[ rand::thread_rng ]() -> (rng: rand::rngs::ThreadRng);

/// `rand::Rng::gen_ratio`, on the thread's generator: `true` with
/// probability `numerator / denominator`. The call panics on a zero
/// denominator and on a numerator above the denominator, which the
/// precondition rules out. Of the outcome only the two certain cases are
/// claimed, as `rand` documents them: always `true` when the two numbers
/// are equal, always `false` when the numerator is zero.
#[verifier::external_body]
fn gen_ratio(rng: &mut ThreadRng, numerator: u32, denominator: u32) -> (hit: bool)
    requires
        0 < denominator,
        numerator <= denominator,
    ensures
        numerator == denominator ==> hit,
        numerator == 0 ==> !hit,
{
    rng.gen_ratio(numerator, denominator)
}

/// The vector `(x, y)` with each component kept where its flag is set and
/// negated where it is not.
pub fn with_signs(x: i32, y: i32, keep_x: bool, keep_y: bool) -> (v: Vector2)
    requires
        x > i32::MIN,
        y > i32::MIN,
    ensures
        v@ == signed(x as int, y as int, keep_x, keep_y),
{
    Vector2 { x: if keep_x { x } else { -x }, y: if keep_y { y } else { -y } }
}

/// Overwrites `vec` with `(x, y)`, the sign of each component decided by
/// the toss of a fair coin of its own. Which way the coins fall is not
/// known; that each component is `x` (or `y`) up to its sign is.
pub fn randomizar_vec(vec: &mut Vector2, x: i32, y: i32)
    requires
        x > i32::MIN,
        y > i32::MIN,
    ensures
        final(vec)@.x == x || final(vec)@.x == -x,
        final(vec)@.y == y || final(vec)@.y == -y,
{
    let mut rng = rand::thread_rng();
    let keep_x = gen_ratio(&mut rng, 1, 2);
    let keep_y = gen_ratio(&mut rng, 1, 2);
    *vec = with_signs(x, y, keep_x, keep_y);
}

} // verus!

//! Binary angles: an angle is a `u64`, and one full turn is 2^64 units.
use vstd::prelude::*;
use vstd::arithmetic::div_mod::{
    lemma_add_mod_noop,
    lemma_add_mod_noop_right,
    lemma_mod_twice,
    lemma_small_mod,
    lemma_sub_mod_noop_right,
};
use vstd::arithmetic::mul::lemma_mul_is_distributive_add;

verus! {

/// Number of angle units in one full turn.
pub open spec fn full_turn() -> int {
    0x1_0000_0000_0000_0000int
}

/// The angle `a` taken modulo one full turn.
pub open spec fn wrap_turn(a: int) -> int {
    a % full_turn()
}

/// The angle reached from `angle` after turning at `speed` units per tick
/// for `dt` ticks (backwards when `dt` is negative).
pub open spec fn advanced_angle(angle: int, speed: int, dt: int) -> int {
    wrap_turn(angle + speed * dt)
}

/// Turns `angle` at `speed` units per tick for `dt` ticks.
pub fn advance_angle(angle: u64, speed: u64, dt: i64) -> (r: u64)
    ensures
        r == advanced_angle(angle as int, speed as int, dt as int),
{
    let ghost m = full_turn();
    if dt >= 0 {
        let step = speed.wrapping_mul(dt as u64);
        let r = angle.wrapping_add(step);
        proof {
            assert(step == (speed as int * dt as int) % m);
            lemma_add_mod_noop_right(angle as int, speed as int * dt as int, m);
            if angle as int + step as int >= m {
                lemma_small_mod((angle as int + step as int - m) as nat, m as nat);
                lemma_mod_sub_turn(angle as int + step as int);
            } else {
                lemma_small_mod((angle as int + step as int) as nat, m as nat);
            }
        }
        r
    } else {
        let mag: u64 = (0i128 - dt as i128) as u64;
        let step = speed.wrapping_mul(mag);
        let r = angle.wrapping_sub(step);
        proof {
            assert(step == (speed as int * mag as int) % m);
            assert(speed as int * dt as int == -(speed as int * mag as int)) by (nonlinear_arith)
                requires
                    mag as int == -(dt as int),
            ;
            lemma_sub_mod_noop_right(angle as int, speed as int * mag as int, m);
            if (angle as int) < (step as int) {
                lemma_small_mod((angle as int - step as int + m) as nat, m as nat);
                lemma_mod_add_turn(angle as int - step as int);
            } else {
                lemma_small_mod((angle as int - step as int) as nat, m as nat);
            }
        }
        r
    }
}

proof fn lemma_mod_sub_turn(x: int)
    ensures
        (x - full_turn()) % full_turn() == x % full_turn(),
{
    lemma_add_mod_noop(x, -full_turn(), full_turn());
}

proof fn lemma_mod_add_turn(x: int)
    ensures
        (x + full_turn()) % full_turn() == x % full_turn(),
{
    lemma_add_mod_noop(x, full_turn(), full_turn());
}

/// Turning for zero ticks leaves an angle where it is.
pub proof fn lemma_advance_zero(angle: u64, speed: u64)
    ensures
        advanced_angle(angle as int, speed as int, 0) == angle as int,
{
    lemma_small_mod(angle as nat, full_turn() as nat);
}

/// Turning for `t1` ticks and then for `t2` ticks ends at the same angle as
/// turning for `t1 + t2` ticks at once.
pub proof fn lemma_advance_additive(angle: int, speed: int, t1: int, t2: int)
    ensures
        advanced_angle(advanced_angle(angle, speed, t1), speed, t2)
            == advanced_angle(angle, speed, t1 + t2),
{
    let m = full_turn();
    lemma_mul_is_distributive_add(speed, t1, t2);
    lemma_add_mod_noop(angle + speed * t1, speed * t2, m);
    lemma_add_mod_noop(
        (angle + speed * t1) % m,
        speed * t2,
        m,
    );
    lemma_mod_twice(angle + speed * t1, m);
}

} // verus!

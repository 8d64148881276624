//! Where a patrolling enemy stands at a given moment.
use vstd::prelude::*;
use crate::state::{Enemy, MICRO};

verus! {

/// Integer division rounded toward zero, as Rust's `/` on signed integers.
pub open spec fn div_toward_zero(a: int, d: int) -> int {
    if a >= 0 {
        a / d
    } else {
        -((-a) / d)
    }
}

/// The offset along one axis when the swing is at `wave`, the sine of the
/// elapsed time in millionths.
pub open spec fn swing(reach: int, wave: int) -> int {
    div_toward_zero(reach * wave, MICRO as int)
}

pub open spec fn abs(a: int) -> int {
    if a < 0 {
        -a
    } else {
        a
    }
}

/// The position of `e` when the swing is at `wave`: its anchor plus its reach
/// scaled by `wave / 1_000_000`, each axis rounded toward zero.
pub open spec fn position_of(e: Enemy, wave: int) -> (int, int) {
    (e.anchor_x + swing(e.reach_x as int, wave), e.anchor_y + swing(e.reach_y as int, wave))
}

/// Every position of the swing fits in an `i64`.
pub open spec fn enemy_fits(e: Enemy) -> bool {
    &&& abs(e.anchor_x as int) + abs(e.reach_x as int) <= i64::MAX
    &&& abs(e.anchor_y as int) + abs(e.reach_y as int) <= i64::MAX
}

/// The sine of the elapsed time, in millionths.
pub open spec fn is_wave(wave: i64) -> bool {
    -MICRO <= wave <= MICRO
}

proof fn lemma_swing_bounded(reach: int, wave: int)
    requires
        -MICRO <= wave <= MICRO,
    ensures
        abs(swing(reach, wave)) <= abs(reach),
{
    let p = reach * wave;
    assert(abs(p) <= abs(reach) * MICRO) by (nonlinear_arith)
        requires
            p == reach * wave,
            -1_000_000 <= wave <= 1_000_000,
    ;
    if p >= 0 {
        assert(p / 1_000_000 <= abs(reach)) by (nonlinear_arith)
            requires
                0 <= p <= abs(reach) * 1_000_000,
        ;
    } else {
        assert((-p) / 1_000_000 <= abs(reach)) by (nonlinear_arith)
            requires
                0 < -p <= abs(reach) * 1_000_000,
        ;
    }
}

fn swing_exec(reach: i64, wave: i64) -> (r: i64)
    requires
        -MICRO <= wave <= MICRO,
        abs(reach as int) <= i64::MAX,
    ensures
        r == swing(reach as int, wave as int),
{
    proof {
        lemma_swing_bounded(reach as int, wave as int);
    }
    let p: i128 = reach as i128 * wave as i128;
    if p >= 0 {
        let q: u128 = (p as u128) / 1_000_000;
        assert(q == p / 1_000_000);
        q as i64
    } else {
        let q: u128 = ((-p) as u128) / 1_000_000;
        assert(q == (-p) / 1_000_000);
        -(q as i128) as i64
    }
}

/// The position of `enemy` when the swing is at `wave`, the sine of the time
/// since the start in millionths (see `position_of`). It depends on nothing
/// else: the enemy keeps no state of its motion.
pub fn enemy_position(enemy: &Enemy, wave: i64) -> (r: (i64, i64))
    requires
        enemy_fits(*enemy),
        is_wave(wave),
    ensures
        (r.0 as int, r.1 as int) == position_of(*enemy, wave as int),
{
    proof {
        lemma_swing_bounded(enemy.reach_x as int, wave as int);
        lemma_swing_bounded(enemy.reach_y as int, wave as int);
    }
    let dx = swing_exec(enemy.reach_x, wave);
    let dy = swing_exec(enemy.reach_y, wave);
    (enemy.anchor_x + dx, enemy.anchor_y + dy)
}

} // verus!

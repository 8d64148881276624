//! The player's controls: speed and facing from the arrow keys.
use vstd::prelude::*;
use crate::state::{GameState, ACCELERATION, ROTATION_SPEED};

verus! {

/// Which of the four arrow keys are held in this frame.
#[derive(Clone, Copy, Debug, PartialEq, Eq, Structural)]
pub struct Keys {
    pub up: bool,
    pub down: bool,
    pub left: bool,
    pub right: bool,
}

/// Speed after one frame: up accelerates, down decelerates, both cancel.
/// The frame's length plays no part.
pub open spec fn next_speed(speed: int, keys: Keys) -> int {
    speed + (if keys.up { ACCELERATION as int } else { 0 }) - (if keys.down {
        ACCELERATION as int
    } else {
        0
    })
}

/// Facing after a frame of `delta_us` microseconds: left turns counter-clockwise
/// (the angle grows), right clockwise, both cancel.
pub open spec fn next_direction(direction: int, keys: Keys, delta_us: int) -> int {
    direction + (if keys.left { ROTATION_SPEED * delta_us } else { 0 }) - (if keys.right {
        ROTATION_SPEED * delta_us
    } else {
        0
    })
}

/// The new speed and facing fit in an `i64`.
pub open spec fn controls_fit(state: GameState, keys: Keys, delta_us: u64) -> bool {
    &&& i64::MIN <= next_speed(state.speed as int, keys) <= i64::MAX
    &&& i64::MIN <= next_direction(state.direction as int, keys, delta_us as int) <= i64::MAX
}

impl Keys {
    pub fn new(up: bool, down: bool, left: bool, right: bool) -> (r: Keys)
        ensures
            r == (Keys { up, down, left, right }),
    {
        Keys { up, down, left, right }
    }
}

impl GameState {
    /// Applies the keys to speed and facing, then returns how far the car moves
    /// along its new facing in this frame, in micropixels: the new speed (pixels
    /// per second) times `delta_us` (microseconds). There is no friction and no
    /// speed limit.
    pub fn apply_controls(&mut self, keys: Keys, delta_us: u64) -> (travel: i128)
        requires
            controls_fit(*old(self), keys, delta_us),
        ensures
            final(self).speed == next_speed(old(self).speed as int, keys),
            final(self).direction == next_direction(
                old(self).direction as int,
                keys,
                delta_us as int,
            ),
            travel == final(self).speed * delta_us,
            final(self).health == old(self).health,
            final(self).score == old(self).score,
            final(self).player_hit == old(self).player_hit,
            final(self).enemies == old(self).enemies,
    {
        let mut speed: i128 = self.speed as i128;
        if keys.up {
            speed = speed + ACCELERATION as i128;
        }
        if keys.down {
            speed = speed - ACCELERATION as i128;
        }
        let turn: i128 = 5 * delta_us as i128;
        assert(turn == ROTATION_SPEED * delta_us);
        let mut direction: i128 = self.direction as i128;
        if keys.left {
            direction = direction + turn;
        }
        if keys.right {
            direction = direction - turn;
        }
        self.speed = speed as i64;
        self.direction = direction as i64;
        assert(i128::MIN <= self.speed * delta_us <= i128::MAX) by (nonlinear_arith)
            requires
                i64::MIN <= self.speed <= i64::MAX,
                0 <= delta_us <= u64::MAX,
        ;
        self.speed as i128 * delta_us as i128
    }
}

} // verus!

//! Health drain while touching a track edge, and points for enemy contacts.
use vstd::prelude::*;
use crate::collision::{CollisionEvent, enemy_hits, enemy_hit_count};
use crate::state::{GameState, HIT_RATE, ENEMY_POINTS};

verus! {

/// Health after a frame of `delta_us` microseconds: drained at `HIT_RATE` while hit.
pub open spec fn drained_health(health: int, hit: bool, delta_us: int) -> int {
    if hit {
        health - HIT_RATE * delta_us
    } else {
        health
    }
}

/// Score after the frame's events.
pub open spec fn scored(score: int, events: Seq<CollisionEvent>) -> int {
    score + ENEMY_POINTS * enemy_hits(events)
}

/// The new score and health fit their integer types.
pub open spec fn scoring_fits(state: GameState, delta_us: u64, events: Seq<CollisionEvent>) -> bool {
    &&& i64::MIN <= drained_health(state.health as int, state.player_hit, delta_us as int)
    &&& scored(state.score as int, events) <= i32::MAX
}

impl GameState {
    /// Drains health while the player touches a track edge, and adds `ENEMY_POINTS`
    /// for each contact that begins between the player and an enemy. Returns how
    /// many confirmation sounds are due, one per such contact.
    pub fn apply_scoring(&mut self, delta_us: u64, events: &Vec<CollisionEvent>) -> (hits: usize)
        requires
            scoring_fits(*old(self), delta_us, events@),
        ensures
            final(self).health == drained_health(
                old(self).health as int,
                old(self).player_hit,
                delta_us as int,
            ),
            final(self).score == scored(old(self).score as int, events@),
            hits == enemy_hits(events@),
            final(self).player_hit == old(self).player_hit,
            final(self).direction == old(self).direction,
            final(self).speed == old(self).speed,
            final(self).enemies == old(self).enemies,
    {
        if self.player_hit {
            let drain: i128 = HIT_RATE as i128 * delta_us as i128;
            self.health = (self.health as i128 - drain) as i64;
        }
        let hits = enemy_hit_count(events);
        let gained: i64 = ENEMY_POINTS as i64 * hits as i64;
        self.score = (self.score as i64 + gained) as i32;
        hits
    }
}

} // verus!

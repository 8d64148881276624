//! The game's record of a run, its enemies and its fixed rates.
use vstd::prelude::*;

verus! {

/// Speed gained or lost per frame while the up or down key is held, in pixels per second.
pub const ACCELERATION: i64 = 10;

/// Turning rate while the left or right key is held: microradians per microsecond
/// of frame time, that is radians per second.
pub const ROTATION_SPEED: i64 = 5;

/// Health lost per microsecond of frame time while the player touches a track edge,
/// in millionths of a point (ten points per second).
pub const HIT_RATE: i64 = 10;

/// Score gained for each contact that begins between the player and an enemy.
pub const ENEMY_POINTS: i32 = 10;

/// Health at the start of a run, in millionths of a point.
pub const START_HEALTH: i64 = 100_000_000;

/// Micro-units in one unit.
pub const MICRO: i64 = 1_000_000;

/// A patrolling obstacle: it swings along a fixed line through its anchor.
/// `reach` is the offset from the anchor at the crest of the swing, that is the
/// unit vector of its direction times its amplitude; all in micropixels.
#[derive(Clone, Debug)]
pub struct Enemy {
    pub label: String,
    pub anchor_x: i64,
    pub anchor_y: i64,
    pub reach_x: i64,
    pub reach_y: i64,
}

/// The state of one run. Health and score are not clamped.
#[derive(Clone, Debug)]
pub struct GameState {
    /// In millionths of a point.
    pub health: i64,
    /// Facing of the player's car, in microradians.
    pub direction: i64,
    /// Signed speed along the facing, in pixels per second.
    pub speed: i64,
    pub score: i32,
    /// The player is touching an edge of the track.
    pub player_hit: bool,
    pub enemies: Vec<Enemy>,
}

impl Enemy {
    pub fn new(label: String, anchor_x: i64, anchor_y: i64, reach_x: i64, reach_y: i64) -> (r: Enemy)
        ensures
            r.label == label,
            r.anchor_x == anchor_x,
            r.anchor_y == anchor_y,
            r.reach_x == reach_x,
            r.reach_y == reach_y,
    {
        Enemy { label, anchor_x, anchor_y, reach_x, reach_y }
    }
}

impl GameState {
    /// The state a run starts in: full health, at rest, facing angle zero, no score,
    /// not touching an edge, and two enemies: `enemy_1` swinging 20 pixels up and
    /// down about (-150, 300), and `enemy_2` swinging 50 pixels sideways about (0, -300).
    pub fn new() -> (r: GameState)
        ensures
            r.health == START_HEALTH,
            r.direction == 0,
            r.speed == 0,
            r.score == 0,
            !r.player_hit,
            r.enemies@.len() == 2,
            r.enemies@[0].label@ == "enemy_1"@,
            r.enemies@[0].anchor_x == -150 * MICRO,
            r.enemies@[0].anchor_y == 300 * MICRO,
            r.enemies@[0].reach_x == 0,
            r.enemies@[0].reach_y == 20 * MICRO,
            r.enemies@[1].label@ == "enemy_2"@,
            r.enemies@[1].anchor_x == 0,
            r.enemies@[1].anchor_y == -300 * MICRO,
            r.enemies@[1].reach_x == -50 * MICRO,
            r.enemies@[1].reach_y == 0,
    {
        let first = Enemy::new("enemy_1".to_string(), -150 * MICRO, 300 * MICRO, 0, 20 * MICRO);
        let second = Enemy::new("enemy_2".to_string(), 0, -300 * MICRO, -50 * MICRO, 0);
        let mut enemies: Vec<Enemy> = Vec::new();
        enemies.push(first);
        enemies.push(second);
        GameState {
            health: START_HEALTH,
            direction: 0,
            speed: 0,
            score: 0,
            player_hit: false,
            enemies,
        }
    }
}

} // verus!

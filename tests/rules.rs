use boring_game::collision::{enemy_hit_count, starts_with, CollisionEvent, CollisionState};
use boring_game::enemy::enemy_position;
use boring_game::frame::{frame_stages, Stage};
use boring_game::hud::{health_points, hud_layout};
use boring_game::player::Keys;
use boring_game::spawn::{spawn_step, SPAWN_MAX_US, SPAWN_MIN_US};
use boring_game::state::{Enemy, GameState, START_HEALTH};

fn event(first: &str, second: &str, state: CollisionState) -> CollisionEvent {
    CollisionEvent { state, first: first.to_string(), second: second.to_string() }
}

#[test]
fn new_state_holds_two_enemies() {
    let s = GameState::new();
    assert_eq!(s.health, 100_000_000);
    assert_eq!(s.health, START_HEALTH);
    assert_eq!((s.speed, s.direction, s.score, s.player_hit), (0, 0, 0, false));
    assert_eq!(s.enemies.len(), 2);
    assert_eq!(s.enemies[0].label, "enemy_1");
    assert_eq!((s.enemies[0].anchor_x, s.enemies[0].anchor_y), (-150_000_000, 300_000_000));
    assert_eq!((s.enemies[0].reach_x, s.enemies[0].reach_y), (0, 20_000_000));
    assert_eq!(s.enemies[1].label, "enemy_2");
    assert_eq!((s.enemies[1].anchor_x, s.enemies[1].anchor_y), (0, -300_000_000));
    assert_eq!((s.enemies[1].reach_x, s.enemies[1].reach_y), (-50_000_000, 0));
}

#[test]
fn accelerating_raises_speed_every_frame() {
    let mut s = GameState::new();
    let up = Keys::new(true, false, false, false);
    let mut last = s.speed;
    for delta in [0u64, 16_000, 1, 1_000_000] {
        s.apply_controls(up, delta);
        assert!(s.speed > last);
        assert_eq!(s.speed, last + 10);
        last = s.speed;
    }
    assert_eq!(s.direction, 0);
}

#[test]
fn travel_is_speed_times_frame_length() {
    let mut s = GameState::new();
    s.speed = 30;
    let travel = s.apply_controls(Keys::new(false, true, false, false), 16_000);
    assert_eq!(s.speed, 20);
    assert_eq!(travel, 320_000);
    let both = s.apply_controls(Keys::new(true, true, false, false), 1_000);
    assert_eq!(s.speed, 20);
    assert_eq!(both, 20_000);
}

#[test]
fn turning_needs_exactly_one_side_key() {
    let mut s = GameState::new();
    s.apply_controls(Keys::new(false, false, true, false), 100_000);
    assert_eq!(s.direction, 500_000);
    s.apply_controls(Keys::new(false, false, false, true), 300_000);
    assert_eq!(s.direction, -1_000_000);
    s.apply_controls(Keys::new(false, false, true, true), 300_000);
    assert_eq!(s.direction, -1_000_000);
    s.apply_controls(Keys::new(false, false, false, false), 300_000);
    assert_eq!(s.direction, -1_000_000);
    s.apply_controls(Keys::new(false, false, true, false), 0);
    assert_eq!(s.direction, -1_000_000);
}

#[test]
fn enemy_position_follows_the_wave() {
    let s = GameState::new();
    let e1 = &s.enemies[0];
    let e2 = &s.enemies[1];
    assert_eq!(enemy_position(e1, 0), (-150_000_000, 300_000_000));
    assert_eq!(enemy_position(e1, 1_000_000), (-150_000_000, 320_000_000));
    assert_eq!(enemy_position(e1, -500_000), (-150_000_000, 290_000_000));
    assert_eq!(enemy_position(e2, 1_000_000), (-50_000_000, -300_000_000));
    assert_eq!(enemy_position(e2, 841_471), (-42_073_550, -300_000_000));
    assert_eq!(enemy_position(e2, 841_471), enemy_position(e2, 841_471));
    let twin = Enemy::new("other".to_string(), e2.anchor_x, e2.anchor_y, e2.reach_x, e2.reach_y);
    assert_eq!(enemy_position(&twin, -3), enemy_position(e2, -3));
}

#[test]
fn enemy_swing_rounds_toward_zero() {
    let e = Enemy::new("enemy_x".to_string(), 0, 0, 3, -3);
    assert_eq!(enemy_position(&e, 500_000), (1, -1));
    assert_eq!(enemy_position(&e, -500_000), (-1, 1));
}

#[test]
fn prefixes_are_byte_wise() {
    assert!(starts_with("player", "player"));
    assert!(starts_with("player_car", "player"));
    assert!(!starts_with("play", "player"));
    assert!(starts_with("anything", ""));
    assert!(!starts_with("xplayer", "player"));
    let e = event("player", "player_2", CollisionState::Begin);
    assert!(!e.one_starts_with("player"));
    let e = event("enemy_1", "player", CollisionState::Begin);
    assert!(e.one_starts_with("player"));
    assert!(e.one_starts_with("enemy"));
}

#[test]
fn inner_edge_begin_sets_and_end_clears() {
    let mut s = GameState::new();
    let n = s.apply_track_collisions(&vec![event("player", "track_inner", CollisionState::Begin)]);
    assert!(s.player_hit);
    assert_eq!(n, 1);
    let n = s.apply_track_collisions(&vec![event("track_inner", "player", CollisionState::End)]);
    assert!(!s.player_hit);
    assert_eq!(n, 0);
}

#[test]
fn outer_edge_end_sets_and_begin_clears() {
    let mut s = GameState::new();
    let n = s.apply_track_collisions(&vec![event("player", "track_outer", CollisionState::End)]);
    assert!(s.player_hit);
    assert_eq!(n, 1);
    let n = s.apply_track_collisions(&vec![event("player", "track_outer", CollisionState::Begin)]);
    assert!(!s.player_hit);
    assert_eq!(n, 0);
}

#[test]
fn other_pairs_leave_the_flag() {
    let mut s = GameState::new();
    s.player_hit = true;
    let events = vec![
        event("enemy_1", "player", CollisionState::End),
        event("track_inner", "track_outer", CollisionState::End),
        event("enemy_1", "track_inner", CollisionState::End),
    ];
    assert_eq!(s.apply_track_collisions(&events), 0);
    assert!(s.player_hit);
}

#[test]
fn last_edge_event_wins() {
    let mut s = GameState::new();
    let events = vec![
        event("player", "track_inner", CollisionState::Begin),
        event("player", "track_outer", CollisionState::Begin),
    ];
    assert_eq!(s.apply_track_collisions(&events), 1);
    assert!(!s.player_hit);
}

#[test]
fn health_drains_only_while_hit() {
    let mut s = GameState::new();
    s.apply_scoring(16_000, &vec![]);
    assert_eq!(s.health, 100_000_000);
    s.player_hit = true;
    s.apply_scoring(16_000, &vec![]);
    assert_eq!(s.health, 99_840_000);
    s.apply_scoring(1_000_000, &vec![]);
    assert_eq!(s.health, 89_840_000);
    s.apply_scoring(0, &vec![]);
    assert_eq!(s.health, 89_840_000);
}

#[test]
fn health_goes_below_zero() {
    let mut s = GameState::new();
    s.player_hit = true;
    s.apply_scoring(11_000_000, &vec![]);
    assert_eq!(s.health, -10_000_000);
    assert_eq!(health_points(s.health), -10);
}

#[test]
fn every_enemy_begin_scores() {
    let mut s = GameState::new();
    let hit = event("player", "enemy_2", CollisionState::Begin);
    let events = vec![
        hit.clone(),
        event("player", "enemy_2", CollisionState::End),
        hit.clone(),
        event("player", "track_inner", CollisionState::Begin),
        hit,
    ];
    assert_eq!(enemy_hit_count(&events), 3);
    assert_eq!(s.apply_scoring(16_000, &events), 3);
    assert_eq!(s.score, 30);
    assert_eq!(s.apply_scoring(16_000, &events), 3);
    assert_eq!(s.score, 60);
    assert_eq!(s.health, 100_000_000);
}

#[test]
fn spawn_durations_stay_in_range() {
    assert_eq!(spawn_step(false), None);
    for _ in 0..200 {
        let d = spawn_step(true).unwrap();
        assert!(SPAWN_MIN_US <= d && d < SPAWN_MAX_US);
        assert!(1_500_000 <= d && d < 3_500_000);
    }
}

#[test]
fn hud_labels_along_the_top() {
    let l = hud_layout(1_920_000_000, 1_080_000_000, 30_000_000);
    assert_eq!(l.speed_x, 760_000_000);
    assert_eq!(l.score_x, 0);
    assert_eq!(l.health_x, -900_000_000);
    assert_eq!(l.row_y, 505_000_000);
}

#[test]
fn health_label_truncates_and_saturates() {
    assert_eq!(health_points(100_000_000), 100);
    assert_eq!(health_points(99_999_999), 99);
    assert_eq!(health_points(-1_500_000), -1);
    assert_eq!(health_points(0), 0);
    assert_eq!(health_points(i64::MAX), i32::MAX);
    assert_eq!(health_points(i64::MIN), i32::MIN);
}

#[test]
fn stages_run_in_fixed_order() {
    assert_eq!(
        frame_stages(),
        vec![
            Stage::PlayerMovement,
            Stage::EnemyMovement,
            Stage::Collisions,
            Stage::Scoring,
            Stage::EnemySpawn,
            Stage::Hud,
        ]
    );
}

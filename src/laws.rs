//! Properties that hold across calls of the frame rules.
use vstd::prelude::*;
use crate::collision::{
    CollisionEvent,
    CollisionState,
    enemy_contact,
    hit_after,
    inner_edge_contact,
    lemma_edge_contacts_disjoint,
    outer_edge_contact,
    track_edge_step,
};
use crate::enemy::{position_of, swing};
use crate::player::{Keys, next_direction, next_speed};
use crate::scoring::{drained_health, scored};
use crate::state::{Enemy, ACCELERATION, ENEMY_POINTS, HIT_RATE, ROTATION_SPEED};

verus! {

/// Speed after `frames` frames with the same keys held.
pub open spec fn speed_after(speed: int, keys: Keys, frames: nat) -> int
    decreases frames,
{
    if frames == 0 {
        speed
    } else {
        next_speed(speed_after(speed, keys, (frames - 1) as nat), keys)
    }
}

pub open spec fn accelerate_only() -> Keys {
    Keys { up: true, down: false, left: false, right: false }
}

proof fn lemma_speed_after_accelerating(speed: int, frames: nat)
    ensures
        speed_after(speed, accelerate_only(), frames) == speed + ACCELERATION * frames,
    decreases frames,
{
    if frames > 0 {
        lemma_speed_after_accelerating(speed, (frames - 1) as nat);
    }
}

/// With only the accelerate key held, every frame adds `ACCELERATION` to the
/// speed whatever its length, so the speed rises strictly from frame to frame.
pub proof fn law_accelerating_raises_speed(speed: int, earlier: nat, later: nat)
    requires
        earlier < later,
    ensures
        speed_after(speed, accelerate_only(), later) == speed_after(
            speed,
            accelerate_only(),
            earlier,
        ) + ACCELERATION * (later - earlier),
        speed_after(speed, accelerate_only(), earlier) < speed_after(
            speed,
            accelerate_only(),
            later,
        ),
{
    lemma_speed_after_accelerating(speed, earlier);
    lemma_speed_after_accelerating(speed, later);
}

/// The facing changes exactly when one of left and right is held in a frame of
/// non-zero length; left turns by `ROTATION_SPEED * delta_us` and right by the
/// opposite amount.
pub proof fn law_turning(direction: int, keys: Keys, delta_us: nat)
    ensures
        (next_direction(direction, keys, delta_us as int) != direction) <==> (keys.left
            != keys.right && delta_us > 0),
        keys.left && !keys.right ==> next_direction(direction, keys, delta_us as int)
            - direction == ROTATION_SPEED * delta_us,
        keys.right && !keys.left ==> next_direction(direction, keys, delta_us as int)
            - direction == -(ROTATION_SPEED * delta_us),
{
}

proof fn lemma_swing_odd(reach: int, wave: int)
    ensures
        swing(reach, -wave) == -swing(reach, wave),
{
    assert(reach * (-wave) == -(reach * wave)) by (nonlinear_arith);
}

/// An enemy's position is fixed by its anchor, its reach and the wave alone:
/// two enemies alike in these stand at the same place for the same wave. At a
/// zero wave an enemy stands on its anchor, and opposite waves put it at
/// opposite points about the anchor.
pub proof fn law_enemy_position_is_a_function_of_time(a: Enemy, b: Enemy, wave: int)
    requires
        a.anchor_x == b.anchor_x,
        a.anchor_y == b.anchor_y,
        a.reach_x == b.reach_x,
        a.reach_y == b.reach_y,
    ensures
        position_of(a, wave) == position_of(b, wave),
        position_of(a, 0) == (a.anchor_x as int, a.anchor_y as int),
        position_of(a, wave).0 + position_of(a, -wave).0 == 2 * a.anchor_x,
        position_of(a, wave).1 + position_of(a, -wave).1 == 2 * a.anchor_y,
{
    lemma_swing_odd(a.reach_x as int, wave);
    lemma_swing_odd(a.reach_y as int, wave);
}

/// A contact of the player with the inner track edge sets the hit flag when it
/// begins and clears it when it ends; with the outer edge it is the other way
/// round. A begin followed by an end on the inner edge leaves the flag clear.
pub proof fn law_track_edges(hit: bool, e: CollisionEvent, begin: CollisionEvent, end: CollisionEvent)
    requires
        inner_edge_contact(begin),
        begin.state == CollisionState::Begin,
        inner_edge_contact(end),
        end.state == CollisionState::End,
    ensures
        inner_edge_contact(e) ==> track_edge_step(hit, e) == (e.state == CollisionState::Begin),
        outer_edge_contact(e) ==> track_edge_step(hit, e) == (e.state == CollisionState::End),
        hit_after(hit, seq![begin]),
        !hit_after(hit, seq![begin, end]),
{
    lemma_edge_contacts_disjoint(e);
    lemma_edge_contacts_disjoint(begin);
    lemma_edge_contacts_disjoint(end);
    assert(seq![begin, end].drop_last() =~= seq![begin]);
    assert(seq![begin].drop_last() =~= Seq::<CollisionEvent>::empty());
}

/// While the player is hit, each frame takes exactly `HIT_RATE * delta_us`
/// from health, so a frame of non-zero length lowers it strictly; while not
/// hit, health stays as it is.
pub proof fn law_health_drain(health: int, delta_us: nat)
    ensures
        drained_health(health, true, delta_us as int) == health - HIT_RATE * delta_us,
        delta_us > 0 ==> drained_health(health, true, delta_us as int) < health,
        drained_health(health, false, delta_us as int) == health,
{
}

/// Each contact that begins between the player and an enemy adds exactly
/// `ENEMY_POINTS` to what the events before it scored, whatever came before;
/// any other event adds nothing. The same contact repeated `n` times scores `n`
/// times.
pub proof fn law_enemy_contact_scores(score: int, events: Seq<CollisionEvent>, e: CollisionEvent, n: nat)
    ensures
        scored(score, events.push(e)) == scored(score, events) + (if enemy_contact(e) && e.state
            == CollisionState::Begin {
            ENEMY_POINTS as int
        } else {
            0
        }),
        enemy_contact(e) && e.state == CollisionState::Begin ==> scored(
            score,
            Seq::new(n, |i: int| e),
        ) == score + ENEMY_POINTS * n,
    decreases n,
{
    assert(events.push(e).drop_last() =~= events);
    if n > 0 {
        law_enemy_contact_scores(score, Seq::new((n - 1) as nat, |i: int| e), e, (n - 1) as nat);
        assert(Seq::new((n - 1) as nat, |i: int| e).push(e) =~= Seq::new(n, |i: int| e));
    } else {
        assert(Seq::new(n, |i: int| e) =~= Seq::<CollisionEvent>::empty());
    }
}

} // verus!

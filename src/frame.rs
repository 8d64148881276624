//! The order in which the rules run in every frame.
use vstd::prelude::*;

verus! {

/// One stage of a frame's update.
#[derive(Clone, Copy, Debug, PartialEq, Eq, Structural)]
pub enum Stage {
    PlayerMovement,
    EnemyMovement,
    Collisions,
    Scoring,
    EnemySpawn,
    Hud,
}

pub open spec fn stage_order() -> Seq<Stage> {
    seq![
        Stage::PlayerMovement,
        Stage::EnemyMovement,
        Stage::Collisions,
        Stage::Scoring,
        Stage::EnemySpawn,
        Stage::Hud,
    ]
}

/// The stages of a frame, in the order they must run: the collision stage
/// reads the frame's events before scoring consumes them.
pub fn frame_stages() -> (r: Vec<Stage>)
    ensures
        r@ == stage_order(),
{
    let r: Vec<Stage> = vec![
        Stage::PlayerMovement,
        Stage::EnemyMovement,
        Stage::Collisions,
        Stage::Scoring,
        Stage::EnemySpawn,
        Stage::Hud,
    ];
    assert(r@ =~= stage_order());
    r
}

} // verus!

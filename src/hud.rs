//! Placement and values of the three on-screen labels.
use vstd::prelude::*;
use crate::enemy::div_toward_zero;
use crate::state::MICRO;

verus! {

/// Where the speed, score and health labels stand, in micropixels from the
/// centre of the window.
#[derive(Clone, Copy, Debug, PartialEq, Eq, Structural)]
pub struct HudLayout {
    pub speed_x: i64,
    pub score_x: i64,
    pub health_x: i64,
    /// All three labels share one row.
    pub row_y: i64,
}

/// The row of the labels: one font height and 5 pixels below the top edge.
pub open spec fn label_row(height: int, font_size: int) -> int {
    height / 2 - font_size - 5 * MICRO
}

/// The labels fit in the integer types for these window measures.
pub open spec fn layout_fits(width: i64, height: i64, font_size: i64) -> bool {
    &&& 0 <= width
    &&& 0 <= height
    &&& i64::MIN <= label_row(height as int, font_size as int) <= i64::MAX
}

/// Lays the labels out along the top of a window of the given size (micropixels,
/// origin at the centre): speed 200 pixels left of the right edge, score at the
/// centre, health 60 pixels right of the left edge.
pub fn hud_layout(width: i64, height: i64, font_size: i64) -> (r: HudLayout)
    requires
        layout_fits(width, height, font_size),
    ensures
        r.speed_x == width / 2 - 200 * MICRO,
        r.score_x == 0,
        r.health_x == -(width / 2) + 60 * MICRO,
        r.row_y == label_row(height as int, font_size as int),
{
    let half_w: i64 = width / 2;
    let half_h: i64 = height / 2;
    let row: i128 = half_h as i128 - font_size as i128 - 5 * MICRO as i128;
    HudLayout {
        speed_x: half_w - 200 * MICRO,
        score_x: 0,
        health_x: -half_w + 60 * MICRO,
        row_y: row as i64,
    }
}

/// Health in whole points, as the label shows it: rounded toward zero, and held
/// to the range of an `i32`.
pub fn health_points(health: i64) -> (r: i32)
    ensures
        r == (if div_toward_zero(health as int, MICRO as int) > i32::MAX {
            i32::MAX as int
        } else if div_toward_zero(health as int, MICRO as int) < i32::MIN {
            i32::MIN as int
        } else {
            div_toward_zero(health as int, MICRO as int)
        }),
{
    let q: i64 = if health >= 0 {
        ((health as u64) / 1_000_000) as i64
    } else {
        -((((-(health as i128)) as u64) / 1_000_000) as i64)
    };
    if q > i32::MAX as i64 {
        i32::MAX
    } else if q < i32::MIN as i64 {
        i32::MIN
    } else {
        q as i32
    }
}

} // verus!

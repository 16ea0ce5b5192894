use vstd::prelude::*;
use crate::geometry::{offset_in_range, Point};
use crate::vehicle::VehicleHitEvent;

verus! {

/// Number of lives the vehicle starts with.
pub const LIFE_POOL_SIZE: usize = 3;

/// Distance from the background offset to the anchor of the life chain.
pub const LIFE_ANCHOR_AHEAD: i64 = 250;

/// Horizontal distance between neighbouring lives.
pub const LIFE_SPACING: i64 = 90;

/// Vertical coordinate of the life display.
pub const LIFE_Y: i64 = 300;

/// One life token of the vehicle.
#[derive(Clone, Copy, Debug, PartialEq, Eq, Structural)]
pub struct Life {
    pub position: Point,
}

/// Horizontal coordinate of the life at `index` of the chain anchored to a
/// background at `background_x`.
pub open spec fn life_x(background_x: int, index: int) -> int {
    background_x + LIFE_ANCHOR_AHEAD + LIFE_SPACING * (index + 1)
}

/// The three lives the vehicle starts with, left to right.
pub fn create_life() -> (r: Vec<Life>)
    ensures
        r@.len() == LIFE_POOL_SIZE,
        r@[0].position == (Point { x: 400, y: LIFE_Y }),
        r@[1].position == (Point { x: 500, y: LIFE_Y }),
        r@[2].position == (Point { x: 600, y: LIFE_Y }),
{
    let mut bundles: Vec<Life> = Vec::new();
    bundles.push(Life { position: Point::new(400, LIFE_Y) });
    bundles.push(Life { position: Point::new(500, LIFE_Y) });
    bundles.push(Life { position: Point::new(600, LIFE_Y) });
    bundles
}

/// Spends one life on a pending hit: when a hit is pending and a life is
/// left, the first life is removed and the pending hits are cleared.
/// Otherwise nothing changes.
pub fn vehicle_hit_handle(hit_events: &mut Vec<VehicleHitEvent>, lives: &mut Vec<Life>)
    ensures
        old(hit_events)@.len() == 0 || old(lives)@.len() == 0 ==> *final(hit_events)
            == *old(hit_events) && *final(lives) == *old(lives),
        old(hit_events)@.len() > 0 && old(lives)@.len() > 0 ==> final(hit_events)@.len() == 0
            && final(lives)@ == old(lives)@.subrange(1, old(lives)@.len() as int),
{
    if hit_events.len() == 0 || lives.len() == 0 {
        return ;
    }
    hit_events.clear();
    lives.remove(0);
}

/// Places the lives in a chain anchored to the background: each one
/// `LIFE_SPACING` to the right of the one before, the first one
/// `LIFE_SPACING` right of the anchor.
pub fn move_life(background_x: i64, lives: &mut Vec<Life>)
    requires
        offset_in_range(background_x),
        old(lives)@.len() <= LIFE_POOL_SIZE,
    ensures
        final(lives)@.len() == old(lives)@.len(),
        forall|i: int|
            0 <= i < final(lives)@.len() ==> {
                &&& #[trigger] final(lives)@[i].position.x == life_x(background_x as int, i)
                &&& final(lives)@[i].position.y == old(lives)@[i].position.y
            },
{
    let mut previous_x_position: i64 = background_x + LIFE_ANCHOR_AHEAD;
    let mut i: usize = 0;
    while i < lives.len()
        invariant
            offset_in_range(background_x),
            lives@.len() == old(lives)@.len(),
            lives@.len() <= LIFE_POOL_SIZE,
            i <= lives@.len(),
            previous_x_position == life_x(background_x as int, i as int - 1),
            forall|j: int|
                0 <= j < i ==> {
                    &&& #[trigger] lives@[j].position.x == life_x(background_x as int, j)
                    &&& lives@[j].position.y == old(lives)@[j].position.y
                },
            forall|j: int| i <= j < lives@.len() ==> #[trigger] lives@[j] == old(lives)@[j],
        decreases lives@.len() - i,
    {
        let x = previous_x_position + LIFE_SPACING;
        let mut life = lives[i];
        life.position.x = x;
        lives.set(i, life);
        previous_x_position = x;
        i = i + 1;
    }
}

} // verus!

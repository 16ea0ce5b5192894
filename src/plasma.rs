use vstd::prelude::*;
use crate::animation::{AnimationIndices, AnimationTimer, TimerMode, MAX_DELTA_MS, animate};
use crate::enemy::{enemy_wf, Enemy};
use crate::geometry::{collide, collides, Point, MAX_Y, MIN_Y};
use crate::vehicle::Vehicle;

verus! {

/// Half-width of the box in which a projectile and an enemy collide.
pub const PLASMA_HALF_WIDTH: i64 = 130;

/// Half-height of the box in which a projectile and an enemy collide.
pub const PLASMA_HALF_HEIGHT: i64 = 50;

/// Horizontal distance a projectile covers per tick.
pub const PLASMA_STEP: i64 = 20;

/// Distance past its starting point at which a projectile is removed.
pub const PLASMA_RANGE: i64 = 1150;

/// How far ahead of the vehicle a projectile appears.
pub const PLASMA_MUZZLE_AHEAD: i64 = 80;

/// Duration of the projectile's one-shot animation timer.
pub const PLASMA_TIMER_MS: u64 = 100_000;

/// Largest magnitude of a projectile's starting point.
pub const PLASMA_START_LIMIT: i64 = 5_000_000_000_000_000;

/// A projectile travelling to the right.
#[derive(Clone, Copy, Debug)]
pub struct Plasma {
    pub position: Point,
    pub starting_point_x: i64,
    pub timer: AnimationTimer,
    pub indices: AnimationIndices,
    pub frame: usize,
}

impl Plasma {
    /// A live projectile lies between its starting point and the end of its
    /// range.
    pub open spec fn wf(self) -> bool {
        &&& self.timer.wf()
        &&& self.indices.wf()
        &&& self.frame <= self.indices.last
        &&& MIN_Y <= self.position.y <= MAX_Y
        &&& -PLASMA_START_LIMIT <= self.starting_point_x <= PLASMA_START_LIMIT
        &&& self.starting_point_x <= self.position.x
        &&& self.position.x - self.starting_point_x < PLASMA_RANGE
    }
}

pub open spec fn plasma_wf(plasma: Option<Plasma>) -> bool {
    plasma is Some ==> plasma->0.wf()
}

/// The projectile that appears at `(x, y)`.
pub open spec fn spawned_plasma(x: i64, y: i64) -> Plasma {
    Plasma {
        position: Point { x, y },
        starting_point_x: x,
        timer: AnimationTimer::from_millis_spec(PLASMA_TIMER_MS, TimerMode::Once),
        indices: AnimationIndices { first: 0, last: 2 },
        frame: 0,
    }
}

/// The projectile that appears at `(x, y)`.
pub fn create_plasma_bundle(x: i64, y: i64) -> (r: Plasma)
    requires
        -PLASMA_START_LIMIT <= x <= PLASMA_START_LIMIT,
        MIN_Y <= y <= MAX_Y,
    ensures
        r == spawned_plasma(x, y),
        r.wf(),
{
    Plasma {
        position: Point::new(x, y),
        starting_point_x: x,
        timer: AnimationTimer::from_millis(PLASMA_TIMER_MS, TimerMode::Once),
        indices: AnimationIndices { first: 0, last: 2 },
        frame: 0,
    }
}

/// Whether the projectile lies within the enemy's collision box.
pub fn is_collide_with_enemy(plasma_position: Point, enemy_position: Point) -> (r: bool)
    ensures
        r == collide(
            plasma_position,
            enemy_position,
            PLASMA_HALF_WIDTH as int,
            PLASMA_HALF_HEIGHT as int,
        ),
{
    collides(plasma_position, enemy_position, PLASMA_HALF_WIDTH, PLASMA_HALF_HEIGHT)
}

/// Fires a projectile from just ahead of the vehicle when none is live and
/// the fire key was just pressed. Returns whether one was fired.
pub fn fire_plasma(fire_just_pressed: bool, vehicle: &Vehicle, plasma: &mut Option<Plasma>) -> (fired: bool)
    requires
        vehicle.wf(),
        plasma_wf(*old(plasma)),
    ensures
        plasma_wf(*final(plasma)),
        fired == (old(plasma).is_none() && fire_just_pressed),
        fired ==> *final(plasma) == Some(
            spawned_plasma(
                (vehicle.position.x + PLASMA_MUZZLE_AHEAD) as i64,
                vehicle.position.y,
            ),
        ),
        !fired ==> *final(plasma) == *old(plasma),
{
    if plasma.is_some() {
        return false;
    }
    if fire_just_pressed {
        *plasma = Some(
            create_plasma_bundle(vehicle.position.x + PLASMA_MUZZLE_AHEAD, vehicle.position.y),
        );
        true
    } else {
        false
    }
}

/// Moves the live projectile for one tick. A projectile that touches the live
/// enemy removes it and is removed; any other advances and is removed once it
/// has travelled its whole range.
pub fn move_plasma(plasma: &mut Option<Plasma>, enemy: &mut Option<Enemy>)
    requires
        plasma_wf(*old(plasma)),
        enemy_wf(*old(enemy)),
    ensures
        plasma_wf(*final(plasma)),
        enemy_wf(*final(enemy)),
        old(plasma).is_none() ==> *final(plasma) == *old(plasma) && *final(enemy) == *old(enemy),
        *old(plasma) is Some && *old(enemy) is Some && collide(
            (*old(plasma))->0.position,
            (*old(enemy))->0.position,
            PLASMA_HALF_WIDTH as int,
            PLASMA_HALF_HEIGHT as int,
        ) ==> final(plasma).is_none() && final(enemy).is_none(),
        *old(plasma) is Some && !(*old(enemy) is Some && collide(
            (*old(plasma))->0.position,
            (*old(enemy))->0.position,
            PLASMA_HALF_WIDTH as int,
            PLASMA_HALF_HEIGHT as int,
        )) ==> *final(enemy) == *old(enemy) && ({
            let o = (*old(plasma))->0;
            let x = o.position.x + PLASMA_STEP;
            &&& x - o.starting_point_x >= PLASMA_RANGE ==> final(plasma).is_none()
            &&& x - o.starting_point_x < PLASMA_RANGE ==> *final(plasma) == Some(
                Plasma { position: Point { x: x as i64, y: o.position.y }, ..o },
            )
        }),
{
    let p = match plasma {
        Some(p) => *p,
        None => {
            return ;
        },
    };
    if let Some(e) = enemy {
        if is_collide_with_enemy(p.position, e.position) {
            *enemy = None;
            *plasma = None;
            return ;
        }
    }
    let mut moved = p;
    moved.position.x = p.position.x + PLASMA_STEP;
    if moved.position.x >= moved.starting_point_x + PLASMA_RANGE {
        *plasma = None;
    } else {
        *plasma = Some(moved);
    }
}

/// Steps the live projectile's animation frame by `delta` milliseconds.
pub fn animate_plasma(delta: u64, plasma: &mut Option<Plasma>)
    requires
        plasma_wf(*old(plasma)),
        delta <= MAX_DELTA_MS,
    ensures
        plasma_wf(*final(plasma)),
        old(plasma).is_none() ==> final(plasma).is_none(),
        *old(plasma) is Some ==> *final(plasma) is Some && ({
            let (o, n) = ((*old(plasma))->0, (*final(plasma))->0);
            &&& n.position == o.position
            &&& n.starting_point_x == o.starting_point_x
            &&& n.indices == o.indices
            &&& n.timer == o.timer.ticked(delta as int)
            &&& n.timer.is_just_finished() ==> n.frame as int
                == crate::animation::next_frame(o.frame as int, o.indices.last as int)
            &&& !n.timer.is_just_finished() ==> n.frame == o.frame
        }),
{
    if let Some(p) = plasma {
        let indices = p.indices;
        animate(delta, &mut p.timer, &mut p.frame, &indices);
    }
}

} // verus!

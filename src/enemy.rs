use vstd::prelude::*;
use crate::animation::{AnimationIndices, AnimationTimer, TimerMode, MAX_DELTA_MS, animate};
use crate::geometry::{
    clamp, clamp_i64, collide, collides, offset_in_range, Point, COORD_LIMIT, MAX_Y, MIN_Y,
};
use crate::random::sample_uniform;
use crate::vehicle::VehicleHitEvent;

verus! {

/// Half-width of the box in which the vehicle and an enemy collide.
pub const VEHICLE_HALF_WIDTH: i64 = 130;

/// Half-height of the box in which the vehicle and an enemy collide.
pub const VEHICLE_HALF_HEIGHT: i64 = 80;

/// How far an enemy may fall behind the vehicle before it is removed.
pub const ENEMY_DESPAWN_MARGIN: i64 = 300;

/// How far ahead of the background offset a new enemy appears.
pub const ENEMY_SPAWN_AHEAD: i64 = 800;

/// Vertical coordinate a new enemy appears at.
pub const ENEMY_SPAWN_Y: i64 = -30;

/// Vertical distance an enemy covers per tick.
pub const ENEMY_STEP: i64 = 2;

/// Duration of one enemy animation frame.
pub const ENEMY_FRAME_MS: u64 = 100;

/// An enemy drifting toward its wander target.
#[derive(Clone, Copy, Debug)]
pub struct Enemy {
    pub position: Point,
    pub expected_position_y: i64,
    pub timer: AnimationTimer,
    pub indices: AnimationIndices,
    pub frame: usize,
}

impl Enemy {
    pub open spec fn wf(self) -> bool {
        &&& self.timer.wf()
        &&& self.indices.wf()
        &&& self.frame <= self.indices.last
        &&& MIN_Y <= self.position.y <= MAX_Y
        &&& MIN_Y <= self.expected_position_y <= MAX_Y
        &&& -COORD_LIMIT <= self.position.x <= COORD_LIMIT
    }
}

pub open spec fn enemy_wf(enemy: Option<Enemy>) -> bool {
    enemy is Some ==> enemy->0.wf()
}

/// The enemy that appears at horizontal coordinate `x`.
pub open spec fn spawned_enemy(x: i64) -> Enemy {
    Enemy {
        position: Point { x, y: ENEMY_SPAWN_Y },
        expected_position_y: ENEMY_SPAWN_Y,
        timer: AnimationTimer::from_millis_spec(ENEMY_FRAME_MS, TimerMode::Repeating),
        indices: AnimationIndices { first: 0, last: 2 },
        frame: 0,
    }
}

/// A sample of `[-300, 300)` rounded toward zero to an even number.
pub open spec fn wander_target_of(sample: int) -> int {
    if sample >= 0 {
        sample - sample % 2
    } else {
        -((-sample) - (-sample) % 2)
    }
}

/// Whether `t` is a wander target that some sample of `[-300, 300)` gives.
pub open spec fn is_wander_target(t: int) -> bool {
    exists|s: int| MIN_Y <= s < MAX_Y && t == wander_target_of(s)
}

/// The vertical coordinate after one step from `y` toward `target`.
pub open spec fn wander_step(y: int, target: int) -> int {
    clamp(y + if target > y { ENEMY_STEP as int } else { -ENEMY_STEP }, MIN_Y as int, MAX_Y as int)
}

/// Whether a roll of the spawn die lets an enemy appear: the complement of
/// the roll must not be a multiple of three.
pub open spec fn spawn_roll_allows(roll: int) -> bool {
    (-roll - 1) % 3 != 0
}

/// The enemy that appears at horizontal coordinate `x`.
pub fn create_enemy(x: i64) -> (r: Enemy)
    requires
        -COORD_LIMIT <= x <= COORD_LIMIT,
    ensures
        r == spawned_enemy(x),
        r.wf(),
{
    Enemy {
        position: Point::new(x, ENEMY_SPAWN_Y),
        expected_position_y: ENEMY_SPAWN_Y,
        timer: AnimationTimer::from_millis(ENEMY_FRAME_MS, TimerMode::Repeating),
        indices: AnimationIndices { first: 0, last: 2 },
        frame: 0,
    }
}

/// Whether the vehicle lies within the enemy's collision box.
pub fn is_collide_with_vehicle(vehicle_position: Point, enemy_position: Point) -> (r: bool)
    ensures
        r == collide(
            vehicle_position,
            enemy_position,
            VEHICLE_HALF_WIDTH as int,
            VEHICLE_HALF_HEIGHT as int,
        ),
{
    collides(vehicle_position, enemy_position, VEHICLE_HALF_WIDTH, VEHICLE_HALF_HEIGHT)
}

/// The wander target drawn from `sample`: the sample rounded toward zero to
/// an even number.
pub fn wander_target(sample: i32) -> (r: i64)
    requires
        MIN_Y <= sample < MAX_Y,
    ensures
        r == wander_target_of(sample as int),
        is_wander_target(r as int),
        MIN_Y <= r <= MAX_Y,
{
    let r = (sample - (sample % 2)) as i64;
    assert(MIN_Y <= sample as int && (sample as int) < MAX_Y && r as int == wander_target_of(
        sample as int,
    ));
    r
}

/// One step from `y` toward `target`, within the vertical bounds.
pub fn step_toward(y: i64, target: i64) -> (r: i64)
    requires
        MIN_Y <= y <= MAX_Y,
    ensures
        r == wander_step(y as int, target as int),
        MIN_Y <= r <= MAX_Y,
{
    let direction_y: i64 = if target > y {
        ENEMY_STEP
    } else {
        -ENEMY_STEP
    };
    clamp_i64(y + direction_y, MIN_Y, MAX_Y)
}

/// Whether a roll of the spawn die lets an enemy appear.
pub fn spawn_allowed(roll: i32) -> (r: bool)
    requires
        0 <= roll < 50,
    ensures
        r == spawn_roll_allows(roll as int),
{
    let complement: i32 = !roll;
    assert(complement == -roll - 1) by (bit_vector)
        requires
            complement == !roll,
    ;
    !(complement % 3 == 0)
}

/// Steps the live enemy's animation frame by `delta` milliseconds.
pub fn animate_enemy(delta: u64, enemy: &mut Option<Enemy>)
    requires
        enemy_wf(*old(enemy)),
        delta <= MAX_DELTA_MS,
    ensures
        enemy_wf(*final(enemy)),
        old(enemy).is_none() ==> final(enemy).is_none(),
        *old(enemy) is Some ==> *final(enemy) is Some && ({
            let (o, n) = ((*old(enemy))->0, (*final(enemy))->0);
            &&& n.position == o.position
            &&& n.expected_position_y == o.expected_position_y
            &&& n.indices == o.indices
            &&& n.timer == o.timer.ticked(delta as int)
            &&& n.timer.is_just_finished() ==> n.frame as int
                == crate::animation::next_frame(o.frame as int, o.indices.last as int)
            &&& !n.timer.is_just_finished() ==> n.frame == o.frame
        }),
{
    if let Some(e) = enemy {
        let indices = e.indices;
        animate(delta, &mut e.timer, &mut e.frame, &indices);
    }
}

/// Whether `enemy` has fallen too far behind a vehicle at `vehicle_x`.
pub open spec fn left_behind(enemy: Enemy, vehicle_x: int) -> bool {
    enemy.position.x + ENEMY_DESPAWN_MARGIN < vehicle_x
}

/// Moves the live enemy for one tick. An enemy left behind by the vehicle is
/// removed; one that touches the vehicle is removed and a hit is signalled;
/// any other picks a new random wander target once it has reached the
/// current one, then steps toward its target.
pub fn move_enemy(
    vehicle_position: Point,
    enemy: &mut Option<Enemy>,
    hit_events: &mut Vec<VehicleHitEvent>,
)
    requires
        enemy_wf(*old(enemy)),
    ensures
        enemy_wf(*final(enemy)),
        old(enemy).is_none() ==> final(enemy).is_none() && final(hit_events)@ == old(hit_events)@,
        *old(enemy) is Some && left_behind((*old(enemy))->0, vehicle_position.x as int)
            ==> final(enemy).is_none() && final(hit_events)@ == old(hit_events)@,
        *old(enemy) is Some && !left_behind((*old(enemy))->0, vehicle_position.x as int) && collide(
            vehicle_position,
            (*old(enemy))->0.position,
            VEHICLE_HALF_WIDTH as int,
            VEHICLE_HALF_HEIGHT as int,
        ) ==> final(enemy).is_none() && final(hit_events)@ == old(hit_events)@.push(
            VehicleHitEvent,
        ),
        *old(enemy) is Some && !left_behind((*old(enemy))->0, vehicle_position.x as int) && !collide(
            vehicle_position,
            (*old(enemy))->0.position,
            VEHICLE_HALF_WIDTH as int,
            VEHICLE_HALF_HEIGHT as int,
        ) ==> *final(enemy) is Some && final(hit_events)@ == old(hit_events)@ && ({
            let (o, n) = ((*old(enemy))->0, (*final(enemy))->0);
            &&& n.position.x == o.position.x
            &&& n.timer == o.timer
            &&& n.indices == o.indices
            &&& n.frame == o.frame
            &&& o.position.y != o.expected_position_y ==> n.expected_position_y
                == o.expected_position_y
            &&& o.position.y == o.expected_position_y ==> is_wander_target(
                n.expected_position_y as int,
            )
            &&& n.position.y == wander_step(o.position.y as int, n.expected_position_y as int)
        }),
{
    let e = match enemy {
        Some(e) => *e,
        None => {
            return ;
        },
    };
    if (e.position.x as i128) + (ENEMY_DESPAWN_MARGIN as i128) < vehicle_position.x as i128 {
        *enemy = None;
        return ;
    }
    if is_collide_with_vehicle(vehicle_position, e.position) {
        hit_events.push(VehicleHitEvent);
        *enemy = None;
        return ;
    }
    let mut moved = e;
    if moved.position.y == moved.expected_position_y {
        let sample = sample_uniform(MIN_Y as i32, MAX_Y as i32);
        moved.expected_position_y = wander_target(sample);
    }
    moved.position.y = step_toward(moved.position.y, moved.expected_position_y);
    *enemy = Some(moved);
}

/// Spawns an enemy ahead of the background when none is live and `roll`
/// allows it.
pub fn spawn_enemy_on_roll(background_x: i64, enemy: &mut Option<Enemy>, roll: i32)
    requires
        offset_in_range(background_x),
        enemy_wf(*old(enemy)),
        0 <= roll < 50,
    ensures
        enemy_wf(*final(enemy)),
        *old(enemy) is Some ==> *final(enemy) == *old(enemy),
        old(enemy).is_none() && spawn_roll_allows(roll as int) ==> *final(enemy) == Some(
            spawned_enemy((background_x + ENEMY_SPAWN_AHEAD) as i64),
        ),
        old(enemy).is_none() && !spawn_roll_allows(roll as int) ==> final(enemy).is_none(),
{
    if enemy.is_some() {
        return ;
    }
    if !spawn_allowed(roll) {
        return ;
    }
    *enemy = Some(create_enemy(background_x + ENEMY_SPAWN_AHEAD));
}

/// Rolls the spawn die and spawns an enemy ahead of the background when none
/// is live and the roll allows it.
pub fn create_enemy_bundle(background_x: i64, enemy: &mut Option<Enemy>)
    requires
        offset_in_range(background_x),
        enemy_wf(*old(enemy)),
    ensures
        enemy_wf(*final(enemy)),
        *old(enemy) is Some ==> *final(enemy) == *old(enemy),
        old(enemy).is_none() ==> final(enemy).is_none() || *final(enemy) == Some(
            spawned_enemy((background_x + ENEMY_SPAWN_AHEAD) as i64),
        ),
{
    if enemy.is_some() {
        return ;
    }
    let roll = sample_uniform(0, 50);
    spawn_enemy_on_roll(background_x, enemy, roll);
}

} // verus!

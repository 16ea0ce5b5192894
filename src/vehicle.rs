use vstd::prelude::*;
use crate::animation::{AnimationIndices, AnimationTimer, TimerMode, MAX_DELTA_MS, animate};
use crate::geometry::{clamp, clamp_i64, offset_in_range, Point, COORD_LIMIT, MAX_Y, MIN_Y};

verus! {

/// Horizontal distance between the background offset and the vehicle.
pub const VEHICLE_BEHIND_BACKGROUND: i64 = 450;

/// Vertical distance the vehicle covers per movement step.
pub const VEHICLE_STEP: i64 = 5;

/// Fixed time fed to the vehicle's timer on each tick a direction is held.
pub const VEHICLE_TICK_MS: u64 = 1500;

/// Vertical coordinate the vehicle starts at.
pub const VEHICLE_START_Y: i64 = -30;

/// Duration of one vehicle animation frame.
pub const VEHICLE_FRAME_MS: u64 = 100;

/// The player-controlled vehicle.
#[derive(Clone, Copy, Debug)]
pub struct Vehicle {
    pub position: Point,
    pub timer: AnimationTimer,
    pub indices: AnimationIndices,
    pub frame: usize,
}

/// Signal that the vehicle collided with an enemy.
#[derive(Clone, Copy, Debug, PartialEq, Eq, Structural)]
pub struct VehicleHitEvent;

/// Signed vertical step chosen by the held keys: up wins over down.
pub open spec fn direction_of(up: bool, down: bool) -> int {
    if up {
        VEHICLE_STEP as int
    } else if down {
        -VEHICLE_STEP
    } else {
        0
    }
}

impl Vehicle {
    pub open spec fn wf(self) -> bool {
        &&& self.timer.wf()
        &&& self.indices.wf()
        &&& self.frame <= self.indices.last
        &&& MIN_Y <= self.position.y <= MAX_Y
        &&& -COORD_LIMIT <= self.position.x <= COORD_LIMIT
    }

    /// The vehicle at its starting place, under a background at offset zero.
    pub open spec fn new_spec() -> Vehicle {
        Vehicle {
            position: Point { x: (-VEHICLE_BEHIND_BACKGROUND) as i64, y: VEHICLE_START_Y },
            timer: AnimationTimer::from_millis_spec(VEHICLE_FRAME_MS, TimerMode::Repeating),
            indices: AnimationIndices { first: 0, last: 2 },
            frame: 0,
        }
    }

    /// The vehicle at its starting place, under a background at offset zero.
    pub fn new() -> (r: Vehicle)
        ensures
            r.wf(),
            r == Vehicle::new_spec(),
    {
        Vehicle {
            position: Point::new(-VEHICLE_BEHIND_BACKGROUND, VEHICLE_START_Y),
            timer: AnimationTimer::from_millis(VEHICLE_FRAME_MS, TimerMode::Repeating),
            indices: AnimationIndices { first: 0, last: 2 },
            frame: 0,
        }
    }
}

/// Steps the vehicle's animation frame by `delta` milliseconds.
pub fn animate_vehicle(delta: u64, vehicle: &mut Vehicle)
    requires
        old(vehicle).wf(),
        delta <= MAX_DELTA_MS,
    ensures
        final(vehicle).wf(),
        final(vehicle).position == old(vehicle).position,
        final(vehicle).indices == old(vehicle).indices,
        final(vehicle).timer == old(vehicle).timer.ticked(delta as int),
        final(vehicle).timer.is_just_finished() ==> final(vehicle).frame as int
            == crate::animation::next_frame(old(vehicle).frame as int, old(vehicle).indices.last as int),
        !final(vehicle).timer.is_just_finished() ==> final(vehicle).frame == old(vehicle).frame,
{
    let indices = vehicle.indices;
    animate(delta, &mut vehicle.timer, &mut vehicle.frame, &indices);
}

/// Re-anchors the vehicle to the background and, while `up` or `down` is
/// held, advances its timer by a fixed step and moves it five units each time
/// the timer finishes, within the vertical bounds.
pub fn move_vehicle(up: bool, down: bool, background_x: i64, vehicle: &mut Vehicle)
    requires
        old(vehicle).wf(),
        offset_in_range(background_x),
    ensures
        final(vehicle).wf(),
        final(vehicle).position.x == background_x - VEHICLE_BEHIND_BACKGROUND,
        final(vehicle).indices == old(vehicle).indices,
        final(vehicle).frame == old(vehicle).frame,
        !up && !down ==> final(vehicle).timer == old(vehicle).timer,
        !up && !down ==> final(vehicle).position.y == old(vehicle).position.y,
        up || down ==> final(vehicle).timer == old(vehicle).timer.ticked(VEHICLE_TICK_MS as int),
        (up || down) && final(vehicle).timer.is_just_finished() ==> final(vehicle).position.y
            == clamp(old(vehicle).position.y + direction_of(up, down), MIN_Y as int, MAX_Y as int),
        (up || down) && !final(vehicle).timer.is_just_finished() ==> final(vehicle).position.y
            == old(vehicle).position.y,
{
    vehicle.position.x = background_x - VEHICLE_BEHIND_BACKGROUND;
    let direction_y: i64 = if up {
        VEHICLE_STEP
    } else if down {
        -VEHICLE_STEP
    } else {
        return ;
    };
    vehicle.timer.tick(VEHICLE_TICK_MS);
    if vehicle.timer.just_finished() {
        vehicle.position.y = clamp_i64(vehicle.position.y + direction_y, MIN_Y, MAX_Y);
    }
}

} // verus!

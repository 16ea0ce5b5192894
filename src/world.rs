use vstd::prelude::*;
use crate::animation::{AnimationTimer, TimerMode, MAX_DELTA_MS};
use crate::enemy::{
    animate_enemy, create_enemy_bundle, enemy_wf, left_behind, move_enemy, Enemy,
    VEHICLE_HALF_HEIGHT, VEHICLE_HALF_WIDTH,
};
use crate::geometry::{clamp, collide, offset_in_range, MAX_Y, MIN_Y};
use crate::life::{create_life, life_x, move_life, vehicle_hit_handle, Life, LIFE_POOL_SIZE};
use crate::plasma::{animate_plasma, fire_plasma, move_plasma, plasma_wf, Plasma};
use crate::vehicle::{
    animate_vehicle, direction_of, move_vehicle, Vehicle, VehicleHitEvent,
    VEHICLE_BEHIND_BACKGROUND, VEHICLE_FRAME_MS, VEHICLE_TICK_MS,
};

verus! {

/// The player's input for one tick.
#[derive(Clone, Copy, Debug, PartialEq, Eq, Structural)]
pub struct Controls {
    /// The up key is held.
    pub up: bool,
    /// The down key is held.
    pub down: bool,
    /// The fire key went down during this tick.
    pub fire_just_pressed: bool,
}

/// What happened during a tick that the host may want to play a sound for.
#[derive(Clone, Copy, Debug, PartialEq, Eq, Structural)]
pub struct TickReport {
    /// A projectile was fired.
    pub fired: bool,
    /// The vehicle collided with an enemy.
    pub vehicle_hit: bool,
}

/// Every entity of the simulation.
#[derive(Debug)]
pub struct World {
    pub vehicle: Vehicle,
    pub enemy: Option<Enemy>,
    pub plasma: Option<Plasma>,
    pub lives: Vec<Life>,
    pub hit_events: Vec<VehicleHitEvent>,
}

impl World {
    /// Between ticks: every entity is well formed, at most `LIFE_POOL_SIZE`
    /// lives remain and no hit is pending.
    pub open spec fn wf(&self) -> bool {
        &&& self.vehicle.wf()
        &&& self.vehicle.timer.duration == VEHICLE_FRAME_MS
        &&& self.vehicle.timer.mode == TimerMode::Repeating
        &&& enemy_wf(self.enemy)
        &&& plasma_wf(self.plasma)
        &&& self.lives@.len() <= LIFE_POOL_SIZE
        &&& self.hit_events@.len() == 0
    }

    /// Runs one tick under a background at offset `background_x`, `delta`
    /// milliseconds after the previous one: the vehicle, the enemy, the
    /// projectile, the enemy spawner, the life pool, then the animations.
    /// A hit that finds no life left is dropped at the end of the tick.
    pub fn tick(&mut self, controls: Controls, background_x: i64, delta: u64) -> (report: TickReport)
        requires
            old(self).wf(),
            offset_in_range(background_x),
            delta <= MAX_DELTA_MS,
        ensures
            final(self).wf(),
            final(self).vehicle.position.x == background_x - VEHICLE_BEHIND_BACKGROUND,
            MIN_Y <= final(self).vehicle.position.y <= MAX_Y,
            final(self).lives@.len() <= old(self).lives@.len(),
            report.vehicle_hit && old(self).lives@.len() > 0 ==> final(self).lives@.len()
                == old(self).lives@.len() - 1,
            !report.vehicle_hit || old(self).lives@.len() == 0 ==> final(self).lives@.len()
                == old(self).lives@.len(),
            forall|i: int|
                0 <= i < final(self).lives@.len() ==> #[trigger] final(self).lives@[i].position.x
                    == life_x(background_x as int, i),
            final(self).vehicle.position.y == clamp(
                old(self).vehicle.position.y + direction_of(controls.up, controls.down),
                MIN_Y as int,
                MAX_Y as int,
            ),
            report.vehicle_hit == (old(self).enemy is Some && !left_behind(
                old(self).enemy->0,
                background_x - VEHICLE_BEHIND_BACKGROUND,
            ) && collide(
                final(self).vehicle.position,
                old(self).enemy->0.position,
                VEHICLE_HALF_WIDTH as int,
                VEHICLE_HALF_HEIGHT as int,
            )),
            controls.fire_just_pressed && old(self).plasma.is_none() ==> report.fired,
            report.fired ==> controls.fire_just_pressed,
            report.fired ==> final(self).plasma is Some,
    {
        let ghost vehicle_before = self.vehicle;
        move_vehicle(controls.up, controls.down, background_x, &mut self.vehicle);
        proof {
            if controls.up || controls.down {
                lemma_long_tick_finishes(vehicle_before.timer, VEHICLE_TICK_MS as int);
            }
        }
        move_enemy(self.vehicle.position, &mut self.enemy, &mut self.hit_events);
        let vehicle_hit = self.hit_events.len() > 0;
        move_plasma(&mut self.plasma, &mut self.enemy);
        let fired = fire_plasma(controls.fire_just_pressed, &self.vehicle, &mut self.plasma);
        create_enemy_bundle(background_x, &mut self.enemy);
        vehicle_hit_handle(&mut self.hit_events, &mut self.lives);
        move_life(background_x, &mut self.lives);
        animate_vehicle(delta, &mut self.vehicle);
        animate_enemy(delta, &mut self.enemy);
        animate_plasma(delta, &mut self.plasma);
        self.hit_events.clear();
        TickReport { fired, vehicle_hit }
    }
}

/// The world at the start of a game: the vehicle at its starting place, a
/// full pool of lives, no enemy and no projectile.
pub fn setup() -> (r: World)
    ensures
        r.wf(),
        r.vehicle == Vehicle::new_spec(),
        r.enemy.is_none(),
        r.plasma.is_none(),
        r.lives@.len() == LIFE_POOL_SIZE,
        r.hit_events@.len() == 0,
{
    World {
        vehicle: Vehicle::new(),
        enemy: None,
        plasma: None,
        lives: create_life(),
        hit_events: Vec::new(),
    }
}

/// A repeating timer advanced by at least its duration finishes.
proof fn lemma_long_tick_finishes(t: AnimationTimer, delta: int)
    requires
        t.wf(),
        t.mode == TimerMode::Repeating,
        t.duration <= delta <= MAX_DELTA_MS,
    ensures
        t.ticked(delta).is_just_finished(),
{
    let e = t.elapsed + delta;
    let d = t.duration as int;
    assert(1 <= e / d <= e) by (nonlinear_arith)
        requires
            e >= d,
            d > 0,
    ;
    assert(e <= u64::MAX);
}

} // verus!

use pixel_attack::animation::{animate, AnimationIndices, AnimationTimer, TimerMode};
use pixel_attack::enemy::{
    create_enemy, create_enemy_bundle, is_collide_with_vehicle, move_enemy, spawn_allowed,
    spawn_enemy_on_roll, step_toward, wander_target, Enemy,
};
use pixel_attack::geometry::{clamp_i64, collides, Point};
use pixel_attack::life::{create_life, move_life, vehicle_hit_handle, Life};
use pixel_attack::plasma::{
    create_plasma_bundle, fire_plasma, is_collide_with_enemy, move_plasma, Plasma,
};
use pixel_attack::vehicle::{animate_vehicle, move_vehicle, Vehicle, VehicleHitEvent};
use pixel_attack::world::{setup, Controls, World};

fn enemy_at(x: i64, y: i64) -> Enemy {
    let mut e = create_enemy(x);
    e.position.y = y;
    e.expected_position_y = y;
    e
}

fn vehicle_at(x: i64, y: i64) -> Vehicle {
    let mut v = Vehicle::new();
    v.position = Point::new(x, y);
    v
}

#[test]
fn collide_when_points_coincide() {
    let a = Point::new(17, -42);
    assert!(collides(a, a, 130, 80));
    assert!(is_collide_with_vehicle(a, a));
    assert!(is_collide_with_enemy(a, a));
}

#[test]
fn collide_bounds_are_closed() {
    let b = Point::new(0, 0);
    assert!(is_collide_with_vehicle(Point::new(130, 80), b));
    assert!(is_collide_with_vehicle(Point::new(-130, -80), b));
    assert!(!is_collide_with_vehicle(Point::new(131, 0), b));
    assert!(!is_collide_with_vehicle(Point::new(-131, 0), b));
    assert!(!is_collide_with_vehicle(Point::new(0, 81), b));
    assert!(!is_collide_with_vehicle(Point::new(0, -81), b));
    assert!(is_collide_with_enemy(Point::new(0, 50), b));
    assert!(!is_collide_with_enemy(Point::new(0, 51), b));
}

#[test]
fn clamp_keeps_inside_values() {
    assert_eq!(clamp_i64(305, -300, 300), 300);
    assert_eq!(clamp_i64(-305, -300, 300), -300);
    assert_eq!(clamp_i64(7, -300, 300), 7);
}

#[test]
fn repeating_timer_wraps() {
    let mut t = AnimationTimer::from_millis(100, TimerMode::Repeating);
    t.tick(60);
    assert!(!t.just_finished());
    assert_eq!(t.elapsed, 60);
    t.tick(60);
    assert!(t.just_finished());
    assert_eq!(t.elapsed, 20);
    assert_eq!(t.times_finished_this_tick, 1);
    t.tick(250);
    assert_eq!(t.times_finished_this_tick, 2);
    assert_eq!(t.elapsed, 70);
}

#[test]
fn one_shot_timer_freezes() {
    let mut t = AnimationTimer::from_millis(100, TimerMode::Once);
    t.tick(150);
    assert!(t.just_finished());
    assert_eq!(t.elapsed, 100);
    t.tick(150);
    assert!(!t.just_finished());
    assert!(t.finished);
    assert_eq!(t.elapsed, 100);
}

#[test]
fn animate_cycles_frames() {
    let mut t = AnimationTimer::from_millis(100, TimerMode::Repeating);
    let indices = AnimationIndices { first: 0, last: 2 };
    let mut frame: usize = 2;
    animate(50, &mut t, &mut frame, &indices);
    assert_eq!(frame, 2);
    animate(50, &mut t, &mut frame, &indices);
    assert_eq!(frame, 0);
    animate(100, &mut t, &mut frame, &indices);
    assert_eq!(frame, 1);
}

#[test]
fn animate_vehicle_steps_frame() {
    let mut v = Vehicle::new();
    animate_vehicle(100, &mut v);
    assert_eq!(v.frame, 1);
}

#[test]
fn vehicle_moves_up_and_down() {
    let mut v = vehicle_at(0, 0);
    move_vehicle(true, false, 30, &mut v);
    assert_eq!(v.position, Point::new(-420, 5));
    move_vehicle(true, true, 30, &mut v);
    assert_eq!(v.position.y, 10);
    move_vehicle(false, true, 33, &mut v);
    assert_eq!(v.position, Point::new(-417, 5));
}

#[test]
fn vehicle_without_input_only_reanchors() {
    let mut v = vehicle_at(-450, 12);
    let timer_before = v.timer.elapsed;
    move_vehicle(false, false, 1000, &mut v);
    assert_eq!(v.position, Point::new(550, 12));
    assert_eq!(v.timer.elapsed, timer_before);
}

#[test]
fn vehicle_is_clamped() {
    let mut v = vehicle_at(0, 298);
    move_vehicle(true, false, 0, &mut v);
    assert_eq!(v.position.y, 300);
    move_vehicle(true, false, 0, &mut v);
    assert_eq!(v.position.y, 300);
    let mut w = vehicle_at(0, -297);
    move_vehicle(false, true, 0, &mut w);
    assert_eq!(w.position.y, -300);
}

#[test]
fn wander_target_rounds_toward_zero() {
    assert_eq!(wander_target(-300), -300);
    assert_eq!(wander_target(-299), -298);
    assert_eq!(wander_target(299), 298);
    assert_eq!(wander_target(1), 0);
    assert_eq!(wander_target(-1), 0);
    assert_eq!(wander_target(42), 42);
}

#[test]
fn enemy_steps_toward_target() {
    assert_eq!(step_toward(0, 10), 2);
    assert_eq!(step_toward(0, -10), -2);
    assert_eq!(step_toward(10, 10), 8);
    assert_eq!(step_toward(299, 300), 300);
    assert_eq!(step_toward(-299, -300), -300);
}

#[test]
fn spawn_roll_uses_complement() {
    assert!(spawn_allowed(0));
    assert!(spawn_allowed(1));
    assert!(!spawn_allowed(2));
    assert!(spawn_allowed(3));
    assert!(!spawn_allowed(5));
    assert!(!spawn_allowed(47));
    assert!(spawn_allowed(49));
}

#[test]
fn spawn_on_roll_places_enemy_ahead() {
    let mut enemy: Option<Enemy> = None;
    spawn_enemy_on_roll(100, &mut enemy, 2);
    assert!(enemy.is_none());
    spawn_enemy_on_roll(100, &mut enemy, 0);
    let e = enemy.unwrap();
    assert_eq!(e.position, Point::new(900, -30));
    assert_eq!(e.expected_position_y, -30);
    assert_eq!(e.timer.duration, 100);
    assert_eq!(e.timer.mode, TimerMode::Repeating);
    assert_eq!(e.indices.last, 2);
}

#[test]
fn spawner_never_adds_a_second_enemy() {
    let mut enemy = Some(enemy_at(5, 7));
    spawn_enemy_on_roll(0, &mut enemy, 0);
    assert_eq!(enemy.unwrap().position, Point::new(5, 7));
    for _ in 0..50 {
        create_enemy_bundle(0, &mut enemy);
        assert_eq!(enemy.unwrap().position, Point::new(5, 7));
    }
}

#[test]
fn spawner_rolls_vary() {
    let mut spawned = 0;
    let mut refused = 0;
    for _ in 0..300 {
        let mut enemy: Option<Enemy> = None;
        create_enemy_bundle(-20, &mut enemy);
        match enemy {
            Some(e) => {
                assert_eq!(e.position, Point::new(780, -30));
                spawned += 1;
            }
            None => refused += 1,
        }
    }
    assert!(spawned > 0);
    assert!(refused > 0);
}

#[test]
fn enemy_left_behind_is_removed_without_hit() {
    let mut enemy = Some(enemy_at(800, -30));
    let mut events: Vec<VehicleHitEvent> = Vec::new();
    move_enemy(Point::new(1101, 0), &mut enemy, &mut events);
    assert!(enemy.is_none());
    assert!(events.is_empty());
}

#[test]
fn enemy_at_margin_stays() {
    let mut enemy = Some(enemy_at(800, -30));
    let mut events: Vec<VehicleHitEvent> = Vec::new();
    let mut e = enemy.unwrap();
    e.expected_position_y = 100;
    enemy = Some(e);
    move_enemy(Point::new(1100, 0), &mut enemy, &mut events);
    let e = enemy.unwrap();
    assert_eq!(e.position, Point::new(800, -28));
    assert!(events.is_empty());
}

#[test]
fn enemy_touching_vehicle_signals_hit() {
    let mut enemy = Some(enemy_at(100, 50));
    let mut events: Vec<VehicleHitEvent> = Vec::new();
    move_enemy(Point::new(0, 0), &mut enemy, &mut events);
    assert!(enemy.is_none());
    assert_eq!(events.len(), 1);
}

#[test]
fn enemy_reaching_target_picks_even_target() {
    let mut seen = Vec::new();
    for _ in 0..100 {
        let mut enemy = Some(enemy_at(2000, 0));
        let mut events: Vec<VehicleHitEvent> = Vec::new();
        move_enemy(Point::new(0, 0), &mut enemy, &mut events);
        let e = enemy.unwrap();
        let t = e.expected_position_y;
        assert!(t >= -300 && t <= 298);
        assert_eq!(t % 2, 0);
        assert_eq!(e.position.y, if t > 0 { 2 } else { -2 });
        if !seen.contains(&t) {
            seen.push(t);
        }
    }
    assert!(seen.len() > 1);
}

#[test]
fn projectile_hit_removes_both() {
    let mut plasma = Some(create_plasma_bundle(130, 0));
    let mut enemy = Some(enemy_at(0, 0));
    move_plasma(&mut plasma, &mut enemy);
    assert!(plasma.is_none());
    assert!(enemy.is_none());
}

#[test]
fn projectile_travels_its_range() {
    let mut plasma: Option<Plasma> = Some(create_plasma_bundle(0, 0));
    let mut enemy: Option<Enemy> = None;
    let mut steps = 0;
    while plasma.is_some() {
        let p = plasma.unwrap();
        assert!(p.position.x - p.starting_point_x < 1150);
        move_plasma(&mut plasma, &mut enemy);
        steps += 1;
    }
    assert_eq!(steps, 58);
}

#[test]
fn projectile_removed_exactly_at_range() {
    let mut p = create_plasma_bundle(0, 0);
    p.position.x = 1120;
    let mut plasma = Some(p);
    let mut enemy: Option<Enemy> = None;
    move_plasma(&mut plasma, &mut enemy);
    assert_eq!(plasma.unwrap().position.x, 1140);
    move_plasma(&mut plasma, &mut enemy);
    assert!(plasma.is_none());
}

#[test]
fn projectile_misses_far_enemy() {
    let mut plasma = Some(create_plasma_bundle(0, 0));
    let mut enemy = Some(enemy_at(0, 51));
    move_plasma(&mut plasma, &mut enemy);
    assert_eq!(plasma.unwrap().position.x, 20);
    assert!(enemy.is_some());
}

#[test]
fn fire_spawns_one_projectile() {
    let v = vehicle_at(-450, 40);
    let mut plasma: Option<Plasma> = None;
    assert!(!fire_plasma(false, &v, &mut plasma));
    assert!(plasma.is_none());
    assert!(fire_plasma(true, &v, &mut plasma));
    let p = plasma.unwrap();
    assert_eq!(p.position, Point::new(-370, 40));
    assert_eq!(p.starting_point_x, -370);
    assert_eq!(p.timer.duration, 100_000);
    assert_eq!(p.timer.mode, TimerMode::Once);
    let w = vehicle_at(0, 0);
    assert!(!fire_plasma(true, &w, &mut plasma));
    assert_eq!(plasma.unwrap().position, Point::new(-370, 40));
}

#[test]
fn lives_start_full() {
    let lives = create_life();
    assert_eq!(lives.len(), 3);
    assert_eq!(lives[0].position, Point::new(400, 300));
    assert_eq!(lives[1].position, Point::new(500, 300));
    assert_eq!(lives[2].position, Point::new(600, 300));
}

#[test]
fn lives_chain_from_background() {
    let mut lives = create_life();
    move_life(0, &mut lives);
    assert_eq!(lives[0].position, Point::new(340, 300));
    assert_eq!(lives[1].position, Point::new(430, 300));
    assert_eq!(lives[2].position, Point::new(520, 300));
    move_life(-1000, &mut lives);
    assert_eq!(lives[0].position.x, -660);
    assert_eq!(lives[2].position.x, -480);
}

#[test]
fn hit_spends_first_life() {
    let mut lives = create_life();
    let mut events = vec![VehicleHitEvent];
    vehicle_hit_handle(&mut events, &mut lives);
    assert_eq!(lives.len(), 2);
    assert_eq!(lives[0].position, Point::new(500, 300));
    assert!(events.is_empty());
    vehicle_hit_handle(&mut events, &mut lives);
    assert_eq!(lives.len(), 2);
}

#[test]
fn hit_with_no_life_left_changes_nothing() {
    let mut lives: Vec<Life> = Vec::new();
    let mut events = vec![VehicleHitEvent];
    vehicle_hit_handle(&mut events, &mut lives);
    assert!(lives.is_empty());
    assert_eq!(events.len(), 1);
}

#[test]
fn setup_builds_start_world() {
    let w: World = setup();
    assert_eq!(w.vehicle.position, Point::new(-450, -30));
    assert!(w.enemy.is_none());
    assert!(w.plasma.is_none());
    assert_eq!(w.lives.len(), 3);
    assert!(w.hit_events.is_empty());
}

#[test]
fn world_vehicle_stays_in_bounds_and_anchored() {
    let mut w = setup();
    let mut offset: i64 = 0;
    for i in 0..400 {
        offset += 3;
        let up = (i / 150) % 2 == 0;
        let controls = Controls { up, down: !up, fire_just_pressed: i % 7 == 0 };
        w.tick(controls, offset, 16);
        assert_eq!(w.vehicle.position.x, offset - 450);
        assert!(w.vehicle.position.y >= -300 && w.vehicle.position.y <= 300);
    }
}

#[test]
fn world_lives_never_grow() {
    let mut w = setup();
    let mut before = w.lives.len();
    for i in 0..300 {
        w.tick(Controls { up: false, down: i % 2 == 0, fire_just_pressed: false }, 0, 16);
        assert!(w.lives.len() <= before);
        assert!(w.lives.len() <= 3);
        assert!(w.hit_events.is_empty());
        before = w.lives.len();
    }
}

#[test]
fn world_hit_spends_one_life() {
    let mut w = setup();
    w.enemy = Some(enemy_at(-450, -30));
    let report = w.tick(Controls { up: false, down: false, fire_just_pressed: false }, 0, 16);
    assert!(report.vehicle_hit);
    assert_eq!(w.lives.len(), 2);
    assert!(w.hit_events.is_empty());
    assert_eq!(w.lives[0].position, Point::new(340, 300));
    assert_eq!(w.lives[1].position, Point::new(430, 300));
}

#[test]
fn world_fire_reports_projectile() {
    let mut w = setup();
    let report = w.tick(Controls { up: false, down: false, fire_just_pressed: true }, 0, 16);
    assert!(report.fired);
    assert_eq!(w.plasma.unwrap().position, Point::new(-370, -30));
    let again = w.tick(Controls { up: false, down: false, fire_just_pressed: true }, 0, 16);
    assert!(!again.fired);
    assert_eq!(w.plasma.unwrap().position.x, -350);
}

use kaizen::controller::{EnemyController, PlayerController};
use kaizen::collision::Layer;
use kaizen::fire::{BulletKind, FireTag, FireTagSpiral, Heading};
use kaizen::geometry::Position;
use kaizen::life::{total_damage, DamageEvent, LifeState};
use kaizen::motion::{AnimatorView, EnterStayMotion, MotionPattern};

fn hit(entity: u64, damage: u64) -> DamageEvent {
    DamageEvent { entity, damage }
}

#[test]
fn remaining_life_never_grows_and_death_comes_once() {
    let mut life = LifeState::full(3);
    let mut remains = Vec::new();
    let mut deaths = Vec::new();
    for d in [1, 0, 1, 1, 5, 0] {
        let out = life.apply(d);
        remains.push(life.remain_life);
        deaths.push(out.died);
    }
    assert_eq!(remains, vec![2, 2, 1, 0, 0, 0]);
    assert_eq!(deaths, vec![false, false, false, true, false, false]);
    assert!(life.dead);
}

#[test]
fn damage_notifies_new_remaining_life() {
    let mut life = LifeState::full(10);
    assert_eq!(life.apply(0).notify, None);
    assert_eq!(life.apply(4).notify, Some(6));
    assert_eq!(life.apply(40).notify, Some(0));
    assert_eq!(life.apply(1).notify, None);
}

#[test]
fn zero_life_dies_on_first_tick() {
    let mut life = LifeState::full(0);
    assert!(life.apply(0).died);
}

#[test]
fn total_damage_sums_only_the_entity() {
    let events = vec![hit(1, 2), hit(2, 5), hit(1, 3)];
    assert_eq!(total_damage(&events, 1), 5);
    assert_eq!(total_damage(&events, 3), 0);
    let huge = vec![hit(1, u64::MAX), hit(1, 10)];
    assert_eq!(total_damage(&huge, 1), u64::MAX);
}

fn spiral_enemy(life: u64) -> EnemyController {
    EnemyController::new(
        MotionPattern::EnterStay(EnterStayMotion::new(0)),
        FireTag::Spiral(FireTagSpiral::new(BulletKind::PinkDonut)),
        life,
    )
}

#[test]
fn enemy_fires_in_the_tick_motion_signals() {
    let mut enemy = spiral_enemy(5);
    let at = Position::new(2000, 0, 0);
    let player = Position::new(-1500, 0, 0);
    let first = enemy.tick(9, &vec![], 40_000, at, player, AnimatorView { playing: false, progress: 0 });
    assert!(first.update.unwrap().bullets.is_empty());
    let second = enemy.tick(9, &vec![], 40_000, at, player, AnimatorView { playing: true, progress: 1000 });
    assert!(enemy.fire_tag_started);
    assert_eq!(second.update.unwrap().bullets.len(), 5);
}

#[test]
fn dead_enemy_does_nothing() {
    let mut enemy = spiral_enemy(2);
    let at = Position::new(0, 0, 0);
    let anim = AnimatorView { playing: false, progress: 0 };
    let tick = enemy.tick(4, &vec![hit(4, 1), hit(4, 1), hit(5, 9)], 16_000, at, at, anim);
    assert!(tick.life.died);
    assert_eq!(tick.life.notify, Some(0));
    assert!(tick.update.is_none());
    let after = enemy.tick(4, &vec![hit(4, 1)], 16_000, at, at, anim);
    assert!(!after.life.died);
    assert!(after.life.notify.is_none());
    assert!(after.update.is_none());
}

#[test]
fn player_fires_three_shots_at_steady_rate() {
    let mut player = PlayerController::new(500, 3);
    let at = Position::new(-1500, 0, 0);
    let mut shots = Vec::new();
    for _ in 0..20 {
        shots.push(player.tick(1, &vec![], 10_000, at, true).bullets.len());
    }
    // A shot every 84 ms at 10 ms ticks: ticks 0, 9, 17.
    let fired: Vec<usize> = shots.iter().enumerate().filter(|(_, n)| **n > 0).map(|(i, _)| i).collect();
    assert_eq!(fired, vec![0, 9, 17]);
    assert!(shots.iter().all(|n| *n == 0 || *n == 3));
}

#[test]
fn player_shots_leave_from_fire_offset() {
    let player = PlayerController::new(100, 3);
    let shots = player.primary_volley(Position::new(1000, 1000, 0));
    let origins: Vec<Position> = shots.iter().map(|b| b.origin).collect();
    assert_eq!(
        origins,
        vec![Position::new(1087, 1000, -33), Position::new(1087, 1100, -33), Position::new(1087, 900, -33)]
    );
    assert!(shots.iter().all(|b| b.speed == 5000));
}

#[test]
fn player_damage_goes_to_its_lifebar() {
    let mut player = PlayerController::new(500, 42);
    let tick = player.tick(1, &vec![hit(1, 30), hit(2, 1)], 10_000, Position::new(0, 0, 0), false);
    let update = tick.lifebar_update.unwrap();
    assert_eq!(update.entity, 42);
    assert_eq!(update.remain_life, 470);
    let dead = player.tick(1, &vec![hit(1, 470)], 10_000, Position::new(0, 0, 0), true);
    assert!(dead.life.died);
    assert!(dead.bullets.is_empty());
}

#[test]
fn spawn_bullet_makes_one_shot_at_origin() {
    let player = PlayerController::new(100, 3);
    let shot = player.spawn_bullet(Position::new(-20, 40, 7));
    assert_eq!(shot.origin, Position::new(-20, 40, 7));
    assert_eq!(shot.heading, Heading::Angle(0));
    assert_eq!(shot.speed, 5000);
    assert_eq!(shot.kind, BulletKind::PlayerShot);
    assert_eq!(shot.layer, Layer::PlayerBullet);
}

use kaizen::collision::{detect_collisions, Body, CollisionStarted, Layer, LayerSet};
use kaizen::controller::EnemyController;
use kaizen::fire::{BulletKind, FireTag, FireTagAimBurst};
use kaizen::geometry::{despawn_bullets_outside_screen, Placed, Position, ScreenBounds};
use kaizen::life::DamageEvent;
use kaizen::menu::{boot, menu_run, AppState, MenuChoice};
use kaizen::motion::{AnimatorView, FlyByMotion, MotionPattern};
use kaizen::registry::EnemyManager;
use kaizen::world::{update_enemy, Enemy};

fn body(entity: u64, layer: Layer) -> Body {
    Body { entity, groups: LayerSet::only(layer) }
}

#[test]
fn collisions_damage_and_despawn() {
    let events = vec![
        CollisionStarted { first: body(1, Layer::Player), second: body(2, Layer::EnemyBullet) },
        CollisionStarted { first: body(3, Layer::PlayerBullet), second: body(4, Layer::Enemy) },
    ];
    let fx = detect_collisions(&events);
    assert_eq!(fx.damages, vec![DamageEvent { entity: 1, damage: 1 }, DamageEvent { entity: 4, damage: 1 }]);
    assert_eq!(fx.despawns, vec![2, 3]);
    assert_eq!(fx.hit_sounds, vec![4]);
}

#[test]
fn collision_with_world_does_nothing() {
    let fx = detect_collisions(&vec![CollisionStarted { first: body(1, Layer::World), second: body(2, Layer::World) }]);
    assert!(fx.damages.is_empty() && fx.despawns.is_empty() && fx.hit_sounds.is_empty());
}

fn enemy(entity: u64, life: u64) -> Enemy {
    Enemy {
        entity,
        controller: EnemyController::new(
            MotionPattern::FlyBy(FlyByMotion::new(Position::new(5000, 500, 0))),
            FireTag::AimBurst(FireTagAimBurst::new(BulletKind::WhiteBall)),
            life,
        ),
        translation: Position::new(5000, 500, 0),
        animator: AnimatorView { playing: true, progress: 400 },
    }
}

#[test]
fn frame_kills_damaged_enemy_and_moves_the_others() {
    let mut manager = EnemyManager::new(77);
    let mut enemies = vec![enemy(1, 1), enemy(2, 5)];
    let damage = vec![DamageEvent { entity: 1, damage: 1 }, DamageEvent { entity: 2, damage: 2 }];
    let frame = update_enemy(&mut manager, &mut enemies, 40_000, Position::new(0, 0, 0), &damage);
    assert_eq!(frame.killed, vec![1]);
    assert_eq!(frame.lifebar_updates.len(), 2);
    assert_eq!(frame.lifebar_updates[0].entity, 77);
    assert_eq!(frame.lifebar_updates[0].remain_life, 0);
    assert_eq!(frame.lifebar_updates[1].remain_life, 3);
    assert_eq!(frame.motions.len(), 1);
    assert_eq!(frame.motions[0].entity, 2);
    assert_eq!(frame.bullets.len(), 1);
    assert!(enemies[0].controller.life.dead);
    assert!(enemies[1].controller.fire_tag_started);
    let next = update_enemy(&mut manager, &mut enemies, 40_000, Position::new(0, 0, 0), &vec![]);
    assert!(next.killed.is_empty());
    assert_eq!(next.motions.len(), 1);
}

#[test]
fn menu_selection_and_click() {
    let step = menu_run(0, true, false, None, false);
    assert_eq!(step.selected, 1);
    assert!(step.changed);
    assert_eq!(step.choice, None);
    assert_eq!(menu_run(1, true, false, None, false).selected, 1);
    assert_eq!(menu_run(0, false, true, None, false).selected, 0);
    assert_eq!(menu_run(1, false, false, Some(0), true).choice, Some(MenuChoice::StartGame));
    assert_eq!(menu_run(1, false, false, None, true).choice, Some(MenuChoice::Exit));
    assert!(!menu_run(1, false, false, Some(1), false).changed);
}

#[test]
fn boot_goes_to_menu() {
    assert_eq!(boot(AppState::Boot), AppState::Menu);
    assert_eq!(boot(AppState::InGame), AppState::InGame);
}


#[test]
fn bullets_outside_bounds_are_removed() {
    let bounds = ScreenBounds { half_width: 5000, half_height: 3000 };
    let bullets = vec![
        Placed { entity: 1, position: Position::new(0, 0, 0) },
        Placed { entity: 2, position: Position::new(-5001, 0, 0) },
        Placed { entity: 3, position: Position::new(5000, -3000, 0) },
        Placed { entity: 4, position: Position::new(0, i32::MIN, 0) },
    ];
    assert_eq!(despawn_bullets_outside_screen(bounds, &bullets), vec![2, 4]);
}

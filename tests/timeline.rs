use kaizen::fire::BulletKind;
use kaizen::geometry::Position;
use kaizen::motion::{EnterStayPhase, MotionPattern};
use kaizen::registry::{
    EnemyDatabase, EnemyDescriptor, EnemyManager, FireTagKind, MotionPatternKind, SpawnOutcome,
};
use kaizen::timeline::{Timeline, TimelineEvent};

fn event(time: u64, enemy: &str, y: i32) -> TimelineEvent {
    TimelineEvent { time, enemy: String::from(enemy), start_pos: Position::new(3000, y, 0) }
}

fn descriptor(name: &str, life: u64, motion: MotionPatternKind, fire: FireTagKind) -> EnemyDescriptor {
    EnemyDescriptor {
        name: String::from(name),
        life,
        is_boss: false,
        fire_tag_kind: fire,
        motion_pattern_kind: motion,
        bullet_kind: BulletKind::PinkDonut,
    }
}

fn run(times: &[u64], dts: &[u64]) -> Vec<usize> {
    let events = times.iter().map(|t| event(*t, "a", 0)).collect();
    let mut timeline = Timeline::new(events);
    let mut spawned = Vec::new();
    for dt in dts {
        spawned.extend(timeline.advance(*dt));
    }
    spawned
}

#[test]
fn rechunked_ticks_spawn_the_same_events_once() {
    let times = [0, 1_000_000, 1_000_000, 2_500_000, 9_000_000];
    let one = run(&times, &[3_000_000]);
    let many = run(&times, &[500_000, 500_000, 1_000_000, 1_000_000]);
    let uneven = run(&times, &[0, 2_999_999, 1]);
    assert_eq!(one, vec![0, 1, 2, 3]);
    assert_eq!(one, many);
    assert_eq!(one, uneven);
}

#[test]
fn advance_stops_at_first_future_event_and_resumes_there() {
    let events = vec![event(100, "a", 0), event(200, "a", 0), event(300, "a", 0)];
    let mut timeline = Timeline::new(events);
    assert_eq!(timeline.advance(150), vec![0]);
    assert_eq!(timeline.index, 1);
    assert_eq!(timeline.time, 150);
    assert_eq!(timeline.advance(10), Vec::<usize>::new());
    assert_eq!(timeline.advance(200), vec![1, 2]);
    assert!(timeline.is_done());
    assert_eq!(timeline.advance(1_000_000), Vec::<usize>::new());
    assert_eq!(timeline.index, 3);
}

#[test]
fn event_at_time_zero_is_due_on_first_tick() {
    let mut timeline = Timeline::new(vec![event(0, "a", 0)]);
    assert_eq!(timeline.advance(0), vec![0]);
}

#[test]
fn clock_saturates_at_largest_time() {
    let mut timeline = Timeline::new(vec![event(u64::MAX, "a", 0)]);
    assert_eq!(timeline.advance(u64::MAX - 1), Vec::<usize>::new());
    assert_eq!(timeline.advance(5), vec![0]);
    assert_eq!(timeline.time, u64::MAX);
}

#[test]
fn unknown_enemy_is_reported_and_timeline_moves_on() {
    let mut manager = EnemyManager::new(7);
    manager.add_descriptor(descriptor("grunt", 5, MotionPatternKind::EnterStay, FireTagKind::Spiral));
    manager.timeline = Timeline::new(vec![event(0, "ghost", 0), event(0, "grunt", 800)]);
    let out = manager.execute_timeline(10);
    assert_eq!(out.len(), 2);
    match &out[0] {
        SpawnOutcome::UnknownEnemy(name) => assert_eq!(name, "ghost"),
        SpawnOutcome::Spawned(_) => panic!("unknown enemy spawned"),
    }
    match &out[1] {
        SpawnOutcome::Spawned(req) => {
            assert_eq!(req.name, "grunt");
            assert_eq!(req.position, Position::new(3000, 800, 0));
            assert_eq!(req.controller.life.remain_life, 5);
            match req.controller.motion_pattern {
                MotionPattern::EnterStay(m) => {
                    assert_eq!(m.enter_height, 800);
                    assert_eq!(m.phase, EnterStayPhase::Idle);
                }
                MotionPattern::FlyBy(_) => panic!("wrong motion"),
            }
        }
        SpawnOutcome::UnknownEnemy(_) => panic!("known enemy dropped"),
    }
    assert_eq!(manager.timeline.index, 2);
}

#[test]
fn add_descriptor_replaces_same_name() {
    let mut manager = EnemyManager::new(0);
    manager.add_descriptor(descriptor("boss", 10, MotionPatternKind::EnterStay, FireTagKind::Spiral));
    manager.add_descriptor(descriptor("boss", 20, MotionPatternKind::FlyBy, FireTagKind::AimBurst));
    assert_eq!(manager.descriptors.len(), 1);
    let req = manager.spawn(&String::from("boss"), Position::new(0, 0, 0)).unwrap();
    assert_eq!(req.controller.life.max_life, 20);
    assert!(manager.spawn(&String::from("nobody"), Position::new(0, 0, 0)).is_none());
}

#[test]
fn fly_by_direction_follows_spawn_height() {
    let mut manager = EnemyManager::new(0);
    manager.add_descriptor(descriptor("fly", 1, MotionPatternKind::FlyBy, FireTagKind::AimBurst));
    let name = String::from("fly");
    let up = manager.spawn(&name, Position::new(5000, 800, 0)).unwrap();
    let down = manager.spawn(&name, Position::new(5000, -800, 0)).unwrap();
    let level = manager.spawn(&name, Position::new(5000, 0, 0)).unwrap();
    match (up.controller.motion_pattern, down.controller.motion_pattern, level.controller.motion_pattern) {
        (MotionPattern::FlyBy(u), MotionPattern::FlyBy(d), MotionPattern::FlyBy(l)) => {
            assert_eq!(u.direction, Position::new(-1000, 250, 0));
            assert_eq!(d.direction, Position::new(-1000, -250, 0));
            assert_eq!(l.direction, Position::new(-1000, -250, 0));
            assert_eq!(u.start, Position::new(5000, 800, 0));
        }
        _ => panic!("wrong motion"),
    }
}

#[test]
fn load_registers_enemies_and_restarts_timeline() {
    let mut manager = EnemyManager::new(0);
    manager.timeline = Timeline::new(vec![event(0, "old", 0)]);
    manager.execute_timeline(5);
    let database = EnemyDatabase {
        enemies: vec![
            descriptor("a", 1, MotionPatternKind::EnterStay, FireTagKind::Spiral),
            descriptor("b", 2, MotionPatternKind::FlyBy, FireTagKind::AimBurst),
            descriptor("a", 3, MotionPatternKind::FlyBy, FireTagKind::Spiral),
        ],
        timeline: vec![event(10, "b", 0)],
    };
    manager.load(database);
    assert_eq!(manager.descriptors.len(), 2);
    assert_eq!(manager.timeline.index, 0);
    assert_eq!(manager.timeline.time, 0);
    let a = manager.spawn(&String::from("a"), Position::new(0, 0, 0)).unwrap();
    assert_eq!(a.controller.life.max_life, 3);
    assert_eq!(manager.execute_timeline(9).len(), 0);
    assert_eq!(manager.execute_timeline(1).len(), 1);
}

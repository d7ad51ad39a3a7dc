use kaizen::collision::Layer;
use kaizen::fire::{BulletKind, FireTag, FireTagAimBurst, FireTagSpiral, Heading};
use kaizen::geometry::{Direction, Easing, Position, Repeat, HALF_TURN, TURN};
use kaizen::motion::{
    AnimatorView, EnterStayMotion, EnterStayPhase, FlyByMotion, MotionPattern, MotionResult,
};

fn origin() -> Position {
    Position::new(0, 0, 0)
}

fn angles(bullets: &[kaizen::fire::BulletSpawn]) -> Vec<u64> {
    bullets
        .iter()
        .map(|b| match b.heading {
            Heading::Angle(a) => a,
            Heading::Toward(_) => panic!("spiral bullet aimed"),
        })
        .collect()
}

#[test]
fn spiral_full_volley_has_six_evenly_spaced_arms() {
    let mut spiral = FireTagSpiral::new(BulletKind::WhiteBall);
    spiral.cur_iter = 4;
    let bullets = spiral.execute(40_000, origin());
    let step = TURN / 6;
    assert_eq!(step * 6, TURN);
    assert_eq!(angles(&bullets), vec![0, step, 2 * step, 3 * step, 4 * step, 5 * step]);
    assert!(bullets.iter().all(|b| b.speed == 4300 && b.layer == Layer::EnemyBullet));
    assert!(bullets.iter().all(|b| b.kind == BulletKind::WhiteBall));
    assert_eq!(spiral.cur_iter, 5);
    assert_eq!(spiral.cur_time, 0);
}

#[test]
fn spiral_safe_lane_drops_arm_closest_to_aim() {
    let mut spiral = FireTagSpiral::new(BulletKind::PinkDonut);
    let bullets = spiral.execute(40_000, origin());
    let step = TURN / 6;
    // Arm 3 points exactly at half a turn.
    assert_eq!(3 * step, HALF_TURN);
    assert_eq!(angles(&bullets), vec![0, step, 2 * step, 4 * step, 5 * step]);
}

#[test]
fn spiral_volley_sizes_follow_the_cycle() {
    let mut spiral = FireTagSpiral::new(BulletKind::PinkDonut);
    let mut sizes = Vec::new();
    for _ in 0..30 {
        sizes.push(spiral.execute(40_000, origin()).len());
    }
    let mut expected = Vec::new();
    for iter in 1..=30 {
        expected.push(if iter % 25 < 5 { 5 } else { 6 });
    }
    assert_eq!(sizes, expected);
}

#[test]
fn spiral_waits_for_fire_delay_and_fires_once_per_tick() {
    let mut spiral = FireTagSpiral::new(BulletKind::PinkDonut);
    assert!(spiral.execute(39_999, origin()).is_empty());
    assert_eq!(spiral.cur_time, 39_999);
    assert_eq!(spiral.execute(1, origin()).len(), 5);
    // A long hitch fires a single volley.
    assert_eq!(spiral.execute(1_000_000, origin()).len(), 5);
    assert_eq!(spiral.cur_time, 0);
}

#[test]
fn spiral_turns_at_rotate_speed() {
    let mut spiral = FireTagSpiral::new(BulletKind::PinkDonut);
    spiral.fire_delay = u64::MAX;
    spiral.execute(1_000_000, origin());
    // 35 degrees per second.
    assert_eq!(spiral.cur_angle, 35 * 2_002_000);
    spiral.execute(9_000_000, origin());
    // 350 degrees, then 10 more wrap around to 0.
    assert_eq!(spiral.cur_angle, 350 * 2_002_000);
    spiral.execute(10 * 1_000_000 / 35 + 1, origin());
    assert!(spiral.cur_angle < 2_002_000);
}

#[test]
fn aim_burst_first_bullet_points_at_player() {
    let mut burst = FireTagAimBurst::new(BulletKind::PinkDonut);
    let bullets = burst.execute(40_000, Position::new(0, 0, 0), Position::new(1000, 0, 0));
    assert_eq!(bullets.len(), 1);
    match bullets[0].heading {
        Heading::Toward(d) => {
            let len = ((d.dx * d.dx + d.dy * d.dy + d.dz * d.dz) as f64).sqrt();
            let unit = (d.dx as f64 / len, d.dy as f64 / len, d.dz as f64 / len);
            assert_eq!(unit, (1.0, 0.0, 0.0));
        }
        Heading::Angle(_) => panic!("aimed bullet with an angle"),
    }
}

#[test]
fn aim_burst_stops_after_bullet_count() {
    let mut burst = FireTagAimBurst::new(BulletKind::PinkDonut);
    let player = Position::new(-2000, 500, 0);
    for _ in 0..6 {
        assert_eq!(burst.execute(40_000, origin(), player).len(), 1);
    }
    for _ in 0..10 {
        assert!(burst.execute(1_000_000, origin(), player).is_empty());
    }
    assert_eq!(burst.cur_iter, 6);
}

#[test]
fn aim_burst_falls_back_forward_when_on_player() {
    let mut burst = FireTagAimBurst::new(BulletKind::PinkDonut);
    let p = Position::new(300, 300, 0);
    let bullets = burst.execute(50_000, p, p);
    assert_eq!(bullets[0].heading, Heading::Toward(Direction { dx: 1, dy: 0, dz: 0 }));
    assert_eq!(bullets[0].origin, p);
}

#[test]
fn fire_tag_dispatches_to_its_pattern() {
    let mut tag = FireTag::AimBurst(FireTagAimBurst::new(BulletKind::WhiteBall));
    let bullets = tag.execute(40_000, origin(), Position::new(0, 2000, 0));
    assert_eq!(bullets[0].heading, Heading::Toward(Direction { dx: 0, dy: 2000, dz: 0 }));
}

fn view(playing: bool, progress: u32) -> AnimatorView {
    AnimatorView { playing, progress }
}

#[test]
fn enter_stay_signals_fire_exactly_once() {
    let mut motion = EnterStayMotion::new(700);
    let progress = [0, 200, 999, 1000, 1000, 1000];
    let mut signals = Vec::new();
    for p in progress {
        let step = motion.do_motion(16_000, Position::new(2000, 700, 0), view(true, p));
        signals.push(step.result == MotionResult::StartFireTag);
    }
    assert_eq!(signals, vec![false, false, false, true, false, false]);
    assert_eq!(motion.phase, EnterStayPhase::Stay);
}

#[test]
fn enter_stay_first_step_enters_from_off_screen() {
    let mut motion = EnterStayMotion::new(-400);
    let step = motion.do_motion(0, Position::new(0, 0, 0), view(false, 1000));
    assert_eq!(step.result, MotionResult::DoNothing);
    assert_eq!(step.teleport, Some(Position::new(5000, -400, 0)));
    let tween = step.tween.unwrap();
    assert_eq!(tween.start, Position::new(5000, -400, 0));
    assert_eq!(tween.end, Position::new(2000, -400, 0));
    assert_eq!(tween.duration, 5_000_000);
    assert_eq!(tween.easing, Easing::QuadraticOut);
    assert_eq!(tween.repeat, Repeat::Once);
    let stay = motion.do_motion(0, Position::new(2000, -400, 0), view(true, 1000));
    let bob = stay.tween.unwrap();
    assert_eq!(bob.end, Position::new(2000, 200, 0));
    assert_eq!(bob.repeat, Repeat::PingPong);
    assert_eq!(bob.duration, 3_000_000);
}

#[test]
fn fly_by_fires_once_past_thirty_percent() {
    let mut motion = MotionPattern::FlyBy(FlyByMotion::new(Position::new(5000, 800, 0)));
    let start = motion.do_motion(0, Position::new(5000, 800, 0), view(false, 0));
    let tween = start.tween.unwrap();
    assert_eq!(tween.end, Position::new(-1000, 2300, 0));
    let mut signals = Vec::new();
    for p in [100, 299, 300, 500, 1000] {
        let step = motion.do_motion(0, Position::new(0, 0, 0), view(true, p));
        signals.push(step.result == MotionResult::StartFireTag);
    }
    assert_eq!(signals, vec![false, false, true, false, false]);
}

#[test]
fn bob_end_stops_at_coordinate_limit() {
    let mut motion = EnterStayMotion::new(0);
    motion.phase = EnterStayPhase::Enter;
    let step = motion.do_motion(0, Position::new(0, i32::MAX - 100, 0), view(true, 1000));
    assert_eq!(step.tween.unwrap().end.y, i32::MAX);
}

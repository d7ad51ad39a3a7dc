use kaizen::geometry::Position2;
use kaizen::lifebar::{
    BarColors, InitLifebarsEvent, Color, LifebarFillSeqPhase, LifebarHud, LifebarOrientation, UpdateLifebarsEvent,
};

const RED: Color = Color { r: 255, g: 0, b: 0, a: 255 };
const ORANGE: Color = Color { r: 255, g: 165, b: 0, a: 255 };
const YELLOW: Color = Color { r: 255, g: 255, b: 0, a: 255 };
const NONE: Color = Color { r: 0, g: 0, b: 0, a: 0 };
const HUD: u64 = 11;

fn hud(life: u64) -> LifebarHud {
    LifebarHud::new(
        LifebarOrientation::Horizontal,
        Position2 { x: 0, y: 1500 },
        Position2 { x: 0, y: 2000 },
        life,
        vec![RED, ORANGE, YELLOW],
    )
}

fn ready_hud(life: u64) -> LifebarHud {
    let mut h = hud(life);
    h.show();
    for _ in 0..4 {
        h.update(true, HUD, &vec![]);
    }
    assert_eq!(h.fill_seq, LifebarFillSeqPhase::Ready);
    h
}

fn update(remain_life: u64) -> Vec<UpdateLifebarsEvent> {
    vec![UpdateLifebarsEvent { entity: HUD, remain_life }]
}

#[test]
fn segment_selection_from_remaining_life() {
    let mut h = ready_hud(100);
    let frame = h.update(false, HUD, &update(250));
    assert_eq!(h.index, 2);
    assert_eq!(frame.over_fill, Some(50));
    assert_eq!(frame.over_fill.unwrap() as f64 / h.life as f64, 0.5);
    let frame = h.update(false, HUD, &update(0));
    assert_eq!(h.index, 0);
    assert_eq!(frame.over_fill, Some(0));
    assert_eq!(frame.over_fill.unwrap() as f64 / h.life as f64, 0.0);
    assert_eq!(frame.colors, Some(BarColors { under: NONE, over: RED }));
}

#[test]
fn show_fills_each_segment_once_in_order() {
    let mut h = hud(40);
    let slide = h.show().unwrap();
    assert_eq!(slide.start, Position2 { x: 0, y: 2000 });
    assert_eq!(slide.end, Position2 { x: 0, y: 1500 });
    assert_eq!(slide.duration, 2_500_000);
    let mut phases = vec![h.fill_seq];
    let dones = [false, true, false, true, true, false, true, true, true];
    for done in dones {
        h.update(done, HUD, &vec![]);
        if *phases.last().unwrap() != h.fill_seq {
            phases.push(h.fill_seq);
        }
    }
    assert_eq!(
        phases,
        vec![
            LifebarFillSeqPhase::SlideIn,
            LifebarFillSeqPhase::FillUp(0),
            LifebarFillSeqPhase::FillUp(1),
            LifebarFillSeqPhase::FillUp(2),
            LifebarFillSeqPhase::Ready,
        ]
    );
}

#[test]
fn fill_sequence_starts_and_restarts_fill_animation() {
    let mut h = hud(40);
    h.show();
    let first = h.update(true, HUD, &vec![]);
    assert!(first.stop_animations);
    assert_eq!(first.start_fill.unwrap().duration, 1_500_000);
    assert_eq!(first.colors, Some(BarColors { under: NONE, over: RED }));
    let second = h.update(true, HUD, &vec![]);
    assert!(second.restart_fill);
    assert_eq!(h.index, 1);
    assert_eq!(second.colors, Some(BarColors { under: RED, over: ORANGE }));
}

#[test]
fn updates_are_ignored_until_ready() {
    let mut h = hud(100);
    h.show();
    let frame = h.update(false, HUD, &update(50));
    assert_eq!(frame.over_fill, None);
    assert_eq!(h.index, 0);
}

#[test]
fn last_update_for_this_hud_wins() {
    let mut h = ready_hud(100);
    let events = vec![
        UpdateLifebarsEvent { entity: HUD, remain_life: 120 },
        UpdateLifebarsEvent { entity: HUD, remain_life: 90 },
        UpdateLifebarsEvent { entity: 99, remain_life: 280 },
    ];
    let frame = h.update(false, HUD, &events);
    assert_eq!(h.index, 0);
    assert_eq!(frame.over_fill, Some(90));
}

#[test]
fn life_beyond_bar_shows_top_segment_full() {
    let mut h = ready_hud(100);
    let frame = h.update(false, HUD, &update(300));
    assert_eq!(h.index, 2);
    assert_eq!(frame.over_fill, Some(100));
    // The fill sequence already left the top segment current.
    assert_eq!(frame.colors, None);
    h.update(false, HUD, &update(50));
    let frame = h.update(false, HUD, &update(1000));
    assert_eq!(h.index, 2);
    assert_eq!(frame.colors, Some(BarColors { under: ORANGE, over: YELLOW }));
}

#[test]
fn colors_refresh_only_on_segment_change() {
    let mut h = ready_hud(100);
    h.update(false, HUD, &update(250));
    let same = h.update(false, HUD, &update(230));
    assert_eq!(same.colors, None);
    assert_eq!(same.over_fill, Some(30));
}

#[test]
fn show_only_from_idle_and_slide_out_back_to_idle() {
    let mut h = ready_hud(100);
    assert!(h.show().is_none());
    let out = h.slide_out().unwrap();
    assert_eq!(out.end, Position2 { x: 0, y: 2000 });
    assert_eq!(h.fill_seq, LifebarFillSeqPhase::SlideOut);
    assert!(h.slide_out().is_none());
    h.update(true, HUD, &vec![]);
    assert_eq!(h.fill_seq, LifebarFillSeqPhase::Idle);
    assert!(h.show().is_some());
}

#[test]
fn new_hud_shows_full_top_segment() {
    let mut h = hud(40);
    assert_eq!(h.index, 2);
    assert_eq!(h.remain_life, 40);
    let frame = h.update(false, HUD, &vec![]);
    assert_eq!(frame.colors, Some(BarColors { under: ORANGE, over: YELLOW }));
    h.set_remain_life(10);
    assert!(h.force_update);
    assert_eq!(h.remain_life, 10);
}

#[test]
fn init_event_replaces_segments() {
    let mut h = hud(40);
    h.init(InitLifebarsEvent { entity: HUD, colors: vec![YELLOW, RED], life_per_bar: 10 });
    assert_eq!(h.lifebars.len(), 2);
    assert_eq!(h.index, 1);
    assert_eq!(h.life, 10);
    let frame = h.update(false, HUD, &vec![]);
    assert_eq!(frame.colors, Some(BarColors { under: YELLOW, over: RED }));
}

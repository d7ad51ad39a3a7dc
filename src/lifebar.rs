//! The lifebar HUD: a bar of colored segments that slides in, fills up one
//! segment after another, then follows life-change notifications.
use vstd::prelude::*;
use crate::geometry::{Easing, Position2};

verus! {

/// Length of the slide in and slide out animations, in microseconds.
pub const SLIDE_DURATION: u64 = 2_500_000;

/// Length of the fill animation of one segment, in microseconds.
pub const FILL_DURATION: u64 = 1_500_000;

/// An RGBA color.
#[derive(Clone, Copy, Debug, PartialEq, Eq, Structural)]
pub struct Color {
    pub r: u8,
    pub g: u8,
    pub b: u8,
    pub a: u8,
}

/// The fully transparent color, shown under the lowest segment.
pub open spec fn transparent() -> Color {
    Color { r: 0, g: 0, b: 0, a: 0 }
}

impl Color {
    pub fn rgba(r: u8, g: u8, b: u8, a: u8) -> (c: Color)
        ensures
            c == (Color { r, g, b, a }),
    {
        Color { r, g, b, a }
    }

    pub fn none() -> (c: Color)
        ensures
            c == transparent(),
    {
        Color { r: 0, g: 0, b: 0, a: 0 }
    }
}

/// One segment of a lifebar.
#[derive(Clone, Copy, Debug, PartialEq, Eq, Structural)]
pub struct Lifebar {
    pub color: Color,
}

/// Along which axis the bar fills.
#[derive(Clone, Copy, Debug, PartialEq, Eq, Structural)]
pub enum LifebarOrientation {
    Horizontal,
    Vertical,
}

/// Phase of the show sequence of a lifebar HUD.
#[derive(Clone, Copy, Debug, PartialEq, Eq, Structural)]
pub enum LifebarFillSeqPhase {
    /// Off-screen, waiting.
    Idle,
    /// Sliding from the hidden to the visible position.
    SlideIn,
    /// Filling the segment of the given index.
    FillUp(usize),
    /// On screen, following life updates.
    Ready,
    /// Sliding from the visible to the hidden position.
    SlideOut,
}

/// Asks a lifebar HUD to take new segments.
#[derive(Debug)]
pub struct InitLifebarsEvent {
    /// Entity of the HUD.
    pub entity: u64,
    /// Colors of the segments, from the lowest (closest to zero life) to the
    /// highest (first to take damage).
    pub colors: Vec<Color>,
    /// Life held by one segment.
    pub life_per_bar: u64,
}

/// Asks a lifebar HUD to slide in and fill up.
#[derive(Clone, Copy, Debug, PartialEq, Eq, Structural)]
pub struct ShowLifebarsEvent {
    pub entity: u64,
}

/// Tells a lifebar HUD the new remaining life of what it displays.
#[derive(Clone, Copy, Debug, PartialEq, Eq, Structural)]
pub struct UpdateLifebarsEvent {
    pub entity: u64,
    pub remain_life: u64,
}

/// A request to slide the whole bar between two positions.
#[derive(Clone, Copy, Debug, PartialEq, Eq, Structural)]
pub struct SlideTween {
    pub start: Position2,
    pub end: Position2,
    pub duration: u64,
    pub easing: Easing,
}

/// A request to grow the current segment from nothing to full along the fill
/// axis of the bar.
#[derive(Clone, Copy, Debug, PartialEq, Eq, Structural)]
pub struct FillTween {
    pub orientation: LifebarOrientation,
    pub duration: u64,
    pub easing: Easing,
}

/// The colors of the two visible layers of the bar.
#[derive(Clone, Copy, Debug, PartialEq, Eq, Structural)]
pub struct BarColors {
    /// Color of the segment below the current one.
    pub under: Color,
    /// Color of the current segment.
    pub over: Color,
}

/// What one update of the HUD asks of the renderer.
#[derive(Clone, Copy, Debug, PartialEq, Eq, Structural)]
pub struct HudFrame {
    /// Stop both animations of the bar.
    pub stop_animations: bool,
    /// Start a new fill animation.
    pub start_fill: Option<FillTween>,
    /// Play the fill animation again from its start.
    pub restart_fill: bool,
    /// Scale the current segment to this much of `life`, along the fill axis.
    pub over_fill: Option<u64>,
    /// New colors of the two layers.
    pub colors: Option<BarColors>,
}

pub struct LifebarHud {
    pub orientation: LifebarOrientation,
    pub visible_pos: Position2,
    pub hidden_pos: Position2,
    /// All segments, from the lowest to the highest.
    pub lifebars: Vec<Lifebar>,
    /// Index of the current segment.
    pub index: usize,
    /// Life held by one segment.
    pub life: u64,
    /// Life left in the current segment.
    pub remain_life: u64,
    /// Whether the next update must refresh the colors.
    pub force_update: bool,
    pub fill_seq: LifebarFillSeqPhase,
}

/// Index of the segment that shows `remain`, where each of `count` segments
/// holds `life`; a value beyond the whole bar shows the highest segment.
pub open spec fn segment_of(remain: int, life: int, count: int) -> int {
    if remain / life < count {
        remain / life
    } else {
        count - 1
    }
}

/// Life shown in the segment that shows `remain`.
pub open spec fn fill_of(remain: int, life: int, count: int) -> int {
    if remain / life < count {
        remain % life
    } else {
        life
    }
}

/// The phase after one update, where `done` tells whether the running
/// animation has finished.
pub open spec fn fill_seq_next(
    phase: LifebarFillSeqPhase,
    count: int,
    done: bool,
) -> LifebarFillSeqPhase {
    if !done {
        phase
    } else {
        match phase {
            LifebarFillSeqPhase::SlideIn => LifebarFillSeqPhase::FillUp(0),
            LifebarFillSeqPhase::FillUp(i) => if i + 1 < count {
                LifebarFillSeqPhase::FillUp((i + 1) as usize)
            } else {
                LifebarFillSeqPhase::Ready
            },
            LifebarFillSeqPhase::SlideOut => LifebarFillSeqPhase::Idle,
            _ => phase,
        }
    }
}

/// Remaining life of the last notification addressed to `entity`, if any.
pub open spec fn last_update_for(events: Seq<UpdateLifebarsEvent>, entity: u64) -> Option<u64>
    decreases events.len(),
{
    if events.len() == 0 {
        None
    } else if events.last().entity == entity {
        Some(events.last().remain_life)
    } else {
        last_update_for(events.drop_last(), entity)
    }
}

/// The remaining life of the last notification addressed to `entity`.
pub fn last_update(events: &Vec<UpdateLifebarsEvent>, entity: u64) -> (r: Option<u64>)
    ensures
        r == last_update_for(events@, entity),
{
    let mut i: usize = events.len();
    assert(events@.subrange(0, i as int) =~= events@);
    while i > 0
        invariant
            i <= events@.len(),
            last_update_for(events@, entity) == last_update_for(events@.subrange(0, i as int), entity),
        decreases i,
    {
        let ghost prefix = events@.subrange(0, i as int);
        assert(prefix.drop_last() =~= events@.subrange(0, i - 1));
        if events[i - 1].entity == entity {
            return Some(events[i - 1].remain_life);
        }
        i = i - 1;
    }
    assert(events@.subrange(0, 0) =~= Seq::<UpdateLifebarsEvent>::empty());
    None
}

impl LifebarHud {
    /// Segments exist, each holds some life, and the current index names one.
    pub open spec fn wf(&self) -> bool {
        &&& self.lifebars@.len() > 0
        &&& self.life > 0
        &&& self.index < self.lifebars@.len()
    }

    /// The colors shown while segment `index` is current.
    pub open spec fn colors_at(&self, index: int) -> BarColors {
        BarColors {
            under: if index > 0 { self.lifebars@[index - 1].color } else { transparent() },
            over: self.lifebars@[index].color,
        }
    }

    /// A hidden HUD with one segment per color, each holding `life`, shown full.
    pub fn new(
        orientation: LifebarOrientation,
        visible_pos: Position2,
        hidden_pos: Position2,
        life: u64,
        colors: Vec<Color>,
    ) -> (r: LifebarHud)
        requires
            colors@.len() > 0,
            life > 0,
        ensures
            r.wf(),
            r.orientation == orientation,
            r.visible_pos == visible_pos,
            r.hidden_pos == hidden_pos,
            r.fill_seq == LifebarFillSeqPhase::Idle,
            r.lifebars@.len() == colors@.len(),
            forall|i: int| 0 <= i < colors@.len() ==> r.lifebars@[i].color == colors@[i],
            r.index == colors@.len() - 1,
            r.life == life,
            r.remain_life == life,
            r.force_update,
    {
        let mut hud = LifebarHud {
            orientation,
            visible_pos,
            hidden_pos,
            lifebars: Vec::new(),
            index: 0,
            life: 1,
            remain_life: 0,
            force_update: false,
            fill_seq: LifebarFillSeqPhase::Idle,
        };
        hud.set_lifebars(life, colors);
        hud
    }

    /// Replaces the segments by one per color, each holding `life`, and shows
    /// them full.
    pub fn set_lifebars(&mut self, life: u64, colors: Vec<Color>)
        requires
            colors@.len() > 0,
            life > 0,
        ensures
            final(self).wf(),
            final(self).lifebars@.len() == colors@.len(),
            forall|i: int| 0 <= i < colors@.len() ==> final(self).lifebars@[i].color == colors@[i],
            final(self).index == colors@.len() - 1,
            final(self).life == life,
            final(self).remain_life == life,
            final(self).force_update,
            final(self).fill_seq == old(self).fill_seq,
            final(self).orientation == old(self).orientation,
            final(self).visible_pos == old(self).visible_pos,
            final(self).hidden_pos == old(self).hidden_pos,
    {
        let mut bars: Vec<Lifebar> = Vec::new();
        let mut i: usize = 0;
        while i < colors.len()
            invariant
                i <= colors@.len(),
                bars@.len() == i,
                forall|j: int| 0 <= j < i ==> bars@[j].color == colors@[j],
            decreases colors@.len() - i,
        {
            bars.push(Lifebar { color: colors[i] });
            i = i + 1;
        }
        self.index = colors.len() - 1;
        self.lifebars = bars;
        self.life = life;
        self.remain_life = life;
        self.force_update = true;
    }

    /// Takes the segments that `ev` describes.
    pub fn init(&mut self, ev: InitLifebarsEvent)
        requires
            ev.colors@.len() > 0,
            ev.life_per_bar > 0,
        ensures
            final(self).wf(),
            final(self).lifebars@.len() == ev.colors@.len(),
            forall|i: int|
                0 <= i < ev.colors@.len() ==> final(self).lifebars@[i].color == ev.colors@[i],
            final(self).index == ev.colors@.len() - 1,
            final(self).life == ev.life_per_bar,
            final(self).remain_life == ev.life_per_bar,
            final(self).force_update,
            final(self).fill_seq == old(self).fill_seq,
    {
        self.set_lifebars(ev.life_per_bar, ev.colors);
    }

    /// Sets the life left in the current segment and asks for a refresh.
    pub fn set_remain_life(&mut self, remain_life: u64)
        ensures
            *final(self) == (LifebarHud { remain_life, force_update: true, ..*old(self) }),
    {
        self.remain_life = remain_life;
        self.force_update = true;
    }

    /// Starts the show sequence of a hidden HUD: the bar slides in from the
    /// hidden position and the lowest segment becomes current. Elsewhere nothing
    /// happens.
    pub fn show(&mut self) -> (r: Option<SlideTween>)
        ensures
            old(self).fill_seq == LifebarFillSeqPhase::Idle ==> {
                &&& final(self).fill_seq == LifebarFillSeqPhase::SlideIn
                &&& final(self).index == 0
                &&& r == Some(SlideTween {
                    start: old(self).hidden_pos,
                    end: old(self).visible_pos,
                    duration: SLIDE_DURATION,
                    easing: Easing::Linear,
                })
                &&& *final(self) == (LifebarHud {
                    fill_seq: LifebarFillSeqPhase::SlideIn,
                    index: 0,
                    ..*old(self)
                })
            },
            old(self).fill_seq != LifebarFillSeqPhase::Idle ==> {
                &&& r.is_none()
                &&& *final(self) == *old(self)
            },
            old(self).wf() ==> final(self).wf(),
    {
        if self.fill_seq == LifebarFillSeqPhase::Idle {
            self.fill_seq = LifebarFillSeqPhase::SlideIn;
            self.index = 0;
            Some(SlideTween {
                start: self.hidden_pos,
                end: self.visible_pos,
                duration: SLIDE_DURATION,
                easing: Easing::Linear,
            })
        } else {
            None
        }
    }

    /// Starts hiding a HUD that is on screen: the bar slides back to the
    /// hidden position, and becomes idle when that animation ends. Elsewhere
    /// nothing happens. Life reaching zero does not hide the bar by itself:
    /// whoever owns the HUD decides when to call this.
    pub fn slide_out(&mut self) -> (r: Option<SlideTween>)
        ensures
            old(self).fill_seq == LifebarFillSeqPhase::Ready ==> {
                &&& r == Some(SlideTween {
                    start: old(self).visible_pos,
                    end: old(self).hidden_pos,
                    duration: SLIDE_DURATION,
                    easing: Easing::Linear,
                })
                &&& *final(self) == (LifebarHud {
                    fill_seq: LifebarFillSeqPhase::SlideOut,
                    ..*old(self)
                })
            },
            old(self).fill_seq != LifebarFillSeqPhase::Ready ==> {
                &&& r.is_none()
                &&& *final(self) == *old(self)
            },
    {
        if self.fill_seq == LifebarFillSeqPhase::Ready {
            self.fill_seq = LifebarFillSeqPhase::SlideOut;
            Some(SlideTween {
                start: self.visible_pos,
                end: self.hidden_pos,
                duration: SLIDE_DURATION,
                easing: Easing::Linear,
            })
        } else {
            None
        }
    }

    /// Whether this update moves the fill sequence to a segment of its own.
    pub open spec fn advances_fill(&self, done: bool) -> bool {
        done && match self.fill_seq {
            LifebarFillSeqPhase::FillUp(i) => i + 1 < self.lifebars@.len(),
            _ => false,
        }
    }

    /// The current index once the fill sequence has moved.
    pub open spec fn index_after_fill(&self, done: bool) -> int {
        if self.advances_fill(done) {
            match self.fill_seq {
                LifebarFillSeqPhase::FillUp(i) => i + 1,
                _ => self.index as int,
            }
        } else {
            self.index as int
        }
    }

    /// The life update this frame applies: the last one addressed to `entity`,
    /// taken only once the bar is ready.
    pub open spec fn applied_update(
        &self,
        done: bool,
        entity: u64,
        events: Seq<UpdateLifebarsEvent>,
    ) -> Option<u64> {
        if fill_seq_next(self.fill_seq, self.lifebars@.len() as int, done)
            == LifebarFillSeqPhase::Ready {
            last_update_for(events, entity)
        } else {
            None
        }
    }

    /// One frame of the HUD of `entity`.
    ///
    /// `done` tells whether the running animation of the bar has finished;
    /// `events` are the life updates of this frame, for every HUD. A finished
    /// animation moves the show sequence on: the slide in is followed by the
    /// fill of each segment from the lowest up, then by the ready state, and
    /// the slide out by the idle state. Once ready, the last update addressed
    /// to this HUD selects the segment and how full it is drawn. Colors are
    /// refreshed whenever the current segment changes or a refresh was asked.
    pub fn update(
        &mut self,
        done: bool,
        entity: u64,
        events: &Vec<UpdateLifebarsEvent>,
    ) -> (r: HudFrame)
        requires
            old(self).wf(),
        ensures
            final(self).wf(),
            final(self).fill_seq == fill_seq_next(
                old(self).fill_seq,
                old(self).lifebars@.len() as int,
                done,
            ),
            r.stop_animations == done,
            r.start_fill == (if done && old(self).fill_seq == LifebarFillSeqPhase::SlideIn {
                Some(
                    FillTween {
                        orientation: old(self).orientation,
                        duration: FILL_DURATION,
                        easing: Easing::Linear,
                    },
                )
            } else {
                None
            }),
            r.restart_fill == old(self).advances_fill(done),
            match old(self).applied_update(done, entity, events@) {
                Some(v) => {
                    let count = old(self).lifebars@.len() as int;
                    &&& final(self).index == segment_of(v as int, old(self).life as int, count)
                    &&& final(self).remain_life == fill_of(v as int, old(self).life as int, count)
                    &&& r.over_fill == Some(final(self).remain_life)
                },
                None => {
                    &&& final(self).index == old(self).index_after_fill(done)
                    &&& final(self).remain_life == old(self).remain_life
                    &&& r.over_fill.is_none()
                },
            },
            r.colors == (if old(self).force_update
                || (done && old(self).fill_seq == LifebarFillSeqPhase::SlideIn)
                || old(self).advances_fill(done)
                || final(self).index != old(self).index_after_fill(done) {
                Some(final(self).colors_at(final(self).index as int))
            } else {
                None
            }),
            !final(self).force_update,
            final(self).lifebars == old(self).lifebars,
            final(self).life == old(self).life,
            final(self).orientation == old(self).orientation,
            final(self).visible_pos == old(self).visible_pos,
            final(self).hidden_pos == old(self).hidden_pos,
    {
        let mut need_color_update = self.force_update;
        self.force_update = false;
        let mut start_fill: Option<FillTween> = None;
        let mut restart_fill = false;
        if done {
            match self.fill_seq {
                LifebarFillSeqPhase::SlideIn => {
                    self.fill_seq = LifebarFillSeqPhase::FillUp(0);
                    need_color_update = true;
                    start_fill = Some(
                        FillTween {
                            orientation: self.orientation,
                            duration: FILL_DURATION,
                            easing: Easing::Linear,
                        },
                    );
                },
                LifebarFillSeqPhase::FillUp(bar_index) => {
                    if bar_index < self.lifebars.len() - 1 {
                        self.index = bar_index + 1;
                        self.fill_seq = LifebarFillSeqPhase::FillUp(bar_index + 1);
                        restart_fill = true;
                        need_color_update = true;
                    } else {
                        self.fill_seq = LifebarFillSeqPhase::Ready;
                    }
                },
                LifebarFillSeqPhase::SlideOut => {
                    self.fill_seq = LifebarFillSeqPhase::Idle;
                },
                _ => {},
            }
        }
        let mut over_fill: Option<u64> = None;
        if self.fill_seq == LifebarFillSeqPhase::Ready {
            if let Some(remain) = last_update(events, entity) {
                let count = self.lifebars.len();
                let bar = remain / self.life;
                let (new_index, fill) = if bar < count as u64 {
                    (bar as usize, remain % self.life)
                } else {
                    (count - 1, self.life)
                };
                self.remain_life = fill;
                if self.index != new_index {
                    self.index = new_index;
                    need_color_update = true;
                }
                over_fill = Some(fill);
            }
        }
        let colors = if need_color_update {
            let over = self.lifebars[self.index].color;
            let under = if self.index > 0 {
                self.lifebars[self.index - 1].color
            } else {
                Color::none()
            };
            Some(BarColors { under, over })
        } else {
            None
        };
        HudFrame { stop_animations: done, start_fill, restart_fill, over_fill, colors }
    }
}

/// Number of finished animations among the frames `dones`.
pub open spec fn completions(dones: Seq<bool>) -> nat
    decreases dones.len(),
{
    if dones.len() == 0 {
        0
    } else {
        completions(dones.drop_last()) + if dones.last() { 1nat } else { 0nat }
    }
}

/// The phase after the frames `dones`, starting from `phase`.
pub open spec fn fill_seq_after(
    phase: LifebarFillSeqPhase,
    count: int,
    dones: Seq<bool>,
) -> LifebarFillSeqPhase
    decreases dones.len(),
{
    if dones.len() == 0 {
        phase
    } else {
        fill_seq_next(fill_seq_after(phase, count, dones.drop_last()), count, dones.last())
    }
}

/// The phase of a show sequence after `c` finished animations.
pub open spec fn show_phase(count: int, c: int) -> LifebarFillSeqPhase {
    if c == 0 {
        LifebarFillSeqPhase::SlideIn
    } else if c <= count {
        LifebarFillSeqPhase::FillUp((c - 1) as usize)
    } else {
        LifebarFillSeqPhase::Ready
    }
}

/// Once a bar of `count` segments has started to slide in, its phase depends
/// only on how many of its animations have finished: after `c` of them it is
/// filling segment `c - 1` while `c <= count`, and ready after that. So each
/// segment is filled exactly once per show, from the lowest up, and all of
/// them before the bar is ready.
pub proof fn lemma_fill_sequence(count: int, dones: Seq<bool>)
    requires
        0 < count <= usize::MAX,
    ensures
        fill_seq_after(LifebarFillSeqPhase::SlideIn, count, dones)
            == show_phase(count, completions(dones) as int),
    decreases dones.len(),
{
    if dones.len() > 0 {
        lemma_fill_sequence(count, dones.drop_last());
    }
}

/// While a bar of well-formed segments fills, the current segment is the one
/// being filled: the slide in leaves segment 0 current (as `show` set it)
/// when filling it starts, and each finished fill of segment `i` below the
/// top makes segment `i + 1` current as its fill starts.
pub proof fn lemma_fill_index(h: LifebarHud)
    requires
        h.wf(),
    ensures
        h.fill_seq == LifebarFillSeqPhase::SlideIn ==> {
            &&& fill_seq_next(h.fill_seq, h.lifebars@.len() as int, true)
                == LifebarFillSeqPhase::FillUp(0)
            &&& h.index_after_fill(true) == h.index
        },
        h.fill_seq matches LifebarFillSeqPhase::FillUp(i) ==> (i + 1 < h.lifebars@.len() ==> {
            &&& fill_seq_next(h.fill_seq, h.lifebars@.len() as int, true)
                == LifebarFillSeqPhase::FillUp((i + 1) as usize)
            &&& h.index_after_fill(true) == i + 1
        }),
{
}

} // verus!

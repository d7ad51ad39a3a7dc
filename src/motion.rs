//! Motion patterns: per-enemy movement state machines that also tell when the
//! enemy starts to fire.
use vstd::prelude::*;
use crate::geometry::{offset_spec, Easing, Position, PositionTween, Repeat, PROGRESS_DONE};

verus! {

/// X coordinate where an entering enemy appears, off screen.
pub const ENTER_START_X: i32 = 5000;

/// X coordinate where an entering enemy stops.
pub const ENTER_STOP_X: i32 = 2000;

/// Length of the entering move, in microseconds.
pub const ENTER_DURATION: u64 = 5_000_000;

/// Height of the vertical bob of a staying enemy.
pub const STAY_BOB_HEIGHT: i32 = 600;

/// Length of one pass of the bob, in microseconds.
pub const STAY_BOB_DURATION: u64 = 3_000_000;

/// Length of a fly-by, in microseconds.
pub const FLY_BY_DURATION: u64 = 5_000_000;

/// How many times its direction a fly-by travels.
pub const FLY_BY_DISTANCE: i32 = 6;

/// Progress of the fly-by, in thousandths, from which it fires.
pub const FLY_BY_FIRE_PROGRESS: u32 = 300;

/// Forward part of a fly-by direction.
pub const FLY_BY_FORWARD: i32 = -1000;

/// Vertical part of a fly-by direction.
pub const FLY_BY_RISE: i32 = 250;

/// What a motion step asks of the enemy.
#[derive(Clone, Copy, Debug, PartialEq, Eq, Structural)]
pub enum MotionResult {
    DoNothing,
    StartFireTag,
}

/// The state of the position animation of an enemy, as last observed.
#[derive(Clone, Copy, Debug, PartialEq, Eq, Structural)]
pub struct AnimatorView {
    /// Whether an animation has been started.
    pub playing: bool,
    /// Progress of the running animation, in thousandths.
    pub progress: u32,
}

/// One motion step: the signal, and what to do with the enemy's transform.
#[derive(Clone, Copy, Debug, PartialEq, Eq, Structural)]
pub struct MotionStep {
    pub result: MotionResult,
    /// Place the enemy here before anything else.
    pub teleport: Option<Position>,
    /// Start this animation, replacing the running one.
    pub tween: Option<PositionTween>,
}

#[derive(Clone, Copy, Debug, PartialEq, Eq, Structural)]
pub enum EnterStayPhase {
    Idle,
    Enter,
    Stay,
}

/// Enters from the right at a fixed height, then bobs up and down in place.
#[derive(Clone, Copy, Debug, PartialEq, Eq, Structural)]
pub struct EnterStayMotion {
    pub phase: EnterStayPhase,
    pub enter_height: i32,
}

/// The phase after a step that observes `progress`.
pub open spec fn enter_stay_next(phase: EnterStayPhase, progress: u32) -> EnterStayPhase {
    match phase {
        EnterStayPhase::Idle => EnterStayPhase::Enter,
        EnterStayPhase::Enter => if progress >= PROGRESS_DONE {
            EnterStayPhase::Stay
        } else {
            EnterStayPhase::Enter
        },
        EnterStayPhase::Stay => EnterStayPhase::Stay,
    }
}

/// Whether a step that observes `progress` signals the start of fire.
pub open spec fn enter_stay_signals(phase: EnterStayPhase, progress: u32) -> bool {
    phase == EnterStayPhase::Enter && progress >= PROGRESS_DONE
}

impl EnterStayMotion {
    pub fn new(enter_height: i32) -> (r: EnterStayMotion)
        ensures
            r == (EnterStayMotion { phase: EnterStayPhase::Idle, enter_height }),
    {
        EnterStayMotion { phase: EnterStayPhase::Idle, enter_height }
    }

    /// The state after a step that observes `animator`.
    pub open spec fn next(&self, animator: AnimatorView) -> EnterStayMotion {
        EnterStayMotion { phase: enter_stay_next(self.phase, animator.progress), ..*self }
    }

    /// What a step at `translation` that observes `animator` asks.
    pub open spec fn step(&self, translation: Position, animator: AnimatorView) -> MotionStep {
        match self.phase {
            EnterStayPhase::Idle => {
                let start = Position { x: ENTER_START_X, y: self.enter_height, z: 0 };
                MotionStep {
                    result: MotionResult::DoNothing,
                    teleport: Some(start),
                    tween: Some(
                        PositionTween {
                            start,
                            end: Position { x: ENTER_STOP_X, y: self.enter_height, z: 0 },
                            duration: ENTER_DURATION,
                            easing: Easing::QuadraticOut,
                            repeat: Repeat::Once,
                        },
                    ),
                }
            },
            EnterStayPhase::Enter => if animator.progress >= PROGRESS_DONE {
                MotionStep {
                    result: MotionResult::StartFireTag,
                    teleport: None,
                    tween: Some(
                        PositionTween {
                            start: translation,
                            end: offset_spec(translation, 0, STAY_BOB_HEIGHT as int, 0),
                            duration: STAY_BOB_DURATION,
                            easing: Easing::QuadraticInOut,
                            repeat: Repeat::PingPong,
                        },
                    ),
                }
            } else {
                MotionStep { result: MotionResult::DoNothing, teleport: None, tween: None }
            },
            EnterStayPhase::Stay => MotionStep {
                result: MotionResult::DoNothing,
                teleport: None,
                tween: None,
            },
        }
    }

    /// One step: the first teleports off screen and starts the entering move;
    /// when that move has finished, starts the bob and signals fire, once.
    pub fn do_motion(&mut self, dt: u64, translation: Position, animator: AnimatorView) -> (r:
        MotionStep)
        ensures
            *final(self) == old(self).next(animator),
            final(self).phase == enter_stay_next(old(self).phase, animator.progress),
            (r.result == MotionResult::StartFireTag) == enter_stay_signals(
                old(self).phase,
                animator.progress,
            ),
            r == old(self).step(translation, animator),
    {
        match self.phase {
            EnterStayPhase::Idle => {
                self.phase = EnterStayPhase::Enter;
                let start = Position { x: ENTER_START_X, y: self.enter_height, z: 0 };
                MotionStep {
                    result: MotionResult::DoNothing,
                    teleport: Some(start),
                    tween: Some(
                        PositionTween {
                            start,
                            end: Position { x: ENTER_STOP_X, y: self.enter_height, z: 0 },
                            duration: ENTER_DURATION,
                            easing: Easing::QuadraticOut,
                            repeat: Repeat::Once,
                        },
                    ),
                }
            },
            EnterStayPhase::Enter => {
                if animator.progress >= PROGRESS_DONE {
                    self.phase = EnterStayPhase::Stay;
                    MotionStep {
                        result: MotionResult::StartFireTag,
                        teleport: None,
                        tween: Some(
                            PositionTween {
                                start: translation,
                                end: translation.offset(0, STAY_BOB_HEIGHT, 0),
                                duration: STAY_BOB_DURATION,
                                easing: Easing::QuadraticInOut,
                                repeat: Repeat::PingPong,
                            },
                        ),
                    }
                } else {
                    MotionStep { result: MotionResult::DoNothing, teleport: None, tween: None }
                }
            },
            EnterStayPhase::Stay => MotionStep {
                result: MotionResult::DoNothing,
                teleport: None,
                tween: None,
            },
        }
    }
}

/// Crosses the screen once along a straight line.
#[derive(Clone, Copy, Debug, PartialEq, Eq, Structural)]
pub struct FlyByMotion {
    pub start: Position,
    pub direction: Position,
    pub has_fired: bool,
}

/// Direction of a fly-by that starts at height `y`: forward and away from the
/// middle of the screen.
pub open spec fn fly_by_direction(y: i32) -> Position {
    Position { x: FLY_BY_FORWARD, y: if y > 0 { FLY_BY_RISE } else { (-FLY_BY_RISE) as i32 }, z: 0 }
}

impl FlyByMotion {
    /// A fly-by from `start`.
    pub fn new(start: Position) -> (r: FlyByMotion)
        ensures
            r == (FlyByMotion {
                start,
                direction: fly_by_direction(start.y),
                has_fired: false,
            }),
            r.wf(),
    {
        let rise = if start.y > 0 {
            FLY_BY_RISE
        } else {
            -FLY_BY_RISE
        };
        FlyByMotion {
            start,
            direction: Position { x: FLY_BY_FORWARD, y: rise, z: 0 },
            has_fired: false,
        }
    }

    /// Where the fly-by ends.
    pub open spec fn end(&self) -> Position {
        offset_spec(
            self.start,
            self.direction.x * FLY_BY_DISTANCE,
            self.direction.y * FLY_BY_DISTANCE,
            self.direction.z * FLY_BY_DISTANCE,
        )
    }

    /// Whether a step that observes `animator` signals the start of fire.
    pub open spec fn signals(&self, animator: AnimatorView) -> bool {
        animator.playing && !self.has_fired && animator.progress >= FLY_BY_FIRE_PROGRESS
    }

    /// Directions stay small enough that the end of the move is exact.
    pub open spec fn wf(&self) -> bool {
        &&& -1000 <= self.direction.x <= 1000
        &&& -1000 <= self.direction.y <= 1000
        &&& -1000 <= self.direction.z <= 1000
    }

    /// The state after a step that observes `animator`.
    pub open spec fn next(&self, animator: AnimatorView) -> FlyByMotion {
        FlyByMotion { has_fired: self.has_fired || self.signals(animator), ..*self }
    }

    /// What a step that observes `animator` asks.
    pub open spec fn step(&self, animator: AnimatorView) -> MotionStep {
        MotionStep {
            result: if self.signals(animator) {
                MotionResult::StartFireTag
            } else {
                MotionResult::DoNothing
            },
            teleport: None,
            tween: if animator.playing {
                None
            } else {
                Some(
                    PositionTween {
                        start: self.start,
                        end: self.end(),
                        duration: FLY_BY_DURATION,
                        easing: Easing::QuadraticOut,
                        repeat: Repeat::Once,
                    },
                )
            },
        }
    }

    /// One step: the first starts the move; once the move is 30% done, signals
    /// fire, once.
    pub fn do_motion(&mut self, dt: u64, translation: Position, animator: AnimatorView) -> (r:
        MotionStep)
        requires
            old(self).wf(),
        ensures
            *final(self) == old(self).next(animator),
            final(self).has_fired == (old(self).has_fired || old(self).signals(animator)),
            (r.result == MotionResult::StartFireTag) == old(self).signals(animator),
            r == old(self).step(animator),
    {
        if !animator.playing {
            let end = self.start.offset(
                self.direction.x * FLY_BY_DISTANCE,
                self.direction.y * FLY_BY_DISTANCE,
                self.direction.z * FLY_BY_DISTANCE,
            );
            MotionStep {
                result: MotionResult::DoNothing,
                teleport: None,
                tween: Some(
                    PositionTween {
                        start: self.start,
                        end,
                        duration: FLY_BY_DURATION,
                        easing: Easing::QuadraticOut,
                        repeat: Repeat::Once,
                    },
                ),
            }
        } else if !self.has_fired && animator.progress >= FLY_BY_FIRE_PROGRESS {
            self.has_fired = true;
            MotionStep { result: MotionResult::StartFireTag, teleport: None, tween: None }
        } else {
            MotionStep { result: MotionResult::DoNothing, teleport: None, tween: None }
        }
    }
}

/// The motion pattern of one enemy.
#[derive(Clone, Copy, Debug, PartialEq, Eq, Structural)]
pub enum MotionPattern {
    EnterStay(EnterStayMotion),
    FlyBy(FlyByMotion),
}

impl MotionPattern {
    pub open spec fn wf(&self) -> bool {
        match self {
            MotionPattern::EnterStay(_) => true,
            MotionPattern::FlyBy(m) => m.wf(),
        }
    }

    pub open spec fn next(&self, animator: AnimatorView) -> MotionPattern {
        match self {
            MotionPattern::EnterStay(m) => MotionPattern::EnterStay(m.next(animator)),
            MotionPattern::FlyBy(m) => MotionPattern::FlyBy(m.next(animator)),
        }
    }

    pub open spec fn step(&self, translation: Position, animator: AnimatorView) -> MotionStep {
        match self {
            MotionPattern::EnterStay(m) => m.step(translation, animator),
            MotionPattern::FlyBy(m) => m.step(animator),
        }
    }

    /// One step of whichever pattern this is. `dt` is the length of the tick;
    /// both patterns follow their animation's progress rather than time.
    pub fn do_motion(&mut self, dt: u64, translation: Position, animator: AnimatorView) -> (r:
        MotionStep)
        requires
            old(self).wf(),
        ensures
            final(self).wf(),
            *final(self) == old(self).next(animator),
            r == old(self).step(translation, animator),
    {
        match self {
            MotionPattern::EnterStay(m) => m.do_motion(dt, translation, animator),
            MotionPattern::FlyBy(m) => m.do_motion(dt, translation, animator),
        }
    }
}

/// Phase of an enter-and-stay motion after the first `k` steps of `progress`,
/// which holds the animation progress observed at each step.
pub open spec fn enter_stay_after(progress: Seq<u32>, k: int) -> EnterStayPhase
    decreases k,
{
    if k <= 0 {
        EnterStayPhase::Idle
    } else {
        enter_stay_next(enter_stay_after(progress, k - 1), progress[k - 1])
    }
}

proof fn lemma_enter_stay_phase(progress: Seq<u32>, k: int)
    requires
        0 <= k <= progress.len(),
    ensures
        enter_stay_after(progress, k) == if k == 0 {
            EnterStayPhase::Idle
        } else if exists|j: int| 1 <= j < k && progress[j] >= PROGRESS_DONE {
            EnterStayPhase::Stay
        } else {
            EnterStayPhase::Enter
        },
    decreases k,
{
    if k > 0 {
        lemma_enter_stay_phase(progress, k - 1);
        if k > 1 && progress[k - 1] >= PROGRESS_DONE {
            assert(1 <= k - 1 < k && progress[k - 1] >= PROGRESS_DONE);
        }
        if exists|j: int| 1 <= j < k - 1 && progress[j] >= PROGRESS_DONE {
            let j = choose|j: int| 1 <= j < k - 1 && progress[j] >= PROGRESS_DONE;
            assert(1 <= j < k && progress[j] >= PROGRESS_DONE);
        }
    }
}

/// An enter-and-stay motion signals the start of fire exactly once: at the
/// first step after the first whose observed progress shows the entering move
/// finished, never before and never after.
pub proof fn lemma_enter_stay_fires_once(progress: Seq<u32>)
    ensures
        forall|i: int|
            0 <= i < progress.len() ==> (enter_stay_signals(
                #[trigger] enter_stay_after(progress, i),
                progress[i],
            ) <==> (i >= 1 && progress[i] >= PROGRESS_DONE && forall|j: int|
                1 <= j < i ==> progress[j] < PROGRESS_DONE)),
{
    assert forall|i: int| 0 <= i < progress.len() implies (enter_stay_signals(
        #[trigger] enter_stay_after(progress, i),
        progress[i],
    ) <==> (i >= 1 && progress[i] >= PROGRESS_DONE && forall|j: int|
        1 <= j < i ==> progress[j] < PROGRESS_DONE)) by {
        lemma_enter_stay_phase(progress, i);
    }
}

} // verus!

//! Units and plain geometric values shared by every part of the simulation.
//!
//! Durations are counted in microseconds, lengths in thousandths of a world
//! unit, angles in fractions of a turn, and animation progress in thousandths.
use vstd::prelude::*;

verus! {

/// Microseconds in one second.
pub const MICROS_PER_SECOND: u64 = 1_000_000;

/// Angle units in one full turn.
///
/// The value is a multiple of every integer from 1 to 16, so that a turn split
/// into that many equal arms has an exact integer spacing.
pub const TURN: u64 = 720_720_000;

/// Angle units in half a turn (an angle of pi).
pub const HALF_TURN: u64 = 360_360_000;

/// Angle units in one degree.
pub const DEGREE: u64 = 2_002_000;

/// Animation progress of a finished animation, in thousandths.
pub const PROGRESS_DONE: u32 = 1000;

/// Clamps a mathematical integer into the range of `i32`.
pub open spec fn clamp_i32(v: int) -> int {
    if v > i32::MAX {
        i32::MAX as int
    } else if v < i32::MIN {
        i32::MIN as int
    } else {
        v
    }
}

/// `v` clamped to `u64::MAX`: a duration that stops at the largest
/// representable one.
pub open spec fn sat_time(v: int) -> int {
    if v > u64::MAX {
        u64::MAX as int
    } else {
        v
    }
}

/// Adds a signed offset to a coordinate, stopping at the ends of `i32`.
pub fn shift(a: i32, d: i32) -> (r: i32)
    ensures
        r == clamp_i32(a + d),
{
    let s: i64 = a as i64 + d as i64;
    if s > i32::MAX as i64 {
        i32::MAX
    } else if s < i32::MIN as i64 {
        i32::MIN
    } else {
        s as i32
    }
}

/// Adds two durations, stopping at the largest representable one.
pub fn add_time(a: u64, b: u64) -> (r: u64)
    ensures
        r == sat_time(a + b),
{
    a.saturating_add(b)
}

/// A point in the world, in thousandths of a world unit.
#[derive(Clone, Copy, Debug, PartialEq, Eq, Structural)]
pub struct Position {
    pub x: i32,
    pub y: i32,
    pub z: i32,
}

/// A point of the screen plane, in thousandths of a world unit.
#[derive(Clone, Copy, Debug, PartialEq, Eq, Structural)]
pub struct Position2 {
    pub x: i32,
    pub y: i32,
}

/// A direction that need not have unit length.
#[derive(Clone, Copy, Debug, PartialEq, Eq, Structural)]
pub struct Direction {
    pub dx: i64,
    pub dy: i64,
    pub dz: i64,
}

/// `p` moved by `(dx, dy, dz)`, each coordinate clamped to `i32`.
pub open spec fn offset_spec(p: Position, dx: int, dy: int, dz: int) -> Position {
    Position {
        x: clamp_i32(p.x + dx) as i32,
        y: clamp_i32(p.y + dy) as i32,
        z: clamp_i32(p.z + dz) as i32,
    }
}

impl Position {
    pub fn new(x: i32, y: i32, z: i32) -> (r: Position)
        ensures
            r == (Position { x, y, z }),
    {
        Position { x, y, z }
    }

    /// This point moved by `(dx, dy, dz)`; a coordinate that would leave the
    /// range of `i32` stops at its end.
    pub fn offset(&self, dx: i32, dy: i32, dz: i32) -> (r: Position)
        ensures
            r == offset_spec(*self, dx as int, dy as int, dz as int),
    {
        Position { x: shift(self.x, dx), y: shift(self.y, dy), z: shift(self.z, dz) }
    }
}

/// The vector from `from` to `to`.
pub open spec fn difference(from: Position, to: Position) -> Direction {
    Direction {
        dx: (to.x - from.x) as i64,
        dy: (to.y - from.y) as i64,
        dz: (to.z - from.z) as i64,
    }
}

/// The vector from `from` to `to`, exact since each coordinate fits in `i32`.
pub fn direction_between(from: Position, to: Position) -> (r: Direction)
    ensures
        r == difference(from, to),
        r.dx == to.x - from.x,
        r.dy == to.y - from.y,
        r.dz == to.z - from.z,
{
    Direction {
        dx: to.x as i64 - from.x as i64,
        dy: to.y as i64 - from.y as i64,
        dz: to.z as i64 - from.z as i64,
    }
}

/// Easing curve of an animation.
#[derive(Clone, Copy, Debug, PartialEq, Eq, Structural)]
pub enum Easing {
    Linear,
    QuadraticOut,
    QuadraticInOut,
}

/// What an animation does when it reaches its end.
#[derive(Clone, Copy, Debug, PartialEq, Eq, Structural)]
pub enum Repeat {
    /// Stops at the end.
    Once,
    /// Plays back and forth forever.
    PingPong,
}

/// A request to animate a position from `start` to `end`.
#[derive(Clone, Copy, Debug, PartialEq, Eq, Structural)]
pub struct PositionTween {
    pub start: Position,
    pub end: Position,
    /// Length of one pass, in microseconds.
    pub duration: u64,
    pub easing: Easing,
    pub repeat: Repeat,
}

/// The visible play area, centered on the origin, grown by a margin.
#[derive(Clone, Copy, Debug, PartialEq, Eq, Structural)]
pub struct ScreenBounds {
    pub half_width: i32,
    pub half_height: i32,
}

pub open spec fn abs_int(v: int) -> int {
    if v < 0 {
        -v
    } else {
        v
    }
}

impl ScreenBounds {
    pub open spec fn outside(&self, p: Position) -> bool {
        abs_int(p.x as int) > self.half_width || abs_int(p.y as int) > self.half_height
    }

    /// Whether `p` lies beyond the area on either axis.
    pub fn is_outside(&self, p: Position) -> (r: bool)
        ensures
            r == self.outside(p),
    {
        let x = p.x as i64;
        let y = p.y as i64;
        let ax = if x < 0 {
            -x
        } else {
            x
        };
        let ay = if y < 0 {
            -y
        } else {
            y
        };
        ax > self.half_width as i64 || ay > self.half_height as i64
    }
}

/// An entity and where it is.
#[derive(Clone, Copy, Debug, PartialEq, Eq, Structural)]
pub struct Placed {
    pub entity: u64,
    pub position: Position,
}

/// The entities of `items` that lie outside `bounds`, in order.
pub open spec fn outside_of(bounds: ScreenBounds, items: Seq<Placed>) -> Seq<u64>
    decreases items.len(),
{
    if items.len() == 0 {
        Seq::empty()
    } else {
        outside_of(bounds, items.drop_last()) + if bounds.outside(items.last().position) {
            seq![items.last().entity]
        } else {
            Seq::empty()
        }
    }
}

/// The bullets that have left the play area and are to be removed.
pub fn despawn_bullets_outside_screen(bounds: ScreenBounds, bullets: &Vec<Placed>) -> (r: Vec<
    u64,
>)
    ensures
        r@ == outside_of(bounds, bullets@),
{
    let mut out: Vec<u64> = Vec::new();
    let mut i: usize = 0;
    while i < bullets.len()
        invariant
            i <= bullets@.len(),
            out@ == outside_of(bounds, bullets@.subrange(0, i as int)),
        decreases bullets@.len() - i,
    {
        assert(bullets@.subrange(0, i + 1).drop_last() =~= bullets@.subrange(0, i as int));
        let b = bullets[i];
        let ghost before = out@;
        if bounds.is_outside(b.position) {
            out.push(b.entity);
        }
        assert(out@ =~= before + if bounds.outside(b.position) {
            seq![b.entity]
        } else {
            Seq::<u64>::empty()
        });
        i = i + 1;
    }
    assert(bullets@.subrange(0, i as int) =~= bullets@);
    out
}

} // verus!

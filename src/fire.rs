//! Fire patterns: per-enemy state machines that emit bullets over time.
use vstd::prelude::*;
use crate::collision::Layer;
use crate::geometry::{
    add_time, difference, direction_between, sat_time, Direction, Position, HALF_TURN,
    MICROS_PER_SECOND, TURN, DEGREE,
};

verus! {

/// Volleys in one cycle of the spiral's safe lane.
pub const SAFE_LANE_CYCLE: u32 = 25;

/// Volleys at the start of each cycle that leave the safe lane open.
pub const SAFE_LANE_VOLLEYS: u32 = 5;

/// Angle that the spiral's safe lane is kept closest to.
pub const AIM_REFERENCE: u64 = HALF_TURN;

/// Default time between two volleys or two shots, in microseconds.
pub const DEFAULT_FIRE_DELAY: u64 = 40_000;

/// Default turning speed of a spiral: 35 degrees per second.
pub const DEFAULT_ROTATE_SPEED: u64 = 35 * DEGREE;

/// Visual asset set of a bullet.
#[derive(Clone, Copy, Debug, PartialEq, Eq, Structural, Hash)]
pub enum BulletKind {
    PinkDonut,
    WhiteBall,
    /// The player's own shot.
    PlayerShot,
}

/// Which way a bullet flies.
#[derive(Clone, Copy, Debug, PartialEq, Eq, Structural)]
pub enum Heading {
    /// Rotated by this angle about the Z axis from the +X axis.
    Angle(u64),
    /// Along this vector, which is never zero.
    Toward(Direction),
}

/// A request to spawn one bullet.
#[derive(Clone, Copy, Debug, PartialEq, Eq, Structural)]
pub struct BulletSpawn {
    pub origin: Position,
    pub heading: Heading,
    /// Speed in thousandths of a world unit per second.
    pub speed: u32,
    pub kind: BulletKind,
    pub layer: Layer,
}

/// A spiral of evenly spaced arms that turns over time.
#[derive(Clone, Copy, Debug, PartialEq, Eq, Structural)]
pub struct FireTagSpiral {
    pub arms_count: u32,
    /// Thousandths of a world unit per second.
    pub bullet_speed: u32,
    /// Microseconds between two volleys.
    pub fire_delay: u64,
    /// Angle units per second.
    pub rotate_speed: u64,
    pub bullet_kind: BulletKind,
    /// Time gathered towards the next volley.
    pub cur_time: u64,
    /// Angle of the first arm.
    pub cur_angle: u64,
    /// Volleys fired so far, counted modulo the safe-lane cycle.
    pub cur_iter: u32,
}

/// Angle of arm `k` of `n` when the first arm points at `base`.
pub open spec fn arm_angle(base: int, n: int, k: int) -> int {
    (base + k * (TURN as int / n)) % (TURN as int)
}

/// How far `angle` is from the aim reference.
pub open spec fn aim_distance(angle: int) -> int {
    if angle >= AIM_REFERENCE {
        angle - AIM_REFERENCE
    } else {
        AIM_REFERENCE - angle
    }
}

/// Among arms `0..m`, the one closest to the aim reference, the lowest on a tie.
pub open spec fn closest_arm(base: int, n: int, m: int) -> int
    decreases m,
{
    if m <= 1 {
        0
    } else {
        let best = closest_arm(base, n, m - 1);
        if aim_distance(arm_angle(base, n, m - 1)) < aim_distance(arm_angle(base, n, best)) {
            m - 1
        } else {
            best
        }
    }
}

/// Arm of the `j`-th bullet of a volley that leaves out arm `gap` when
/// `suppressed`.
pub open spec fn volley_arm(j: int, gap: int, suppressed: bool) -> int {
    if suppressed && j >= gap {
        j + 1
    } else {
        j
    }
}

/// Six arms turning at 35 degrees per second, a volley every 40 ms.
pub open spec fn spiral_default(bullet_kind: BulletKind) -> FireTagSpiral {
    FireTagSpiral {
        arms_count: 6,
        bullet_speed: 4300,
        fire_delay: DEFAULT_FIRE_DELAY,
        rotate_speed: DEFAULT_ROTATE_SPEED,
        bullet_kind,
        cur_time: 0,
        cur_angle: 0,
        cur_iter: 0,
    }
}

impl FireTagSpiral {
    pub open spec fn wf(&self) -> bool {
        &&& self.cur_angle < TURN
        &&& self.cur_iter < SAFE_LANE_CYCLE
    }

    /// Whether a tick of `dt` fires a volley.
    pub open spec fn fires(&self, dt: u64) -> bool {
        sat_time(self.cur_time + dt) >= self.fire_delay
    }

    /// Position in the safe-lane cycle of the next volley.
    pub open spec fn next_iter(&self) -> int {
        (self.cur_iter + 1) % (SAFE_LANE_CYCLE as int)
    }

    /// Whether the next volley leaves out the arm closest to the aim reference.
    pub open spec fn suppressed(&self) -> bool {
        self.arms_count > 0 && self.next_iter() < SAFE_LANE_VOLLEYS
    }

    /// Arm closest to the aim reference in the next volley.
    pub open spec fn aim_arm(&self) -> int {
        closest_arm(self.cur_angle as int, self.arms_count as int, self.arms_count as int)
    }

    /// Number of bullets in the next volley.
    pub open spec fn volley_len(&self) -> int {
        if self.suppressed() {
            self.arms_count - 1
        } else {
            self.arms_count as int
        }
    }

    /// The next volley: one bullet per arm, in arm order, without the arm
    /// closest to the aim reference while the safe lane is open.
    pub open spec fn volley(&self, origin: Position) -> Seq<BulletSpawn> {
        Seq::new(
            self.volley_len() as nat,
            |j: int|
                BulletSpawn {
                    origin,
                    heading: Heading::Angle(
                        arm_angle(
                            self.cur_angle as int,
                            self.arms_count as int,
                            volley_arm(j, self.aim_arm(), self.suppressed()),
                        ) as u64,
                    ),
                    speed: self.bullet_speed,
                    kind: self.bullet_kind,
                    layer: Layer::EnemyBullet,
                },
        )
    }

    /// Bullets fired by a tick of `dt`.
    pub open spec fn bullets(&self, dt: u64, origin: Position) -> Seq<BulletSpawn> {
        if self.fires(dt) {
            self.volley(origin)
        } else {
            Seq::empty()
        }
    }

    /// The state after a tick of `dt`: the timer restarts on a volley, and the
    /// spiral turns by `rotate_speed * dt` whether it fired or not.
    pub open spec fn next(&self, dt: u64) -> FireTagSpiral {
        FireTagSpiral {
            cur_time: if self.fires(dt) {
                0
            } else {
                sat_time(self.cur_time + dt) as u64
            },
            cur_angle: ((self.cur_angle + (self.rotate_speed * dt / MICROS_PER_SECOND as int) % (
            TURN as int)) % (TURN as int)) as u64,
            cur_iter: if self.fires(dt) {
                self.next_iter() as u32
            } else {
                self.cur_iter
            },
            ..*self
        }
    }

    /// Six arms turning at 35 degrees per second, a volley every 40 ms.
    pub fn new(bullet_kind: BulletKind) -> (r: FireTagSpiral)
        ensures
            r.wf(),
            r == spiral_default(bullet_kind),
    {
        FireTagSpiral {
            arms_count: 6,
            bullet_speed: 4300,
            fire_delay: DEFAULT_FIRE_DELAY,
            rotate_speed: DEFAULT_ROTATE_SPEED,
            bullet_kind,
            cur_time: 0,
            cur_angle: 0,
            cur_iter: 0,
        }
    }

    fn arm_angle_of(&self, k: u32) -> (r: u64)
        requires
            self.wf(),
            k < self.arms_count,
        ensures
            r == arm_angle(self.cur_angle as int, self.arms_count as int, k as int),
            r < TURN,
    {
        let spacing = TURN / self.arms_count as u64;
        proof {
            let n = self.arms_count as int;
            let sp = spacing as int;
            assert(sp * n <= TURN) by {
                vstd::arithmetic::div_mod::lemma_fundamental_div_mod(TURN as int, n);
            }
            assert(k * sp <= n * sp) by (nonlinear_arith)
                requires
                    k < n,
                    sp >= 0,
            ;
        }
        (self.cur_angle + k as u64 * spacing) % TURN
    }

    fn find_aim_arm(&self) -> (r: u32)
        requires
            self.wf(),
            self.arms_count > 0,
        ensures
            r == self.aim_arm(),
            r < self.arms_count,
    {
        let mut best: u32 = 0;
        let first = self.arm_angle_of(0);
        let mut best_dist: u64 = if first >= AIM_REFERENCE {
            first - AIM_REFERENCE
        } else {
            AIM_REFERENCE - first
        };
        let mut k: u32 = 1;
        while k < self.arms_count
            invariant
                self.wf(),
                1 <= k <= self.arms_count,
                best < k,
                best == closest_arm(self.cur_angle as int, self.arms_count as int, k as int),
                best_dist == aim_distance(
                    arm_angle(self.cur_angle as int, self.arms_count as int, best as int),
                ),
            decreases self.arms_count - k,
        {
            let a = self.arm_angle_of(k);
            let d = if a >= AIM_REFERENCE {
                a - AIM_REFERENCE
            } else {
                AIM_REFERENCE - a
            };
            if d < best_dist {
                best = k;
                best_dist = d;
            }
            k = k + 1;
        }
        best
    }

    /// One tick of `dt` microseconds at `origin`: once enough time has gathered,
    /// fires one volley (at most one per tick) and restarts the timer; turns the
    /// spiral either way.
    pub fn execute(&mut self, dt: u64, origin: Position) -> (r: Vec<BulletSpawn>)
        requires
            old(self).wf(),
        ensures
            final(self).wf(),
            *final(self) == old(self).next(dt),
            r@ == old(self).bullets(dt, origin),
    {
        let mut bullets: Vec<BulletSpawn> = Vec::new();
        let elapsed = add_time(self.cur_time, dt);
        if elapsed >= self.fire_delay {
            self.cur_time = 0;
            let n = self.arms_count;
            let next_iter = (self.cur_iter + 1) % SAFE_LANE_CYCLE;
            let suppressed = n > 0 && next_iter < SAFE_LANE_VOLLEYS;
            let gap = if n > 0 {
                self.find_aim_arm()
            } else {
                0
            };
            let ghost before = *self;
            let mut idx: u32 = 0;
            while idx < n
                invariant
                    *self == (FireTagSpiral { cur_time: 0, ..before }),
                    before.wf(),
                    n == before.arms_count,
                    idx <= n,
                    suppressed == before.suppressed(),
                    n > 0 ==> gap == before.aim_arm(),
                    n > 0 ==> gap < n,
                    bullets@.len() == if suppressed && idx > gap {
                        idx - 1
                    } else {
                        idx as int
                    },
                    forall|j: int|
                        0 <= j < bullets@.len() ==> #[trigger] bullets@[j] == before.volley(
                            origin,
                        )[j],
                decreases n - idx,
            {
                if !(suppressed && idx == gap) {
                    let angle = self.arm_angle_of(idx);
                    let b = BulletSpawn {
                        origin,
                        heading: Heading::Angle(angle),
                        speed: self.bullet_speed,
                        kind: self.bullet_kind,
                        layer: Layer::EnemyBullet,
                    };
                    assert(b == before.volley(origin)[bullets@.len() as int]);
                    bullets.push(b);
                }
                idx = idx + 1;
            }
            assert(bullets@ =~= before.volley(origin));
            self.cur_iter = next_iter;
        } else {
            self.cur_time = elapsed;
        }
        proof {
            assert(self.rotate_speed * dt <= u64::MAX * u64::MAX) by (nonlinear_arith)
                requires
                    self.rotate_speed <= u64::MAX,
                    dt <= u64::MAX,
            ;
        }
        let step = ((self.rotate_speed as u128 * dt as u128) / MICROS_PER_SECOND as u128) % (
        TURN as u128);
        self.cur_angle = (self.cur_angle + step as u64) % TURN;
        bullets
    }
}

/// A short burst of shots aimed at the player, fired once.
#[derive(Clone, Copy, Debug, PartialEq, Eq, Structural)]
pub struct FireTagAimBurst {
    pub bullet_count: u32,
    /// Thousandths of a world unit per second.
    pub bullet_speed: u32,
    /// Microseconds between two shots.
    pub fire_delay: u64,
    pub bullet_kind: BulletKind,
    /// Time gathered towards the next shot.
    pub cur_time: u64,
    /// Shots fired so far.
    pub cur_iter: u32,
}

/// Heading of a shot from `origin` at `target`; straight along +X when the two
/// coincide.
pub open spec fn aim_heading(origin: Position, target: Position) -> Heading {
    if origin == target {
        Heading::Toward(Direction { dx: 1, dy: 0, dz: 0 })
    } else {
        Heading::Toward(difference(origin, target))
    }
}

/// Six shots, 40 ms apart.
pub open spec fn aim_burst_default(bullet_kind: BulletKind) -> FireTagAimBurst {
    FireTagAimBurst {
        bullet_count: 6,
        bullet_speed: 2100,
        fire_delay: DEFAULT_FIRE_DELAY,
        bullet_kind,
        cur_time: 0,
        cur_iter: 0,
    }
}

impl FireTagAimBurst {
    /// Whether a tick of `dt` fires a shot.
    pub open spec fn fires(&self, dt: u64) -> bool {
        self.cur_iter < self.bullet_count && sat_time(self.cur_time + dt) >= self.fire_delay
    }

    /// The state after a tick of `dt`; a finished burst never changes again.
    pub open spec fn next(&self, dt: u64) -> FireTagAimBurst {
        if self.cur_iter >= self.bullet_count {
            *self
        } else if self.fires(dt) {
            FireTagAimBurst { cur_time: 0, cur_iter: (self.cur_iter + 1) as u32, ..*self }
        } else {
            FireTagAimBurst { cur_time: sat_time(self.cur_time + dt) as u64, ..*self }
        }
    }

    /// Bullets fired by a tick of `dt` from `origin` with the player at `player`.
    pub open spec fn bullets(&self, dt: u64, origin: Position, player: Position) -> Seq<
        BulletSpawn,
    > {
        if self.fires(dt) {
            seq![
                BulletSpawn {
                    origin,
                    heading: aim_heading(origin, player),
                    speed: self.bullet_speed,
                    kind: self.bullet_kind,
                    layer: Layer::EnemyBullet,
                },
            ]
        } else {
            Seq::empty()
        }
    }

    /// Six shots, 40 ms apart.
    pub fn new(bullet_kind: BulletKind) -> (r: FireTagAimBurst)
        ensures
            r == aim_burst_default(bullet_kind),
    {
        FireTagAimBurst {
            bullet_count: 6,
            bullet_speed: 2100,
            fire_delay: DEFAULT_FIRE_DELAY,
            bullet_kind,
            cur_time: 0,
            cur_iter: 0,
        }
    }

    /// One tick of `dt` microseconds: while shots are left, once enough time
    /// has gathered, fires one shot from `origin` towards `player`.
    pub fn execute(&mut self, dt: u64, origin: Position, player: Position) -> (r: Vec<
        BulletSpawn,
    >)
        ensures
            *final(self) == old(self).next(dt),
            r@ == old(self).bullets(dt, origin, player),
    {
        let mut bullets: Vec<BulletSpawn> = Vec::new();
        if self.cur_iter < self.bullet_count {
            let elapsed = add_time(self.cur_time, dt);
            if elapsed >= self.fire_delay {
                self.cur_time = 0;
                let dir = direction_between(origin, player);
                let heading = if dir.dx == 0 && dir.dy == 0 && dir.dz == 0 {
                    Heading::Toward(Direction { dx: 1, dy: 0, dz: 0 })
                } else {
                    Heading::Toward(dir)
                };
                bullets.push(
                    BulletSpawn {
                        origin,
                        heading,
                        speed: self.bullet_speed,
                        kind: self.bullet_kind,
                        layer: Layer::EnemyBullet,
                    },
                );
                self.cur_iter = self.cur_iter + 1;
                assert(bullets@ =~= old(self).bullets(dt, origin, player));
            } else {
                self.cur_time = elapsed;
            }
        }
        bullets
    }
}

/// The fire pattern of one enemy.
#[derive(Clone, Copy, Debug, PartialEq, Eq, Structural)]
pub enum FireTag {
    Spiral(FireTagSpiral),
    AimBurst(FireTagAimBurst),
}

impl FireTag {
    pub open spec fn wf(&self) -> bool {
        match self {
            FireTag::Spiral(f) => f.wf(),
            FireTag::AimBurst(_) => true,
        }
    }

    pub open spec fn next(&self, dt: u64) -> FireTag {
        match self {
            FireTag::Spiral(f) => FireTag::Spiral(f.next(dt)),
            FireTag::AimBurst(f) => FireTag::AimBurst(f.next(dt)),
        }
    }

    pub open spec fn bullets(&self, dt: u64, origin: Position, player: Position) -> Seq<
        BulletSpawn,
    > {
        match self {
            FireTag::Spiral(f) => f.bullets(dt, origin),
            FireTag::AimBurst(f) => f.bullets(dt, origin, player),
        }
    }

    /// One tick of whichever pattern this is.
    pub fn execute(&mut self, dt: u64, origin: Position, player: Position) -> (r: Vec<
        BulletSpawn,
    >)
        requires
            old(self).wf(),
        ensures
            final(self).wf(),
            *final(self) == old(self).next(dt),
            r@ == old(self).bullets(dt, origin, player),
    {
        match self {
            FireTag::Spiral(f) => f.execute(dt, origin),
            FireTag::AimBurst(f) => f.execute(dt, origin, player),
        }
    }
}

/// Angle of a bullet's heading; -1 for a bullet aimed along a vector.
pub open spec fn heading_angle(b: BulletSpawn) -> int {
    match b.heading {
        Heading::Angle(a) => a as int,
        Heading::Toward(_) => -1,
    }
}

proof fn lemma_next_arm(base: int, n: int, k: int)
    requires
        n > 0,
        base >= 0,
        k >= 0,
    ensures
        arm_angle(base, n, k + 1) == (arm_angle(base, n, k) + TURN as int / n) % (TURN as int),
{
    let t = TURN as int;
    let sp = t / n;
    assert((k + 1) * sp == k * sp + sp) by (nonlinear_arith);
    vstd::arithmetic::div_mod::lemma_add_mod_noop_right(sp, base + k * sp, t);
    assert(base + (k + 1) * sp == sp + (base + k * sp));
}

/// A volley of a spiral of `n` arms, where `n` divides a turn: without the
/// safe lane it holds `n` bullets whose angles step by exactly a turn divided
/// by `n`, one arm after the other; while the safe lane is open it holds
/// `n - 1` bullets, in arm order, and the arm closest to the aim reference is
/// the one left out.
pub proof fn lemma_spiral_volley(s: FireTagSpiral, origin: Position)
    requires
        s.wf(),
        s.arms_count > 0,
        TURN % (s.arms_count as u64) == 0,
    ensures
        (TURN as int / s.arms_count as int) * s.arms_count == TURN,
        s.suppressed() <==> s.next_iter() < SAFE_LANE_VOLLEYS,
        !s.suppressed() ==> {
            &&& s.volley(origin).len() == s.arms_count
            &&& forall|j: int|
                0 <= j < s.arms_count - 1 ==> heading_angle(#[trigger] s.volley(origin)[j + 1]) == (
                heading_angle(s.volley(origin)[j]) + TURN as int / s.arms_count as int) % (
                TURN as int)
        },
        s.suppressed() ==> {
            &&& s.volley(origin).len() == s.arms_count - 1
            &&& 0 <= s.aim_arm() < s.arms_count
            &&& forall|j: int|
                0 <= j < s.arms_count - 1 ==> {
                    &&& volley_arm(j, s.aim_arm(), true) != s.aim_arm()
                    &&& heading_angle(#[trigger] s.volley(origin)[j]) == arm_angle(
                        s.cur_angle as int,
                        s.arms_count as int,
                        volley_arm(j, s.aim_arm(), true),
                    )
                }
        },
{
    let n = s.arms_count as int;
    vstd::arithmetic::div_mod::lemma_fundamental_div_mod(TURN as int, n);
    lemma_closest_arm_bound(s.cur_angle as int, n, n);
    let v = s.volley(origin);
    assert forall|j: int| 0 <= j < s.volley_len() implies 0 <= #[trigger] arm_angle(
        s.cur_angle as int,
        n,
        volley_arm(j, s.aim_arm(), s.suppressed()),
    ) < TURN by {}
    if !s.suppressed() {
        assert forall|j: int| 0 <= j < s.arms_count - 1 implies heading_angle(
            #[trigger] v[j + 1],
        ) == (heading_angle(v[j]) + TURN as int / n) % (TURN as int) by {
            lemma_next_arm(s.cur_angle as int, n, j);
            assert(0 <= arm_angle(s.cur_angle as int, n, j + 1) < TURN);
            assert(0 <= arm_angle(s.cur_angle as int, n, j) < TURN);
        }
    } else {
        assert forall|j: int| 0 <= j < s.arms_count - 1 implies heading_angle(#[trigger] v[j])
            == arm_angle(s.cur_angle as int, n, volley_arm(j, s.aim_arm(), true)) by {
            assert(0 <= arm_angle(s.cur_angle as int, n, volley_arm(j, s.aim_arm(), true)) < TURN);
        }
    }
}

proof fn lemma_closest_arm_bound(base: int, n: int, m: int)
    requires
        m >= 1,
    ensures
        0 <= closest_arm(base, n, m) < m,
    decreases m,
{
    if m > 1 {
        lemma_closest_arm_bound(base, n, m - 1);
    }
}

/// The burst after the first `k` ticks of `dts`.
pub open spec fn aim_burst_after(s: FireTagAimBurst, dts: Seq<u64>, k: int) -> FireTagAimBurst
    decreases k,
{
    if k <= 0 {
        s
    } else {
        aim_burst_after(s, dts, k - 1).next(dts[k - 1])
    }
}

/// A fresh burst whose ticks are each at least `fire_delay` long fires on
/// every one of its first `bullet_count` ticks, and after those never fires
/// nor changes again.
pub proof fn lemma_aim_burst_exhausts(s: FireTagAimBurst, dts: Seq<u64>)
    requires
        s.cur_iter == 0,
        dts.len() == s.bullet_count,
        forall|i: int| 0 <= i < dts.len() ==> #[trigger] dts[i] >= s.fire_delay,
    ensures
        forall|i: int| 0 <= i < dts.len() ==> #[trigger] aim_burst_after(s, dts, i).fires(dts[i]),
        aim_burst_after(s, dts, dts.len() as int).cur_iter == s.bullet_count,
        forall|dt: u64|
            !#[trigger] aim_burst_after(s, dts, dts.len() as int).fires(dt) && aim_burst_after(
                s,
                dts,
                dts.len() as int,
            ).next(dt) == aim_burst_after(s, dts, dts.len() as int),
{
    lemma_aim_burst_count(s, dts, dts.len() as int);
    assert forall|i: int| 0 <= i < dts.len() implies #[trigger] aim_burst_after(s, dts, i).fires(
        dts[i],
    ) by {
        lemma_aim_burst_count(s, dts, i);
    }
}

proof fn lemma_aim_burst_count(s: FireTagAimBurst, dts: Seq<u64>, k: int)
    requires
        s.cur_iter == 0,
        0 <= k <= dts.len() <= s.bullet_count,
        forall|i: int| 0 <= i < dts.len() ==> #[trigger] dts[i] >= s.fire_delay,
    ensures
        aim_burst_after(s, dts, k).cur_iter == k,
        aim_burst_after(s, dts, k).bullet_count == s.bullet_count,
        aim_burst_after(s, dts, k).fire_delay == s.fire_delay,
    decreases k,
{
    if k > 0 {
        lemma_aim_burst_count(s, dts, k - 1);
        assert(dts[k - 1] >= s.fire_delay);
    }
}

} // verus!

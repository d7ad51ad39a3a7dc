//! The enemy registry: descriptors of the enemies of a level, by name, and
//! the level's timeline, which spawns them.
use vstd::prelude::*;
use crate::controller::EnemyController;
use crate::fire::{aim_burst_default, spiral_default, BulletKind, FireTag, FireTagAimBurst, FireTagSpiral};
use crate::geometry::{sat_time, Position};
use crate::life::LifeState;
use crate::motion::{fly_by_direction, EnterStayMotion, EnterStayPhase, FlyByMotion, MotionPattern};
use crate::timeline::{event_times, pending_from, Timeline, TimelineEvent};

verus! {

#[derive(Clone, Copy, Debug, PartialEq, Eq, Structural)]
pub enum FireTagKind {
    Spiral,
    AimBurst,
}

#[derive(Clone, Copy, Debug, PartialEq, Eq, Structural)]
pub enum MotionPatternKind {
    EnterStay,
    FlyBy,
}

/// The template of an enemy.
pub struct EnemyDescriptor {
    /// Unique key of the descriptor.
    pub name: String,
    pub life: u64,
    pub is_boss: bool,
    pub fire_tag_kind: FireTagKind,
    pub motion_pattern_kind: MotionPatternKind,
    pub bullet_kind: BulletKind,
}

/// The enemies and the timeline of a level.
pub struct EnemyDatabase {
    pub enemies: Vec<EnemyDescriptor>,
    pub timeline: Vec<TimelineEvent>,
}

/// A request to place a new enemy in the world.
pub struct SpawnRequest {
    pub name: String,
    pub position: Position,
    pub is_boss: bool,
    pub controller: EnemyController,
}

/// What became of one due timeline event.
pub enum SpawnOutcome {
    Spawned(SpawnRequest),
    /// The event names no registered descriptor; nothing is spawned.
    UnknownEnemy(String),
}

pub struct EnemyManager {
    pub descriptors: Vec<EnemyDescriptor>,
    pub timeline: Timeline,
    /// Entity of the HUD that shows the life of bosses.
    pub boss_lifebar_entity: u64,
}

/// No two descriptors share a name.
pub open spec fn names_unique(d: Seq<EnemyDescriptor>) -> bool {
    forall|i: int, j: int|
        0 <= i < d.len() && 0 <= j < d.len() && #[trigger] d[i].name@ == #[trigger] d[j].name@
            ==> i == j
}

/// Whether a descriptor is named `name`.
pub open spec fn is_registered(d: Seq<EnemyDescriptor>, name: Seq<char>) -> bool {
    exists|i: int| 0 <= i < d.len() && #[trigger] d[i].name@ == name
}

/// The descriptors as a map from name to descriptor.
pub open spec fn registry_of(d: Seq<EnemyDescriptor>) -> Map<Seq<char>, EnemyDescriptor> {
    Map::new(
        |name: Seq<char>| is_registered(d, name),
        |name: Seq<char>| d[choose|i: int| 0 <= i < d.len() && #[trigger] d[i].name@ == name],
    )
}

/// The motion of an enemy of `kind` spawned at `position`.
pub open spec fn motion_for(kind: MotionPatternKind, position: Position) -> MotionPattern {
    match kind {
        MotionPatternKind::EnterStay => MotionPattern::EnterStay(
            EnterStayMotion { phase: EnterStayPhase::Idle, enter_height: position.y },
        ),
        MotionPatternKind::FlyBy => MotionPattern::FlyBy(
            FlyByMotion {
                start: position,
                direction: fly_by_direction(position.y),
                has_fired: false,
            },
        ),
    }
}

/// The fire pattern of an enemy of `kind`.
pub open spec fn fire_for(kind: FireTagKind, bullet_kind: BulletKind) -> FireTag {
    match kind {
        FireTagKind::Spiral => FireTag::Spiral(spiral_default(bullet_kind)),
        FireTagKind::AimBurst => FireTag::AimBurst(aim_burst_default(bullet_kind)),
    }
}

/// The controller of an enemy made from `desc` at `position`.
pub open spec fn controller_for(desc: EnemyDescriptor, position: Position) -> EnemyController {
    EnemyController {
        motion_pattern: motion_for(desc.motion_pattern_kind, position),
        fire_tag: fire_for(desc.fire_tag_kind, desc.bullet_kind),
        fire_tag_started: false,
        life: LifeState { max_life: desc.life, remain_life: desc.life, dead: false },
    }
}

/// Whether `r` spawns an enemy made from `desc` at `position`.
pub open spec fn spawns(r: SpawnRequest, desc: EnemyDescriptor, position: Position) -> bool {
    &&& r.name@ == desc.name@
    &&& r.position == position
    &&& r.is_boss == desc.is_boss
    &&& r.controller == controller_for(desc, position)
}

/// Whether `out` is what the registry `reg` makes of the event `ev`.
pub open spec fn outcome_of(
    reg: Map<Seq<char>, EnemyDescriptor>,
    ev: TimelineEvent,
    out: SpawnOutcome,
) -> bool {
    if reg.contains_key(ev.enemy@) {
        out matches SpawnOutcome::Spawned(r) && spawns(r, reg[ev.enemy@], ev.start_pos)
    } else {
        out matches SpawnOutcome::UnknownEnemy(n) && n@ == ev.enemy@
    }
}

impl EnemyManager {
    pub open spec fn wf(&self) -> bool {
        &&& names_unique(self.descriptors@)
        &&& self.timeline.wf()
    }

    /// The registered descriptors, by name.
    pub open spec fn registry(&self) -> Map<Seq<char>, EnemyDescriptor> {
        registry_of(self.descriptors@)
    }

    /// A manager with no descriptors and an empty timeline.
    pub fn new(boss_lifebar_entity: u64) -> (r: EnemyManager)
        ensures
            r.wf(),
            r.registry() == Map::<Seq<char>, EnemyDescriptor>::empty(),
            r.timeline.events@.len() == 0,
            r.timeline.index == 0,
            r.timeline.time == 0,
            r.boss_lifebar_entity == boss_lifebar_entity,
    {
        let r = EnemyManager {
            descriptors: Vec::new(),
            timeline: Timeline::new(Vec::new()),
            boss_lifebar_entity,
        };
        assert(r.registry() =~= Map::<Seq<char>, EnemyDescriptor>::empty());
        r
    }

    /// Index of the descriptor named `name`.
    fn find(&self, name: &String) -> (r: Option<usize>)
        requires
            self.wf(),
        ensures
            match r {
                Some(i) => i < self.descriptors@.len() && self.descriptors@[i as int].name@
                    == name@,
                None => !is_registered(self.descriptors@, name@),
            },
    {
        let mut i: usize = 0;
        while i < self.descriptors.len()
            invariant
                i <= self.descriptors@.len(),
                forall|j: int| 0 <= j < i ==> self.descriptors@[j].name@ != name@,
            decreases self.descriptors@.len() - i,
        {
            if self.descriptors[i].name == *name {
                return Some(i);
            }
            i = i + 1;
        }
        None
    }

    /// Registers `descriptor` under its name, replacing any descriptor of the
    /// same name.
    pub fn add_descriptor(&mut self, descriptor: EnemyDescriptor)
        requires
            old(self).wf(),
        ensures
            final(self).wf(),
            final(self).registry() == old(self).registry().insert(descriptor.name@, descriptor),
            final(self).timeline == old(self).timeline,
            final(self).boss_lifebar_entity == old(self).boss_lifebar_entity,
    {
        let ghost old_d = self.descriptors@;
        let ghost name = descriptor.name@;
        let ghost desc = descriptor;
        let ghost at: int;
        match self.find(&descriptor.name) {
            Some(i) => {
                self.descriptors.set(i, descriptor);
                proof {
                    at = i as int;
                }
            },
            None => {
                self.descriptors.push(descriptor);
                proof {
                    at = old_d.len() as int;
                }
            },
        }
        let ghost new_d = self.descriptors@;
        assert(names_unique(new_d)) by {
            assert forall|a: int, b: int|
                0 <= a < new_d.len() && 0 <= b < new_d.len() && #[trigger] new_d[a].name@
                    == #[trigger] new_d[b].name@ implies a == b by {
                if a != at && b != at {
                    assert(old_d[a].name@ == old_d[b].name@);
                } else if a != at {
                    assert(old_d[a].name@ == name);
                } else if b != at {
                    assert(old_d[b].name@ == name);
                }
            }
        }
        assert(new_d[at] == desc);
        proof {
            lemma_lookup(new_d, at);
        }
        assert forall|k: Seq<char>| k != name implies (is_registered(new_d, k) <==> is_registered(old_d, k)) && (is_registered(old_d, k) ==> registry_of(new_d)[k] == registry_of(old_d)[k]) by {
            if is_registered(old_d, k) {
                let j = choose|j: int| 0 <= j < old_d.len() && #[trigger] old_d[j].name@ == k;
                assert(j != at);
                assert(new_d[j] == old_d[j]);
                lemma_lookup(old_d, j);
                lemma_lookup(new_d, j);
            }
            if is_registered(new_d, k) {
                let j = choose|j: int| 0 <= j < new_d.len() && #[trigger] new_d[j].name@ == k;
                assert(j != at);
                assert(new_d[j] == old_d[j]);
            }
        }
        assert(registry_of(new_d) =~= registry_of(old_d).insert(name, desc));
    }

    /// Makes the enemy named `name` at `position`, or nothing when no
    /// descriptor has that name.
    pub fn spawn(&self, name: &String, position: Position) -> (r: Option<SpawnRequest>)
        requires
            self.wf(),
        ensures
            r.is_some() == self.registry().contains_key(name@),
            r matches Some(req) ==> spawns(req, self.registry()[name@], position),
    {
        match self.find(name) {
            Some(i) => {
                proof {
                    lemma_lookup(self.descriptors@, i as int);
                }
                let desc = &self.descriptors[i];
                let motion_pattern = match desc.motion_pattern_kind {
                    MotionPatternKind::EnterStay => MotionPattern::EnterStay(
                        EnterStayMotion::new(position.y),
                    ),
                    MotionPatternKind::FlyBy => MotionPattern::FlyBy(FlyByMotion::new(position)),
                };
                let fire_tag = match desc.fire_tag_kind {
                    FireTagKind::Spiral => FireTag::Spiral(FireTagSpiral::new(desc.bullet_kind)),
                    FireTagKind::AimBurst => FireTag::AimBurst(
                        FireTagAimBurst::new(desc.bullet_kind),
                    ),
                };
                let controller = EnemyController::new(motion_pattern, fire_tag, desc.life);
                Some(
                    SpawnRequest {
                        name: desc.name.clone(),
                        position,
                        is_boss: desc.is_boss,
                        controller,
                    },
                )
            },
            None => None,
        }
    }

    /// Moves the level clock on by `dt` microseconds and makes what each event
    /// now due asks for, in timeline order: an enemy, or, for a name that no
    /// descriptor has, a report of that name.
    pub fn execute_timeline(&mut self, dt: u64) -> (r: Vec<SpawnOutcome>)
        requires
            old(self).wf(),
        ensures
            final(self).wf(),
            final(self).descriptors@ == old(self).descriptors@,
            final(self).boss_lifebar_entity == old(self).boss_lifebar_entity,
            final(self).timeline.events@ == old(self).timeline.events@,
            final(self).timeline.time == sat_time(old(self).timeline.time + dt),
            final(self).timeline.index == pending_from(
                event_times(old(self).timeline.events@),
                old(self).timeline.index as int,
                final(self).timeline.time as int,
            ),
            r@.len() == final(self).timeline.index - old(self).timeline.index,
            forall|j: int|
                0 <= j < r@.len() ==> outcome_of(
                    old(self).registry(),
                    old(self).timeline.events@[old(self).timeline.index + j],
                    #[trigger] r@[j],
                ),
    {
        let start = self.timeline.index;
        let due = self.timeline.advance(dt);
        let mut out: Vec<SpawnOutcome> = Vec::new();
        let mut k: usize = 0;
        while k < due.len()
            invariant
                self.wf(),
                k <= due@.len(),
                due@.len() == self.timeline.index - start,
                start <= self.timeline.index <= self.timeline.events@.len(),
                forall|j: int| 0 <= j < due@.len() ==> due@[j] == start + j,
                self.descriptors@ == old(self).descriptors@,
                self.timeline.events@ == old(self).timeline.events@,
                out@.len() == k,
                forall|j: int|
                    0 <= j < k ==> outcome_of(
                        old(self).registry(),
                        old(self).timeline.events@[start + j],
                        #[trigger] out@[j],
                    ),
            decreases due@.len() - k,
        {
            let ev = &self.timeline.events[due[k]];
            match self.spawn(&ev.enemy, ev.start_pos) {
                Some(req) => out.push(SpawnOutcome::Spawned(req)),
                None => out.push(SpawnOutcome::UnknownEnemy(ev.enemy.clone())),
            }
            k = k + 1;
        }
        out
    }
}

/// The registry `reg` after registering `descs` in order.
pub open spec fn registry_after(
    reg: Map<Seq<char>, EnemyDescriptor>,
    descs: Seq<EnemyDescriptor>,
) -> Map<Seq<char>, EnemyDescriptor>
    decreases descs.len(),
{
    if descs.len() == 0 {
        reg
    } else {
        registry_after(reg, descs.drop_last()).insert(descs.last().name@, descs.last())
    }
}

impl EnemyManager {
    /// Registers every enemy of `database` in order, a later one replacing an
    /// earlier one of the same name, and restarts the timeline with the
    /// database's events.
    pub fn load(&mut self, database: EnemyDatabase)
        requires
            old(self).wf(),
        ensures
            final(self).wf(),
            final(self).registry() == registry_after(old(self).registry(), database.enemies@),
            final(self).timeline.events@ == database.timeline@,
            final(self).timeline.index == 0,
            final(self).timeline.time == 0,
            final(self).boss_lifebar_entity == old(self).boss_lifebar_entity,
    {
        let EnemyDatabase { enemies, timeline } = database;
        let ghost all = enemies@;
        let count = enemies.len();
        let mut rest = enemies;
        let mut k: usize = 0;
        while rest.len() > 0
            invariant
                self.wf(),
                k <= all.len(),
                count == all.len(),
                rest@ == all.subrange(k as int, all.len() as int),
                self.registry() == registry_after(old(self).registry(), all.subrange(0, k as int)),
                self.boss_lifebar_entity == old(self).boss_lifebar_entity,
            decreases rest@.len(),
        {
            let d = rest.remove(0);
            assert(all.subrange(0, k + 1).drop_last() =~= all.subrange(0, k as int));
            self.add_descriptor(d);
            k = k + 1;
            assert(rest@ =~= all.subrange(k as int, all.len() as int));
        }
        assert(all.subrange(0, k as int) =~= all);
        self.timeline = Timeline::new(timeline);
    }
}

/// In a registry with unique names, each descriptor is found under its name.
proof fn lemma_lookup(d: Seq<EnemyDescriptor>, i: int)
    requires
        names_unique(d),
        0 <= i < d.len(),
    ensures
        registry_of(d).contains_key(d[i].name@),
        registry_of(d)[d[i].name@] == d[i],
{
    let name = d[i].name@;
    assert(is_registered(d, name));
    let j = choose|j: int| 0 <= j < d.len() && #[trigger] d[j].name@ == name;
    assert(d[j].name@ == d[i].name@);
}

} // verus!

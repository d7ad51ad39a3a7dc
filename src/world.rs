//! One frame of all the enemies of a level.
use vstd::prelude::*;
use crate::controller::EnemyController;
use crate::fire::BulletSpawn;
use crate::geometry::Position;
use crate::life::{damage_for, life_next, life_outcome, DamageEvent, LifeOutcome};
use crate::lifebar::UpdateLifebarsEvent;
use crate::motion::{AnimatorView, MotionStep};
use crate::geometry::sat_time;
use crate::registry::{outcome_of, EnemyManager, SpawnOutcome};
use crate::timeline::{event_times, pending_from};

verus! {

/// An enemy in the world.
#[derive(Clone, Copy, Debug, PartialEq, Eq, Structural)]
pub struct Enemy {
    pub entity: u64,
    pub controller: EnemyController,
    /// Where the enemy is at the start of the frame.
    pub translation: Position,
    /// Its position animation, as observed at the start of the frame.
    pub animator: AnimatorView,
}

/// A motion step of one enemy.
#[derive(Clone, Copy, Debug, PartialEq, Eq, Structural)]
pub struct EnemyMotion {
    pub entity: u64,
    pub step: MotionStep,
}

/// What one frame of the enemies asks of the world.
pub struct EnemyFrame {
    /// Enemies that the timeline spawns.
    pub spawned: Vec<SpawnOutcome>,
    /// New remaining life of each damaged enemy, for the boss lifebar.
    pub lifebar_updates: Vec<UpdateLifebarsEvent>,
    /// Enemies that died, to remove.
    pub killed: Vec<u64>,
    /// Motion of each enemy alive through the frame.
    pub motions: Vec<EnemyMotion>,
    /// Bullets fired.
    pub bullets: Vec<BulletSpawn>,
}

impl Enemy {
    pub open spec fn outcome(&self, events: Seq<DamageEvent>) -> LifeOutcome {
        life_outcome(self.controller.life, damage_for(events, self.entity))
    }

    pub open spec fn ticked(&self, events: Seq<DamageEvent>, dt: u64) -> Enemy {
        Enemy {
            controller: self.controller.ticked(
                self.entity,
                events,
                dt,
                self.translation,
                self.animator,
            ),
            ..*self
        }
    }

    /// Whether the enemy is alive through a frame of `events`.
    pub open spec fn survives(&self, events: Seq<DamageEvent>) -> bool {
        !life_next(self.controller.life, damage_for(events, self.entity)).dead
    }

    pub open spec fn lifebar_update(&self, events: Seq<DamageEvent>, boss: u64) -> Seq<
        UpdateLifebarsEvent,
    > {
        match self.outcome(events).notify {
            Some(v) => seq![UpdateLifebarsEvent { entity: boss, remain_life: v }],
            None => Seq::empty(),
        }
    }

    pub open spec fn killed(&self, events: Seq<DamageEvent>) -> Seq<u64> {
        if self.outcome(events).died {
            seq![self.entity]
        } else {
            Seq::empty()
        }
    }

    pub open spec fn motion(&self, events: Seq<DamageEvent>) -> Seq<EnemyMotion> {
        if self.survives(events) {
            seq![
                EnemyMotion {
                    entity: self.entity,
                    step: self.controller.motion_pattern.step(self.translation, self.animator),
                },
            ]
        } else {
            Seq::empty()
        }
    }

    pub open spec fn bullets(&self, events: Seq<DamageEvent>, dt: u64, player: Position) -> Seq<
        BulletSpawn,
    > {
        if self.survives(events) {
            self.controller.update_bullets(dt, self.translation, player, self.animator)
        } else {
            Seq::empty()
        }
    }
}

pub open spec fn frame_lifebar_updates(
    es: Seq<Enemy>,
    events: Seq<DamageEvent>,
    boss: u64,
) -> Seq<UpdateLifebarsEvent>
    decreases es.len(),
{
    if es.len() == 0 {
        Seq::empty()
    } else {
        frame_lifebar_updates(es.drop_last(), events, boss) + es.last().lifebar_update(events, boss)
    }
}

pub open spec fn frame_killed(es: Seq<Enemy>, events: Seq<DamageEvent>) -> Seq<u64>
    decreases es.len(),
{
    if es.len() == 0 {
        Seq::empty()
    } else {
        frame_killed(es.drop_last(), events) + es.last().killed(events)
    }
}

pub open spec fn frame_motions(es: Seq<Enemy>, events: Seq<DamageEvent>) -> Seq<EnemyMotion>
    decreases es.len(),
{
    if es.len() == 0 {
        Seq::empty()
    } else {
        frame_motions(es.drop_last(), events) + es.last().motion(events)
    }
}

pub open spec fn frame_bullets(
    es: Seq<Enemy>,
    events: Seq<DamageEvent>,
    dt: u64,
    player: Position,
) -> Seq<BulletSpawn>
    decreases es.len(),
{
    if es.len() == 0 {
        Seq::empty()
    } else {
        frame_bullets(es.drop_last(), events, dt, player) + es.last().bullets(events, dt, player)
    }
}

/// The enemy controllers are well formed.
pub open spec fn enemies_wf(es: Seq<Enemy>) -> bool {
    forall|i: int| 0 <= i < es.len() ==> (#[trigger] es[i]).controller.wf()
}

/// One frame of `dt` microseconds: the timeline spawns what is due; then each
/// enemy, in order, takes the damage of `damage_events` addressed to it, which
/// is reported to the boss lifebar, and either dies or moves and fires. A dead
/// enemy stays inert.
pub fn update_enemy(
    manager: &mut EnemyManager,
    enemies: &mut Vec<Enemy>,
    dt: u64,
    player_position: Position,
    damage_events: &Vec<DamageEvent>,
) -> (r: EnemyFrame)
    requires
        old(manager).wf(),
        enemies_wf(old(enemies)@),
    ensures
        final(manager).wf(),
        enemies_wf(final(enemies)@),
        final(enemies)@.len() == old(enemies)@.len(),
        forall|i: int|
            0 <= i < old(enemies)@.len() ==> #[trigger] final(enemies)@[i] == old(
                enemies,
            )@[i].ticked(damage_events@, dt),
        r.lifebar_updates@ == frame_lifebar_updates(
            old(enemies)@,
            damage_events@,
            old(manager).boss_lifebar_entity,
        ),
        r.killed@ == frame_killed(old(enemies)@, damage_events@),
        r.motions@ == frame_motions(old(enemies)@, damage_events@),
        r.bullets@ == frame_bullets(old(enemies)@, damage_events@, dt, player_position),
        final(manager).descriptors@ == old(manager).descriptors@,
        final(manager).boss_lifebar_entity == old(manager).boss_lifebar_entity,
        final(manager).timeline.events@ == old(manager).timeline.events@,
        final(manager).timeline.time == sat_time(old(manager).timeline.time + dt),
        final(manager).timeline.index == pending_from(
            event_times(old(manager).timeline.events@),
            old(manager).timeline.index as int,
            final(manager).timeline.time as int,
        ),
        r.spawned@.len() == final(manager).timeline.index - old(manager).timeline.index,
        forall|j: int|
            0 <= j < r.spawned@.len() ==> outcome_of(
                old(manager).registry(),
                old(manager).timeline.events@[old(manager).timeline.index + j],
                #[trigger] r.spawned@[j],
            ),
{
    let spawned = manager.execute_timeline(dt);
    let boss = manager.boss_lifebar_entity;
    let ghost before = enemies@;
    let mut lifebar_updates: Vec<UpdateLifebarsEvent> = Vec::new();
    let mut killed: Vec<u64> = Vec::new();
    let mut motions: Vec<EnemyMotion> = Vec::new();
    let mut bullets: Vec<BulletSpawn> = Vec::new();
    let mut i: usize = 0;
    while i < enemies.len()
        invariant
            i <= enemies@.len(),
            enemies@.len() == before.len(),
            enemies_wf(enemies@),
            forall|j: int| 0 <= j < i ==> #[trigger] enemies@[j] == before[j].ticked(damage_events@, dt),
            forall|j: int| i <= j < before.len() ==> #[trigger] enemies@[j] == before[j],
            lifebar_updates@ == frame_lifebar_updates(before.subrange(0, i as int), damage_events@, boss),
            killed@ == frame_killed(before.subrange(0, i as int), damage_events@),
            motions@ == frame_motions(before.subrange(0, i as int), damage_events@),
            bullets@ == frame_bullets(before.subrange(0, i as int), damage_events@, dt, player_position),
        decreases before.len() - i,
    {
        let ghost prefix = before.subrange(0, i + 1);
        assert(prefix.drop_last() =~= before.subrange(0, i as int));
        assert(prefix.last() == before[i as int]);
        let mut e = enemies[i];
        let tick = e.controller.tick(
            e.entity,
            damage_events,
            dt,
            e.translation,
            player_position,
            e.animator,
        );
        let ghost l0 = lifebar_updates@;
        match tick.life.notify {
            Some(v) => lifebar_updates.push(UpdateLifebarsEvent { entity: boss, remain_life: v }),
            None => {},
        }
        assert(lifebar_updates@ =~= l0 + before[i as int].lifebar_update(damage_events@, boss));
        let ghost k0 = killed@;
        if tick.life.died {
            killed.push(e.entity);
        }
        assert(killed@ =~= k0 + before[i as int].killed(damage_events@));
        let ghost m0 = motions@;
        let ghost b0 = bullets@;
        match tick.update {
            Some(update) => {
                motions.push(EnemyMotion { entity: e.entity, step: update.motion });
                let mut fired = update.bullets;
                bullets.append(&mut fired);
            },
            None => {},
        }
        assert(motions@ =~= m0 + before[i as int].motion(damage_events@));
        assert(bullets@ =~= b0 + before[i as int].bullets(damage_events@, dt, player_position));
        enemies.set(i, e);
        i = i + 1;
    }
    assert(before.subrange(0, i as int) =~= before);
    EnemyFrame { spawned, lifebar_updates, killed, motions, bullets }
}

} // verus!

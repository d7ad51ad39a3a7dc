//! Life and damage, shared by the player and the enemies.
use vstd::prelude::*;

verus! {

/// Damage addressed to one entity.
#[derive(Clone, Copy, Debug, PartialEq, Eq, Structural)]
pub struct DamageEvent {
    pub entity: u64,
    pub damage: u64,
}

/// Sum of the damage that `events` address to `entity`.
pub open spec fn damage_for(events: Seq<DamageEvent>, entity: u64) -> int
    decreases events.len(),
{
    if events.len() == 0 {
        0
    } else {
        damage_for(events.drop_last(), entity) + if events.last().entity == entity {
            events.last().damage as int
        } else {
            0
        }
    }
}

/// The damage that `events` address to `entity`, summed; a sum beyond `u64`
/// stops at its largest value.
pub fn total_damage(events: &Vec<DamageEvent>, entity: u64) -> (r: u64)
    ensures
        r == if damage_for(events@, entity) > u64::MAX {
            u64::MAX as int
        } else {
            damage_for(events@, entity)
        },
{
    let mut sum: u64 = 0;
    let mut i: usize = 0;
    while i < events.len()
        invariant
            i <= events@.len(),
            sum == if damage_for(events@.subrange(0, i as int), entity) > u64::MAX {
                u64::MAX as int
            } else {
                damage_for(events@.subrange(0, i as int), entity)
            },
            damage_for(events@.subrange(0, i as int), entity) >= 0,
        decreases events@.len() - i,
    {
        assert(events@.subrange(0, i + 1).drop_last() =~= events@.subrange(0, i as int));
        if events[i].entity == entity {
            sum = sum.saturating_add(events[i].damage);
        }
        i = i + 1;
    }
    assert(events@.subrange(0, i as int) =~= events@);
    sum
}

/// Life of an entity, which dies once and for good when it reaches zero.
#[derive(Clone, Copy, Debug, PartialEq, Eq, Structural)]
pub struct LifeState {
    pub max_life: u64,
    pub remain_life: u64,
    pub dead: bool,
}

/// What one application of damage changed.
#[derive(Clone, Copy, Debug, PartialEq, Eq, Structural)]
pub struct LifeOutcome {
    /// The new remaining life, to pass on to a lifebar, when damage was taken.
    pub notify: Option<u64>,
    /// Whether the entity died now.
    pub died: bool,
}

/// The life left after `damage`, never below zero.
pub open spec fn life_left(remain: int, damage: int) -> int {
    if damage >= remain {
        0
    } else {
        remain - damage
    }
}

/// The state after one tick that deals `damage`; a dead entity takes none.
pub open spec fn life_next(s: LifeState, damage: int) -> LifeState {
    if s.dead {
        s
    } else {
        let remain = life_left(s.remain_life as int, damage);
        LifeState { max_life: s.max_life, remain_life: remain as u64, dead: remain == 0 }
    }
}

/// Whether the tick that deals `damage` kills the entity.
pub open spec fn life_dies(s: LifeState, damage: int) -> bool {
    !s.dead && life_left(s.remain_life as int, damage) == 0
}

/// What the tick that deals `damage` reports.
pub open spec fn life_outcome(s: LifeState, damage: int) -> LifeOutcome {
    LifeOutcome {
        notify: if !s.dead && damage > 0 {
            Some(life_left(s.remain_life as int, damage) as u64)
        } else {
            None
        },
        died: life_dies(s, damage),
    }
}

impl LifeState {
    /// A living entity at full life.
    pub fn full(max_life: u64) -> (r: LifeState)
        ensures
            r == (LifeState { max_life, remain_life: max_life, dead: false }),
    {
        LifeState { max_life, remain_life: max_life, dead: false }
    }

    pub open spec fn wf(&self) -> bool {
        self.remain_life <= self.max_life
    }

    /// Deals `damage` in one tick: the remaining life drops by it, down to
    /// zero, where the entity dies.
    pub fn apply(&mut self, damage: u64) -> (r: LifeOutcome)
        ensures
            *final(self) == life_next(*old(self), damage as int),
            r == life_outcome(*old(self), damage as int),
            old(self).wf() ==> final(self).wf(),
    {
        if self.dead {
            return LifeOutcome { notify: None, died: false };
        }
        let remain = if damage >= self.remain_life {
            0
        } else {
            self.remain_life - damage
        };
        self.remain_life = remain;
        self.dead = remain == 0;
        LifeOutcome { notify: if damage > 0 { Some(remain) } else { None }, died: remain == 0 }
    }

    /// Deals in one tick all the damage that `events` address to `entity`.
    pub fn apply_events(&mut self, entity: u64, events: &Vec<DamageEvent>) -> (r: LifeOutcome)
        ensures
            *final(self) == life_next(*old(self), damage_for(events@, entity)),
            r == life_outcome(*old(self), damage_for(events@, entity)),
            old(self).wf() ==> final(self).wf(),
    {
        let damage = total_damage(events, entity);
        self.apply(damage)
    }
}

/// Damage dealt in the first `n` ticks.
pub open spec fn cumulative(damages: Seq<u64>, n: int) -> int
    decreases n,
{
    if n <= 0 {
        0
    } else {
        cumulative(damages, n - 1) + damages[n - 1]
    }
}

/// The state after the first `n` ticks of `damages`.
pub open spec fn life_after(s: LifeState, damages: Seq<u64>, n: int) -> LifeState
    decreases n,
{
    if n <= 0 {
        s
    } else {
        life_next(life_after(s, damages, n - 1), damages[n - 1] as int)
    }
}

proof fn lemma_life_closed_form(max_life: u64, damages: Seq<u64>, n: int)
    requires
        0 <= n <= damages.len(),
    ensures
        cumulative(damages, n) >= 0,
        life_after(LifeState { max_life, remain_life: max_life, dead: false }, damages, n) == if n
            > 0 && cumulative(damages, n) >= max_life {
            LifeState { max_life, remain_life: 0, dead: true }
        } else {
            LifeState {
                max_life,
                remain_life: (max_life - cumulative(damages, n)) as u64,
                dead: false,
            }
        },
    decreases n,
{
    if n > 0 {
        lemma_life_closed_form(max_life, damages, n - 1);
    }
}

/// Starting at full life `max_life` and taking the damages `damages`, one
/// entry per tick: the remaining life never grows, and the entity dies exactly
/// once, on the first tick after which the damage taken in all reaches
/// `max_life`.
pub proof fn lemma_damage_monotone(max_life: u64, damages: Seq<u64>)
    ensures
        forall|i: int|
            #![trigger damages[i]]
            0 <= i < damages.len() ==> {
                let s = LifeState { max_life, remain_life: max_life, dead: false };
                &&& life_after(s, damages, i + 1).remain_life <= life_after(
                    s,
                    damages,
                    i,
                ).remain_life
                &&& life_dies(life_after(s, damages, i), damages[i] as int) <==> (cumulative(
                    damages,
                    i + 1,
                ) >= max_life && forall|j: int|
                    0 <= j < i ==> #[trigger] cumulative(damages, j + 1) < max_life)
            },
{
    let s = LifeState { max_life, remain_life: max_life, dead: false };
    assert forall|i: int| 0 <= i < damages.len() implies {
        &&& life_after(s, damages, i + 1).remain_life <= life_after(s, damages, i).remain_life
        &&& life_dies(life_after(s, damages, i), #[trigger] damages[i] as int) <==> (cumulative(
            damages,
            i + 1,
        ) >= max_life && forall|j: int|
            0 <= j < i ==> #[trigger] cumulative(damages, j + 1) < max_life)
    } by {
        lemma_life_closed_form(max_life, damages, i);
        lemma_life_closed_form(max_life, damages, i + 1);
        lemma_cumulative_monotone(damages, i);
        if i > 0 && cumulative(damages, i) >= max_life {
            assert(cumulative(damages, (i - 1) + 1) >= max_life);
        }
    }
}

proof fn lemma_cumulative_monotone(damages: Seq<u64>, n: int)
    requires
        0 <= n <= damages.len(),
    ensures
        forall|j: int| 0 <= j < n ==> #[trigger] cumulative(damages, j + 1) <= cumulative(damages, n),
    decreases n,
{
    if n > 0 {
        lemma_cumulative_monotone(damages, n - 1);
    }
}

} // verus!

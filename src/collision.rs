//! Collision layers, and the damage and despawns that a collision causes.
use vstd::prelude::*;
use crate::life::DamageEvent;

verus! {

/// Damage dealt by one collision.
pub const COLLISION_DAMAGE: u64 = 1;

/// Collision layers; the collision system lets only entities of matching
/// layers touch, so a bullet never hits its own side.
#[derive(Clone, Copy, Debug, PartialEq, Eq, Structural)]
pub enum Layer {
    World,
    Player,
    PlayerBullet,
    Enemy,
    EnemyBullet,
}

/// The layers that an entity belongs to.
#[derive(Clone, Copy, Debug, PartialEq, Eq, Structural)]
pub struct LayerSet {
    pub world: bool,
    pub player: bool,
    pub player_bullet: bool,
    pub enemy: bool,
    pub enemy_bullet: bool,
}

impl LayerSet {
    pub open spec fn has(&self, layer: Layer) -> bool {
        match layer {
            Layer::World => self.world,
            Layer::Player => self.player,
            Layer::PlayerBullet => self.player_bullet,
            Layer::Enemy => self.enemy,
            Layer::EnemyBullet => self.enemy_bullet,
        }
    }

    /// The set that holds `layer` alone.
    pub fn only(layer: Layer) -> (r: LayerSet)
        ensures
            forall|l: Layer| r.has(l) <==> l == layer,
    {
        LayerSet {
            world: layer == Layer::World,
            player: layer == Layer::Player,
            player_bullet: layer == Layer::PlayerBullet,
            enemy: layer == Layer::Enemy,
            enemy_bullet: layer == Layer::EnemyBullet,
        }
    }

    pub fn contains_group(&self, layer: Layer) -> (r: bool)
        ensures
            r == self.has(layer),
    {
        match layer {
            Layer::World => self.world,
            Layer::Player => self.player,
            Layer::PlayerBullet => self.player_bullet,
            Layer::Enemy => self.enemy,
            Layer::EnemyBullet => self.enemy_bullet,
        }
    }
}

/// One of the two entities of a collision.
#[derive(Clone, Copy, Debug, PartialEq, Eq, Structural)]
pub struct Body {
    pub entity: u64,
    pub groups: LayerSet,
}

/// Two entities that started to touch.
#[derive(Clone, Copy, Debug, PartialEq, Eq, Structural)]
pub struct CollisionStarted {
    pub first: Body,
    pub second: Body,
}

/// What a batch of collisions causes.
pub struct CollisionEffects {
    /// Damage to players and enemies.
    pub damages: Vec<DamageEvent>,
    /// Bullets to remove.
    pub despawns: Vec<u64>,
    /// Enemies that were hit, one hit sound each.
    pub hit_sounds: Vec<u64>,
}

/// `seq![x]` when `c` holds, else nothing.
pub open spec fn when<T>(c: bool, x: T) -> Seq<T> {
    if c {
        seq![x]
    } else {
        Seq::empty()
    }
}

/// Damage from one collision: first to players, then to enemies.
pub open spec fn collision_damages(ev: CollisionStarted) -> Seq<DamageEvent> {
    when(ev.first.groups.has(Layer::Player), DamageEvent { entity: ev.first.entity, damage: COLLISION_DAMAGE })
        + when(ev.second.groups.has(Layer::Player), DamageEvent { entity: ev.second.entity, damage: COLLISION_DAMAGE })
        + when(ev.first.groups.has(Layer::Enemy), DamageEvent { entity: ev.first.entity, damage: COLLISION_DAMAGE })
        + when(ev.second.groups.has(Layer::Enemy), DamageEvent { entity: ev.second.entity, damage: COLLISION_DAMAGE })
}

/// Bullets removed by one collision: first player bullets, then enemy bullets.
pub open spec fn collision_despawns(ev: CollisionStarted) -> Seq<u64> {
    when(ev.first.groups.has(Layer::PlayerBullet), ev.first.entity)
        + when(ev.second.groups.has(Layer::PlayerBullet), ev.second.entity)
        + when(ev.first.groups.has(Layer::EnemyBullet), ev.first.entity)
        + when(ev.second.groups.has(Layer::EnemyBullet), ev.second.entity)
}

/// Enemies hit by one collision.
pub open spec fn collision_hits(ev: CollisionStarted) -> Seq<u64> {
    when(ev.first.groups.has(Layer::Enemy), ev.first.entity)
        + when(ev.second.groups.has(Layer::Enemy), ev.second.entity)
}

pub open spec fn all_damages(events: Seq<CollisionStarted>) -> Seq<DamageEvent>
    decreases events.len(),
{
    if events.len() == 0 {
        Seq::empty()
    } else {
        all_damages(events.drop_last()) + collision_damages(events.last())
    }
}

pub open spec fn all_despawns(events: Seq<CollisionStarted>) -> Seq<u64>
    decreases events.len(),
{
    if events.len() == 0 {
        Seq::empty()
    } else {
        all_despawns(events.drop_last()) + collision_despawns(events.last())
    }
}

pub open spec fn all_hits(events: Seq<CollisionStarted>) -> Seq<u64>
    decreases events.len(),
{
    if events.len() == 0 {
        Seq::empty()
    } else {
        all_hits(events.drop_last()) + collision_hits(events.last())
    }
}

fn push_when<T>(v: &mut Vec<T>, c: bool, x: T)
    ensures
        final(v)@ == old(v)@ + when(c, x),
{
    if c {
        v.push(x);
    } else {
        assert(old(v)@ + when(c, x) =~= old(v)@);
    }
}

fn push_damages(v: &mut Vec<DamageEvent>, ev: CollisionStarted)
    ensures
        final(v)@ == old(v)@ + collision_damages(ev),
{
    let ghost v0 = v@;
    let (a, b) = (ev.first, ev.second);
    push_when(v, a.groups.contains_group(Layer::Player), DamageEvent { entity: a.entity, damage: COLLISION_DAMAGE });
    push_when(v, b.groups.contains_group(Layer::Player), DamageEvent { entity: b.entity, damage: COLLISION_DAMAGE });
    push_when(v, a.groups.contains_group(Layer::Enemy), DamageEvent { entity: a.entity, damage: COLLISION_DAMAGE });
    push_when(v, b.groups.contains_group(Layer::Enemy), DamageEvent { entity: b.entity, damage: COLLISION_DAMAGE });
    assert(v@ =~= v0 + collision_damages(ev));
}

fn push_despawns(v: &mut Vec<u64>, ev: CollisionStarted)
    ensures
        final(v)@ == old(v)@ + collision_despawns(ev),
{
    let ghost v0 = v@;
    let (a, b) = (ev.first, ev.second);
    push_when(v, a.groups.contains_group(Layer::PlayerBullet), a.entity);
    push_when(v, b.groups.contains_group(Layer::PlayerBullet), b.entity);
    push_when(v, a.groups.contains_group(Layer::EnemyBullet), a.entity);
    push_when(v, b.groups.contains_group(Layer::EnemyBullet), b.entity);
    assert(v@ =~= v0 + collision_despawns(ev));
}

fn push_hits(v: &mut Vec<u64>, ev: CollisionStarted)
    ensures
        final(v)@ == old(v)@ + collision_hits(ev),
{
    let ghost v0 = v@;
    let (a, b) = (ev.first, ev.second);
    push_when(v, a.groups.contains_group(Layer::Enemy), a.entity);
    push_when(v, b.groups.contains_group(Layer::Enemy), b.entity);
    assert(v@ =~= v0 + collision_hits(ev));
}

/// Translates the collisions of one tick, in order: a body in the player or
/// the enemy layer takes damage, a bullet is removed, and a hit enemy makes a
/// sound.
pub fn detect_collisions(events: &Vec<CollisionStarted>) -> (r: CollisionEffects)
    ensures
        r.damages@ == all_damages(events@),
        r.despawns@ == all_despawns(events@),
        r.hit_sounds@ == all_hits(events@),
{
    let mut damages: Vec<DamageEvent> = Vec::new();
    let mut despawns: Vec<u64> = Vec::new();
    let mut hit_sounds: Vec<u64> = Vec::new();
    let mut i: usize = 0;
    while i < events.len()
        invariant
            i <= events@.len(),
            damages@ == all_damages(events@.subrange(0, i as int)),
            despawns@ == all_despawns(events@.subrange(0, i as int)),
            hit_sounds@ == all_hits(events@.subrange(0, i as int)),
        decreases events@.len() - i,
    {
        let ghost prefix = events@.subrange(0, i + 1);
        assert(prefix.drop_last() =~= events@.subrange(0, i as int));
        let ev = events[i];
        push_damages(&mut damages, ev);
        push_despawns(&mut despawns, ev);
        push_hits(&mut hit_sounds, ev);
        i = i + 1;
    }
    assert(events@.subrange(0, i as int) =~= events@);
    CollisionEffects { damages, despawns, hit_sounds }
}

} // verus!

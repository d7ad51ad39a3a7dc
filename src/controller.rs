//! Controllers of the enemies and of the player: life, damage, and what each
//! does per tick while alive.
use vstd::prelude::*;
use crate::collision::Layer;
use crate::fire::{BulletKind, BulletSpawn, FireTag, Heading};
use crate::geometry::{offset_spec, Position};
use crate::lifebar::UpdateLifebarsEvent;
use crate::life::{damage_for, life_next, life_outcome, DamageEvent, LifeOutcome, LifeState};
use crate::motion::{AnimatorView, MotionPattern, MotionResult, MotionStep};

verus! {

/// What a living enemy did in one tick.
pub struct EnemyUpdate {
    pub motion: MotionStep,
    pub bullets: Vec<BulletSpawn>,
}

/// What one tick of an enemy caused.
pub struct EnemyTick {
    /// Damage taken and death.
    pub life: LifeOutcome,
    /// Motion and fire, when the enemy was alive through the tick.
    pub update: Option<EnemyUpdate>,
}

#[derive(Clone, Copy, Debug, PartialEq, Eq, Structural)]
pub struct EnemyController {
    pub motion_pattern: MotionPattern,
    pub fire_tag: FireTag,
    pub fire_tag_started: bool,
    pub life: LifeState,
}

impl EnemyController {
    pub open spec fn wf(&self) -> bool {
        &&& self.motion_pattern.wf()
        &&& self.fire_tag.wf()
        &&& self.life.wf()
    }

    /// Whether fire runs in a step that observes `animator`.
    pub open spec fn fires_after(&self, translation: Position, animator: AnimatorView) -> bool {
        self.fire_tag_started || self.motion_pattern.step(translation, animator).result
            == MotionResult::StartFireTag
    }

    /// The state after a tick that observes `animator`, once alive through it.
    pub open spec fn updated(
        &self,
        dt: u64,
        translation: Position,
        animator: AnimatorView,
    ) -> EnemyController {
        EnemyController {
            motion_pattern: self.motion_pattern.next(animator),
            fire_tag: if self.fires_after(translation, animator) {
                self.fire_tag.next(dt)
            } else {
                self.fire_tag
            },
            fire_tag_started: self.fires_after(translation, animator),
            life: self.life,
        }
    }

    /// Bullets of a tick that observes `animator`, once alive through it.
    pub open spec fn update_bullets(
        &self,
        dt: u64,
        translation: Position,
        player_position: Position,
        animator: AnimatorView,
    ) -> Seq<BulletSpawn> {
        if self.fires_after(translation, animator) {
            self.fire_tag.bullets(dt, translation, player_position)
        } else {
            Seq::empty()
        }
    }

    /// The state after a whole tick of enemy `entity`.
    pub open spec fn ticked(
        &self,
        entity: u64,
        damage_events: Seq<DamageEvent>,
        dt: u64,
        translation: Position,
        animator: AnimatorView,
    ) -> EnemyController {
        let life = life_next(self.life, damage_for(damage_events, entity));
        if life.dead {
            EnemyController { life, ..*self }
        } else {
            EnemyController { life, ..self.updated(dt, translation, animator) }
        }
    }

    /// A living enemy at full life that has not started to fire.
    pub fn new(motion_pattern: MotionPattern, fire_tag: FireTag, max_life: u64) -> (r:
        EnemyController)
        ensures
            r == (EnemyController {
                motion_pattern,
                fire_tag,
                fire_tag_started: false,
                life: LifeState { max_life, remain_life: max_life, dead: false },
            }),
    {
        EnemyController {
            motion_pattern,
            fire_tag,
            fire_tag_started: false,
            life: LifeState::full(max_life),
        }
    }

    /// Moves, then fires once the motion has signalled it, this tick included.
    pub fn update(
        &mut self,
        dt: u64,
        translation: Position,
        player_position: Position,
        animator: AnimatorView,
    ) -> (r: EnemyUpdate)
        requires
            old(self).wf(),
        ensures
            final(self).wf(),
            *final(self) == old(self).updated(dt, translation, animator),
            r.motion == old(self).motion_pattern.step(translation, animator),
            r.bullets@ == old(self).update_bullets(dt, translation, player_position, animator),
    {
        let motion = self.motion_pattern.do_motion(dt, translation, animator);
        if motion.result == MotionResult::StartFireTag {
            self.fire_tag_started = true;
        }
        let bullets = if self.fire_tag_started {
            self.fire_tag.execute(dt, translation, player_position)
        } else {
            Vec::new()
        };
        EnemyUpdate { motion, bullets }
    }

    /// One tick of enemy `entity`: takes the damage of `damage_events` addressed
    /// to it; if it is still alive, moves and fires. A dead enemy does nothing.
    pub fn tick(
        &mut self,
        entity: u64,
        damage_events: &Vec<DamageEvent>,
        dt: u64,
        translation: Position,
        player_position: Position,
        animator: AnimatorView,
    ) -> (r: EnemyTick)
        requires
            old(self).wf(),
        ensures
            final(self).wf(),
            final(self).life == life_next(old(self).life, damage_for(damage_events@, entity)),
            r.life == life_outcome(old(self).life, damage_for(damage_events@, entity)),
            *final(self) == old(self).ticked(entity, damage_events@, dt, translation, animator),
            final(self).life.dead ==> r.update.is_none(),
            !final(self).life.dead ==> {
                &&& r.update.is_some()
                &&& r.update.unwrap().motion == old(self).motion_pattern.step(
                    translation,
                    animator,
                )
                &&& r.update.unwrap().bullets@ == old(self).update_bullets(
                    dt,
                    translation,
                    player_position,
                    animator,
                )
            },
    {
        let life = self.life.apply_events(entity, damage_events);
        if self.life.dead {
            return EnemyTick { life, update: None };
        }
        let update = self.update(dt, translation, player_position, animator);
        EnemyTick { life, update: Some(update) }
    }
}

/// Time between two shots of the player, in microseconds.
pub const PRIMARY_FIRE_DELAY: u64 = 84_000;

/// Speed of the player's shots, in thousandths of a world unit per second.
pub const PRIMARY_BULLET_SPEED: u32 = 5000;

/// Where the player's shots leave, ahead of the ship.
pub const FIRE_OFFSET_X: i32 = 87;

/// Depth at which the player's shots leave.
pub const FIRE_OFFSET_Z: i32 = -33;

/// Vertical spacing of the player's three shots.
pub const PRIMARY_SPREAD: i32 = 100;

/// What one tick of the player caused.
pub struct PlayerTick {
    pub life: LifeOutcome,
    /// The new remaining life, for the player's lifebar, when damage was taken.
    pub lifebar_update: Option<UpdateLifebarsEvent>,
    /// Shots fired this tick.
    pub bullets: Vec<BulletSpawn>,
}

pub struct PlayerController {
    pub life: LifeState,
    /// Time until the primary weapon may fire again, in microseconds. Time
    /// below zero is never carried over to a later tick, so it stays at zero.
    pub primary_cooloff: u64,
    pub primary_fire_delay: u64,
    /// Where shots leave, relative to the player.
    pub primary_fire_offset: Position,
    pub bullet_speed: u32,
    /// Entity of the HUD that shows the player's life.
    pub lifebar_entity: u64,
}

/// Whether the primary weapon fires this tick.
pub open spec fn primary_fires(cooloff: int, dt: int, shoot: bool) -> bool {
    shoot && cooloff - dt <= 0
}

/// The cooldown after a tick of `dt`: a shot adds the fire delay to what is
/// left of the cooldown, so that a held trigger keeps a steady rate.
pub open spec fn cooloff_next(cooloff: int, delay: int, dt: int, shoot: bool) -> int {
    let left = cooloff - dt;
    let v = if primary_fires(cooloff, dt, shoot) {
        (if cooloff > 0 {
            left
        } else {
            0
        }) + delay
    } else {
        left
    };
    if v < 0 {
        0
    } else {
        v
    }
}

/// One shot of player `p` from `origin`.
pub open spec fn player_shot(p: PlayerController, origin: Position) -> BulletSpawn {
    BulletSpawn {
        origin,
        heading: Heading::Angle(0),
        speed: p.bullet_speed,
        kind: BulletKind::PlayerShot,
        layer: Layer::PlayerBullet,
    }
}

/// The three shots of the player at `position`.
pub open spec fn player_volley(p: PlayerController, position: Position) -> Seq<BulletSpawn> {
    let base = offset_spec(
        position,
        p.primary_fire_offset.x as int,
        p.primary_fire_offset.y as int,
        p.primary_fire_offset.z as int,
    );
    seq![
        player_shot(p, base),
        player_shot(p, offset_spec(base, 0, PRIMARY_SPREAD as int, 0)),
        player_shot(p, offset_spec(base, 0, -PRIMARY_SPREAD, 0)),
    ]
}

impl PlayerController {
    /// A player at full life, with the standard weapon.
    pub fn new(max_life: u64, lifebar_entity: u64) -> (r: PlayerController)
        ensures
            r.life == (LifeState { max_life, remain_life: max_life, dead: false }),
            r.primary_cooloff == 0,
            r.primary_fire_delay == PRIMARY_FIRE_DELAY,
            r.primary_fire_offset == (Position { x: FIRE_OFFSET_X, y: 0, z: FIRE_OFFSET_Z }),
            r.bullet_speed == PRIMARY_BULLET_SPEED,
            r.lifebar_entity == lifebar_entity,
    {
        PlayerController {
            life: LifeState::full(max_life),
            primary_cooloff: 0,
            primary_fire_delay: PRIMARY_FIRE_DELAY,
            primary_fire_offset: Position { x: FIRE_OFFSET_X, y: 0, z: FIRE_OFFSET_Z },
            bullet_speed: PRIMARY_BULLET_SPEED,
            lifebar_entity,
        }
    }

    /// One shot of the player from `origin`, flying along +X.
    pub fn spawn_bullet(&self, origin: Position) -> (r: BulletSpawn)
        ensures
            r == player_shot(*self, origin),
            r.origin == origin,
            r.heading == Heading::Angle(0),
            r.speed == self.bullet_speed,
            r.kind == BulletKind::PlayerShot,
            r.layer == Layer::PlayerBullet,
    {
        BulletSpawn {
            origin,
            heading: Heading::Angle(0),
            speed: self.bullet_speed,
            kind: BulletKind::PlayerShot,
            layer: Layer::PlayerBullet,
        }
    }

    /// The three shots of the primary weapon of a player at `position`: one
    /// at the fire offset, one above it and one below.
    pub fn primary_volley(&self, position: Position) -> (r: Vec<BulletSpawn>)
        ensures
            r@ == player_volley(*self, position),
    {
        let base = position.offset(
            self.primary_fire_offset.x,
            self.primary_fire_offset.y,
            self.primary_fire_offset.z,
        );
        let mut v: Vec<BulletSpawn> = Vec::new();
        v.push(self.spawn_bullet(base));
        v.push(self.spawn_bullet(base.offset(0, PRIMARY_SPREAD, 0)));
        v.push(self.spawn_bullet(base.offset(0, -PRIMARY_SPREAD, 0)));
        assert(v@ =~= player_volley(*self, position));
        v
    }

    /// One tick of player `entity` at `position`, with `shoot` telling whether
    /// the fire button is held: takes the damage addressed to it; if still
    /// alive, fires when the weapon has cooled down.
    pub fn tick(
        &mut self,
        entity: u64,
        damage_events: &Vec<DamageEvent>,
        dt: u64,
        position: Position,
        shoot: bool,
    ) -> (r: PlayerTick)
        requires
            old(self).life.wf(),
        ensures
            final(self).life.wf(),
            final(self).life == life_next(old(self).life, damage_for(damage_events@, entity)),
            r.life == life_outcome(old(self).life, damage_for(damage_events@, entity)),
            r.lifebar_update == match r.life.notify {
                Some(v) => Some(UpdateLifebarsEvent { entity: old(self).lifebar_entity, remain_life: v }),
                None => None,
            },
            final(self).primary_fire_delay == old(self).primary_fire_delay,
            final(self).primary_fire_offset == old(self).primary_fire_offset,
            final(self).bullet_speed == old(self).bullet_speed,
            final(self).lifebar_entity == old(self).lifebar_entity,
            final(self).life.dead ==> {
                &&& r.bullets@.len() == 0
                &&& final(self).primary_cooloff == old(self).primary_cooloff
            },
            !final(self).life.dead ==> {
                &&& final(self).primary_cooloff == cooloff_next(
                    old(self).primary_cooloff as int,
                    old(self).primary_fire_delay as int,
                    dt as int,
                    shoot,
                )
                &&& r.bullets@ == if primary_fires(old(self).primary_cooloff as int, dt as int, shoot) {
                    player_volley(*old(self), position)
                } else {
                    Seq::empty()
                }
            },
    {
        let life = self.life.apply_events(entity, damage_events);
        let lifebar_update = match life.notify {
            Some(v) => Some(UpdateLifebarsEvent { entity: self.lifebar_entity, remain_life: v }),
            None => None,
        };
        if self.life.dead {
            return PlayerTick { life, lifebar_update, bullets: Vec::new() };
        }
        let was_cooling = self.primary_cooloff > 0;
        let fires = shoot && self.primary_cooloff <= dt;
        let mut bullets: Vec<BulletSpawn> = Vec::new();
        if fires {
            let next = if was_cooling {
                self.primary_fire_delay.saturating_sub(dt - self.primary_cooloff)
            } else {
                self.primary_fire_delay
            };
            self.primary_cooloff = next;
            bullets = self.primary_volley(position);
        } else {
            self.primary_cooloff = self.primary_cooloff.saturating_sub(dt);
        }
        PlayerTick { life, lifebar_update, bullets }
    }
}

} // verus!

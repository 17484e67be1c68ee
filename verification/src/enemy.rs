//! Enemies: immutable type templates with multi-phase behavior, and the
//! per-tick state machine that moves them, fires their patterns, and
//! advances their phases.

use vstd::prelude::*;

verus! {

use crate::fx::{FX_ONE, Vec2Fx, Vec2V, spec_rot90, spec_cos_turn, spec_sin_turn, fx_cos_turn,
    fx_sin_turn, sat_add, spec_sat_add};
use crate::projectiles::{ProjectileTemplate, spec_template_wf, Projectile, ProjectileV,
    spec_spawn, spec_proj_wf};
use crate::rng::{GameRng, spec_rng_next};
use crate::utils::{SPEED_LIMIT, ENEMY_POS_LIMIT, POS_LIMIT, HEALTH_CAP, HEALTH_LIMIT, SHIELD_CAP,
    ROOM_MIN_X, ROOM_MIN_Y, ROOM_MAX_X, ROOM_MAX_Y};

/// How an enemy moves during a phase.
#[derive(Clone, Copy, PartialEq, Eq, Structural, Debug)]
pub enum EnemyMovement {
    /// Walks straight at the player.
    Chase,
    /// Walks toward a persisted random target; the flag says whether the
    /// enemy faces the player rather than its walking direction.
    Wander(bool),
    /// Stands still.
    Still,
    /// Keeps going along its current facing direction.
    Fowards,
}

/// How an enemy fires during a phase.
#[derive(Clone, Copy, PartialEq, Eq, Structural, Debug)]
pub enum ProjectileFiring {
    /// Fires nothing.
    Unarmed,
    /// Four projectiles at quarter-turn offsets from the facing
    /// direction, every `delay` frames.
    Cardinally(ProjectileTemplate, u8),
    /// One projectile along the facing direction, every `delay` frames.
    Forwards(ProjectileTemplate, u8),
    /// `count` projectiles at evenly spaced angles, every `delay` frames.
    Around(ProjectileTemplate, u8, u8),
}

/// The category a layout cell or spawn table refers to.
#[derive(Clone, Copy, PartialEq, Eq, Structural, Debug, Hash)]
pub enum EnemyTier {
    Light,
    Ranged,
    Heavy,
    Extra,
    Miniboss,
}

/// When a phase gives way to the next one.
#[derive(Clone, Copy, PartialEq, Eq, Structural, Debug)]
pub enum PhaseEndCondition {
    /// The phase lasts indefinitely.
    Never,
    /// The phase lasts a single frame.
    SingleFrame,
    /// The phase lasts this many frames.
    Frames(u32),
    /// The phase ends once health falls to this fraction of the maximum
    /// (a fixed-point fraction of `FX_ONE`).
    HealthUnder(i64),
    /// The phase ends when the enemy hits a wall or the player.
    Collision,
}

/// One behavior bundle of an enemy's phase list.
#[derive(Clone, Copy, PartialEq, Eq, Structural, Debug)]
pub struct EnemyPhase {
    pub movement: EnemyMovement,
    pub firing: ProjectileFiring,
    pub sprite_x: i64,
    pub sprite_y: i64,
    pub frames: usize,
    pub end: PhaseEndCondition,
}

/// The mathematical value of an enemy type.
#[verifier::ext_equal]
pub struct EnemyTypeV {
    pub speed: int,
    pub phases: Seq<EnemyPhase>,
    pub max_health: int,
}

/// An immutable enemy template: speed, ordered phase list, max health.
#[derive(Clone, Debug)]
pub struct EnemyType {
    pub speed: i64,
    pub phases: Vec<EnemyPhase>,
    pub max_health: i64,
}

impl View for EnemyType {
    type V = EnemyTypeV;

    open spec fn view(&self) -> EnemyTypeV {
        EnemyTypeV {
            speed: self.speed as int,
            phases: self.phases@,
            max_health: self.max_health as int,
        }
    }
}

pub open spec fn spec_phase_wf(p: EnemyPhase) -> bool {
    &&& spec_firing_wf(p.firing)
    &&& match p.end {
        PhaseEndCondition::HealthUnder(f) => 0 <= f <= FX_ONE,
        _ => true,
    }
}

pub open spec fn spec_enemy_type_wf(t: EnemyTypeV) -> bool {
    &&& 0 <= t.speed <= SPEED_LIMIT
    &&& 0 < t.max_health <= HEALTH_LIMIT
    &&& 1 <= t.phases.len()
    &&& forall|i: int| 0 <= i < t.phases.len() ==> spec_phase_wf(#[trigger] t.phases[i])
}

/// The mathematical value of a live enemy.
#[verifier::ext_equal]
pub struct EnemyV {
    pub ty: EnemyTypeV,
    pub id: usize,
    pub pos: Vec2V,
    pub direction: Vec2V,
    pub anim_frame: int,
    pub move_target: Option<Vec2V>,
    pub health: int,
    pub shield: int,
    pub damage_frames: int,
    pub attack_counter: int,
    pub phase_index: int,
    pub phase_frame_counter: int,
}

/// A live enemy: a copy of its type template plus its mutable state.
#[derive(Clone, Debug)]
pub struct Enemy {
    pub ty: EnemyType,
    /// Unique, monotonically assigned when entering the live list.
    pub id: usize,
    pub pos: Vec2Fx,
    pub direction: Vec2Fx,
    pub anim_frame: i64,
    /// The wander target, persisted between ticks.
    pub move_target: Option<Vec2Fx>,
    pub health: i64,
    /// Shield charge: absorbs damage before health does.
    pub shield: i64,
    /// Frames the damage flash still shows.
    pub damage_frames: u8,
    pub attack_counter: u8,
    pub phase_index: usize,
    /// Used only while the active phase ends after a frame count.
    pub phase_frame_counter: u32,
}

impl View for Enemy {
    type V = EnemyV;

    open spec fn view(&self) -> EnemyV {
        EnemyV {
            ty: self.ty@,
            id: self.id,
            pos: self.pos@,
            direction: self.direction@,
            anim_frame: self.anim_frame as int,
            move_target: match self.move_target {
                Option::Some(t) => Option::Some(t@),
                Option::None => Option::None,
            },
            health: self.health as int,
            shield: self.shield as int,
            damage_frames: self.damage_frames as int,
            attack_counter: self.attack_counter as int,
            phase_index: self.phase_index as int,
            phase_frame_counter: self.phase_frame_counter as int,
        }
    }
}

/// Bounds every live enemy obeys between ticks.
pub open spec fn spec_enemy_wf(e: EnemyV) -> bool {
    &&& spec_enemy_type_wf(e.ty)
    &&& 0 <= e.pos.x <= ENEMY_POS_LIMIT
    &&& 0 <= e.pos.y <= ENEMY_POS_LIMIT
    &&& -FX_ONE <= e.direction.x <= FX_ONE
    &&& -FX_ONE <= e.direction.y <= FX_ONE
    &&& match e.move_target {
        Option::Some(t) => 0 <= t.x <= ENEMY_POS_LIMIT && 0 <= t.y <= ENEMY_POS_LIMIT,
        Option::None => true,
    }
    &&& -HEALTH_CAP <= e.health <= HEALTH_CAP
    &&& 0 <= e.shield <= SHIELD_CAP
    &&& 0 <= e.phase_index < e.ty.phases.len()
}

/// An exact copy of an enemy type.
pub fn duplicate_type(t: &EnemyType) -> (r: EnemyType)
    ensures
        r@ == t@,
{
    let mut phases: Vec<EnemyPhase> = Vec::new();
    let mut i: usize = 0;
    while i < t.phases.len()
        invariant
            i <= t.phases.len(),
            phases@ == t.phases@.take(i as int),
        decreases t.phases.len() - i,
    {
        phases.push(t.phases[i]);
        proof {
            assert(phases@ =~= t.phases@.take(i + 1));
        }
        i = i + 1;
    }
    proof {
        assert(t.phases@.take(t.phases@.len() as int) =~= t.phases@);
    }
    let r = EnemyType { speed: t.speed, phases, max_health: t.max_health };
    proof {
        assert(r@ =~= t@);
    }
    r
}

impl Enemy {
    /// A fresh enemy of type `ty` at `pos`: full health, facing right,
    /// no shield, and an attack counter drawn at random below the first
    /// phase's firing delay (so a room does not fire in lockstep).
    pub fn new(ty: &EnemyType, pos: Vec2Fx, id: usize, rng: &mut GameRng) -> (r: Enemy)
        requires
            spec_enemy_type_wf(ty@),
        ensures
            r.ty@ == ty@,
            r.id == id,
            r.pos@ == pos@,
            r.direction@ == (Vec2V { x: FX_ONE as int, y: 0 }),
            r.anim_frame == 0,
            r.move_target is None,
            r.health == ty.max_health,
            r.shield == 0,
            r.damage_frames == 0,
            r.phase_index == 0,
            r.phase_frame_counter == 0,
            ({
                let d = spec_first_firing_delay(ty@);
                if d > 0 {
                    r.attack_counter == spec_rng_next(old(rng)@) as int % d
                        && final(rng)@ == spec_rng_next(old(rng)@)
                } else {
                    r.attack_counter == 0 && final(rng)@ == old(rng)@
                }
            }),
            (r@, final(rng)@) == spec_enemy_new(ty@, pos@, id, old(rng)@),
            0 <= pos@.x <= ENEMY_POS_LIMIT && 0 <= pos@.y <= ENEMY_POS_LIMIT
                ==> spec_enemy_wf(r@),
    {
        let phase = &ty.phases[0];
        let delay: u8 = match &phase.firing {
            ProjectileFiring::Unarmed => 0,
            ProjectileFiring::Cardinally(_, d) => *d,
            ProjectileFiring::Forwards(_, d) => *d,
            ProjectileFiring::Around(_, d, _) => *d,
        };
        let counter: u8 = if delay > 0 {
            rng.gen_range(0, delay as i64) as u8
        } else {
            0
        };
        let r = Enemy {
            ty: duplicate_type(ty),
            id,
            pos,
            direction: Vec2Fx { x: FX_ONE, y: 0 },
            anim_frame: 0,
            move_target: Option::None,
            health: ty.max_health,
            shield: 0,
            damage_frames: 0,
            attack_counter: counter,
            phase_index: 0,
            phase_frame_counter: 0,
        };
        proof {
            assert(r@ =~= spec_enemy_new(ty@, pos@, id, old(rng)@).0);
        }
        r
    }

    /// An exact copy.
    pub fn duplicate_enemy(&self) -> (r: Enemy)
        ensures
            r@ == self@,
    {
        let r = Enemy {
            ty: duplicate_type(&self.ty),
            id: self.id,
            pos: self.pos,
            direction: self.direction,
            anim_frame: self.anim_frame,
            move_target: self.move_target,
            health: self.health,
            shield: self.shield,
            damage_frames: self.damage_frames,
            attack_counter: self.attack_counter,
            phase_index: self.phase_index,
            phase_frame_counter: self.phase_frame_counter,
        };
        proof {
            assert(r@ =~= self@);
        }
        r
    }

    /// The active phase.
    pub fn get_phase(&self) -> (r: &EnemyPhase)
        requires
            0 <= self@.phase_index < self@.ty.phases.len(),
        ensures
            *r == self@.ty.phases[self@.phase_index],
    {
        &self.ty.phases[self.phase_index]
    }
}

/// The enemy `Enemy::new` builds, with the generator state after the
/// one draw it makes when the first phase has a firing delay.
pub open spec fn spec_enemy_new(t: EnemyTypeV, pos: Vec2V, id: usize, rng: u64) -> (EnemyV, u64) {
    let d = spec_first_firing_delay(t);
    let counter = if d > 0 {
        spec_rng_next(rng) as int % d
    } else {
        0
    };
    let r = if d > 0 {
        spec_rng_next(rng)
    } else {
        rng
    };
    (EnemyV {
        ty: t,
        id: id,
        pos: pos,
        direction: Vec2V { x: FX_ONE as int, y: 0 },
        anim_frame: 0,
        move_target: Option::None,
        health: t.max_health,
        shield: 0,
        damage_frames: 0,
        attack_counter: counter,
        phase_index: 0,
        phase_frame_counter: 0,
    }, r)
}

/// The firing delay of the first phase.
pub open spec fn spec_first_firing_delay(t: EnemyTypeV) -> int {
    match t.phases[0].firing {
        ProjectileFiring::Unarmed => 0,
        ProjectileFiring::Cardinally(_, d) => d as int,
        ProjectileFiring::Forwards(_, d) => d as int,
        ProjectileFiring::Around(_, d, _) => d as int,
    }
}

} // verus!

verus! {

use vstd::arithmetic::div_mod::{lemma_div_is_ordered, lemma_multiply_divide_lt, lemma_div_pos_is_pos};
use crate::fx::{lemma_unit_scale_bound, lemma_len_sq_small};

/// What the movement stage of a tick produces.
pub struct MovementV {
    pub move_dir: Vec2V,
    pub direction: Vec2V,
    pub move_target: Option<Vec2V>,
    pub rng: u64,
}

/// A fresh wander target: two draws, one per coordinate, uniform over
/// the walkable room area. Returns the target and the generator state.
pub open spec fn spec_wander_target(rng0: u64) -> (Vec2V, u64) {
    let r1 = spec_rng_next(rng0);
    let x = ROOM_MIN_X + r1 as int % (ROOM_MAX_X - ROOM_MIN_X);
    let r2 = spec_rng_next(r1);
    let y = ROOM_MIN_Y + r2 as int % (ROOM_MAX_Y - ROOM_MIN_Y);
    (Vec2V { x: x, y: y }, r2)
}

/// The movement policy resolved for one tick: the walk direction, the
/// facing direction, the possibly re-rolled wander target, and the
/// generator state after any draws.
pub open spec fn spec_movement(e: EnemyV, m: EnemyMovement, player_pos: Vec2V, rng0: u64)
    -> MovementV {
    match m {
        EnemyMovement::Chase => {
            let d = player_pos.sub(e.pos).norm();
            MovementV { move_dir: d, direction: d, move_target: e.move_target, rng: rng0 }
        }
        EnemyMovement::Still => MovementV {
            move_dir: Vec2V { x: 0, y: 0 },
            direction: e.direction,
            move_target: e.move_target,
            rng: rng0,
        },
        EnemyMovement::Fowards => MovementV {
            move_dir: e.direction,
            direction: e.direction,
            move_target: e.move_target,
            rng: rng0,
        },
        EnemyMovement::Wander(face_player) => match e.move_target {
            Option::None => {
                let (t, r) = spec_wander_target(rng0);
                MovementV {
                    move_dir: Vec2V { x: 0, y: 0 },
                    direction: e.direction,
                    move_target: Option::Some(t),
                    rng: r,
                }
            }
            Option::Some(t) => {
                let delta = t.sub(e.pos);
                let md = delta.norm();
                let dir = if face_player { player_pos.sub(e.pos).norm() } else { md };
                if delta.len_sq() <= 16_000_000 {
                    let (nt, r) = spec_wander_target(rng0);
                    MovementV { move_dir: md, direction: dir, move_target: Option::Some(nt), rng: r }
                } else {
                    MovementV { move_dir: md, direction: dir, move_target: Option::Some(t), rng: rng0 }
                }
            }
        },
    }
}

/// The anti-overlap pass: the repulsion direction away from the last
/// other enemy (in list order) standing within seven pixels, or the
/// incoming direction if none is that close.
pub open spec fn spec_separation(positions: Seq<Vec2V>, my: Vec2V, d: Vec2V) -> Vec2V
    decreases positions.len(),
{
    if positions.len() == 0 {
        d
    } else {
        let p = positions.last();
        if p != my && my.sub(p).len_sq() <= 49_000_000 {
            my.sub(p).norm()
        } else {
            spec_separation(positions.drop_last(), my, d)
        }
    }
}

/// What the firing stage of a tick produces.
pub struct FiringV {
    pub fired: Seq<ProjectileV>,
    pub counter: int,
}

/// An enemy-owned projectile launched from `pos` along `dir`.
pub open spec fn spec_fired(t: ProjectileTemplate, pos: Vec2V, dir: Vec2V) -> ProjectileV {
    ProjectileV { pos: pos, direction: dir, player_owned: false, ..spec_spawn(t) }
}

/// The `k`-th of `n` evenly spaced directions around a full turn.
pub open spec fn spec_around_dir(k: int, n: int) -> Vec2V {
    let a = (k * 1000) / n;
    Vec2V { x: spec_cos_turn(a), y: spec_sin_turn(a) }
}

/// The firing policy resolved for one tick: when the attack counter is
/// elapsed, the pattern's projectiles and a counter reset to the
/// pattern's delay; otherwise no shots and the counter one lower.
pub open spec fn spec_firing(f: ProjectileFiring, counter: int, pos: Vec2V, dir: Vec2V)
    -> FiringV {
    if counter != 0 {
        FiringV { fired: Seq::empty(), counter: counter - 1 }
    } else {
        match f {
            ProjectileFiring::Unarmed => FiringV { fired: Seq::empty(), counter: 0 },
            ProjectileFiring::Forwards(t, d) => FiringV {
                fired: seq![spec_fired(t, pos, dir)],
                counter: d as int,
            },
            ProjectileFiring::Cardinally(t, d) => {
                let d1 = spec_rot90(dir);
                let d2 = spec_rot90(d1);
                let d3 = spec_rot90(d2);
                FiringV {
                    fired: seq![
                        spec_fired(t, pos, dir),
                        spec_fired(t, pos, d1),
                        spec_fired(t, pos, d2),
                        spec_fired(t, pos, d3),
                    ],
                    counter: d as int,
                }
            }
            ProjectileFiring::Around(t, d, n) => FiringV {
                fired: Seq::new(n as nat, |k: int| spec_fired(t, pos, spec_around_dir(k, n as int))),
                counter: d as int,
            },
        }
    }
}

/// The phase-end condition evaluated for one tick: whether the phase
/// ends, and the new frame counter.
pub open spec fn spec_phase_end(end: PhaseEndCondition, e: EnemyV, collision: bool)
    -> (bool, int) {
    match end {
        PhaseEndCondition::Never => (false, e.phase_frame_counter),
        PhaseEndCondition::SingleFrame => (true, e.phase_frame_counter),
        PhaseEndCondition::Collision => (collision, e.phase_frame_counter),
        PhaseEndCondition::Frames(n) => if e.phase_frame_counter >= n {
            (true, 0)
        } else {
            (false, e.phase_frame_counter + 1)
        },
        PhaseEndCondition::HealthUnder(f) => (
            e.health * (FX_ONE as int) <= f * e.ty.max_health,
            e.phase_frame_counter,
        ),
    }
}

/// Everything one enemy tick produces.
pub struct EnemyTickV {
    pub enemy: EnemyV,
    pub rng: u64,
    pub fired: Seq<ProjectileV>,
    pub contact: bool,
    pub alive: bool,
}

pub open spec fn spec_room_lo() -> Vec2V {
    Vec2V { x: ROOM_MIN_X as int, y: ROOM_MIN_Y as int }
}

pub open spec fn spec_room_hi() -> Vec2V {
    Vec2V { x: ROOM_MAX_X as int, y: ROOM_MAX_Y as int }
}

/// One tick of enemy behavior, in the original's order: the damage
/// flash counter drops, the movement policy picks a walk direction, the
/// anti-overlap pass may override it, the enemy moves by its speed and
/// animates, the firing pattern may launch projectiles from the moved
/// (unclamped) position, the position is clamped to the room (a clamp
/// that changes it counts as a wall collision), player contact within
/// four pixels (measured from the tick-start positions) damages a
/// vulnerable player and counts as a collision, the end condition is
/// evaluated, and the phase advances with wrap-around if it held.
/// The enemy stays in the live list only while its health is positive.
pub open spec fn spec_enemy_tick(
    e: EnemyV,
    player_pos: Vec2V,
    positions: Seq<Vec2V>,
    can_damage: bool,
    rng0: u64,
) -> EnemyTickV {
    let player_delta = player_pos.sub(e.pos);
    let dmgf = if e.damage_frames > 0 { e.damage_frames - 1 } else { 0 };
    let phase = e.ty.phases[e.phase_index];
    let mv = spec_movement(e, phase.movement, player_pos, rng0);
    let move_dir = spec_separation(positions, e.pos, mv.move_dir);
    let raw_pos = e.pos.add(move_dir.scale_fx(e.ty.speed));
    let anim = spec_sat_add(e.anim_frame, e.ty.speed);
    let fire = spec_firing(phase.firing, e.attack_counter, raw_pos, mv.direction);
    let new_pos = raw_pos.clamp(spec_room_lo(), spec_room_hi());
    let contact = player_delta.len_sq() <= 16_000_000 && can_damage;
    let collision = new_pos != raw_pos || contact;
    let pe = spec_phase_end(phase.end, e, collision);
    let new_index = if pe.0 {
        if e.phase_index + 1 >= e.ty.phases.len() {
            0int
        } else {
            e.phase_index + 1
        }
    } else {
        e.phase_index
    };
    EnemyTickV {
        enemy: EnemyV {
            pos: new_pos,
            direction: mv.direction,
            anim_frame: anim,
            move_target: mv.move_target,
            damage_frames: dmgf,
            attack_counter: fire.counter,
            phase_index: new_index,
            phase_frame_counter: pe.1,
            ..e
        },
        rng: mv.rng,
        fired: fire.fired,
        contact: contact,
        alive: e.health > 0,
    }
}

/// A fresh wander target drawn from the walkable room area.
fn wander_target(rng: &mut GameRng) -> (r: Vec2Fx)
    ensures
        r@ == spec_wander_target(old(rng)@).0,
        final(rng)@ == spec_wander_target(old(rng)@).1,
        ROOM_MIN_X <= r.x < ROOM_MAX_X,
        ROOM_MIN_Y <= r.y < ROOM_MAX_Y,
{
    let x = rng.gen_range(ROOM_MIN_X, ROOM_MAX_X);
    let y = rng.gen_range(ROOM_MIN_Y, ROOM_MAX_Y);
    Vec2Fx { x, y }
}

impl Enemy {
    /// The movement stage of one tick (see `spec_movement`): resolves
    /// the phase's policy into a walk direction, updating the facing
    /// direction and the wander target as the policy asks.
    #[verifier::loop_isolation(false)]
    fn resolve_movement(
        &mut self,
        movement: EnemyMovement,
        player_pos: Vec2Fx,
        rng: &mut GameRng,
    ) -> (md: Vec2Fx)
        requires
            spec_enemy_wf(old(self)@),
            0 <= player_pos@.x <= ENEMY_POS_LIMIT,
            0 <= player_pos@.y <= ENEMY_POS_LIMIT,
        ensures
            ({
                let mv = spec_movement(old(self)@, movement, player_pos@, old(rng)@);
                &&& final(self)@ == (EnemyV {
                    direction: mv.direction,
                    move_target: mv.move_target,
                    ..old(self)@
                })
                &&& md@ == mv.move_dir
                &&& final(rng)@ == mv.rng
            }),
            -FX_ONE <= md.x <= FX_ONE,
            -FX_ONE <= md.y <= FX_ONE,
            spec_enemy_wf(final(self)@),
    {
        let ghost e0 = self@;
        let ghost mv = spec_movement(e0, movement, player_pos@, old(rng)@);
        let mut move_dir = Vec2Fx { x: 0, y: 0 };
        match movement {
            EnemyMovement::Chase => {
                let player_delta = player_pos.sub(self.pos);
                proof {
                    lemma_len_sq_small(player_delta@.x, player_delta@.y, ENEMY_POS_LIMIT as int);
                }
                let d = player_delta.normalize();
                self.direction = d;
                move_dir = d;
            }
            EnemyMovement::Still => {}
            EnemyMovement::Fowards => {
                move_dir = self.direction;
            }
            EnemyMovement::Wander(face_player) => {
                match self.move_target {
                    Option::None => {
                        self.move_target = Option::Some(wander_target(rng));
                    }
                    Option::Some(target) => {
                        let delta = target.sub(self.pos);
                        proof {
                            lemma_len_sq_small(delta@.x, delta@.y, ENEMY_POS_LIMIT as int);
                        }
                        move_dir = delta.normalize();
                        if face_player {
                            let player_delta = player_pos.sub(self.pos);
                            proof {
                                lemma_len_sq_small(player_delta@.x, player_delta@.y,
                                    ENEMY_POS_LIMIT as int);
                            }
                            self.direction = player_delta.normalize();
                        } else {
                            self.direction = move_dir;
                        }
                        if delta.len_sq() <= 16_000_000 {
                            self.move_target = Option::Some(wander_target(rng));
                        }
                    }
                }
            }
        }
        proof {
            assert(self@ =~= (EnemyV {
                direction: mv.direction,
                move_target: mv.move_target,
                ..e0
            }));
        }
        move_dir
    }
}

/// The anti-overlap pass (see `spec_separation`): the repulsion away
/// from the last listed other enemy within seven pixels, if any.
#[verifier::loop_isolation(false)]
fn separation_dir(my: Vec2Fx, positions: &Vec<Vec2Fx>, d0: Vec2Fx) -> (r: Vec2Fx)
    requires
        0 <= my@.x <= ENEMY_POS_LIMIT,
        0 <= my@.y <= ENEMY_POS_LIMIT,
        forall|i: int| 0 <= i < positions@.len()
            ==> 0 <= (#[trigger] positions@[i])@.x <= ENEMY_POS_LIMIT
                && 0 <= positions@[i]@.y <= ENEMY_POS_LIMIT,
        -FX_ONE <= d0.x <= FX_ONE,
        -FX_ONE <= d0.y <= FX_ONE,
    ensures
        r@ == spec_separation(positions@.map_values(|p: Vec2Fx| p@), my@, d0@),
        -FX_ONE <= r.x <= FX_ONE,
        -FX_ONE <= r.y <= FX_ONE,
{
    let ghost posv = positions@.map_values(|p: Vec2Fx| p@);
    let mut move_dir = d0;
    let mut i: usize = 0;
    while i < positions.len()
        invariant
            i <= positions.len(),
            move_dir@ == spec_separation(posv.take(i as int), my@, d0@),
            -FX_ONE <= move_dir.x <= FX_ONE,
            -FX_ONE <= move_dir.y <= FX_ONE,
        decreases positions.len() - i,
    {
        let p = positions[i];
        if !(p.x == my.x && p.y == my.y) {
            let delta = my.sub(p);
            proof {
                lemma_len_sq_small(delta@.x, delta@.y, ENEMY_POS_LIMIT as int);
            }
            if delta.len_sq() <= 49_000_000 {
                move_dir = delta.normalize();
            }
        }
        proof {
            let pre = posv.take(i as int);
            let cur = posv.take(i + 1);
            assert(cur.drop_last() =~= pre);
            assert(cur.last() == posv[i as int]);
            assert(posv[i as int] == positions@[i as int]@);
            assert(move_dir@ == spec_separation(cur, my@, d0@));
        }
        i = i + 1;
    }
    proof {
        assert(posv.take(posv.len() as int) =~= posv);
    }
    move_dir
}

/// The templates a firing pattern launches are well formed.
pub open spec fn spec_firing_wf(f: ProjectileFiring) -> bool {
    match f {
        ProjectileFiring::Unarmed => true,
        ProjectileFiring::Cardinally(t, _) => spec_template_wf(t),
        ProjectileFiring::Forwards(t, _) => spec_template_wf(t),
        ProjectileFiring::Around(t, _, n) => spec_template_wf(t) && n >= 1,
    }
}

impl Enemy {
    /// The firing stage of one tick (see `spec_firing`): launches the
    /// pattern from the enemy's current (possibly just-moved) position
    /// when the attack counter has elapsed, else counts it down.
    #[verifier::loop_isolation(false)]
    #[verifier::rlimit(50)]
    fn fire_pattern(&mut self, firing: &ProjectileFiring) -> (fired: Vec<Projectile>)
        requires
            spec_firing_wf(*firing),
            -POS_LIMIT <= old(self)@.pos.x <= POS_LIMIT,
            -POS_LIMIT <= old(self)@.pos.y <= POS_LIMIT,
            -FX_ONE <= old(self)@.direction.x <= FX_ONE,
            -FX_ONE <= old(self)@.direction.y <= FX_ONE,
        ensures
            ({
                let f = spec_firing(*firing, old(self)@.attack_counter, old(self)@.pos,
                    old(self)@.direction);
                &&& final(self)@ == (EnemyV { attack_counter: f.counter, ..old(self)@ })
                &&& fired@.map_values(|q: Projectile| q@) == f.fired
            }),
            forall|i: int| 0 <= i < fired@.len() ==> spec_proj_wf(#[trigger] fired@[i]@),
    {
        let ghost e0 = self@;
        let ghost f = spec_firing(*firing, e0.attack_counter, e0.pos, e0.direction);
        let mut fired: Vec<Projectile> = Vec::new();
        if self.attack_counter == 0 {
            match firing {
                ProjectileFiring::Unarmed => {}
                ProjectileFiring::Forwards(t, d) => {
                    self.attack_counter = *d;
                    let mut p = Projectile::from_template(t);
                    p.pos = self.pos;
                    p.direction = self.direction;
                    p.player_owned = false;
                    proof {
                        assert(p@ =~= spec_fired(*t, e0.pos, e0.direction));
                        assert(spec_proj_wf(p@));
                    }
                    fired.push(p);
                }
                ProjectileFiring::Cardinally(t, d) => {
                    self.attack_counter = *d;
                    let mut dir = self.direction;
                    let mut k: usize = 0;
                    while k < 4
                        invariant
                            k <= 4,
                            fired@.len() == k,
                            -FX_ONE <= dir.x <= FX_ONE,
                            -FX_ONE <= dir.y <= FX_ONE,
                            dir@ == spec_rot_n(e0.direction, k as int),
                            forall|j: int| 0 <= j < k ==> (#[trigger] fired@[j])@
                                == spec_fired(*t, e0.pos, spec_rot_n(e0.direction, j)),
                            forall|j: int| 0 <= j < k ==> spec_proj_wf((#[trigger] fired@[j])@),
                        decreases 4 - k,
                    {
                        let mut p = Projectile::from_template(t);
                        p.pos = self.pos;
                        p.direction = dir;
                        p.player_owned = false;
                        proof {
                            assert(p@ =~= spec_fired(*t, e0.pos, spec_rot_n(e0.direction,
                                k as int)));
                            assert(spec_proj_wf(p@));
                        }
                        fired.push(p);
                        dir = dir.rot90();
                        k = k + 1;
                    }
                    proof {
                        let d0c = e0.direction;
                        assert(spec_rot_n(d0c, 0) == d0c);
                        assert(spec_rot_n(d0c, 1) == spec_rot90(spec_rot_n(d0c, 0)));
                        assert(spec_rot_n(d0c, 2) == spec_rot90(spec_rot_n(d0c, 1)));
                        assert(spec_rot_n(d0c, 3) == spec_rot90(spec_rot_n(d0c, 2)));
                        assert(fired@.map_values(|q: Projectile| q@) =~= f.fired);
                    }
                }
                ProjectileFiring::Around(t, d, n) => {
                    self.attack_counter = *d;
                    let count: usize = *n as usize;
                    let mut k: usize = 0;
                    while k < count
                        invariant
                            k <= count,
                            fired@.len() == k,
                            forall|j: int| 0 <= j < k ==> (#[trigger] fired@[j])@
                                == spec_fired(*t, e0.pos, spec_around_dir(j, count as int)),
                            forall|j: int| 0 <= j < k ==> spec_proj_wf((#[trigger] fired@[j])@),
                        decreases count - k,
                    {
                        proof {
                            assert((k as i64) * 1000 <= 255_000) by (nonlinear_arith)
                                requires 0 <= k <= 255;
                            lemma_div_pos_is_pos((k as i64) * 1000, count as int);
                            assert((k as i64) * 1000 < (count as int) * 1000) by (nonlinear_arith)
                                requires k < count;
                            lemma_multiply_divide_lt((k as i64) * 1000, count as int, 1000);
                        }
                        let a: i64 = (k as i64) * 1000 / (count as i64);
                        let dir = Vec2Fx { x: fx_cos_turn(a), y: fx_sin_turn(a) };
                        let mut p = Projectile::from_template(t);
                        p.pos = self.pos;
                        p.direction = dir;
                        p.player_owned = false;
                        proof {
                            assert(p@ =~= spec_fired(*t, e0.pos, spec_around_dir(k as int,
                                count as int)));
                            assert(spec_proj_wf(p@));
                        }
                        fired.push(p);
                        k = k + 1;
                    }
                    proof {
                        assert(fired@.map_values(|q: Projectile| q@) =~= f.fired);
                    }
                }
            }
        } else {
            self.attack_counter = self.attack_counter - 1;
        }
        proof {
            assert(fired@.map_values(|q: Projectile| q@) =~= f.fired);
            assert(self@ =~= (EnemyV { attack_counter: f.counter, ..e0 }));
        }
        fired
    }

    /// One tick of this enemy (see `spec_enemy_tick`). `positions` are
    /// the tick-start positions of every enemy in the room (the
    /// anti-overlap pass sees them all, this enemy's own included);
    /// `can_damage` says whether the player is vulnerable this tick.
    /// Returns the projectiles fired, whether the player was touched,
    /// and whether the enemy stays alive.
    #[verifier::loop_isolation(false)]
    #[verifier::rlimit(100)]
    pub fn tick(
        &mut self,
        player_pos: Vec2Fx,
        positions: &Vec<Vec2Fx>,
        can_damage: bool,
        rng: &mut GameRng,
    ) -> (r: (Vec<Projectile>, bool, bool))
        requires
            spec_enemy_wf(old(self)@),
            0 <= player_pos@.x <= ENEMY_POS_LIMIT,
            0 <= player_pos@.y <= ENEMY_POS_LIMIT,
            forall|i: int| 0 <= i < positions@.len()
                ==> 0 <= (#[trigger] positions@[i])@.x <= ENEMY_POS_LIMIT
                    && 0 <= positions@[i]@.y <= ENEMY_POS_LIMIT,
        ensures
            ({
                let t = spec_enemy_tick(
                    old(self)@,
                    player_pos@,
                    positions@.map_values(|p: Vec2Fx| p@),
                    can_damage,
                    old(rng)@,
                );
                &&& final(self)@ == t.enemy
                &&& final(rng)@ == t.rng
                &&& r.0@.map_values(|q: Projectile| q@) == t.fired
                &&& r.1 == t.contact
                &&& r.2 == t.alive
            }),
            spec_enemy_wf(final(self)@),
            forall|i: int| 0 <= i < r.0@.len() ==> spec_proj_wf(#[trigger] r.0@[i]@),
    {
        let ghost e0 = self@;
        let ghost posv = positions@.map_values(|p: Vec2Fx| p@);
        let ghost t = spec_enemy_tick(e0, player_pos@, posv, can_damage, old(rng)@);
        let player_delta = player_pos.sub(self.pos);
        proof {
            lemma_len_sq_small(player_delta@.x, player_delta@.y, ENEMY_POS_LIMIT as int);
        }
        let phase: EnemyPhase = *self.get_phase();
        let ghost mv = spec_movement(e0, phase.movement, player_pos@, old(rng)@);

        let md0 = self.resolve_movement(phase.movement, player_pos, rng);
        self.damage_frames = if self.damage_frames > 0 { self.damage_frames - 1 } else { 0 };
        let move_dir = separation_dir(self.pos, positions, md0);

        // move and animate
        proof {
            lemma_unit_scale_bound(move_dir@.x, self@.ty.speed, SPEED_LIMIT as int);
            lemma_unit_scale_bound(move_dir@.y, self@.ty.speed, SPEED_LIMIT as int);
            assert(-0x7fff_ffff_ffff_ffff <= move_dir.x * self.ty.speed <= 0x7fff_ffff_ffff_ffff)
                by (nonlinear_arith)
                requires
                    -FX_ONE <= move_dir.x <= FX_ONE,
                    0 <= self.ty.speed <= SPEED_LIMIT;
            assert(-0x7fff_ffff_ffff_ffff <= move_dir.y * self.ty.speed <= 0x7fff_ffff_ffff_ffff)
                by (nonlinear_arith)
                requires
                    -FX_ONE <= move_dir.y <= FX_ONE,
                    0 <= self.ty.speed <= SPEED_LIMIT;
        }
        let step = move_dir.scale(self.ty.speed);
        self.pos = self.pos.add(step);
        self.anim_frame = sat_add(self.anim_frame, self.ty.speed);

        // firing, from the moved (unclamped) position
        let fired = self.fire_pattern(&phase.firing);

        // wall clamp
        let raw = self.pos;
        self.pos = self.pos.clamp(
            Vec2Fx { x: ROOM_MIN_X, y: ROOM_MIN_Y },
            Vec2Fx { x: ROOM_MAX_X, y: ROOM_MAX_Y },
        );
        let wall = !(self.pos.x == raw.x && self.pos.y == raw.y);

        // player contact, measured from the tick-start positions
        let contact = player_delta.len_sq() <= 16_000_000 && can_damage;
        let collision = wall || contact;

        // phase end
        let mut phase_end = false;
        match &phase.end {
            PhaseEndCondition::Never => {}
            PhaseEndCondition::SingleFrame => {
                phase_end = true;
            }
            PhaseEndCondition::Collision => {
                phase_end = collision;
            }
            PhaseEndCondition::Frames(target) => {
                if self.phase_frame_counter >= *target {
                    self.phase_frame_counter = 0;
                    phase_end = true;
                } else {
                    self.phase_frame_counter = self.phase_frame_counter + 1;
                }
            }
            PhaseEndCondition::HealthUnder(frac) => {
                proof {
                    assert(-0x7fff_ffff_ffff_ffff <= self.health * FX_ONE
                        <= 0x7fff_ffff_ffff_ffff) by (nonlinear_arith)
                        requires -HEALTH_CAP <= self.health <= HEALTH_CAP;
                    assert(0 <= *frac * self.ty.max_health <= 0x7fff_ffff_ffff_ffff)
                        by (nonlinear_arith)
                        requires
                            0 <= *frac <= FX_ONE,
                            0 < self.ty.max_health <= HEALTH_LIMIT;
                }
                phase_end = self.health * FX_ONE <= *frac * self.ty.max_health;
            }
        }
        if phase_end {
            let len = self.ty.phases.len();
            self.phase_index = self.phase_index + 1;
            if self.phase_index >= len {
                self.phase_index = 0;
            }
        }
        let alive = self.health > 0;
        proof {
            assert(self@ =~= t.enemy);
        }
        (fired, contact, alive)
    }
}


/// The direction `d` turned `k` quarter turns.
pub open spec fn spec_rot_n(d: Vec2V, k: int) -> Vec2V
    decreases k,
{
    if k <= 0 {
        d
    } else {
        spec_rot90(spec_rot_n(d, k - 1))
    }
}


} // verus!

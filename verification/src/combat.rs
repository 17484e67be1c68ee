//! Combat resolution: damage application with shields absorbing before
//! health, and the per-tick pass of one projectile over the enemy list
//! with its hit-once guarantee and on-hit chains.

use vstd::prelude::*;

verus! {

use crate::enemy::{Enemy, EnemyV, spec_enemy_wf};
use crate::fx::{FX_ONE, spec_fx_mul, fx_mul, clamp_i64, spec_clamp, lemma_len_sq_small};
use crate::projectiles::{Projectile, ProjectileV, spec_proj_wf, spec_proj_wf_core, spec_on_hit};
use crate::stats::{DamageType, DamageMap, DamageMapV, StatsV, dm_bounded, lemma_fx_mul_agg};
use crate::utils::{AGG_LIMIT, HEALTH_CAP, ENEMY_POS_LIMIT, POS_LIMIT, PROJ_SPEED_LIMIT};

/// One damage amount resolved against a shield and a health pool: the
/// shield absorbs what it can first (never going negative), the
/// remainder comes off health. A negative amount (a penalized damage
/// type) heals health and leaves the shield alone. Health is kept in a
/// huge clamped range so the arithmetic stays exact for any value a
/// game can reach.
pub open spec fn spec_absorb(shield: int, health: int, amt: int) -> (int, int) {
    let absorbed = if amt >= 0 {
        if shield < amt {
            shield
        } else {
            amt
        }
    } else {
        0
    };
    (shield - absorbed, spec_clamp(health - (amt - absorbed), -HEALTH_CAP as int, HEALTH_CAP as int))
}

/// The amount one damage type deals: the attacker's carried amount
/// scaled by one plus the owner's current modifier for that type.
pub open spec fn spec_hit_amount(dmg: DamageMapV, mods: DamageMapV, t: DamageType) -> int {
    spec_fx_mul(dmg.get(t), FX_ONE + mods.get(t))
}

/// Every damage type of a hit resolved in declaration order.
pub open spec fn spec_absorb_types(
    shield: int,
    health: int,
    dmg: DamageMapV,
    mods: DamageMapV,
    ts: Seq<DamageType>,
) -> (int, int)
    decreases ts.len(),
{
    if ts.len() == 0 {
        (shield, health)
    } else {
        let prev = spec_absorb_types(shield, health, dmg, mods, ts.drop_last());
        spec_absorb(prev.0, prev.1, spec_hit_amount(dmg, mods, ts.last()))
    }
}

/// The damage types in the order a hit resolves them.
pub open spec fn spec_all_types() -> Seq<DamageType> {
    seq![
        DamageType::Slashing,
        DamageType::Piercing,
        DamageType::Fire,
        DamageType::Unholy,
        DamageType::Holy,
    ]
}

/// What one projectile hit does to an enemy: every damage type of the
/// carried table resolved against shield then health, and the damage
/// flash restarted.
pub open spec fn spec_enemy_hit(e: EnemyV, dmg: DamageMapV, mods: DamageMapV) -> EnemyV {
    let sh = spec_absorb_types(e.shield, e.health, dmg, mods, spec_all_types());
    EnemyV { shield: sh.0, health: sh.1, damage_frames: 5, ..e }
}

impl Enemy {
    /// Applies one projectile hit (see `spec_enemy_hit`): shields absorb
    /// before health, floored at zero, the remainder reduces health.
    #[verifier::loop_isolation(false)]
    pub fn apply_hit(&mut self, dmg: &DamageMap, mods: &DamageMap)
        requires
            spec_enemy_wf(old(self)@),
            dm_bounded(dmg@, AGG_LIMIT as int),
            dm_bounded(mods@, AGG_LIMIT as int),
        ensures
            final(self)@ == spec_enemy_hit(old(self)@, dmg@, mods@),
            spec_enemy_wf(final(self)@),
    {
        let ghost e0 = self@;
        let types = DamageType::all();
        let mut i: usize = 0;
        while i < types.len()
            invariant
                i <= types.len(),
                types@ == spec_all_types(),
                ({
                    let sh = spec_absorb_types(e0.shield, e0.health, dmg@, mods@,
                        spec_all_types().take(i as int));
                    self@ == (EnemyV { shield: sh.0, health: sh.1, ..e0 })
                }),
                0 <= self@.shield <= e0.shield,
                -HEALTH_CAP <= self@.health <= HEALTH_CAP,
            decreases types.len() - i,
        {
            let t = types[i];
            proof {
                lemma_fx_mul_agg(dmg@.get(t), FX_ONE + mods@.get(t));
            }
            let amt = fx_mul(dmg.get(t), FX_ONE + mods.get(t));
            let absorbed: i64 = if amt >= 0 {
                if self.shield < amt {
                    self.shield
                } else {
                    amt
                }
            } else {
                0
            };
            self.shield = self.shield - absorbed;
            self.health = clamp_i64(self.health - (amt - absorbed), -HEALTH_CAP, HEALTH_CAP);
            proof {
                let ts = spec_all_types();
                assert(ts.take(i + 1).drop_last() =~= ts.take(i as int));
                assert(ts.take(i + 1).last() == ts[i as int]);
                let sh = spec_absorb_types(e0.shield, e0.health, dmg@, mods@, ts.take(i + 1));
                assert(self@ =~= (EnemyV { shield: sh.0, health: sh.1, ..e0 }));
            }
            i = i + 1;
        }
        self.damage_frames = 5;
        proof {
            assert(spec_all_types().take(spec_all_types().len() as int) =~= spec_all_types());
            assert(self@ =~= spec_enemy_hit(e0, dmg@, mods@));
        }
    }
}

/// Whether this projectile strikes this enemy now: the enemy stands
/// within eight pixels and neither the projectile nor anything earlier
/// in its chain has already struck this enemy id.
pub open spec fn spec_hit_check(p: ProjectileV, e: EnemyV) -> bool {
    &&& !p.hit_enemies.contains(e.id)
    &&& !p.parent_hit_enemies.contains(e.id)
    &&& e.pos.sub(p.pos).len_sq() <= 64_000_000
}

/// What the pass of one player-owned projectile over the enemy list
/// produces: the struck enemies, the projectile with the struck ids
/// recorded, and the chained projectiles it spawned.
pub struct HitPassV {
    pub enemies: Seq<EnemyV>,
    pub proj: ProjectileV,
    pub spawned: Seq<ProjectileV>,
}

/// The pass of one projectile over the enemy list, in list order. Each
/// enemy is struck at most once: the moment damage lands, the enemy's
/// id enters the projectile's hit list and every later check (and the
/// whole on-hit chain, which inherits the list) skips that id. The
/// chain spawned by a strike is built after the id is recorded.
pub open spec fn spec_proj_hit_pass(p: ProjectileV, mods: DamageMapV, enemies: Seq<EnemyV>)
    -> HitPassV
    decreases enemies.len(),
{
    if enemies.len() == 0 {
        HitPassV { enemies: Seq::empty(), proj: p, spawned: Seq::empty() }
    } else {
        let prev = spec_proj_hit_pass(p, mods, enemies.drop_last());
        let e = enemies.last();
        match prev.proj.stats {
            Option::Some(s) if spec_hit_check(prev.proj, e) => {
                let e2 = spec_enemy_hit(e, s.damage, mods);
                let p2 = ProjectileV {
                    hit_enemies: prev.proj.hit_enemies.push(e.id),
                    ..prev.proj
                };
                HitPassV {
                    enemies: prev.enemies.push(e2),
                    proj: p2,
                    spawned: prev.spawned + spec_on_hit(p2),
                }
            }
            _ => HitPassV { enemies: prev.enemies.push(e), proj: prev.proj, spawned: prev.spawned },
        }
    }
}

/// Runs one player-owned projectile over the enemy list (see
/// `spec_proj_hit_pass`), damaging each enemy it reaches at most once,
/// recording struck ids, and collecting the on-hit chains it spawns.
/// `mods` is the owner's current damage-modifier table.
#[verifier::loop_isolation(false)]
#[verifier::rlimit(50)]
pub fn proj_hit_enemies(proj: &mut Projectile, enemies: &mut Vec<Enemy>, mods: &DamageMap)
    -> (spawned: Vec<Projectile>)
    requires
        spec_proj_wf_core(old(proj)@),
        -POS_LIMIT - PROJ_SPEED_LIMIT <= old(proj)@.pos.x <= POS_LIMIT + PROJ_SPEED_LIMIT,
        -POS_LIMIT - PROJ_SPEED_LIMIT <= old(proj)@.pos.y <= POS_LIMIT + PROJ_SPEED_LIMIT,
        dm_bounded(mods@, AGG_LIMIT as int),
        forall|i: int| 0 <= i < old(enemies)@.len()
            ==> spec_enemy_wf((#[trigger] old(enemies)@[i])@),
    ensures
        ({
            let t = spec_proj_hit_pass(old(proj)@, mods@,
                old(enemies)@.map_values(|e: Enemy| e@));
            &&& final(enemies)@.map_values(|e: Enemy| e@) == t.enemies
            &&& final(proj)@ == t.proj
            &&& spawned@.map_values(|q: Projectile| q@) == t.spawned
        }),
        spec_proj_wf_core(final(proj)@),
        final(proj)@.pos == old(proj)@.pos,
        forall|i: int| 0 <= i < final(enemies)@.len()
            ==> spec_enemy_wf((#[trigger] final(enemies)@[i])@),
        forall|i: int| 0 <= i < spawned@.len() ==> spec_proj_wf((#[trigger] spawned@[i])@),
{
    let ghost p0 = proj@;
    let ghost ev0 = old(enemies)@.map_values(|e: Enemy| e@);
    let mut spawned: Vec<Projectile> = Vec::new();
    let mut i: usize = 0;
    while i < enemies.len()
        invariant
            i <= enemies.len(),
            enemies@.len() == old(enemies)@.len(),
            ({
                let t = spec_proj_hit_pass(p0, mods@, ev0.take(i as int));
                &&& enemies@.map_values(|e: Enemy| e@).take(i as int) == t.enemies
                &&& proj@ == t.proj
                &&& spawned@.map_values(|q: Projectile| q@) == t.spawned
            }),
            forall|j: int| i <= j < enemies@.len() ==> (#[trigger] enemies@[j])@ == ev0[j],
            spec_proj_wf_core(proj@),
            proj@.pos == old(proj)@.pos,
            forall|j: int| 0 <= j < enemies@.len()
                ==> spec_enemy_wf((#[trigger] enemies@[j])@),
            forall|j: int| 0 <= j < spawned@.len()
                ==> spec_proj_wf((#[trigger] spawned@[j])@),
        decreases enemies.len() - i,
    {
        let has_stats = match &proj.stats {
            Option::Some(_) => true,
            Option::None => false,
        };
        let mut strike = false;
        if has_stats {
            let eid = enemies[i].id;
            let epos = enemies[i].pos;
            let already = contains_id(&proj.hit_enemies, eid)
                || contains_id(&proj.parent_hit_enemies, eid);
            if !already {
                let delta = epos.sub(proj.pos);
                proof {
                    lemma_len_sq_small(delta@.x, delta@.y,
                        ENEMY_POS_LIMIT as int + POS_LIMIT as int + PROJ_SPEED_LIMIT as int);
                }
                if delta.len_sq() <= 64_000_000 {
                    strike = true;
                }
            }
        }
        if strike {
            proof {
                let ev = enemies@[i as int]@;
                let dx = ev.pos.x - proj@.pos.x;
                let dy = ev.pos.y - proj@.pos.y;
                assert(-8_000 <= dx <= 8_000 && -8_000 <= dy <= 8_000) by (nonlinear_arith)
                    requires
                        dx * dx + dy * dy <= 64_000_000;
                assert(-POS_LIMIT <= proj@.pos.x <= POS_LIMIT
                    && -POS_LIMIT <= proj@.pos.y <= POS_LIMIT);
            }
            let dmg = match &proj.stats {
                Option::Some(s) => s.damage,
                Option::None => DamageMap::zero(),
            };
            let eid = enemies[i].id;
            let e = &mut enemies[i];
            e.apply_hit(&dmg, mods);
            proj.hit_enemies.push(eid);
            let mut chained = proj.on_hit();
            spawned.append(&mut chained);
        }
        proof {
            let t = spec_proj_hit_pass(p0, mods@, ev0.take(i + 1));
            assert(ev0.take(i + 1).drop_last() =~= ev0.take(i as int));
            assert(ev0.take(i + 1).last() == ev0[i as int]);
            assert(enemies@.map_values(|e: Enemy| e@).take(i + 1) =~= t.enemies);
            assert(proj@ =~= t.proj);
            assert(spawned@.map_values(|q: Projectile| q@) =~= t.spawned);
        }
        i = i + 1;
    }
    proof {
        assert(ev0.take(ev0.len() as int) =~= ev0);
        assert(enemies@.map_values(|e: Enemy| e@).take(enemies@.len() as int)
            =~= enemies@.map_values(|e: Enemy| e@));
    }
    spawned
}

/// Whether `ids` holds `id`.
pub fn contains_id(ids: &Vec<usize>, id: usize) -> (r: bool)
    ensures
        r == ids@.contains(id),
{
    let mut i: usize = 0;
    while i < ids.len()
        invariant
            i <= ids.len(),
            forall|j: int| 0 <= j < i ==> ids@[j] != id,
        decreases ids.len() - i,
    {
        if ids[i] == id {
            return true;
        }
        i = i + 1;
    }
    proof {
        assert(!ids@.contains(id));
    }
    false
}

} // verus!

//! Laws of the combat engine, stated and proved over the tick models:
//! projectile lifetime, the hit-once guarantee, and on-hit chain
//! isolation.

use vstd::prelude::*;

verus! {

use crate::combat::{spec_proj_hit_pass, spec_hit_check};
use crate::enemy::EnemyV;
use crate::game::{spec_proj_phase, spec_room_lo_v, spec_room_hi_v, ProjPhaseV};
use crate::projectiles::{ProjectileV, spec_on_hit, spec_on_hit_chain, spec_chain_child,
    spec_triggered};
use crate::stats::{DamageMapV, StatsV, OnHitEffectV};
use crate::utils::{ROOM_MIN_X, ROOM_MIN_Y, ROOM_MAX_X, ROOM_MAX_Y};

/// A projectile with `lifetime = N` and no way to collide is kept by a
/// projectile pass exactly while its age stays below `N`: standing
/// still inside the room with no enemy around, the pass keeps it with
/// its age one higher when `life + 1 < N`, and removes it the moment
/// its age reaches `N`. A projectile spawned with `life = 0` is hence
/// in the live list for the first `N - 1` passes and gone after the
/// `N`-th.
pub proof fn lemma_projectile_lifetime(p: ProjectileV, mods: DamageMapV, st: ProjPhaseV)
    requires
        p.speed == 0,
        ROOM_MIN_X <= p.pos.x <= ROOM_MAX_X,
        ROOM_MIN_Y <= p.pos.y <= ROOM_MAX_Y,
        p.player_owned,
        p.stats is Some,
        st.enemies.len() == 0,
        0 <= p.life < p.lifetime,
        p.lifetime <= u16::MAX,
    ensures
        spec_proj_phase(seq![p], 0, mods, st) == (ProjPhaseV {
            kept: st.kept + (if p.life + 1 < p.lifetime {
                seq![ProjectileV { life: p.life + 1, ..p }]
            } else {
                Seq::<ProjectileV>::empty()
            }),
            ..st
        }),
{
    let projs = seq![p];
    assert(spec_fx_zero(p.direction.x) == 0);
    assert(spec_fx_zero(p.direction.y) == 0);
    let p1 = crate::projectiles::spec_proj_step(p);
    assert(p1.pos =~= p.pos);
    assert(p1 =~= (ProjectileV { life: p.life + 1, ..p }));
    let hp = spec_proj_hit_pass(p1, mods, st.enemies);
    assert(st.enemies =~= Seq::<EnemyV>::empty());
    assert(hp.proj == p1 && hp.spawned =~= Seq::<ProjectileV>::empty()
        && hp.enemies =~= Seq::<EnemyV>::empty());
    let clamped = p1.pos.clamp(spec_room_lo_v(), spec_room_hi_v());
    assert(clamped =~= p1.pos);
    let one = spec_proj_phase(projs, 0, mods, st);
    let stepped = spec_proj_phase(projs, 1, mods, spec_step_state(projs, mods, st));
    assert(one == stepped);
    assert(spec_step_state(projs, mods, st) =~~= (ProjPhaseV {
        kept: st.kept + (if p.life + 1 < p.lifetime {
            seq![ProjectileV { life: p.life + 1, ..p }]
        } else {
            Seq::<ProjectileV>::empty()
        }),
        spawned: st.spawned + Seq::<ProjectileV>::empty(),
        ..st
    }));
    assert(st.spawned + Seq::<ProjectileV>::empty() =~= st.spawned);
    assert(one =~~= (ProjPhaseV {
        kept: st.kept + (if p.life + 1 < p.lifetime {
            seq![ProjectileV { life: p.life + 1, ..p }]
        } else {
            Seq::<ProjectileV>::empty()
        }),
        ..st
    }));
}

/// The one step of the projectile pass, for the lemma above.
pub open spec fn spec_step_state(projs: Seq<ProjectileV>, mods: DamageMapV, st: ProjPhaseV)
    -> ProjPhaseV {
    crate::game::spec_proj_step_state_helper(projs, 0, mods, st)
}

/// Multiplying by a zero speed moves nothing.
pub open spec fn spec_fx_zero(d: int) -> int {
    crate::fx::spec_fx_mul(d, 0)
}

/// The hit pass keeps the enemy list's length.
pub proof fn lemma_hit_pass_len(p: ProjectileV, mods: DamageMapV, enemies: Seq<EnemyV>)
    ensures
        spec_proj_hit_pass(p, mods, enemies).enemies.len() == enemies.len(),
    decreases enemies.len(),
{
    if enemies.len() > 0 {
        lemma_hit_pass_len(p, mods, enemies.drop_last());
    }
}

/// The hit pass only grows the projectile's hit list, and never touches
/// its inherited parent list.
pub proof fn lemma_hit_pass_monotone(p: ProjectileV, mods: DamageMapV, enemies: Seq<EnemyV>)
    ensures
        forall|id: usize| p.hit_enemies.contains(id)
            ==> spec_proj_hit_pass(p, mods, enemies).proj.hit_enemies.contains(id),
        spec_proj_hit_pass(p, mods, enemies).proj.parent_hit_enemies == p.parent_hit_enemies,
        spec_proj_hit_pass(p, mods, enemies).proj.hit_enemies.len() >= p.hit_enemies.len(),
        forall|i: int| 0 <= i < p.hit_enemies.len()
            ==> spec_proj_hit_pass(p, mods, enemies).proj.hit_enemies[i]
                == p.hit_enemies[i],
    decreases enemies.len(),
{
    if enemies.len() > 0 {
        lemma_hit_pass_monotone(p, mods, enemies.drop_last());
        let prev = spec_proj_hit_pass(p, mods, enemies.drop_last());
        let e = enemies.last();
        match prev.proj.stats {
            Option::Some(s) => {
                if spec_hit_check(prev.proj, e) {
                    assert forall|id: usize| p.hit_enemies.contains(id)
                        implies spec_proj_hit_pass(p, mods, enemies).proj.hit_enemies.contains(
                        id,
                    ) by {
                        assert(prev.proj.hit_enemies.contains(id));
                        let j = choose|j: int| 0 <= j < prev.proj.hit_enemies.len()
                            && prev.proj.hit_enemies[j] == id;
                        assert(prev.proj.hit_enemies.push(e.id)[j] == id);
                    }
                }
            }
            Option::None => {}
        }
    }
}

/// The hit-once guarantee: an enemy whose id the projectile (or its
/// chain) has already struck takes no damage from the pass — the pass
/// hands it back unchanged. Since every strike records its id first,
/// one projectile can subtract damage from one enemy id at most once,
/// however long the enemy stays inside the hit radius.
pub proof fn lemma_hit_once(p: ProjectileV, mods: DamageMapV, enemies: Seq<EnemyV>, j: int)
    requires
        0 <= j < enemies.len(),
        p.hit_enemies.contains(enemies[j].id) || p.parent_hit_enemies.contains(enemies[j].id),
    ensures
        spec_proj_hit_pass(p, mods, enemies).enemies[j] == enemies[j],
    decreases enemies.len(),
{
    lemma_hit_pass_monotone(p, mods, enemies.drop_last());
    lemma_hit_pass_len(p, mods, enemies.drop_last());
    let prev = spec_proj_hit_pass(p, mods, enemies.drop_last());
    if j < enemies.len() - 1 {
        lemma_hit_once(p, mods, enemies.drop_last(), j);
        assert(enemies.drop_last()[j] == enemies[j]);
        assert(prev.enemies[j] == enemies[j]);
    } else {
        let e = enemies.last();
        if p.hit_enemies.contains(e.id) {
            assert(prev.proj.hit_enemies.contains(e.id));
            assert(!spec_hit_check(prev.proj, e));
        } else {
            assert(prev.proj.parent_hit_enemies.contains(e.id));
            assert(!spec_hit_check(prev.proj, e));
        }
        assert(spec_proj_hit_pass(p, mods, enemies).enemies
            == prev.enemies.push(e));
    }
}

/// On-hit chain isolation: every projectile an on-hit chain spawns
/// starts with a parent hit list holding everything the parent and its
/// own ancestors have struck, so one chain of events can never strike
/// the same enemy twice; and a chained projectile exists only for an
/// effect whose trigger fires against the parent's own damage table
/// (an unconditional trigger, or a positive entry for the trigger type).
pub proof fn lemma_chain_isolation(p: ProjectileV, s: StatsV, effects: Seq<OnHitEffectV>)
    ensures
        forall|i: int| 0 <= i < spec_on_hit_chain(p, s, effects).len()
            ==> (#[trigger] spec_on_hit_chain(p, s, effects)[i]).parent_hit_enemies
                == p.parent_hit_enemies + p.hit_enemies
                && spec_on_hit_chain(p, s, effects)[i].player_owned
                && spec_on_hit_chain(p, s, effects)[i].hit_enemies.len() == 0,
        (forall|i: int| 0 <= i < effects.len() ==> !spec_triggered(s, #[trigger] effects[i]))
            ==> spec_on_hit_chain(p, s, effects).len() == 0,
    decreases effects.len(),
{
    if effects.len() > 0 {
        lemma_chain_isolation(p, s, effects.drop_last());
        assert(forall|i: int| 0 <= i < effects.drop_last().len()
            ==> #[trigger] effects.drop_last()[i] == effects[i]);
    }
}

/// The chained projectile of a single-effect snapshot exists exactly
/// when the effect's trigger fires, and is the effect's template
/// launched with the parent's combined hit history.
pub proof fn lemma_single_effect_chain(p: ProjectileV, s: StatsV, e: OnHitEffectV)
    requires
        p.stats == Option::Some(s),
        s.on_hit_effects == seq![e],
    ensures
        spec_on_hit(p) == (if spec_triggered(s, e) {
            seq![spec_chain_child(p, s, e)]
        } else {
            Seq::<ProjectileV>::empty()
        }),
{
    assert(s.on_hit_effects.drop_last() =~= Seq::<OnHitEffectV>::empty());
    assert(s.on_hit_effects.last() == e);
    assert(spec_on_hit_chain(p, s, Seq::<OnHitEffectV>::empty())
        =~= Seq::<ProjectileV>::empty());
    if spec_triggered(s, e) {
        assert(spec_on_hit_chain(p, s, s.on_hit_effects)
            =~= Seq::<ProjectileV>::empty() + seq![spec_chain_child(p, s, e)]);
        assert(Seq::<ProjectileV>::empty() + seq![spec_chain_child(p, s, e)]
            =~= seq![spec_chain_child(p, s, e)]);
    } else {
        assert(spec_on_hit_chain(p, s, s.on_hit_effects)
            =~= Seq::<ProjectileV>::empty());
    }
}

} // verus!

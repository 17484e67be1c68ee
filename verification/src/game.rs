//! The round state machine and the per-tick update: Pre-Round, Active
//! and Post-Round sequencing, curse application, room entry, and the
//! fixed-order combat pass of one simulated tick.

use vstd::prelude::*;

verus! {

use crate::combat::{spec_proj_hit_pass, proj_hit_enemies};
use crate::dungeon::{DungeonManager, Layout, World, spec_world_wf, spec_layouts_view,
    spec_layouts_wf, spec_spawn_room};
use crate::enemy::{Enemy, EnemyV, EnemyTier, spec_enemy_wf, spec_enemy_tick};
use crate::fx::{FX_ONE, Vec2Fx, Vec2V, spec_cos_turn, spec_sin_turn, fx_cos_turn, fx_sin_turn,
    spec_fx_mul, fx_mul, spec_sat_add, sat_add, lemma_len_sq_small, lemma_unit_scale_bound,
    spec_clamp};
use crate::items::{Item, ItemV, ItemType, spec_item_wf, spec_item_stats};
use crate::player::{Player, PlayerV, ChaosCurse, spec_player_wf, spec_player_stats,
    spec_count_curse, spec_locked_slots, spec_slot_free, spec_give_item, spec_damage,
    spec_can_absorb, spec_first_free, opt_item_view, spec_merge_slot};
use crate::projectiles::{Projectile, ProjectileV, spec_proj_wf, spec_on_hit, spec_proj_step,
    acid_puddle, spec_spawn};
use crate::rng::{GameRng, spec_rng_next, spec_select, select_random};
use crate::stats::{Stats, StatsV, DamageType, DamageMap, stats_wf, spec_merge, merge_fits,
    spec_stats_default, STAT_LIMIT};
use crate::utils::{SCREEN_WIDTH, SCREEN_HEIGHT, TILES_WIDTH, ROOM_MIN_X, ROOM_MIN_Y, ROOM_MAX_X,
    ROOM_MAX_Y, ENEMY_POS_LIMIT, PREROUND_TRANSITION_TIME, PREROUND_GRACE_TIME, OTHER_CHANCE,
    SHIELD_CAP};

/// The phase of a round: normal play, the victory pause with its
/// three-item reward choice, or the camera-pan transition into the
/// next room.
#[derive(Debug)]
pub enum RoundState {
    Active,
    Post(u32, Option<Vec<Item>>),
    Pre(u32),
}

/// The mathematical value of the round state.
pub enum RoundStateV {
    Active,
    Post(int, Option<Seq<ItemV>>),
    Pre(int),
}

impl View for RoundState {
    type V = RoundStateV;

    open spec fn view(&self) -> RoundStateV {
        match self {
            RoundState::Active => RoundStateV::Active,
            RoundState::Post(f, items) => RoundStateV::Post(*f as int, match items {
                Option::Some(v) => Option::Some(v@.map_values(|i: Item| i@)),
                Option::None => Option::None,
            }),
            RoundState::Pre(f) => RoundStateV::Pre(*f as int),
        }
    }
}

impl RoundState {
    /// Whether the world is drawn this frame: always, except during the
    /// first half of the pan into a new room.
    pub fn should_draw(&self) -> (r: bool)
        ensures
            (r == match self@ {
                RoundStateV::Active => true,
                RoundStateV::Post(_, _) => true,
                RoundStateV::Pre(f) => f >= PREROUND_TRANSITION_TIME / 2,
            }),
    {
        match self {
            RoundState::Active => true,
            RoundState::Post(_, _) => true,
            RoundState::Pre(frame) => *frame >= PREROUND_TRANSITION_TIME / 2,
        }
    }

    /// The door sprite's cell offset, in fixed-point cells: closed while
    /// active, opening over the first ten Post frames, and closed again
    /// through the first half of the pan.
    pub fn door_frame(&self) -> (r: i64)
        ensures
            (r == match self@ {
                RoundStateV::Active => 0int,
                RoundStateV::Post(f, _) => (if f * 4 / 10 < 3 { f * 4 / 10 } else { 3 }) * 2_000,
                RoundStateV::Pre(f) => if f >= PREROUND_TRANSITION_TIME / 2 { 0int } else { 6_000 },
            }),
    {
        match self {
            RoundState::Active => 0,
            RoundState::Post(frame, _) => {
                let steps: u32 = frame / 10 * 4 + (frame % 10) * 4 / 10;
                proof {
                    assert(steps == (*frame as int) * 4 / 10) by (nonlinear_arith)
                        requires
                            steps == (*frame as int) / 10 * 4 + ((*frame as int) % 10) * 4 / 10,
                            0 <= *frame;
                }
                let capped: u32 = if steps < 3 { steps } else { 3 };
                (capped as i64) * 2_000
            }
            RoundState::Pre(frame) => {
                if *frame >= PREROUND_TRANSITION_TIME / 2 {
                    0
                } else {
                    6_000
                }
            }
        }
    }
}

/// The whole simulation state of a run.
pub struct Game {
    pub player: Player,
    pub state: RoundState,
    pub enemies: Vec<Enemy>,
    pub dropped_items: Vec<(Vec2Fx, Item)>,
    /// The next enemy id: ids grow monotonically as enemies enter the
    /// live list.
    pub enemy_id: usize,
    pub projectiles: Vec<Projectile>,
    pub dungeon_manager: DungeonManager,
    /// The master item table, loaded once and injected (no globals).
    pub all_items: Vec<Item>,
    /// The decoded layout groups, loaded once and injected.
    pub layouts: Vec<Vec<Layout>>,
    /// Set once the base life pool reaches zero: the run's terminal
    /// state, after which `advance_frame` does nothing.
    pub game_over: bool,
}

pub open spec fn spec_round_state_wf(s: RoundStateV) -> bool {
    match s {
        RoundStateV::Post(_, Option::Some(items)) => {
            &&& items.len() == 3
            &&& forall|i: int| 0 <= i < items.len() ==> spec_item_wf(#[trigger] items[i])
        }
        _ => true,
    }
}

/// Bounds the whole game state obeys between ticks.
pub open spec fn spec_game_wf(g: &Game) -> bool {
    &&& spec_player_wf(g.player@)
    &&& spec_round_state_wf(g.state@)
    &&& forall|i: int| 0 <= i < g.enemies@.len() ==> spec_enemy_wf((#[trigger] g.enemies@[i])@)
    &&& forall|i: int| 0 <= i < g.projectiles@.len()
        ==> spec_proj_wf((#[trigger] g.projectiles@[i])@)
    &&& forall|i: int| 0 <= i < g.dropped_items@.len()
        ==> spec_item_wf((#[trigger] g.dropped_items@[i]).1@)
    &&& spec_world_wf(g.dungeon_manager.world@)
    &&& spec_layouts_wf(spec_layouts_view(g.layouts@))
    &&& g.all_items@.len() >= 1
    &&& forall|i: int| 0 <= i < g.all_items@.len() ==> spec_item_wf((#[trigger] g.all_items@[i])@)
    &&& !g.game_over ==> g.player@.internal_stats.lives > 0
}

/// A random unit-length drop offset, five pixels long: one draw picks a
/// direction around the full turn.
pub open spec fn spec_drop_offset(rng: u64) -> (Vec2V, u64) {
    let r = spec_rng_next(rng);
    let a = r as int % 1000;
    (Vec2V { x: spec_cos_turn(a), y: spec_sin_turn(a) }.scale_fx(5_000), r)
}

/// A point five pixels from `pos` in a random direction.
fn drop_position(pos: Vec2Fx, rng: &mut GameRng) -> (r: Vec2Fx)
    requires
        0 <= pos@.x <= ENEMY_POS_LIMIT,
        0 <= pos@.y <= ENEMY_POS_LIMIT,
    ensures
        r@ == pos@.add(spec_drop_offset(old(rng)@).0),
        final(rng)@ == spec_drop_offset(old(rng)@).1,
        -5_000 <= r@.x <= ENEMY_POS_LIMIT + 5_000,
        -5_000 <= r@.y <= ENEMY_POS_LIMIT + 5_000,
{
    let a = rng.gen_range(0, 1000);
    let dir = Vec2Fx { x: fx_cos_turn(a), y: fx_sin_turn(a) };
    proof {
        lemma_unit_scale_bound(dir@.x, 5_000, 5_000);
        lemma_unit_scale_bound(dir@.y, 5_000, 5_000);
        assert(-0x7fff_ffff_ffff_ffff <= dir.x * 5_000 <= 0x7fff_ffff_ffff_ffff)
            by (nonlinear_arith)
            requires -FX_ONE <= dir.x <= FX_ONE;
        assert(-0x7fff_ffff_ffff_ffff <= dir.y * 5_000 <= 0x7fff_ffff_ffff_ffff)
            by (nonlinear_arith)
            requires -FX_ONE <= dir.y <= FX_ONE;
    }
    let offset = dir.scale(5_000);
    pos.add(offset)
}

/// The shield a newly spawned enemy gets: a fixed charge per
/// accumulated `EnemyShields` curse (capped far beyond any reachable
/// count so the arithmetic stays exact).
pub open spec fn spec_shield_of_count(count: int) -> int {
    (if count > 200_000 {
        200_000int
    } else {
        count
    }) * 5_000
}

/// What `spawn_enemies` does to one buffered enemy: the next id, the
/// fixed downward offset that places it below the door, and the
/// curse-granted shield.
pub open spec fn spec_absorbed_enemy(e: EnemyV, id: int, shield: int) -> EnemyV {
    EnemyV {
        id: id as usize,
        pos: Vec2V { x: e.pos.x, y: e.pos.y + 32_000 },
        shield: shield,
        ..e
    }
}

impl Game {
    /// Moves every buffered enemy into the live list: each gets the
    /// next monotonically increasing id, the fixed downward spawn
    /// offset, and one shield charge per accumulated `EnemyShields`
    /// curse.
    #[verifier::loop_isolation(false)]
    pub fn spawn_enemies(&mut self, buffer: &mut Vec<Enemy>)
        requires
            spec_player_wf(old(self).player@),
            old(self).enemy_id + old(buffer)@.len() <= usize::MAX,
            forall|i: int| 0 <= i < old(self).enemies@.len()
                ==> spec_enemy_wf((#[trigger] old(self).enemies@[i])@),
            forall|i: int| 0 <= i < old(buffer)@.len()
                ==> spec_enemy_wf((#[trigger] old(buffer)@[i])@)
                    && old(buffer)@[i]@.pos.y <= ENEMY_POS_LIMIT - 32_000,
        ensures
            ({
                let shield = spec_shield_of_count(spec_count_curse(old(self).player@.curses,
                    ChaosCurse::EnemyShields));
                &&& final(buffer)@.len() == 0
                &&& final(self).enemies@.map_values(|e: Enemy| e@)
                    == old(self).enemies@.map_values(|e: Enemy| e@)
                        + Seq::new(old(buffer)@.len(), |i: int| spec_absorbed_enemy(
                            old(buffer)@[i]@, old(self).enemy_id + i, shield))
                &&& final(self).enemy_id == old(self).enemy_id + old(buffer)@.len()
            }),
            final(self).player == old(self).player,
            final(self).state == old(self).state,
            final(self).projectiles == old(self).projectiles,
            final(self).dropped_items == old(self).dropped_items,
            final(self).dungeon_manager == old(self).dungeon_manager,
            final(self).all_items == old(self).all_items,
            final(self).layouts == old(self).layouts,
            final(self).game_over == old(self).game_over,
            forall|i: int| 0 <= i < final(self).enemies@.len()
                ==> spec_enemy_wf((#[trigger] final(self).enemies@[i])@),
    {
        let shield_count = self.player.count_curse(ChaosCurse::EnemyShields);
        let capped: i64 = if shield_count >= 200_000 {
            200_000
        } else {
            shield_count as i64
        };
        let shield: i64 = capped * 5_000;
        let ghost b0 = old(buffer)@;
        let ghost id0 = old(self).enemy_id as int;
        let mut k: usize = 0;
        let total = buffer.len();
        while k < total
            invariant
                k <= total,
                total == b0.len(),
                buffer@ == b0.skip(k as int),
                self.enemy_id == id0 + k,
                shield == spec_shield_of_count(spec_count_curse(old(self).player@.curses,
                    ChaosCurse::EnemyShields)),
                0 <= shield <= SHIELD_CAP,
                self.enemies@.map_values(|e: Enemy| e@)
                    == old(self).enemies@.map_values(|e: Enemy| e@)
                        + Seq::new(k as nat, |i: int| spec_absorbed_enemy(b0[i]@, id0 + i,
                            shield as int)),
                forall|i: int| 0 <= i < self.enemies@.len()
                    ==> spec_enemy_wf((#[trigger] self.enemies@[i])@),
                self.player == old(self).player,
                self.state == old(self).state,
                self.projectiles == old(self).projectiles,
                self.dropped_items == old(self).dropped_items,
                self.dungeon_manager == old(self).dungeon_manager,
                self.all_items == old(self).all_items,
                self.layouts == old(self).layouts,
                self.game_over == old(self).game_over,
            decreases total - k,
        {
            let mut enemy = buffer.remove(0);
            proof {
                assert(b0.skip(k as int)[0] == b0[k as int]);
                assert(b0.skip(k as int).skip(1) =~= b0.skip(k + 1));
            }
            enemy.id = self.enemy_id;
            enemy.pos.y = enemy.pos.y + 32_000;
            enemy.shield = shield;
            self.enemy_id = self.enemy_id + 1;
            let ghost ev = enemy@;
            let ghost prev_map = self.enemies@.map_values(|e: Enemy| e@);
            proof {
                assert(ev =~= spec_absorbed_enemy(b0[k as int]@, id0 + k, shield as int));
            }
            self.enemies.push(enemy);
            proof {
                assert(self.enemies@.map_values(|e: Enemy| e@) =~= prev_map.push(ev));
                assert(prev_map.push(ev)
                    =~= old(self).enemies@.map_values(|e: Enemy| e@)
                        + Seq::new((k + 1) as nat, |i: int| spec_absorbed_enemy(b0[i]@,
                            id0 + i, shield as int)));
            }
            k = k + 1;
        }
        proof {
            assert(buffer@ =~= Seq::<Enemy>::empty());
        }
    }
}

} // verus!

verus! {

use vstd::seq_lib::*;

/// The view of the dropped-item list.
pub open spec fn dropped_view(s: Seq<(Vec2Fx, Item)>) -> Seq<(Vec2V, ItemV)> {
    s.map_values(|pi: (Vec2Fx, Item)| (pi.0@, pi.1@))
}

/// What curse application changes besides the curse list itself.
#[verifier::ext_equal]
pub struct CurseResultV {
    pub player: PlayerV,
    pub dropped: Seq<(Vec2V, ItemV)>,
    pub rng: u64,
}

/// The one-time effect a curse has the moment it is taken: a full heal,
/// an armor repair, a permanent damage-modifier shift, or a random gift
/// item (stored if a slot is free, else dropped beside the player).
pub open spec fn spec_curse_effect(
    p: PlayerV,
    dropped: Seq<(Vec2V, ItemV)>,
    items: Seq<ItemV>,
    curse: ChaosCurse,
    rng: u64,
) -> CurseResultV {
    match curse {
        ChaosCurse::RefillHealth => CurseResultV {
            player: PlayerV {
                internal_stats: StatsV {
                    lives: p.internal_stats.max_lives,
                    ..p.internal_stats
                },
                ..p
            },
            dropped: dropped,
            rng: rng,
        },
        ChaosCurse::RepairArmor => CurseResultV {
            player: PlayerV {
                helmet: crate::player::spec_repair(p.helmet),
                chestplate: crate::player::spec_repair(p.chestplate),
                ..p
            },
            dropped: dropped,
            rng: rng,
        },
        ChaosCurse::DoubledUnholyDmg => CurseResultV {
            player: PlayerV {
                internal_stats: spec_merge(p.internal_stats, StatsV {
                    damage_modifiers: crate::stats::DamageMapV {
                        unholy: 1_000,
                        ..crate::stats::DamageMapV::zero()
                    },
                    ..spec_stats_default()
                }),
                ..p
            },
            dropped: dropped,
            rng: rng,
        },
        ChaosCurse::HalvedHolyDmg => CurseResultV {
            player: PlayerV {
                internal_stats: spec_merge(p.internal_stats, StatsV {
                    damage_modifiers: crate::stats::DamageMapV {
                        holy: -500,
                        ..crate::stats::DamageMapV::zero()
                    },
                    ..spec_stats_default()
                }),
                ..p
            },
            dropped: dropped,
            rng: rng,
        },
        ChaosCurse::Gift => {
            let sel = spec_select(items, rng);
            if spec_slot_free(p, sel.0.ty) {
                CurseResultV { player: spec_give_item(p, sel.0), dropped: dropped, rng: sel.1 }
            } else {
                let off = spec_drop_offset(sel.1);
                CurseResultV {
                    player: p,
                    dropped: dropped.push((p.pos.add(off.0), sel.0)),
                    rng: off.1,
                }
            }
        }
        _ => CurseResultV { player: p, dropped: dropped, rng: rng },
    }
}

/// The inventory with every slot below `i` emptied, and the evicted
/// items in slot order.
pub open spec fn spec_evict_upto(inv: Seq<Option<ItemV>>, i: int) -> (Seq<Option<ItemV>>, Seq<ItemV>)
    decreases i,
{
    if i <= 0 {
        (inv, Seq::empty())
    } else {
        let prev = spec_evict_upto(inv, i - 1);
        match inv[i - 1] {
            Option::Some(it) => (prev.0.update(i - 1, Option::None), prev.1.push(it)),
            Option::None => prev,
        }
    }
}

/// Evicted items re-homed one by one, in eviction order: each goes to
/// the first free slot its kind allows, or is dropped beside the player
/// when none is left.
pub open spec fn spec_rehome(
    p: PlayerV,
    dropped: Seq<(Vec2V, ItemV)>,
    lost: Seq<ItemV>,
    i: int,
    rng: u64,
) -> CurseResultV
    decreases lost.len() - i,
{
    if i < 0 || i >= lost.len() {
        CurseResultV { player: p, dropped: dropped, rng: rng }
    } else {
        let item = lost[i];
        if spec_slot_free(p, item.ty) {
            spec_rehome(spec_give_item(p, item), dropped, lost, i + 1, rng)
        } else {
            let off = spec_drop_offset(rng);
            spec_rehome(p, dropped.push((p.pos.add(off.0), item)), lost, i + 1, off.1)
        }
    }
}

pub proof fn lemma_evict_props(inv: Seq<Option<ItemV>>, i: int)
    requires
        0 <= i <= inv.len(),
    ensures
        spec_evict_upto(inv, i).0.len() == inv.len(),
        forall|j: int| i <= j < inv.len() ==> spec_evict_upto(inv, i).0[j] == inv[j],
        forall|j: int| 0 <= j < i ==> (#[trigger] spec_evict_upto(inv, i).0[j]) is None,
    decreases i,
{
    if i > 0 {
        lemma_evict_props(inv, i - 1);
    }
}

/// Re-homing never touches the base stats.
pub proof fn lemma_rehome_internal(
    p: PlayerV,
    dropped: Seq<(Vec2V, ItemV)>,
    lost: Seq<ItemV>,
    i: int,
    rng: u64,
)
    ensures
        spec_rehome(p, dropped, lost, i, rng).player.internal_stats == p.internal_stats,
    decreases lost.len() - i,
{
    if 0 <= i < lost.len() {
        let item = lost[i];
        if spec_slot_free(p, item.ty) {
            lemma_rehome_internal(spec_give_item(p, item), dropped, lost, i + 1, rng);
        } else {
            let off = spec_drop_offset(rng);
            lemma_rehome_internal(p, dropped.push((p.pos.add(off.0), item)), lost, i + 1, off.1);
        }
    }
}

/// What taking a curse does (see `Game::give_curse`): the one-time
/// effect fires, the curse joins the list, the now-locked inventory
/// slots are emptied, and every evicted item is re-homed to the first
/// free slot or dropped beside the player.
pub open spec fn spec_give_curse(
    p: PlayerV,
    dropped: Seq<(Vec2V, ItemV)>,
    items: Seq<ItemV>,
    curse: ChaosCurse,
    rng: u64,
) -> CurseResultV {
    let e = spec_curse_effect(p, dropped, items, curse, rng);
    let p2 = PlayerV { curses: e.player.curses.push(curse), ..e.player };
    let locked = spec_locked_slots(p2.curses);
    let ev = spec_evict_upto(p2.inventory, locked);
    let p3 = PlayerV { inventory: ev.0, ..p2 };
    spec_rehome(p3, e.dropped, ev.1, 0, e.rng)
}

impl Game {
    /// The one-time effect of a curse (see `spec_curse_effect`).
    #[verifier::loop_isolation(false)]
    #[verifier::rlimit(60)]
    fn apply_curse_effect(&mut self, curse: ChaosCurse, rng: &mut GameRng)
        requires
            spec_player_wf(old(self).player@),
            forall|i: int| 0 <= i < old(self).dropped_items@.len()
                ==> spec_item_wf((#[trigger] old(self).dropped_items@[i]).1@),
            old(self).all_items@.len() >= 1,
            forall|i: int| 0 <= i < old(self).all_items@.len()
                ==> spec_item_wf((#[trigger] old(self).all_items@[i])@),
            curse is DoubledUnholyDmg
                ==> old(self).player@.internal_stats.damage_modifiers.unholy
                    <= STAT_LIMIT - 1_000,
            curse is HalvedHolyDmg
                ==> old(self).player@.internal_stats.damage_modifiers.holy
                    >= -STAT_LIMIT + 500,
        ensures
            ({
                let c = spec_curse_effect(old(self).player@,
                    dropped_view(old(self).dropped_items@),
                    old(self).all_items@.map_values(|i: Item| i@), curse, old(rng)@);
                &&& final(self).player@ == c.player
                &&& dropped_view(final(self).dropped_items@) == c.dropped
                &&& final(rng)@ == c.rng
            }),
            spec_player_wf(final(self).player@),
            old(self).player@.internal_stats.lives > 0
                ==> final(self).player@.internal_stats.lives > 0,
            forall|i: int| 0 <= i < final(self).dropped_items@.len()
                ==> spec_item_wf((#[trigger] final(self).dropped_items@[i]).1@),
            final(self).state == old(self).state,
            final(self).enemies == old(self).enemies,
            final(self).projectiles == old(self).projectiles,
            final(self).enemy_id == old(self).enemy_id,
            final(self).dungeon_manager == old(self).dungeon_manager,
            final(self).all_items == old(self).all_items,
            final(self).layouts == old(self).layouts,
            final(self).game_over == old(self).game_over,
    {
        let ghost p0 = old(self).player@;
        let ghost d0 = dropped_view(old(self).dropped_items@);
        let ghost itemsv = old(self).all_items@.map_values(|i: Item| i@);
        let ghost eff = spec_curse_effect(p0, d0, itemsv, curse, old(rng)@);
        match curse {
            ChaosCurse::RefillHealth => {
                self.player.regen();
            }
            ChaosCurse::RepairArmor => {
                self.player.repair_armor();
            }
            ChaosCurse::DoubledUnholyDmg => {
                let mut extra = Stats::default();
                extra.damage_modifiers = DamageMap::single(DamageType::Unholy, 1_000);
                proof {
                    crate::stats::lemma_dm_fields(extra.damage_modifiers@);
                    assert(extra@ =~= (StatsV {
                        damage_modifiers: crate::stats::DamageMapV {
                            unholy: 1_000,
                            ..crate::stats::DamageMapV::zero()
                        },
                        ..spec_stats_default()
                    }));
                }
                self.player.internal_stats.merge(&extra);
                proof {
                    assert(self.player@ =~= eff.player);
                }
            }
            ChaosCurse::HalvedHolyDmg => {
                let mut extra = Stats::default();
                extra.damage_modifiers = DamageMap::single(DamageType::Holy, -500);
                proof {
                    crate::stats::lemma_dm_fields(extra.damage_modifiers@);
                    assert(extra@ =~= (StatsV {
                        damage_modifiers: crate::stats::DamageMapV {
                            holy: -500,
                            ..crate::stats::DamageMapV::zero()
                        },
                        ..spec_stats_default()
                    }));
                }
                self.player.internal_stats.merge(&extra);
                proof {
                    assert(self.player@ =~= eff.player);
                }
            }
            ChaosCurse::Gift => {
                let item = select_random(&self.all_items, rng).duplicate();
                proof {
                    assert(item@ == spec_select(itemsv, old(rng)@).0);
                }
                if self.player.inv_slot_free(&item.ty) {
                    self.player.give_item(item);
                } else {
                    let pos = drop_position(self.player.pos, rng);
                    self.dropped_items.push((pos, item));
                    proof {
                        assert(dropped_view(self.dropped_items@) =~= eff.dropped);
                    }
                }
            }
            _ => {}
        }
    }

    /// Empties every inventory slot the accumulated curses lock, and
    /// hands back the evicted items in slot order.
    #[verifier::loop_isolation(false)]
    #[verifier::rlimit(60)]
    fn evict_locked(&mut self) -> (lost: Vec<Item>)
        requires
            spec_player_wf(old(self).player@),
        ensures
            ({
                let ev = spec_evict_upto(old(self).player@.inventory,
                    spec_locked_slots(old(self).player@.curses));
                &&& final(self).player@ == (PlayerV { inventory: ev.0, ..old(self).player@ })
                &&& lost@.map_values(|it: Item| it@) == ev.1
            }),
            spec_player_wf(final(self).player@),
            forall|j: int| 0 <= j < lost@.len() ==> spec_item_wf((#[trigger] lost@[j])@),
            final(self).state == old(self).state,
            final(self).enemies == old(self).enemies,
            final(self).projectiles == old(self).projectiles,
            final(self).dropped_items == old(self).dropped_items,
            final(self).enemy_id == old(self).enemy_id,
            final(self).dungeon_manager == old(self).dungeon_manager,
            final(self).all_items == old(self).all_items,
            final(self).layouts == old(self).layouts,
            final(self).game_over == old(self).game_over,
    {
        let ghost p2 = old(self).player@;
        let locked = self.player.locked_slots();
        let mut lost: Vec<Item> = Vec::new();
        let mut i: usize = 0;
        while i < locked
            invariant
                i <= locked,
                locked == spec_locked_slots(p2.curses),
                locked <= self.player.inventory.len(),
                ({
                    let ev = spec_evict_upto(p2.inventory, i as int);
                    &&& self.player@ == (PlayerV { inventory: ev.0, ..p2 })
                    &&& lost@.map_values(|it: Item| it@) == ev.1
                }),
                spec_player_wf(self.player@),
                forall|j: int| 0 <= j < lost@.len() ==> spec_item_wf((#[trigger] lost@[j])@),
                self.state == old(self).state,
                self.enemies == old(self).enemies,
                self.projectiles == old(self).projectiles,
                self.dropped_items == old(self).dropped_items,
                self.enemy_id == old(self).enemy_id,
                self.dungeon_manager == old(self).dungeon_manager,
                self.all_items == old(self).all_items,
                self.layouts == old(self).layouts,
                self.game_over == old(self).game_over,
            decreases locked - i,
        {
            let ghost prev_lost = lost@.map_values(|it: Item| it@);
            let ghost evi = spec_evict_upto(p2.inventory, i as int);
            proof {
                lemma_evict_props(p2.inventory, i as int);
                assert(evi.0[i as int] == p2.inventory[i as int]);
                assert(self.player@.inventory[i as int] == evi.0[i as int]);
                assert(opt_item_view(self.player.inventory@[i as int])
                    == self.player@.inventory[i as int]);
            }
            let slot = &mut self.player.inventory[i];
            let taken = slot.take();
            proof {
                assert(opt_item_view(taken) == p2.inventory[i as int]);
            }
            match taken {
                Option::Some(it) => {
                    lost.push(it);
                    proof {
                        let evn = spec_evict_upto(p2.inventory, i + 1);
                        assert(evn.0 == evi.0.update(i as int, Option::None));
                        assert(evn.1 == evi.1.push(p2.inventory[i as int]->Some_0));
                        assert(self.player@.inventory =~= evn.0);
                        assert(self.player@ =~= (PlayerV { inventory: evn.0, ..p2 }));
                        assert(lost@.map_values(|it2: Item| it2@) =~= evn.1);
                    }
                }
                Option::None => {
                    proof {
                        let evn = spec_evict_upto(p2.inventory, i + 1);
                        assert(evn == evi);
                        assert(self.player@.inventory =~= evi.0.update(i as int, Option::None));
                        assert(evi.0.update(i as int, Option::None) =~= evi.0);
                        assert(self.player@ =~= (PlayerV { inventory: evn.0, ..p2 }));
                    }
                }
            }
            i = i + 1;
        }
        lost
    }

    /// Re-homes evicted items in order: each to the first free slot its
    /// kind allows, or dropped beside the player.
    #[verifier::loop_isolation(false)]
    #[verifier::rlimit(60)]
    fn rehome_lost(&mut self, lost: &Vec<Item>, rng: &mut GameRng)
        requires
            spec_player_wf(old(self).player@),
            forall|j: int| 0 <= j < lost@.len() ==> spec_item_wf((#[trigger] lost@[j])@),
            forall|j: int| 0 <= j < old(self).dropped_items@.len()
                ==> spec_item_wf((#[trigger] old(self).dropped_items@[j]).1@),
        ensures
            ({
                let c = spec_rehome(old(self).player@, dropped_view(old(self).dropped_items@),
                    lost@.map_values(|it: Item| it@), 0, old(rng)@);
                &&& final(self).player@ == c.player
                &&& dropped_view(final(self).dropped_items@) == c.dropped
                &&& final(rng)@ == c.rng
            }),
            spec_player_wf(final(self).player@),
            final(self).player@.internal_stats == old(self).player@.internal_stats,
            forall|j: int| 0 <= j < final(self).dropped_items@.len()
                ==> spec_item_wf((#[trigger] final(self).dropped_items@[j]).1@),
            final(self).state == old(self).state,
            final(self).enemies == old(self).enemies,
            final(self).projectiles == old(self).projectiles,
            final(self).enemy_id == old(self).enemy_id,
            final(self).dungeon_manager == old(self).dungeon_manager,
            final(self).all_items == old(self).all_items,
            final(self).layouts == old(self).layouts,
            final(self).game_over == old(self).game_over,
    {
        let ghost p3 = old(self).player@;
        let ghost d3 = dropped_view(old(self).dropped_items@);
        let ghost lostv = lost@.map_values(|it: Item| it@);
        proof {
            lemma_rehome_internal(p3, d3, lostv, 0, old(rng)@);
        }
        let mut k: usize = 0;
        while k < lost.len()
            invariant
                k <= lost@.len(),
                lostv == lost@.map_values(|it: Item| it@),
                lostv.len() == lost@.len(),
                spec_rehome(p3, d3, lostv, 0, old(rng)@)
                    == spec_rehome(self.player@, dropped_view(self.dropped_items@),
                        lostv, k as int, rng@),
                spec_player_wf(self.player@),
                self.player@.internal_stats == p3.internal_stats,
                forall|j: int| 0 <= j < self.dropped_items@.len()
                    ==> spec_item_wf((#[trigger] self.dropped_items@[j]).1@),
                self.state == old(self).state,
                self.enemies == old(self).enemies,
                self.projectiles == old(self).projectiles,
                self.enemy_id == old(self).enemy_id,
                self.dungeon_manager == old(self).dungeon_manager,
                self.all_items == old(self).all_items,
                self.layouts == old(self).layouts,
                self.game_over == old(self).game_over,
            decreases lost@.len() - k,
        {
            let ghost cur_p = self.player@;
            let ghost cur_d = dropped_view(self.dropped_items@);
            let ghost cur_r = rng@;
            let item = lost[k].duplicate();
            proof {
                assert(item@ == lostv[k as int]);
                lemma_rehome_internal(cur_p, cur_d, lostv, k as int, cur_r);
            }
            if self.player.inv_slot_free(&item.ty) {
                self.player.give_item(item);
                proof {
                    assert(spec_rehome(cur_p, cur_d, lostv, k as int, cur_r)
                        == spec_rehome(self.player@, cur_d, lostv, k + 1, cur_r));
                }
            } else {
                let pos = drop_position(self.player.pos, rng);
                self.dropped_items.push((pos, item));
                proof {
                    assert(dropped_view(self.dropped_items@)
                        =~= cur_d.push((cur_p.pos.add(spec_drop_offset(cur_r).0),
                            lostv[k as int])));
                    assert(spec_rehome(cur_p, cur_d, lostv, k as int, cur_r)
                        == spec_rehome(self.player@, dropped_view(self.dropped_items@),
                            lostv, k + 1, rng@));
                }
            }
            k = k + 1;
        }
    }

    /// Applies a chosen curse (see `spec_give_curse`): its immediate
    /// one-time effect, the curse appended to the player's list, and
    /// the inventory-lock recomputed with every evicted item re-homed
    /// or dropped to the floor near the player.
    #[verifier::loop_isolation(false)]
    #[verifier::rlimit(60)]
    pub fn give_curse(&mut self, curse: ChaosCurse, rng: &mut GameRng)
        requires
            spec_player_wf(old(self).player@),
            forall|i: int| 0 <= i < old(self).dropped_items@.len()
                ==> spec_item_wf((#[trigger] old(self).dropped_items@[i]).1@),
            old(self).all_items@.len() >= 1,
            forall|i: int| 0 <= i < old(self).all_items@.len()
                ==> spec_item_wf((#[trigger] old(self).all_items@[i])@),
            curse is DoubledUnholyDmg
                ==> old(self).player@.internal_stats.damage_modifiers.unholy
                    <= STAT_LIMIT - 1_000,
            curse is HalvedHolyDmg
                ==> old(self).player@.internal_stats.damage_modifiers.holy
                    >= -STAT_LIMIT + 500,
        ensures
            ({
                let c = spec_give_curse(old(self).player@, dropped_view(old(self).dropped_items@),
                    old(self).all_items@.map_values(|i: Item| i@), curse, old(rng)@);
                &&& final(self).player@ == c.player
                &&& dropped_view(final(self).dropped_items@) == c.dropped
                &&& final(rng)@ == c.rng
            }),
            spec_player_wf(final(self).player@),
            old(self).player@.internal_stats.lives > 0
                ==> final(self).player@.internal_stats.lives > 0,
            forall|i: int| 0 <= i < final(self).dropped_items@.len()
                ==> spec_item_wf((#[trigger] final(self).dropped_items@[i]).1@),
            final(self).state == old(self).state,
            final(self).enemies == old(self).enemies,
            final(self).projectiles == old(self).projectiles,
            final(self).enemy_id == old(self).enemy_id,
            final(self).dungeon_manager == old(self).dungeon_manager,
            final(self).all_items == old(self).all_items,
            final(self).layouts == old(self).layouts,
            final(self).game_over == old(self).game_over,
    {
        let ghost p0 = old(self).player@;
        let ghost d0 = dropped_view(old(self).dropped_items@);
        let ghost itemsv = old(self).all_items@.map_values(|i: Item| i@);
        let ghost eff = spec_curse_effect(p0, d0, itemsv, curse, old(rng)@);
        self.apply_curse_effect(curse, rng);
        self.player.curses.push(curse);
        let ghost p2 = PlayerV { curses: eff.player.curses.push(curse), ..eff.player };
        proof {
            assert(self.player@ =~= p2);
        }
        let ghost lives_mid = self.player@.internal_stats.lives;
        let lost = self.evict_locked();
        proof {
            lemma_rehome_internal(PlayerV {
                inventory: spec_evict_upto(p2.inventory, spec_locked_slots(p2.curses)).0,
                ..p2
            }, eff.dropped, lost@.map_values(|it: Item| it@), 0, eff.rng);
        }
        self.rehome_lost(&lost, rng);
    }
}

} // verus!
verus! {

use crate::fx::div_tz;

/// The walk direction and speed of one tick: the input intent at the
/// aggregated move speed, unless a roll is in progress, which forces
/// its own direction at the fixed roll speed.
pub struct MovePhaseV {
    pub player: PlayerV,
    pub move_vector: Vec2V,
    pub speed: int,
}

pub open spec fn spec_room_lo_v() -> Vec2V {
    Vec2V { x: ROOM_MIN_X as int, y: ROOM_MIN_Y as int }
}

pub open spec fn spec_room_hi_v() -> Vec2V {
    Vec2V { x: ROOM_MAX_X as int, y: ROOM_MAX_Y as int }
}

/// The movement stage of one tick: the player advances by the walk
/// vector times the speed and is clamped to the room.
pub open spec fn spec_move_phase(p: PlayerV, intent: Vec2V) -> MovePhaseV {
    let mv = if p.roll_frames == 0 {
        intent
    } else {
        p.roll_direction
    };
    let speed = if p.roll_frames == 0 {
        spec_player_stats(p).move_speed
    } else {
        4_000int
    };
    let pos = p.pos.add(mv.scale_fx(speed)).clamp(spec_room_lo_v(), spec_room_hi_v());
    MovePhaseV { player: PlayerV { pos: pos, ..p }, move_vector: mv, speed: speed }
}

/// Whether the player stands in the door opening and asks to advance:
/// only in the Post state, pressed against the top wall, within the
/// door tiles' x-range.
pub open spec fn spec_door_taken(state: RoundStateV, p: PlayerV, advance_down: bool) -> bool {
    &&& state is Post
    &&& p.pos.y == ROOM_MIN_Y
    &&& 116_000 <= p.pos.x < 140_000
    &&& advance_down
}

/// The counter stage of one tick: the moving flag and walk animation,
/// the attack, roll and invulnerability counters each one step lower,
/// and a fresh roll started when asked for while moving and off
/// cooldown.
pub open spec fn spec_counters_phase(p: PlayerV, mv: Vec2V, speed: int, roll_down: bool)
    -> PlayerV {
    let moving = mv != (Vec2V { x: 0, y: 0 });
    let p1 = PlayerV {
        moving: moving,
        anim_frame: if moving {
            spec_sat_add(p.anim_frame, speed)
        } else {
            p.anim_frame
        },
        attack_counter: if p.attack_counter > 0 {
            p.attack_counter - 1_000
        } else {
            p.attack_counter
        },
        roll_counter: if p.roll_counter > 0 {
            p.roll_counter - 1_000
        } else {
            p.roll_counter
        },
        roll_frames: if p.roll_frames > 0 {
            p.roll_frames - 1
        } else {
            0
        },
        invuln_frames: if p.invuln_frames > 0 {
            p.invuln_frames - 1
        } else {
            0
        },
        ..p
    };
    if roll_down && p1.roll_counter <= 0 && moving {
        PlayerV {
            roll_counter: spec_player_stats(p).roll_delay,
            roll_frames: 12,
            roll_direction: mv,
            ..p1
        }
    } else {
        p1
    }
}

/// The fixed-point dot product of two unit-scaled vectors.
pub open spec fn spec_dot(a: Vec2V, b: Vec2V) -> int {
    div_tz(a.x * b.x + a.y * b.y, FX_ONE as int)
}

/// The attack stage of one tick: while the button is held, the cooldown
/// elapsed and a weapon in hand, its template is launched toward the
/// mouse, carrying a snapshot of the aggregated stats; the launch speed
/// grows with the walk component along the shot, scaled by the
/// template's drag.
pub open spec fn spec_attack_phase(p: PlayerV, attack_down: bool, mouse: Vec2V, mv: Vec2V)
    -> (PlayerV, Seq<ProjectileV>) {
    if attack_down && p.attack_counter <= 0 && (match p.hand {
        Option::Some(i) => i.ty is Held,
        Option::None => false,
    }) {
        let w = p.hand->Some_0.ty->Held_0;
        let stats = spec_player_stats(p);
        let delta = mouse.sub(p.pos).norm();
        let t = w.projectile;
        let dot = spec_dot(delta, mv);
        let boost = spec_fx_mul(spec_fx_mul(25_000, t.drag as int), if dot > 0 {
            dot
        } else {
            0
        });
        let proj = ProjectileV {
            pos: p.pos.add(delta.scale_fx(10_000)),
            direction: delta,
            player_owned: true,
            stats: Option::Some(stats),
            speed: t.speed + boost,
            ..spec_spawn(t)
        };
        (PlayerV { attack_counter: stats.attack_delay, ..p }, seq![proj])
    } else {
        (p, Seq::empty())
    }
}

/// What the projectile stage of one tick produces: the projectiles
/// still flying, the chains they spawned (appended after the pass, so
/// one pass never visits them), the struck enemies, and the player.
#[verifier::ext_equal]
pub struct ProjPhaseV {
    pub kept: Seq<ProjectileV>,
    pub spawned: Seq<ProjectileV>,
    pub enemies: Seq<EnemyV>,
    pub player: PlayerV,
    pub game_over: bool,
}

/// The projectile stage, one projectile at a time in list order: it
/// flies one step; a player-owned one with a stat snapshot strikes
/// enemies (each at most once, see `spec_proj_hit_pass`), anything else
/// strikes a vulnerable player within four pixels; a projectile that
/// would leave the room emits its on-hit chain and is removed, and one
/// past its lifetime is removed. Chains spawned during the pass are
/// appended to `kept` afterward, never visited in the same pass.
pub open spec fn spec_proj_phase(
    projs: Seq<ProjectileV>,
    i: int,
    mods: crate::stats::DamageMapV,
    st: ProjPhaseV,
) -> ProjPhaseV
    decreases projs.len() - i,
{
    if i < 0 || i >= projs.len() {
        st
    } else {
        let p1 = spec_proj_step(projs[i]);
        let owned_hit = p1.player_owned && p1.stats is Some;
        let hp = spec_proj_hit_pass(p1, mods, st.enemies);
        let p2 = if owned_hit {
            hp.proj
        } else {
            p1
        };
        let enemies2 = if owned_hit {
            hp.enemies
        } else {
            st.enemies
        };
        let chained = if owned_hit {
            hp.spawned
        } else {
            Seq::empty()
        };
        let player_hit = !owned_hit && st.player.roll_frames == 0 && st.player.invuln_frames == 0
            && st.player.pos.sub(p1.pos).len_sq() <= 16_000_000;
        let pl = if player_hit {
            spec_damage(st.player)
        } else {
            (st.player, false)
        };
        let clamped = p2.pos.clamp(spec_room_lo_v(), spec_room_hi_v());
        let wall = clamped != p2.pos;
        let st2 = if wall {
            ProjPhaseV {
                kept: st.kept,
                spawned: st.spawned + chained + spec_on_hit(ProjectileV { pos: clamped, ..p2 }),
                enemies: enemies2,
                player: pl.0,
                game_over: st.game_over || pl.1,
            }
        } else {
            ProjPhaseV {
                kept: st.kept + (if p2.life < p2.lifetime {
                    seq![p2]
                } else {
                    Seq::empty()
                }),
                spawned: st.spawned + chained,
                enemies: enemies2,
                player: pl.0,
                game_over: st.game_over || pl.1,
            }
        };
        spec_proj_phase(projs, i + 1, mods, st2)
    }
}

/// What the enemy stage of one tick produces.
#[verifier::ext_equal]
pub struct EnemyPhaseV {
    pub kept: Seq<EnemyV>,
    pub projectiles: Seq<ProjectileV>,
    pub player: PlayerV,
    pub game_over: bool,
    pub rng: u64,
}

/// The enemy stage, one enemy at a time in list order, each seeing the
/// stage-start positions of every enemy (see `spec_enemy_tick`): a
/// touched vulnerable player takes one damage event, fired projectiles
/// join the live list, and an enemy whose health is gone leaves it.
pub open spec fn spec_enemy_phase(
    enemies: Seq<EnemyV>,
    i: int,
    player_pos0: Vec2V,
    positions: Seq<Vec2V>,
    st: EnemyPhaseV,
) -> EnemyPhaseV
    decreases enemies.len() - i,
{
    if i < 0 || i >= enemies.len() {
        st
    } else {
        let can = st.player.roll_frames == 0 && st.player.invuln_frames == 0;
        let t = spec_enemy_tick(enemies[i], player_pos0, positions, can, st.rng);
        let pl = if t.contact {
            spec_damage(st.player)
        } else {
            (st.player, false)
        };
        let st2 = EnemyPhaseV {
            kept: st.kept + (if t.alive {
                seq![t.enemy]
            } else {
                Seq::empty()
            }),
            projectiles: st.projectiles + t.fired,
            player: pl.0,
            game_over: st.game_over || pl.1,
            rng: t.rng,
        };
        spec_enemy_phase(enemies, i + 1, player_pos0, positions, st2)
    }
}

} // verus!

verus! {

use crate::stats::DamageMapV;
use crate::stats::dm_bounded;
use crate::utils::AGG_LIMIT;

impl Game {
    /// The movement stage of one tick (see `spec_move_phase`).
    #[verifier::loop_isolation(false)]
    pub fn move_player(&mut self, intent: Vec2Fx) -> (r: (Vec2Fx, i64))
        requires
            spec_player_wf(old(self).player@),
            -FX_ONE <= intent@.x <= FX_ONE,
            -FX_ONE <= intent@.y <= FX_ONE,
        ensures
            ({
                let m = spec_move_phase(old(self).player@, intent@);
                &&& final(self).player@ == m.player
                &&& r.0@ == m.move_vector
                &&& r.1 == m.speed
            }),
            spec_player_wf(final(self).player@),
            -FX_ONE <= r.0@.x <= FX_ONE,
            -FX_ONE <= r.0@.y <= FX_ONE,
            final(self).state == old(self).state,
            final(self).enemies == old(self).enemies,
            final(self).projectiles == old(self).projectiles,
            final(self).dropped_items == old(self).dropped_items,
            final(self).enemy_id == old(self).enemy_id,
            final(self).dungeon_manager == old(self).dungeon_manager,
            final(self).all_items == old(self).all_items,
            final(self).layouts == old(self).layouts,
            final(self).game_over == old(self).game_over,
    {
        let (mv, speed): (Vec2Fx, i64) = if self.roll_frames_zero() {
            let s = self.player.stats();
            (intent, s.move_speed)
        } else {
            (self.player.roll.1, 4_000)
        };
        proof {
            assert(-0x7fff_ffff_ffff_ffff <= mv.x * speed <= 0x7fff_ffff_ffff_ffff)
                by (nonlinear_arith)
                requires
                    -FX_ONE <= mv.x <= FX_ONE,
                    -crate::utils::AGG_SCALAR_LIMIT <= speed <= crate::utils::AGG_SCALAR_LIMIT;
            assert(-0x7fff_ffff_ffff_ffff <= mv.y * speed <= 0x7fff_ffff_ffff_ffff)
                by (nonlinear_arith)
                requires
                    -FX_ONE <= mv.y <= FX_ONE,
                    -crate::utils::AGG_SCALAR_LIMIT <= speed <= crate::utils::AGG_SCALAR_LIMIT;
        }
        let delta = mv.scale(speed);
        self.player.pos = self.player.pos.add(delta).clamp(
            Vec2Fx { x: ROOM_MIN_X, y: ROOM_MIN_Y },
            Vec2Fx { x: ROOM_MAX_X, y: ROOM_MAX_Y },
        );
        proof {
            assert(self.player@ =~= spec_move_phase(old(self).player@, intent@).player);
        }
        (mv, speed)
    }

    /// Whether no roll is in progress.
    fn roll_frames_zero(&self) -> (r: bool)
        ensures
            r == (self.player@.roll_frames == 0),
    {
        self.player.roll.0 == 0
    }

    /// The counter stage of one tick (see `spec_counters_phase`).
    #[verifier::loop_isolation(false)]
    pub fn tick_counters(&mut self, mv: Vec2Fx, speed: i64, roll_down: bool)
        requires
            spec_player_wf(old(self).player@),
            -FX_ONE <= mv@.x <= FX_ONE,
            -FX_ONE <= mv@.y <= FX_ONE,
        ensures
            final(self).player@ == spec_counters_phase(old(self).player@, mv@, speed as int,
                roll_down),
            spec_player_wf(final(self).player@),
            final(self).player@.internal_stats == old(self).player@.internal_stats,
            final(self).state == old(self).state,
            final(self).enemies == old(self).enemies,
            final(self).projectiles == old(self).projectiles,
            final(self).dropped_items == old(self).dropped_items,
            final(self).enemy_id == old(self).enemy_id,
            final(self).dungeon_manager == old(self).dungeon_manager,
            final(self).all_items == old(self).all_items,
            final(self).layouts == old(self).layouts,
            final(self).game_over == old(self).game_over,
    {
        let moving = !(mv.x == 0 && mv.y == 0);
        self.player.moving = moving;
        if moving {
            self.player.anim_frame = sat_add(self.player.anim_frame, speed);
        }
        if self.player.attack_counter > 0 {
            self.player.attack_counter = self.player.attack_counter - 1_000;
        }
        if self.player.roll_counter > 0 {
            self.player.roll_counter = self.player.roll_counter - 1_000;
        }
        if self.player.roll.0 > 0 {
            self.player.roll.0 = self.player.roll.0 - 1;
        }
        if self.player.invuln_frames > 0 {
            self.player.invuln_frames = self.player.invuln_frames - 1;
        }
        if roll_down && self.player.roll_counter <= 0 && moving {
            let s = self.player.stats();
            self.player.roll_counter = s.roll_delay;
            self.player.roll = (12, mv);
        }
        proof {
            assert(self.player@ =~= spec_counters_phase(old(self).player@, mv@, speed as int,
                roll_down));
        }
    }

    /// The attack stage of one tick (see `spec_attack_phase`).
    #[verifier::loop_isolation(false)]
    #[verifier::rlimit(60)]
    pub fn player_attack(&mut self, attack_down: bool, mouse: Vec2Fx, mv: Vec2Fx)
        requires
            spec_player_wf(old(self).player@),
            -ENEMY_POS_LIMIT <= mouse@.x <= ENEMY_POS_LIMIT,
            -ENEMY_POS_LIMIT <= mouse@.y <= ENEMY_POS_LIMIT,
            -FX_ONE <= mv@.x <= FX_ONE,
            -FX_ONE <= mv@.y <= FX_ONE,
            forall|i: int| 0 <= i < old(self).projectiles@.len()
                ==> spec_proj_wf((#[trigger] old(self).projectiles@[i])@),
        ensures
            ({
                let a = spec_attack_phase(old(self).player@, attack_down, mouse@, mv@);
                &&& final(self).player@ == a.0
                &&& final(self).projectiles@.map_values(|q: Projectile| q@)
                    == old(self).projectiles@.map_values(|q: Projectile| q@) + a.1
            }),
            spec_player_wf(final(self).player@),
            final(self).player@.internal_stats == old(self).player@.internal_stats,
            forall|i: int| 0 <= i < final(self).projectiles@.len()
                ==> spec_proj_wf((#[trigger] final(self).projectiles@[i])@),
            final(self).state == old(self).state,
            final(self).enemies == old(self).enemies,
            final(self).dropped_items == old(self).dropped_items,
            final(self).enemy_id == old(self).enemy_id,
            final(self).dungeon_manager == old(self).dungeon_manager,
            final(self).all_items == old(self).all_items,
            final(self).layouts == old(self).layouts,
            final(self).game_over == old(self).game_over,
    {
        let ghost a = spec_attack_phase(old(self).player@, attack_down, mouse@, mv@);
        let has_weapon = match &self.player.hand {
            Option::Some(i) => match &i.ty {
                ItemType::Held(_) => true,
                _ => false,
            },
            Option::None => false,
        };
        if attack_down && self.player.attack_counter <= 0 && has_weapon {
            let stats = self.player.stats();
            let template = match &self.player.hand {
                Option::Some(i) => match &i.ty {
                    ItemType::Held(w) => w.projectile,
                    _ => crate::projectiles::base_projectile(),
                },
                Option::None => crate::projectiles::base_projectile(),
            };
            let raw_delta = mouse.sub(self.player.pos);
            proof {
                lemma_len_sq_small(raw_delta@.x, raw_delta@.y, 2 * ENEMY_POS_LIMIT as int);
            }
            let delta = raw_delta.normalize();
            proof {
                assert(-0x7fff_ffff_ffff_ffff <= delta.x * 10_000 <= 0x7fff_ffff_ffff_ffff)
                    by (nonlinear_arith)
                    requires -FX_ONE <= delta.x <= FX_ONE;
                assert(-0x7fff_ffff_ffff_ffff <= delta.y * 10_000 <= 0x7fff_ffff_ffff_ffff)
                    by (nonlinear_arith)
                    requires -FX_ONE <= delta.y <= FX_ONE;
                lemma_unit_scale_bound(delta@.x, 10_000, 10_000);
                lemma_unit_scale_bound(delta@.y, 10_000, 10_000);
            }
            let mut proj = Projectile::from_template(&template);
            proj.pos = self.player.pos.add(delta.scale(10_000));
            proj.direction = delta;
            proj.player_owned = true;
            let dot = dot_unit(delta, mv);
            proof {
                lemma_unit_scale_bound(template.drag as int, 25_000, 25_000);
                assert(25_000 * (template.drag as int) == (template.drag as int) * 25_000);
                assert(-0x7fff_ffff_ffff_ffff <= 25_000 * template.drag
                    <= 0x7fff_ffff_ffff_ffff) by (nonlinear_arith)
                    requires 0 <= template.drag <= FX_ONE;
            }
            let boost_base = fx_mul(25_000, template.drag);
            proof {
                assert(0 <= boost_base * (if dot > 0 { dot as int } else { 0int }) <= 50_000_000)
                    by (nonlinear_arith)
                    requires
                        0 <= boost_base <= 25_000,
                        -2_000 <= dot <= 2_000;
            }
            let boost = fx_mul(boost_base, if dot > 0 { dot } else { 0 });
            proof {
                let prod = (boost_base as int) * (if dot > 0 { dot as int } else { 0int });
                vstd::arithmetic::div_mod::lemma_div_is_ordered(0, prod, FX_ONE as int);
                vstd::arithmetic::div_mod::lemma_div_is_ordered(prod, 50_000_000, FX_ONE as int);
                vstd::arithmetic::div_mod::lemma_div_by_multiple(50_000, FX_ONE as int);
                assert(0int / (FX_ONE as int) == 0) by (nonlinear_arith);
                assert(0 <= boost <= 50_000);
            }
            proj.speed = template.speed + boost;
            let attack_delay = stats.attack_delay;
            proj.stats = Option::Some(stats);
            self.player.attack_counter = attack_delay;
            proof {
                assert(proj@ =~= a.1[0]);
                assert(spec_proj_wf(proj@));
            }
            self.projectiles.push(proj);
            proof {
                assert(self.projectiles@.map_values(|q: Projectile| q@)
                    =~= old(self).projectiles@.map_values(|q: Projectile| q@) + a.1);
                assert(self.player@ =~= a.0);
            }
        } else {
            proof {
                assert(self.projectiles@.map_values(|q: Projectile| q@)
                    =~= old(self).projectiles@.map_values(|q: Projectile| q@) + a.1);
            }
        }
    }
}

/// The fixed-point dot product of two unit-scaled vectors, exact.
fn dot_unit(a: Vec2Fx, b: Vec2Fx) -> (r: i64)
    requires
        -FX_ONE <= a.x <= FX_ONE,
        -FX_ONE <= a.y <= FX_ONE,
        -FX_ONE <= b.x <= FX_ONE,
        -FX_ONE <= b.y <= FX_ONE,
    ensures
        r == spec_dot(a@, b@),
        -2_000 <= r <= 2_000,
{
    proof {
        assert(-1_000_000 <= a.x * b.x <= 1_000_000 && -1_000_000 <= a.y * b.y <= 1_000_000)
            by (nonlinear_arith)
            requires
                -FX_ONE <= a.x <= FX_ONE,
                -FX_ONE <= a.y <= FX_ONE,
                -FX_ONE <= b.x <= FX_ONE,
                -FX_ONE <= b.y <= FX_ONE;
    }
    let p: i64 = a.x * b.x + a.y * b.y;
    let r: i64 = if p >= 0 {
        p / FX_ONE
    } else {
        -((-p) / FX_ONE)
    };
    proof {
        vstd::arithmetic::div_mod::lemma_div_is_ordered(0, if p >= 0 { p as int } else { -p },
            FX_ONE as int);
        vstd::arithmetic::div_mod::lemma_div_is_ordered(if p >= 0 { p as int } else { -p },
            2_000_000, FX_ONE as int);
        vstd::arithmetic::div_mod::lemma_div_by_multiple(2_000, FX_ONE as int);
        assert(0int / (FX_ONE as int) == 0) by (nonlinear_arith);
    }
    r
}

} // verus!

verus! {

impl Game {
    /// One projectile of the stage: flies, strikes, and is kept in
    /// `kept` or removed; chains it spawns go to `spawned`.
    #[verifier::loop_isolation(false)]
    #[verifier::rlimit(100)]
    fn run_one_projectile(
        &mut self,
        p: Projectile,
        mods: &DamageMap,
        kept: &mut Vec<Projectile>,
        spawned: &mut Vec<Projectile>,
        Ghost(projs0): Ghost<Seq<ProjectileV>>,
        Ghost(i): Ghost<int>,
        Ghost(modsv): Ghost<DamageMapV>,
    )
        requires
            0 <= i < projs0.len(),
            p@ == projs0[i],
            spec_proj_wf(p@),
            mods@ == modsv,
            dm_bounded(modsv, AGG_LIMIT as int),
            spec_player_wf(old(self).player@),
            old(self).player@.roll_frames == 0 && old(self).player@.invuln_frames == 0
                ==> spec_can_absorb(old(self).player@),
            forall|j: int| 0 <= j < old(self).enemies@.len()
                ==> spec_enemy_wf((#[trigger] old(self).enemies@[j])@),
            forall|j: int| 0 <= j < old(kept)@.len()
                ==> spec_proj_wf((#[trigger] old(kept)@[j])@),
            forall|j: int| 0 <= j < old(spawned)@.len()
                ==> spec_proj_wf((#[trigger] old(spawned)@[j])@),
        ensures
            ({
                let cur = ProjPhaseV {
                    kept: old(kept)@.map_values(|q: Projectile| q@),
                    spawned: old(spawned)@.map_values(|q: Projectile| q@),
                    enemies: old(self).enemies@.map_values(|e: Enemy| e@),
                    player: old(self).player@,
                    game_over: old(self).game_over,
                };
                let next = spec_proj_step_state_helper(projs0, i, modsv, cur);
                &&& final(kept)@.map_values(|q: Projectile| q@) == next.kept
                &&& final(spawned)@.map_values(|q: Projectile| q@) == next.spawned
                &&& final(self).enemies@.map_values(|e: Enemy| e@) == next.enemies
                &&& final(self).player@ == next.player
                &&& final(self).game_over == next.game_over
            }),
            spec_player_wf(final(self).player@),
            final(self).player@.pos == old(self).player@.pos,
            (!old(self).game_over && !final(self).game_over)
                ==> final(self).player@.internal_stats.lives > 0
                    || old(self).player@.internal_stats.lives == 0,
            final(self).player@.roll_frames == 0 && final(self).player@.invuln_frames == 0
                ==> final(self).player == old(self).player && final(self).game_over
                    == old(self).game_over,
            forall|j: int| 0 <= j < final(self).enemies@.len()
                ==> spec_enemy_wf((#[trigger] final(self).enemies@[j])@),
            forall|j: int| 0 <= j < final(kept)@.len()
                ==> spec_proj_wf((#[trigger] final(kept)@[j])@),
            forall|j: int| 0 <= j < final(spawned)@.len()
                ==> spec_proj_wf((#[trigger] final(spawned)@[j])@),
            final(self).state == old(self).state,
            final(self).dropped_items == old(self).dropped_items,
            final(self).enemy_id == old(self).enemy_id,
            final(self).dungeon_manager == old(self).dungeon_manager,
            final(self).all_items == old(self).all_items,
            final(self).layouts == old(self).layouts,
            !old(self).game_over && final(self).game_over
                ==> final(self).player@.invuln_frames == 100,
    {
        let mut p = p;
        p.step_motion();
        let owned_hit = p.player_owned && match &p.stats {
            Option::Some(_) => true,
            Option::None => false,
        };
        if owned_hit {
            let mut chained = proj_hit_enemies(&mut p, &mut self.enemies, mods);
            spawned.append(&mut chained);
        } else {
            let can = self.player.can_take_damage();
            if can {
                let pd = self.player.pos.sub(p.pos);
                proof {
                    lemma_len_sq_small(pd@.x, pd@.y,
                        ENEMY_POS_LIMIT as int + crate::utils::POS_LIMIT as int
                            + crate::utils::PROJ_SPEED_LIMIT as int);
                }
                if pd.len_sq() <= 16_000_000 {
                    let over = self.player.damage();
                    if over {
                        self.game_over = true;
                    }
                }
            }
        }
        let clamped = p.pos.clamp(
            Vec2Fx { x: ROOM_MIN_X, y: ROOM_MIN_Y },
            Vec2Fx { x: ROOM_MAX_X, y: ROOM_MAX_Y },
        );
        if !(clamped.x == p.pos.x && clamped.y == p.pos.y) {
            p.pos = clamped;
            let mut chained = p.on_hit();
            spawned.append(&mut chained);
        } else {
            if p.life < p.lifetime {
                kept.push(p);
            }
        }
    }

    /// The projectile stage of one tick (see `spec_proj_phase`): every
    /// projectile flies, strikes, and is kept or removed; the chains
    /// spawned along the way join the list only after the pass.
    #[verifier::loop_isolation(false)]
    #[verifier::rlimit(100)]
    pub fn run_projectile_phase(&mut self)
        requires
            spec_player_wf(old(self).player@),
            !old(self).game_over,
            old(self).player@.internal_stats.lives > 0,
            forall|i: int| 0 <= i < old(self).enemies@.len()
                ==> spec_enemy_wf((#[trigger] old(self).enemies@[i])@),
            forall|i: int| 0 <= i < old(self).projectiles@.len()
                ==> spec_proj_wf((#[trigger] old(self).projectiles@[i])@),
        ensures
            ({
                let mods = spec_player_stats(old(self).player@).damage_modifiers;
                let st = spec_proj_phase(old(self).projectiles@.map_values(|q: Projectile| q@),
                    0, mods, ProjPhaseV {
                        kept: Seq::empty(),
                        spawned: Seq::empty(),
                        enemies: old(self).enemies@.map_values(|e: Enemy| e@),
                        player: old(self).player@,
                        game_over: old(self).game_over,
                    });
                &&& final(self).projectiles@.map_values(|q: Projectile| q@)
                    == st.kept + st.spawned
                &&& final(self).enemies@.map_values(|e: Enemy| e@) == st.enemies
                &&& final(self).player@ == st.player
                &&& final(self).game_over == st.game_over
            }),
            spec_player_wf(final(self).player@),
            final(self).player@.pos == old(self).player@.pos,
            !final(self).game_over ==> final(self).player@.internal_stats.lives > 0,
            forall|i: int| 0 <= i < final(self).enemies@.len()
                ==> spec_enemy_wf((#[trigger] final(self).enemies@[i])@),
            forall|i: int| 0 <= i < final(self).projectiles@.len()
                ==> spec_proj_wf((#[trigger] final(self).projectiles@[i])@),
            final(self).state == old(self).state,
            final(self).dropped_items == old(self).dropped_items,
            final(self).enemy_id == old(self).enemy_id,
            final(self).dungeon_manager == old(self).dungeon_manager,
            final(self).all_items == old(self).all_items,
            final(self).layouts == old(self).layouts,
            final(self).game_over && !old(self).game_over
                ==> final(self).player@.invuln_frames > 0,
    {
        let ghost projs0 = old(self).projectiles@.map_values(|q: Projectile| q@);
        let mods_stats = self.player.stats();
        let mods: DamageMap = mods_stats.damage_modifiers;
        let ghost modsv = spec_player_stats(old(self).player@).damage_modifiers;
        let mut work: Vec<Projectile> = Vec::new();
        core::mem::swap(&mut work, &mut self.projectiles);
        let mut kept: Vec<Projectile> = Vec::new();
        let mut spawned: Vec<Projectile> = Vec::new();
        let ghost st0 = ProjPhaseV {
            kept: Seq::empty(),
            spawned: Seq::empty(),
            enemies: old(self).enemies@.map_values(|e: Enemy| e@),
            player: old(self).player@,
            game_over: old(self).game_over,
        };
        proof {
            assert(kept@.map_values(|q: Projectile| q@) =~= Seq::<ProjectileV>::empty());
            assert(spawned@.map_values(|q: Projectile| q@) =~= Seq::<ProjectileV>::empty());
        }
        let total = work.len();
        let mut i: usize = 0;
        while i < total
            invariant
                i <= total,
                total == projs0.len(),
                work@.map_values(|q: Projectile| q@) == projs0,
                forall|j: int| 0 <= j < work@.len()
                    ==> spec_proj_wf((#[trigger] work@[j])@),
                ({
                    let cur = ProjPhaseV {
                        kept: kept@.map_values(|q: Projectile| q@),
                        spawned: spawned@.map_values(|q: Projectile| q@),
                        enemies: self.enemies@.map_values(|e: Enemy| e@),
                        player: self.player@,
                        game_over: self.game_over,
                    };
                    spec_proj_phase(projs0, 0, modsv, st0)
                        == spec_proj_phase(projs0, i as int, modsv, cur)
                }),
                spec_player_wf(self.player@),
                self.player@.pos == old(self).player@.pos,
                !self.game_over ==> self.player@.internal_stats.lives > 0,
                self.game_over && !old(self).game_over ==> self.player@.invuln_frames > 0,
                self.player@.roll_frames == 0 && self.player@.invuln_frames == 0
                    ==> spec_can_absorb(self.player@),
                forall|j: int| 0 <= j < self.enemies@.len()
                    ==> spec_enemy_wf((#[trigger] self.enemies@[j])@),
                forall|j: int| 0 <= j < kept@.len()
                    ==> spec_proj_wf((#[trigger] kept@[j])@),
                forall|j: int| 0 <= j < spawned@.len()
                    ==> spec_proj_wf((#[trigger] spawned@[j])@),
                self.state == old(self).state,
                self.dropped_items == old(self).dropped_items,
                self.enemy_id == old(self).enemy_id,
                self.dungeon_manager == old(self).dungeon_manager,
                self.all_items == old(self).all_items,
                self.layouts == old(self).layouts,
            decreases total - i,
        {
            let ghost over_before = self.game_over;
            let ghost lives_before = self.player@.internal_stats.lives;
            let p = work[i].duplicate();
            self.run_one_projectile(p, &mods, &mut kept, &mut spawned,
                Ghost(projs0), Ghost(i as int), Ghost(modsv));
            proof {
                if !self.game_over {
                    if self.player@.internal_stats.lives == 0 {
                        assert(false);
                    }
                }
            }
            i = i + 1;
        }
        let mut out = kept;
        out.append(&mut spawned);
        self.projectiles = out;
        proof {
            let st = spec_proj_phase(projs0, 0, modsv, st0);
            assert(self.projectiles@.map_values(|q: Projectile| q@) =~= st.kept + st.spawned);
        }
    }
}

/// The state one step of the projectile stage produces from `st` at
/// index `i` (the body of `spec_proj_phase`, named so the loop can
/// speak of it).
pub open spec fn spec_proj_step_state_helper(
    projs: Seq<ProjectileV>,
    i: int,
    mods: DamageMapV,
    st: ProjPhaseV,
) -> ProjPhaseV {
    let p1 = spec_proj_step(projs[i]);
    let owned_hit = p1.player_owned && p1.stats is Some;
    let hp = spec_proj_hit_pass(p1, mods, st.enemies);
    let p2 = if owned_hit {
        hp.proj
    } else {
        p1
    };
    let enemies2 = if owned_hit {
        hp.enemies
    } else {
        st.enemies
    };
    let chained = if owned_hit {
        hp.spawned
    } else {
        Seq::empty()
    };
    let player_hit = !owned_hit && st.player.roll_frames == 0 && st.player.invuln_frames == 0
        && st.player.pos.sub(p1.pos).len_sq() <= 16_000_000;
    let pl = if player_hit {
        spec_damage(st.player)
    } else {
        (st.player, false)
    };
    let clamped = p2.pos.clamp(spec_room_lo_v(), spec_room_hi_v());
    let wall = clamped != p2.pos;
    if wall {
        ProjPhaseV {
            kept: st.kept,
            spawned: st.spawned + chained + spec_on_hit(ProjectileV { pos: clamped, ..p2 }),
            enemies: enemies2,
            player: pl.0,
            game_over: st.game_over || pl.1,
        }
    } else {
        ProjPhaseV {
            kept: st.kept + (if p2.life < p2.lifetime {
                seq![p2]
            } else {
                Seq::empty()
            }),
            spawned: st.spawned + chained,
            enemies: enemies2,
            player: pl.0,
            game_over: st.game_over || pl.1,
        }
    }
}

} // verus!

verus! {

impl Game {
    /// The enemy stage of one tick (see `spec_enemy_phase`): every enemy
    /// acts against the stage-start positions, fired projectiles join
    /// the live list, and dead enemies leave it.
    #[verifier::loop_isolation(false)]
    #[verifier::rlimit(100)]
    pub fn run_enemy_phase(&mut self, rng: &mut GameRng)
        requires
            spec_player_wf(old(self).player@),
            !old(self).game_over ==> old(self).player@.internal_stats.lives > 0,
            old(self).game_over ==> old(self).player@.invuln_frames > 0,
            forall|i: int| 0 <= i < old(self).enemies@.len()
                ==> spec_enemy_wf((#[trigger] old(self).enemies@[i])@),
            forall|i: int| 0 <= i < old(self).projectiles@.len()
                ==> spec_proj_wf((#[trigger] old(self).projectiles@[i])@),
        ensures
            ({
                let ev0 = old(self).enemies@.map_values(|e: Enemy| e@);
                let st = spec_enemy_phase(ev0, 0, old(self).player@.pos,
                    ev0.map_values(|e: EnemyV| e.pos), EnemyPhaseV {
                        kept: Seq::empty(),
                        projectiles: old(self).projectiles@.map_values(|q: Projectile| q@),
                        player: old(self).player@,
                        game_over: old(self).game_over,
                        rng: old(rng)@,
                    });
                &&& final(self).enemies@.map_values(|e: Enemy| e@) == st.kept
                &&& final(self).projectiles@.map_values(|q: Projectile| q@) == st.projectiles
                &&& final(self).player@ == st.player
                &&& final(self).game_over == st.game_over
                &&& final(rng)@ == st.rng
            }),
            spec_player_wf(final(self).player@),
            final(self).player@.pos == old(self).player@.pos,
            !final(self).game_over ==> final(self).player@.internal_stats.lives > 0,
            forall|i: int| 0 <= i < final(self).enemies@.len()
                ==> spec_enemy_wf((#[trigger] final(self).enemies@[i])@),
            forall|i: int| 0 <= i < final(self).projectiles@.len()
                ==> spec_proj_wf((#[trigger] final(self).projectiles@[i])@),
            final(self).state == old(self).state,
            final(self).dropped_items == old(self).dropped_items,
            final(self).enemy_id == old(self).enemy_id,
            final(self).dungeon_manager == old(self).dungeon_manager,
            final(self).all_items == old(self).all_items,
            final(self).layouts == old(self).layouts,
    {
        let ghost ev0 = old(self).enemies@.map_values(|e: Enemy| e@);
        let mut positions: Vec<Vec2Fx> = Vec::new();
        let mut j: usize = 0;
        while j < self.enemies.len()
            invariant
                j <= self.enemies@.len(),
                self == old(self),
                positions@.map_values(|p: Vec2Fx| p@)
                    == ev0.map_values(|e: EnemyV| e.pos).take(j as int),
                positions@.len() == j,
                forall|m: int| 0 <= m < positions@.len()
                    ==> 0 <= (#[trigger] positions@[m])@.x <= ENEMY_POS_LIMIT
                        && 0 <= positions@[m]@.y <= ENEMY_POS_LIMIT,
            decreases self.enemies@.len() - j,
        {
            positions.push(self.enemies[j].pos);
            proof {
                assert(positions@.map_values(|p: Vec2Fx| p@)
                    =~= ev0.map_values(|e: EnemyV| e.pos).take(j + 1));
            }
            j = j + 1;
        }
        let ghost posv = ev0.map_values(|e: EnemyV| e.pos);
        proof {
            assert(posv.take(posv.len() as int) =~= posv);
        }
        let ghost st0 = EnemyPhaseV {
            kept: Seq::empty(),
            projectiles: old(self).projectiles@.map_values(|q: Projectile| q@),
            player: old(self).player@,
            game_over: old(self).game_over,
            rng: old(rng)@,
        };
        let mut work: Vec<Enemy> = Vec::new();
        core::mem::swap(&mut work, &mut self.enemies);
        proof {
            assert(self.enemies@.map_values(|e: Enemy| e@) =~= Seq::<EnemyV>::empty());
        }
        let total = work.len();
        let mut i: usize = 0;
        while i < total
            invariant
                i <= total,
                total == ev0.len(),
                work@.map_values(|e: Enemy| e@) == ev0,
                forall|m: int| 0 <= m < work@.len()
                    ==> spec_enemy_wf((#[trigger] work@[m])@),
                positions@.map_values(|p: Vec2Fx| p@) == posv,
                forall|m: int| 0 <= m < positions@.len()
                    ==> 0 <= (#[trigger] positions@[m])@.x <= ENEMY_POS_LIMIT
                        && 0 <= positions@[m]@.y <= ENEMY_POS_LIMIT,
                ({
                    let cur = EnemyPhaseV {
                        kept: self.enemies@.map_values(|e: Enemy| e@),
                        projectiles: self.projectiles@.map_values(|q: Projectile| q@),
                        player: self.player@,
                        game_over: self.game_over,
                        rng: rng@,
                    };
                    spec_enemy_phase(ev0, 0, old(self).player@.pos, posv, st0)
                        == spec_enemy_phase(ev0, i as int, old(self).player@.pos, posv, cur)
                }),
                spec_player_wf(self.player@),
                self.player@.pos == old(self).player@.pos,
                !self.game_over ==> self.player@.internal_stats.lives > 0,
                self.game_over ==> self.player@.invuln_frames > 0,
                self.player@.roll_frames == 0 && self.player@.invuln_frames == 0
                    ==> spec_can_absorb(self.player@),
                forall|m: int| 0 <= m < self.enemies@.len()
                    ==> spec_enemy_wf((#[trigger] self.enemies@[m])@),
                forall|m: int| 0 <= m < self.projectiles@.len()
                    ==> spec_proj_wf((#[trigger] self.projectiles@[m])@),
                self.state == old(self).state,
                self.dropped_items == old(self).dropped_items,
                self.enemy_id == old(self).enemy_id,
                self.dungeon_manager == old(self).dungeon_manager,
                self.all_items == old(self).all_items,
                self.layouts == old(self).layouts,
            decreases total - i,
        {
            let ghost cur = EnemyPhaseV {
                kept: self.enemies@.map_values(|e: Enemy| e@),
                projectiles: self.projectiles@.map_values(|q: Projectile| q@),
                player: self.player@,
                game_over: self.game_over,
                rng: rng@,
            };
            let mut e = work[i].duplicate_enemy();
            proof {
                assert(e@ == ev0[i as int]);
            }
            let can = self.player.can_take_damage();
            let (mut fired, contact, alive) = e.tick(self.player.pos, &positions, can, rng);
            if contact {
                let over = self.player.damage();
                if over {
                    self.game_over = true;
                }
            }
            self.projectiles.append(&mut fired);
            if alive {
                self.enemies.push(e);
            }
            proof {
                let t = spec_enemy_tick(ev0[i as int], old(self).player@.pos, posv, can,
                    cur.rng);
                let next = EnemyPhaseV {
                    kept: self.enemies@.map_values(|e2: Enemy| e2@),
                    projectiles: self.projectiles@.map_values(|q: Projectile| q@),
                    player: self.player@,
                    game_over: self.game_over,
                    rng: rng@,
                };
                assert(next.kept =~= cur.kept + (if t.alive { seq![t.enemy] }
                    else { Seq::<EnemyV>::empty() }));
                assert(next.projectiles =~= cur.projectiles + t.fired);
                assert(spec_enemy_phase(ev0, i as int, old(self).player@.pos, posv, cur)
                    == spec_enemy_phase(ev0, i + 1, old(self).player@.pos, posv, next));
            }
            i = i + 1;
        }
    }

    /// The end-of-tick state check: once the room is cleared while the
    /// round is active, enemy projectiles vanish and the round enters
    /// its Post phase with a fresh three-item reward roll.
    #[verifier::loop_isolation(false)]
    #[verifier::rlimit(60)]
    pub fn check_room_cleared(&mut self, rng: &mut GameRng)
        requires
            spec_round_state_wf(old(self).state@),
            old(self).all_items@.len() >= 1,
            forall|i: int| 0 <= i < old(self).all_items@.len()
                ==> spec_item_wf((#[trigger] old(self).all_items@[i])@),
            forall|i: int| 0 <= i < old(self).projectiles@.len()
                ==> spec_proj_wf((#[trigger] old(self).projectiles@[i])@),
        ensures
            ({
                let c = spec_check_cleared(old(self).state@,
                    old(self).enemies@.map_values(|e: Enemy| e@),
                    old(self).projectiles@.map_values(|q: Projectile| q@),
                    old(self).all_items@.map_values(|i: Item| i@), old(rng)@);
                &&& final(self).state@ == c.0
                &&& final(self).projectiles@.map_values(|q: Projectile| q@) == c.1
                &&& final(rng)@ == c.2
            }),
            spec_round_state_wf(final(self).state@),
            forall|i: int| 0 <= i < final(self).projectiles@.len()
                ==> spec_proj_wf((#[trigger] final(self).projectiles@[i])@),
            final(self).player == old(self).player,
            final(self).enemies == old(self).enemies,
            final(self).dropped_items == old(self).dropped_items,
            final(self).enemy_id == old(self).enemy_id,
            final(self).dungeon_manager == old(self).dungeon_manager,
            final(self).all_items == old(self).all_items,
            final(self).layouts == old(self).layouts,
            final(self).game_over == old(self).game_over,
    {
        let is_active = match &self.state {
            RoundState::Active => true,
            _ => false,
        };
        if is_active && self.enemies.len() == 0 {
            let ghost projs0 = old(self).projectiles@.map_values(|q: Projectile| q@);
            let mut kept: Vec<Projectile> = Vec::new();
            let mut work: Vec<Projectile> = Vec::new();
            core::mem::swap(&mut work, &mut self.projectiles);
            let total = work.len();
            let mut i: usize = 0;
            proof {
                assert(kept@.map_values(|q: Projectile| q@)
                    =~= projs0.take(0).filter(|q: ProjectileV| q.player_owned));
            }
            while i < total
                invariant
                    i <= total,
                    total == projs0.len(),
                    work@.map_values(|q: Projectile| q@) == projs0,
                    forall|j: int| 0 <= j < work@.len()
                        ==> spec_proj_wf((#[trigger] work@[j])@),
                    kept@.map_values(|q: Projectile| q@)
                        == projs0.take(i as int).filter(|q: ProjectileV| q.player_owned),
                    forall|j: int| 0 <= j < kept@.len()
                        ==> spec_proj_wf((#[trigger] kept@[j])@),
                decreases total - i,
            {
                let ghost prev = kept@.map_values(|q: Projectile| q@);
                if work[i].player_owned {
                    let p = work[i].duplicate();
                    kept.push(p);
                }
                proof {
                    reveal(Seq::filter);
                    assert(projs0.take(i + 1).drop_last() =~= projs0.take(i as int));
                    assert(projs0.take(i + 1).last() == projs0[i as int]);
                    assert(kept@.map_values(|q: Projectile| q@)
                        =~= projs0.take(i + 1).filter(|q: ProjectileV| q.player_owned));
                }
                i = i + 1;
            }
            self.projectiles = kept;
            proof {
                assert(projs0.take(projs0.len() as int) =~= projs0);
            }
            let r1 = select_random(&self.all_items, rng).duplicate();
            let r2 = select_random(&self.all_items, rng).duplicate();
            let r3 = select_random(&self.all_items, rng).duplicate();
            let mut rewards: Vec<Item> = Vec::new();
            rewards.push(r1);
            rewards.push(r2);
            rewards.push(r3);
            self.state = RoundState::Post(0, Option::Some(rewards));
            proof {
                let itemsv = old(self).all_items@.map_values(|i2: Item| i2@);
                let s1 = spec_select(itemsv, old(rng)@);
                let s2 = spec_select(itemsv, s1.1);
                let s3 = spec_select(itemsv, s2.1);
                assert(self.state@->Post_1->Some_0 =~= seq![s1.0, s2.0, s3.0]);
                assert(spec_item_wf(s1.0) && spec_item_wf(s2.0) && spec_item_wf(s3.0));
            }
        } else {
            proof {
                assert(self.projectiles@.map_values(|q: Projectile| q@)
                    =~= old(self).projectiles@.map_values(|q: Projectile| q@));
            }
        }
    }
}

/// What the cleared-room check does: in the Active state with no enemy
/// left, only player-owned projectiles survive and the round enters
/// Post with three uniformly drawn reward items; otherwise nothing
/// changes.
pub open spec fn spec_check_cleared(
    state: RoundStateV,
    enemies: Seq<EnemyV>,
    projectiles: Seq<ProjectileV>,
    items: Seq<ItemV>,
    rng: u64,
) -> (RoundStateV, Seq<ProjectileV>, u64) {
    if state is Active && enemies.len() == 0 {
        let s1 = spec_select(items, rng);
        let s2 = spec_select(items, s1.1);
        let s3 = spec_select(items, s2.1);
        (
            RoundStateV::Post(0, Option::Some(seq![s1.0, s2.0, s3.0])),
            projectiles.filter(|q: ProjectileV| q.player_owned),
            s3.1,
        )
    } else {
        (state, projectiles, rng)
    }
}

} // verus!

verus! {

use crate::projectiles::ParticleKind;
use crate::projectiles::DrawType;
use crate::projectiles::base_projectile_spec;
use crate::enemy::{EnemyType, spec_enemy_new, spec_enemy_type_wf};
use crate::dungeon::WorldV;

/// What the per-curse room extras accumulate.
#[verifier::ext_equal]
pub struct ExtrasV {
    pub projectiles: Seq<ProjectileV>,
    pub enemies: Seq<EnemyV>,
    pub rng: u64,
}

/// The acid puddle template.
pub open spec fn spec_acid_template() -> crate::projectiles::ProjectileTemplate {
    crate::projectiles::ProjectileTemplate {
        draw_type: DrawType::Particle(ParticleKind::AcidPuddle),
        lifetime: u16::MAX,
        radius: 12_000,
        ..base_projectile_spec()
    }
}

/// One random in-room point for an extra spawn: below the door area,
/// two draws.
pub open spec fn spec_extra_point(rng: u64) -> (Vec2V, u64) {
    let r1 = spec_rng_next(rng);
    let x = ROOM_MIN_X + r1 as int % (ROOM_MAX_X - ROOM_MIN_X);
    let r2 = spec_rng_next(r1);
    let y = ROOM_MIN_Y + 48_000 + r2 as int % (ROOM_MAX_Y - ROOM_MIN_Y - 48_000);
    (Vec2V { x: x, y: y }, r2)
}

/// One bonus enemy drawn from a tier table at a random point.
pub open spec fn spec_bonus_enemy(table: Seq<crate::enemy::EnemyTypeV>, rng: u64)
    -> (EnemyV, u64) {
    let s = spec_select(table, rng);
    let pt = spec_extra_point(s.1);
    spec_enemy_new(s.0, pt.0, 0, pt.1)
}

/// The extras the accumulated curses add to a fresh room, one curse at
/// a time in list order: each `AcidPuddles` curse drops two puddles at
/// random points, and each `BonusEnemies` curse spawns (on a coin flip)
/// either two "other"-tier enemies (when the biome has any) or one
/// miniboss, at random points.
pub open spec fn spec_extras(curses: Seq<ChaosCurse>, w: WorldV, i: int, st: ExtrasV) -> ExtrasV
    decreases curses.len() - i,
{
    if i < 0 || i >= curses.len() {
        st
    } else {
        let st2 = match curses[i] {
            ChaosCurse::AcidPuddles => {
                let pt1 = spec_extra_point(st.rng);
                let p1 = ProjectileV { pos: pt1.0, ..spec_spawn(spec_acid_template()) };
                let pt2 = spec_extra_point(pt1.1);
                let p2 = ProjectileV { pos: pt2.0, ..spec_spawn(spec_acid_template()) };
                ExtrasV { projectiles: st.projectiles + seq![p1, p2], rng: pt2.1, ..st }
            }
            ChaosCurse::BonusEnemies => {
                let rc = spec_rng_next(st.rng);
                if rc as int % 100 < 50 {
                    if w.other.len() > 0 {
                        let e1 = spec_bonus_enemy(w.other, rc);
                        let e2 = spec_bonus_enemy(w.other, e1.1);
                        ExtrasV { enemies: st.enemies + seq![e1.0, e2.0], rng: e2.1, ..st }
                    } else {
                        ExtrasV { rng: rc, ..st }
                    }
                } else {
                    let e1 = spec_bonus_enemy(w.miniboss, rc);
                    ExtrasV { enemies: st.enemies.push(e1.0), rng: e1.1, ..st }
                }
            }
            _ => st,
        };
        spec_extras(curses, w, i + 1, st2)
    }
}

/// A random in-room point for an extra spawn (see `spec_extra_point`).
fn extra_point(rng: &mut GameRng) -> (r: Vec2Fx)
    ensures
        r@ == spec_extra_point(old(rng)@).0,
        final(rng)@ == spec_extra_point(old(rng)@).1,
        ROOM_MIN_X <= r.x < ROOM_MAX_X,
        ROOM_MIN_Y + 48_000 <= r.y < ROOM_MAX_Y,
{
    let x = rng.gen_range(ROOM_MIN_X, ROOM_MAX_X);
    let y = rng.gen_range(ROOM_MIN_Y + 48_000, ROOM_MAX_Y);
    Vec2Fx { x, y }
}

impl Game {
    /// Drops one acid puddle at a random point.
    fn spawn_one_puddle(&mut self, rng: &mut GameRng)
        ensures
            ({
                let pt = spec_extra_point(old(rng)@);
                &&& final(self).projectiles@.map_values(|q: Projectile| q@)
                    == old(self).projectiles@.map_values(|q: Projectile| q@)
                        .push(ProjectileV { pos: pt.0, ..spec_spawn(spec_acid_template()) })
                &&& final(rng)@ == pt.1
            }),
            forall|j: int| 0 <= j < final(self).projectiles@.len()
                ==> spec_proj_wf((#[trigger] final(self).projectiles@[j])@)
                    || !(forall|m: int| 0 <= m < old(self).projectiles@.len()
                        ==> spec_proj_wf((#[trigger] old(self).projectiles@[m])@)),
            final(self).player == old(self).player,
            final(self).state == old(self).state,
            final(self).enemies == old(self).enemies,
            final(self).dropped_items == old(self).dropped_items,
            final(self).enemy_id == old(self).enemy_id,
            final(self).dungeon_manager == old(self).dungeon_manager,
            final(self).all_items == old(self).all_items,
            final(self).layouts == old(self).layouts,
            final(self).game_over == old(self).game_over,
    {
        let pt = extra_point(rng);
        let template = crate::projectiles::acid_puddle();
        let mut p = Projectile::from_template(&template);
        p.pos = pt;
        proof {
            assert(p@ =~= (ProjectileV { pos: spec_extra_point(old(rng)@).0,
                ..spec_spawn(spec_acid_template()) }));
            assert(spec_proj_wf(p@));
        }
        self.projectiles.push(p);
        proof {
            assert(final(self).projectiles@.map_values(|q: Projectile| q@)
                =~= old(self).projectiles@.map_values(|q: Projectile| q@).push(
                    ProjectileV { pos: spec_extra_point(old(rng)@).0,
                        ..spec_spawn(spec_acid_template()) }));
        }
    }

    /// Spawns one bonus enemy from a tier table into the buffer.
    fn spawn_one_bonus(
        &self,
        table: &Vec<EnemyType>,
        extras: &mut Vec<Enemy>,
        rng: &mut GameRng,
    )
        requires
            table@.len() > 0,
            forall|j: int| 0 <= j < table@.len()
                ==> spec_enemy_type_wf((#[trigger] table@[j])@),
        ensures
            ({
                let e = spec_bonus_enemy(table@.map_values(|t: EnemyType| t@), old(rng)@);
                &&& final(extras)@.map_values(|x: Enemy| x@)
                    == old(extras)@.map_values(|x: Enemy| x@).push(e.0)
                &&& final(rng)@ == e.1
            }),
            forall|j: int| 0 <= j < final(extras)@.len()
                ==> spec_enemy_wf((#[trigger] final(extras)@[j])@)
                    && final(extras)@[j]@.pos.y <= ENEMY_POS_LIMIT - 32_000
                    || !(forall|m: int| 0 <= m < old(extras)@.len()
                        ==> spec_enemy_wf((#[trigger] old(extras)@[m])@)
                            && old(extras)@[m]@.pos.y <= ENEMY_POS_LIMIT - 32_000),
    {
        let ty = select_random(table, rng);
        proof {
            assert(ty@ == spec_select(table@.map_values(|t: EnemyType| t@), old(rng)@).0);
        }
        let pt = extra_point(rng);
        let e = Enemy::new(ty, pt, 0, rng);
        extras.push(e);
        proof {
            let be = spec_bonus_enemy(table@.map_values(|t: EnemyType| t@), old(rng)@);
            assert(extras@.map_values(|x: Enemy| x@)
                =~= old(extras)@.map_values(|x: Enemy| x@).push(be.0));
        }
    }
}

} // verus!

verus! {

/// What entering the next room produces (see `Game::enter_next_room`).
#[verifier::ext_equal]
pub struct RoomEntryV {
    pub enemies: Seq<EnemyV>,
    pub projectiles: Seq<ProjectileV>,
    pub enemy_id: int,
    pub rng: u64,
}

/// Entering the next room: the player is set before the bottom wall,
/// everything transient is cleared, the room generator fills the enemy
/// list (ids keep growing, the spawn offset and curse shields apply),
/// each accumulated curse adds its extras, the room index advances, and
/// the pan into the room begins.
pub open spec fn spec_enter_room(
    w: WorldV,
    room_index: int,
    layouts: Seq<Seq<Seq<Option<EnemyTier>>>>,
    curses: Seq<ChaosCurse>,
    enemy_id: int,
    rng0: u64,
) -> RoomEntryV {
    let sr = spec_spawn_room(w, room_index, layouts, rng0);
    let shield = spec_shield_of_count(spec_count_curse(curses, ChaosCurse::EnemyShields));
    let base = Seq::new(sr.0.len(), |i: int| spec_absorbed_enemy(sr.0[i], enemy_id + i, shield));
    let ex = spec_extras(curses, w, 0, ExtrasV {
        projectiles: Seq::empty(),
        enemies: Seq::empty(),
        rng: sr.1,
    });
    let extra = Seq::new(ex.enemies.len(), |i: int| spec_absorbed_enemy(ex.enemies[i],
        enemy_id + sr.0.len() + i, shield));
    RoomEntryV {
        enemies: base + extra,
        projectiles: ex.projectiles,
        enemy_id: enemy_id + sr.0.len() + ex.enemies.len(),
        rng: ex.rng,
    }
}

impl Game {
    /// Clears the transient state and generates the next room (see
    /// `spec_enter_room`).
    #[verifier::loop_isolation(false)]
    #[verifier::rlimit(100)]
    pub fn enter_next_room(&mut self, rng: &mut GameRng)
        requires
            spec_player_wf(old(self).player@),
            spec_world_wf(old(self).dungeon_manager.world@),
            spec_layouts_wf(spec_layouts_view(old(self).layouts@)),
            old(self).enemy_id + 150 + 2 * old(self).player@.curses.len() <= usize::MAX,
            old(self).dungeon_manager.room_index < usize::MAX,
        ensures
            ({
                let e = spec_enter_room(old(self).dungeon_manager.world@,
                    old(self).dungeon_manager.room_index as int,
                    spec_layouts_view(old(self).layouts@), old(self).player@.curses,
                    old(self).enemy_id as int, old(rng)@);
                &&& final(self).enemies@.map_values(|x: Enemy| x@) == e.enemies
                &&& final(self).projectiles@.map_values(|q: Projectile| q@) == e.projectiles
                &&& final(self).enemy_id == e.enemy_id
                &&& final(rng)@ == e.rng
            }),
            final(self).player@ == (PlayerV {
                pos: Vec2V { x: 128_000, y: 208_000 },
                ..old(self).player@
            }),
            final(self).dropped_items@.len() == 0,
            final(self).state@ == RoundStateV::Pre(0),
            final(self).dungeon_manager.room_index
                == old(self).dungeon_manager.room_index + 1,
            final(self).dungeon_manager.world == old(self).dungeon_manager.world,
            spec_player_wf(final(self).player@),
            forall|i: int| 0 <= i < final(self).enemies@.len()
                ==> spec_enemy_wf((#[trigger] final(self).enemies@[i])@),
            forall|i: int| 0 <= i < final(self).projectiles@.len()
                ==> spec_proj_wf((#[trigger] final(self).projectiles@[i])@),
            final(self).all_items == old(self).all_items,
            final(self).layouts == old(self).layouts,
            final(self).game_over == old(self).game_over,
    {
        let ghost w = self.dungeon_manager.world@;
        let ghost cursesv = old(self).player@.curses;
        self.player.pos = Vec2Fx { x: 128_000, y: 208_000 };
        self.dropped_items = Vec::new();
        self.enemies = Vec::new();
        self.projectiles = Vec::new();
        proof {
            assert(self.enemies@.map_values(|x: Enemy| x@) =~= Seq::<EnemyV>::empty());
            assert(self.projectiles@.map_values(|q: Projectile| q@)
                =~= Seq::<ProjectileV>::empty());
        }
        let mut buffer = self.dungeon_manager.spawn_room(&self.layouts, rng);
        proof {
            crate::dungeon::lemma_spawn_room_len(w,
                old(self).dungeon_manager.room_index as int,
                spec_layouts_view(old(self).layouts@), old(rng)@);
            assert forall|i: int| 0 <= i < buffer@.len()
                implies spec_enemy_wf((#[trigger] buffer@[i])@)
                    && buffer@[i]@.pos.y <= ENEMY_POS_LIMIT - 32_000 by {
                assert(spec_enemy_wf(buffer@[i]@));
            }
        }
        self.spawn_enemies(&mut buffer);
        let ghost id_mid = self.enemy_id as int;
        let ghost player_mid = self.player@;
        let ghost enemies_mid = self.enemies@;
        let ghost ex0 = ExtrasV {
            projectiles: Seq::empty(),
            enemies: Seq::empty(),
            rng: rng@,
        };
        let mut extras: Vec<Enemy> = Vec::new();
        proof {
            assert(extras@.map_values(|x: Enemy| x@) =~= Seq::<EnemyV>::empty());
        }
        let total = self.player.curses.len();
        let mut i: usize = 0;
        while i < total
            invariant
                i <= total,
                total == cursesv.len(),
                self.player@ == player_mid,
                self.player@.curses == cursesv,
                self.enemies@ == enemies_mid,
                self.enemy_id == id_mid,
                self.dropped_items@.len() == 0,
                self.dungeon_manager == old(self).dungeon_manager,
                self.all_items == old(self).all_items,
                self.layouts == old(self).layouts,
                self.game_over == old(self).game_over,
                extras@.len() <= 2 * i,
                ({
                    let cur = ExtrasV {
                        projectiles: self.projectiles@.map_values(|q: Projectile| q@),
                        enemies: extras@.map_values(|x: Enemy| x@),
                        rng: rng@,
                    };
                    spec_extras(cursesv, w, 0, ex0) == spec_extras(cursesv, w, i as int, cur)
                }),
                forall|j: int| 0 <= j < self.projectiles@.len()
                    ==> spec_proj_wf((#[trigger] self.projectiles@[j])@),
                forall|j: int| 0 <= j < extras@.len()
                    ==> spec_enemy_wf((#[trigger] extras@[j])@)
                        && extras@[j]@.pos.y <= ENEMY_POS_LIMIT - 32_000,
                forall|j: int| 0 <= j < self.enemies@.len()
                    ==> spec_enemy_wf((#[trigger] self.enemies@[j])@),
            decreases total - i,
        {
            let ghost cur = ExtrasV {
                projectiles: self.projectiles@.map_values(|q: Projectile| q@),
                enemies: extras@.map_values(|x: Enemy| x@),
                rng: rng@,
            };
            let curse = self.player.curses[i];
            proof {
                assert(curse == cursesv[i as int]);
            }
            match curse {
                ChaosCurse::AcidPuddles => {
                    self.spawn_one_puddle(rng);
                    self.spawn_one_puddle(rng);
                    proof {
                        let pt1 = spec_extra_point(cur.rng);
                        let p1 = ProjectileV { pos: pt1.0, ..spec_spawn(spec_acid_template()) };
                        let pt2 = spec_extra_point(pt1.1);
                        let p2 = ProjectileV { pos: pt2.0, ..spec_spawn(spec_acid_template()) };
                        let next = ExtrasV {
                            projectiles: self.projectiles@.map_values(|q: Projectile| q@),
                            enemies: extras@.map_values(|x: Enemy| x@),
                            rng: rng@,
                        };
                        assert(next.projectiles =~= cur.projectiles + seq![p1, p2]);
                        assert(next =~= (ExtrasV {
                            projectiles: cur.projectiles + seq![p1, p2],
                            rng: pt2.1,
                            ..cur
                        }));
                        assert(spec_extras(cursesv, w, i as int, cur)
                            == spec_extras(cursesv, w, i + 1, next));
                    }
                }
                ChaosCurse::BonusEnemies => {
                    let c = rng.gen_range(0, 100);
                    let ghost rc = spec_rng_next(cur.rng);
                    if c < 50 {
                        if self.dungeon_manager.world.other.len() > 0 {
                            self.spawn_one_bonus_other(&mut extras, rng);
                            self.spawn_one_bonus_other(&mut extras, rng);
                            proof {
                                let e1 = spec_bonus_enemy(w.other, rc);
                                let e2 = spec_bonus_enemy(w.other, e1.1);
                                let next = ExtrasV {
                                    projectiles: self.projectiles@.map_values(
                                        |q: Projectile| q@),
                                    enemies: extras@.map_values(|x: Enemy| x@),
                                    rng: rng@,
                                };
                                assert(next.enemies =~= cur.enemies + seq![e1.0, e2.0]);
                                assert(next =~= (ExtrasV {
                                    enemies: cur.enemies + seq![e1.0, e2.0],
                                    rng: e2.1,
                                    ..cur
                                }));
                                assert(spec_extras(cursesv, w, i as int, cur)
                                    == spec_extras(cursesv, w, i + 1, next));
                            }
                        } else {
                            proof {
                                let next = ExtrasV { rng: rc, ..cur };
                                assert((ExtrasV {
                                    projectiles: self.projectiles@.map_values(
                                        |q: Projectile| q@),
                                    enemies: extras@.map_values(|x: Enemy| x@),
                                    rng: rng@,
                                }) =~= next);
                                assert(spec_extras(cursesv, w, i as int, cur)
                                    == spec_extras(cursesv, w, i + 1, next));
                            }
                        }
                    } else {
                        self.spawn_one_bonus_miniboss(&mut extras, rng);
                        proof {
                            let e1 = spec_bonus_enemy(w.miniboss, rc);
                            let next = ExtrasV {
                                projectiles: self.projectiles@.map_values(|q: Projectile| q@),
                                enemies: extras@.map_values(|x: Enemy| x@),
                                rng: rng@,
                            };
                            assert(next.enemies =~= cur.enemies.push(e1.0));
                            assert(next =~= (ExtrasV {
                                enemies: cur.enemies.push(e1.0),
                                rng: e1.1,
                                ..cur
                            }));
                            assert(spec_extras(cursesv, w, i as int, cur)
                                == spec_extras(cursesv, w, i + 1, next));
                        }
                    }
                }
                _ => {
                    proof {
                        assert((ExtrasV {
                            projectiles: self.projectiles@.map_values(|q: Projectile| q@),
                            enemies: extras@.map_values(|x: Enemy| x@),
                            rng: rng@,
                        }) =~= cur);
                        assert(spec_extras(cursesv, w, i as int, cur)
                            == spec_extras(cursesv, w, i + 1, cur));
                    }
                }
            }
            i = i + 1;
        }
        self.spawn_enemies(&mut extras);
        self.dungeon_manager.room_index = self.dungeon_manager.room_index + 1;
        self.state = RoundState::Pre(0);
        proof {
            let e = spec_enter_room(w, old(self).dungeon_manager.room_index as int,
                spec_layouts_view(old(self).layouts@), cursesv, old(self).enemy_id as int,
                old(rng)@);
            assert(self.enemies@.map_values(|x: Enemy| x@) =~= e.enemies);
            assert(self.player@ =~= (PlayerV {
                pos: Vec2V { x: 128_000, y: 208_000 },
                ..old(self).player@
            }));
        }
    }

    /// Spawns one "other"-tier bonus enemy into the buffer.
    fn spawn_one_bonus_other(&self, extras: &mut Vec<Enemy>, rng: &mut GameRng)
        requires
            self.dungeon_manager.world.other@.len() > 0,
            spec_world_wf(self.dungeon_manager.world@),
            forall|j: int| 0 <= j < old(extras)@.len()
                ==> spec_enemy_wf((#[trigger] old(extras)@[j])@)
                    && old(extras)@[j]@.pos.y <= ENEMY_POS_LIMIT - 32_000,
        ensures
            ({
                let e = spec_bonus_enemy(self.dungeon_manager.world@.other, old(rng)@);
                &&& final(extras)@.map_values(|x: Enemy| x@)
                    == old(extras)@.map_values(|x: Enemy| x@).push(e.0)
                &&& final(rng)@ == e.1
            }),
            final(extras)@.len() == old(extras)@.len() + 1,
            forall|j: int| 0 <= j < final(extras)@.len()
                ==> spec_enemy_wf((#[trigger] final(extras)@[j])@)
                    && final(extras)@[j]@.pos.y <= ENEMY_POS_LIMIT - 32_000,
    {
        let ty = select_random(&self.dungeon_manager.world.other, rng);
        proof {
            assert(ty@ == spec_select(self.dungeon_manager.world@.other, old(rng)@).0);
        }
        let pt = extra_point(rng);
        let e = Enemy::new(ty, pt, 0, rng);
        extras.push(e);
        proof {
            let be = spec_bonus_enemy(self.dungeon_manager.world@.other, old(rng)@);
            assert(extras@.map_values(|x: Enemy| x@)
                =~= old(extras)@.map_values(|x: Enemy| x@).push(be.0));
        }
    }

    /// Spawns one miniboss bonus enemy into the buffer.
    fn spawn_one_bonus_miniboss(&self, extras: &mut Vec<Enemy>, rng: &mut GameRng)
        requires
            spec_world_wf(self.dungeon_manager.world@),
            forall|j: int| 0 <= j < old(extras)@.len()
                ==> spec_enemy_wf((#[trigger] old(extras)@[j])@)
                    && old(extras)@[j]@.pos.y <= ENEMY_POS_LIMIT - 32_000,
        ensures
            ({
                let e = spec_bonus_enemy(self.dungeon_manager.world@.miniboss, old(rng)@);
                &&& final(extras)@.map_values(|x: Enemy| x@)
                    == old(extras)@.map_values(|x: Enemy| x@).push(e.0)
                &&& final(rng)@ == e.1
            }),
            final(extras)@.len() == old(extras)@.len() + 1,
            forall|j: int| 0 <= j < final(extras)@.len()
                ==> spec_enemy_wf((#[trigger] final(extras)@[j])@)
                    && final(extras)@[j]@.pos.y <= ENEMY_POS_LIMIT - 32_000,
    {
        let ty = select_random(&self.dungeon_manager.world.miniboss, rng);
        proof {
            assert(ty@ == spec_select(self.dungeon_manager.world@.miniboss, old(rng)@).0);
        }
        let pt = extra_point(rng);
        let e = Enemy::new(ty, pt, 0, rng);
        extras.push(e);
        proof {
            let be = spec_bonus_enemy(self.dungeon_manager.world@.miniboss, old(rng)@);
            assert(extras@.map_values(|x: Enemy| x@)
                =~= old(extras)@.map_values(|x: Enemy| x@).push(be.0));
        }
    }
}

} // verus!
verus! {

impl Game {
    /// One simulated tick (the fixed order of §combat): the player
    /// moves; standing in the open door of a cleared room and pressing
    /// the advance key enters the next room; the counters tick and a
    /// roll may start; the attack may launch a projectile; every
    /// projectile flies and strikes against the enemies' pre-movement
    /// positions; every enemy acts; and a cleared room enters its Post
    /// phase. The ensures chains the stage models in exactly that order.
    #[verifier::loop_isolation(false)]
    #[verifier::rlimit(100)]
    pub fn update(
        &mut self,
        intent: Vec2Fx,
        mouse: Vec2Fx,
        attack_down: bool,
        roll_down: bool,
        advance_down: bool,
        rng: &mut GameRng,
    )
        requires
            spec_game_wf(old(self)),
            !old(self).game_over,
            -FX_ONE <= intent@.x <= FX_ONE,
            -FX_ONE <= intent@.y <= FX_ONE,
            -ENEMY_POS_LIMIT <= mouse@.x <= ENEMY_POS_LIMIT,
            -ENEMY_POS_LIMIT <= mouse@.y <= ENEMY_POS_LIMIT,
            old(self).enemy_id + 150 + 2 * old(self).player@.curses.len() <= usize::MAX,
            old(self).dungeon_manager.room_index < usize::MAX,
        ensures
            ({
                let m = spec_move_phase(old(self).player@, intent@);
                let door = spec_door_taken(old(self).state@, m.player, advance_down);
                let er = spec_enter_room(old(self).dungeon_manager.world@,
                    old(self).dungeon_manager.room_index as int,
                    spec_layouts_view(old(self).layouts@), m.player.curses,
                    old(self).enemy_id as int, old(rng)@);
                let p1 = if door {
                    PlayerV { pos: Vec2V { x: 128_000, y: 208_000 }, ..m.player }
                } else {
                    m.player
                };
                let enemies1 = if door {
                    er.enemies
                } else {
                    old(self).enemies@.map_values(|e: Enemy| e@)
                };
                let projs1 = if door {
                    er.projectiles
                } else {
                    old(self).projectiles@.map_values(|q: Projectile| q@)
                };
                let state1 = if door {
                    RoundStateV::Pre(0)
                } else {
                    old(self).state@
                };
                let rng1 = if door {
                    er.rng
                } else {
                    old(rng)@
                };
                let p2 = spec_counters_phase(p1, m.move_vector, m.speed, roll_down);
                let a = spec_attack_phase(p2, attack_down, mouse@, m.move_vector);
                let pp = spec_proj_phase(projs1 + a.1, 0,
                    spec_player_stats(a.0).damage_modifiers, ProjPhaseV {
                        kept: Seq::empty(),
                        spawned: Seq::empty(),
                        enemies: enemies1,
                        player: a.0,
                        game_over: false,
                    });
                let ep = spec_enemy_phase(pp.enemies, 0, pp.player.pos,
                    pp.enemies.map_values(|e: EnemyV| e.pos), EnemyPhaseV {
                        kept: Seq::empty(),
                        projectiles: pp.kept + pp.spawned,
                        player: pp.player,
                        game_over: pp.game_over,
                        rng: rng1,
                    });
                let cc = spec_check_cleared(state1, ep.kept, ep.projectiles,
                    old(self).all_items@.map_values(|i: Item| i@), ep.rng);
                &&& final(self).player@ == ep.player
                &&& final(self).enemies@.map_values(|e: Enemy| e@) == ep.kept
                &&& final(self).projectiles@.map_values(|q: Projectile| q@) == cc.1
                &&& final(self).state@ == cc.0
                &&& final(self).game_over == ep.game_over
                &&& final(rng)@ == cc.2
                &&& final(self).dungeon_manager.room_index as int
                    == old(self).dungeon_manager.room_index + (if door { 1int } else { 0int })
                &&& final(self).enemy_id as int == (if door {
                    er.enemy_id
                } else {
                    old(self).enemy_id as int
                })
                &&& (door ==> final(self).dropped_items@.len() == 0)
                &&& (!door ==> final(self).dropped_items == old(self).dropped_items)
            }),
            spec_game_wf(final(self)),
            final(self).all_items == old(self).all_items,
            final(self).layouts == old(self).layouts,
            final(self).dungeon_manager.world == old(self).dungeon_manager.world,
    {
        let (mv, speed) = self.move_player(intent);
        let in_post = match &self.state {
            RoundState::Post(_, _) => true,
            _ => false,
        };
        let door = in_post && self.player.pos.y == ROOM_MIN_Y
            && 116_000 <= self.player.pos.x && self.player.pos.x < 140_000 && advance_down;
        if door {
            self.enter_next_room(rng);
        }
        self.tick_counters(mv, speed, roll_down);
        self.player_attack(attack_down, mouse, mv);
        self.run_projectile_phase();
        self.run_enemy_phase(rng);
        self.check_room_cleared(rng);
    }

    /// One frame of the round state machine: the Active and Post states
    /// run a full update (the Post frame counter also advances until
    /// its animation rests), while the Pre state only counts its pan
    /// frames and hands play back once the transition and grace time
    /// have elapsed, with no input needed. A finished run does nothing.
    #[verifier::loop_isolation(false)]
    #[verifier::rlimit(100)]
    pub fn advance_frame(
        &mut self,
        intent: Vec2Fx,
        mouse: Vec2Fx,
        attack_down: bool,
        roll_down: bool,
        advance_down: bool,
        rng: &mut GameRng,
    )
        requires
            spec_game_wf(old(self)),
            -FX_ONE <= intent@.x <= FX_ONE,
            -FX_ONE <= intent@.y <= FX_ONE,
            -ENEMY_POS_LIMIT <= mouse@.x <= ENEMY_POS_LIMIT,
            -ENEMY_POS_LIMIT <= mouse@.y <= ENEMY_POS_LIMIT,
            old(self).enemy_id + 150 + 2 * old(self).player@.curses.len() <= usize::MAX,
            old(self).dungeon_manager.room_index < usize::MAX,
        ensures
            spec_game_wf(final(self)),
            old(self).game_over ==> *final(self) == *old(self) && final(rng)@ == old(rng)@,
            !old(self).game_over ==> (old(self).state@ matches RoundStateV::Pre(f) ==> {
                &&& final(self).state@ == (if f + 1
                    > PREROUND_TRANSITION_TIME + PREROUND_GRACE_TIME {
                    RoundStateV::Active
                } else {
                    RoundStateV::Pre(spec_sat_u32(f + 1))
                })
                &&& final(self).player == old(self).player
                &&& final(self).enemies == old(self).enemies
                &&& final(self).projectiles == old(self).projectiles
                &&& final(rng)@ == old(rng)@
            }),
            (!old(self).game_over && old(self).state@ is Active
                ==> spec_update_matches(old(self), final(self), old(rng)@, final(rng)@,
                    intent@, mouse@, attack_down, roll_down, advance_down,
                    old(self).state@)),
            !old(self).game_over ==> (old(self).state@ matches RoundStateV::Post(f, items)
                ==> spec_update_matches(old(self), final(self), old(rng)@, final(rng)@,
                    intent@, mouse@, attack_down, roll_down, advance_down,
                    RoundStateV::Post(if f != 40 { spec_sat_u32(f + 1) } else { f },
                        items))),
    {
        if self.game_over {
            return;
        }
        let is_pre = match &self.state {
            RoundState::Pre(_) => true,
            _ => false,
        };
        if is_pre {
            let frame: u32 = match &self.state {
                RoundState::Pre(f) => *f,
                _ => 0,
            };
            let next = frame.saturating_add(1);
            if next > PREROUND_TRANSITION_TIME + PREROUND_GRACE_TIME {
                self.state = RoundState::Active;
            } else {
                self.state = RoundState::Pre(next);
            }
            return;
        }
        let mut advanced = false;
        match &mut self.state {
            RoundState::Post(frame, _) => {
                if *frame != 40 {
                    *frame = frame.saturating_add(1);
                }
                advanced = true;
            }
            _ => {}
        }
        proof {
            assert(advanced ==> old(self).state@ is Post);
        }
        self.update(intent, mouse, attack_down, roll_down, advance_down, rng);
    }
}

/// A value clamped into the `u32` range from above.
pub open spec fn spec_sat_u32(v: int) -> int {
    if v > u32::MAX {
        u32::MAX as int
    } else {
        v
    }
}

/// Whether the step from `pre` to `post` is exactly one update run from
/// the round state `state1` (the state after any Post frame count).
pub open spec fn spec_update_matches(
    pre: &Game,
    post: &Game,
    rng0: u64,
    rng1: u64,
    intent: Vec2V,
    mouse: Vec2V,
    attack_down: bool,
    roll_down: bool,
    advance_down: bool,
    state0: RoundStateV,
) -> bool {
    let m = spec_move_phase(pre.player@, intent);
    let door = spec_door_taken(state0, m.player, advance_down);
    let er = spec_enter_room(pre.dungeon_manager.world@,
        pre.dungeon_manager.room_index as int, spec_layouts_view(pre.layouts@),
        m.player.curses, pre.enemy_id as int, rng0);
    let p1 = if door {
        PlayerV { pos: Vec2V { x: 128_000, y: 208_000 }, ..m.player }
    } else {
        m.player
    };
    let enemies1 = if door {
        er.enemies
    } else {
        pre.enemies@.map_values(|e: Enemy| e@)
    };
    let projs1 = if door {
        er.projectiles
    } else {
        pre.projectiles@.map_values(|q: Projectile| q@)
    };
    let state1 = if door {
        RoundStateV::Pre(0)
    } else {
        state0
    };
    let rng_mid = if door {
        er.rng
    } else {
        rng0
    };
    let p2 = spec_counters_phase(p1, m.move_vector, m.speed, roll_down);
    let a = spec_attack_phase(p2, attack_down, mouse, m.move_vector);
    let pp = spec_proj_phase(projs1 + a.1, 0, spec_player_stats(a.0).damage_modifiers,
        ProjPhaseV {
            kept: Seq::empty(),
            spawned: Seq::empty(),
            enemies: enemies1,
            player: a.0,
            game_over: false,
        });
    let ep = spec_enemy_phase(pp.enemies, 0, pp.player.pos,
        pp.enemies.map_values(|e: EnemyV| e.pos), EnemyPhaseV {
            kept: Seq::empty(),
            projectiles: pp.kept + pp.spawned,
            player: pp.player,
            game_over: pp.game_over,
            rng: rng_mid,
        });
    let cc = spec_check_cleared(state1, ep.kept, ep.projectiles,
        pre.all_items@.map_values(|i: Item| i@), ep.rng);
    &&& post.player@ == ep.player
    &&& post.enemies@.map_values(|e: Enemy| e@) == ep.kept
    &&& post.projectiles@.map_values(|q: Projectile| q@) == cc.1
    &&& post.state@ == cc.0
    &&& post.game_over == ep.game_over
    &&& rng1 == cc.2
}

} // verus!

verus! {

/// What taking the reward in `slot` does (see `Game::take_reward`):
/// the chosen item is granted, the other two vanish with the choice,
/// the pause animation jumps to its closing frames, and one uniformly
/// drawn curse is applied.
pub open spec fn spec_take_reward(
    p: PlayerV,
    dropped: Seq<(Vec2V, ItemV)>,
    items: Seq<ItemV>,
    rewards: Seq<ItemV>,
    slot: int,
    rng: u64,
) -> (CurseResultV, RoundStateV, ChaosCurse) {
    let granted = spec_give_item(p, rewards[slot]);
    let all = seq![
        ChaosCurse::EnemyShields,
        ChaosCurse::AcidPuddles,
        ChaosCurse::LessInventory,
        ChaosCurse::BonusEnemies,
        ChaosCurse::RefillHealth,
        ChaosCurse::HalvedHolyDmg,
        ChaosCurse::DoubledUnholyDmg,
        ChaosCurse::Gift,
        ChaosCurse::RepairArmor,
    ];
    let sel = spec_select(all, rng);
    let c = spec_give_curse(granted, dropped, items, sel.0, sel.1);
    (c, RoundStateV::Post(41, Option::None), sel.0)
}

impl Game {
    /// Consumes the displayed reward in `slot`: the item is granted (the
    /// caller must have checked `inv_slot_free`), the remaining choices
    /// vanish, the pause animation closes, and one random curse is
    /// rolled and applied (see `spec_take_reward`).
    #[verifier::loop_isolation(false)]
    #[verifier::rlimit(100)]
    pub fn take_reward(&mut self, slot: usize, rng: &mut GameRng)
        requires
            spec_game_wf(old(self)),
            slot < 3,
            (old(self).state@ matches RoundStateV::Post(_, items) && items matches Option::Some(
                rs,
            ) && spec_slot_free(old(self).player@, rs[slot as int].ty)),
            old(self).player@.internal_stats.damage_modifiers.unholy <= STAT_LIMIT - 1_000,
            old(self).player@.internal_stats.damage_modifiers.holy >= -STAT_LIMIT + 500,
        ensures
            ({
                let t = spec_take_reward(old(self).player@,
                    dropped_view(old(self).dropped_items@),
                    old(self).all_items@.map_values(|i: Item| i@),
                    old(self).state@->Post_1->Some_0, slot as int, old(rng)@);
                &&& final(self).player@ == t.0.player
                &&& dropped_view(final(self).dropped_items@) == t.0.dropped
                &&& final(rng)@ == t.0.rng
                &&& final(self).state@ == t.1
            }),
            spec_game_wf(final(self)),
            final(self).enemies == old(self).enemies,
            final(self).projectiles == old(self).projectiles,
            final(self).enemy_id == old(self).enemy_id,
            final(self).dungeon_manager == old(self).dungeon_manager,
            final(self).all_items == old(self).all_items,
            final(self).layouts == old(self).layouts,
            final(self).game_over == old(self).game_over,
    {
        let mut taken: Option<Vec<Item>> = Option::None;
        match &mut self.state {
            RoundState::Post(frame, items) => {
                core::mem::swap(&mut taken, items);
                *frame = 41;
            }
            _ => {}
        }
        let rewards = match taken {
            Option::Some(r) => r,
            Option::None => {
                proof {
                    assert(false);
                }
                unreached()
            }
        };
        let item = rewards[slot].duplicate();
        self.player.give_item(item);
        let all = ChaosCurse::all();
        let curse = *select_random(&all, rng);
        self.give_curse(curse, rng);
    }
}

} // verus!

//! The player: position, base stats, curses, inventory and equipment
//! slots, combat counters, the frame-by-frame stat aggregation, and the
//! damage-absorption order.

use vstd::prelude::*;

verus! {

use crate::fx::{FX_ONE, Vec2Fx, Vec2V, lemma_len_sq_small};
use crate::items::{Item, ItemV, ItemType, ItemTypeV, spec_item_wf, spec_item_stats,
    spec_same_kind};
use crate::stats::{Stats, StatsV, stats_wf, stats_bounded, stats_agg_wf, spec_merge,
    spec_apply_modifiers, spec_stats_default, lemma_wf_bounded, lemma_merge_bounded,
    lemma_apply_modifiers_bounded, lemma_merge_default, STAT_LIMIT, LIFE_LIMIT};
use crate::utils::{INV_SLOTS, ENEMY_POS_LIMIT, AGG_LIMIT, AGG_SCALAR_LIMIT, SCREEN_WIDTH,
    SCREEN_HEIGHT};

/// The chaos curses a reward can carry. Their count matters: stacking
/// effects read how many copies the player has accumulated.
#[derive(Clone, Copy, PartialEq, Eq, Structural, Debug)]
pub enum ChaosCurse {
    EnemyShields,
    AcidPuddles,
    LessInventory,
    BonusEnemies,
    RefillHealth,
    HalvedHolyDmg,
    DoubledUnholyDmg,
    Gift,
    RepairArmor,
}

impl ChaosCurse {
    /// Every curse, once each, in declaration order.
    pub fn all() -> (r: Vec<ChaosCurse>)
        ensures
            r@ == seq![
                ChaosCurse::EnemyShields,
                ChaosCurse::AcidPuddles,
                ChaosCurse::LessInventory,
                ChaosCurse::BonusEnemies,
                ChaosCurse::RefillHealth,
                ChaosCurse::HalvedHolyDmg,
                ChaosCurse::DoubledUnholyDmg,
                ChaosCurse::Gift,
                ChaosCurse::RepairArmor,
            ],
    {
        let mut v: Vec<ChaosCurse> = Vec::new();
        v.push(ChaosCurse::EnemyShields);
        v.push(ChaosCurse::AcidPuddles);
        v.push(ChaosCurse::LessInventory);
        v.push(ChaosCurse::BonusEnemies);
        v.push(ChaosCurse::RefillHealth);
        v.push(ChaosCurse::HalvedHolyDmg);
        v.push(ChaosCurse::DoubledUnholyDmg);
        v.push(ChaosCurse::Gift);
        v.push(ChaosCurse::RepairArmor);
        proof {
            assert(v@ =~= seq![
                ChaosCurse::EnemyShields,
                ChaosCurse::AcidPuddles,
                ChaosCurse::LessInventory,
                ChaosCurse::BonusEnemies,
                ChaosCurse::RefillHealth,
                ChaosCurse::HalvedHolyDmg,
                ChaosCurse::DoubledUnholyDmg,
                ChaosCurse::Gift,
                ChaosCurse::RepairArmor,
            ]);
        }
        v
    }
}

/// How many entries of `cs` are the curse `t`.
pub open spec fn spec_count_curse(cs: Seq<ChaosCurse>, t: ChaosCurse) -> int
    decreases cs.len(),
{
    if cs.len() == 0 {
        0
    } else {
        spec_count_curse(cs.drop_last(), t) + if cs.last() == t {
            1int
        } else {
            0int
        }
    }
}

pub proof fn lemma_count_curse_le_len(cs: Seq<ChaosCurse>, t: ChaosCurse)
    ensures
        0 <= spec_count_curse(cs, t) <= cs.len(),
    decreases cs.len(),
{
    if cs.len() > 0 {
        lemma_count_curse_le_len(cs.drop_last(), t);
    }
}

/// How many inventory slots the accumulated `LessInventory` curses
/// lock: two per curse, all nine at most.
pub open spec fn spec_locked_slots(cs: Seq<ChaosCurse>) -> int {
    let c = spec_count_curse(cs, ChaosCurse::LessInventory);
    if 2 * c > INV_SLOTS {
        INV_SLOTS as int
    } else {
        2 * c
    }
}

/// The view of an optional item.
pub open spec fn opt_item_view(o: Option<Item>) -> Option<ItemV> {
    match o {
        Option::Some(i) => Option::Some(i@),
        Option::None => Option::None,
    }
}

/// The mathematical value of the player.
#[verifier::ext_equal]
pub struct PlayerV {
    pub pos: Vec2V,
    pub internal_stats: StatsV,
    pub curses: Seq<ChaosCurse>,
    pub inventory: Seq<Option<ItemV>>,
    pub talismans: Seq<Option<ItemV>>,
    pub helmet: Option<ItemV>,
    pub chestplate: Option<ItemV>,
    pub hand: Option<ItemV>,
    pub moving: bool,
    pub anim_frame: int,
    pub attack_counter: int,
    pub invuln_frames: int,
    pub roll_counter: int,
    pub roll_frames: int,
    pub roll_direction: Vec2V,
}

/// The player. The base stats persist lives and curse effects between
/// frames; everything an item grants is aggregated fresh each frame by
/// `stats`.
pub struct Player {
    pub pos: Vec2Fx,
    pub internal_stats: Stats,
    pub curses: Vec<ChaosCurse>,
    pub inventory: Vec<Option<Item>>,
    pub talismans: Vec<Option<Item>>,
    pub helmet: Option<Item>,
    pub chestplate: Option<Item>,
    pub hand: Option<Item>,
    pub moving: bool,
    pub anim_frame: i64,
    pub attack_counter: i64,
    pub invuln_frames: u8,
    pub roll_counter: i64,
    /// The roll in progress: remaining frames (zero when not rolling)
    /// and its direction.
    pub roll: (u8, Vec2Fx),
}

impl View for Player {
    type V = PlayerV;

    open spec fn view(&self) -> PlayerV {
        PlayerV {
            pos: self.pos@,
            internal_stats: self.internal_stats@,
            curses: self.curses@,
            inventory: self.inventory@.map_values(|o: Option<Item>| opt_item_view(o)),
            talismans: self.talismans@.map_values(|o: Option<Item>| opt_item_view(o)),
            helmet: opt_item_view(self.helmet),
            chestplate: opt_item_view(self.chestplate),
            hand: opt_item_view(self.hand),
            moving: self.moving,
            anim_frame: self.anim_frame as int,
            attack_counter: self.attack_counter as int,
            invuln_frames: self.invuln_frames as int,
            roll_counter: self.roll_counter as int,
            roll_frames: self.roll.0 as int,
            roll_direction: self.roll.1@,
        }
    }
}

pub open spec fn opt_item_wf(o: Option<ItemV>) -> bool {
    match o {
        Option::Some(i) => spec_item_wf(i),
        Option::None => true,
    }
}

/// Bounds the player obeys between ticks.
pub open spec fn spec_player_wf(p: PlayerV) -> bool {
    &&& stats_wf(p.internal_stats)
    &&& 1 <= p.internal_stats.max_lives
    &&& p.inventory.len() == INV_SLOTS
    &&& p.talismans.len() == 3
    &&& forall|i: int| 0 <= i < p.inventory.len() ==> opt_item_wf(#[trigger] p.inventory[i])
    &&& forall|i: int| 0 <= i < p.talismans.len() ==> opt_item_wf(#[trigger] p.talismans[i])
    &&& opt_item_wf(p.helmet)
    &&& opt_item_wf(p.chestplate)
    &&& opt_item_wf(p.hand)
    &&& 0 <= p.pos.x <= ENEMY_POS_LIMIT
    &&& 0 <= p.pos.y <= ENEMY_POS_LIMIT
    &&& -FX_ONE <= p.roll_direction.x <= FX_ONE
    &&& -FX_ONE <= p.roll_direction.y <= FX_ONE
    &&& -AGG_SCALAR_LIMIT <= p.attack_counter <= AGG_SCALAR_LIMIT
    &&& -AGG_SCALAR_LIMIT <= p.roll_counter <= AGG_SCALAR_LIMIT
}

/// A stat source merged in if the slot holds an item.
pub open spec fn spec_merge_slot(s: StatsV, o: Option<ItemV>) -> StatsV {
    match o {
        Option::Some(i) => spec_merge(s, spec_item_stats(i)),
        Option::None => s,
    }
}

/// `s` with every slot of `slots` merged in, left to right.
pub open spec fn spec_fold_slots(s: StatsV, slots: Seq<Option<ItemV>>) -> StatsV
    decreases slots.len(),
{
    if slots.len() == 0 {
        s
    } else {
        spec_merge_slot(spec_fold_slots(s, slots.drop_last()), slots.last())
    }
}

/// What `Player::stats` returns before the modifiers are applied: the
/// base stats, then helmet, chestplate, hand (with the held weapon's
/// payload bag), then the talismans, each merged exactly once.
pub open spec fn spec_player_stats_raw(p: PlayerV) -> StatsV {
    let s1 = spec_merge_slot(p.internal_stats, p.helmet);
    let s2 = spec_merge_slot(s1, p.chestplate);
    let s3 = spec_merge_slot(s2, p.hand);
    let s4 = match p.hand {
        Option::Some(i) => match i.ty {
            ItemTypeV::Held(w) => spec_merge(s3, w.stats),
            _ => s3,
        },
        Option::None => s3,
    };
    spec_fold_slots(s4, p.talismans)
}

/// What `Player::stats` returns: the aggregation with the percentage
/// modifiers applied exactly once, at the end.
pub open spec fn spec_player_stats(p: PlayerV) -> StatsV {
    spec_apply_modifiers(spec_player_stats_raw(p))
}

impl Player {
    /// A fresh player at `pos`: empty inventory and slots, three lives,
    /// base move speed and roll delay.
    pub fn new(pos: Vec2Fx) -> (r: Player)
        ensures
            r@.pos == pos@,
            r@.curses == Seq::<ChaosCurse>::empty(),
            r@.inventory.len() == INV_SLOTS,
            forall|i: int| 0 <= i < INV_SLOTS ==> (#[trigger] r@.inventory[i]) is None,
            r@.talismans.len() == 3,
            forall|i: int| 0 <= i < 3 ==> (#[trigger] r@.talismans[i]) is None,
            r@.helmet is None,
            r@.chestplate is None,
            r@.hand is None,
            r@.internal_stats == (StatsV {
                max_lives: 3,
                lives: 3,
                move_speed: 1_500,
                roll_delay: 60_000,
                ..spec_stats_default()
            }),
            r@.moving == false,
            r@.anim_frame == 0,
            r@.attack_counter == 0,
            r@.invuln_frames == 0,
            r@.roll_counter == 0,
            r@.roll_frames == 0,
            0 <= pos@.x <= ENEMY_POS_LIMIT && 0 <= pos@.y <= ENEMY_POS_LIMIT
                ==> spec_player_wf(r@),
    {
        let mut inventory: Vec<Option<Item>> = Vec::new();
        let mut i: usize = 0;
        while i < INV_SLOTS
            invariant
                i <= INV_SLOTS,
                inventory@.len() == i,
                forall|j: int| 0 <= j < i ==> (#[trigger] inventory@[j]) is None,
            decreases INV_SLOTS - i,
        {
            inventory.push(Option::None);
            i = i + 1;
        }
        let mut talismans: Vec<Option<Item>> = Vec::new();
        talismans.push(Option::None);
        talismans.push(Option::None);
        talismans.push(Option::None);
        let mut internal_stats = Stats::default();
        internal_stats.max_lives = 3;
        internal_stats.lives = 3;
        internal_stats.move_speed = 1_500;
        internal_stats.roll_delay = 60_000;
        let r = Player {
            pos,
            internal_stats,
            curses: Vec::new(),
            inventory,
            talismans,
            helmet: Option::None,
            chestplate: Option::None,
            hand: Option::None,
            moving: false,
            anim_frame: 0,
            attack_counter: 0,
            invuln_frames: 0,
            roll_counter: 0,
            roll: (0, Vec2Fx { x: 0, y: 0 }),
        };
        proof {
            assert(r@.internal_stats =~= (StatsV {
                max_lives: 3,
                lives: 3,
                move_speed: 1_500,
                roll_delay: 60_000,
                ..spec_stats_default()
            }));
        }
        r
    }

    /// Restores the base life pool to its maximum.
    pub fn regen(&mut self)
        ensures
            final(self)@ == (PlayerV {
                internal_stats: StatsV {
                    lives: old(self)@.internal_stats.max_lives,
                    ..old(self)@.internal_stats
                },
                ..old(self)@
            }),
    {
        self.internal_stats.lives = self.internal_stats.max_lives;
        proof {
            assert(self@ =~= (PlayerV {
                internal_stats: StatsV {
                    lives: old(self)@.internal_stats.max_lives,
                    ..old(self)@.internal_stats
                },
                ..old(self)@
            }));
        }
    }

    /// Restores the life charges of the worn chestplate and helmet to
    /// their own maxima.
    pub fn repair_armor(&mut self)
        ensures
            final(self)@ == (PlayerV {
                helmet: spec_repair(old(self)@.helmet),
                chestplate: spec_repair(old(self)@.chestplate),
                ..old(self)@
            }),
    {
        match &mut self.chestplate {
            Option::Some(armor) => {
                armor.internal_stats.lives = armor.internal_stats.max_lives;
            }
            Option::None => {}
        }
        match &mut self.helmet {
            Option::Some(armor) => {
                armor.internal_stats.lives = armor.internal_stats.max_lives;
            }
            Option::None => {}
        }
        proof {
            assert(self@ =~= (PlayerV {
                helmet: spec_repair(old(self)@.helmet),
                chestplate: spec_repair(old(self)@.chestplate),
                ..old(self)@
            }));
        }
    }

    /// Whether a hit can land this tick: not rolling, no invulnerability
    /// frames left.
    pub fn can_take_damage(&self) -> (r: bool)
        ensures
            r == (self@.roll_frames == 0 && self@.invuln_frames == 0),
    {
        self.roll.0 == 0 && self.invuln_frames == 0
    }
}

/// An armor slot with its life charges refilled.
pub open spec fn spec_repair(o: Option<ItemV>) -> Option<ItemV> {
    match o {
        Option::Some(i) => Option::Some(ItemV {
            internal_stats: StatsV { lives: i.internal_stats.max_lives, ..i.internal_stats },
            ..i
        }),
        Option::None => Option::None,
    }
}

} // verus!

verus! {

/// Merges a slot's stat contribution into an accumulator, growing its
/// bound by at most one item's and one enchantment's worth.
fn merge_slot_in(stats: &mut Stats, slot: &Option<Item>, Ghost(k): Ghost<int>, Ghost(l): Ghost<int>)
    requires
        opt_item_wf(opt_item_view(*slot)),
        stats_bounded(old(stats)@, k, l),
        0 <= k,
        0 <= l,
        k + 2 * STAT_LIMIT <= i64::MAX,
        l + 2 * LIFE_LIMIT <= u16::MAX,
    ensures
        final(stats)@ == spec_merge_slot(old(stats)@, opt_item_view(*slot)),
        stats_bounded(final(stats)@, k + 2 * STAT_LIMIT, l + 2 * LIFE_LIMIT),
{
    match slot {
        Option::Some(item) => {
            let is = item.stats();
            proof {
                lemma_wf_bounded(item.internal_stats@);
                match &item.enchantment {
                    Option::Some(e) => {
                        lemma_wf_bounded(e@.stats);
                        lemma_merge_bounded(item.internal_stats@, e@.stats,
                            STAT_LIMIT as int, LIFE_LIMIT as int,
                            STAT_LIMIT as int, LIFE_LIMIT as int);
                    }
                    Option::None => {}
                }
                lemma_merge_bounded(stats@, is@, k, l,
                    2 * STAT_LIMIT, 2 * LIFE_LIMIT);
            }
            stats.merge(&is);
        }
        Option::None => {}
    }
}

impl Player {
    /// The frame's aggregated stats: the base bag, every equipped
    /// item's contribution (helmet, chestplate, hand with its weapon
    /// payload, talismans), merged once each, and the percentage
    /// modifiers applied exactly once at the end.
    #[verifier::loop_isolation(false)]
    pub fn stats(&self) -> (r: Stats)
        requires
            spec_player_wf(self@),
        ensures
            r@ == spec_player_stats(self@),
            stats_agg_wf(r@),
    {
        let ghost p = self@;
        let mut stats = self.internal_stats.duplicate();
        proof {
            lemma_wf_bounded(self.internal_stats@);
        }
        merge_slot_in(&mut stats, &self.helmet, Ghost(STAT_LIMIT as int), Ghost(LIFE_LIMIT as int));
        merge_slot_in(&mut stats, &self.chestplate, Ghost(3 * STAT_LIMIT), Ghost(3 * LIFE_LIMIT));
        merge_slot_in(&mut stats, &self.hand, Ghost(5 * STAT_LIMIT), Ghost(5 * LIFE_LIMIT));
        match &self.hand {
            Option::Some(item) => match &item.ty {
                ItemType::Held(w) => {
                    proof {
                        lemma_wf_bounded(w.stats@);
                        lemma_merge_bounded(stats@, w.stats@, 7 * STAT_LIMIT, 7 * LIFE_LIMIT,
                            STAT_LIMIT as int, LIFE_LIMIT as int);
                    }
                    stats.merge(&w.stats);
                }
                _ => {}
            },
            Option::None => {}
        }
        let ghost s4 = stats@;
        proof {
            assert(stats_bounded(stats@, 8 * STAT_LIMIT, 8 * LIFE_LIMIT));
        }
        let mut i: usize = 0;
        while i < self.talismans.len()
            invariant
                i <= self.talismans.len(),
                self.talismans.len() == 3,
                stats@ == spec_fold_slots(s4, p.talismans.take(i as int)),
                stats_bounded(stats@, 8 * STAT_LIMIT + 2 * i * STAT_LIMIT,
                    8 * LIFE_LIMIT + 2 * i * LIFE_LIMIT),
            decreases self.talismans.len() - i,
        {
            proof {
                assert(opt_item_view(self.talismans@[i as int]) == p.talismans[i as int]);
            }
            merge_slot_in(&mut stats, &self.talismans[i],
                Ghost(8 * STAT_LIMIT + 2 * i * STAT_LIMIT),
                Ghost(8 * LIFE_LIMIT + 2 * i * LIFE_LIMIT));
            proof {
                let pre = p.talismans.take(i as int);
                let cur = p.talismans.take(i + 1);
                assert(cur.drop_last() =~= pre);
                assert(cur.last() == p.talismans[i as int]);
                assert(p.talismans[i as int] == opt_item_view(self.talismans@[i as int]));
                assert(stats@ == spec_fold_slots(s4, cur));
            }
            i = i + 1;
        }
        proof {
            assert(p.talismans.take(p.talismans.len() as int) =~= p.talismans);
            assert(stats@ == spec_player_stats_raw(p));
            lemma_apply_modifiers_bounded(stats@, 14 * LIFE_LIMIT as int);
        }
        stats.apply_modifiers();
        stats
    }
}

/// The first index at or after `from` whose slot is empty, or the
/// length if every one from there on is filled.
pub open spec fn spec_first_free(slots: Seq<Option<ItemV>>, from: int) -> int
    decreases slots.len() - from,
{
    if from < 0 || from >= slots.len() {
        slots.len() as int
    } else if slots[from] is None {
        from
    } else {
        spec_first_free(slots, from + 1)
    }
}

proof fn lemma_first_free_skip(slots: Seq<Option<ItemV>>, from: int, i: int)
    requires
        0 <= from <= i <= slots.len(),
        forall|j: int| from <= j < i ==> !((#[trigger] slots[j]) is None),
    ensures
        spec_first_free(slots, from) == spec_first_free(slots, i),
    decreases i - from,
{
    if from < i {
        lemma_first_free_skip(slots, from + 1, i);
    }
}

/// Whether giving an item of kind `ty` has somewhere to go: its own
/// slot when empty, and otherwise an unlocked inventory slot.
pub open spec fn spec_slot_free(p: PlayerV, ty: ItemTypeV) -> bool {
    ||| match ty {
        ItemTypeV::Helmet => p.helmet is None,
        ItemTypeV::Chestplate => p.chestplate is None,
        ItemTypeV::Held(_) => p.hand is None,
        ItemTypeV::Talisman => spec_first_free(p.talismans, 0) < p.talismans.len(),
    }
    ||| spec_first_free(p.inventory, spec_locked_slots(p.curses)) < p.inventory.len()
}

/// Where a given item lands (see `Player::give_item`).
pub open spec fn spec_give_item(p: PlayerV, item: ItemV) -> PlayerV {
    if item.ty is Chestplate && p.chestplate is None {
        PlayerV { chestplate: Option::Some(item), ..p }
    } else if item.ty is Helmet && p.helmet is None {
        PlayerV { helmet: Option::Some(item), ..p }
    } else if item.ty is Held && p.hand is None {
        PlayerV { hand: Option::Some(item), ..p }
    } else if item.ty is Talisman && spec_first_free(p.talismans, 0) < p.talismans.len() {
        PlayerV {
            talismans: p.talismans.update(spec_first_free(p.talismans, 0), Option::Some(item)),
            ..p
        }
    } else {
        PlayerV {
            inventory: p.inventory.update(
                spec_first_free(p.inventory, spec_locked_slots(p.curses)),
                Option::Some(item),
            ),
            ..p
        }
    }
}

impl Player {
    /// How many inventory slots the accumulated `LessInventory` curses
    /// lock (see `spec_locked_slots`).
    #[verifier::loop_isolation(false)]
    pub fn locked_slots(&self) -> (r: usize)
        ensures
            r == spec_locked_slots(self@.curses),
            r <= INV_SLOTS,
    {
        let mut count: usize = 0;
        let mut i: usize = 0;
        while i < self.curses.len()
            invariant
                i <= self.curses.len(),
                count == spec_count_curse(self.curses@.take(i as int), ChaosCurse::LessInventory),
                count <= i,
            decreases self.curses.len() - i,
        {
            proof {
                let pre = self.curses@.take(i as int);
                let cur = self.curses@.take(i + 1);
                assert(cur.drop_last() =~= pre);
                assert(cur.last() == self.curses@[i as int]);
            }
            match self.curses[i] {
                ChaosCurse::LessInventory => {
                    count = count + 1;
                }
                _ => {}
            }
            i = i + 1;
        }
        proof {
            assert(self.curses@.take(self.curses@.len() as int) =~= self.curses@);
        }
        if count >= 5 {
            INV_SLOTS
        } else {
            2 * count
        }
    }

    /// How many copies of `curse` the player has accumulated.
    #[verifier::loop_isolation(false)]
    pub fn count_curse(&self, curse: ChaosCurse) -> (r: usize)
        ensures
            r == spec_count_curse(self@.curses, curse),
            r <= self@.curses.len(),
    {
        let mut count: usize = 0;
        let mut i: usize = 0;
        while i < self.curses.len()
            invariant
                i <= self.curses.len(),
                count == spec_count_curse(self.curses@.take(i as int), curse),
                count <= i,
            decreases self.curses.len() - i,
        {
            proof {
                let pre = self.curses@.take(i as int);
                let cur = self.curses@.take(i + 1);
                assert(cur.drop_last() =~= pre);
                assert(cur.last() == self.curses@[i as int]);
            }
            if self.curses[i] == curse {
                count = count + 1;
            }
            i = i + 1;
        }
        proof {
            assert(self.curses@.take(self.curses@.len() as int) =~= self.curses@);
        }
        count
    }

    /// Whether an item of kind `ty` can be taken (see `spec_slot_free`).
    #[verifier::loop_isolation(false)]
    pub fn inv_slot_free(&self, ty: &ItemType) -> (r: bool)
        requires
            spec_player_wf(self@),
        ensures
            r == spec_slot_free(self@, ty@),
    {
        let ghost p = self@;
        let own_free = match ty {
            ItemType::Chestplate => self.chestplate.is_none(),
            ItemType::Helmet => self.helmet.is_none(),
            ItemType::Held(_) => self.hand.is_none(),
            ItemType::Talisman => {
                let mut y = false;
                let mut i: usize = 0;
                while i < self.talismans.len()
                    invariant
                        i <= self.talismans.len(),
                        !y,
                        forall|j: int| 0 <= j < i ==> !((#[trigger] p.talismans[j]) is None),
                    decreases self.talismans.len() - i,
                {
                    if self.talismans[i].is_none() {
                        y = true;
                        proof {
                            lemma_first_free_skip(p.talismans, 0, i as int);
                        }
                        break;
                    }
                    i = i + 1;
                }
                proof {
                    if !y {
                        lemma_first_free_skip(p.talismans, 0, p.talismans.len() as int);
                    }
                }
                y
            }
        };
        if own_free {
            return true;
        }
        let locked = self.locked_slots();
        let mut i: usize = locked;
        while i < self.inventory.len()
            invariant
                locked <= i <= self.inventory.len(),
                forall|j: int| locked <= j < i ==> !((#[trigger] p.inventory[j]) is None),
            decreases self.inventory.len() - i,
        {
            if self.inventory[i].is_none() {
                proof {
                    lemma_first_free_skip(p.inventory, locked as int, i as int);
                }
                return true;
            }
            i = i + 1;
        }
        proof {
            lemma_first_free_skip(p.inventory, locked as int, p.inventory.len() as int);
        }
        false
    }

    /// Stores `item`: in its own slot when that is empty (the first
    /// free talisman slot, for a talisman), else in the first unlocked
    /// free inventory slot. The caller must have checked
    /// `inv_slot_free` (the original aborts otherwise).
    #[verifier::loop_isolation(false)]
    pub fn give_item(&mut self, item: Item)
        requires
            spec_player_wf(old(self)@),
            spec_item_wf(item@),
            spec_slot_free(old(self)@, item@.ty),
        ensures
            final(self)@ == spec_give_item(old(self)@, item@),
            spec_player_wf(final(self)@),
    {
        let ghost p = old(self)@;
        let ghost g = spec_give_item(p, item@);
        match &item.ty {
            ItemType::Chestplate => {
                if self.chestplate.is_none() {
                    self.chestplate = Option::Some(item);
                    proof {
                        assert(self@ =~= g);
                    }
                    return;
                }
            }
            ItemType::Helmet => {
                if self.helmet.is_none() {
                    self.helmet = Option::Some(item);
                    proof {
                        assert(self@ =~= g);
                    }
                    return;
                }
            }
            ItemType::Held(_) => {
                if self.hand.is_none() {
                    self.hand = Option::Some(item);
                    proof {
                        assert(self@ =~= g);
                    }
                    return;
                }
            }
            ItemType::Talisman => {
                let mut i: usize = 0;
                while i < self.talismans.len()
                    invariant
                        i <= self.talismans.len(),
                        self == old(self),
                        forall|j: int| 0 <= j < i ==> !((#[trigger] p.talismans[j]) is None),
                    decreases self.talismans.len() - i,
                {
                    if self.talismans[i].is_none() {
                        proof {
                            lemma_first_free_skip(p.talismans, 0, i as int);
                        }
                        self.talismans.set(i, Option::Some(item));
                        proof {
                            assert(self@.talismans =~= g.talismans);
                            assert(self@ =~= g);
                        }
                        return;
                    }
                    i = i + 1;
                }
                proof {
                    lemma_first_free_skip(p.talismans, 0, p.talismans.len() as int);
                }
            }
        }
        let locked = self.locked_slots();
        let mut i: usize = locked;
        while i < self.inventory.len()
            invariant
                locked <= i <= self.inventory.len(),
                self == old(self),
                locked == spec_locked_slots(p.curses),
                forall|j: int| locked <= j < i ==> !((#[trigger] p.inventory[j]) is None),
            decreases self.inventory.len() - i,
        {
            if self.inventory[i].is_none() {
                proof {
                    lemma_first_free_skip(p.inventory, locked as int, i as int);
                }
                self.inventory.set(i, Option::Some(item));
                proof {
                    assert(self@.inventory =~= g.inventory);
                    assert(self@ =~= g);
                }
                return;
            }
            i = i + 1;
        }
        proof {
            lemma_first_free_skip(p.inventory, locked as int, p.inventory.len() as int);
            assert(false);
        }
    }
}

/// Whether the slot holds an item with a life charge left.
pub open spec fn spec_has_life(o: Option<ItemV>) -> bool {
    match o {
        Option::Some(i) => i.internal_stats.lives > 0,
        Option::None => false,
    }
}

/// The slot with one life charge consumed.
pub open spec fn spec_dec_life(o: Option<ItemV>) -> Option<ItemV> {
    match o {
        Option::Some(i) => Option::Some(ItemV {
            internal_stats: StatsV { lives: i.internal_stats.lives - 1, ..i.internal_stats },
            ..i
        }),
        Option::None => o,
    }
}

/// The first index at or after `from` whose slot holds a life charge,
/// or the length if none does.
pub open spec fn spec_first_life(slots: Seq<Option<ItemV>>, from: int) -> int
    decreases slots.len() - from,
{
    if from < 0 || from >= slots.len() {
        slots.len() as int
    } else if spec_has_life(slots[from]) {
        from
    } else {
        spec_first_life(slots, from + 1)
    }
}

proof fn lemma_first_life_skip(slots: Seq<Option<ItemV>>, from: int, i: int)
    requires
        0 <= from <= i <= slots.len(),
        forall|j: int| from <= j < i ==> !spec_has_life(#[trigger] slots[j]),
    ensures
        spec_first_life(slots, from) == spec_first_life(slots, i),
    decreases i - from,
{
    if from < i {
        lemma_first_life_skip(slots, from + 1, i);
    }
}

/// What one damage event does (see `Player::damage`): invulnerability
/// frames start, and the first life charge found in talisman, helmet,
/// chestplate, hand order is consumed; only with none left does the
/// base life pool drop, and the event reports whether that emptied it.
pub open spec fn spec_damage(p: PlayerV) -> (PlayerV, bool) {
    let p1 = PlayerV { invuln_frames: 100, ..p };
    let ti = spec_first_life(p.talismans, 0);
    if ti < p.talismans.len() {
        (PlayerV { talismans: p.talismans.update(ti, spec_dec_life(p.talismans[ti])), ..p1 },
            false)
    } else if spec_has_life(p.helmet) {
        (PlayerV { helmet: spec_dec_life(p.helmet), ..p1 }, false)
    } else if spec_has_life(p.chestplate) {
        (PlayerV { chestplate: spec_dec_life(p.chestplate), ..p1 }, false)
    } else if spec_has_life(p.hand) {
        (PlayerV { hand: spec_dec_life(p.hand), ..p1 }, false)
    } else {
        (PlayerV {
            internal_stats: StatsV { lives: p.internal_stats.lives - 1, ..p.internal_stats },
            ..p1
        }, p.internal_stats.lives == 1)
    }
}

/// Whether a damage event still has something to consume: some
/// equipment life charge, or a base life.
pub open spec fn spec_can_absorb(p: PlayerV) -> bool {
    ||| spec_first_life(p.talismans, 0) < p.talismans.len()
    ||| spec_has_life(p.helmet)
    ||| spec_has_life(p.chestplate)
    ||| spec_has_life(p.hand)
    ||| p.internal_stats.lives > 0
}

impl Player {
    /// One damage event (see `spec_damage`): returns whether the run is
    /// over (the base life pool just reached zero).
    #[verifier::loop_isolation(false)]
    pub fn damage(&mut self) -> (game_over: bool)
        requires
            spec_player_wf(old(self)@),
            spec_can_absorb(old(self)@),
        ensures
            final(self)@ == spec_damage(old(self)@).0,
            game_over == spec_damage(old(self)@).1,
            spec_player_wf(final(self)@),
    {
        let ghost p = old(self)@;
        let ghost g = spec_damage(p);
        self.invuln_frames = 100;
        let mut i: usize = 0;
        while i < self.talismans.len()
            invariant
                i <= self.talismans.len(),
                self@ == (PlayerV { invuln_frames: 100, ..p }),
                forall|j: int| 0 <= j < i ==> !spec_has_life(#[trigger] p.talismans[j]),
            decreases self.talismans.len() - i,
        {
            let updated = match &self.talismans[i] {
                Option::Some(item) => {
                    if item.internal_stats.lives > 0 {
                        let mut d = item.duplicate();
                        d.internal_stats.lives = d.internal_stats.lives - 1;
                        Option::Some(d)
                    } else {
                        Option::None
                    }
                }
                Option::None => Option::None,
            };
            match updated {
                Option::Some(d) => {
                    proof {
                        lemma_first_life_skip(p.talismans, 0, i as int);
                        assert(Option::Some(d@) == spec_dec_life(p.talismans[i as int]));
                    }
                    self.talismans.set(i, Option::Some(d));
                    proof {
                        assert(self@.talismans =~= g.0.talismans);
                        assert(self@ =~= g.0);
                    }
                    return false;
                }
                Option::None => {}
            }
            i = i + 1;
        }
        proof {
            lemma_first_life_skip(p.talismans, 0, p.talismans.len() as int);
        }
        let helmet_has = match &self.helmet {
            Option::Some(item) => item.internal_stats.lives > 0,
            Option::None => false,
        };
        if helmet_has {
            match &mut self.helmet {
                Option::Some(item) => {
                    item.internal_stats.lives = item.internal_stats.lives - 1;
                }
                Option::None => {}
            }
            proof {
                assert(self@ =~= g.0);
            }
            return false;
        }
        let chest_has = match &self.chestplate {
            Option::Some(item) => item.internal_stats.lives > 0,
            Option::None => false,
        };
        if chest_has {
            match &mut self.chestplate {
                Option::Some(item) => {
                    item.internal_stats.lives = item.internal_stats.lives - 1;
                }
                Option::None => {}
            }
            proof {
                assert(self@ =~= g.0);
            }
            return false;
        }
        let hand_has = match &self.hand {
            Option::Some(item) => item.internal_stats.lives > 0,
            Option::None => false,
        };
        if hand_has {
            match &mut self.hand {
                Option::Some(item) => {
                    item.internal_stats.lives = item.internal_stats.lives - 1;
                }
                Option::None => {}
            }
            proof {
                assert(self@ =~= g.0);
            }
            return false;
        }
        self.internal_stats.lives = self.internal_stats.lives - 1;
        proof {
            assert(self@ =~= g.0);
        }
        self.internal_stats.lives == 0
    }
}

/// The per-frame movement intent resolved into a direction: each held
/// key contributes one axis unit, and the sum is scaled to length
/// `FX_ONE` (zero when no key is held).
pub fn movement_vector(left: bool, right: bool, up: bool, down: bool) -> (r: Vec2Fx)
    ensures
        r@ == spec_movement_vector(left, right, up, down),
        -FX_ONE <= r.x <= FX_ONE,
        -FX_ONE <= r.y <= FX_ONE,
{
    let mut v = Vec2Fx { x: 0, y: 0 };
    if left {
        v.x = v.x - FX_ONE;
    }
    if right {
        v.x = v.x + FX_ONE;
    }
    if up {
        v.y = v.y - FX_ONE;
    }
    if down {
        v.y = v.y + FX_ONE;
    }
    proof {
        lemma_len_sq_small(v@.x, v@.y, FX_ONE as int);
    }
    v.normalize()
}

/// The raw key vector of `movement_vector`, scaled to unit length.
pub open spec fn spec_movement_vector(left: bool, right: bool, up: bool, down: bool) -> Vec2V {
    let x = (if right { FX_ONE as int } else { 0 }) - (if left { FX_ONE as int } else { 0 });
    let y = (if down { FX_ONE as int } else { 0 }) - (if up { FX_ONE as int } else { 0 });
    Vec2V { x: x, y: y }.norm()
}

} // verus!

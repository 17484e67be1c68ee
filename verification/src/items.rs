//! Items: immutable value objects carrying a stat bag, an optional
//! enchantment, and a slot kind; plus the master item and enchantment
//! tables the game samples rewards from.

use vstd::prelude::*;

verus! {

use vstd::string::StringExecFns;
use crate::projectiles::{ProjectileTemplate, spec_template_wf};
use crate::stats::{Stats, StatsV, stats_wf, spec_merge, spec_stats_default, lemma_merge_default,
    lemma_wf_merge_fits, DamageType, DamageMap, OnHitEffect};

/// A held weapon's payload: its own stat bag (applied only while held)
/// and the projectile template it fires.
#[derive(Clone, Debug)]
pub struct Weapon {
    pub stats: Stats,
    pub projectile: ProjectileTemplate,
}

/// The mathematical value of a weapon payload.
pub struct WeaponV {
    pub stats: StatsV,
    pub projectile: ProjectileTemplate,
}

impl View for Weapon {
    type V = WeaponV;

    open spec fn view(&self) -> WeaponV {
        WeaponV { stats: self.stats@, projectile: self.projectile }
    }
}

/// An enchantment: a named, purely additive stat contribution, at most
/// one per item.
#[derive(Clone, Debug)]
pub struct Enchantment {
    pub name: &'static str,
    pub stats: Stats,
    pub sprite_x: i64,
    pub sprite_y: i64,
}

/// The mathematical value of an enchantment.
pub struct EnchantmentV {
    pub name: Seq<char>,
    pub stats: StatsV,
    pub sprite_x: int,
    pub sprite_y: int,
}

impl View for Enchantment {
    type V = EnchantmentV;

    open spec fn view(&self) -> EnchantmentV {
        EnchantmentV {
            name: self.name@,
            stats: self.stats@,
            sprite_x: self.sprite_x as int,
            sprite_y: self.sprite_y as int,
        }
    }
}

/// The slot kind of an item. Two items are "the same type" when their
/// kinds match, whatever weapons they carry.
#[derive(Clone, Debug)]
pub enum ItemType {
    Helmet,
    Chestplate,
    Held(Box<Weapon>),
    Talisman,
}

/// The mathematical value of a slot kind.
pub enum ItemTypeV {
    Helmet,
    Chestplate,
    Held(WeaponV),
    Talisman,
}

impl View for ItemType {
    type V = ItemTypeV;

    open spec fn view(&self) -> ItemTypeV {
        match self {
            ItemType::Helmet => ItemTypeV::Helmet,
            ItemType::Chestplate => ItemTypeV::Chestplate,
            ItemType::Held(w) => ItemTypeV::Held((**w)@),
            ItemType::Talisman => ItemTypeV::Talisman,
        }
    }
}

/// Whether two slot kinds match, weapons aside.
pub open spec fn spec_same_kind(a: ItemTypeV, b: ItemTypeV) -> bool {
    match (a, b) {
        (ItemTypeV::Helmet, ItemTypeV::Helmet) => true,
        (ItemTypeV::Chestplate, ItemTypeV::Chestplate) => true,
        (ItemTypeV::Held(_), ItemTypeV::Held(_)) => true,
        (ItemTypeV::Talisman, ItemTypeV::Talisman) => true,
        _ => false,
    }
}

impl ItemType {
    /// Whether this kind matches `other`, weapons aside.
    pub fn same_kind(&self, other: &ItemType) -> (r: bool)
        ensures
            r == spec_same_kind(self@, other@),
    {
        match (self, other) {
            (ItemType::Helmet, ItemType::Helmet) => true,
            (ItemType::Chestplate, ItemType::Chestplate) => true,
            (ItemType::Held(_), ItemType::Held(_)) => true,
            (ItemType::Talisman, ItemType::Talisman) => true,
            _ => false,
        }
    }
}

/// An item: identity, slot kind, sprite cell, its own stat bag, and an
/// optional enchantment that is merged in when the stats are queried.
#[derive(Clone, Debug)]
pub struct Item {
    pub name: &'static str,
    pub ty: ItemType,
    pub sprite_x: i64,
    pub sprite_y: i64,
    pub internal_stats: Stats,
    pub enchantment: Option<Enchantment>,
}

/// The mathematical value of an item.
pub struct ItemV {
    pub name: Seq<char>,
    pub ty: ItemTypeV,
    pub sprite_x: int,
    pub sprite_y: int,
    pub internal_stats: StatsV,
    pub enchantment: Option<EnchantmentV>,
}

impl View for Item {
    type V = ItemV;

    open spec fn view(&self) -> ItemV {
        ItemV {
            name: self.name@,
            ty: self.ty@,
            sprite_x: self.sprite_x as int,
            sprite_y: self.sprite_y as int,
            internal_stats: self.internal_stats@,
            enchantment: match self.enchantment {
                Option::Some(ref e) => Option::Some(e@),
                Option::None => Option::None,
            },
        }
    }
}

/// Bounds every stored item obeys: its own stats, its enchantment's,
/// and (for a weapon) the payload's stats and template.
pub open spec fn spec_item_wf(i: ItemV) -> bool {
    &&& stats_wf(i.internal_stats)
    &&& match i.enchantment {
        Option::Some(e) => stats_wf(e.stats),
        Option::None => true,
    }
    &&& match i.ty {
        ItemTypeV::Held(w) => stats_wf(w.stats) && spec_template_wf(w.projectile),
        _ => true,
    }
}

/// What `Item::stats` returns: the item's own bag with the
/// enchantment's merged in, if there is one.
pub open spec fn spec_item_stats(i: ItemV) -> StatsV {
    match i.enchantment {
        Option::Some(e) => spec_merge(i.internal_stats, e.stats),
        Option::None => i.internal_stats,
    }
}

impl Item {
    /// The item's stat contribution: its own bag plus its enchantment's.
    pub fn stats(&self) -> (r: Stats)
        requires
            spec_item_wf(self@),
        ensures
            r@ == spec_item_stats(self@),
    {
        let mut stats = self.internal_stats.duplicate();
        match &self.enchantment {
            Option::Some(e) => {
                proof {
                    lemma_wf_merge_fits(self.internal_stats@, e.stats@);
                }
                stats.merge(&e.stats);
            }
            Option::None => {}
        }
        stats
    }

    /// An exact copy.
    pub fn duplicate(&self) -> (r: Item)
        ensures
            r@ == self@,
    {
        let ty = match &self.ty {
            ItemType::Helmet => ItemType::Helmet,
            ItemType::Chestplate => ItemType::Chestplate,
            ItemType::Held(w) => ItemType::Held(Box::new(Weapon {
                stats: w.stats.duplicate(),
                projectile: w.projectile,
            })),
            ItemType::Talisman => ItemType::Talisman,
        };
        let enchantment = match &self.enchantment {
            Option::Some(e) => Option::Some(Enchantment {
                name: e.name,
                stats: e.stats.duplicate(),
                sprite_x: e.sprite_x,
                sprite_y: e.sprite_y,
            }),
            Option::None => Option::None,
        };
        let r = Item {
            name: self.name,
            ty,
            sprite_x: self.sprite_x,
            sprite_y: self.sprite_y,
            internal_stats: self.internal_stats.duplicate(),
            enchantment,
        };
        proof {
            assert(r@ =~= self@);
        }
        r
    }

    /// The display name: the item's own, or "<item> of <enchantment>".
    pub fn name(&self) -> (r: String)
        ensures
            (r@ == match self@.enchantment {
                Option::Some(e) => self@.name + " of "@ + e.name,
                Option::None => self@.name,
            }),
    {
        let mut s: String = self.name.to_owned();
        match &self.enchantment {
            Option::Some(e) => {
                s.append(" of ");
                s.append(e.name);
            }
            Option::None => {}
        }
        s
    }
}

/// The item a reference in `items` whose name is `name`; the caller
/// must know one is there.
pub fn get_item_by_name<'a>(items: &'a Vec<Item>, name: &str) -> (r: &'a Item)
    requires
        exists|i: int| 0 <= i < items@.len() && (#[trigger] items@[i])@.name == name@,
    ensures
        r@.name == name@,
        exists|i: int| 0 <= i < items@.len() && r == &items@[i],
{
    let target: String = name.to_owned();
    let mut j: usize = 0;
    while j < items.len()
        invariant
            j <= items@.len(),
            target@ == name@,
            exists|i: int| j <= i < items@.len() && (#[trigger] items@[i])@.name == name@,
        decreases items@.len() - j,
    {
        let n: String = items[j].name.to_owned();
        if n == target {
            return &items[j];
        }
        j = j + 1;
    }
    proof {
        assert(false);
    }
    unreached()
}

} // verus!

verus! {

use crate::projectiles::{arrow, slash, boomerang as boomerang_template, dark_slash, boxing_glove,
    icicle, power_orb, light_ray, star_bazooka, star_explosion, fire, fireball, lance, razor_dart};
use crate::stats::on_hit_effect_wf;

/// A held-weapon slot kind around `projectile`, with an empty payload bag.
fn held(projectile: ProjectileTemplate) -> (r: ItemType)
    ensures
        (r@ matches ItemTypeV::Held(w) && w.stats == spec_stats_default()
            && w.projectile == projectile),
{
    ItemType::Held(Box::new(Weapon { stats: Stats::default(), projectile }))
}

/// An item without an enchantment.
fn plain_item(name: &'static str, ty: ItemType, sprite_x: i64, sprite_y: i64, stats: Stats)
    -> (r: Item)
    ensures
        r@.name == name@,
        r@.ty == ty@,
        r@.sprite_x == sprite_x as int,
        r@.sprite_y == sprite_y as int,
        r@.internal_stats == stats@,
        r@.enchantment is None,
{
    Item { name, ty, sprite_x, sprite_y, internal_stats: stats, enchantment: Option::None }
}

/// The free talisman handed out by the gift curse.
pub fn gift() -> (r: Item)
    ensures
        r@.name == "gift"@,
        r@.ty is Talisman,
        r@.internal_stats == spec_stats_default(),
        r@.enchantment is None,
        spec_item_wf(r@),
{
    plain_item("gift", ItemType::Talisman, 1_000, 4_000, Stats::default())
}

/// The master enchantment table.
pub fn get_enchantments() -> (r: Vec<Enchantment>)
    ensures
        r@.len() == 6,
        forall|i: int| 0 <= i < r@.len() ==> stats_wf((#[trigger] r@[i])@.stats),
{
    let mut v: Vec<Enchantment> = Vec::new();

    let mut s = Stats::default();
    s.damage = DamageMap::single(DamageType::Fire, 2_000);
    v.push(Enchantment { name: "burning", stats: s, sprite_x: 0, sprite_y: 0 });

    let mut s = Stats::default();
    s.attack_delay_mod = -300;
    v.push(Enchantment { name: "haste", stats: s, sprite_x: 1_000, sprite_y: 0 });

    let mut s = Stats::default();
    s.attack_delay_mod = 300;
    v.push(Enchantment { name: "sluggishness", stats: s, sprite_x: 2_000, sprite_y: 0 });

    let mut s = Stats::default();
    s.move_speed_mod = 300;
    v.push(Enchantment { name: "light feet", stats: s, sprite_x: 3_000, sprite_y: 0 });

    let mut s = Stats::default();
    s.damage = DamageMap::single(DamageType::Holy, 2_000);
    v.push(Enchantment { name: "holiness", stats: s, sprite_x: 4_000, sprite_y: 0 });

    let mut s = Stats::default();
    s.damage = DamageMap::single(DamageType::Unholy, 2_000);
    s.damage_modifiers = DamageMap::single(DamageType::Holy, -1_000);
    v.push(Enchantment { name: "hate", stats: s, sprite_x: 5_000, sprite_y: 0 });

    v
}

/// The armor of the master item table.
#[verifier::loop_isolation(false)]
fn push_armor(v: &mut Vec<Item>)
    ensures
        final(v)@.len() == old(v)@.len() + 9,
        forall|i: int| 0 <= i < old(v)@.len() ==> final(v)@[i] == old(v)@[i],
        forall|i: int| old(v)@.len() <= i < final(v)@.len()
            ==> spec_item_wf((#[trigger] final(v)@[i])@),
{
    let mut s = Stats::default();
    s.max_lives = 2;
    s.lives = 2;
    s.move_speed_mod = -200;
    s.roll_delay_mod = 200;
    v.push(plain_item("iron chestplate", ItemType::Chestplate, 1_000, 0, s));

    let mut s = Stats::default();
    s.max_lives = 1;
    s.lives = 1;
    v.push(plain_item("iron helmet", ItemType::Helmet, 1_000, 1_000, s));

    let mut s = Stats::default();
    s.roll_delay_mod = -200;
    s.damage_modifiers = DamageMap::single(DamageType::Piercing, 50);
    v.push(plain_item("leather tunic", ItemType::Chestplate, 2_000, 0, s));

    let mut s = Stats::default();
    s.roll_delay_mod = -250;
    s.move_speed_mod = 250;
    v.push(plain_item("archers hood", ItemType::Helmet, 2_000, 1_000, s));

    let mut s = Stats::default();
    s.damage_modifiers = DamageMap::single(DamageType::Fire, 250);
    v.push(plain_item("fire wizards robes", ItemType::Chestplate, 5_000, 0, s));

    let mut s = Stats::default();
    s.max_lives = 1;
    s.lives = 1;
    v.push(plain_item("chainmail", ItemType::Chestplate, 6_000, 0, s));

    let mut s = Stats::default();
    s.damage_modifiers = DamageMap::single(DamageType::Holy, 200)
        .with(DamageType::Unholy, -200);
    v.push(plain_item("wizards robes", ItemType::Chestplate, 3_000, 0, s));

    let mut s = Stats::default();
    s.damage_modifiers = DamageMap::single(DamageType::Holy, 200)
        .with(DamageType::Unholy, -200);
    v.push(plain_item("wizards hat", ItemType::Helmet, 3_000, 1_000, s));

    let mut s = Stats::default();
    s.max_lives = 1;
    s.lives = 1;
    s.damage_modifiers = DamageMap::single(DamageType::Unholy, 200);
    v.push(plain_item("cobalt chestplate", ItemType::Chestplate, 4_000, 0, s));
}

/// The weapons of the master item table.
#[verifier::loop_isolation(false)]
fn push_weapons(v: &mut Vec<Item>)
    ensures
        final(v)@.len() == old(v)@.len() + 13,
        forall|i: int| 0 <= i < old(v)@.len() ==> final(v)@[i] == old(v)@[i],
        forall|i: int| old(v)@.len() <= i < final(v)@.len()
            ==> spec_item_wf((#[trigger] final(v)@[i])@),
{
    let mut s = Stats::default();
    s.attack_delay = 30_000;
    s.damage = DamageMap::single(DamageType::Piercing, 1_000);
    v.push(plain_item("bow", held(arrow()), 1_000, 2_000, s));

    let mut s = Stats::default();
    s.attack_delay = 10_000;
    s.damage = DamageMap::single(DamageType::Slashing, 2_000);
    v.push(plain_item("longsword", held(slash()), 2_000, 2_000, s));

    let mut s = Stats::default();
    s.attack_delay = 20_000;
    s.damage = DamageMap::single(DamageType::Piercing, 1_000);
    v.push(plain_item("boomerang", held(boomerang_template()), 13_000, 2_000, s));

    let mut s = Stats::default();
    s.attack_delay = 12_000;
    s.damage = DamageMap::single(DamageType::Unholy, 2_100);
    v.push(plain_item("deathblade", held(dark_slash()), 12_000, 2_000, s));

    let mut s = Stats::default();
    s.attack_delay = 10_000;
    s.damage = DamageMap::single(DamageType::Slashing, 1_000);
    s.move_speed_mod = 100;
    v.push(plain_item("dagger", held(slash()), 3_000, 2_000, s));

    let mut s = Stats::default();
    s.attack_delay = 30_000;
    s.damage = DamageMap::single(DamageType::Slashing, 5_000);
    v.push(plain_item("boxing gloves", held(boxing_glove()), 4_000, 2_000, s));

    let mut s = Stats::default();
    s.attack_delay = 30_000;
    s.damage = DamageMap::single(DamageType::Piercing, 5_000);
    v.push(plain_item("icicle wand", held(icicle()), 5_000, 2_000, s));

    let mut s = Stats::default();
    s.attack_delay = 30_000;
    s.damage = DamageMap::single(DamageType::Unholy, 4_000);
    v.push(plain_item("power orb", held(power_orb()), 6_000, 2_000, s));

    let mut s = Stats::default();
    s.attack_delay = 15_000;
    s.damage = DamageMap::single(DamageType::Holy, 2_000);
    v.push(plain_item("light ray", held(light_ray()), 7_000, 2_000, s));

    let mut s = Stats::default();
    s.attack_delay = 70_000;
    let e = OnHitEffect {
        trigger: Option::None,
        template: star_explosion(),
        damage: DamageMap::single(DamageType::Holy, 5_000),
    };
    s.on_hit_effects.push(e);
    proof {
        assert(s@.on_hit_effects =~= seq![e@]);
        assert(on_hit_effect_wf(s@.on_hit_effects[0]));
        assert(stats_wf(s@));
    }
    v.push(plain_item("star bazooka", held(star_bazooka()), 8_000, 2_000, s));

    let mut s = Stats::default();
    s.attack_delay = 30_000;
    s.damage = DamageMap::single(DamageType::Fire, 4_000);
    v.push(plain_item("book of fireballs", held(fireball()), 9_000, 2_000, s));

    let mut s = Stats::default();
    s.attack_delay = 50_000;
    s.damage = DamageMap::single(DamageType::Piercing, 4_000);
    v.push(plain_item("lance", held(lance()), 10_000, 2_000, s));

    let mut s = Stats::default();
    s.attack_delay = 5_000;
    s.damage = DamageMap::single(DamageType::Piercing, 500);
    v.push(plain_item("razor dart", held(razor_dart()), 11_000, 2_000, s));
}

/// The talismans of the master item table.
#[verifier::loop_isolation(false)]
fn push_talismans(v: &mut Vec<Item>)
    ensures
        final(v)@.len() == old(v)@.len() + 4,
        forall|i: int| 0 <= i < old(v)@.len() ==> final(v)@[i] == old(v)@[i],
        forall|i: int| old(v)@.len() <= i < final(v)@.len()
            ==> spec_item_wf((#[trigger] final(v)@[i])@),
{
    let mut s = Stats::default();
    s.max_lives = 1;
    s.lives = 1;
    v.push(plain_item("heart pendant", ItemType::Talisman, 1_000, 3_000, s));

    let mut s = Stats::default();
    let e = OnHitEffect {
        trigger: Option::Some(DamageType::Fire),
        template: fire(),
        damage: DamageMap::single(DamageType::Fire, 2_000),
    };
    s.on_hit_effects.push(e);
    proof {
        assert(s@.on_hit_effects =~= seq![e@]);
        assert(on_hit_effect_wf(s@.on_hit_effects[0]));
        assert(stats_wf(s@));
    }
    v.push(plain_item("fire necklace", ItemType::Talisman, 4_000, 3_000, s));

    let mut s = Stats::default();
    s.move_speed_mod = 200;
    s.roll_delay_mod = -200;
    v.push(plain_item("pendant of swiftness", ItemType::Talisman, 2_000, 3_000, s));

    let mut s = Stats::default();
    s.attack_delay_mod = -200;
    v.push(plain_item("toolbelt of rapid fire", ItemType::Talisman, 6_000, 3_000, s));
}

/// The master item table the game samples rewards from.
pub fn get_items() -> (r: Vec<Item>)
    ensures
        r@.len() == 26,
        forall|i: int| 0 <= i < r@.len() ==> spec_item_wf((#[trigger] r@[i])@),
{
    let mut v: Vec<Item> = Vec::new();
    push_armor(&mut v);
    push_weapons(&mut v);
    push_talismans(&mut v);
    v
}

} // verus!

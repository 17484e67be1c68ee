//! The stat model: additive bags of combat quantities, merged across
//! equipped items every frame and scaled by percentage modifiers exactly
//! once per aggregation.

use vstd::prelude::*;

verus! {

use crate::fx::{FX_ONE, spec_fx_mul, fx_mul};
use crate::projectiles::{ProjectileTemplate, spec_template_wf};
use crate::utils::{AGG_LIMIT, AGG_SCALAR_LIMIT};

/// Bound on any stat magnitude a well-formed source carries.
pub const STAT_LIMIT: i64 = 100_000_000;

/// Bound on life counts a well-formed source carries.
pub const LIFE_LIMIT: u16 = 1000;

/// The kinds of damage a hit can carry.
#[derive(Clone, Copy, PartialEq, Eq, Structural, Debug)]
pub enum DamageType {
    Slashing,
    Piercing,
    Fire,
    Unholy,
    Holy,
}

impl DamageType {
    /// The lower-case name of the damage type.
    pub fn to_text(&self) -> (r: &'static str)
        ensures
            *self == DamageType::Slashing ==> r@ == "slashing"@,
            *self == DamageType::Piercing ==> r@ == "piercing"@,
            *self == DamageType::Fire ==> r@ == "fire"@,
            *self == DamageType::Unholy ==> r@ == "unholy"@,
            *self == DamageType::Holy ==> r@ == "holy"@,
    {
        match self {
            DamageType::Slashing => "slashing",
            DamageType::Piercing => "piercing",
            DamageType::Fire => "fire",
            DamageType::Unholy => "unholy",
            DamageType::Holy => "holy",
        }
    }

    /// Every damage type, once each.
    pub fn all() -> (r: Vec<DamageType>)
        ensures
            r@ == seq![
                DamageType::Slashing,
                DamageType::Piercing,
                DamageType::Fire,
                DamageType::Unholy,
                DamageType::Holy,
            ],
    {
        let mut v: Vec<DamageType> = Vec::new();
        v.push(DamageType::Slashing);
        v.push(DamageType::Piercing);
        v.push(DamageType::Fire);
        v.push(DamageType::Unholy);
        v.push(DamageType::Holy);
        proof {
            assert(v@ =~= seq![
                DamageType::Slashing,
                DamageType::Piercing,
                DamageType::Fire,
                DamageType::Unholy,
                DamageType::Holy,
            ]);
        }
        v
    }
}

/// The mathematical value of a damage table: one amount per damage type.
pub struct DamageMapV {
    pub slashing: int,
    pub piercing: int,
    pub fire: int,
    pub unholy: int,
    pub holy: int,
}

impl DamageMapV {
    pub open spec fn get(self, t: DamageType) -> int {
        match t {
            DamageType::Slashing => self.slashing,
            DamageType::Piercing => self.piercing,
            DamageType::Fire => self.fire,
            DamageType::Unholy => self.unholy,
            DamageType::Holy => self.holy,
        }
    }

    /// Key-wise sum of two tables.
    pub open spec fn add(self, o: DamageMapV) -> DamageMapV {
        DamageMapV {
            slashing: self.slashing + o.slashing,
            piercing: self.piercing + o.piercing,
            fire: self.fire + o.fire,
            unholy: self.unholy + o.unholy,
            holy: self.holy + o.holy,
        }
    }

    pub open spec fn zero() -> DamageMapV {
        DamageMapV { slashing: 0, piercing: 0, fire: 0, unholy: 0, holy: 0 }
    }
}

/// Names each field of a table as its own lookup, connecting the two
/// spellings contracts use.
pub proof fn lemma_dm_fields(d: DamageMapV)
    ensures
        d.slashing == d.get(DamageType::Slashing),
        d.piercing == d.get(DamageType::Piercing),
        d.fire == d.get(DamageType::Fire),
        d.unholy == d.get(DamageType::Unholy),
        d.holy == d.get(DamageType::Holy),
{
}

/// Bound on every entry of a well-formed damage table.
pub open spec fn dm_wf(d: DamageMapV) -> bool {
    &&& -STAT_LIMIT <= d.slashing <= STAT_LIMIT
    &&& -STAT_LIMIT <= d.piercing <= STAT_LIMIT
    &&& -STAT_LIMIT <= d.fire <= STAT_LIMIT
    &&& -STAT_LIMIT <= d.unholy <= STAT_LIMIT
    &&& -STAT_LIMIT <= d.holy <= STAT_LIMIT
}

/// Every key-wise sum of two tables fits in the machine type.
pub open spec fn dm_fits(a: DamageMapV, b: DamageMapV) -> bool {
    &&& i64::MIN <= a.slashing + b.slashing <= i64::MAX
    &&& i64::MIN <= a.piercing + b.piercing <= i64::MAX
    &&& i64::MIN <= a.fire + b.fire <= i64::MAX
    &&& i64::MIN <= a.unholy + b.unholy <= i64::MAX
    &&& i64::MIN <= a.holy + b.holy <= i64::MAX
}

/// A damage table: a fixed-point amount for each damage type. An absent
/// entry of the original's keyed map is a zero here.
#[derive(Clone, Copy, PartialEq, Eq, Structural, Debug)]
pub struct DamageMap {
    pub slashing: i64,
    pub piercing: i64,
    pub fire: i64,
    pub unholy: i64,
    pub holy: i64,
}

impl View for DamageMap {
    type V = DamageMapV;

    open spec fn view(&self) -> DamageMapV {
        DamageMapV {
            slashing: self.slashing as int,
            piercing: self.piercing as int,
            fire: self.fire as int,
            unholy: self.unholy as int,
            holy: self.holy as int,
        }
    }
}

impl DamageMap {
    pub fn zero() -> (r: DamageMap)
        ensures
            r@ == DamageMapV::zero(),
    {
        DamageMap { slashing: 0, piercing: 0, fire: 0, unholy: 0, holy: 0 }
    }

    /// The table with a single entry set.
    pub fn single(t: DamageType, v: i64) -> (r: DamageMap)
        ensures
            r@.get(t) == v,
            forall|u: DamageType| u != t ==> r@.get(u) == 0,
            -STAT_LIMIT <= v <= STAT_LIMIT ==> dm_wf(r@),
    {
        let z = DamageMap { slashing: 0, piercing: 0, fire: 0, unholy: 0, holy: 0 };
        z.with(t, v)
    }

    /// This table with the entry for `t` replaced by `v`.
    pub fn with(self, t: DamageType, v: i64) -> (r: DamageMap)
        ensures
            r@.get(t) == v,
            forall|u: DamageType| u != t ==> r@.get(u) == self@.get(u),
            dm_wf(self@) && -STAT_LIMIT <= v <= STAT_LIMIT ==> dm_wf(r@),
    {
        let mut r = self;
        match t {
            DamageType::Slashing => { r.slashing = v; }
            DamageType::Piercing => { r.piercing = v; }
            DamageType::Fire => { r.fire = v; }
            DamageType::Unholy => { r.unholy = v; }
            DamageType::Holy => { r.holy = v; }
        }
        r
    }

    /// The amount stored for `t`.
    pub fn get(&self, t: DamageType) -> (r: i64)
        ensures
            r == self@.get(t),
    {
        match t {
            DamageType::Slashing => self.slashing,
            DamageType::Piercing => self.piercing,
            DamageType::Fire => self.fire,
            DamageType::Unholy => self.unholy,
            DamageType::Holy => self.holy,
        }
    }

    /// Adds `o` key-wise into this table.
    pub fn add_assign(&mut self, o: &DamageMap)
        requires
            dm_fits(old(self)@, o@),
        ensures
            final(self)@ == old(self)@.add(o@),
    {
        self.slashing = self.slashing + o.slashing;
        self.piercing = self.piercing + o.piercing;
        self.fire = self.fire + o.fire;
        self.unholy = self.unholy + o.unholy;
        self.holy = self.holy + o.holy;
    }
}

/// One on-hit effect: when a projectile whose damage table has a positive
/// entry for the trigger type (or any projectile, for a `None` trigger)
/// strikes, the template is spawned carrying the effect's own damage table.
#[derive(Clone, Copy, Debug)]
pub struct OnHitEffect {
    pub trigger: Option<DamageType>,
    pub template: ProjectileTemplate,
    pub damage: DamageMap,
}

/// The mathematical value of an on-hit effect.
pub struct OnHitEffectV {
    pub trigger: Option<DamageType>,
    pub template: ProjectileTemplate,
    pub damage: DamageMapV,
}

impl View for OnHitEffect {
    type V = OnHitEffectV;

    open spec fn view(&self) -> OnHitEffectV {
        OnHitEffectV { trigger: self.trigger, template: self.template, damage: self.damage@ }
    }
}

pub open spec fn on_hit_effect_wf(e: OnHitEffectV) -> bool {
    &&& dm_wf(e.damage)
    &&& spec_template_wf(e.template)
}

/// The mathematical value of a stat bag.
#[verifier::ext_equal]
pub struct StatsV {
    pub move_speed: int,
    pub move_speed_mod: int,
    pub attack_delay: int,
    pub attack_delay_mod: int,
    pub roll_delay: int,
    pub roll_delay_mod: int,
    pub max_lives: int,
    pub lives: int,
    pub damage: DamageMapV,
    pub damage_modifiers: DamageMapV,
    pub on_hit_effects: Seq<OnHitEffectV>,
}

/// A bag of combat quantities. The `_mod` fields are fractional
/// multipliers against a baseline of one (`FX_ONE`), summed across
/// sources and applied exactly once per aggregation.
#[derive(Clone, Debug)]
pub struct Stats {
    pub move_speed: i64,
    pub move_speed_mod: i64,
    pub attack_delay: i64,
    pub attack_delay_mod: i64,
    pub roll_delay: i64,
    pub roll_delay_mod: i64,
    pub max_lives: u16,
    pub lives: u16,
    pub damage: DamageMap,
    pub damage_modifiers: DamageMap,
    pub on_hit_effects: Vec<OnHitEffect>,
}

impl View for Stats {
    type V = StatsV;

    open spec fn view(&self) -> StatsV {
        StatsV {
            move_speed: self.move_speed as int,
            move_speed_mod: self.move_speed_mod as int,
            attack_delay: self.attack_delay as int,
            attack_delay_mod: self.attack_delay_mod as int,
            roll_delay: self.roll_delay as int,
            roll_delay_mod: self.roll_delay_mod as int,
            max_lives: self.max_lives as int,
            lives: self.lives as int,
            damage: self.damage@,
            damage_modifiers: self.damage_modifiers@,
            on_hit_effects: self.on_hit_effects@.map_values(|e: OnHitEffect| e@),
        }
    }
}

/// The empty stat bag: the identity of `spec_merge`.
pub open spec fn spec_stats_default() -> StatsV {
    StatsV {
        move_speed: 0,
        move_speed_mod: 0,
        attack_delay: 0,
        attack_delay_mod: 0,
        roll_delay: 0,
        roll_delay_mod: 0,
        max_lives: 0,
        lives: 0,
        damage: DamageMapV::zero(),
        damage_modifiers: DamageMapV::zero(),
        on_hit_effects: Seq::empty(),
    }
}

/// Merging `b` into `a`: additive fields and damage tables sum key-wise,
/// on-hit effect lists concatenate. The two base quantities `move_speed`
/// and `roll_delay` belong to the holder and keep `a`'s value.
pub open spec fn spec_merge(a: StatsV, b: StatsV) -> StatsV {
    StatsV {
        move_speed: a.move_speed,
        move_speed_mod: a.move_speed_mod + b.move_speed_mod,
        attack_delay: a.attack_delay + b.attack_delay,
        attack_delay_mod: a.attack_delay_mod + b.attack_delay_mod,
        roll_delay: a.roll_delay,
        roll_delay_mod: a.roll_delay_mod + b.roll_delay_mod,
        max_lives: a.max_lives + b.max_lives,
        lives: a.lives + b.lives,
        damage: a.damage.add(b.damage),
        damage_modifiers: a.damage_modifiers.add(b.damage_modifiers),
        on_hit_effects: a.on_hit_effects + b.on_hit_effects,
    }
}

/// The percentage modifiers applied: each base quantity is multiplied by
/// one plus its accumulated modifier. Done exactly once per aggregation.
pub open spec fn spec_apply_modifiers(s: StatsV) -> StatsV {
    StatsV {
        move_speed: spec_fx_mul(s.move_speed, FX_ONE + s.move_speed_mod),
        attack_delay: spec_fx_mul(s.attack_delay, FX_ONE + s.attack_delay_mod),
        roll_delay: spec_fx_mul(s.roll_delay, FX_ONE + s.roll_delay_mod),
        ..s
    }
}

/// Every sum `spec_merge` forms fits in the machine types.
pub open spec fn merge_fits(a: StatsV, b: StatsV) -> bool {
    &&& i64::MIN <= a.move_speed_mod + b.move_speed_mod <= i64::MAX
    &&& i64::MIN <= a.attack_delay + b.attack_delay <= i64::MAX
    &&& i64::MIN <= a.attack_delay_mod + b.attack_delay_mod <= i64::MAX
    &&& i64::MIN <= a.roll_delay_mod + b.roll_delay_mod <= i64::MAX
    &&& a.max_lives + b.max_lives <= u16::MAX
    &&& a.lives + b.lives <= u16::MAX
    &&& dm_fits(a.damage, b.damage)
    &&& dm_fits(a.damage_modifiers, b.damage_modifiers)
}

/// The products `spec_apply_modifiers` forms fit in the machine type.
pub open spec fn modifiers_fit(s: StatsV) -> bool {
    &&& i64::MIN < FX_ONE + s.move_speed_mod <= i64::MAX
    &&& i64::MIN < FX_ONE + s.attack_delay_mod <= i64::MAX
    &&& i64::MIN < FX_ONE + s.roll_delay_mod <= i64::MAX
    &&& -0x7fff_ffff_ffff_ffff <= s.move_speed * (FX_ONE + s.move_speed_mod) <= 0x7fff_ffff_ffff_ffff
    &&& -0x7fff_ffff_ffff_ffff <= s.attack_delay * (FX_ONE + s.attack_delay_mod) <= 0x7fff_ffff_ffff_ffff
    &&& -0x7fff_ffff_ffff_ffff <= s.roll_delay * (FX_ONE + s.roll_delay_mod) <= 0x7fff_ffff_ffff_ffff
}

/// Bounds every well-formed stat source obeys; they keep a whole
/// aggregation pass clear of overflow.
pub open spec fn stats_wf(s: StatsV) -> bool {
    &&& -STAT_LIMIT <= s.move_speed <= STAT_LIMIT
    &&& -STAT_LIMIT <= s.move_speed_mod <= STAT_LIMIT
    &&& -STAT_LIMIT <= s.attack_delay <= STAT_LIMIT
    &&& -STAT_LIMIT <= s.attack_delay_mod <= STAT_LIMIT
    &&& -STAT_LIMIT <= s.roll_delay <= STAT_LIMIT
    &&& -STAT_LIMIT <= s.roll_delay_mod <= STAT_LIMIT
    &&& 0 <= s.max_lives <= LIFE_LIMIT
    &&& 0 <= s.lives <= LIFE_LIMIT
    &&& dm_wf(s.damage)
    &&& dm_wf(s.damage_modifiers)
    &&& forall|i: int|
        0 <= i < s.on_hit_effects.len() ==> on_hit_effect_wf(#[trigger] s.on_hit_effects[i])
}

impl Default for Stats {
    /// The empty stat bag.
    fn default() -> (r: Stats)
        ensures
            r@ == spec_stats_default(),
            stats_wf(r@),
    {
        let r = Stats {
            move_speed: 0,
            move_speed_mod: 0,
            attack_delay: 0,
            attack_delay_mod: 0,
            roll_delay: 0,
            roll_delay_mod: 0,
            max_lives: 0,
            lives: 0,
            damage: DamageMap::zero(),
            damage_modifiers: DamageMap::zero(),
            on_hit_effects: Vec::new(),
        };
        proof {
            assert(r@ =~= spec_stats_default());
        }
        r
    }
}

impl Stats {
    /// An exact copy.
    pub fn duplicate(&self) -> (r: Stats)
        ensures
            r@ == self@,
    {
        let mut effects: Vec<OnHitEffect> = Vec::new();
        let mut i: usize = 0;
        while i < self.on_hit_effects.len()
            invariant
                i <= self.on_hit_effects.len(),
                effects@ == self.on_hit_effects@.take(i as int),
            decreases self.on_hit_effects.len() - i,
        {
            effects.push(self.on_hit_effects[i]);
            proof {
                assert(effects@ =~= self.on_hit_effects@.take(i + 1));
            }
            i = i + 1;
        }
        let r = Stats {
            move_speed: self.move_speed,
            move_speed_mod: self.move_speed_mod,
            attack_delay: self.attack_delay,
            attack_delay_mod: self.attack_delay_mod,
            roll_delay: self.roll_delay,
            roll_delay_mod: self.roll_delay_mod,
            max_lives: self.max_lives,
            lives: self.lives,
            damage: self.damage,
            damage_modifiers: self.damage_modifiers,
            on_hit_effects: effects,
        };
        proof {
            assert(self.on_hit_effects@.take(self.on_hit_effects@.len() as int)
                =~= self.on_hit_effects@);
            assert(r@ =~= self@);
        }
        r
    }

    /// Merges `other` into this bag (see `spec_merge`).
    pub fn merge(&mut self, other: &Stats)
        requires
            merge_fits(old(self)@, other@),
        ensures
            final(self)@ == spec_merge(old(self)@, other@),
    {
        let ghost m = spec_merge(old(self)@, other@);
        self.move_speed_mod = self.move_speed_mod + other.move_speed_mod;
        self.attack_delay = self.attack_delay + other.attack_delay;
        self.attack_delay_mod = self.attack_delay_mod + other.attack_delay_mod;
        self.roll_delay_mod = self.roll_delay_mod + other.roll_delay_mod;
        self.max_lives = self.max_lives + other.max_lives;
        self.lives = self.lives + other.lives;
        self.damage.add_assign(&other.damage);
        self.damage_modifiers.add_assign(&other.damage_modifiers);
        let mut i: usize = 0;
        while i < other.on_hit_effects.len()
            invariant
                i <= other.on_hit_effects.len(),
                self.move_speed == m.move_speed,
                self.move_speed_mod == m.move_speed_mod,
                self.attack_delay == m.attack_delay,
                self.attack_delay_mod == m.attack_delay_mod,
                self.roll_delay == m.roll_delay,
                self.roll_delay_mod == m.roll_delay_mod,
                self.max_lives == m.max_lives,
                self.lives == m.lives,
                self@.damage == m.damage,
                self@.damage_modifiers == m.damage_modifiers,
                self.on_hit_effects@ == old(self).on_hit_effects@
                    + other.on_hit_effects@.take(i as int),
            decreases other.on_hit_effects.len() - i,
        {
            self.on_hit_effects.push(other.on_hit_effects[i]);
            proof {
                assert(self.on_hit_effects@ =~= old(self).on_hit_effects@
                    + other.on_hit_effects@.take(i + 1));
            }
            i = i + 1;
        }
        proof {
            assert(other.on_hit_effects@.take(other.on_hit_effects@.len() as int)
                =~= other.on_hit_effects@);
            assert(self@.on_hit_effects =~= m.on_hit_effects);
            assert(self@ =~= m);
        }
    }

    /// Applies the accumulated percentage modifiers (see
    /// `spec_apply_modifiers`). The aggregation pipeline calls this
    /// exactly once, after every source has been merged.
    pub fn apply_modifiers(&mut self)
        requires
            modifiers_fit(old(self)@),
        ensures
            final(self)@ == spec_apply_modifiers(old(self)@),
    {
        self.move_speed = fx_mul(self.move_speed, FX_ONE + self.move_speed_mod);
        self.attack_delay = fx_mul(self.attack_delay, FX_ONE + self.attack_delay_mod);
        self.roll_delay = fx_mul(self.roll_delay, FX_ONE + self.roll_delay_mod);
        proof {
            assert(self@ =~= spec_apply_modifiers(old(self)@));
        }
    }
}

/// Every entry of the table within `[-k, k]`.
pub open spec fn dm_bounded(d: DamageMapV, k: int) -> bool {
    &&& -k <= d.slashing <= k
    &&& -k <= d.piercing <= k
    &&& -k <= d.fire <= k
    &&& -k <= d.unholy <= k
    &&& -k <= d.holy <= k
}

/// Every numeric field within `[-k, k]` and both life counts within
/// `[0, l]`; the on-hit effects well formed.
pub open spec fn stats_bounded(s: StatsV, k: int, l: int) -> bool {
    &&& -k <= s.move_speed <= k
    &&& -k <= s.move_speed_mod <= k
    &&& -k <= s.attack_delay <= k
    &&& -k <= s.attack_delay_mod <= k
    &&& -k <= s.roll_delay <= k
    &&& -k <= s.roll_delay_mod <= k
    &&& 0 <= s.max_lives <= l
    &&& 0 <= s.lives <= l
    &&& dm_bounded(s.damage, k)
    &&& dm_bounded(s.damage_modifiers, k)
    &&& forall|i: int|
        0 <= i < s.on_hit_effects.len() ==> on_hit_effect_wf(#[trigger] s.on_hit_effects[i])
}

/// The bounds an aggregated stat bag obeys once its modifiers have been
/// applied: damage tables stay summed (small), while the three base
/// quantities have been multiplied once.
pub open spec fn stats_agg_wf(s: StatsV) -> bool {
    &&& -AGG_SCALAR_LIMIT <= s.move_speed <= AGG_SCALAR_LIMIT
    &&& -AGG_LIMIT <= s.move_speed_mod <= AGG_LIMIT
    &&& -AGG_SCALAR_LIMIT <= s.attack_delay <= AGG_SCALAR_LIMIT
    &&& -AGG_LIMIT <= s.attack_delay_mod <= AGG_LIMIT
    &&& -AGG_SCALAR_LIMIT <= s.roll_delay <= AGG_SCALAR_LIMIT
    &&& -AGG_LIMIT <= s.roll_delay_mod <= AGG_LIMIT
    &&& 0 <= s.max_lives <= u16::MAX
    &&& 0 <= s.lives <= u16::MAX
    &&& dm_bounded(s.damage, AGG_LIMIT as int)
    &&& dm_bounded(s.damage_modifiers, AGG_LIMIT as int)
    &&& forall|i: int|
        0 <= i < s.on_hit_effects.len() ==> on_hit_effect_wf(#[trigger] s.on_hit_effects[i])
}

/// A well-formed source is bounded by the source limits.
pub proof fn lemma_wf_bounded(s: StatsV)
    requires
        stats_wf(s),
    ensures
        stats_bounded(s, STAT_LIMIT as int, LIFE_LIMIT as int),
{
}

/// Merging adds the bounds of the two sides.
pub proof fn lemma_merge_bounded(a: StatsV, b: StatsV, ka: int, la: int, kb: int, lb: int)
    requires
        stats_bounded(a, ka, la),
        stats_bounded(b, kb, lb),
        ka + kb <= i64::MAX,
        la + lb <= u16::MAX,
        0 <= ka,
        0 <= kb,
    ensures
        merge_fits(a, b),
        stats_bounded(spec_merge(a, b), ka + kb, la + lb),
{
    let m = spec_merge(a, b);
    assert forall|i: int| 0 <= i < m.on_hit_effects.len()
        implies on_hit_effect_wf(#[trigger] m.on_hit_effects[i]) by {
        if i < a.on_hit_effects.len() {
            assert(m.on_hit_effects[i] == a.on_hit_effects[i]);
        } else {
            assert(m.on_hit_effects[i] == b.on_hit_effects[i - a.on_hit_effects.len()]);
        }
    }
}

/// Applying modifiers to a bag bounded by the aggregate limit gives an
/// aggregate-well-formed bag, and the products fit the machine.
pub proof fn lemma_apply_modifiers_bounded(s: StatsV, l: int)
    requires
        stats_bounded(s, AGG_LIMIT as int, l),
        0 <= l <= u16::MAX,
    ensures
        modifiers_fit(s),
        stats_agg_wf(spec_apply_modifiers(s)),
{
    lemma_fx_mul_agg(s.move_speed, FX_ONE + s.move_speed_mod);
    lemma_fx_mul_agg(s.attack_delay, FX_ONE + s.attack_delay_mod);
    lemma_fx_mul_agg(s.roll_delay, FX_ONE + s.roll_delay_mod);
}

/// A product of two aggregate-bounded factors fits the machine, and its
/// scaled-down value is below the scalar limit.
pub proof fn lemma_fx_mul_agg(a: int, b: int)
    requires
        -AGG_LIMIT <= a <= AGG_LIMIT,
        -AGG_LIMIT - FX_ONE <= b <= AGG_LIMIT + FX_ONE,
    ensures
        -0x7fff_ffff_ffff_ffff <= a * b <= 0x7fff_ffff_ffff_ffff,
        -AGG_SCALAR_LIMIT <= spec_fx_mul(a, b) <= AGG_SCALAR_LIMIT,
{
    let big = 4_100_000_000_000_000_000int;
    assert(-big <= a * b <= big) by (nonlinear_arith)
        requires
            -AGG_LIMIT <= a <= AGG_LIMIT,
            -AGG_LIMIT - FX_ONE <= b <= AGG_LIMIT + FX_ONE,
            big == 4_100_000_000_000_000_000int;
    vstd::arithmetic::div_mod::lemma_div_by_multiple(4_100_000_000_000_000int, FX_ONE as int);
    assert(big / (FX_ONE as int) == 4_100_000_000_000_000int);
    assert(0int / (FX_ONE as int) == 0) by (nonlinear_arith);
    let p = a * b;
    if p >= 0 {
        vstd::arithmetic::div_mod::lemma_div_is_ordered(p, big, FX_ONE as int);
        vstd::arithmetic::div_mod::lemma_div_is_ordered(0, p, FX_ONE as int);
    } else {
        vstd::arithmetic::div_mod::lemma_div_is_ordered(-p, big, FX_ONE as int);
        vstd::arithmetic::div_mod::lemma_div_is_ordered(0, -p, FX_ONE as int);
    }
}

/// Merging is associative: grouping does not matter when stat sources
/// are folded together.
pub proof fn lemma_merge_assoc(a: StatsV, b: StatsV, c: StatsV)
    ensures
        spec_merge(spec_merge(a, b), c) == spec_merge(a, spec_merge(b, c)),
{
    assert(spec_merge(spec_merge(a, b), c).on_hit_effects
        =~= spec_merge(a, spec_merge(b, c)).on_hit_effects);
    assert(spec_merge(spec_merge(a, b), c) =~= spec_merge(a, spec_merge(b, c)));
}

/// The empty bag is a right identity of merging.
pub proof fn lemma_merge_default(a: StatsV)
    ensures
        spec_merge(a, spec_stats_default()) == a,
{
    assert(spec_merge(a, spec_stats_default()).on_hit_effects =~= a.on_hit_effects);
    assert(spec_merge(a, spec_stats_default()) =~= a);
}

/// The empty bag is a left identity of merging, except that the holder's
/// base quantities are the empty bag's zeros.
pub proof fn lemma_merge_default_left(a: StatsV)
    ensures
        spec_merge(spec_stats_default(), a) == (StatsV { move_speed: 0, roll_delay: 0, ..a }),
{
    assert(spec_merge(spec_stats_default(), a).on_hit_effects =~= a.on_hit_effects);
    assert(spec_merge(spec_stats_default(), a) =~= (StatsV { move_speed: 0, roll_delay: 0, ..a }));
}

/// Merging two well-formed bags stays in range of the machine types.
pub proof fn lemma_wf_merge_fits(a: StatsV, b: StatsV)
    requires
        stats_wf(a),
        stats_wf(b),
    ensures
        merge_fits(a, b),
{
}

} // verus!

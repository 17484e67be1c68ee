//! Projectile templates: the immutable descriptions that weapons, enemy
//! firing patterns and on-hit chains instantiate live projectiles from.

use vstd::prelude::*;

verus! {

use crate::fx::{FX_ONE, Vec2Fx, Vec2V, spec_fx_mul, fx_mul};
use crate::stats::{Stats, StatsV, DamageMap, OnHitEffectV, stats_agg_wf};
use crate::utils::{SPEED_LIMIT, RADIUS_LIMIT, POS_LIMIT, PROJ_SPEED_LIMIT};

/// Which particle routine draws a projectile that has no sprite.
#[derive(Clone, Copy, PartialEq, Eq, Structural, Debug)]
pub enum ParticleKind {
    AcidPuddle,
    LightRay,
    StarExplosion,
    Fire,
    Hammer,
}

/// How a projectile is drawn: a spritesheet cell or a particle routine.
#[derive(Clone, Copy, PartialEq, Eq, Structural, Debug)]
pub enum DrawType {
    Sprite(i64, i64),
    Particle(ParticleKind),
}

/// The immutable description of a projectile: everything but the state
/// that changes while it flies.
#[derive(Clone, Copy, PartialEq, Eq, Structural, Debug)]
pub struct ProjectileTemplate {
    pub pos: Vec2Fx,
    pub origin: Vec2Fx,
    /// Flight direction, scaled to length `FX_ONE` when set.
    pub direction: Vec2Fx,
    pub speed: i64,
    /// Per-frame fraction by which the speed decays toward zero.
    pub drag: i64,
    pub draw_type: DrawType,
    pub player_owned: bool,
    pub boomerang: bool,
    /// Frames the projectile lives before it is removed.
    pub lifetime: u16,
    /// Collision radius.
    pub radius: i64,
}

/// Bounds every stored template obeys, generous enough that the per-tick
/// arithmetic cannot overflow.
pub open spec fn spec_template_wf(t: ProjectileTemplate) -> bool {
    &&& -POS_LIMIT <= t.pos.x <= POS_LIMIT
    &&& -POS_LIMIT <= t.pos.y <= POS_LIMIT
    &&& -POS_LIMIT <= t.origin.x <= POS_LIMIT
    &&& -POS_LIMIT <= t.origin.y <= POS_LIMIT
    &&& -FX_ONE <= t.direction.x <= FX_ONE
    &&& -FX_ONE <= t.direction.y <= FX_ONE
    &&& 0 <= t.speed <= SPEED_LIMIT
    &&& 0 <= t.drag <= FX_ONE
    &&& 0 <= t.radius <= RADIUS_LIMIT
}

/// The template every concrete projectile is a variation of: at rest at
/// the origin, six pixels of collision radius.
pub fn base_projectile() -> (r: ProjectileTemplate)
    ensures
        (r == ProjectileTemplate {
            pos: Vec2Fx { x: 0, y: 0 },
            origin: Vec2Fx { x: 0, y: 0 },
            direction: Vec2Fx { x: 0, y: 0 },
            speed: 0,
            drag: 0,
            draw_type: DrawType::Sprite(0, 0),
            player_owned: false,
            boomerang: false,
            lifetime: 0,
            radius: 6_000,
        }),
        spec_template_wf(r),
{
    ProjectileTemplate {
        pos: Vec2Fx { x: 0, y: 0 },
        origin: Vec2Fx { x: 0, y: 0 },
        direction: Vec2Fx { x: 0, y: 0 },
        speed: 0,
        drag: 0,
        draw_type: DrawType::Sprite(0, 0),
        player_owned: false,
        boomerang: false,
        lifetime: 0,
        radius: 6_000,
    }
}

/// A stationary, very long lived area hazard.
pub fn acid_puddle() -> (r: ProjectileTemplate)
    ensures
        (r == ProjectileTemplate {
            draw_type: DrawType::Particle(ParticleKind::AcidPuddle),
            lifetime: u16::MAX,
            radius: 12_000,
            ..base_projectile_spec()
        }),
        spec_template_wf(r),
{
    let mut r = base_projectile();
    r.draw_type = DrawType::Particle(ParticleKind::AcidPuddle);
    r.lifetime = u16::MAX;
    r.radius = 12_000;
    r
}

/// The value `base_projectile` returns, for use in contracts.
pub open spec fn base_projectile_spec() -> ProjectileTemplate {
    ProjectileTemplate {
        pos: Vec2Fx { x: 0, y: 0 },
        origin: Vec2Fx { x: 0, y: 0 },
        direction: Vec2Fx { x: 0, y: 0 },
        speed: 0,
        drag: 0,
        draw_type: DrawType::Sprite(0, 0),
        player_owned: false,
        boomerang: false,
        lifetime: 0,
        radius: 6_000,
    }
}

/// A slow bouncing glob fired by slime enemies.
pub fn slimeball() -> (r: ProjectileTemplate)
    ensures
        (r == ProjectileTemplate {
            speed: 800,
            draw_type: DrawType::Sprite(10_000, 0),
            lifetime: 120,
            ..base_projectile_spec()
        }),
        spec_template_wf(r),
{
    let mut r = base_projectile();
    r.speed = 800;
    r.draw_type = DrawType::Sprite(10_000, 0);
    r.lifetime = 120;
    r
}

/// A short melee arc with heavy drag.
pub fn slash() -> (r: ProjectileTemplate)
    ensures
        (r == ProjectileTemplate {
            speed: 5_000,
            drag: 150,
            draw_type: DrawType::Sprite(0, 0),
            lifetime: 20,
            ..base_projectile_spec()
        }),
        spec_template_wf(r),
{
    let mut r = base_projectile();
    r.speed = 5_000;
    r.drag = 150;
    r.lifetime = 20;
    r
}

/// A faster, darker melee arc.
pub fn dark_slash() -> (r: ProjectileTemplate)
    ensures
        (r == ProjectileTemplate {
            speed: 8_000,
            drag: 350,
            draw_type: DrawType::Sprite(9_000, 0),
            lifetime: 20,
            ..base_projectile_spec()
        }),
        spec_template_wf(r),
{
    let mut r = base_projectile();
    r.speed = 8_000;
    r.drag = 350;
    r.draw_type = DrawType::Sprite(9_000, 0);
    r.lifetime = 20;
    r
}

/// A slow, long lived fireball.
pub fn fireball() -> (r: ProjectileTemplate)
    ensures
        (r == ProjectileTemplate {
            speed: 2_000,
            draw_type: DrawType::Sprite(2_000, 0),
            lifetime: 140,
            ..base_projectile_spec()
        }),
        spec_template_wf(r),
{
    let mut r = base_projectile();
    r.speed = 2_000;
    r.draw_type = DrawType::Sprite(2_000, 0);
    r.lifetime = 140;
    r
}

/// A returning blade.
pub fn boomerang() -> (r: ProjectileTemplate)
    ensures
        (r == ProjectileTemplate {
            speed: 3_000,
            draw_type: DrawType::Sprite(12_000, 0),
            lifetime: 140,
            boomerang: true,
            ..base_projectile_spec()
        }),
        spec_template_wf(r),
{
    let mut r = base_projectile();
    r.speed = 3_000;
    r.draw_type = DrawType::Sprite(12_000, 0);
    r.lifetime = 140;
    r.boomerang = true;
    r
}

/// A fast arrow.
pub fn arrow() -> (r: ProjectileTemplate)
    ensures
        (r == ProjectileTemplate {
            speed: 7_000,
            draw_type: DrawType::Sprite(1_000, 0),
            lifetime: 80,
            ..base_projectile_spec()
        }),
        spec_template_wf(r),
{
    let mut r = base_projectile();
    r.speed = 7_000;
    r.draw_type = DrawType::Sprite(1_000, 0);
    r.lifetime = 80;
    r
}

/// The slower arrow enemy archers fire.
pub fn slow_arrow() -> (r: ProjectileTemplate)
    ensures
        (r == ProjectileTemplate {
            speed: 3_000,
            draw_type: DrawType::Sprite(1_000, 0),
            lifetime: 160,
            ..base_projectile_spec()
        }),
        spec_template_wf(r),
{
    let mut r = base_projectile();
    r.speed = 3_000;
    r.draw_type = DrawType::Sprite(1_000, 0);
    r.lifetime = 160;
    r
}

/// A short-range punch.
pub fn boxing_glove() -> (r: ProjectileTemplate)
    ensures
        (r == ProjectileTemplate {
            speed: 4_000,
            drag: 100,
            draw_type: DrawType::Sprite(3_000, 0),
            lifetime: 20,
            ..base_projectile_spec()
        }),
        spec_template_wf(r),
{
    let mut r = base_projectile();
    r.speed = 4_000;
    r.drag = 100;
    r.draw_type = DrawType::Sprite(3_000, 0);
    r.lifetime = 20;
    r
}

/// A fast ice shard.
pub fn icicle() -> (r: ProjectileTemplate)
    ensures
        (r == ProjectileTemplate {
            speed: 6_000,
            lifetime: 90,
            draw_type: DrawType::Sprite(4_000, 0),
            ..base_projectile_spec()
        }),
        spec_template_wf(r),
{
    let mut r = base_projectile();
    r.speed = 6_000;
    r.lifetime = 90;
    r.draw_type = DrawType::Sprite(4_000, 0);
    r
}

/// A slow orb of raw power.
pub fn power_orb() -> (r: ProjectileTemplate)
    ensures
        (r == ProjectileTemplate {
            speed: 2_000,
            lifetime: 60,
            draw_type: DrawType::Sprite(5_000, 0),
            ..base_projectile_spec()
        }),
        spec_template_wf(r),
{
    let mut r = base_projectile();
    r.speed = 2_000;
    r.lifetime = 60;
    r.draw_type = DrawType::Sprite(5_000, 0);
    r
}

/// The slower blue orb sorcerers fire.
pub fn blue_power_orb() -> (r: ProjectileTemplate)
    ensures
        (r == ProjectileTemplate {
            speed: 1_500,
            lifetime: 90,
            draw_type: DrawType::Sprite(11_000, 0),
            ..base_projectile_spec()
        }),
        spec_template_wf(r),
{
    let mut r = base_projectile();
    r.speed = 1_500;
    r.lifetime = 90;
    r.draw_type = DrawType::Sprite(11_000, 0);
    r
}

/// A near-instant beam.
pub fn light_ray() -> (r: ProjectileTemplate)
    ensures
        (r == ProjectileTemplate {
            speed: 16_000,
            lifetime: 6,
            draw_type: DrawType::Particle(ParticleKind::LightRay),
            ..base_projectile_spec()
        }),
        spec_template_wf(r),
{
    let mut r = base_projectile();
    r.speed = 16_000;
    r.lifetime = 6;
    r.draw_type = DrawType::Particle(ParticleKind::LightRay);
    r
}

/// The stationary burst a star shell leaves behind.
pub fn star_explosion() -> (r: ProjectileTemplate)
    ensures
        (r == ProjectileTemplate {
            speed: 0,
            lifetime: 15,
            radius: 12_000,
            draw_type: DrawType::Particle(ParticleKind::StarExplosion),
            ..base_projectile_spec()
        }),
        spec_template_wf(r),
{
    let mut r = base_projectile();
    r.lifetime = 15;
    r.radius = 12_000;
    r.draw_type = DrawType::Particle(ParticleKind::StarExplosion);
    r
}

/// The slow star shell itself.
pub fn star_bazooka() -> (r: ProjectileTemplate)
    ensures
        (r == ProjectileTemplate {
            speed: 2_000,
            lifetime: 160,
            draw_type: DrawType::Sprite(6_000, 0),
            ..base_projectile_spec()
        }),
        spec_template_wf(r),
{
    let mut r = base_projectile();
    r.speed = 2_000;
    r.lifetime = 160;
    r.draw_type = DrawType::Sprite(6_000, 0);
    r
}

/// A stationary lick of flame.
pub fn fire() -> (r: ProjectileTemplate)
    ensures
        (r == ProjectileTemplate {
            speed: 0,
            lifetime: 15,
            draw_type: DrawType::Particle(ParticleKind::Fire),
            ..base_projectile_spec()
        }),
        spec_template_wf(r),
{
    let mut r = base_projectile();
    r.lifetime = 15;
    r.draw_type = DrawType::Particle(ParticleKind::Fire);
    r
}

/// A very fast thrust with strong drag.
pub fn lance() -> (r: ProjectileTemplate)
    ensures
        (r == ProjectileTemplate {
            speed: 12_000,
            drag: 250,
            draw_type: DrawType::Sprite(7_000, 0),
            lifetime: 20,
            ..base_projectile_spec()
        }),
        spec_template_wf(r),
{
    let mut r = base_projectile();
    r.speed = 12_000;
    r.drag = 250;
    r.draw_type = DrawType::Sprite(7_000, 0);
    r.lifetime = 20;
    r
}

/// A rapid little dart with slight drag.
pub fn razor_dart() -> (r: ProjectileTemplate)
    ensures
        (r == ProjectileTemplate {
            speed: 6_000,
            drag: 50,
            draw_type: DrawType::Sprite(8_000, 0),
            lifetime: 40,
            ..base_projectile_spec()
        }),
        spec_template_wf(r),
{
    let mut r = base_projectile();
    r.speed = 6_000;
    r.drag = 50;
    r.draw_type = DrawType::Sprite(8_000, 0);
    r.lifetime = 40;
    r
}

} // verus!

use vstd::prelude::*;

verus! {

use crate::fx::spec_sat_add;

/// The mathematical value of a live projectile.
#[verifier::ext_equal]
pub struct ProjectileV {
    pub pos: Vec2V,
    pub origin: Vec2V,
    pub direction: Vec2V,
    pub speed: int,
    pub drag: int,
    pub draw_type: DrawType,
    pub player_owned: bool,
    pub boomerang: bool,
    pub life: int,
    pub lifetime: int,
    pub hit_enemies: Seq<usize>,
    pub parent_hit_enemies: Seq<usize>,
    pub stats: Option<StatsV>,
    pub radius: int,
}

/// A projectile in flight. `hit_enemies` records every enemy id this
/// projectile has already damaged; `parent_hit_enemies` carries the ids
/// struck anywhere earlier in its on-hit chain, so a chain never strikes
/// the same enemy twice.
#[derive(Clone, Debug)]
pub struct Projectile {
    pub pos: Vec2Fx,
    pub origin: Vec2Fx,
    pub direction: Vec2Fx,
    pub speed: i64,
    pub drag: i64,
    pub draw_type: DrawType,
    pub player_owned: bool,
    pub boomerang: bool,
    pub life: u16,
    pub lifetime: u16,
    pub hit_enemies: Vec<usize>,
    pub parent_hit_enemies: Vec<usize>,
    pub stats: Option<Stats>,
    pub radius: i64,
}

impl View for Projectile {
    type V = ProjectileV;

    open spec fn view(&self) -> ProjectileV {
        ProjectileV {
            pos: self.pos@,
            origin: self.origin@,
            direction: self.direction@,
            speed: self.speed as int,
            drag: self.drag as int,
            draw_type: self.draw_type,
            player_owned: self.player_owned,
            boomerang: self.boomerang,
            life: self.life as int,
            lifetime: self.lifetime as int,
            hit_enemies: self.hit_enemies@,
            parent_hit_enemies: self.parent_hit_enemies@,
            stats: match self.stats {
                Option::Some(ref s) => Option::Some(s@),
                Option::None => Option::None,
            },
            radius: self.radius as int,
        }
    }
}

/// Bounds every live projectile obeys between ticks.
pub open spec fn spec_proj_wf(p: ProjectileV) -> bool {
    &&& -POS_LIMIT <= p.pos.x <= POS_LIMIT
    &&& -POS_LIMIT <= p.pos.y <= POS_LIMIT
    &&& spec_proj_wf_core(p)
}

/// The bounds of `spec_proj_wf` that do not concern the position (the
/// motion step may leave the position outside the room until the caller
/// clamps or removes the projectile).
pub open spec fn spec_proj_wf_core(p: ProjectileV) -> bool {
    &&& -POS_LIMIT <= p.origin.x <= POS_LIMIT
    &&& -POS_LIMIT <= p.origin.y <= POS_LIMIT
    &&& -FX_ONE <= p.direction.x <= FX_ONE
    &&& -FX_ONE <= p.direction.y <= FX_ONE
    &&& 0 <= p.speed <= PROJ_SPEED_LIMIT
    &&& 0 <= p.drag <= FX_ONE
    &&& 0 <= p.radius <= RADIUS_LIMIT
    &&& match p.stats {
        Option::Some(s) => stats_agg_wf(s),
        Option::None => true,
    }
}

/// The projectile a template spawns: at the template's resting values,
/// no age, no recorded hits, no stat snapshot yet.
pub open spec fn spec_spawn(t: ProjectileTemplate) -> ProjectileV {
    ProjectileV {
        pos: t.pos@,
        origin: t.origin@,
        direction: t.direction@,
        speed: t.speed as int,
        drag: t.drag as int,
        draw_type: t.draw_type,
        player_owned: t.player_owned,
        boomerang: t.boomerang,
        life: 0,
        lifetime: t.lifetime as int,
        hit_enemies: Seq::empty(),
        parent_hit_enemies: Seq::empty(),
        stats: Option::None,
        radius: t.radius as int,
    }
}

/// One tick of flight: the position advances along the direction by the
/// speed, the speed decays toward zero by the drag fraction, and the age
/// grows by one (saturating at the machine limit).
pub open spec fn spec_proj_step(p: ProjectileV) -> ProjectileV {
    ProjectileV {
        pos: p.pos.add(p.direction.scale_fx(p.speed)),
        speed: spec_fx_mul(p.speed, FX_ONE - p.drag),
        life: spec_sat_u16(p.life + 1),
        ..p
    }
}

/// A value clamped into the `u16` range from above.
pub open spec fn spec_sat_u16(v: int) -> int {
    if v > u16::MAX {
        u16::MAX as int
    } else {
        v
    }
}

/// Whether the on-hit effect `e` of a projectile whose stat snapshot is
/// `s` fires: always for a `None` trigger, else only when the snapshot's
/// own damage table has a positive entry for the trigger type.
pub open spec fn spec_triggered(s: StatsV, e: OnHitEffectV) -> bool {
    match e.trigger {
        Option::None => true,
        Option::Some(t) => s.damage.get(t) > 0,
    }
}

/// The chained projectile an on-hit effect spawns from parent `p` with
/// snapshot `s`: the effect's template, launched from the parent's
/// position along the parent's direction, player-owned, carrying the
/// parent's snapshot with the damage table replaced by the effect's own
/// isolated table, and a parent hit list holding every id the chain has
/// struck so far.
pub open spec fn spec_chain_child(p: ProjectileV, s: StatsV, e: OnHitEffectV) -> ProjectileV {
    ProjectileV {
        pos: p.pos,
        origin: p.origin,
        direction: p.direction,
        speed: e.template.speed as int,
        drag: e.template.drag as int,
        draw_type: e.template.draw_type,
        player_owned: true,
        boomerang: e.template.boomerang,
        life: 0,
        lifetime: e.template.lifetime as int,
        hit_enemies: Seq::empty(),
        parent_hit_enemies: p.parent_hit_enemies + p.hit_enemies,
        stats: Option::Some(StatsV { damage: e.damage, ..s }),
        radius: e.template.radius as int,
    }
}

/// The projectiles the effects `effects` spawn, in order: one child per
/// triggered effect.
pub open spec fn spec_on_hit_chain(p: ProjectileV, s: StatsV, effects: Seq<OnHitEffectV>)
    -> Seq<ProjectileV>
    decreases effects.len(),
{
    if effects.len() == 0 {
        Seq::empty()
    } else {
        spec_on_hit_chain(p, s, effects.drop_last()) + (if spec_triggered(s, effects.last()) {
            seq![spec_chain_child(p, s, effects.last())]
        } else {
            Seq::empty()
        })
    }
}

/// What `on_hit` returns: nothing without a stat snapshot, else one
/// child per triggered on-hit effect of the snapshot.
pub open spec fn spec_on_hit(p: ProjectileV) -> Seq<ProjectileV> {
    match p.stats {
        Option::None => Seq::empty(),
        Option::Some(s) => spec_on_hit_chain(p, s, s.on_hit_effects),
    }
}

/// An exact copy of a list of enemy ids.
fn copy_ids(v: &Vec<usize>) -> (r: Vec<usize>)
    ensures
        r@ == v@,
{
    let mut r: Vec<usize> = Vec::new();
    let mut i: usize = 0;
    while i < v.len()
        invariant
            i <= v.len(),
            r@ == v@.take(i as int),
        decreases v.len() - i,
    {
        r.push(v[i]);
        proof {
            assert(r@ =~= v@.take(i + 1));
        }
        i = i + 1;
    }
    proof {
        assert(v@.take(v@.len() as int) =~= v@);
    }
    r
}

impl Projectile {
    /// A fresh projectile from a template.
    pub fn from_template(t: &ProjectileTemplate) -> (r: Projectile)
        ensures
            r@ == spec_spawn(*t),
            spec_template_wf(*t) ==> spec_proj_wf(r@),
    {
        let r = Projectile {
            pos: t.pos,
            origin: t.origin,
            direction: t.direction,
            speed: t.speed,
            drag: t.drag,
            draw_type: t.draw_type,
            player_owned: t.player_owned,
            boomerang: t.boomerang,
            life: 0,
            lifetime: t.lifetime,
            hit_enemies: Vec::new(),
            parent_hit_enemies: Vec::new(),
            stats: Option::None,
            radius: t.radius,
        };
        proof {
            assert(r@ =~= spec_spawn(*t));
        }
        r
    }

    /// An exact copy.
    pub fn duplicate(&self) -> (r: Projectile)
        ensures
            r@ == self@,
    {
        let stats = match &self.stats {
            Option::Some(s) => Option::Some(s.duplicate()),
            Option::None => Option::None,
        };
        let r = Projectile {
            pos: self.pos,
            origin: self.origin,
            direction: self.direction,
            speed: self.speed,
            drag: self.drag,
            draw_type: self.draw_type,
            player_owned: self.player_owned,
            boomerang: self.boomerang,
            life: self.life,
            lifetime: self.lifetime,
            hit_enemies: copy_ids(&self.hit_enemies),
            parent_hit_enemies: copy_ids(&self.parent_hit_enemies),
            stats,
            radius: self.radius,
        };
        proof {
            assert(r@ =~= self@);
        }
        r
    }

    /// Advances the projectile one tick of flight (see `spec_proj_step`).
    /// The position may leave the well-formed range by at most one tick
    /// of travel; the caller clamps or removes the projectile.
    pub fn step_motion(&mut self)
        requires
            spec_proj_wf(old(self)@),
        ensures
            final(self)@ == spec_proj_step(old(self)@),
            spec_proj_wf_core(final(self)@),
            -POS_LIMIT - PROJ_SPEED_LIMIT <= final(self)@.pos.x <= POS_LIMIT + PROJ_SPEED_LIMIT,
            -POS_LIMIT - PROJ_SPEED_LIMIT <= final(self)@.pos.y <= POS_LIMIT + PROJ_SPEED_LIMIT,
    {
        proof {
            assert(-0x7fff_ffff_ffff_ffff <= self.direction.x * self.speed
                <= 0x7fff_ffff_ffff_ffff) by (nonlinear_arith)
                requires
                    -FX_ONE <= self.direction.x <= FX_ONE,
                    0 <= self.speed <= PROJ_SPEED_LIMIT;
            assert(-0x7fff_ffff_ffff_ffff <= self.direction.y * self.speed
                <= 0x7fff_ffff_ffff_ffff) by (nonlinear_arith)
                requires
                    -FX_ONE <= self.direction.y <= FX_ONE,
                    0 <= self.speed <= PROJ_SPEED_LIMIT;
        }
        let delta = self.direction.scale(self.speed);
        proof {
            lemma_fx_mul_small(self.direction.x as int, self.speed as int);
            lemma_fx_mul_small(self.direction.y as int, self.speed as int);
        }
        self.pos = self.pos.add(delta);
        proof {
            assert(0 <= self.speed * (FX_ONE - self.drag) <= 0x7fff_ffff_ffff_ffff)
                by (nonlinear_arith)
                requires
                    0 <= self.speed <= PROJ_SPEED_LIMIT,
                    0 <= FX_ONE - self.drag <= FX_ONE;
            lemma_fx_mul_decay(self.speed as int, self.drag as int);
        }
        self.speed = fx_mul(self.speed, FX_ONE - self.drag);
        self.life = self.life.saturating_add(1);
        proof {
            assert(self@ =~= spec_proj_step(old(self)@));
        }
    }

    /// The chained projectiles this projectile spawns when it strikes a
    /// wall or an enemy (see `spec_on_hit`). A chained projectile's
    /// parent hit list starts with every id the parent's chain has
    /// struck, so one chain of events cannot strike an enemy twice.
    pub fn on_hit(&self) -> (r: Vec<Projectile>)
        ensures
            r@.map_values(|q: Projectile| q@) == spec_on_hit(self@),
            spec_proj_wf(self@) ==> forall|i: int|
                0 <= i < r@.len() ==> spec_proj_wf(#[trigger] r@[i]@),
            forall|i: int| 0 <= i < r@.len() ==> (#[trigger] r@[i])@.pos == self@.pos,
            spec_proj_wf_core(self@) ==> forall|i: int|
                0 <= i < r@.len() ==> spec_proj_wf_core(#[trigger] r@[i]@),
    {
        let mut out: Vec<Projectile> = Vec::new();
        let stats = match &self.stats {
            Option::Some(s) => s,
            Option::None => {
                proof {
                    assert(out@.map_values(|q: Projectile| q@) =~= spec_on_hit(self@));
                }
                return out;
            }
        };
        let ghost sv = stats@;
        let mut i: usize = 0;
        while i < stats.on_hit_effects.len()
            invariant
                i <= stats.on_hit_effects.len(),
                stats@ == sv,
                self@.stats == Option::Some(sv),
                sv.on_hit_effects.len() == stats.on_hit_effects@.len(),
                out@.map_values(|q: Projectile| q@)
                    == spec_on_hit_chain(self@, sv, sv.on_hit_effects.take(i as int)),
                spec_proj_wf(self@) ==> forall|j: int|
                    0 <= j < out@.len() ==> spec_proj_wf(#[trigger] out@[j]@),
                forall|j: int| 0 <= j < out@.len() ==> (#[trigger] out@[j])@.pos == self@.pos,
                spec_proj_wf_core(self@) ==> forall|j: int|
                    0 <= j < out@.len() ==> spec_proj_wf_core(#[trigger] out@[j]@),
            decreases stats.on_hit_effects.len() - i,
        {
            let e = &stats.on_hit_effects[i];
            let triggered = match &e.trigger {
                Option::None => true,
                Option::Some(t) => stats.damage.get(*t) > 0,
            };
            if triggered {
                let mut parent_hits = copy_ids(&self.parent_hit_enemies);
                let mut own_hits = copy_ids(&self.hit_enemies);
                parent_hits.append(&mut own_hits);
                let mut child_stats = stats.duplicate();
                child_stats.damage = e.damage;
                let child = Projectile {
                    pos: self.pos,
                    origin: self.origin,
                    direction: self.direction,
                    speed: e.template.speed,
                    drag: e.template.drag,
                    draw_type: e.template.draw_type,
                    player_owned: true,
                    boomerang: e.template.boomerang,
                    life: 0,
                    lifetime: e.template.lifetime,
                    hit_enemies: Vec::new(),
                    parent_hit_enemies: parent_hits,
                    stats: Option::Some(child_stats),
                    radius: e.template.radius,
                };
                proof {
                    assert(child@ =~= spec_chain_child(self@, sv, sv.on_hit_effects[i as int]));
                }
                out.push(child);
            }
            proof {
                let effects = sv.on_hit_effects;
                assert(i + 1 <= effects.len());
                assert(effects.take(i + 1).drop_last() =~= effects.take(i as int));
                assert(effects.take(i + 1).last() == effects[i as int]);
                assert(out@.map_values(|q: Projectile| q@)
                    =~= spec_on_hit_chain(self@, sv, effects.take(i + 1)));
            }
            i = i + 1;
        }
        proof {
            assert(sv.on_hit_effects.take(sv.on_hit_effects.len() as int) =~= sv.on_hit_effects);
        }
        out
    }
}

/// A fixed-point product of a unit-bounded factor and a speed stays a
/// valid one-tick travel distance.
proof fn lemma_fx_mul_small(d: int, s: int)
    requires
        -FX_ONE <= d <= FX_ONE,
        0 <= s <= PROJ_SPEED_LIMIT,
    ensures
        -PROJ_SPEED_LIMIT <= spec_fx_mul(d, s) <= PROJ_SPEED_LIMIT,
{
    assert(-FX_ONE * PROJ_SPEED_LIMIT <= d * s <= FX_ONE * PROJ_SPEED_LIMIT) by (nonlinear_arith)
        requires
            -FX_ONE <= d <= FX_ONE,
            0 <= s <= PROJ_SPEED_LIMIT;
    vstd::arithmetic::div_mod::lemma_div_by_multiple(PROJ_SPEED_LIMIT as int, FX_ONE as int);
    let p = d * s;
    if p >= 0 {
        vstd::arithmetic::div_mod::lemma_div_is_ordered(p, FX_ONE * PROJ_SPEED_LIMIT, FX_ONE as int);
        vstd::arithmetic::div_mod::lemma_div_is_ordered(0, p, FX_ONE as int);
        assert(0int / (FX_ONE as int) == 0) by (nonlinear_arith);
        assert(FX_ONE * PROJ_SPEED_LIMIT == PROJ_SPEED_LIMIT * FX_ONE);
    } else {
        vstd::arithmetic::div_mod::lemma_div_is_ordered(-p, FX_ONE * PROJ_SPEED_LIMIT, FX_ONE as int);
        vstd::arithmetic::div_mod::lemma_div_is_ordered(0, -p, FX_ONE as int);
        assert(0int / (FX_ONE as int) == 0) by (nonlinear_arith);
        assert(FX_ONE * PROJ_SPEED_LIMIT == PROJ_SPEED_LIMIT * FX_ONE);
    }
}

/// Speed decay keeps the speed within its old bounds.
proof fn lemma_fx_mul_decay(s: int, drag: int)
    requires
        0 <= s <= PROJ_SPEED_LIMIT,
        0 <= drag <= FX_ONE,
    ensures
        0 <= spec_fx_mul(s, FX_ONE - drag) <= s,
{
    let p = s * (FX_ONE - drag);
    assert(0 <= s * (FX_ONE - drag) <= s * FX_ONE) by (nonlinear_arith)
        requires
            0 <= s,
            0 <= FX_ONE - drag <= FX_ONE;
    vstd::arithmetic::div_mod::lemma_div_is_ordered(p, s * FX_ONE, FX_ONE as int);
    vstd::arithmetic::div_mod::lemma_div_is_ordered(0, p, FX_ONE as int);
    assert(0int / (FX_ONE as int) == 0) by (nonlinear_arith);
    vstd::arithmetic::div_mod::lemma_div_by_multiple(s, FX_ONE as int);
}

} // verus!

//! Room generation: layout grids decoded from pixel-exact RGBA data,
//! per-biome enemy tier tables, and the generator that turns a layout
//! plus tier tables into a concrete set of spawned enemies.

use vstd::prelude::*;

verus! {

use crate::enemy::{Enemy, EnemyV, EnemyType, EnemyTypeV, EnemyTier, spec_enemy_type_wf,
    spec_enemy_new, spec_enemy_wf};
use crate::fx::{Vec2Fx, Vec2V};
use crate::rng::{GameRng, spec_rng_next, spec_select, select_random};
use crate::utils::{TILES_WIDTH, TILES_HEIGHT, SCREEN_WIDTH, OTHER_CHANCE, ENEMY_POS_LIMIT};

/// One room grid: an optional tier tag for each of the
/// `TILES_WIDTH x TILES_HEIGHT` cells, row-major.
#[derive(Debug)]
pub struct Layout {
    pub cells: Vec<Option<EnemyTier>>,
}

impl View for Layout {
    type V = Seq<Option<EnemyTier>>;

    open spec fn view(&self) -> Seq<Option<EnemyTier>> {
        self.cells@
    }
}

pub open spec fn spec_layout_wf(l: Seq<Option<EnemyTier>>) -> bool {
    l.len() == TILES_WIDTH * TILES_HEIGHT
}

/// Why a layout bitmap was rejected.
#[derive(Clone, Copy, PartialEq, Eq, Structural, Debug)]
pub enum LayoutError {
    /// The bytes are not a decodable image.
    BadImage,
    /// The width is not the tile-grid width, or the height is not an
    /// exact multiple of the tile-grid height.
    BadDimensions,
    /// The pixel data is not exactly four bytes per pixel.
    BadBufferLength,
    /// A pixel holds none of the tier-encoding colors.
    BadPixel,
}

/// The tier tag a pixel encodes, or nothing for an unknown color.
/// Black is an empty cell; white, blue, yellow and red are the four
/// spawning tiers. Every color is matched exactly, alpha included.
pub open spec fn spec_tier_of_pixel(r: u8, g: u8, b: u8, a: u8) -> Option<Option<EnemyTier>> {
    if a != 255 {
        Option::None
    } else if r == 0 && g == 0 && b == 0 {
        Option::Some(Option::None)
    } else if r == 255 && g == 255 && b == 255 {
        Option::Some(Option::Some(EnemyTier::Light))
    } else if r == 0 && g == 0 && b == 255 {
        Option::Some(Option::Some(EnemyTier::Heavy))
    } else if r == 255 && g == 255 && b == 0 {
        Option::Some(Option::Some(EnemyTier::Ranged))
    } else if r == 255 && g == 0 && b == 0 {
        Option::Some(Option::Some(EnemyTier::Miniboss))
    } else {
        Option::None
    }
}

/// The tier tag of the cell `(x, y)` of an RGBA buffer `w` pixels wide.
pub open spec fn spec_cell_of_pixels(pixels: Seq<u8>, w: int, x: int, y: int)
    -> Option<Option<EnemyTier>> {
    let base = 4 * (y * w + x);
    spec_tier_of_pixel(pixels[base], pixels[base + 1], pixels[base + 2], pixels[base + 3])
}

/// Whether a whole RGBA buffer decodes: right width, a height that is a
/// whole number of room grids, four bytes per pixel, and every pixel
/// one of the tier-encoding colors.
pub open spec fn spec_pixels_decodable(width: int, height: int, pixels: Seq<u8>) -> bool {
    &&& width == TILES_WIDTH
    &&& height % (TILES_HEIGHT as int) == 0
    &&& pixels.len() == 4 * width * height
    &&& forall|x: int, y: int| 0 <= x < width && 0 <= y < height
        ==> #[trigger] spec_cell_of_pixels(pixels, width, x, y) is Some
}

/// Decodes a stack of room layouts from raw RGBA pixel data: the image
/// must be exactly the tile grid's width, its height a whole multiple
/// of the tile grid's height (one layout per slice), and every pixel
/// one of the tier-encoding colors. Anything else is a fatal decode
/// error, reported rather than returned half-done.
#[verifier::loop_isolation(false)]
#[verifier::rlimit(50)]
pub fn decode_layouts(width: usize, height: usize, pixels: &Vec<u8>)
    -> (r: Result<Vec<Layout>, LayoutError>)
    requires
        width * height <= 0x1000_0000,
    ensures
        r is Ok <==> spec_pixels_decodable(width as int, height as int, pixels@),
        (r matches Ok(ls) ==> {
            &&& ls@.len() == height as int / TILES_HEIGHT as int
            &&& forall|k: int| 0 <= k < ls@.len() ==> spec_layout_wf((#[trigger] ls@[k])@)
            &&& forall|k: int, x: int, y: int|
                0 <= k < ls@.len() && 0 <= x < TILES_WIDTH && 0 <= y < TILES_HEIGHT
                    ==> (#[trigger] ls@[k]@[y * TILES_WIDTH + x])
                        == spec_cell_of_pixels(pixels@, width as int, x,
                            k * TILES_HEIGHT + y)->Some_0
        }),
{
    if width != TILES_WIDTH {
        return Result::Err(LayoutError::BadDimensions);
    }
    if height % TILES_HEIGHT != 0 {
        return Result::Err(LayoutError::BadDimensions);
    }
    let expected: usize = 4 * (width * height);
    proof {
        assert(expected as int == 4 * (width as int) * (height as int)) by (nonlinear_arith)
            requires expected as int == 4 * ((width as int) * (height as int));
    }
    if pixels.len() != expected {
        return Result::Err(LayoutError::BadBufferLength);
    }
    let groups: usize = height / TILES_HEIGHT;
    let mut layouts: Vec<Layout> = Vec::new();
    let mut k: usize = 0;
    while k < groups
        invariant
            k <= groups,
            layouts@.len() == k,
            forall|j: int| 0 <= j < k ==> spec_layout_wf((#[trigger] layouts@[j])@),
            forall|j: int, x: int, y: int|
                0 <= j < k && 0 <= x < TILES_WIDTH && 0 <= y < TILES_HEIGHT
                    ==> (#[trigger] layouts@[j]@[y * TILES_WIDTH + x])
                        == spec_cell_of_pixels(pixels@, width as int, x,
                            j * TILES_HEIGHT + y)->Some_0,
            forall|x: int, y: int| 0 <= x < width && 0 <= y < k * TILES_HEIGHT
                ==> #[trigger] spec_cell_of_pixels(pixels@, width as int, x, y) is Some,
        decreases groups - k,
    {
        let mut cells: Vec<Option<EnemyTier>> = Vec::new();
        let mut i: usize = 0;
        while i < TILES_WIDTH * TILES_HEIGHT
            invariant
                i <= TILES_WIDTH * TILES_HEIGHT,
                k < groups,
                cells@.len() == i,
                forall|j: int| 0 <= j < i ==> (#[trigger] cells@[j])
                    == spec_cell_of_pixels(pixels@, width as int, j % (TILES_WIDTH as int),
                        k * TILES_HEIGHT + j / (TILES_WIDTH as int))->Some_0,
                forall|j: int| 0 <= j < i
                    ==> #[trigger] spec_cell_of_pixels(pixels@, width as int,
                        j % (TILES_WIDTH as int),
                        k * TILES_HEIGHT + j / (TILES_WIDTH as int)) is Some,
            decreases TILES_WIDTH * TILES_HEIGHT - i,
        {
            let x: usize = i % TILES_WIDTH;
            let y: usize = k * TILES_HEIGHT + i / TILES_WIDTH;
            proof {
                assert(y < height) by (nonlinear_arith)
                    requires
                        k < groups,
                        groups == height as int / TILES_HEIGHT as int,
                        height as int % TILES_HEIGHT as int == 0,
                        y as int == k as int * TILES_HEIGHT + i as int / (TILES_WIDTH as int),
                        i < TILES_WIDTH * TILES_HEIGHT,
                        x as int == i as int % (TILES_WIDTH as int);
                assert(4 * ((y as int) * (width as int) + x as int) + 3
                    < pixels@.len()) by (nonlinear_arith)
                    requires
                        pixels@.len() == 4 * (width as int) * (height as int),
                        0 <= x < width,
                        0 <= y < height;
            }
            let base: usize = 4 * (y * width + x);
            let pr = pixels[base];
            let pg = pixels[base + 1];
            let pb = pixels[base + 2];
            let pa = pixels[base + 3];
            let decoded: Option<Option<EnemyTier>> = if pa != 255 {
                Option::None
            } else if pr == 0 && pg == 0 && pb == 0 {
                Option::Some(Option::None)
            } else if pr == 255 && pg == 255 && pb == 255 {
                Option::Some(Option::Some(EnemyTier::Light))
            } else if pr == 0 && pg == 0 && pb == 255 {
                Option::Some(Option::Some(EnemyTier::Heavy))
            } else if pr == 255 && pg == 255 && pb == 0 {
                Option::Some(Option::Some(EnemyTier::Ranged))
            } else if pr == 255 && pg == 0 && pb == 0 {
                Option::Some(Option::Some(EnemyTier::Miniboss))
            } else {
                Option::None
            };
            match decoded {
                Option::Some(cell) => {
                    cells.push(cell);
                }
                Option::None => {
                    proof {
                        assert(pixels@[4 * ((y as int) * (width as int) + x as int)] == pr);
                        assert(spec_cell_of_pixels(pixels@, width as int, x as int, y as int)
                            is None);
                        assert(!spec_pixels_decodable(width as int, height as int, pixels@));
                    }
                    return Result::Err(LayoutError::BadPixel);
                }
            }
            i = i + 1;
        }
        layouts.push(Layout { cells });
        proof {
            assert forall|x: int, y: int| 0 <= x < width && 0 <= y < (k + 1) * TILES_HEIGHT
                implies #[trigger] spec_cell_of_pixels(pixels@, width as int, x, y) is Some by {
                if y >= k * TILES_HEIGHT {
                    let j = (y - k * TILES_HEIGHT) * TILES_WIDTH + x;
                    assert(j % (TILES_WIDTH as int) == x
                        && j / (TILES_WIDTH as int) == y - k * TILES_HEIGHT
                        && 0 <= j < TILES_WIDTH * TILES_HEIGHT)
                        by (nonlinear_arith)
                        requires
                            0 <= x < TILES_WIDTH,
                            j == (y - k * TILES_HEIGHT) * TILES_WIDTH + x,
                            0 <= y - k * TILES_HEIGHT < TILES_HEIGHT;
                    assert(spec_cell_of_pixels(pixels@, width as int, j % (TILES_WIDTH as int),
                        k * TILES_HEIGHT + j / (TILES_WIDTH as int)) is Some);
                }
            }
            assert forall|j: int, x: int, y: int|
                0 <= j < k + 1 && 0 <= x < TILES_WIDTH && 0 <= y < TILES_HEIGHT
                implies (#[trigger] layouts@[j]@[y * TILES_WIDTH + x])
                    == spec_cell_of_pixels(pixels@, width as int, x,
                        j * TILES_HEIGHT + y)->Some_0 by {
                if j == k {
                    let idx = y * TILES_WIDTH + x;
                    assert(0 <= idx < TILES_WIDTH * TILES_HEIGHT) by (nonlinear_arith)
                        requires
                            0 <= x < TILES_WIDTH,
                            0 <= y < TILES_HEIGHT,
                            idx == y * TILES_WIDTH + x;
                    assert(idx % (TILES_WIDTH as int) == x
                        && idx / (TILES_WIDTH as int) == y) by (nonlinear_arith)
                        requires
                            0 <= x < TILES_WIDTH,
                            idx == y * TILES_WIDTH + x;
                    assert(cells@[idx] == spec_cell_of_pixels(pixels@, width as int,
                        idx % (TILES_WIDTH as int),
                        k * TILES_HEIGHT + idx / (TILES_WIDTH as int))->Some_0);
                }
            }
        }
        k = k + 1;
    }
    proof {
        assert(k * TILES_HEIGHT == height) by (nonlinear_arith)
            requires
                k == height as int / TILES_HEIGHT as int,
                height as int % TILES_HEIGHT as int == 0;
    }
    Result::Ok(layouts)
}

/// A biome's tier tables: the enemy types each tier of a layout can
/// draw from. Loaded once, never mutated.
pub struct World {
    pub light: Vec<EnemyType>,
    pub heavy: Vec<EnemyType>,
    pub ranged: Vec<EnemyType>,
    pub other: Vec<EnemyType>,
    pub miniboss: Vec<EnemyType>,
}

/// The mathematical value of a biome's tables.
pub struct WorldV {
    pub light: Seq<EnemyTypeV>,
    pub heavy: Seq<EnemyTypeV>,
    pub ranged: Seq<EnemyTypeV>,
    pub other: Seq<EnemyTypeV>,
    pub miniboss: Seq<EnemyTypeV>,
}

impl View for World {
    type V = WorldV;

    open spec fn view(&self) -> WorldV {
        WorldV {
            light: self.light@.map_values(|t: EnemyType| t@),
            heavy: self.heavy@.map_values(|t: EnemyType| t@),
            ranged: self.ranged@.map_values(|t: EnemyType| t@),
            other: self.other@.map_values(|t: EnemyType| t@),
            miniboss: self.miniboss@.map_values(|t: EnemyType| t@),
        }
    }
}

/// Well-formed tables: every type well formed, and the four tiers a
/// layout can ask for each offering at least one type.
pub open spec fn spec_world_wf(w: WorldV) -> bool {
    &&& w.light.len() >= 1
    &&& w.heavy.len() >= 1
    &&& w.ranged.len() >= 1
    &&& w.miniboss.len() >= 1
    &&& forall|i: int| 0 <= i < w.light.len() ==> spec_enemy_type_wf(#[trigger] w.light[i])
    &&& forall|i: int| 0 <= i < w.heavy.len() ==> spec_enemy_type_wf(#[trigger] w.heavy[i])
    &&& forall|i: int| 0 <= i < w.ranged.len() ==> spec_enemy_type_wf(#[trigger] w.ranged[i])
    &&& forall|i: int| 0 <= i < w.other.len() ==> spec_enemy_type_wf(#[trigger] w.other[i])
    &&& forall|i: int| 0 <= i < w.miniboss.len() ==> spec_enemy_type_wf(#[trigger] w.miniboss[i])
}

} // verus!

verus! {

/// The concrete types a row of the layout draws from: one per tier,
/// re-rolled row by row.
pub struct SpawnTypesV {
    pub light: EnemyTypeV,
    pub heavy: EnemyTypeV,
    pub ranged: EnemyTypeV,
    pub miniboss: EnemyTypeV,
}

/// One roll of the row types: four draws, one per tier, in a fixed
/// order.
pub open spec fn spec_roll_types(w: WorldV, rng: u64) -> (SpawnTypesV, u64) {
    let l = spec_select(w.light, rng);
    let h = spec_select(w.heavy, l.1);
    let ra = spec_select(w.ranged, h.1);
    let m = spec_select(w.miniboss, ra.1);
    (SpawnTypesV { light: l.0, heavy: h.0, ranged: ra.0, miniboss: m.0 }, m.1)
}

/// The generator state while walking a layout's cells.
#[verifier::ext_equal]
pub struct SpawnStateV {
    pub types: SpawnTypesV,
    pub last_row: int,
    pub rng: u64,
    pub enemies: Seq<EnemyV>,
}

/// The type a tier tag picks from the row's rolled types.
pub open spec fn spec_type_of_tier(t: SpawnTypesV, tier: EnemyTier) -> EnemyTypeV {
    match tier {
        EnemyTier::Light => t.light,
        EnemyTier::Heavy => t.heavy,
        EnemyTier::Ranged => t.ranged,
        EnemyTier::Miniboss => t.miniboss,
        EnemyTier::Extra => t.miniboss,
    }
}

/// Walks the layout cells from `i` on: every tagged cell spawns one
/// enemy of the row's type for that tier at the cell's tile center,
/// and the row types are re-rolled whenever the row changes (all
/// enemies of one row share one concrete type per tier).
pub open spec fn spec_spawn_cells(
    w: WorldV,
    cells: Seq<Option<EnemyTier>>,
    i: int,
    st: SpawnStateV,
) -> SpawnStateV
    decreases cells.len() - i,
{
    if i < 0 || i >= cells.len() {
        st
    } else {
        let st2 = match cells[i] {
            Option::None => st,
            Option::Some(tier) => {
                let x = (i % (TILES_WIDTH as int)) * 16_000 + 8_000;
                let y = (i / (TILES_WIDTH as int)) * 16_000 + 8_000;
                let st1 = if y != st.last_row {
                    let t = spec_roll_types(w, st.rng);
                    SpawnStateV { types: t.0, rng: t.1, ..st }
                } else {
                    st
                };
                let e = spec_enemy_new(spec_type_of_tier(st1.types, tier), Vec2V { x: x, y: y },
                    0, st1.rng);
                SpawnStateV {
                    last_row: y,
                    rng: e.1,
                    enemies: st1.enemies.push(e.0),
                    types: st1.types,
                }
            }
        };
        spec_spawn_cells(w, cells, i + 1, st2)
    }
}

/// What `spawn_room` produces from a given room index, layout tables
/// and generator state: a deterministic function of its inputs, so the
/// same seed gives the same room. One layout of the group is drawn
/// uniformly, its cells spawn the grid enemies, and with a fixed
/// percentage chance one "other"-tier type (if the biome has any) is
/// spawned at the two top corners.
pub open spec fn spec_spawn_room(
    w: WorldV,
    room_index: int,
    layouts: Seq<Seq<Seq<Option<EnemyTier>>>>,
    rng0: u64,
) -> (Seq<EnemyV>, u64) {
    let group_index = if room_index >= layouts.len() {
        layouts.len() - 1
    } else {
        room_index
    };
    let group = layouts[group_index];
    let sel = spec_select(group, rng0);
    let t0 = spec_roll_types(w, sel.1);
    let st = spec_spawn_cells(w, sel.0, 0, SpawnStateV {
        types: t0.0,
        last_row: -1,
        rng: t0.1,
        enemies: Seq::empty(),
    });
    let r3 = spec_rng_next(st.rng);
    if r3 as int % 100 < OTHER_CHANCE && w.other.len() > 0 {
        let osel = spec_select(w.other, r3);
        let e1 = spec_enemy_new(osel.0, Vec2V { x: 8_000, y: 8_000 }, 0, osel.1);
        let e2 = spec_enemy_new(osel.0, Vec2V { x: SCREEN_WIDTH as int - 8_000, y: 8_000 }, 0,
            e1.1);
        (st.enemies.push(e1.0).push(e2.0), e2.1)
    } else {
        (st.enemies, r3)
    }
}

/// The nested view of the layout tables.
pub open spec fn spec_layouts_view(layouts: Seq<Vec<Layout>>) -> Seq<Seq<Seq<Option<EnemyTier>>>> {
    layouts.map_values(|g: Vec<Layout>| g@.map_values(|l: Layout| l@))
}

/// Every group nonempty and every layout the right size.
pub open spec fn spec_layouts_wf(layouts: Seq<Seq<Seq<Option<EnemyTier>>>>) -> bool {
    &&& layouts.len() >= 1
    &&& forall|g: int| 0 <= g < layouts.len() ==> (#[trigger] layouts[g]).len() >= 1
    &&& forall|g: int, l: int| 0 <= g < layouts.len() && 0 <= l < layouts[g].len()
        ==> spec_layout_wf(#[trigger] layouts[g][l])
}

/// Walking the cells adds at most one enemy per cell.
pub proof fn lemma_spawn_cells_len(
    w: WorldV,
    cells: Seq<Option<EnemyTier>>,
    i: int,
    st: SpawnStateV,
)
    requires
        0 <= i <= cells.len(),
    ensures
        spec_spawn_cells(w, cells, i, st).enemies.len()
            <= st.enemies.len() + cells.len() - i,
    decreases cells.len() - i,
{
    if i < cells.len() {
        let st2 = match cells[i] {
            Option::None => st,
            Option::Some(tier) => {
                let x = (i % (TILES_WIDTH as int)) * 16_000 + 8_000;
                let y = (i / (TILES_WIDTH as int)) * 16_000 + 8_000;
                let st1 = if y != st.last_row {
                    let t = spec_roll_types(w, st.rng);
                    SpawnStateV { types: t.0, rng: t.1, ..st }
                } else {
                    st
                };
                let e = spec_enemy_new(spec_type_of_tier(st1.types, tier), Vec2V { x: x, y: y },
                    0, st1.rng);
                SpawnStateV {
                    last_row: y,
                    rng: e.1,
                    enemies: st1.enemies.push(e.0),
                    types: st1.types,
                }
            }
        };
        lemma_spawn_cells_len(w, cells, i + 1, st2);
    }
}

/// A room spawns at most two more enemies than the layout has cells.
pub proof fn lemma_spawn_room_len(
    w: WorldV,
    room_index: int,
    layouts: Seq<Seq<Seq<Option<EnemyTier>>>>,
    rng0: u64,
)
    requires
        spec_layouts_wf(layouts),
        0 <= room_index,
    ensures
        spec_spawn_room(w, room_index, layouts, rng0).0.len()
            <= TILES_WIDTH * TILES_HEIGHT + 2,
{
    let group_index = if room_index >= layouts.len() {
        layouts.len() - 1
    } else {
        room_index
    };
    let group = layouts[group_index];
    let sel = spec_select(group, rng0);
    let t0 = spec_roll_types(w, sel.1);
    let st0 = SpawnStateV { types: t0.0, last_row: -1, rng: t0.1, enemies: Seq::empty() };
    assert(spec_layout_wf(group[spec_rng_next(rng0) as int % group.len() as int]));
    lemma_spawn_cells_len(w, sel.0, 0, st0);
}

/// The room generator: which room the run is on, and the biome whose
/// tables the rooms draw from.
pub struct DungeonManager {
    pub world: World,
    pub room_index: usize,
}

/// One row-type roll (see `spec_roll_types`).
fn roll_types<'a>(world: &'a World, rng: &mut GameRng)
    -> (r: (&'a EnemyType, &'a EnemyType, &'a EnemyType, &'a EnemyType))
    requires
        spec_world_wf(world@),
    ensures
        ({
            let t = spec_roll_types(world@, old(rng)@);
            &&& r.0@ == t.0.light
            &&& r.1@ == t.0.heavy
            &&& r.2@ == t.0.ranged
            &&& r.3@ == t.0.miniboss
            &&& final(rng)@ == t.1
        }),
        spec_enemy_type_wf(r.0@),
        spec_enemy_type_wf(r.1@),
        spec_enemy_type_wf(r.2@),
        spec_enemy_type_wf(r.3@),
{
    let light = select_random(&world.light, rng);
    let heavy = select_random(&world.heavy, rng);
    let ranged = select_random(&world.ranged, rng);
    let miniboss = select_random(&world.miniboss, rng);
    (light, heavy, ranged, miniboss)
}

impl DungeonManager {
    pub fn new(world: World, room_index: usize) -> (r: DungeonManager)
        ensures
            r.world@ == world@,
            r.room_index == room_index,
    {
        DungeonManager { world, room_index }
    }

    /// Generates the enemies of the current room (see
    /// `spec_spawn_room`): deterministic given the generator state, so
    /// a fixed seed reproduces the same count, types and positions.
    /// The room index is clamped to the last layout group.
    #[verifier::loop_isolation(false)]
    #[verifier::rlimit(80)]
    pub fn spawn_room(&self, layouts: &Vec<Vec<Layout>>, rng: &mut GameRng) -> (r: Vec<Enemy>)
        requires
            spec_world_wf(self.world@),
            spec_layouts_wf(spec_layouts_view(layouts@)),
        ensures
            ({
                let s = spec_spawn_room(self.world@, self.room_index as int,
                    spec_layouts_view(layouts@), old(rng)@);
                &&& r@.map_values(|e: Enemy| e@) == s.0
                &&& final(rng)@ == s.1
            }),
            forall|i: int| 0 <= i < r@.len() ==> spec_enemy_wf((#[trigger] r@[i])@)
                && (#[trigger] r@[i])@.pos.y <= 216_000,
    {
        let ghost lv = spec_layouts_view(layouts@);
        let ghost w = self.world@;
        let group_index: usize = if self.room_index >= layouts.len() {
            layouts.len() - 1
        } else {
            self.room_index
        };
        let group = &layouts[group_index];
        proof {
            assert(lv[group_index as int] == group@.map_values(|l: Layout| l@));
        }
        let layout = select_random(group, rng);
        let ghost cellsv = layout@;
        proof {
            let sel = spec_select(lv[group_index as int], old(rng)@);
            assert(group@.map_values(|l: Layout| l@)[spec_rng_next(old(rng)@) as int
                % group@.len() as int] == cellsv);
            assert(sel.0 == cellsv);
        }
        let (mut tl, mut th, mut tr, mut tm) = roll_types(&self.world, rng);
        let mut enemies: Vec<Enemy> = Vec::new();
        let mut last_row: i64 = -1;
        let ghost st0 = SpawnStateV {
            types: spec_roll_types(w, spec_select(lv[group_index as int], old(rng)@).1).0,
            last_row: -1,
            rng: rng@,
            enemies: Seq::empty(),
        };
        proof {
            assert(enemies@.map_values(|e: Enemy| e@) =~= Seq::<EnemyV>::empty());
            let cur0 = SpawnStateV {
                types: SpawnTypesV { light: tl@, heavy: th@, ranged: tr@, miniboss: tm@ },
                last_row: -1int,
                rng: rng@,
                enemies: enemies@.map_values(|e: Enemy| e@),
            };
            assert(cur0 =~= st0);
        }
        let mut i: usize = 0;
        while i < layout.cells.len()
            invariant
                i <= layout.cells.len(),
                cellsv == layout.cells@,
                spec_layout_wf(cellsv),
                ({
                    let cur = SpawnStateV {
                        types: SpawnTypesV { light: tl@, heavy: th@, ranged: tr@, miniboss: tm@ },
                        last_row: last_row as int,
                        rng: rng@,
                        enemies: enemies@.map_values(|e: Enemy| e@),
                    };
                    spec_spawn_cells(w, cellsv, 0, st0) == spec_spawn_cells(w, cellsv, i as int, cur)
                }),
                spec_enemy_type_wf(tl@),
                spec_enemy_type_wf(th@),
                spec_enemy_type_wf(tr@),
                spec_enemy_type_wf(tm@),
                forall|j: int| 0 <= j < enemies@.len()
                    ==> spec_enemy_wf((#[trigger] enemies@[j])@)
                        && (#[trigger] enemies@[j])@.pos.y <= 216_000,
            decreases layout.cells.len() - i,
        {
            let ghost cur = SpawnStateV {
                types: SpawnTypesV { light: tl@, heavy: th@, ranged: tr@, miniboss: tm@ },
                last_row: last_row as int,
                rng: rng@,
                enemies: enemies@.map_values(|e: Enemy| e@),
            };
            match &layout.cells[i] {
                Option::None => {
                    proof {
                        let next = SpawnStateV {
                            types: SpawnTypesV { light: tl@, heavy: th@, ranged: tr@,
                                miniboss: tm@ },
                            last_row: last_row as int,
                            rng: rng@,
                            enemies: enemies@.map_values(|e: Enemy| e@),
                        };
                        assert(spec_spawn_cells(w, cellsv, i as int, cur)
                            == spec_spawn_cells(w, cellsv, i + 1, next));
                    }
                }
                Option::Some(tier) => {
                    let x: i64 = ((i % TILES_WIDTH) as i64) * 16_000 + 8_000;
                    let y: i64 = ((i / TILES_WIDTH) as i64) * 16_000 + 8_000;
                    proof {
                        assert(i as int / (TILES_WIDTH as int) < TILES_HEIGHT as int)
                            by (nonlinear_arith)
                            requires
                                0 <= i < TILES_WIDTH * TILES_HEIGHT;
                        assert(i as int % (TILES_WIDTH as int) < TILES_WIDTH as int)
                            by (nonlinear_arith)
                            requires
                                0 <= i;
                    }
                    if y != last_row {
                        let rolled = roll_types(&self.world, rng);
                        tl = rolled.0;
                        th = rolled.1;
                        tr = rolled.2;
                        tm = rolled.3;
                    }
                    let ghost st1 = SpawnStateV {
                        types: SpawnTypesV { light: tl@, heavy: th@, ranged: tr@, miniboss: tm@ },
                        last_row: last_row as int,
                        rng: rng@,
                        enemies: enemies@.map_values(|e: Enemy| e@),
                    };
                    let ty: &EnemyType = match tier {
                        EnemyTier::Light => tl,
                        EnemyTier::Heavy => th,
                        EnemyTier::Ranged => tr,
                        EnemyTier::Miniboss => tm,
                        EnemyTier::Extra => tm,
                    };
                    proof {
                        assert(i as int / (TILES_WIDTH as int) <= 8) by (nonlinear_arith)
                            requires
                                0 <= i < TILES_WIDTH * TILES_HEIGHT;
                    }
                    let e = Enemy::new(ty, Vec2Fx { x, y }, 0, rng);
                    enemies.push(e);
                    last_row = y;
                    proof {
                        let next = SpawnStateV {
                            types: SpawnTypesV { light: tl@, heavy: th@, ranged: tr@,
                                miniboss: tm@ },
                            last_row: last_row as int,
                            rng: rng@,
                            enemies: enemies@.map_values(|e: Enemy| e@),
                        };
                        let tierv = cellsv[i as int]->Some_0;
                        assert(ty@ == spec_type_of_tier(st1.types, tierv));
                        assert(next.enemies =~= st1.enemies.push(
                            spec_enemy_new(ty@, Vec2V { x: x as int, y: y as int }, 0, st1.rng).0));
                        assert(next =~= (SpawnStateV {
                            last_row: y as int,
                            rng: spec_enemy_new(ty@, Vec2V { x: x as int, y: y as int }, 0,
                                st1.rng).1,
                            enemies: st1.enemies.push(spec_enemy_new(ty@,
                                Vec2V { x: x as int, y: y as int }, 0, st1.rng).0),
                            types: st1.types,
                        }));
                        assert(spec_spawn_cells(w, cellsv, i as int, cur)
                            == spec_spawn_cells(w, cellsv, i + 1, next));
                    }
                }
            }
            i = i + 1;
        }
        let ghost st_done = SpawnStateV {
            types: SpawnTypesV { light: tl@, heavy: th@, ranged: tr@, miniboss: tm@ },
            last_row: last_row as int,
            rng: rng@,
            enemies: enemies@.map_values(|e: Enemy| e@),
        };
        proof {
            assert(spec_spawn_cells(w, cellsv, cellsv.len() as int, st_done) == st_done);
            assert(st_done == spec_spawn_cells(w, cellsv, 0, st0));
        }
        let chance = rng.gen_range(0, 100);
        if chance < OTHER_CHANCE && self.world.other.len() > 0 {
            let oty = select_random(&self.world.other, rng);
            proof {
                assert(oty@ == spec_select(w.other, spec_rng_next(st_done.rng)).0);
            }
            let e1 = Enemy::new(oty, Vec2Fx { x: 8_000, y: 8_000 }, 0, rng);
            enemies.push(e1);
            let e2 = Enemy::new(oty, Vec2Fx { x: SCREEN_WIDTH - 8_000, y: 8_000 }, 0, rng);
            enemies.push(e2);
            proof {
                let s = spec_spawn_room(w, self.room_index as int, lv, old(rng)@);
                assert(enemies@.map_values(|e: Enemy| e@) =~= s.0);
            }
        } else {
            proof {
                let s = spec_spawn_room(w, self.room_index as int, lv, old(rng)@);
                assert(enemies@.map_values(|e: Enemy| e@) =~= s.0);
            }
        }
        enemies
    }
}

} // verus!
verus! {

/// The width, height and raw RGBA bytes that decoding an encoded image
/// yields, or nothing for bytes no image format accepts. The result
/// depends on the bytes alone.
pub uninterp spec fn decoded_rgba(bytes: Seq<u8>) -> Option<(usize, usize, Seq<u8>)>;

/// Relies on image::load_from_memory and image::DynamicImage::to_rgba8:
/// decoding an image, in whatever format the bytes carry, into its
/// dimensions and its rows of four RGBA bytes per pixel. The result is
/// a function of the bytes alone.
#[verifier::external_body]
fn decode_image_rgba(bytes: &Vec<u8>) -> (r: Option<(usize, usize, Vec<u8>)>)
    ensures
        r is Some <==> decoded_rgba(bytes@) is Some,
        (r matches Some(t) ==> decoded_rgba(bytes@) == Option::Some((t.0, t.1, t.2@))),
{
    match image::load_from_memory(bytes) {
        Ok(img) => {
            let rgba = img.to_rgba8();
            let w = rgba.width() as usize;
            let h = rgba.height() as usize;
            Some((w, h, rgba.into_raw()))
        }
        Err(_) => None,
    }
}

/// Decodes an encoded layout bitmap into its stack of room layouts: the
/// bytes must be a decodable image of the exact tile-grid width, a
/// height that is a whole number of room grids (and within a generous
/// cap), and pixel-exact tier-encoding colors throughout. Every other
/// input is one of the named fatal errors.
pub fn load_layouts(bytes: &Vec<u8>) -> (r: Result<Vec<Layout>, LayoutError>)
    ensures
        decoded_rgba(bytes@) is None ==> r == Result::<Vec<Layout>, LayoutError>::Err(
            LayoutError::BadImage,
        ),
        (decoded_rgba(bytes@) matches Option::Some(t) ==> {
            &&& (r is Ok <==> t.1 <= 16_000_000
                && spec_pixels_decodable(t.0 as int, t.1 as int, t.2))
            &&& (r matches Ok(ls) ==> {
                &&& ls@.len() == t.1 as int / TILES_HEIGHT as int
                &&& forall|k: int| 0 <= k < ls@.len() ==> spec_layout_wf((#[trigger] ls@[k])@)
                &&& forall|k: int, x: int, y: int|
                    0 <= k < ls@.len() && 0 <= x < TILES_WIDTH && 0 <= y < TILES_HEIGHT
                        ==> (#[trigger] ls@[k]@[y * TILES_WIDTH + x])
                            == spec_cell_of_pixels(t.2, t.0 as int, x,
                                k * TILES_HEIGHT + y)->Some_0
            })
        }),
{
    let decoded = decode_image_rgba(bytes);
    match decoded {
        Option::Some((width, height, pixels)) => {
            if width != TILES_WIDTH || height > 16_000_000 {
                if width != TILES_WIDTH {
                    return Result::Err(LayoutError::BadDimensions);
                }
                return Result::Err(LayoutError::BadDimensions);
            }
            decode_layouts(width, height, &pixels)
        }
        Option::None => Result::Err(LayoutError::BadImage),
    }
}

} // verus!

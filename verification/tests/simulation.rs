use ramble::dungeon::{decode_layouts, DungeonManager, LayoutError};
use ramble::enemy::{Enemy, EnemyMovement, EnemyPhase, EnemyTier, EnemyType, PhaseEndCondition,
    ProjectileFiring};
use ramble::fx::{fx_mul, isqrt, Vec2Fx, FX_ONE};
use ramble::game::{Game, RoundState};
use ramble::items::{get_item_by_name, get_items, gift, ItemType};
use ramble::player::{movement_vector, ChaosCurse, Player};
use ramble::projectiles::{acid_puddle, slash, Projectile};
use ramble::rng::GameRng;
use ramble::stats::{DamageMap, DamageType, Stats};
use ramble::worlds::forest_world;

fn room_pixels(cells: &[(usize, usize, [u8; 4])], height: usize) -> Vec<u8> {
    let mut px = Vec::new();
    for _ in 0..16 * height {
        px.extend_from_slice(&[0, 0, 0, 255]);
    }
    for &(x, y, color) in cells {
        let base = 4 * (y * 16 + x);
        px[base..base + 4].copy_from_slice(&color);
    }
    px
}

fn empty_layouts() -> Vec<Vec<ramble::dungeon::Layout>> {
    let px = room_pixels(&[], 9);
    let ls = decode_layouts(16, 9, &px).unwrap();
    vec![ls]
}

fn test_game() -> Game {
    Game {
        player: Player::new(Vec2Fx { x: 128_000, y: 112_000 }),
        state: RoundState::Active,
        enemies: Vec::new(),
        dropped_items: Vec::new(),
        enemy_id: 0,
        projectiles: Vec::new(),
        dungeon_manager: DungeonManager::new(forest_world(), 0),
        all_items: get_items(),
        layouts: empty_layouts(),
        game_over: false,
    }
}

fn still_enemy_type() -> EnemyType {
    EnemyType {
        speed: 0,
        phases: vec![EnemyPhase {
            movement: EnemyMovement::Still,
            firing: ProjectileFiring::Unarmed,
            sprite_x: 0,
            sprite_y: 0,
            frames: 1,
            end: PhaseEndCondition::Never,
        }],
        max_health: 10_000,
    }
}

#[test]
fn merge_is_associative_and_has_identity() {
    // three bags merged in either grouping agree field by field
    let mut a = Stats::default();
    a.attack_delay = 5_000;
    a.damage = DamageMap::single(DamageType::Fire, 2_000);
    let mut b = Stats::default();
    b.attack_delay = 1_000;
    b.damage = DamageMap::single(DamageType::Fire, 500);
    let mut c = Stats::default();
    c.move_speed_mod = 250;

    let mut left = a.duplicate();
    left.merge(&b);
    left.merge(&c);

    let mut bc = b.duplicate();
    bc.merge(&c);
    let mut right = a.duplicate();
    right.merge(&bc);

    assert_eq!(left.attack_delay, right.attack_delay);
    assert_eq!(left.move_speed_mod, right.move_speed_mod);
    assert_eq!(left.damage.fire, right.damage.fire);
    assert_eq!(left.damage.fire, 2_500);

    let mut with_identity = a.duplicate();
    with_identity.merge(&Stats::default());
    assert_eq!(with_identity.attack_delay, a.attack_delay);
    assert_eq!(with_identity.damage.fire, a.damage.fire);
    assert_eq!(with_identity.lives, a.lives);
}

#[test]
fn modifiers_applied_exactly_once_per_aggregation() {
    // two +30% move speed sources give base * 1.6, never base * 1.3 * 1.3
    let mut player = Player::new(Vec2Fx { x: 100_000, y: 100_000 });
    let mut hood = Stats::default();
    hood.move_speed_mod = 300;
    player.helmet = Some(ramble::items::Item {
        name: "a",
        ty: ItemType::Helmet,
        sprite_x: 0,
        sprite_y: 0,
        internal_stats: hood.duplicate(),
        enchantment: None,
    });
    player.chestplate = Some(ramble::items::Item {
        name: "b",
        ty: ItemType::Chestplate,
        sprite_x: 0,
        sprite_y: 0,
        internal_stats: hood,
        enchantment: None,
    });
    let s = player.stats();
    // base 1.5 px * (1 + 0.6) = 2.4 px
    assert_eq!(s.move_speed, 2_400);
}

#[test]
fn projectile_lifetime_counts_down() {
    let mut g = test_game();
    let mut p = Projectile::from_template(&acid_puddle());
    p.lifetime = 3;
    p.pos = Vec2Fx { x: 50_000, y: 100_000 };
    p.player_owned = true;
    p.stats = Some(Stats::default());
    g.projectiles.push(p);
    for tick in 0..3 {
        assert_eq!(g.projectiles.len(), 1, "tick {tick}");
        g.run_projectile_phase();
    }
    assert_eq!(g.projectiles.len(), 0);
}

#[test]
fn hit_once_per_projectile_even_when_enemy_stays_close() {
    let mut g = test_game();
    let mut rng = GameRng::new(7);
    let ty = still_enemy_type();
    let enemy = Enemy::new(&ty, Vec2Fx { x: 100_000, y: 100_000 }, 5, &mut rng);
    g.enemies.push(enemy);

    let mut s = Stats::default();
    s.damage = DamageMap::single(DamageType::Slashing, 1_000);
    let mut p = Projectile::from_template(&acid_puddle());
    p.pos = Vec2Fx { x: 100_000, y: 100_000 };
    p.player_owned = true;
    p.stats = Some(s);
    g.projectiles.push(p);

    g.run_projectile_phase();
    assert_eq!(g.enemies[0].health, 9_000);
    assert_eq!(g.projectiles[0].hit_enemies, vec![5]);
    g.run_projectile_phase();
    // the id is recorded: no second hit however close the enemy stays
    assert_eq!(g.enemies[0].health, 9_000);
}

#[test]
fn shield_absorbs_before_health() {
    let mut rng = GameRng::new(1);
    let ty = still_enemy_type();
    let mut enemy = Enemy::new(&ty, Vec2Fx { x: 0, y: 0 }, 0, &mut rng);
    enemy.shield = 5_000;
    enemy.health = 10_000;
    let dmg = DamageMap::single(DamageType::Slashing, 8_000);
    enemy.apply_hit(&dmg, &DamageMap::zero());
    assert_eq!(enemy.shield, 0);
    assert_eq!(enemy.health, 7_000);
}

#[test]
fn damage_modifier_scales_the_hit() {
    let mut rng = GameRng::new(1);
    let ty = still_enemy_type();
    let mut enemy = Enemy::new(&ty, Vec2Fx { x: 0, y: 0 }, 0, &mut rng);
    let dmg = DamageMap::single(DamageType::Holy, 2_000);
    // +50% holy: 2.0 * 1.5 = 3.0 damage
    let mods = DamageMap::single(DamageType::Holy, 500);
    enemy.apply_hit(&dmg, &mods);
    assert_eq!(enemy.health, 7_000);
}

#[test]
fn two_less_inventory_curses_lock_four_slots_and_evict() {
    let mut g = test_game();
    let mut rng = GameRng::new(3);
    // fill the first five inventory slots with talismans (their own
    // slots already occupied so they land in the inventory)
    for i in 0..3 {
        g.player.talismans[i] = Some(gift());
    }
    for i in 0..5 {
        g.player.inventory[i] = Some(gift());
    }
    g.give_curse(ChaosCurse::LessInventory, &mut rng);
    g.give_curse(ChaosCurse::LessInventory, &mut rng);
    assert_eq!(g.player.locked_slots(), 4);
    for i in 0..4 {
        assert!(g.player.inventory[i].is_none(), "slot {i} must be locked empty");
    }
    // the five originals survive, re-homed into the free tail slots
    let held: usize = g.player.inventory.iter().filter(|s| s.is_some()).count();
    assert_eq!(held + g.dropped_items.len(), 5);
    assert!(g.player.inventory[4].is_some());
}

#[test]
fn room_generation_is_deterministic_per_seed() {
    let world = forest_world();
    let px = room_pixels(
        &[
            (2, 3, [255, 255, 255, 255]),
            (5, 3, [0, 0, 255, 255]),
            (9, 6, [255, 255, 0, 255]),
        ],
        9,
    );
    let layouts = vec![decode_layouts(16, 9, &px).unwrap()];
    let dm = DungeonManager::new(world, 0);

    let mut rng1 = GameRng::new(42);
    let first = dm.spawn_room(&layouts, &mut rng1);
    let mut rng2 = GameRng::new(42);
    let second = dm.spawn_room(&layouts, &mut rng2);

    assert_eq!(first.len(), second.len());
    for (a, b) in first.iter().zip(second.iter()) {
        assert_eq!(a.pos, b.pos);
        assert_eq!(a.ty.speed, b.ty.speed);
        assert_eq!(a.ty.max_health, b.ty.max_health);
        assert_eq!(a.attack_counter, b.attack_counter);
    }
    // the three tagged cells spawn three grid enemies (plus possibly
    // the corner pair)
    assert!(first.len() == 3 || first.len() == 5);
}

#[test]
fn rows_share_one_concrete_type_per_tier() {
    let world = forest_world();
    // two light cells in the same row, one in another row
    let px = room_pixels(
        &[
            (2, 3, [255, 255, 255, 255]),
            (7, 3, [255, 255, 255, 255]),
            (2, 6, [255, 255, 255, 255]),
        ],
        9,
    );
    let layouts = vec![decode_layouts(16, 9, &px).unwrap()];
    let dm = DungeonManager::new(world, 0);
    let mut rng = GameRng::new(9);
    let enemies = dm.spawn_room(&layouts, &mut rng);
    let grid: Vec<&Enemy> = enemies.iter().filter(|e| e.pos.y < 150_000).collect();
    assert!(grid.len() >= 3);
    // same row: identical concrete type
    assert_eq!(grid[0].ty.max_health, grid[1].ty.max_health);
    assert_eq!(grid[0].ty.speed, grid[1].ty.speed);
}

#[test]
fn round_advances_pre_to_active_without_input() {
    let mut g = test_game();
    g.state = RoundState::Pre(0);
    let mut rng = GameRng::new(11);
    let still = Vec2Fx { x: 0, y: 0 };
    // 40 transition + 20 grace frames elapse, then one more tick flips
    for _ in 0..61 {
        assert!(matches!(g.state, RoundState::Pre(_)));
        g.advance_frame(still, still, false, false, false, &mut rng);
    }
    assert!(matches!(g.state, RoundState::Active));
}

#[test]
fn cleared_room_enters_post_with_three_rewards() {
    let mut g = test_game();
    let mut rng = GameRng::new(13);
    let still = Vec2Fx { x: 0, y: 0 };
    assert!(matches!(g.state, RoundState::Active));
    g.advance_frame(still, still, false, false, false, &mut rng);
    match &g.state {
        RoundState::Post(frame, Some(items)) => {
            assert_eq!(*frame, 0);
            assert_eq!(items.len(), 3);
        }
        other => panic!("expected Post with rewards, got {other:?}"),
    }
}

#[test]
fn door_press_in_post_enters_next_room() {
    let mut g = test_game();
    g.state = RoundState::Post(40, None);
    g.player.pos = Vec2Fx { x: 128_000, y: 28_000 };
    let mut rng = GameRng::new(17);
    let still = Vec2Fx { x: 0, y: 0 };
    let before = g.dungeon_manager.room_index;
    g.advance_frame(still, still, false, false, true, &mut rng);
    assert!(matches!(g.state, RoundState::Pre(_)));
    assert_eq!(g.dungeon_manager.room_index, before + 1);
    assert_eq!(g.player.pos, Vec2Fx { x: 128_000, y: 208_000 });
}

#[test]
fn post_without_door_press_stays_post() {
    let mut g = test_game();
    g.state = RoundState::Post(40, None);
    g.player.pos = Vec2Fx { x: 128_000, y: 28_000 };
    let mut rng = GameRng::new(17);
    let still = Vec2Fx { x: 0, y: 0 };
    g.advance_frame(still, still, false, false, false, &mut rng);
    assert!(matches!(g.state, RoundState::Post(_, _)));
}

#[test]
fn fire_trigger_spawns_chain_only_with_fire_damage() {
    let mut base = Stats::default();
    base.on_hit_effects.push(ramble::stats::OnHitEffect {
        trigger: Some(DamageType::Fire),
        template: slash(),
        damage: DamageMap::single(DamageType::Fire, 2_000),
    });

    // no fire in the damage table: nothing spawns
    let mut p = Projectile::from_template(&slash());
    p.hit_enemies.push(3);
    p.parent_hit_enemies.push(9);
    p.stats = Some(base.duplicate());
    assert_eq!(p.on_hit().len(), 0);

    // positive fire entry: the chain spawns, pre-loaded with the
    // parent's accumulated hit history
    let mut with_fire = base.duplicate();
    with_fire.damage = DamageMap::single(DamageType::Fire, 1_000);
    p.stats = Some(with_fire);
    let spawned = p.on_hit();
    assert_eq!(spawned.len(), 1);
    assert_eq!(spawned[0].parent_hit_enemies, vec![9, 3]);
    assert!(spawned[0].hit_enemies.is_empty());
    assert!(spawned[0].player_owned);
    assert_eq!(spawned[0].stats.as_ref().unwrap().damage.fire, 2_000);
}

#[test]
fn layout_decode_maps_colors_to_tiers() {
    let px = room_pixels(
        &[
            (0, 0, [255, 255, 255, 255]),
            (1, 0, [0, 0, 255, 255]),
            (2, 0, [255, 255, 0, 255]),
            (3, 0, [255, 0, 0, 255]),
        ],
        9,
    );
    let layouts = decode_layouts(16, 9, &px).unwrap();
    assert_eq!(layouts.len(), 1);
    let cells = &layouts[0].cells;
    assert_eq!(cells[0], Some(EnemyTier::Light));
    assert_eq!(cells[1], Some(EnemyTier::Heavy));
    assert_eq!(cells[2], Some(EnemyTier::Ranged));
    assert_eq!(cells[3], Some(EnemyTier::Miniboss));
    assert_eq!(cells[4], None);
}

#[test]
fn layout_decode_rejects_bad_input() {
    let px = room_pixels(&[(0, 0, [17, 3, 99, 255])], 9);
    assert_eq!(decode_layouts(16, 9, &px).err(), Some(LayoutError::BadPixel));
    let px = room_pixels(&[], 9);
    assert_eq!(decode_layouts(15, 9, &px).err(), Some(LayoutError::BadDimensions));
    assert_eq!(decode_layouts(16, 8, &px).err(), Some(LayoutError::BadDimensions));
    let mut short = room_pixels(&[], 9);
    short.pop();
    assert_eq!(decode_layouts(16, 9, &short).err(), Some(LayoutError::BadBufferLength));
}

#[test]
fn stacked_bitmap_decodes_one_layout_per_slice() {
    let px = room_pixels(&[(4, 2, [255, 255, 255, 255]), (4, 11, [0, 0, 255, 255])], 18);
    let layouts = decode_layouts(16, 18, &px).unwrap();
    assert_eq!(layouts.len(), 2);
    assert!(layouts[0].cells[2 * 16 + 4].is_some());
    assert!(layouts[1].cells[2 * 16 + 4].is_some());
}

#[test]
fn png_bytes_load_into_layouts() {
    // encode a real PNG and run it through the image decoder
    let px = room_pixels(&[(6, 4, [255, 0, 0, 255])], 9);
    let img: image::RgbaImage = image::ImageBuffer::from_raw(16, 9, px).unwrap();
    let mut bytes: Vec<u8> = Vec::new();
    img.write_to(&mut std::io::Cursor::new(&mut bytes), image::ImageFormat::Png)
        .unwrap();
    let layouts = ramble::dungeon::load_layouts(&bytes).unwrap();
    assert_eq!(layouts.len(), 1);
    assert_eq!(layouts[0].cells[4 * 16 + 6], Some(ramble::enemy::EnemyTier::Miniboss));
    // and garbage bytes are a decode error
    let garbage = vec![1u8, 2, 3, 4];
    assert_eq!(ramble::dungeon::load_layouts(&garbage).err(), Some(LayoutError::BadImage));
}

#[test]
fn damage_consumes_equipment_lives_in_order() {
    let mut player = Player::new(Vec2Fx { x: 100_000, y: 100_000 });
    let items = get_items();
    let pendant = get_item_by_name(&items, "heart pendant").duplicate();
    let helmet = get_item_by_name(&items, "iron helmet").duplicate();
    player.talismans[1] = Some(pendant);
    player.helmet = Some(helmet);

    assert!(!player.damage());
    assert_eq!(player.talismans[1].as_ref().unwrap().internal_stats.lives, 0);
    assert_eq!(player.helmet.as_ref().unwrap().internal_stats.lives, 1);
    player.invuln_frames = 0;
    assert!(!player.damage());
    assert_eq!(player.helmet.as_ref().unwrap().internal_stats.lives, 0);
    assert_eq!(player.internal_stats.lives, 3);
    player.invuln_frames = 0;
    assert!(!player.damage());
    assert_eq!(player.internal_stats.lives, 2);
}

#[test]
fn give_item_fills_own_slot_then_inventory() {
    let mut player = Player::new(Vec2Fx { x: 100_000, y: 100_000 });
    let items = get_items();
    let helmet = get_item_by_name(&items, "iron helmet");
    assert!(player.inv_slot_free(&helmet.ty));
    player.give_item(helmet.duplicate());
    assert!(player.helmet.is_some());
    // a second helmet goes to the first inventory slot
    player.give_item(helmet.duplicate());
    assert!(player.inventory[0].is_some());
}

#[test]
fn item_table_and_names() {
    let items = get_items();
    assert_eq!(items.len(), 26);
    let bow = get_item_by_name(&items, "bow");
    assert_eq!(bow.internal_stats.attack_delay, 30_000);
    assert_eq!(bow.internal_stats.damage.piercing, 1_000);
    assert_eq!(bow.name(), "bow");
    assert_eq!(ramble::items::get_enchantments().len(), 6);
    assert_eq!(DamageType::Fire.to_text(), "fire");
}

#[test]
fn movement_vector_is_unit_scaled() {
    let v = movement_vector(false, true, false, false);
    assert_eq!(v, Vec2Fx { x: FX_ONE, y: 0 });
    let d = movement_vector(false, true, true, false);
    // a diagonal comes out near unit length, never the raw (1, -1)
    assert!(d.x < FX_ONE && d.x > 0);
    assert!(d.y > -FX_ONE && d.y < 0);
    let z = movement_vector(false, false, false, false);
    assert_eq!(z, Vec2Fx { x: 0, y: 0 });
}

#[test]
fn fixed_point_arithmetic_is_exact() {
    assert_eq!(fx_mul(2_000, 1_500), 3_000);
    assert_eq!(fx_mul(-2_000, 1_500), -3_000);
    assert_eq!(isqrt(144_000_000), 12_000);
    assert_eq!(isqrt(0), 0);
    assert_eq!(isqrt(2), 1);
    let v = Vec2Fx { x: 3_000, y: 4_000 };
    let n = v.normalize();
    assert_eq!(n, Vec2Fx { x: 600, y: 800 });
}

#[test]
fn seeded_rng_reproduces_draws() {
    let mut a = GameRng::new(99);
    let mut b = GameRng::new(99);
    for _ in 0..10 {
        assert_eq!(a.gen_range(0, 1_000_000), b.gen_range(0, 1_000_000));
    }
    let x = a.gen_range(5, 8);
    assert!((5..8).contains(&x));
}

#[test]
fn curse_effects_apply_once() {
    let mut g = test_game();
    let mut rng = GameRng::new(21);
    g.player.internal_stats.lives = 1;
    g.give_curse(ChaosCurse::RefillHealth, &mut rng);
    assert_eq!(g.player.internal_stats.lives, 3);
    g.give_curse(ChaosCurse::DoubledUnholyDmg, &mut rng);
    assert_eq!(g.player.internal_stats.damage_modifiers.unholy, 1_000);
    g.give_curse(ChaosCurse::HalvedHolyDmg, &mut rng);
    assert_eq!(g.player.internal_stats.damage_modifiers.holy, -500);
    assert_eq!(g.player.curses.len(), 3);
}

#[test]
fn enemy_shields_curse_arms_new_spawns() {
    let mut g = test_game();
    let mut rng = GameRng::new(23);
    g.give_curse(ChaosCurse::EnemyShields, &mut rng);
    g.give_curse(ChaosCurse::EnemyShields, &mut rng);
    let ty = still_enemy_type();
    let mut buffer = vec![Enemy::new(&ty, Vec2Fx { x: 50_000, y: 50_000 }, 0, &mut rng)];
    g.spawn_enemies(&mut buffer);
    assert_eq!(g.enemies.len(), 1);
    assert_eq!(g.enemies[0].shield, 10_000);
    assert_eq!(g.enemies[0].id, 0);
    assert_eq!(g.enemies[0].pos.y, 82_000);
    assert_eq!(g.enemy_id, 1);
}

#[test]
fn take_reward_grants_item_and_rolls_curse() {
    let mut g = test_game();
    let mut rng = GameRng::new(29);
    let still = Vec2Fx { x: 0, y: 0 };
    g.advance_frame(still, still, false, false, false, &mut rng);
    assert!(matches!(g.state, RoundState::Post(_, Some(_))));
    let filled_before: usize = g.player.inventory.iter().filter(|s| s.is_some()).count();
    g.take_reward(1, &mut rng);
    match &g.state {
        RoundState::Post(frame, items) => {
            assert_eq!(*frame, 41);
            assert!(items.is_none());
        }
        other => panic!("expected closing Post, got {other:?}"),
    }
    assert_eq!(g.player.curses.len(), 1);
    let filled_after: usize = g.player.inventory.iter().filter(|s| s.is_some()).count();
    let equipped = g.player.helmet.is_some() || g.player.chestplate.is_some()
        || g.player.hand.is_some() || g.player.talismans.iter().any(|s| s.is_some());
    assert!(filled_after > filled_before || equipped || !g.dropped_items.is_empty());
}

#[test]
fn door_frame_animation_is_stepped() {
    assert_eq!(RoundState::Active.door_frame(), 0);
    assert_eq!(RoundState::Post(0, None).door_frame(), 0);
    assert_eq!(RoundState::Post(5, None).door_frame(), 4_000);
    assert_eq!(RoundState::Post(40, None).door_frame(), 6_000);
    assert_eq!(RoundState::Pre(0).door_frame(), 6_000);
    assert_eq!(RoundState::Pre(30).door_frame(), 0);
    assert!(!RoundState::Pre(0).should_draw());
    assert!(RoundState::Pre(20).should_draw());
}

//! The biome tables: the enemy types each tier draws from, built once
//! at startup and never mutated.

use vstd::prelude::*;

verus! {

use crate::dungeon::{World, spec_world_wf};
use crate::enemy::{EnemyMovement, EnemyPhase, EnemyType, PhaseEndCondition, ProjectileFiring,
    spec_enemy_type_wf};
use crate::projectiles::{slow_arrow, fireball, slash};

/// A type with a single phase that never ends.
fn single_phase_type(speed: i64, max_health: i64, phase: EnemyPhase) -> (r: EnemyType)
    requires
        0 <= speed <= crate::utils::SPEED_LIMIT,
        0 < max_health <= crate::utils::HEALTH_LIMIT,
        crate::enemy::spec_phase_wf(phase),
    ensures
        r@.speed == speed as int,
        r@.max_health == max_health as int,
        r@.phases == seq![phase],
        spec_enemy_type_wf(r@),
{
    let mut phases: Vec<EnemyPhase> = Vec::new();
    phases.push(phase);
    proof {
        assert(phases@ =~= seq![phase]);
    }
    EnemyType { speed, phases, max_health }
}

/// The forest biome: birds and hoods for the light tier, bears and
/// goblins for the heavy tier, archers for the ranged tier, a fireball
/// shooter for the corner pair, and a charging miniboss with a
/// three-phase charge-and-burst pattern.
pub fn forest_world() -> (r: World)
    ensures
        spec_world_wf(r@),
        r@.other.len() == 1,
        r@.light.len() == 2,
        r@.heavy.len() == 2,
        r@.ranged.len() == 1,
        r@.miniboss.len() == 1,
{
    // bird
    let mut light: Vec<EnemyType> = Vec::new();
    light.push(single_phase_type(1_000, 4_000, EnemyPhase {
        sprite_x: 0,
        sprite_y: 3_000,
        movement: EnemyMovement::Wander(false),
        firing: ProjectileFiring::Unarmed,
        end: PhaseEndCondition::Never,
        frames: 2,
    }));
    // mini hood
    light.push(single_phase_type(500, 4_000, EnemyPhase {
        sprite_x: 0,
        sprite_y: 4_000,
        movement: EnemyMovement::Chase,
        firing: ProjectileFiring::Unarmed,
        end: PhaseEndCondition::Never,
        frames: 2,
    }));

    // bear
    let mut heavy: Vec<EnemyType> = Vec::new();
    heavy.push(single_phase_type(1_000, 15_000, EnemyPhase {
        sprite_x: 0,
        sprite_y: 2_000,
        movement: EnemyMovement::Chase,
        firing: ProjectileFiring::Unarmed,
        end: PhaseEndCondition::Never,
        frames: 2,
    }));
    // goblin with a knife
    heavy.push(single_phase_type(500, 20_000, EnemyPhase {
        sprite_x: 4_000,
        sprite_y: 2_000,
        movement: EnemyMovement::Chase,
        firing: ProjectileFiring::Unarmed,
        end: PhaseEndCondition::Never,
        frames: 2,
    }));

    // archer
    let mut ranged: Vec<EnemyType> = Vec::new();
    ranged.push(single_phase_type(500, 6_000, EnemyPhase {
        sprite_x: 0,
        sprite_y: 1_000,
        movement: EnemyMovement::Wander(true),
        firing: ProjectileFiring::Forwards(slow_arrow(), 50),
        end: PhaseEndCondition::Never,
        frames: 2,
    }));

    // red-hooded fireball shooter
    let mut other: Vec<EnemyType> = Vec::new();
    other.push(single_phase_type(0, 6_000, EnemyPhase {
        sprite_x: 2_000,
        sprite_y: 2_000,
        movement: EnemyMovement::Chase,
        firing: ProjectileFiring::Forwards(fireball(), 60),
        end: PhaseEndCondition::Never,
        frames: 1,
    }));

    // charging boar: faces the player for a frame, charges until it
    // hits something, then stands and sprays slashes around itself
    let mut boar_phases: Vec<EnemyPhase> = Vec::new();
    boar_phases.push(EnemyPhase {
        sprite_x: 6_000,
        sprite_y: 2_000,
        movement: EnemyMovement::Chase,
        firing: ProjectileFiring::Unarmed,
        end: PhaseEndCondition::SingleFrame,
        frames: 2,
    });
    boar_phases.push(EnemyPhase {
        sprite_x: 6_000,
        sprite_y: 2_000,
        movement: EnemyMovement::Fowards,
        firing: ProjectileFiring::Unarmed,
        end: PhaseEndCondition::Collision,
        frames: 2,
    });
    boar_phases.push(EnemyPhase {
        sprite_x: 6_000,
        sprite_y: 2_000,
        movement: EnemyMovement::Still,
        firing: ProjectileFiring::Around(slash(), 100, 8),
        end: PhaseEndCondition::Frames(60),
        frames: 1,
    });
    let mut miniboss: Vec<EnemyType> = Vec::new();
    let boar = EnemyType { speed: 2_500, phases: boar_phases, max_health: 40_000 };
    proof {
        assert(forall|i: int| 0 <= i < boar@.phases.len()
            ==> crate::enemy::spec_phase_wf(#[trigger] boar@.phases[i]));
        assert(spec_enemy_type_wf(boar@));
    }
    miniboss.push(boar);

    World { light, heavy, ranged, other, miniboss }
}

} // verus!

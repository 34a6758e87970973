//! Tests of combat resolution, infection and conversion, and substance drops.

use antidotes::antidote::{setup_substances, SubstanceType};
use antidotes::badcell::{
    can_spawn_wave, move_attack, move_attack_with_roll, nearest_target, resample_move_speed,
    spawn_bad_cells, wave_strength_multiplier, SearchRange, BAD_CELL_MAX_SPEED, BAD_CELL_MIN_SPEED,
};
use antidotes::cell::{
    destroy_cell, resolve_infection, roll_substance_drop, track_cell_infection,
    track_cell_infection_with_rolls, Actor, AttackTimer, CellAttack, CellAttribute, CellKind,
    InfectionOutcome,
};
use antidotes::goodcell::{attack, spawn_good_cells, GOOD_CELL_SIZE};
use antidotes::playerresource::setup_player_resources;

fn attrs(health: i64, damage: i64, rate: i64, immune: i64, infection: i64) -> CellAttribute {
    CellAttribute {
        health,
        immune,
        infection,
        cell_attack: CellAttack {
            attack_rate: rate,
            damage,
            timer: AttackTimer { period: rate, elapsed: 0 },
        },
    }
}

#[test]
fn inflict_dmg_floors_health_at_zero() {
    let mut a = attrs(100, 0, 50, 0, 0);
    a.inflict_dmg(40);
    assert_eq!(a.health, 60);
    a.inflict_dmg(200);
    assert_eq!(a.health, 0);
    a.inflict_dmg(10);
    assert_eq!(a.health, 0);
}

#[test]
fn attack_timer_repeats() {
    let mut t = AttackTimer::new(50);
    assert!(!t.tick(30));
    assert_eq!(t.elapsed, 30);
    assert!(t.tick(30));
    assert_eq!(t.elapsed, 10);
    assert!(t.tick(40));
    assert_eq!(t.elapsed, 0);
}

#[test]
fn defender_attack_lands_on_cooldown() {
    let mut attacker = CellAttack::new(50, 700);
    let mut victim = attrs(1_000, 170, 500, 10_000, 0);
    // A fresh timer advanced by its own period completes at once.
    assert!(attack(&mut attacker, &mut victim));
    assert_eq!(victim.health, 300);
    assert!(attack(&mut attacker, &mut victim));
    assert_eq!(victim.health, 0);
    assert_eq!(victim.infection, 0);
}

#[test]
fn invader_attack_infects_on_low_roll() {
    let mut attacker = CellAttack::new(500, 170);
    let mut victim = attrs(5_000, 2_000, 50, 3_000, 0);
    assert!(move_attack_with_roll(&mut attacker, &mut victim, 5));
    assert_eq!(victim.health, 5_000 - 170);
    assert_eq!(victim.infection, 200);

    let mut other = attrs(5_000, 2_000, 50, 3_000, 0);
    assert!(move_attack_with_roll(&mut attacker, &mut other, 6));
    assert_eq!(other.health, 5_000 - 170);
    assert_eq!(other.infection, 0);
}

#[test]
fn invader_attack_with_random_roll_keeps_bounds() {
    for _ in 0..100 {
        let mut attacker = CellAttack::new(500, 170);
        let mut victim = attrs(100, 2_000, 50, 3_000, 0);
        assert!(move_attack(&mut attacker, &mut victim));
        assert_eq!(victim.health, 0);
        assert!(victim.infection == 0 || victim.infection == 200);
    }
}

#[test]
fn conversion_check_fail_branch_weakens_and_flips() {
    // A defender past its immune threshold rolls the conversion check; on
    // the fail branch it keeps at least 25.0 health, at most 5.0 damage, at
    // least an 8.0-second interval, and its tag flips to invader.
    let mut a = attrs(1_000, 2_000, 50, 10_000, 10_100);
    let outcome = resolve_infection(&mut a, 31);
    assert_eq!(outcome, InfectionOutcome::Converted);
    assert!(a.health >= 2_500);
    assert!(a.cell_attack.damage <= 500);
    assert!(a.cell_attack.attack_rate >= 800);

    let actors = vec![Actor {
        kind: CellKind::GoodCell { cell_id: 7, cell_size: GOOD_CELL_SIZE },
        attribute: attrs(1_000, 2_000, 50, 10_000, 10_100),
    }];
    let mut actors = actors;
    let rolls = vec![31];
    track_cell_infection_with_rolls(&mut actors, &rolls);
    assert!(matches!(actors[0].kind, CellKind::BadCell));
}

#[test]
fn conversion_check_golden_branch_empowers() {
    let mut a = attrs(1_000, 2_000, 50, 10_000, 10_100);
    let outcome = resolve_infection(&mut a, 30);
    assert_eq!(outcome, InfectionOutcome::Empowered);
    assert_eq!(a.health, 11_000);
    assert_eq!(a.infection, 0);
    assert_eq!(a.immune, 9_000);
    assert_eq!(a.cell_attack.damage, 2_000);
}

#[test]
fn infection_pass_skips_healthy_defenders_and_invaders() {
    let healthy = Actor {
        kind: CellKind::GoodCell { cell_id: 0, cell_size: GOOD_CELL_SIZE },
        attribute: attrs(1_000, 2_000, 50, 10_000, 9_000),
    };
    let invader = Actor { kind: CellKind::BadCell, attribute: attrs(1_000, 170, 500, 100, 20_000) };
    let mut actors = vec![healthy, invader];
    let rolls = vec![99, 99];
    track_cell_infection_with_rolls(&mut actors, &rolls);
    assert_eq!(actors[0].attribute, healthy.attribute);
    assert!(matches!(actors[0].kind, CellKind::GoodCell { .. }));
    assert_eq!(actors[1].attribute, invader.attribute);
}

#[test]
fn infection_pass_with_random_rolls_resolves_each_qualifier_once() {
    for _ in 0..50 {
        let mut actors = vec![Actor {
            kind: CellKind::GoodCell { cell_id: 0, cell_size: GOOD_CELL_SIZE },
            attribute: attrs(1_000, 2_000, 50, 10_000, 10_100),
        }];
        track_cell_infection(&mut actors);
        match actors[0].kind {
            CellKind::GoodCell { .. } => {
                // Purified and empowered.
                assert_eq!(actors[0].attribute.health, 11_000);
                assert_eq!(actors[0].attribute.infection, 0);
                assert_eq!(actors[0].attribute.immune, 9_000);
            }
            CellKind::BadCell => {
                // Converted into a weakened invader.
                assert!(actors[0].attribute.health >= 2_500);
                assert!(actors[0].attribute.cell_attack.damage <= 500);
                assert!(actors[0].attribute.cell_attack.attack_rate >= 800);
            }
        }
    }
}

#[test]
fn nearest_target_prefers_nearest_with_later_ties() {
    let search = SearchRange { range: 1_000 };
    let distances = vec![5_000, 900, 900, 2_000];
    assert_eq!(nearest_target(&distances, &search), Some(2));
    let far = vec![5_000, 2_000];
    assert_eq!(nearest_target(&far, &search), None);
    let empty: Vec<i64> = Vec::new();
    assert_eq!(nearest_target(&empty, &search), None);
}

#[test]
fn wave_scaling_counts_and_strength() {
    assert_eq!(wave_strength_multiplier(0), 100);
    assert_eq!(wave_strength_multiplier(3), 75);
    assert_eq!(wave_strength_multiplier(4), 100);
    assert_eq!(wave_strength_multiplier(6), 150);

    let wave0 = spawn_bad_cells(0);
    assert_eq!(wave0.len(), 60);
    assert_eq!(wave0[0].attribute.health, 1_000);
    assert_eq!(wave0[0].attribute.cell_attack.damage, 170);
    assert_eq!(wave0[0].attribute.cell_attack.attack_rate, 500);
    assert!(matches!(wave0[0].kind, CellKind::BadCell));

    let wave3 = spawn_bad_cells(3);
    assert_eq!(wave3.len(), 69);
    assert_eq!(wave3[0].attribute.health, 750);
    assert_eq!(wave3[0].attribute.cell_attack.damage, 147);
    assert_eq!(wave3[0].attribute.cell_attack.attack_rate, 518);

    assert!(can_spawn_wave(3));
    assert!(!can_spawn_wave(33));
}

#[test]
fn spawn_good_cells_mirrors_roster() {
    let mut r = setup_player_resources();
    r.cell_army.push((0, antidotes::cell::CellBundle {
        cell_trans: antidotes::cell::CellPos { x: 100, y: -200 },
        cell_attribute: attrs(10_000, 1_000, 100, 5_000, 0),
    }));
    r.good_cell_id.0 = 1;
    let actors = spawn_good_cells(&r);
    assert_eq!(actors.len(), 1);
    assert!(matches!(actors[0].kind, CellKind::GoodCell { cell_id: 0, .. }));
    assert_eq!(actors[0].attribute, r.cell_army[0].1.cell_attribute);
}

#[test]
fn destroy_cell_removes_dead_and_reconciles_roster() {
    let mut r = setup_player_resources();
    r.cell_army.push((0, antidotes::cell::CellBundle {
        cell_trans: antidotes::cell::CellPos { x: 0, y: 0 },
        cell_attribute: attrs(0, 1_000, 100, 5_000, 0),
    }));
    r.cell_army.push((1, antidotes::cell::CellBundle {
        cell_trans: antidotes::cell::CellPos { x: 0, y: 0 },
        cell_attribute: attrs(9_000, 1_000, 100, 5_000, 0),
    }));
    r.good_cell_id.0 = 2;
    let catalog = setup_substances();

    let dead_defender = Actor {
        kind: CellKind::GoodCell { cell_id: 0, cell_size: GOOD_CELL_SIZE },
        attribute: attrs(0, 1_000, 100, 5_000, 0),
    };
    let live_defender = Actor {
        kind: CellKind::GoodCell { cell_id: 1, cell_size: GOOD_CELL_SIZE },
        attribute: attrs(9_000, 1_000, 100, 5_000, 0),
    };
    let dead_invader = Actor { kind: CellKind::BadCell, attribute: attrs(0, 170, 500, 100, 0) };
    let mut actors = vec![dead_defender, live_defender, dead_invader];

    destroy_cell(&mut actors, &mut r, &catalog);

    assert_eq!(actors.len(), 1);
    assert!(matches!(actors[0].kind, CellKind::GoodCell { cell_id: 1, .. }));
    assert_eq!(r.cell_army.len(), 1);
    assert_eq!(r.cell_army[0].0, 1);
    // The dead invader drops at most one substance.
    assert!(r.substance_collection.len() <= 1);
    assert_eq!(r.substance_id_gen.0, r.substance_collection.len() as i32);
}

#[test]
fn dropped_substances_are_sign_consistent_and_in_range() {
    // Exercise the random drop path often enough to see actual drops; every
    // dropped substance must respect the sampling ranges and the
    // category-from-sign rule.
    let catalog = setup_substances();
    let mut r = setup_player_resources();
    let mut drops = 0;
    for _ in 0..600 {
        if roll_substance_drop(&mut r, &catalog) {
            drops += 1;
        }
    }
    assert_eq!(r.substance_collection.len(), drops);
    assert_eq!(r.substance_id_gen.0, drops as i32);
    for (k, s) in r.substance_collection.iter().enumerate() {
        assert_eq!(s.id, k as i32);
        assert!(s.value >= -800 && s.value <= 800);
        match s.substance_type {
            SubstanceType::Bitter => assert!(s.value < 0),
            SubstanceType::Balanced => assert_eq!(s.value, 0),
            SubstanceType::Sweet => assert!(s.value > 0),
        }
    }
}

#[test]
fn move_speed_resamples_inside_bounds() {
    for _ in 0..200 {
        let speed = resample_move_speed();
        assert!(speed >= BAD_CELL_MIN_SPEED && speed <= BAD_CELL_MAX_SPEED);
    }
}

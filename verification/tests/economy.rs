//! Tests of the substance economy: loading, unloading and injection.

use antidotes::antidote::{
    aggregate_batch, setup_substances, Substance, SubstanceType, TargetAttribute,
};
use antidotes::cell::{AttackTimer, CellAttack, CellAttribute, CellBundle, CellPos};
use antidotes::playerresource::{
    setup_player_resources, InjectError, LoadResult, PlayerResource, NEW_CELL_ATTACK_RATE,
    NEW_CELL_DAMAGE, NEW_CELL_HEALTH, NEW_CELL_IMMUNE,
};

fn substance(id: i32, attr: TargetAttribute, value: i64, kind: SubstanceType) -> Substance {
    Substance {
        id,
        name: "Testgen".to_string(),
        target_attribute: attr,
        value,
        substance_type: kind,
    }
}

fn defender(health: i64, damage: i64, rate: i64, immune: i64, infection: i64) -> CellBundle {
    CellBundle {
        cell_trans: CellPos { x: 0, y: 0 },
        cell_attribute: CellAttribute {
            health,
            immune,
            infection,
            cell_attack: CellAttack {
                attack_rate: rate,
                damage,
                timer: AttackTimer { period: rate, elapsed: 0 },
            },
        },
    }
}

fn roster_with_defender() -> PlayerResource {
    let mut r = setup_player_resources();
    r.cell_army.push((0, defender(10_000, 1_000, 100, 5_000, 0)));
    r.good_cell_id.0 = 1;
    r
}

#[test]
fn sweet_bitter_attack_scenario() {
    // Batch: sweet attack +10.0 and bitter attack -4.0. The bitter substance
    // contributes (-4.0) * (-1) = +4.0, so the attack gain is 14.0; the
    // matched pair spawns one extra defender; no infection penalty.
    let mut r = roster_with_defender();
    r.loaded_substances
        .push(substance(0, TargetAttribute::Attack, 1_000, SubstanceType::Sweet));
    r.loaded_substances
        .push(substance(1, TargetAttribute::Attack, -400, SubstanceType::Bitter));
    r.substance_id_gen.0 = 2;

    let totals = aggregate_batch(&r.loaded_substances);
    assert_eq!(totals.total_attack_gain, 1_400);
    assert_eq!(totals.to_spawn_cell_count, 1);
    assert_eq!(totals.total_add_infection, 0);
    assert_eq!(totals.total_sweet, 1);
    assert_eq!(totals.total_bitter, 1);

    let spawned = r.inject().unwrap();
    assert_eq!(spawned, 1);
    assert_eq!(r.cell_army.len(), 2);
    assert_eq!(r.cell_army[0].1.cell_attribute.cell_attack.damage, 1_000 + 1_400);
    assert_eq!(r.cell_army[0].1.cell_attribute.infection, 0);
    assert!(r.loaded_substances.is_empty());
}

#[test]
fn spawn_count_law_scenario() {
    // 2 balanced, 2 sweet, 1 bitter: cells to spawn = 2*2 + min(2, 1) = 5.
    let mut batch = Vec::new();
    batch.push(substance(0, TargetAttribute::Health, 0, SubstanceType::Balanced));
    batch.push(substance(1, TargetAttribute::Health, 0, SubstanceType::Balanced));
    batch.push(substance(2, TargetAttribute::Health, 100, SubstanceType::Sweet));
    batch.push(substance(3, TargetAttribute::Attack, 200, SubstanceType::Sweet));
    batch.push(substance(4, TargetAttribute::Attack, -100, SubstanceType::Bitter));
    let totals = aggregate_batch(&batch);
    assert_eq!(totals.to_spawn_cell_count, 5);
}

#[test]
fn infection_penalty_law_scenario() {
    // 3 sweet, 1 bitter: penalty = 5 * (3 - 1) units = 10.0 in fixed point.
    let mut batch = Vec::new();
    batch.push(substance(0, TargetAttribute::Health, 100, SubstanceType::Sweet));
    batch.push(substance(1, TargetAttribute::Health, 100, SubstanceType::Sweet));
    batch.push(substance(2, TargetAttribute::Attack, 100, SubstanceType::Sweet));
    batch.push(substance(3, TargetAttribute::Attack, -100, SubstanceType::Bitter));
    let totals = aggregate_batch(&batch);
    assert_eq!(totals.total_add_infection, 1_000);

    // No penalty when bitter substances outnumber sweet ones.
    let mut calm = Vec::new();
    calm.push(substance(0, TargetAttribute::Health, -100, SubstanceType::Bitter));
    calm.push(substance(1, TargetAttribute::Attack, 100, SubstanceType::Sweet));
    calm.push(substance(2, TargetAttribute::Attack, -100, SubstanceType::Bitter));
    assert_eq!(aggregate_batch(&calm).total_add_infection, 0);
}

#[test]
fn speed_and_immune_accumulate_negated() {
    // Sweet speed +0.2 lowers the interval by 0.2; bitter immune -3.0
    // contributes -(-3.0 * -1) = -3.0 to the immune gain.
    let mut batch = Vec::new();
    batch.push(substance(0, TargetAttribute::Speed, 20, SubstanceType::Sweet));
    batch.push(substance(1, TargetAttribute::Immune, -300, SubstanceType::Bitter));
    let totals = aggregate_batch(&batch);
    assert_eq!(totals.total_speed_gain, -20);
    assert_eq!(totals.total_immu_gain, -300);
}

#[test]
fn inject_applies_to_every_defender_and_clears_batch() {
    let mut r = setup_player_resources();
    r.cell_army.push((0, defender(10_000, 1_000, 100, 5_000, 0)));
    r.cell_army.push((1, defender(20_000, 2_000, 200, 6_000, 100)));
    r.good_cell_id.0 = 2;
    r.loaded_substances
        .push(substance(0, TargetAttribute::Health, 500, SubstanceType::Sweet));
    r.substance_id_gen.0 = 1;

    let spawned = r.inject().unwrap();
    // One unmatched sweet: no pair, no balanced, so nothing spawns, and the
    // whole roster takes the same health gain and infection penalty.
    assert_eq!(spawned, 0);
    assert_eq!(r.cell_army.len(), 2);
    assert_eq!(r.cell_army[0].1.cell_attribute.health, 10_500);
    assert_eq!(r.cell_army[1].1.cell_attribute.health, 20_500);
    assert_eq!(r.cell_army[0].1.cell_attribute.infection, 500);
    assert_eq!(r.cell_army[1].1.cell_attribute.infection, 600);
    assert!(r.loaded_substances.is_empty());
}

#[test]
fn inject_spawns_fresh_defenders_with_template_attributes() {
    let mut r = roster_with_defender();
    r.loaded_substances
        .push(substance(0, TargetAttribute::Health, 0, SubstanceType::Balanced));
    r.substance_id_gen.0 = 1;
    let spawned = r.inject().unwrap();
    assert_eq!(spawned, 2);
    assert_eq!(r.cell_army.len(), 3);
    assert_eq!(r.good_cell_id.0, 3);
    for j in 1..3 {
        let (id, bundle) = &r.cell_army[j];
        assert_eq!(*id, j as i32);
        assert_eq!(bundle.cell_attribute.health, NEW_CELL_HEALTH);
        assert_eq!(bundle.cell_attribute.cell_attack.damage, NEW_CELL_DAMAGE);
        assert_eq!(bundle.cell_attribute.cell_attack.attack_rate, NEW_CELL_ATTACK_RATE);
        assert_eq!(bundle.cell_attribute.immune, NEW_CELL_IMMUNE);
        assert_eq!(bundle.cell_attribute.infection, 0);
    }
}

#[test]
fn inject_empty_batch_rejected_without_mutation() {
    let mut r = roster_with_defender();
    let before_health = r.cell_army[0].1.cell_attribute.health;
    let result = r.inject();
    assert_eq!(result, Err(InjectError::EmptyBatch));
    assert_eq!(r.cell_army.len(), 1);
    assert_eq!(r.cell_army[0].1.cell_attribute.health, before_health);
    assert_eq!(r.good_cell_id.0, 1);
}

#[test]
fn load_moves_substance_into_batch() {
    let mut r = setup_player_resources();
    r.substance_collection
        .push(substance(0, TargetAttribute::Attack, 100, SubstanceType::Sweet));
    r.substance_id_gen.0 = 1;
    assert_eq!(r.add_to_loaded_substances(0), LoadResult::Loaded);
    assert!(r.substance_collection.is_empty());
    assert_eq!(r.loaded_substances.len(), 1);
    assert_eq!(r.loaded_substances[0].id, 0);
}

#[test]
fn load_rejected_when_batch_full() {
    let mut r = setup_player_resources();
    for id in 0..7 {
        r.substance_collection
            .push(substance(id, TargetAttribute::Attack, 100, SubstanceType::Sweet));
    }
    r.substance_id_gen.0 = 7;
    for id in 0..6 {
        assert_eq!(r.add_to_loaded_substances(id), LoadResult::Loaded);
    }
    assert_eq!(r.add_to_loaded_substances(6), LoadResult::BatchFull);
    assert_eq!(r.loaded_substances.len(), 6);
    assert_eq!(r.substance_collection.len(), 1);
}

#[test]
fn load_unknown_id_is_noop() {
    let mut r = setup_player_resources();
    r.substance_collection
        .push(substance(0, TargetAttribute::Attack, 100, SubstanceType::Sweet));
    r.substance_id_gen.0 = 1;
    assert_eq!(r.add_to_loaded_substances(42), LoadResult::UnknownId);
    assert_eq!(r.substance_collection.len(), 1);
    assert!(r.loaded_substances.is_empty());
}

#[test]
fn load_unload_round_trip_returns_identical_substance() {
    let mut r = setup_player_resources();
    r.substance_collection
        .push(substance(0, TargetAttribute::Speed, -30, SubstanceType::Bitter));
    r.substance_collection
        .push(substance(1, TargetAttribute::Immune, 250, SubstanceType::Sweet));
    r.substance_id_gen.0 = 2;
    assert_eq!(r.add_to_loaded_substances(1), LoadResult::Loaded);
    r.unload_all();
    assert!(r.loaded_substances.is_empty());
    assert_eq!(r.substance_collection.len(), 2);
    let back = r
        .substance_collection
        .iter()
        .find(|s| s.id == 1)
        .expect("substance must be back in the inventory");
    assert_eq!(back.value, 250);
    assert!(matches!(back.target_attribute, TargetAttribute::Immune));
    assert!(matches!(back.substance_type, SubstanceType::Sweet));
    assert_eq!(back.name, "Testgen");
}

#[test]
fn setup_wave_resource_grants_two_starters_on_wave_zero() {
    let mut r = setup_player_resources();
    r.setup_wave_resource();
    assert_eq!(r.substance_collection.len(), 2);
    assert_eq!(r.substance_id_gen.0, 2);
    for (k, s) in r.substance_collection.iter().enumerate() {
        assert_eq!(s.id, k as i32);
        assert_eq!(s.name, "Initgen");
        assert!(matches!(s.target_attribute, TargetAttribute::Immune));
        assert_eq!(s.value, 5_000);
        assert!(matches!(s.substance_type, SubstanceType::Balanced));
    }

    // Later waves grant nothing.
    r.wave_num = 1;
    r.setup_wave_resource();
    assert_eq!(r.substance_collection.len(), 2);
}

#[test]
fn catalog_holds_the_four_archetypes() {
    let catalog = setup_substances();
    let names: Vec<&str> = catalog.0.iter().map(|s| s.name.as_str()).collect();
    assert_eq!(names, vec!["Atagen", "Speegen", "Immugen", "Helagen"]);
    assert!(matches!(catalog.0[0].target_attribute, TargetAttribute::Attack));
    assert!(matches!(catalog.0[1].target_attribute, TargetAttribute::Speed));
    assert!(matches!(catalog.0[2].target_attribute, TargetAttribute::Immune));
    assert!(matches!(catalog.0[3].target_attribute, TargetAttribute::Health));
}

#[test]
fn substance_labels() {
    assert_eq!(SubstanceType::Sweet.label(), "Sweet");
    assert_eq!(SubstanceType::Bitter.label(), "Bitter");
    assert_eq!(SubstanceType::Balanced.label(), "Balanced");
    assert_eq!(TargetAttribute::Speed.label(), "Attack per sec");
}

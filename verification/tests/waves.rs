//! Tests of the wave/phase state machine and wave-clear resolution.

use antidotes::cell::{Actor, AttackTimer, CellAttack, CellAttribute, CellKind};
use antidotes::game::{game_loop, setup_ingame_resources, GameTimer};
use antidotes::gamefinish::update_wave_clear;
use antidotes::goodcell::GOOD_CELL_SIZE;
use antidotes::playerresource::setup_player_resources;
use antidotes::states::{
    create_antidote_btn_action, game_finish_action, game_over_action, game_prepare_btn_action,
    menu_action, setup_game_prepare, CreateAntidoteButtonAction, GameFinishButtonAction,
    GameOverButtonAction, GamePrepareButtonAction, GamePrepareState, GameState, MenuButtonAction,
};

fn attrs(health: i64, damage: i64, rate: i64, immune: i64, infection: i64) -> CellAttribute {
    CellAttribute {
        health,
        immune,
        infection,
        cell_attack: CellAttack {
            attack_rate: rate,
            damage,
            timer: AttackTimer { period: rate, elapsed: 0 },
        },
    }
}

#[test]
fn wave_clear_fires_exactly_once_after_grace_period() {
    // With no invaders alive and a 2.0-second grace timer, the phase becomes
    // wave-clear exactly when the 2.0 seconds have elapsed — and only that
    // once, because the loop only ever runs in the combat phase.
    let mut timer = setup_ingame_resources();
    assert_eq!(game_loop(true, false, &mut timer, 150), GameState::Game);
    let next = game_loop(true, false, &mut timer, 50);
    assert_eq!(next, GameState::GameFinish);
    assert_ne!(next, GameState::Game);
}

#[test]
fn combat_continues_while_invaders_live() {
    let mut timer = setup_ingame_resources();
    assert_eq!(game_loop(true, true, &mut timer, 1_000), GameState::Game);
    // The grace timer only advances while the arena is clear of invaders.
    assert_eq!(timer.elapsed, 0);
}

#[test]
fn defeat_when_no_defenders_remain() {
    let mut timer = setup_ingame_resources();
    assert_eq!(game_loop(false, true, &mut timer, 10), GameState::GameOver);
    // A cleared arena outweighs defeat once the grace period has elapsed.
    let mut timer2 = GameTimer::new(200);
    assert_eq!(game_loop(false, false, &mut timer2, 200), GameState::GameFinish);
    let mut timer3 = GameTimer::new(200);
    assert_eq!(game_loop(false, false, &mut timer3, 10), GameState::GameOver);
}

#[test]
fn update_wave_clear_increments_wave_and_writes_back() {
    let mut r = setup_player_resources();
    r.cell_army.push((0, antidotes::cell::CellBundle {
        cell_trans: antidotes::cell::CellPos { x: 5, y: 6 },
        cell_attribute: attrs(10_000, 1_000, 100, 5_000, 0),
    }));
    r.cell_army.push((1, antidotes::cell::CellBundle {
        cell_trans: antidotes::cell::CellPos { x: 7, y: 8 },
        cell_attribute: attrs(20_000, 2_000, 200, 6_000, 100),
    }));
    r.good_cell_id.0 = 2;

    // Defender 0 survived with changed attributes; defender 1 has no
    // surviving actor and keeps its snapshot.
    let survivors = vec![Actor {
        kind: CellKind::GoodCell { cell_id: 0, cell_size: GOOD_CELL_SIZE },
        attribute: attrs(4_000, 1_500, 100, 5_000, 900),
    }];
    update_wave_clear(&mut r, &survivors);

    assert_eq!(r.wave_num, 1);
    assert_eq!(r.cell_army[0].1.cell_attribute.health, 4_000);
    assert_eq!(r.cell_army[0].1.cell_attribute.cell_attack.damage, 1_500);
    assert_eq!(r.cell_army[0].1.cell_attribute.infection, 900);
    assert_eq!(r.cell_army[0].1.cell_trans.x, 5);
    assert_eq!(r.cell_army[1].1.cell_attribute.health, 20_000);
}

#[test]
fn menu_transitions() {
    assert_eq!(menu_action(&MenuButtonAction::Play), Some(GameState::Prepare));
    assert_eq!(menu_action(&MenuButtonAction::Quit), None);
    assert_eq!(setup_game_prepare(), GamePrepareState::CreateAntidote);
}

#[test]
fn prepare_tab_switching() {
    assert_eq!(
        game_prepare_btn_action(&GamePrepareButtonAction::CellArrangement),
        GamePrepareState::CellArrangement
    );
    assert_eq!(
        game_prepare_btn_action(&GamePrepareButtonAction::CreateAntidote),
        GamePrepareState::CreateAntidote
    );
}

#[test]
fn combat_start_rejected_with_empty_roster() {
    let (state, prepare) = create_antidote_btn_action(
        &CreateAntidoteButtonAction::Go,
        true,
        GameState::Prepare,
        GamePrepareState::CreateAntidote,
    );
    assert_eq!(state, GameState::Prepare);
    assert_eq!(prepare, GamePrepareState::CreateAntidote);

    let (state, prepare) = create_antidote_btn_action(
        &CreateAntidoteButtonAction::Go,
        false,
        GameState::Prepare,
        GamePrepareState::CreateAntidote,
    );
    assert_eq!(state, GameState::Game);
    assert_eq!(prepare, GamePrepareState::Disabled);
}

#[test]
fn return_and_end_screen_transitions() {
    let (state, prepare) = create_antidote_btn_action(
        &CreateAntidoteButtonAction::ReturnToMainMenu,
        false,
        GameState::Prepare,
        GamePrepareState::CreateAntidote,
    );
    assert_eq!(state, GameState::Menu);
    assert_eq!(prepare, GamePrepareState::Disabled);

    assert_eq!(
        game_finish_action(&GameFinishButtonAction::NextRound),
        GameState::Prepare
    );
    assert_eq!(
        game_finish_action(&GameFinishButtonAction::ReturnToMainMenu),
        GameState::Menu
    );
    assert_eq!(
        game_over_action(&GameOverButtonAction::ReturnToMainMenu),
        GameState::Menu
    );
}

#[test]
fn defender_positions_commit_on_arrangement() {
    let mut r = setup_player_resources();
    r.cell_army.push((0, antidotes::cell::CellBundle {
        cell_trans: antidotes::cell::CellPos { x: 0, y: 0 },
        cell_attribute: attrs(10_000, 1_000, 100, 5_000, 0),
    }));
    r.good_cell_id.0 = 1;
    r.set_defender_position(0, antidotes::cell::CellPos { x: 123, y: -456 });
    assert_eq!(r.cell_army[0].1.cell_trans.x, 123);
    assert_eq!(r.cell_army[0].1.cell_trans.y, -456);
    // Unknown ids are a no-op.
    r.set_defender_position(9, antidotes::cell::CellPos { x: 1, y: 1 });
    assert_eq!(r.cell_army.len(), 1);
}

#[test]
fn remove_defender_drops_only_that_entry() {
    let mut r = setup_player_resources();
    r.cell_army.push((0, antidotes::cell::CellBundle {
        cell_trans: antidotes::cell::CellPos { x: 0, y: 0 },
        cell_attribute: attrs(10_000, 1_000, 100, 5_000, 0),
    }));
    r.cell_army.push((1, antidotes::cell::CellBundle {
        cell_trans: antidotes::cell::CellPos { x: 0, y: 0 },
        cell_attribute: attrs(20_000, 2_000, 200, 6_000, 0),
    }));
    r.good_cell_id.0 = 2;
    r.remove_defender(0);
    assert_eq!(r.cell_army.len(), 1);
    assert_eq!(r.cell_army[0].0, 1);
    r.remove_defender(42);
    assert_eq!(r.cell_army.len(), 1);
}

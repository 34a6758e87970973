//! Defender-side combat: defenders are stationary attackers that strike any
//! invader inside their attack range on the usual cooldown-timer mechanic.

use vstd::prelude::*;

use crate::cell::{Actor, CellAttack, CellAttribute, CellKind};
use crate::fixed::clamp_nonneg;
use crate::playerresource::PlayerResource;

verus! {

/// Distance (fixed-point world units) inside which a defender can strike.
pub const GOOD_CELL_ATTACK_RANGE: i64 = 1_000;

/// Radius inside which unplaced defenders are scattered at spawn.
pub const GOOD_CELL_SPAWN_RADIUS: i64 = 20_000;

/// Displayed size of a defender, also its hit radius while being arranged.
pub const GOOD_CELL_SIZE: i64 = 1_500;

/// Identifier generator for defenders.
#[derive(Clone, Copy, PartialEq, Eq, Structural, Debug)]
pub struct GoodCellId(pub i32);

/// One attack encounter of a stationary defender against an invader in
/// range: the cooldown timer advances by the configured attack interval and,
/// when it completes, the damage lands; the victim's health never drops
/// below zero.
pub fn attack(attacker: &mut CellAttack, victim: &mut CellAttribute) -> (hit: bool)
    requires
        old(attacker).wf(),
        old(victim).wf(),
        old(attacker).attack_rate >= 0,
    ensures
        final(attacker).wf(),
        final(victim).wf(),
        final(attacker).attack_rate == old(attacker).attack_rate,
        final(attacker).damage == old(attacker).damage,
        final(attacker).timer.period == old(attacker).timer.period,
        hit == (old(attacker).timer.elapsed + old(attacker).attack_rate
            >= old(attacker).timer.period),
        hit ==> final(victim).health == clamp_nonneg(old(victim).health - old(attacker).damage),
        !hit ==> *final(victim) == *old(victim) && final(attacker).timer.elapsed == old(
            attacker,
        ).timer.elapsed + old(attacker).attack_rate,
        final(victim).health >= 0,
        final(victim).immune == old(victim).immune,
        final(victim).infection == old(victim).infection,
        final(victim).cell_attack == old(victim).cell_attack,
{
    let rate = attacker.attack_rate;
    let finished = attacker.timer.tick(rate);
    if finished {
        let damage = attacker.damage;
        victim.inflict_dmg(damage);
    }
    finished
}

/// Spawn the defender actors for a combat phase from the roster's defender
/// snapshots: one actor per roster entry, in roster order, carrying its
/// identity and attributes.
pub fn spawn_good_cells(player_resources: &PlayerResource) -> (actors: Vec<Actor>)
    requires
        player_resources.wf(),
    ensures
        actors@.len() == player_resources.cell_army@.len(),
        forall|i: int|
            0 <= i < actors@.len() ==> #[trigger] actors@[i] == (Actor {
                kind: CellKind::GoodCell {
                    cell_id: player_resources.cell_army@[i].0,
                    cell_size: GOOD_CELL_SIZE,
                },
                attribute: player_resources.cell_army@[i].1.cell_attribute,
            }),
        forall|i: int| 0 <= i < actors@.len() ==> #[trigger] actors@[i].wf(),
{
    let mut actors: Vec<Actor> = Vec::new();
    let mut idx: usize = 0;
    while idx < player_resources.cell_army.len()
        invariant
            player_resources.wf(),
            0 <= idx <= player_resources.cell_army@.len(),
            actors@.len() == idx,
            forall|i: int|
                0 <= i < actors@.len() ==> #[trigger] actors@[i] == (Actor {
                    kind: CellKind::GoodCell {
                        cell_id: player_resources.cell_army@[i].0,
                        cell_size: GOOD_CELL_SIZE,
                    },
                    attribute: player_resources.cell_army@[i].1.cell_attribute,
                }),
            forall|i: int| 0 <= i < actors@.len() ==> #[trigger] actors@[i].wf(),
        decreases player_resources.cell_army@.len() - idx,
    {
        let (id, bundle) = player_resources.cell_army[idx];
        actors.push(
            Actor {
                kind: CellKind::GoodCell { cell_id: id, cell_size: GOOD_CELL_SIZE },
                attribute: bundle.cell_attribute,
            },
        );
        idx = idx + 1;
    }
    actors
}

} // verus!

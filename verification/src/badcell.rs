//! Invader-side combat: wave-scaled spawning, target selection among
//! defenders in search range, and the attack encounter that may also infect
//! its victim.

use vstd::prelude::*;

use crate::cell::{
    Actor, CellAttack, CellAttribute, CellKind, INFECT_PROC_CHANCE, INFECT_PROC_RATE,
};
use crate::fixed::{clamp_nonneg, fx_mul, fx_mul_spec, ATTR_LIMIT, FX_ONE};
use crate::playerresource::WAVE_LIMIT;
use crate::rng::{roll_percent, sample_value};

verus! {

/// Radius inside which invaders first appear, in fixed-point world units.
pub const BAD_CELL_SPAWN_RADIUS: i64 = 40_000;

/// Radius inside which an invader looks for a defender to chase.
pub const BAD_CELL_SEARCH_RADIUS: i64 = 100_000;

/// Distance inside which an invader can strike.
pub const BAD_CELL_ATTACK_RANGE: i64 = 1_000;

/// Invaders in the first wave; each later wave adds three more.
pub const BAD_CELL_BASE_COUNT: i64 = 60;

/// Per-wave strength factor, in fixed point, applied on spike waves.
pub const BAD_CELL_BASE_STRENGTH_MULTIPLIER: i64 = 25;

/// Base health of an invader, in fixed point.
pub const BAD_CELL_BASE_HEALTH: i64 = 1_000;

/// Immune threshold of an invader, in fixed point.
pub const BAD_CELL_IMMUNE: i64 = 10_000;

/// Base attack interval of an invader, in fixed point, before the strength
/// multiplier shortens it.
pub const BAD_CELL_BASE_ATTACK_RATE: i64 = 570;

/// Fixed-point factor by which the strength multiplier shortens the attack
/// interval.
pub const BAD_CELL_ATTACK_RATE_FACTOR: i64 = 70;

/// Base damage of an invader, in fixed point.
pub const BAD_CELL_BASE_DAMAGE: i64 = 80;

/// Fixed-point factor by which the strength multiplier raises the damage.
pub const BAD_CELL_DAMAGE_FACTOR: i64 = 90;

/// Slowest and fastest movement speed an invader can draw each tick.
pub const BAD_CELL_MIN_SPEED: i64 = 500;

/// Fastest movement speed an invader can draw each tick.
pub const BAD_CELL_MAX_SPEED: i64 = 8_000;

/// How far an invader scans for defenders.
#[derive(Clone, Copy, PartialEq, Eq, Structural, Debug)]
pub struct SearchRange {
    pub range: i64,
}

/// Number of invaders a wave spawns.
pub open spec fn bad_cell_count(wave: int) -> int {
    BAD_CELL_BASE_COUNT + wave * 3
}

/// Strength multiplier of a wave, in fixed point: every third wave spikes in
/// proportion to the wave number; other waves use a factor of one.
pub open spec fn strength_multiplier(wave: int) -> int {
    if wave != 0 && wave % 3 == 0 {
        wave * (BAD_CELL_BASE_STRENGTH_MULTIPLIER as int)
    } else {
        FX_ONE as int
    }
}

/// Attack interval of a wave's invaders, in fixed point; strong waves attack
/// faster. Negative for extreme wave numbers, where no invader can be built.
pub open spec fn bad_cell_attack_rate(wave: int) -> int {
    BAD_CELL_BASE_ATTACK_RATE - fx_mul_spec(
        strength_multiplier(wave),
        BAD_CELL_ATTACK_RATE_FACTOR as int,
    )
}

/// Damage of a wave's invaders, in fixed point.
pub open spec fn bad_cell_damage(wave: int) -> int {
    BAD_CELL_BASE_DAMAGE + fx_mul_spec(strength_multiplier(wave), BAD_CELL_DAMAGE_FACTOR as int)
}

/// Health of a wave's invaders, in fixed point.
pub open spec fn bad_cell_health(wave: int) -> int {
    fx_mul_spec(BAD_CELL_BASE_HEALTH as int, strength_multiplier(wave))
}

/// Strength multiplier of a wave, executable form.
pub fn wave_strength_multiplier(wave: i32) -> (m: i64)
    requires
        0 <= wave <= WAVE_LIMIT,
    ensures
        m == strength_multiplier(wave as int),
        BAD_CELL_BASE_STRENGTH_MULTIPLIER <= m <= WAVE_LIMIT as i64
            * BAD_CELL_BASE_STRENGTH_MULTIPLIER,
{
    if wave != 0 && wave % 3 == 0 {
        (wave as i64) * BAD_CELL_BASE_STRENGTH_MULTIPLIER
    } else {
        FX_ONE
    }
}

/// Attack interval of a wave's invaders, executable form; lets callers check
/// that the wave is playable before spawning it.
pub fn wave_attack_rate(wave: i32) -> (r: i64)
    requires
        0 <= wave <= WAVE_LIMIT,
    ensures
        r == bad_cell_attack_rate(wave as int),
{
    let m = wave_strength_multiplier(wave);
    proof {
        lemma_multiplier_products(m as int);
    }
    BAD_CELL_BASE_ATTACK_RATE - fx_mul(m, BAD_CELL_ATTACK_RATE_FACTOR)
}

/// Products of a bounded strength multiplier with the scaling factors stay
/// inside the fixed-point multiplication domain.
proof fn lemma_multiplier_products(m: int)
    requires
        0 <= m <= WAVE_LIMIT * BAD_CELL_BASE_STRENGTH_MULTIPLIER,
    ensures
        m * (BAD_CELL_ATTACK_RATE_FACTOR as int) <= ATTR_LIMIT * FX_ONE,
        m * (BAD_CELL_DAMAGE_FACTOR as int) <= ATTR_LIMIT * FX_ONE,
        (BAD_CELL_BASE_HEALTH as int) * m <= ATTR_LIMIT * FX_ONE,
        0 <= m * (BAD_CELL_ATTACK_RATE_FACTOR as int),
        0 <= m * (BAD_CELL_DAMAGE_FACTOR as int),
        0 <= (BAD_CELL_BASE_HEALTH as int) * m,
{
    assert(m * (BAD_CELL_ATTACK_RATE_FACTOR as int) <= ATTR_LIMIT * FX_ONE && m
        * (BAD_CELL_DAMAGE_FACTOR as int) <= ATTR_LIMIT * FX_ONE && (BAD_CELL_BASE_HEALTH as int)
        * m <= ATTR_LIMIT * FX_ONE && 0 <= m * (BAD_CELL_ATTACK_RATE_FACTOR as int) && 0 <= m * (
    BAD_CELL_DAMAGE_FACTOR as int) && 0 <= (BAD_CELL_BASE_HEALTH as int) * m) by (nonlinear_arith)
        requires
            0 <= m <= WAVE_LIMIT * BAD_CELL_BASE_STRENGTH_MULTIPLIER,
    ;
}

/// Whether a wave's invaders can be built: their attack interval must still
/// be positive.
pub fn can_spawn_wave(wave: i32) -> (ok: bool)
    requires
        0 <= wave <= WAVE_LIMIT,
    ensures
        ok == (bad_cell_attack_rate(wave as int) >= 1),
{
    wave_attack_rate(wave) >= 1
}

/// Spawn the invader actors of a wave: the wave-scaled count of identical
/// invaders, each with the wave's health, damage and attack interval.
pub fn spawn_bad_cells(wave: i32) -> (actors: Vec<Actor>)
    requires
        0 <= wave <= WAVE_LIMIT,
        bad_cell_attack_rate(wave as int) >= 1,
    ensures
        actors@.len() == bad_cell_count(wave as int),
        forall|i: int|
            0 <= i < actors@.len() ==> ({
                let a = #[trigger] actors@[i];
                &&& a.kind == CellKind::BadCell
                &&& a.attribute.health == bad_cell_health(wave as int)
                &&& a.attribute.immune == BAD_CELL_IMMUNE
                &&& a.attribute.infection == 0
                &&& a.attribute.cell_attack.damage == bad_cell_damage(wave as int)
                &&& a.attribute.cell_attack.attack_rate == bad_cell_attack_rate(wave as int)
                &&& a.attribute.cell_attack.timer.period == bad_cell_attack_rate(wave as int)
                &&& a.attribute.cell_attack.timer.elapsed == 0
                &&& a.wf()
            }),
{
    let m = wave_strength_multiplier(wave);
    proof {
        lemma_multiplier_products(m as int);
    }
    let health = fx_mul(BAD_CELL_BASE_HEALTH, m);
    let damage = BAD_CELL_BASE_DAMAGE + fx_mul(m, BAD_CELL_DAMAGE_FACTOR);
    let attack_rate = BAD_CELL_BASE_ATTACK_RATE - fx_mul(m, BAD_CELL_ATTACK_RATE_FACTOR);
    let max_cell_count: i64 = BAD_CELL_BASE_COUNT + (wave as i64) * 3;
    let mut actors: Vec<Actor> = Vec::new();
    let mut cell_count: i64 = 0;
    let template = Actor {
        kind: CellKind::BadCell,
        attribute: CellAttribute {
            health,
            immune: BAD_CELL_IMMUNE,
            infection: 0,
            cell_attack: CellAttack::new(attack_rate, damage),
        },
    };
    while cell_count < max_cell_count
        invariant
            0 <= cell_count <= max_cell_count,
            max_cell_count == bad_cell_count(wave as int),
            actors@.len() == cell_count,
            template.kind == CellKind::BadCell,
            template.attribute.health == bad_cell_health(wave as int),
            template.attribute.immune == BAD_CELL_IMMUNE,
            template.attribute.infection == 0,
            template.attribute.cell_attack.damage == bad_cell_damage(wave as int),
            template.attribute.cell_attack.attack_rate == bad_cell_attack_rate(wave as int),
            template.attribute.cell_attack.timer.period == bad_cell_attack_rate(wave as int),
            template.attribute.cell_attack.timer.elapsed == 0,
            template.wf(),
            forall|i: int| 0 <= i < actors@.len() ==> #[trigger] actors@[i] == template,
        decreases max_cell_count - cell_count,
    {
        actors.push(template);
        cell_count = cell_count + 1;
    }
    actors
}

/// Resample an invader's movement speed for one tick.
pub fn resample_move_speed() -> (speed: i64)
    ensures
        BAD_CELL_MIN_SPEED <= speed <= BAD_CELL_MAX_SPEED,
{
    sample_value(BAD_CELL_MIN_SPEED, BAD_CELL_MAX_SPEED)
}

/// Pick the defender an invader chases: the nearest one inside its search
/// range (later entries win ties, matching scan order); none when no
/// defender is inside the range.
pub fn nearest_target(distances: &Vec<i64>, search_range: &SearchRange) -> (r: Option<usize>)
    ensures
        r is Some <==> exists|j: int| 0 <= j < distances@.len() && #[trigger] distances@[j]
            <= search_range.range,
        r matches Some(i) ==> ({
            let range = search_range.range;
            &&& i < distances@.len()
            &&& distances@[i as int] <= range
            &&& forall|j: int|
                0 <= j < distances@.len() && #[trigger] distances@[j] <= range ==> distances@[j]
                    >= distances@[i as int]
            &&& forall|j: int|
                i < j < distances@.len() && #[trigger] distances@[j] <= range ==> distances@[j]
                    > distances@[i as int]
        }),
{
    let range = search_range.range;
    let mut best: Option<usize> = None;
    let mut idx: usize = 0;
    while idx < distances.len()
        invariant
            0 <= idx <= distances@.len(),
            range == search_range.range,
            best is Some <==> exists|j: int| 0 <= j < idx && #[trigger] distances@[j] <= range,
            best matches Some(i) ==> ({
                &&& i < idx
                &&& distances@[i as int] <= range
                &&& forall|j: int|
                    0 <= j < idx && #[trigger] distances@[j] <= range ==> distances@[j]
                        >= distances@[i as int]
                &&& forall|j: int|
                    i < j < idx && #[trigger] distances@[j] <= range ==> distances@[j]
                        > distances@[i as int]
            }),
        decreases distances@.len() - idx,
    {
        let d = distances[idx];
        if d <= range {
            match best {
                Some(b) => {
                    if d <= distances[b] {
                        best = Some(idx);
                    }
                },
                None => {
                    best = Some(idx);
                },
            }
        }
        idx = idx + 1;
    }
    best
}

/// One attack encounter of an invader against a defender in range, with the
/// infection roll given: the cooldown timer advances by the configured
/// interval; when it completes the damage lands (health floored at zero) and
/// a low roll additionally infects the victim.
pub fn move_attack_with_roll(
    attacker: &mut CellAttack,
    victim: &mut CellAttribute,
    infect_roll: i32,
) -> (hit: bool)
    requires
        old(attacker).wf(),
        old(victim).wf(),
        old(attacker).attack_rate >= 0,
        1 <= infect_roll <= 100,
    ensures
        final(attacker).wf(),
        final(victim).wf(),
        final(attacker).attack_rate == old(attacker).attack_rate,
        final(attacker).damage == old(attacker).damage,
        final(attacker).timer.period == old(attacker).timer.period,
        hit == (old(attacker).timer.elapsed + old(attacker).attack_rate
            >= old(attacker).timer.period),
        hit ==> final(victim).health == clamp_nonneg(old(victim).health - old(attacker).damage),
        hit && infect_roll <= INFECT_PROC_CHANCE ==> final(victim).infection == clamp_nonneg(
            old(victim).infection + INFECT_PROC_RATE,
        ),
        hit && infect_roll > INFECT_PROC_CHANCE ==> final(victim).infection == old(
            victim,
        ).infection,
        !hit ==> *final(victim) == *old(victim),
        final(victim).health >= 0,
        final(victim).immune == old(victim).immune,
        final(victim).cell_attack == old(victim).cell_attack,
{
    let rate = attacker.attack_rate;
    let finished = attacker.timer.tick(rate);
    if finished {
        let damage = attacker.damage;
        victim.inflict_dmg(damage);
        if infect_roll <= INFECT_PROC_CHANCE {
            victim.infect(INFECT_PROC_RATE);
        }
    }
    finished
}

/// One attack encounter of an invader against a defender in range, drawing
/// the infection roll: when the cooldown completes the damage lands, and the
/// victim's infection either stays unchanged or rises by the infection
/// increment.
pub fn move_attack(attacker: &mut CellAttack, victim: &mut CellAttribute) -> (hit: bool)
    requires
        old(attacker).wf(),
        old(victim).wf(),
        old(attacker).attack_rate >= 0,
    ensures
        final(attacker).wf(),
        final(victim).wf(),
        final(attacker).attack_rate == old(attacker).attack_rate,
        final(attacker).damage == old(attacker).damage,
        final(attacker).timer.period == old(attacker).timer.period,
        hit == (old(attacker).timer.elapsed + old(attacker).attack_rate
            >= old(attacker).timer.period),
        hit ==> final(victim).health == clamp_nonneg(old(victim).health - old(attacker).damage),
        hit ==> final(victim).infection == old(victim).infection || final(victim).infection
            == clamp_nonneg(old(victim).infection + INFECT_PROC_RATE),
        !hit ==> *final(victim) == *old(victim),
        final(victim).health >= 0,
        final(victim).immune == old(victim).immune,
        final(victim).cell_attack == old(victim).cell_attack,
{
    let infect_roll = roll_percent();
    move_attack_with_roll(attacker, victim, infect_roll)
}

} // verus!

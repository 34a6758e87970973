//! Actors and their combat state: attribute store, attack cooldown timers,
//! damage application, infection, and the conversion check that may turn an
//! infected defender into an invader.

use vstd::prelude::*;

use crate::antidote::{
    category_of, make_drop_substance, value_in_sample_range, SubstanceResource, DROP_CHANCE,
    SPEED_VALUE_MAX, SPEED_VALUE_MIN, VALUE_MAX, VALUE_MIN,
};
use crate::antidote::TargetAttribute;
use crate::fixed::{add_clamp_nonneg, clamp_nonneg, ATTR_LIMIT};
use crate::playerresource::{unique_army_ids, PlayerResource};
use crate::rng::{roll_percent, sample_index, sample_value};

verus! {

/// Chance (out of 100) that a damage hit also infects the victim.
pub const INFECT_PROC_CHANCE: i32 = 5;

/// Infection added by one successful infection proc, in fixed point.
pub const INFECT_PROC_RATE: i64 = 200;

/// Chance (out of 100) that an infected defender is purified and empowered
/// instead of converted.
pub const GOLDEN_CHANCE: i32 = 30;

/// Health granted on purification, in fixed point.
pub const EMPOWER_HEALTH_BONUS: i64 = 10_000;

/// Immune threshold set on purification, in fixed point.
pub const EMPOWER_IMMUNE_THRESHOLD: i64 = 9_000;

/// Health floor of a converted defender, in fixed point.
pub const CONVERT_MIN_HEALTH: i64 = 2_500;

/// Damage cap of a converted defender, in fixed point.
pub const CONVERT_MAX_DAMAGE: i64 = 500;

/// Attack-interval floor of a converted defender, in fixed point.
pub const CONVERT_MIN_ATTACK_RATE: i64 = 800;

/// A repeating cooldown timer: `elapsed` advances by each tick's delta and
/// wraps around `period` when it completes.
#[derive(Clone, Copy, PartialEq, Eq, Structural, Debug)]
pub struct AttackTimer {
    pub period: i64,
    pub elapsed: i64,
}

impl AttackTimer {
    /// Well-formed: a positive bounded period, with the elapsed time inside it.
    pub open spec fn wf(self) -> bool {
        &&& 1 <= self.period <= ATTR_LIMIT
        &&& 0 <= self.elapsed < self.period
    }

    /// Fresh timer with the given period.
    pub fn new(period: i64) -> (t: AttackTimer)
        requires
            1 <= period <= ATTR_LIMIT,
        ensures
            t.wf(),
            t.period == period,
            t.elapsed == 0,
    {
        AttackTimer { period, elapsed: 0 }
    }

    /// Advance the timer by `delta`; report whether it completed, wrapping
    /// the elapsed time when it does.
    pub fn tick(&mut self, delta: i64) -> (finished: bool)
        requires
            old(self).wf(),
            0 <= delta <= ATTR_LIMIT,
        ensures
            final(self).wf(),
            final(self).period == old(self).period,
            finished == (old(self).elapsed + delta >= old(self).period),
            finished ==> final(self).elapsed == (old(self).elapsed + delta) % (
            old(self).period as int),
            !finished ==> final(self).elapsed == old(self).elapsed + delta,
    {
        let advanced: i64 = self.elapsed + delta;
        if advanced >= self.period {
            self.elapsed = advanced % self.period;
            true
        } else {
            self.elapsed = advanced;
            false
        }
    }
}

/// Attack profile: damage per hit and the interval (in fixed-point seconds)
/// between hits, gated by a cooldown timer.
#[derive(Clone, Copy, PartialEq, Eq, Structural, Debug)]
pub struct CellAttack {
    pub attack_rate: i64,
    pub damage: i64,
    pub timer: AttackTimer,
}

impl CellAttack {
    /// Well-formed: bounded rate and non-negative bounded damage, with a
    /// well-formed timer.
    pub open spec fn wf(self) -> bool {
        &&& -ATTR_LIMIT <= self.attack_rate <= ATTR_LIMIT
        &&& 0 <= self.damage <= ATTR_LIMIT
        &&& self.timer.wf()
    }

    /// Fresh attack profile whose timer period is the attack interval.
    pub fn new(attack_rate: i64, damage: i64) -> (a: CellAttack)
        requires
            1 <= attack_rate <= ATTR_LIMIT,
            0 <= damage <= ATTR_LIMIT,
        ensures
            a.wf(),
            a.attack_rate == attack_rate,
            a.damage == damage,
            a.timer.period == attack_rate,
            a.timer.elapsed == 0,
    {
        CellAttack { attack_rate, damage, timer: AttackTimer::new(attack_rate) }
    }
}

/// Per-actor combat and biology state.
#[derive(Clone, Copy, PartialEq, Eq, Structural, Debug)]
pub struct CellAttribute {
    pub health: i64,
    pub immune: i64,
    pub cell_attack: CellAttack,
    pub infection: i64,
}

impl CellAttribute {
    /// Well-formed: health and infection non-negative, every field bounded.
    pub open spec fn wf(self) -> bool {
        &&& 0 <= self.health <= ATTR_LIMIT
        &&& -ATTR_LIMIT <= self.immune <= ATTR_LIMIT
        &&& 0 <= self.infection <= ATTR_LIMIT
        &&& self.cell_attack.wf()
    }

    /// Apply damage; health is floored at zero and never goes negative.
    pub fn inflict_dmg(&mut self, damage: i64)
        requires
            old(self).wf(),
            0 <= damage <= ATTR_LIMIT,
        ensures
            final(self).wf(),
            final(self).health == clamp_nonneg(old(self).health - damage),
            final(self).health >= 0,
            final(self).immune == old(self).immune,
            final(self).infection == old(self).infection,
            final(self).cell_attack == old(self).cell_attack,
    {
        self.health = add_clamp_nonneg(self.health, -damage);
    }

    /// Raise the infection level by `rate`.
    pub fn infect(&mut self, rate: i64)
        requires
            old(self).wf(),
            0 <= rate <= ATTR_LIMIT,
        ensures
            final(self).wf(),
            final(self).infection == clamp_nonneg(old(self).infection + rate),
            final(self).infection >= old(self).infection,
            final(self).health == old(self).health,
            final(self).immune == old(self).immune,
            final(self).cell_attack == old(self).cell_attack,
    {
        self.infection = add_clamp_nonneg(self.infection, rate);
    }
}

/// A position in the arena, in fixed-point world units.
#[derive(Clone, Copy, PartialEq, Eq, Structural, Debug)]
pub struct CellPos {
    pub x: i64,
    pub y: i64,
}

impl CellPos {
    /// The origin, used for defenders that have not been placed yet.
    pub fn zero() -> (p: CellPos)
        ensures
            p.x == 0 && p.y == 0,
    {
        CellPos { x: 0, y: 0 }
    }
}

/// Roster snapshot of one defender: its last-known position and attributes.
#[derive(Clone, Copy, PartialEq, Eq, Structural, Debug)]
pub struct CellBundle {
    pub cell_trans: CellPos,
    pub cell_attribute: CellAttribute,
}

/// Which side an actor is on; a defender keeps its roster identity and its
/// displayed size.
#[derive(Clone, Copy, PartialEq, Eq, Structural, Debug)]
pub enum CellKind {
    GoodCell { cell_id: i32, cell_size: i64 },
    BadCell,
}

/// A live actor in the arena: side tag plus attribute state.
#[derive(Clone, Copy, PartialEq, Eq, Structural, Debug)]
pub struct Actor {
    pub kind: CellKind,
    pub attribute: CellAttribute,
}

impl Actor {
    /// Well-formed actor state.
    pub open spec fn wf(self) -> bool {
        self.attribute.wf()
    }

    /// True of a defender.
    pub open spec fn is_good_cell(self) -> bool {
        self.kind is GoodCell
    }

    /// True of an invader.
    pub open spec fn is_bad_cell(self) -> bool {
        self.kind is BadCell
    }

    /// True once health has reached zero: the actor is terminal.
    pub open spec fn is_dead(self) -> bool {
        self.attribute.health <= 0
    }
}

/// What the conversion check decided for one infected defender.
#[derive(Clone, Copy, PartialEq, Eq, Structural, Debug)]
pub enum InfectionOutcome {
    Empowered,
    Converted,
}

/// The attribute state after a conversion check that rolled `roll`.
pub open spec fn infection_result(a: CellAttribute, roll: int) -> CellAttribute {
    if roll <= GOLDEN_CHANCE {
        CellAttribute {
            health: clamp_nonneg(a.health + EMPOWER_HEALTH_BONUS) as i64,
            infection: 0,
            immune: EMPOWER_IMMUNE_THRESHOLD,
            cell_attack: a.cell_attack,
        }
    } else {
        CellAttribute {
            health: if a.health < CONVERT_MIN_HEALTH {
                CONVERT_MIN_HEALTH
            } else {
                a.health
            },
            immune: a.immune,
            infection: a.infection,
            cell_attack: CellAttack {
                damage: if a.cell_attack.damage > CONVERT_MAX_DAMAGE {
                    CONVERT_MAX_DAMAGE
                } else {
                    a.cell_attack.damage
                },
                attack_rate: if a.cell_attack.attack_rate < CONVERT_MIN_ATTACK_RATE {
                    CONVERT_MIN_ATTACK_RATE
                } else {
                    a.cell_attack.attack_rate
                },
                timer: a.cell_attack.timer,
            },
        }
    }
}

/// Resolve the conversion check for an infected defender with a given roll.
/// A low roll purifies and empowers the defender; any other roll weakens it
/// into an invader: health floored, damage capped, attack interval floored.
pub fn resolve_infection(attrs: &mut CellAttribute, roll: i32) -> (outcome: InfectionOutcome)
    requires
        old(attrs).wf(),
        old(attrs).infection > old(attrs).immune,
        1 <= roll <= 100,
    ensures
        final(attrs).wf(),
        *final(attrs) == infection_result(*old(attrs), roll as int),
        outcome == (if roll <= GOLDEN_CHANCE {
            InfectionOutcome::Empowered
        } else {
            InfectionOutcome::Converted
        }),
        outcome == InfectionOutcome::Converted ==> final(attrs).health >= CONVERT_MIN_HEALTH
            && final(attrs).cell_attack.damage <= CONVERT_MAX_DAMAGE
            && final(attrs).cell_attack.attack_rate >= CONVERT_MIN_ATTACK_RATE,
{
    if roll <= GOLDEN_CHANCE {
        attrs.health = add_clamp_nonneg(attrs.health, EMPOWER_HEALTH_BONUS);
        attrs.infection = 0;
        attrs.immune = EMPOWER_IMMUNE_THRESHOLD;
        InfectionOutcome::Empowered
    } else {
        if attrs.health < CONVERT_MIN_HEALTH {
            attrs.health = CONVERT_MIN_HEALTH;
        }
        if attrs.cell_attack.damage > CONVERT_MAX_DAMAGE {
            attrs.cell_attack.damage = CONVERT_MAX_DAMAGE;
        }
        if attrs.cell_attack.attack_rate < CONVERT_MIN_ATTACK_RATE {
            attrs.cell_attack.attack_rate = CONVERT_MIN_ATTACK_RATE;
        }
        InfectionOutcome::Converted
    }
}

/// One conversion pass over a batch of actors, given one roll per actor:
/// every qualifying defender — infected beyond its immune threshold — is
/// resolved exactly once; every other actor is untouched.
pub fn track_cell_infection_with_rolls(actors: &mut Vec<Actor>, rolls: &Vec<i32>)
    requires
        forall|i: int| 0 <= i < old(actors)@.len() ==> #[trigger] old(actors)@[i].wf(),
        rolls@.len() == old(actors)@.len(),
        forall|i: int| 0 <= i < rolls@.len() ==> 1 <= #[trigger] rolls@[i] <= 100,
    ensures
        final(actors)@.len() == old(actors)@.len(),
        forall|i: int| 0 <= i < final(actors)@.len() ==> #[trigger] final(actors)@[i].wf(),
        forall|i: int|
            0 <= i < final(actors)@.len() ==> #[trigger] final(actors)@[i] == infection_step(
                old(actors)@[i],
                rolls@[i] as int,
            ),
{
    let mut idx: usize = 0;
    while idx < actors.len()
        invariant
            actors@.len() == old(actors)@.len(),
            rolls@.len() == old(actors)@.len(),
            0 <= idx <= actors@.len(),
            forall|i: int| 0 <= i < old(actors)@.len() ==> #[trigger] old(actors)@[i].wf(),
            forall|i: int| 0 <= i < rolls@.len() ==> 1 <= #[trigger] rolls@[i] <= 100,
            forall|i: int| 0 <= i < actors@.len() ==> #[trigger] actors@[i].wf(),
            forall|i: int| idx <= i < actors@.len() ==> #[trigger] actors@[i] == old(actors)@[i],
            forall|i: int|
                0 <= i < idx ==> #[trigger] actors@[i] == infection_step(
                    old(actors)@[i],
                    rolls@[i] as int,
                ),
        decreases actors@.len() - idx,
    {
        let qualifies = match actors[idx].kind {
            CellKind::GoodCell { .. } => actors[idx].attribute.infection
                > actors[idx].attribute.immune,
            CellKind::BadCell => false,
        };
        if qualifies {
            let roll = rolls[idx];
            let mut attrs = actors[idx].attribute;
            proof {
                assert(actors@[idx as int].wf());
            }
            let outcome = resolve_infection(&mut attrs, roll);
            let kind = match outcome {
                InfectionOutcome::Empowered => actors[idx].kind,
                InfectionOutcome::Converted => CellKind::BadCell,
            };
            actors.set(idx, Actor { kind, attribute: attrs });
        }
        idx = idx + 1;
    }
}

/// The death sweep at the end of a combat tick: every actor whose health has
/// reached zero is removed before the next tick can process it again. A dead
/// invader may drop one substance into the inventory; a dead defender's
/// entry leaves the roster. Surviving actors and roster entries keep their
/// order.
pub fn destroy_cell(
    actors: &mut Vec<Actor>,
    player_resources: &mut PlayerResource,
    substance_resources: &SubstanceResource,
)
    requires
        forall|i: int| 0 <= i < old(actors)@.len() ==> (#[trigger] old(actors)@[i]).wf(),
        old(player_resources).wf(),
        substance_resources.wf(),
        old(player_resources).substance_id_gen.0 + old(actors)@.len() <= i32::MAX,
    ensures
        final(actors)@ == alive_actors(old(actors)@),
        forall|i: int| 0 <= i < final(actors)@.len() ==> (#[trigger] final(actors)@[i]).wf(),
        final(player_resources).wf(),
        final(player_resources).cell_army@ == surviving_army(
            old(player_resources).cell_army@,
            dead_good_ids(old(actors)@),
        ),
        final(player_resources).loaded_substances == old(player_resources).loaded_substances,
        final(player_resources).good_cell_id == old(player_resources).good_cell_id,
        final(player_resources).wave_num == old(player_resources).wave_num,
        ({
            let old_inv = old(player_resources).substance_collection@;
            let new_inv = final(player_resources).substance_collection@;
            let old_gen = old(player_resources).substance_id_gen.0;
            &&& old_inv.len() <= new_inv.len()
            &&& new_inv.len() - old_inv.len() <= dead_bad_count(old(actors)@)
            &&& forall|i: int| 0 <= i < old_inv.len() ==> #[trigger] new_inv[i] == old_inv[i]
            &&& forall|j: int|
                old_inv.len() <= j < new_inv.len() ==> (#[trigger] new_inv[j]).wf()
                    && new_inv[j].id == old_gen + (j - old_inv.len())
                    && new_inv[j].substance_type == category_of(new_inv[j].value as int)
            &&& final(player_resources).substance_id_gen.0 == old_gen + (new_inv.len()
                - old_inv.len())
        }),
{
    let ghost dead = dead_good_ids(actors@);

    // Reconcile defender deaths into the roster: keep exactly the entries
    // whose identity did not die.
    let mut new_army: Vec<(i32, CellBundle)> = Vec::new();
    let mut i: usize = 0;
    let army_len = player_resources.cell_army.len();
    while i < army_len
        invariant
            actors@ == old(actors)@,
            *player_resources == *old(player_resources),
            old(player_resources).wf(),
            dead == dead_good_ids(actors@),
            army_len == player_resources.cell_army@.len(),
            0 <= i <= army_len,
            new_army@ == surviving_army(player_resources.cell_army@.take(i as int), dead),
        decreases army_len - i,
    {
        proof {
            let army = player_resources.cell_army@;
            assert(army.take(i as int + 1).drop_last() =~= army.take(i as int));
            assert(army.take(i as int + 1).last() == army[i as int]);
        }
        let (id, bundle) = player_resources.cell_army[i];
        if !dead_good_contains(actors, id) {
            new_army.push((id, bundle));
        }
        i = i + 1;
    }
    proof {
        let army = player_resources.cell_army@;
        assert(army.take(army.len() as int) =~= army);
        lemma_surviving_army_membership(army, dead);
        assert forall|k: int| 0 <= k < new_army@.len() implies (
        #[trigger] new_army@[k]).1.cell_attribute.wf() && 0 <= new_army@[k].0 < old(
            player_resources,
        ).good_cell_id.0 by {
            let j = choose|j: int| 0 <= j < army.len() && #[trigger] new_army@[k] == army[j];
            assert(army[j].1.cell_attribute.wf());
        }
    }
    player_resources.cell_army = new_army;

    // Sweep the actors: dead invaders may drop a substance, survivors stay.
    let ghost inv0 = player_resources.substance_collection@;
    let ghost gen0 = player_resources.substance_id_gen.0;
    let ghost army1 = player_resources.cell_army@;
    let mut survivors: Vec<Actor> = Vec::new();
    let mut idx: usize = 0;
    while idx < actors.len()
        invariant
            actors@ == old(actors)@,
            forall|k: int| 0 <= k < actors@.len() ==> (#[trigger] actors@[k]).wf(),
            substance_resources.wf(),
            0 <= idx <= actors@.len(),
            player_resources.wf(),
            player_resources.cell_army@ == army1,
            player_resources.loaded_substances == old(player_resources).loaded_substances,
            player_resources.good_cell_id == old(player_resources).good_cell_id,
            player_resources.wave_num == old(player_resources).wave_num,
            survivors@ == alive_actors(actors@.take(idx as int)),
            forall|k: int| 0 <= k < survivors@.len() ==> (#[trigger] survivors@[k]).wf(),
            inv0.len() <= player_resources.substance_collection@.len(),
            player_resources.substance_collection@.len() - inv0.len() <= dead_bad_count(
                actors@.take(idx as int),
            ),
            dead_bad_count(actors@.take(idx as int)) <= idx,
            forall|k: int|
                0 <= k < inv0.len() ==> #[trigger] player_resources.substance_collection@[k]
                    == inv0[k],
            forall|j: int|
                inv0.len() <= j < player_resources.substance_collection@.len() ==> (
                #[trigger] player_resources.substance_collection@[j]).wf()
                    && player_resources.substance_collection@[j].id == gen0 + (j - inv0.len())
                    && player_resources.substance_collection@[j].substance_type == category_of(
                    player_resources.substance_collection@[j].value as int,
                ),
            player_resources.substance_id_gen.0 == gen0 + (
            player_resources.substance_collection@.len() - inv0.len()),
            gen0 + old(actors)@.len() <= i32::MAX,
        decreases actors@.len() - idx,
    {
        proof {
            assert(actors@.take(idx as int + 1).drop_last() =~= actors@.take(idx as int));
            assert(actors@.take(idx as int + 1).last() == actors@[idx as int]);
        }
        let a = actors[idx];
        if a.attribute.health <= 0 {
            match a.kind {
                CellKind::BadCell => {
                    let _ = roll_substance_drop(player_resources, substance_resources);
                },
                CellKind::GoodCell { .. } => {},
            }
        } else {
            survivors.push(a);
        }
        idx = idx + 1;
    }
    proof {
        assert(actors@.take(actors@.len() as int) =~= actors@);
    }
    *actors = survivors;
}

/// Some roll between 1 and 100 takes actor state `a` to actor state `b`
/// under the conversion pass.
pub open spec fn infection_step_possible(a: Actor, b: Actor) -> bool {
    exists|roll: int| 1 <= roll <= 100 && b == #[trigger] infection_step(a, roll)
}

/// The whole-actor state after the conversion pass touches (or skips) one
/// actor with a given roll: a converted defender flips its tag to invader.
pub open spec fn infection_step(a: Actor, roll: int) -> Actor {
    if a.is_good_cell() && a.attribute.infection > a.attribute.immune {
        Actor {
            kind: if roll <= GOLDEN_CHANCE {
                a.kind
            } else {
                CellKind::BadCell
            },
            attribute: infection_result(a.attribute, roll),
        }
    } else {
        a
    }
}

/// The actors that survive a death sweep, in order: exactly those whose
/// health is still positive.
pub open spec fn alive_actors(actors: Seq<Actor>) -> Seq<Actor>
    decreases actors.len(),
{
    if actors.len() == 0 {
        actors
    } else {
        let rest = alive_actors(actors.drop_last());
        if actors.last().is_dead() {
            rest
        } else {
            rest.push(actors.last())
        }
    }
}

/// Law: the death sweep is complete — no actor whose health has reached zero
/// survives it, so a terminal actor is never processed by a later tick.
pub proof fn lemma_alive_actors_alive(actors: Seq<Actor>)
    ensures
        forall|i: int|
            0 <= i < alive_actors(actors).len() ==> !(#[trigger] alive_actors(actors)[i]).is_dead(),
    decreases actors.len(),
{
    if actors.len() > 0 {
        lemma_alive_actors_alive(actors.drop_last());
        let rest = alive_actors(actors.drop_last());
        let whole = alive_actors(actors);
        assert forall|i: int| 0 <= i < whole.len() implies !(#[trigger] whole[i]).is_dead() by {
            if i < rest.len() {
                assert(!rest[i].is_dead());
            } else {
                assert(whole[i] == actors.last());
            }
        }
    }
}

/// Roster identities of the defenders that died this sweep.
pub open spec fn dead_good_ids(actors: Seq<Actor>) -> Set<i32>
    decreases actors.len(),
{
    if actors.len() == 0 {
        Set::empty()
    } else {
        let rest = dead_good_ids(actors.drop_last());
        match actors.last().kind {
            CellKind::GoodCell { cell_id, .. } => if actors.last().is_dead() {
                rest.insert(cell_id)
            } else {
                rest
            },
            CellKind::BadCell => rest,
        }
    }
}

/// Number of invaders that died this sweep: each may drop one substance.
pub open spec fn dead_bad_count(actors: Seq<Actor>) -> int
    decreases actors.len(),
{
    if actors.len() == 0 {
        0
    } else {
        dead_bad_count(actors.drop_last()) + if actors.last().is_bad_cell()
            && actors.last().is_dead() {
            1int
        } else {
            0int
        }
    }
}

/// The roster entries that survive a death sweep, in order: exactly those
/// whose identity is not among the dead defenders.
pub open spec fn surviving_army(
    army: Seq<(i32, crate::cell::CellBundle)>,
    dead: Set<i32>,
) -> Seq<(i32, CellBundle)>
    decreases army.len(),
{
    if army.len() == 0 {
        army
    } else {
        let rest = surviving_army(army.drop_last(), dead);
        if dead.contains(army.last().0) {
            rest
        } else {
            rest.push(army.last())
        }
    }
}

/// Every surviving roster entry is one of the prior entries, and
/// uniqueness of identifiers is preserved.
proof fn lemma_surviving_army_membership(army: Seq<(i32, CellBundle)>, dead: Set<i32>)
    requires
        unique_army_ids(army),
    ensures
        surviving_army(army, dead).len() <= army.len(),
        forall|k: int|
            0 <= k < surviving_army(army, dead).len() ==> exists|j: int|
                0 <= j < army.len() && #[trigger] surviving_army(army, dead)[k] == army[j],
        unique_army_ids(surviving_army(army, dead)),
    decreases army.len(),
{
    if army.len() > 0 {
        let prefix = army.drop_last();
        assert(unique_army_ids(prefix)) by {
            assert(forall|i: int| 0 <= i < prefix.len() ==> prefix[i] == army[i]);
        }
        lemma_surviving_army_membership(prefix, dead);
        let rest = surviving_army(prefix, dead);
        let whole = surviving_army(army, dead);
        assert forall|k: int| 0 <= k < whole.len() implies exists|j: int|
            0 <= j < army.len() && #[trigger] whole[k] == army[j] by {
            if k < rest.len() {
                let j = choose|j: int| 0 <= j < prefix.len() && #[trigger] rest[k] == prefix[j];
                assert(whole[k] == army[j]);
            } else {
                assert(whole[k] == army[army.len() - 1]);
            }
        }
        assert forall|k1: int, k2: int| 0 <= k1 < k2 < whole.len() implies whole[k1].0
            != whole[k2].0 by {
            if k2 < rest.len() {
                assert(rest[k1].0 != rest[k2].0);
            } else {
                let j = choose|j: int| 0 <= j < prefix.len() && #[trigger] rest[k1] == prefix[j];
                assert(army[j].0 != army[army.len() - 1].0);
            }
        }
    }
}

/// Whether some dead defender in the actor batch carries the given roster
/// identity.
fn dead_good_contains(actors: &Vec<Actor>, cell_id: i32) -> (r: bool)
    ensures
        r == dead_good_ids(actors@).contains(cell_id),
{
    let mut found = false;
    let mut j: usize = 0;
    while j < actors.len()
        invariant
            0 <= j <= actors@.len(),
            found == dead_good_ids(actors@.take(j as int)).contains(cell_id),
        decreases actors@.len() - j,
    {
        proof {
            assert(actors@.take(j as int + 1).drop_last() =~= actors@.take(j as int));
            assert(actors@.take(j as int + 1).last() == actors@[j as int]);
        }
        let a = &actors[j];
        if a.attribute.health <= 0 {
            match a.kind {
                CellKind::GoodCell { cell_id: cid, .. } => {
                    if cid == cell_id {
                        found = true;
                    }
                },
                CellKind::BadCell => {},
            }
        }
        j = j + 1;
    }
    proof {
        assert(actors@.take(actors@.len() as int) =~= actors@);
    }
    found
}

/// Roll one potential substance drop for a dying invader: with the drop
/// chance, manufacture a substance from a random catalog archetype with a
/// freshly sampled value and insert it into the inventory under the next
/// identifier. The created substance's category is always consistent with
/// the sign of its value.
pub fn roll_substance_drop(
    player_resources: &mut PlayerResource,
    substance_resources: &SubstanceResource,
) -> (dropped: bool)
    requires
        old(player_resources).wf(),
        substance_resources.wf(),
        old(player_resources).substance_id_gen.0 < i32::MAX,
    ensures
        final(player_resources).wf(),
        final(player_resources).cell_army == old(player_resources).cell_army,
        final(player_resources).loaded_substances == old(player_resources).loaded_substances,
        final(player_resources).good_cell_id == old(player_resources).good_cell_id,
        final(player_resources).wave_num == old(player_resources).wave_num,
        !dropped ==> *final(player_resources) == *old(player_resources),
        dropped ==> ({
            let old_inv = old(player_resources).substance_collection@;
            let new_inv = final(player_resources).substance_collection@;
            &&& new_inv.len() == old_inv.len() + 1
            &&& forall|i: int| 0 <= i < old_inv.len() ==> #[trigger] new_inv[i] == old_inv[i]
            &&& new_inv.last().wf()
            &&& new_inv.last().id == old(player_resources).substance_id_gen.0
            &&& new_inv.last().substance_type == category_of(new_inv.last().value as int)
            &&& value_in_sample_range(
                new_inv.last().target_attribute,
                crate::antidote::effective_drop_value(
                    new_inv.last().target_attribute,
                    new_inv.last().value as int,
                ),
            ) || new_inv.last().value == 0
            &&& final(player_resources).substance_id_gen.0 == old(
                player_resources,
            ).substance_id_gen.0 + 1
        }),
{
    let drop_chance = roll_percent();
    if drop_chance <= DROP_CHANCE {
        let resource_len = substance_resources.0.len();
        let random_substance_idx = sample_index(resource_len);
        let archetype = &substance_resources.0[random_substance_idx];
        let raw_value = match archetype.target_attribute {
            TargetAttribute::Speed => sample_value(SPEED_VALUE_MIN, SPEED_VALUE_MAX),
            _ => sample_value(VALUE_MIN, VALUE_MAX),
        };
        let balanced_roll = roll_percent();
        let id = player_resources.substance_id_gen.0;
        let substance = make_drop_substance(archetype, id, raw_value, balanced_roll);
        proof {
            if balanced_roll >= crate::antidote::BALANCED_OVERRIDE_CHANCE {
                assert(value_in_sample_range(
                    substance.target_attribute,
                    crate::antidote::effective_drop_value(
                        substance.target_attribute,
                        substance.value as int,
                    ),
                ));
            }
        }
        player_resources.substance_collection.push(substance);
        player_resources.substance_id_gen.0 = player_resources.substance_id_gen.0 + 1;
        true
    } else {
        false
    }
}

/// One conversion pass with fresh random rolls. Each qualifying defender is
/// checked exactly once: it is either purified (still a defender, infection
/// reset) or converted into a weakened invader; non-qualifying actors are
/// untouched.
pub fn track_cell_infection(actors: &mut Vec<Actor>)
    requires
        forall|i: int| 0 <= i < old(actors)@.len() ==> #[trigger] old(actors)@[i].wf(),
    ensures
        final(actors)@.len() == old(actors)@.len(),
        forall|i: int| 0 <= i < final(actors)@.len() ==> #[trigger] final(actors)@[i].wf(),
        forall|i: int|
            0 <= i < final(actors)@.len() ==> #[trigger] infection_step_possible(
                old(actors)@[i],
                final(actors)@[i],
            ),
{
    let mut rolls: Vec<i32> = Vec::new();
    let mut idx: usize = 0;
    while idx < actors.len()
        invariant
            0 <= idx <= actors@.len(),
            rolls@.len() == idx,
            forall|i: int| 0 <= i < rolls@.len() ==> 1 <= #[trigger] rolls@[i] <= 100,
        decreases actors@.len() - idx,
    {
        rolls.push(roll_percent());
        idx = idx + 1;
    }
    track_cell_infection_with_rolls(actors, &rolls);
    proof {
        assert forall|i: int| 0 <= i < actors@.len() implies #[trigger] infection_step_possible(
            old(actors)@[i],
            actors@[i],
        ) by {
            let r = rolls@[i] as int;
            assert(1 <= r <= 100);
            assert(actors@[i] == infection_step(old(actors)@[i], r));
        }
    }
}

} // verus!

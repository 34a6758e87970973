//! The player's persistent cross-wave state: the defender roster, the
//! substance inventory and the staged antidote batch, with the loading,
//! unloading and injection operations that mutate them.

use vstd::multiset::Multiset;
use vstd::prelude::*;

use crate::antidote::{
    aggregate_batch, attack_gain, batch_wf, cells_to_spawn, health_gain, immune_gain,
    net_infection_penalty, speed_gain, Substance, SPEED_GAIN_CAP, SUBSTANCE_BATCH_CAP,
};
use crate::antidote::{SubstanceType, TargetAttribute};
use crate::cell::{AttackTimer, CellAttack, CellAttribute, CellBundle, CellPos};
use crate::fixed::{add_clamp_nonneg, add_clamp_signed, clamp_nonneg, clamp_signed, ATTR_LIMIT};
use crate::goodcell::GoodCellId;

verus! {

/// Upper bound on the wave counter, so that wave-scaled attribute arithmetic
/// stays inside the fixed-point attribute range.
pub const WAVE_LIMIT: i32 = 1_000_000;

/// Health of a freshly spawned defender, in fixed point.
pub const NEW_CELL_HEALTH: i64 = 5_000;

/// Damage of a freshly spawned defender, in fixed point.
pub const NEW_CELL_DAMAGE: i64 = 2_000;

/// Attack interval of a freshly spawned defender, in fixed point.
pub const NEW_CELL_ATTACK_RATE: i64 = 50;

/// Immune threshold of a freshly spawned defender, in fixed point.
pub const NEW_CELL_IMMUNE: i64 = 3_000;

/// Value of each substance granted before the first wave, in fixed point.
pub const INITIAL_SUBSTANCE_VALUE: i64 = 5_000;

/// Identifier generator for substances.
#[derive(Clone, Copy, PartialEq, Eq, Structural, Debug)]
pub struct SubstanceIdGen(pub i32);

/// The persistent player state. Defenders and substances are keyed by
/// identifier; each substance id lives in exactly one of the inventory and
/// the loaded batch.
pub struct PlayerResource {
    pub cell_army: Vec<(i32, CellBundle)>,
    pub substance_collection: Vec<Substance>,
    pub loaded_substances: Vec<Substance>,
    pub good_cell_id: GoodCellId,
    pub wave_num: i32,
    pub substance_id_gen: SubstanceIdGen,
}

/// Defender entries carry pairwise distinct identifiers.
pub open spec fn unique_army_ids(army: Seq<(i32, CellBundle)>) -> bool {
    forall|i: int, j: int| 0 <= i < j < army.len() ==> army[i].0 != army[j].0
}

/// Substances carry pairwise distinct identifiers.
pub open spec fn unique_substance_ids(s: Seq<Substance>) -> bool {
    forall|i: int, j: int| 0 <= i < j < s.len() ==> s[i].id != s[j].id
}

/// No identifier occurs in both sequences.
pub open spec fn disjoint_substance_ids(a: Seq<Substance>, b: Seq<Substance>) -> bool {
    forall|i: int, j: int| 0 <= i < a.len() && 0 <= j < b.len() ==> a[i].id != b[j].id
}

/// Some substance in the sequence has the given identifier.
pub open spec fn has_substance(s: Seq<Substance>, id: i32) -> bool {
    exists|i: int| 0 <= i < s.len() && s[i].id == id
}

/// Index of the substance with the given identifier (unique when the ids
/// are pairwise distinct).
pub open spec fn substance_index(s: Seq<Substance>, id: i32) -> int {
    choose|i: int| 0 <= i < s.len() && s[i].id == id
}

impl PlayerResource {
    /// Well-formed player state: counters are non-negative and above every
    /// issued identifier, identifiers are unique, a substance id lives in at
    /// most one of the inventory and the batch, the batch respects its
    /// capacity, the wave counter is bounded, and every stored attribute
    /// record is well formed.
    pub open spec fn wf(self) -> bool {
        &&& 0 <= self.good_cell_id.0
        &&& 0 <= self.substance_id_gen.0
        &&& 0 <= self.wave_num <= WAVE_LIMIT
        &&& self.loaded_substances@.len() <= SUBSTANCE_BATCH_CAP
        &&& forall|i: int|
            0 <= i < self.cell_army@.len() ==> (#[trigger] self.cell_army@[i].1).cell_attribute.wf()
        &&& forall|i: int|
            0 <= i < self.cell_army@.len() ==> 0 <= (#[trigger] self.cell_army@[i].0)
                < self.good_cell_id.0
        &&& unique_army_ids(self.cell_army@)
        &&& forall|i: int|
            0 <= i < self.substance_collection@.len() ==> (
            #[trigger] self.substance_collection@[i]).wf() && self.substance_collection@[i].id
                < self.substance_id_gen.0
        &&& forall|i: int|
            0 <= i < self.loaded_substances@.len() ==> (#[trigger] self.loaded_substances@[i]).wf()
                && self.loaded_substances@[i].id < self.substance_id_gen.0
        &&& unique_substance_ids(self.substance_collection@)
        &&& unique_substance_ids(self.loaded_substances@)
        &&& disjoint_substance_ids(self.substance_collection@, self.loaded_substances@)
    }
}

/// Fresh player state: empty collections, wave zero, both identifier
/// generators at zero.
pub fn setup_player_resources() -> (r: PlayerResource)
    ensures
        r.wf(),
        r.cell_army@.len() == 0,
        r.substance_collection@.len() == 0,
        r.loaded_substances@.len() == 0,
        r.good_cell_id.0 == 0,
        r.wave_num == 0,
        r.substance_id_gen.0 == 0,
{
    PlayerResource {
        cell_army: Vec::new(),
        substance_collection: Vec::new(),
        loaded_substances: Vec::new(),
        good_cell_id: GoodCellId(0),
        wave_num: 0,
        substance_id_gen: SubstanceIdGen(0),
    }
}

/// How a load attempt ended.
#[derive(Clone, Copy, PartialEq, Eq, Structural, Debug)]
pub enum LoadResult {
    Loaded,
    BatchFull,
    UnknownId,
}

impl PlayerResource {
    /// Stage a substance for injection: move it from the inventory to the
    /// loaded batch. Rejected without any change when the batch already
    /// holds its capacity; an id that is not in the inventory is a no-op.
    pub fn add_to_loaded_substances(&mut self, substance_id: i32) -> (r: LoadResult)
        requires
            old(self).wf(),
        ensures
            final(self).wf(),
            final(self).cell_army == old(self).cell_army,
            final(self).good_cell_id == old(self).good_cell_id,
            final(self).wave_num == old(self).wave_num,
            final(self).substance_id_gen == old(self).substance_id_gen,
            r == LoadResult::BatchFull <==> old(self).loaded_substances@.len()
                >= SUBSTANCE_BATCH_CAP,
            r == LoadResult::UnknownId <==> old(self).loaded_substances@.len()
                < SUBSTANCE_BATCH_CAP && !has_substance(old(self).substance_collection@,
            substance_id),
            r == LoadResult::Loaded <==> old(self).loaded_substances@.len() < SUBSTANCE_BATCH_CAP
                && has_substance(old(self).substance_collection@, substance_id),
            r != LoadResult::Loaded ==> final(self).substance_collection
                == old(self).substance_collection && final(self).loaded_substances == old(
                self,
            ).loaded_substances,
            r == LoadResult::Loaded ==> {
                let idx = substance_index(old(self).substance_collection@, substance_id);
                &&& final(self).substance_collection@ == old(self).substance_collection@.remove(
                    idx,
                )
                &&& final(self).loaded_substances@ == old(self).loaded_substances@.push(
                    old(self).substance_collection@[idx],
                )
            },
    {
        if self.loaded_substances.len() >= SUBSTANCE_BATCH_CAP {
            return LoadResult::BatchFull;
        }
        let mut idx: usize = 0;
        let n = self.substance_collection.len();
        while idx < n && self.substance_collection[idx].id != substance_id
            invariant
                n == self.substance_collection@.len(),
                0 <= idx <= n,
                forall|i: int|
                    0 <= i < idx ==> (#[trigger] self.substance_collection@[i]).id != substance_id,
            decreases n - idx,
        {
            idx = idx + 1;
        }
        if idx == n {
            proof {
                assert(!has_substance(self.substance_collection@, substance_id));
            }
            return LoadResult::UnknownId;
        }
        proof {
            assert(self.substance_collection@[idx as int].id == substance_id);
            assert(has_substance(self.substance_collection@, substance_id));
            let chosen = substance_index(self.substance_collection@, substance_id);
            assert(self.substance_collection@[chosen].id == substance_id);
            assert(chosen == idx as int);
        }
        let loaded_substance = self.substance_collection.remove(idx);
        self.loaded_substances.push(loaded_substance);
        proof {
            lemma_remove_keeps_others(old(self).substance_collection@, idx as int);
        }
        LoadResult::Loaded
    }

    /// Return every loaded substance to the inventory and clear the batch.
    pub fn unload_all(&mut self)
        requires
            old(self).wf(),
        ensures
            final(self).wf(),
            final(self).cell_army == old(self).cell_army,
            final(self).good_cell_id == old(self).good_cell_id,
            final(self).wave_num == old(self).wave_num,
            final(self).substance_id_gen == old(self).substance_id_gen,
            final(self).loaded_substances@.len() == 0,
            final(self).substance_collection@ == old(self).substance_collection@ + old(
                self,
            ).loaded_substances@,
    {
        self.substance_collection.append(&mut self.loaded_substances);
        proof {
            lemma_concat_keeps_both(old(self).substance_collection@, old(self).loaded_substances@);
        }
    }
}

/// Injection on an empty batch is rejected.
#[derive(Clone, Copy, PartialEq, Eq, Structural, Debug)]
pub enum InjectError {
    EmptyBatch,
}

/// A defender's attributes after one injection of a batch: attack and health
/// rise by the accumulated gains, the attack interval moves by the capped
/// speed gain, the immune threshold by the immunity gain, and the infection
/// level by the net penalty; every result is clamped to its domain.
pub open spec fn apply_batch(a: CellAttribute, batch: Seq<Substance>) -> CellAttribute {
    CellAttribute {
        health: clamp_nonneg(a.health + health_gain(batch)) as i64,
        immune: clamp_signed(a.immune + immune_gain(batch)) as i64,
        infection: clamp_nonneg(a.infection + net_infection_penalty(batch)) as i64,
        cell_attack: CellAttack {
            damage: clamp_nonneg(a.cell_attack.damage + attack_gain(batch)) as i64,
            attack_rate: clamp_signed(
                a.cell_attack.attack_rate + if speed_gain(batch) < SPEED_GAIN_CAP as int {
                    speed_gain(batch)
                } else {
                    SPEED_GAIN_CAP as int
                },
            ) as i64,
            timer: a.cell_attack.timer,
        },
    }
}

/// The attribute template of a freshly spawned defender.
pub open spec fn fresh_cell_bundle() -> CellBundle {
    CellBundle {
        cell_trans: CellPos { x: 0, y: 0 },
        cell_attribute: CellAttribute {
            health: NEW_CELL_HEALTH,
            immune: NEW_CELL_IMMUNE,
            infection: 0,
            cell_attack: CellAttack {
                attack_rate: NEW_CELL_ATTACK_RATE,
                damage: NEW_CELL_DAMAGE,
                timer: AttackTimer { period: NEW_CELL_ATTACK_RATE, elapsed: 0 },
            },
        },
    }
}

impl PlayerResource {
    /// Commit the loaded batch: atomically apply the aggregated deltas to
    /// every defender in the roster, spawn the earned number of fresh
    /// defenders under consecutive new identifiers, and empty the batch. An
    /// empty batch is rejected with no change at all.
    pub fn inject(&mut self) -> (r: Result<i32, InjectError>)
        requires
            old(self).wf(),
            old(self).good_cell_id.0 + 32 <= i32::MAX,
        ensures
            final(self).wf(),
            old(self).loaded_substances@.len() == 0 ==> r == Err::<i32, InjectError>(
                InjectError::EmptyBatch,
            ) && *final(self) == *old(self),
            old(self).loaded_substances@.len() > 0 ==> ({
                let batch = old(self).loaded_substances@;
                let spawned = cells_to_spawn(batch);
                let old_len = old(self).cell_army@.len() as int;
                &&& r == Ok::<i32, InjectError>(spawned as i32)
                &&& final(self).loaded_substances@.len() == 0
                &&& final(self).substance_collection == old(self).substance_collection
                &&& final(self).substance_id_gen == old(self).substance_id_gen
                &&& final(self).wave_num == old(self).wave_num
                &&& final(self).good_cell_id.0 == old(self).good_cell_id.0 + spawned
                &&& final(self).cell_army@.len() == old_len + spawned
                &&& forall|i: int|
                    0 <= i < old_len ==> (#[trigger] final(self).cell_army@[i]).0 == old(
                        self,
                    ).cell_army@[i].0 && final(self).cell_army@[i].1.cell_trans == old(
                        self,
                    ).cell_army@[i].1.cell_trans && final(self).cell_army@[i].1.cell_attribute
                        == apply_batch(old(self).cell_army@[i].1.cell_attribute, batch)
                &&& forall|j: int|
                    old_len <= j < old_len + spawned ==> (#[trigger] final(self).cell_army@[j]).0
                        == old(self).good_cell_id.0 + (j - old_len) && final(self).cell_army@[j].1
                        == fresh_cell_bundle()
            }),
    {
        if self.loaded_substances.len() == 0 {
            return Err(InjectError::EmptyBatch);
        }
        let ghost batch = self.loaded_substances@;
        proof {
            assert(batch_wf(batch));
            crate::antidote::lemma_batch_bounds(batch);
        }
        let totals = aggregate_batch(&self.loaded_substances);

        // Apply the aggregated deltas to every defender already in the army.
        let speed_delta: i64 = if totals.total_speed_gain < SPEED_GAIN_CAP {
            totals.total_speed_gain
        } else {
            SPEED_GAIN_CAP
        };
        let mut idx: usize = 0;
        let army_len = self.cell_army.len();
        while idx < army_len
            invariant
                old(self).wf(),
                batch == old(self).loaded_substances@,
                batch_wf(batch),
                1 <= batch.len() <= SUBSTANCE_BATCH_CAP,
                self.good_cell_id == old(self).good_cell_id,
                self.substance_collection == old(self).substance_collection,
                self.loaded_substances == old(self).loaded_substances,
                self.substance_id_gen == old(self).substance_id_gen,
                self.wave_num == old(self).wave_num,
                army_len == self.cell_army@.len(),
                self.cell_army@.len() == old(self).cell_army@.len(),
                0 <= idx <= army_len,
                speed_delta == if speed_gain(batch) < SPEED_GAIN_CAP as int {
                    speed_gain(batch)
                } else {
                    SPEED_GAIN_CAP as int
                },
                totals.total_attack_gain == attack_gain(batch),
                totals.total_health_gain == health_gain(batch),
                totals.total_immu_gain == immune_gain(batch),
                totals.total_add_infection == net_infection_penalty(batch),
                forall|i: int|
                    0 <= i < idx ==> (#[trigger] self.cell_army@[i]).0 == old(self).cell_army@[i].0
                        && self.cell_army@[i].1.cell_trans == old(self).cell_army@[i].1.cell_trans
                        && self.cell_army@[i].1.cell_attribute == apply_batch(
                        old(self).cell_army@[i].1.cell_attribute,
                        batch,
                    ),
                forall|i: int|
                    idx <= i < army_len ==> #[trigger] self.cell_army@[i] == old(
                        self,
                    ).cell_army@[i],
            decreases army_len - idx,
        {
            proof {
                crate::antidote::lemma_batch_bounds(batch);
                assert(old(self).cell_army@[idx as int].1.cell_attribute.wf());
            }
            let (id, bundle) = self.cell_army[idx];
            let mut attrs = bundle.cell_attribute;
            attrs.cell_attack.damage = add_clamp_nonneg(
                attrs.cell_attack.damage,
                totals.total_attack_gain,
            );
            attrs.cell_attack.attack_rate = add_clamp_signed(
                attrs.cell_attack.attack_rate,
                speed_delta,
            );
            attrs.immune = add_clamp_signed(attrs.immune, totals.total_immu_gain);
            attrs.health = add_clamp_nonneg(attrs.health, totals.total_health_gain);
            attrs.infection = add_clamp_nonneg(attrs.infection, totals.total_add_infection);
            self.cell_army.set(
                idx,
                (id, CellBundle { cell_trans: bundle.cell_trans, cell_attribute: attrs }),
            );
            idx = idx + 1;
        }

        // Spawn the earned fresh defenders under consecutive identifiers.
        let to_spawn = totals.to_spawn_cell_count;
        let ghost updated = self.cell_army@;
        proof {
            crate::antidote::lemma_batch_bounds(batch);
        }
        let mut counter: i64 = 0;
        let mut cell_id: i32 = self.good_cell_id.0;
        while counter < to_spawn
            invariant
                old(self).good_cell_id.0 + 32 <= i32::MAX,
                0 <= to_spawn <= 18,
                0 <= counter <= to_spawn,
                cell_id == old(self).good_cell_id.0 + counter,
                self.good_cell_id == old(self).good_cell_id,
                self.substance_collection == old(self).substance_collection,
                self.loaded_substances == old(self).loaded_substances,
                self.substance_id_gen == old(self).substance_id_gen,
                self.wave_num == old(self).wave_num,
                updated.len() == old(self).cell_army@.len(),
                self.cell_army@.len() == updated.len() + counter,
                forall|i: int|
                    0 <= i < updated.len() ==> #[trigger] self.cell_army@[i] == updated[i],
                forall|j: int|
                    updated.len() <= j < self.cell_army@.len() ==> (
                    #[trigger] self.cell_army@[j]).0 == old(self).good_cell_id.0 + (j
                        - updated.len()) && self.cell_army@[j].1 == fresh_cell_bundle(),
            decreases to_spawn - counter,
        {
            self.cell_army.push(
                (
                    cell_id,
                    CellBundle {
                        cell_trans: CellPos::zero(),
                        cell_attribute: CellAttribute {
                            health: NEW_CELL_HEALTH,
                            cell_attack: CellAttack::new(NEW_CELL_ATTACK_RATE, NEW_CELL_DAMAGE),
                            immune: NEW_CELL_IMMUNE,
                            infection: 0,
                        },
                    },
                ),
            );
            counter = counter + 1;
            cell_id = cell_id + 1;
        }
        self.good_cell_id.0 = cell_id;
        self.loaded_substances.clear();
        proof {
            let old_len = old(self).cell_army@.len() as int;
            assert forall|i: int, j: int|
                0 <= i < j < self.cell_army@.len() implies (#[trigger] self.cell_army@[i]).0 != (
            #[trigger] self.cell_army@[j]).0 by {
                if j < old_len {
                    assert(old(self).cell_army@[i].0 != old(self).cell_army@[j].0);
                } else if i < old_len {
                    assert(self.cell_army@[i].0 < old(self).good_cell_id.0);
                }
            }
        }
        Ok(to_spawn as i32)
    }
}

impl PlayerResource {
    /// Prepare-phase setup: before the first wave only, grant two balanced
    /// starter substances so the player can create an antidote at all.
    pub fn setup_wave_resource(&mut self)
        requires
            old(self).wf(),
            old(self).substance_id_gen.0 + 8 <= i32::MAX,
        ensures
            final(self).wf(),
            final(self).cell_army == old(self).cell_army,
            final(self).good_cell_id == old(self).good_cell_id,
            final(self).wave_num == old(self).wave_num,
            final(self).loaded_substances == old(self).loaded_substances,
            old(self).wave_num != 0 ==> *final(self) == *old(self),
            old(self).wave_num == 0 ==> ({
                let old_inv = old(self).substance_collection@;
                let new_inv = final(self).substance_collection@;
                let old_gen = old(self).substance_id_gen.0;
                &&& new_inv.len() == old_inv.len() + 2
                &&& forall|i: int| 0 <= i < old_inv.len() ==> #[trigger] new_inv[i] == old_inv[i]
                &&& forall|j: int|
                    old_inv.len() <= j < old_inv.len() + 2 ==> (#[trigger] new_inv[j]).id == old_gen
                        + (j - old_inv.len()) && new_inv[j].name@ == "Initgen"@
                        && new_inv[j].target_attribute == TargetAttribute::Immune
                        && new_inv[j].value == INITIAL_SUBSTANCE_VALUE
                        && new_inv[j].substance_type == SubstanceType::Balanced
                &&& final(self).substance_id_gen.0 == old_gen + 2
            }),
    {
        if self.wave_num == 0 {
            let mut count: i32 = 0;
            while count < 2
                invariant
                    old(self).wf(),
                    old(self).substance_id_gen.0 + 8 <= i32::MAX,
                    0 <= count <= 2,
                    self.cell_army == old(self).cell_army,
                    self.good_cell_id == old(self).good_cell_id,
                    self.wave_num == old(self).wave_num,
                    self.loaded_substances == old(self).loaded_substances,
                    self.substance_id_gen.0 == old(self).substance_id_gen.0 + count,
                    self.substance_collection@.len() == old(self).substance_collection@.len()
                        + count,
                    forall|i: int|
                        0 <= i < old(self).substance_collection@.len() ==> #[trigger] self
                            .substance_collection@[i] == old(self).substance_collection@[i],
                    forall|j: int|
                        old(self).substance_collection@.len() <= j
                            < self.substance_collection@.len() ==> (#[trigger] self
                            .substance_collection@[j]).id == old(self).substance_id_gen.0 + (j
                            - old(self).substance_collection@.len())
                            && self.substance_collection@[j].name@ == "Initgen"@
                            && self.substance_collection@[j].target_attribute
                            == TargetAttribute::Immune && self.substance_collection@[j].value
                            == INITIAL_SUBSTANCE_VALUE && self.substance_collection@[j].substance_type
                            == SubstanceType::Balanced,
                decreases 2 - count,
            {
                let substance_id = self.substance_id_gen.0;
                self.substance_collection.push(
                    Substance {
                        id: substance_id,
                        name: "Initgen".to_string(),
                        target_attribute: TargetAttribute::Immune,
                        value: INITIAL_SUBSTANCE_VALUE,
                        substance_type: SubstanceType::Balanced,
                    },
                );
                self.substance_id_gen.0 = self.substance_id_gen.0 + 1;
                count = count + 1;
            }
        }
    }

    /// Drop a dead defender's snapshot from the roster; an unknown id is a
    /// no-op.
    pub fn remove_defender(&mut self, cell_id: i32)
        requires
            old(self).wf(),
        ensures
            final(self).wf(),
            final(self).substance_collection == old(self).substance_collection,
            final(self).loaded_substances == old(self).loaded_substances,
            final(self).good_cell_id == old(self).good_cell_id,
            final(self).wave_num == old(self).wave_num,
            final(self).substance_id_gen == old(self).substance_id_gen,
            !army_has_id(old(self).cell_army@, cell_id) ==> final(self).cell_army == old(
                self,
            ).cell_army,
            army_has_id(old(self).cell_army@, cell_id) ==> final(self).cell_army@ == old(
                self,
            ).cell_army@.remove(army_index(old(self).cell_army@, cell_id)),
    {
        let mut idx: usize = 0;
        let n = self.cell_army.len();
        while idx < n && self.cell_army[idx].0 != cell_id
            invariant
                n == self.cell_army@.len(),
                0 <= idx <= n,
                forall|i: int| 0 <= i < idx ==> (#[trigger] self.cell_army@[i]).0 != cell_id,
            decreases n - idx,
        {
            idx = idx + 1;
        }
        if idx < n {
            proof {
                assert(self.cell_army@[idx as int].0 == cell_id);
                assert(army_has_id(self.cell_army@, cell_id));
                let chosen = army_index(self.cell_army@, cell_id);
                assert(self.cell_army@[chosen].0 == cell_id);
                assert(chosen == idx as int);
            }
            self.cell_army.remove(idx);
            proof {
                lemma_army_remove_keeps_others(old(self).cell_army@, idx as int);
            }
        } else {
            proof {
                assert(!army_has_id(self.cell_army@, cell_id));
            }
        }
    }

    /// Commit an arranged position for one defender; an unknown id is a
    /// no-op.
    pub fn set_defender_position(&mut self, cell_id: i32, pos: CellPos)
        requires
            old(self).wf(),
        ensures
            final(self).wf(),
            final(self).substance_collection == old(self).substance_collection,
            final(self).loaded_substances == old(self).loaded_substances,
            final(self).good_cell_id == old(self).good_cell_id,
            final(self).wave_num == old(self).wave_num,
            final(self).substance_id_gen == old(self).substance_id_gen,
            final(self).cell_army@.len() == old(self).cell_army@.len(),
            !army_has_id(old(self).cell_army@, cell_id) ==> final(self).cell_army == old(
                self,
            ).cell_army,
            army_has_id(old(self).cell_army@, cell_id) ==> ({
                let idx = army_index(old(self).cell_army@, cell_id);
                let old_army = old(self).cell_army@;
                let new_army = final(self).cell_army@;
                &&& forall|i: int|
                    0 <= i < old_army.len() && i != idx ==> #[trigger] new_army[i] == old_army[i]
                &&& new_army[idx].0 == cell_id
                &&& new_army[idx].1.cell_trans == pos
                &&& new_army[idx].1.cell_attribute == old_army[idx].1.cell_attribute
            }),
    {
        let mut idx: usize = 0;
        let n = self.cell_army.len();
        while idx < n && self.cell_army[idx].0 != cell_id
            invariant
                n == self.cell_army@.len(),
                0 <= idx <= n,
                forall|i: int| 0 <= i < idx ==> (#[trigger] self.cell_army@[i]).0 != cell_id,
            decreases n - idx,
        {
            idx = idx + 1;
        }
        if idx < n {
            proof {
                assert(self.cell_army@[idx as int].0 == cell_id);
                assert(army_has_id(self.cell_army@, cell_id));
                let chosen = army_index(self.cell_army@, cell_id);
                assert(self.cell_army@[chosen].0 == cell_id);
                assert(chosen == idx as int);
            }
            let (id, bundle) = self.cell_army[idx];
            self.cell_army.set(
                idx,
                (id, CellBundle { cell_trans: pos, cell_attribute: bundle.cell_attribute }),
            );
        } else {
            proof {
                assert(!army_has_id(self.cell_army@, cell_id));
            }
        }
    }
}

/// Some defender entry carries the given identifier.
pub open spec fn army_has_id(army: Seq<(i32, CellBundle)>, cell_id: i32) -> bool {
    exists|i: int| 0 <= i < army.len() && army[i].0 == cell_id
}

/// Index of the defender entry with the given identifier (unique when the
/// ids are pairwise distinct).
pub open spec fn army_index(army: Seq<(i32, CellBundle)>, cell_id: i32) -> int {
    choose|i: int| 0 <= i < army.len() && army[i].0 == cell_id
}

/// Every defender entry survives a removal, shifted past the removed index.
proof fn lemma_army_remove_keeps_others(s: Seq<(i32, CellBundle)>, idx: int)
    requires
        0 <= idx < s.len(),
    ensures
        s.remove(idx).len() == s.len() - 1,
        forall|j: int| 0 <= j < idx ==> #[trigger] s.remove(idx)[j] == s[j],
        forall|j: int| idx <= j < s.len() - 1 ==> #[trigger] s.remove(idx)[j] == s[j + 1],
{
}

/// Every element survives a removal, shifted past the removed index.
proof fn lemma_remove_keeps_others(s: Seq<Substance>, idx: int)
    requires
        0 <= idx < s.len(),
    ensures
        s.remove(idx).len() == s.len() - 1,
        forall|j: int| 0 <= j < idx ==> #[trigger] s.remove(idx)[j] == s[j],
        forall|j: int| idx <= j < s.len() - 1 ==> #[trigger] s.remove(idx)[j] == s[j + 1],
{
}

/// Concatenation keeps both halves at shifted indices.
proof fn lemma_concat_keeps_both(a: Seq<Substance>, b: Seq<Substance>)
    ensures
        (a + b).len() == a.len() + b.len(),
        forall|j: int| 0 <= j < a.len() ==> #[trigger] (a + b)[j] == a[j],
        forall|j: int| 0 <= j < b.len() ==> #[trigger] (a + b)[a.len() + j] == b[j],
{
}

/// Law: loading a substance and then unloading the whole batch returns that
/// substance to the inventory with identical attributes and identifier. The
/// sequences mirror the contracts of `add_to_loaded_substances` (inventory
/// entry `idx` moves to the end of the batch) and `unload_all` (the batch is
/// appended to the inventory).
pub proof fn lemma_load_unload_round_trip(inv: Seq<Substance>, loaded: Seq<Substance>, idx: int)
    requires
        0 <= idx < inv.len(),
    ensures
        ({
            let inv_after_load = inv.remove(idx);
            let loaded_after_load = loaded.push(inv[idx]);
            let inv_after_unload = inv_after_load + loaded_after_load;
            &&& inv_after_unload[inv_after_unload.len() - 1] == inv[idx]
            &&& inv_after_unload.len() == inv.len() + loaded.len()
            &&& inv_after_unload.to_multiset() == (inv + loaded).to_multiset()
        }),
{
    let inv_after_load = inv.remove(idx);
    let loaded_after_load = loaded.push(inv[idx]);
    let inv_after_unload = inv_after_load + loaded_after_load;
    assert(inv_after_unload[inv_after_unload.len() - 1] == inv[idx]);
    broadcast use vstd::seq_lib::group_to_multiset_ensures;

    assert(inv.to_multiset().contains(inv[idx]));
    assert(inv_after_load.to_multiset() =~= inv.to_multiset().remove(inv[idx]));
    lemma_concat_to_multiset(inv_after_load, loaded_after_load);
    lemma_concat_to_multiset(inv, loaded);
    assert(loaded_after_load.to_multiset() =~= loaded.to_multiset().insert(inv[idx]));
    assert(inv_after_unload.to_multiset() =~= (inv + loaded).to_multiset());
}

/// The multiset of a concatenation is the sum of the halves' multisets.
proof fn lemma_concat_to_multiset(a: Seq<Substance>, b: Seq<Substance>)
    ensures
        (a + b).to_multiset() == a.to_multiset().add(b.to_multiset()),
    decreases b.len(),
{
    broadcast use vstd::seq_lib::group_to_multiset_ensures;

    if b.len() == 0 {
        assert(a + b =~= a);
        assert(b.to_multiset() =~= Multiset::<Substance>::empty());
        assert((a + b).to_multiset() =~= a.to_multiset().add(b.to_multiset()));
    } else {
        lemma_concat_to_multiset(a, b.drop_last());
        assert(a + b =~= (a + b.drop_last()).push(b.last()));
        assert(b =~= b.drop_last().push(b.last()));
        assert((a + b).to_multiset() =~= a.to_multiset().add(b.to_multiset()));
    }
}

} // verus!

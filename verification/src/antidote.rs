//! Substances: the chemical items that invaders drop and the player loads
//! into an antidote batch, together with the batch aggregation rules.

use vstd::prelude::*;

use crate::fixed::{ATTR_LIMIT, FX_ONE};

verus! {

/// Taste category of a substance, derived from the sign of its value at
/// creation time.
#[derive(Clone, Copy, PartialEq, Eq, Structural, Debug)]
pub enum SubstanceType {
    Sweet,
    Bitter,
    Balanced,
}

/// Defender attribute a substance acts on.
#[derive(Clone, Copy, PartialEq, Eq, Structural, Debug)]
pub enum TargetAttribute {
    Attack,
    Speed,
    Immune,
    Health,
}

/// An economy item: identity, display name, target attribute, fixed-point
/// value and taste category.
pub struct Substance {
    pub id: i32,
    pub name: String,
    pub target_attribute: TargetAttribute,
    pub value: i64,
    pub substance_type: SubstanceType,
}

impl Substance {
    /// Well-formed: non-negative identity and a bounded value.
    pub open spec fn wf(self) -> bool {
        &&& self.id >= 0
        &&& -ATTR_LIMIT <= self.value <= ATTR_LIMIT
    }
}

impl SubstanceType {
    /// Display label.
    pub fn label(&self) -> (r: &'static str)
        ensures
            *self == SubstanceType::Sweet ==> r@ == "Sweet"@,
            *self == SubstanceType::Bitter ==> r@ == "Bitter"@,
            *self == SubstanceType::Balanced ==> r@ == "Balanced"@,
    {
        match self {
            SubstanceType::Sweet => "Sweet",
            SubstanceType::Bitter => "Bitter",
            SubstanceType::Balanced => "Balanced",
        }
    }
}

impl TargetAttribute {
    /// Display label.
    pub fn label(&self) -> (r: &'static str)
        ensures
            *self == TargetAttribute::Attack ==> r@ == "Attack"@,
            *self == TargetAttribute::Speed ==> r@ == "Attack per sec"@,
            *self == TargetAttribute::Immune ==> r@ == "Immune"@,
            *self == TargetAttribute::Health ==> r@ == "Health"@,
    {
        match self {
            TargetAttribute::Attack => "Attack",
            TargetAttribute::Speed => "Attack per sec",
            TargetAttribute::Immune => "Immune",
            TargetAttribute::Health => "Health",
        }
    }
}

/// The fixed catalog of base substance archetypes.
pub struct SubstanceResource(pub Vec<Substance>);

/// Category implied by the sign of a value: negative is bitter, zero is
/// balanced, positive is sweet.
pub open spec fn category_of(value: int) -> SubstanceType {
    if value < 0 {
        SubstanceType::Bitter
    } else if value == 0 {
        SubstanceType::Balanced
    } else {
        SubstanceType::Sweet
    }
}

/// Derive the category of a value.
pub fn derive_category(value: i64) -> (t: SubstanceType)
    ensures
        t == category_of(value as int),
{
    if value < 0 {
        SubstanceType::Bitter
    } else if value == 0 {
        SubstanceType::Balanced
    } else {
        SubstanceType::Sweet
    }
}

/// Build the catalog of the four base archetypes.
pub fn setup_substances() -> (r: SubstanceResource)
    ensures
        r.wf(),
        r.0@.len() == 4,
        r.0@[0].target_attribute == TargetAttribute::Attack,
        r.0@[1].target_attribute == TargetAttribute::Speed,
        r.0@[2].target_attribute == TargetAttribute::Immune,
        r.0@[3].target_attribute == TargetAttribute::Health,
        r.0@[0].name@ == "Atagen"@,
        r.0@[1].name@ == "Speegen"@,
        r.0@[2].name@ == "Immugen"@,
        r.0@[3].name@ == "Helagen"@,
        forall|i: int| 0 <= i < 4 ==> #[trigger] r.0@[i].wf() && r.0@[i].value == 0 && r.0@[i].id == 0,
{
    let mut v: Vec<Substance> = Vec::new();
    v.push(Substance {
        id: 0,
        name: "Atagen".to_string(),
        target_attribute: TargetAttribute::Attack,
        value: 0,
        substance_type: SubstanceType::Sweet,
    });
    v.push(Substance {
        id: 0,
        name: "Speegen".to_string(),
        target_attribute: TargetAttribute::Speed,
        value: 0,
        substance_type: SubstanceType::Sweet,
    });
    v.push(Substance {
        id: 0,
        name: "Immugen".to_string(),
        target_attribute: TargetAttribute::Immune,
        value: 0,
        substance_type: SubstanceType::Sweet,
    });
    v.push(Substance {
        id: 0,
        name: "Helagen".to_string(),
        target_attribute: TargetAttribute::Health,
        value: 0,
        substance_type: SubstanceType::Sweet,
    });
    SubstanceResource(v)
}

impl SubstanceResource {
    /// Well-formed catalog: non-empty, every archetype well formed.
    pub open spec fn wf(self) -> bool {
        &&& self.0@.len() > 0
        &&& forall|i: int| 0 <= i < self.0@.len() ==> (#[trigger] self.0@[i]).wf()
    }
}

/// Chance (out of 100) that a dying invader drops a substance.
pub const DROP_CHANCE: i32 = 12;

/// Rolls (out of 100) strictly below this override a drop to balanced.
pub const BALANCED_OVERRIDE_CHANCE: i32 = 10;

/// Lowest value a speed substance can be sampled with, in fixed point.
pub const SPEED_VALUE_MIN: i64 = -40;

/// Highest value a speed substance can be sampled with, in fixed point.
pub const SPEED_VALUE_MAX: i64 = 20;

/// Lowest value a non-speed substance can be sampled with, in fixed point.
pub const VALUE_MIN: i64 = -500;

/// Highest value a non-speed substance can be sampled with, in fixed point.
pub const VALUE_MAX: i64 = 800;

/// The sampling range of a substance value: speed uses a narrower range than
/// the other attributes.
pub open spec fn value_in_sample_range(attr: TargetAttribute, v: int) -> bool {
    match attr {
        TargetAttribute::Speed => SPEED_VALUE_MIN <= v <= SPEED_VALUE_MAX,
        _ => VALUE_MIN <= v <= VALUE_MAX,
    }
}

/// The stored value of a drop: immune substances invert the sign, so that a
/// positive player-facing effect lowers infection exposure.
pub open spec fn effective_drop_value(attr: TargetAttribute, raw: int) -> int {
    if attr == TargetAttribute::Immune {
        -raw
    } else {
        raw
    }
}

/// Manufacture one dropped substance from a catalog archetype, a sampled raw
/// value and the balanced-override roll. The category is derived from the
/// sign of the stored value; a low override roll forces a balanced substance
/// of value zero, which keeps the category consistent with the sign.
pub fn make_drop_substance(
    archetype: &Substance,
    id: i32,
    raw_value: i64,
    balanced_roll: i32,
) -> (s: Substance)
    requires
        archetype.wf(),
        id >= 0,
        value_in_sample_range(archetype.target_attribute, raw_value as int),
        1 <= balanced_roll <= 100,
    ensures
        s.wf(),
        s.id == id,
        s.name@ == archetype.name@,
        s.target_attribute == archetype.target_attribute,
        s.substance_type == category_of(s.value as int),
        balanced_roll < BALANCED_OVERRIDE_CHANCE ==> s.value == 0,
        balanced_roll >= BALANCED_OVERRIDE_CHANCE ==> s.value == effective_drop_value(
            archetype.target_attribute,
            raw_value as int,
        ),
{
    let signed_value: i64 = match archetype.target_attribute {
        TargetAttribute::Immune => -raw_value,
        _ => raw_value,
    };
    let (value, substance_type) = if balanced_roll < BALANCED_OVERRIDE_CHANCE {
        (0i64, SubstanceType::Balanced)
    } else {
        (signed_value, derive_category(signed_value))
    };
    Substance {
        id,
        name: archetype.name.clone(),
        target_attribute: archetype.target_attribute,
        value,
        substance_type,
    }
}

/// Most substances a batch can hold.
pub const SUBSTANCE_BATCH_CAP: usize = 6;

/// Cap on the speed delta applied per injection.
pub const SPEED_GAIN_CAP: i64 = 20;

/// Infection added per unmatched sweet substance, in fixed point.
pub const INFECTION_PENALTY_PER_SWEET: i64 = 500;

/// Sign factor of a taste category: sweet counts positively, bitter
/// negatively, balanced not at all.
pub open spec fn sweet_factor(t: SubstanceType) -> int {
    match t {
        SubstanceType::Sweet => 1,
        SubstanceType::Bitter => -1,
        SubstanceType::Balanced => 0,
    }
}

/// Attack delta a single substance contributes: its value times its sign
/// factor, counted directly.
pub open spec fn attack_contribution(s: Substance) -> int {
    if s.target_attribute == TargetAttribute::Attack {
        s.value * sweet_factor(s.substance_type)
    } else {
        0
    }
}

/// Speed delta a single substance contributes: negated, since a lower attack
/// interval is the beneficial direction.
pub open spec fn speed_contribution(s: Substance) -> int {
    if s.target_attribute == TargetAttribute::Speed {
        -(s.value * sweet_factor(s.substance_type))
    } else {
        0
    }
}

/// Immunity delta a single substance contributes: negated, as for speed.
pub open spec fn immune_contribution(s: Substance) -> int {
    if s.target_attribute == TargetAttribute::Immune {
        -(s.value * sweet_factor(s.substance_type))
    } else {
        0
    }
}

/// Health delta a single substance contributes, counted directly.
pub open spec fn health_contribution(s: Substance) -> int {
    if s.target_attribute == TargetAttribute::Health {
        s.value * sweet_factor(s.substance_type)
    } else {
        0
    }
}

/// Number of sweet substances in a batch.
pub open spec fn count_sweet(batch: Seq<Substance>) -> int
    decreases batch.len(),
{
    if batch.len() == 0 {
        0
    } else {
        count_sweet(batch.drop_last()) + if batch.last().substance_type == SubstanceType::Sweet {
            1int
        } else {
            0int
        }
    }
}

/// Number of bitter substances in a batch.
pub open spec fn count_bitter(batch: Seq<Substance>) -> int
    decreases batch.len(),
{
    if batch.len() == 0 {
        0
    } else {
        count_bitter(batch.drop_last()) + if batch.last().substance_type == SubstanceType::Bitter {
            1int
        } else {
            0int
        }
    }
}

/// Number of balanced substances in a batch.
pub open spec fn count_balanced(batch: Seq<Substance>) -> int
    decreases batch.len(),
{
    if batch.len() == 0 {
        0
    } else {
        count_balanced(batch.drop_last()) + if batch.last().substance_type
            == SubstanceType::Balanced {
            1int
        } else {
            0int
        }
    }
}

/// Total attack delta of a batch.
pub open spec fn attack_gain(batch: Seq<Substance>) -> int
    decreases batch.len(),
{
    if batch.len() == 0 {
        0
    } else {
        attack_gain(batch.drop_last()) + attack_contribution(batch.last())
    }
}

/// Total speed delta of a batch.
pub open spec fn speed_gain(batch: Seq<Substance>) -> int
    decreases batch.len(),
{
    if batch.len() == 0 {
        0
    } else {
        speed_gain(batch.drop_last()) + speed_contribution(batch.last())
    }
}

/// Total immunity delta of a batch.
pub open spec fn immune_gain(batch: Seq<Substance>) -> int
    decreases batch.len(),
{
    if batch.len() == 0 {
        0
    } else {
        immune_gain(batch.drop_last()) + immune_contribution(batch.last())
    }
}

/// Total health delta of a batch.
pub open spec fn health_gain(batch: Seq<Substance>) -> int
    decreases batch.len(),
{
    if batch.len() == 0 {
        0
    } else {
        health_gain(batch.drop_last()) + health_contribution(batch.last())
    }
}

/// Defenders spawned by a batch: two per balanced substance, plus one per
/// matched sweet/bitter pair.
pub open spec fn cells_to_spawn(batch: Seq<Substance>) -> int {
    2 * count_balanced(batch) + vstd::math::min(count_sweet(batch), count_bitter(batch))
}

/// Infection added to every defender: five fixed-point units per unmatched
/// sweet substance, never negative.
pub open spec fn net_infection_penalty(batch: Seq<Substance>) -> int {
    if count_sweet(batch) > count_bitter(batch) {
        (INFECTION_PENALTY_PER_SWEET as int) * (count_sweet(batch) - count_bitter(batch))
    } else {
        0
    }
}

/// Every substance of a batch is well formed.
pub open spec fn batch_wf(batch: Seq<Substance>) -> bool {
    forall|i: int| 0 <= i < batch.len() ==> #[trigger] batch[i].wf()
}

/// The per-substance contributions are bounded by the substance value bound.
proof fn lemma_contribution_bounds(s: Substance)
    requires
        s.wf(),
    ensures
        -ATTR_LIMIT <= attack_contribution(s) <= ATTR_LIMIT,
        -ATTR_LIMIT <= speed_contribution(s) <= ATTR_LIMIT,
        -ATTR_LIMIT <= immune_contribution(s) <= ATTR_LIMIT,
        -ATTR_LIMIT <= health_contribution(s) <= ATTR_LIMIT,
{
}

/// Batch totals are bounded by the batch length times the value bound, and
/// the counts by the batch length.
pub proof fn lemma_batch_bounds(batch: Seq<Substance>)
    requires
        batch_wf(batch),
    ensures
        -batch.len() * ATTR_LIMIT <= attack_gain(batch) <= batch.len() * ATTR_LIMIT,
        -batch.len() * ATTR_LIMIT <= speed_gain(batch) <= batch.len() * ATTR_LIMIT,
        -batch.len() * ATTR_LIMIT <= immune_gain(batch) <= batch.len() * ATTR_LIMIT,
        -batch.len() * ATTR_LIMIT <= health_gain(batch) <= batch.len() * ATTR_LIMIT,
        0 <= count_sweet(batch) <= batch.len(),
        0 <= count_bitter(batch) <= batch.len(),
        0 <= count_balanced(batch) <= batch.len(),
    decreases batch.len(),
{
    if batch.len() > 0 {
        assert(batch_wf(batch.drop_last())) by {
            assert(forall|i: int|
                0 <= i < batch.len() - 1 ==> batch.drop_last()[i] == batch[i]);
        }
        lemma_batch_bounds(batch.drop_last());
        lemma_contribution_bounds(batch.last());
    }
}

/// Aggregated effect of a whole batch, mirroring the totals the injection
/// step applies to every defender.
#[derive(Clone, Copy, PartialEq, Eq, Structural, Debug)]
pub struct BatchTotals {
    pub to_spawn_cell_count: i64,
    pub total_sweet: i64,
    pub total_bitter: i64,
    pub total_attack_gain: i64,
    pub total_speed_gain: i64,
    pub total_immu_gain: i64,
    pub total_health_gain: i64,
    pub total_add_infection: i64,
}

/// Classify and sum a batch: taste counts, per-attribute deltas, defenders
/// to spawn and the infection penalty.
pub fn aggregate_batch(batch: &Vec<Substance>) -> (t: BatchTotals)
    requires
        batch_wf(batch@),
        batch@.len() <= SUBSTANCE_BATCH_CAP,
    ensures
        t.total_sweet == count_sweet(batch@),
        t.total_bitter == count_bitter(batch@),
        t.total_attack_gain == attack_gain(batch@),
        t.total_speed_gain == speed_gain(batch@),
        t.total_immu_gain == immune_gain(batch@),
        t.total_health_gain == health_gain(batch@),
        t.to_spawn_cell_count == cells_to_spawn(batch@),
        t.total_add_infection == net_infection_penalty(batch@),
{
    let ghost all = batch@;
    let mut to_spawn_cell_count: i64 = 0;
    let mut total_sweet: i64 = 0;
    let mut total_bitter: i64 = 0;
    let mut total_attack_gain: i64 = 0;
    let mut total_speed_gain: i64 = 0;
    let mut total_immu_gain: i64 = 0;
    let mut total_health_gain: i64 = 0;

    let mut idx: usize = 0;
    while idx < batch.len()
        invariant
            batch_wf(batch@),
            batch@.len() <= SUBSTANCE_BATCH_CAP,
            0 <= idx <= batch@.len(),
            to_spawn_cell_count == 2 * count_balanced(batch@.take(idx as int)),
            total_sweet == count_sweet(batch@.take(idx as int)),
            total_bitter == count_bitter(batch@.take(idx as int)),
            total_attack_gain == attack_gain(batch@.take(idx as int)),
            total_speed_gain == speed_gain(batch@.take(idx as int)),
            total_immu_gain == immune_gain(batch@.take(idx as int)),
            total_health_gain == health_gain(batch@.take(idx as int)),
        decreases batch@.len() - idx,
    {
        let ghost prefix = batch@.take(idx as int);
        let ghost prefix1 = batch@.take(idx as int + 1);
        proof {
            assert(prefix1.drop_last() =~= prefix);
            assert(prefix1.last() == batch@[idx as int]);
            lemma_batch_bounds(prefix);
            lemma_contribution_bounds(batch@[idx as int]);
        }
        let s = &batch[idx];
        let sweet_factor_val: i64;
        match s.substance_type {
            SubstanceType::Balanced => {
                to_spawn_cell_count = to_spawn_cell_count + 2;
                sweet_factor_val = 0;
            },
            SubstanceType::Bitter => {
                total_bitter = total_bitter + 1;
                sweet_factor_val = -1;
            },
            SubstanceType::Sweet => {
                total_sweet = total_sweet + 1;
                sweet_factor_val = 1;
            },
        }
        match s.target_attribute {
            TargetAttribute::Attack => {
                total_attack_gain = total_attack_gain + s.value * sweet_factor_val;
            },
            TargetAttribute::Speed => {
                total_speed_gain = total_speed_gain - s.value * sweet_factor_val;
            },
            TargetAttribute::Immune => {
                total_immu_gain = total_immu_gain - s.value * sweet_factor_val;
            },
            TargetAttribute::Health => {
                total_health_gain = total_health_gain + s.value * sweet_factor_val;
            },
        }
        idx = idx + 1;
    }
    proof {
        assert(batch@.take(batch@.len() as int) =~= batch@);
        lemma_batch_bounds(batch@);
    }
    to_spawn_cell_count = to_spawn_cell_count + if total_bitter < total_sweet {
        total_bitter
    } else {
        total_sweet
    };
    let total_add_infection: i64 = if total_sweet > total_bitter {
        INFECTION_PENALTY_PER_SWEET * (total_sweet - total_bitter)
    } else {
        0
    };
    BatchTotals {
        to_spawn_cell_count,
        total_sweet,
        total_bitter,
        total_attack_gain,
        total_speed_gain,
        total_immu_gain,
        total_health_gain,
        total_add_infection,
    }
}

} // verus!

//! Wave-clear resolution: the wave counter advances and each surviving
//! defender's live attributes are written back into the roster.

use vstd::prelude::*;

use crate::cell::{Actor, CellAttribute, CellKind};
use crate::playerresource::{PlayerResource, WAVE_LIMIT};

verus! {

/// Roster identity of an actor, when it is a defender.
pub open spec fn good_cell_id_of(a: Actor) -> Option<i32> {
    match a.kind {
        CellKind::GoodCell { cell_id, .. } => Some(cell_id),
        CellKind::BadCell => None,
    }
}

/// Attributes of the last surviving defender actor that carries the given
/// roster identity, if any: the value the write-back leaves in the roster.
pub open spec fn last_surviving_attrs(survivors: Seq<Actor>, cell_id: i32) -> Option<
    CellAttribute,
>
    decreases survivors.len(),
{
    if survivors.len() == 0 {
        None
    } else if good_cell_id_of(survivors.last()) == Some(cell_id) {
        Some(survivors.last().attribute)
    } else {
        last_surviving_attrs(survivors.drop_last(), cell_id)
    }
}

/// Clear the wave: advance the wave counter by one and write each surviving
/// defender's live attributes back into its roster entry. Entries without a
/// surviving actor are untouched; identities and arranged positions are
/// kept.
pub fn update_wave_clear(player_resources: &mut PlayerResource, survivors: &Vec<Actor>)
    requires
        old(player_resources).wf(),
        old(player_resources).wave_num < WAVE_LIMIT,
        forall|k: int| 0 <= k < survivors@.len() ==> (#[trigger] survivors@[k]).wf(),
    ensures
        final(player_resources).wf(),
        final(player_resources).wave_num == old(player_resources).wave_num + 1,
        final(player_resources).substance_collection == old(player_resources).substance_collection,
        final(player_resources).loaded_substances == old(player_resources).loaded_substances,
        final(player_resources).good_cell_id == old(player_resources).good_cell_id,
        final(player_resources).substance_id_gen == old(player_resources).substance_id_gen,
        final(player_resources).cell_army@.len() == old(player_resources).cell_army@.len(),
        forall|i: int|
            0 <= i < old(player_resources).cell_army@.len() ==> ({
                let old_entry = old(player_resources).cell_army@[i];
                let new_entry = #[trigger] final(player_resources).cell_army@[i];
                &&& new_entry.0 == old_entry.0
                &&& new_entry.1.cell_trans == old_entry.1.cell_trans
                &&& new_entry.1.cell_attribute == match last_surviving_attrs(
                    survivors@,
                    old_entry.0,
                ) {
                    Some(a) => a,
                    None => old_entry.1.cell_attribute,
                }
            }),
{
    player_resources.wave_num = player_resources.wave_num + 1;
    let mut k: usize = 0;
    while k < survivors.len()
        invariant
            old(player_resources).wf(),
            forall|j: int| 0 <= j < survivors@.len() ==> (#[trigger] survivors@[j]).wf(),
            0 <= k <= survivors@.len(),
            player_resources.wave_num == old(player_resources).wave_num + 1,
            old(player_resources).wave_num < WAVE_LIMIT,
            player_resources.substance_collection == old(player_resources).substance_collection,
            player_resources.loaded_substances == old(player_resources).loaded_substances,
            player_resources.good_cell_id == old(player_resources).good_cell_id,
            player_resources.substance_id_gen == old(player_resources).substance_id_gen,
            player_resources.cell_army@.len() == old(player_resources).cell_army@.len(),
            forall|i: int|
                0 <= i < old(player_resources).cell_army@.len() ==> ({
                    let old_entry = old(player_resources).cell_army@[i];
                    let new_entry = #[trigger] player_resources.cell_army@[i];
                    &&& new_entry.0 == old_entry.0
                    &&& new_entry.1.cell_trans == old_entry.1.cell_trans
                    &&& new_entry.1.cell_attribute.wf()
                    &&& new_entry.1.cell_attribute == match last_surviving_attrs(
                        survivors@.take(k as int),
                        old_entry.0,
                    ) {
                        Some(a) => a,
                        None => old_entry.1.cell_attribute,
                    }
                }),
        decreases survivors@.len() - k,
    {
        proof {
            assert(survivors@.take(k as int + 1).drop_last() =~= survivors@.take(k as int));
            assert(survivors@.take(k as int + 1).last() == survivors@[k as int]);
        }
        let survivor = &survivors[k];
        match survivor.kind {
            CellKind::GoodCell { cell_id, .. } => {
                let mut idx: usize = 0;
                let n = player_resources.cell_army.len();
                let ghost before_army = player_resources.cell_army@;
                while idx < n && player_resources.cell_army[idx].0 != cell_id
                    invariant
                        n == player_resources.cell_army@.len(),
                        0 <= idx <= n,
                        player_resources.cell_army@ == before_army,
                        forall|i: int|
                            0 <= i < idx ==> (#[trigger] player_resources.cell_army@[i]).0
                                != cell_id,
                    decreases n - idx,
                {
                    idx = idx + 1;
                }
                if idx < n {
                    let (id, bundle) = player_resources.cell_army[idx];
                    let attrs = survivor.attribute;
                    player_resources.cell_army.set(
                        idx,
                        (
                            id,
                            crate::cell::CellBundle {
                                cell_trans: bundle.cell_trans,
                                cell_attribute: attrs,
                            },
                        ),
                    );
                    proof {
                        assert(survivors@[k as int].wf());
                        assert forall|i: int|
                            0 <= i < old(player_resources).cell_army@.len() && i != idx implies (
                        #[trigger] player_resources.cell_army@[i]).0 != cell_id by {
                            if i < idx {
                                assert(before_army[i].0 != cell_id);
                            } else {
                                assert(old(player_resources).cell_army@[i].0 == before_army[i].0);
                                assert(before_army[idx as int].0 == cell_id);
                                assert(before_army[i].0 != before_army[idx as int].0);
                            }
                        }
                    }
                } else {
                    proof {
                        assert forall|i: int|
                            0 <= i < player_resources.cell_army@.len() implies (
                        #[trigger] player_resources.cell_army@[i]).0 != cell_id by {
                            assert(player_resources.cell_army@[i].0 != cell_id);
                        }
                    }
                }
            },
            CellKind::BadCell => {},
        }
        k = k + 1;
    }
    proof {
        assert(survivors@.take(survivors@.len() as int) =~= survivors@);
    }
}

} // verus!

use vstd::prelude::*;

use crate::app::{after_frame, after_keys, after_press, after_release, set_lamps, Panel};
use crate::layout::{binding, table_order, PhysicalKey};

verus! {

/// Pressing a mapped key lights exactly the lamps listed for it, leaves
/// every other lamp as it was, and makes its label the current key.
pub proof fn lemma_press_lights_exactly(p: Panel, k: PhysicalKey)
    requires
        binding(k) is Some,
    ensures
        ({
            let (l, ixs) = binding(k)->0;
            let q = after_press(p, k);
            &&& q.lamps.len() == p.lamps.len()
            &&& forall|j: int| 0 <= j < ixs.len() && ixs[j] < p.lamps.len() ==> #[trigger] q.lamps[ixs[j] as int]
            &&& forall|i: int| 0 <= i < p.lamps.len() && !ixs.contains(i as usize) ==> #[trigger] q.lamps[i] == p.lamps[i]
            &&& q.current == l
            &&& q.label == p.label
            &&& q.lamp_labels == p.lamp_labels
        }),
{
    let ixs = (binding(k)->0).1;
    assert forall|j: int| 0 <= j < ixs.len() && ixs[j] < p.lamps.len() implies #[trigger] after_press(p, k).lamps[ixs[j] as int] by {
        assert(ixs.contains(ixs[j]));
    }
}

/// Releasing a mapped key puts out exactly the lamps listed for it, leaves
/// every other lamp as it was, and clears the current key.
pub proof fn lemma_release_clears_exactly(p: Panel, k: PhysicalKey)
    requires
        binding(k) is Some,
    ensures
        ({
            let ixs = (binding(k)->0).1;
            let q = after_release(p, k);
            &&& q.lamps.len() == p.lamps.len()
            &&& forall|j: int| 0 <= j < ixs.len() && ixs[j] < p.lamps.len() ==> !#[trigger] q.lamps[ixs[j] as int]
            &&& forall|i: int| 0 <= i < p.lamps.len() && !ixs.contains(i as usize) ==> #[trigger] q.lamps[i] == p.lamps[i]
            &&& q.current.len() == 0
            &&& q.label == p.label
            &&& q.lamp_labels == p.lamp_labels
        }),
{
    let ixs = (binding(k)->0).1;
    assert forall|j: int| 0 <= j < ixs.len() && ixs[j] < p.lamps.len() implies !#[trigger] after_release(p, k).lamps[ixs[j] as int] by {
        assert(ixs.contains(ixs[j]));
    }
}

/// Pressing a key a second time, with no release between, changes nothing.
pub proof fn lemma_press_idempotent(p: Panel, k: PhysicalKey)
    ensures
        after_press(after_press(p, k), k) == after_press(p, k),
{
    if let Some((_, ixs)) = binding(k) {
        let once = set_lamps(p.lamps, ixs, true);
        assert(set_lamps(once, ixs, true) =~= once);
    }
}

/// A key that the mapping table does not hold changes neither the lamps nor
/// the current key, whether it goes down or comes up.
pub proof fn lemma_unmapped_key_ignored(p: Panel, k: PhysicalKey)
    requires
        binding(k) is None,
    ensures
        after_press(p, k) == p,
        after_release(p, k) == p,
{
}

/// Every key that a frame visits is in the mapping table.
pub proof fn lemma_table_order_mapped()
    ensures
        forall|i: int| 0 <= i < table_order().len() ==> #[trigger] binding(table_order()[i]) is Some,
{
}

proof fn lemma_unmapped_in_frame(
    p: Panel,
    order: Seq<PhysicalKey>,
    pressed: Seq<PhysicalKey>,
    released: Seq<PhysicalKey>,
    k: PhysicalKey,
)
    requires
        binding(k) is None,
        forall|i: int| 0 <= i < order.len() ==> #[trigger] binding(order[i]) is Some,
    ensures
        after_keys(p, order, pressed.push(k), released) == after_keys(p, order, pressed, released),
        after_keys(p, order, pressed, released.push(k)) == after_keys(p, order, pressed, released),
    decreases order.len(),
{
    if order.len() > 0 {
        let last = order.last();
        assert(binding(order[order.len() - 1]) is Some);
        lemma_unmapped_in_frame(p, order.drop_last(), pressed, released, k);
        vstd::seq_lib::lemma_seq_contains_after_push(pressed, k, last);
        vstd::seq_lib::lemma_seq_contains_after_push(released, k, last);
    }
}

/// A key that the mapping table does not hold, added to a frame's presses
/// or releases, leaves the result of the frame as it was.
pub proof fn lemma_unmapped_key_ignored_in_frame(
    p: Panel,
    pressed: Seq<PhysicalKey>,
    released: Seq<PhysicalKey>,
    k: PhysicalKey,
)
    requires
        binding(k) is None,
    ensures
        after_frame(p, pressed.push(k), released) == after_frame(p, pressed, released),
        after_frame(p, pressed, released.push(k)) == after_frame(p, pressed, released),
{
    lemma_table_order_mapped();
    lemma_unmapped_in_frame(p, table_order(), pressed, released, k);
}

} // verus!

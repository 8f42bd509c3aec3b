use vstd::prelude::*;

use crate::key::{Key, MAX_KEYS};
use crate::layout::{binding, lemma_binding_in_range, lookup, table_keys, table_order, PhysicalKey};

verus! {

/// What the display shows: the persisted label, the lamps' labels and
/// states, and the label of the current key.
pub ghost struct Panel {
    pub label: Seq<char>,
    pub lamp_labels: Seq<Seq<char>>,
    pub lamps: Seq<bool>,
    pub current: Seq<char>,
}

/// `lamps` with every index listed in `ixs` set to `on`, the others kept.
pub open spec fn set_lamps(lamps: Seq<bool>, ixs: Seq<usize>, on: bool) -> Seq<bool> {
    Seq::new(lamps.len(), |i: int| if ixs.contains(i as usize) { on } else { lamps[i] })
}

/// The panel after key `k` went down.
pub open spec fn after_press(p: Panel, k: PhysicalKey) -> Panel {
    match binding(k) {
        Some((l, ixs)) => Panel { lamps: set_lamps(p.lamps, ixs, true), current: l, ..p },
        None => p,
    }
}

/// The panel after key `k` came up.
pub open spec fn after_release(p: Panel, k: PhysicalKey) -> Panel {
    match binding(k) {
        Some((_, ixs)) => Panel {
            lamps: set_lamps(p.lamps, ixs, false),
            current: Seq::empty(),
            ..p
        },
        None => p,
    }
}

/// The panel after one frame's presses and releases were applied to the
/// keys of `order`, visited in turn: for each key, its press first, then
/// its release.
pub open spec fn after_keys(
    p: Panel,
    order: Seq<PhysicalKey>,
    pressed: Seq<PhysicalKey>,
    released: Seq<PhysicalKey>,
) -> Panel
    decreases order.len(),
{
    if order.len() == 0 {
        p
    } else {
        let k = order.last();
        let q = after_keys(p, order.drop_last(), pressed, released);
        let q = if pressed.contains(k) { after_press(q, k) } else { q };
        if released.contains(k) { after_release(q, k) } else { q }
    }
}

/// The panel after one frame: each mapped key, in table order, is pressed
/// if it is in `pressed` and then released if it is in `released`.
pub open spec fn after_frame(
    p: Panel,
    pressed: Seq<PhysicalKey>,
    released: Seq<PhysicalKey>,
) -> Panel {
    after_keys(p, table_order(), pressed, released)
}

/// The labels that the lamps carry from start-up.
pub open spec fn default_lamp_labels() -> Seq<Seq<char>> {
    seq![
        "▽"@, "◀"@, "◆"@, "▶"@, "⋐"@, "⋑"@, "⋑"@, "⋐"@, "◀"@, "◆"@, "▶"@, "△"@,
    ]
}

/// The panel at start-up, with the given persisted label.
pub open spec fn initial_panel(label: Seq<char>) -> Panel {
    Panel {
        label,
        lamp_labels: default_lamp_labels(),
        lamps: Seq::new(MAX_KEYS as nat, |i: int| false),
        current: Seq::empty(),
    }
}

/// The state of the keyboard display.
pub struct TemplateApp {
    label: String,
    keys: [Key; MAX_KEYS],
    current_key: String,
}

impl View for TemplateApp {
    type V = Panel;

    closed spec fn view(&self) -> Panel {
        Panel {
            label: self.label@,
            lamp_labels: self.keys@.map_values(|k: Key| k.label@),
            lamps: self.keys@.map_values(|k: Key| k.state),
            current: self.current_key@,
        }
    }
}

impl Default for TemplateApp {
    /// The display at first start: the label "tinykeys", the default lamp
    /// labels, every lamp off and no current key.
    fn default() -> (r: Self)
        ensures
            r@ == initial_panel("tinykeys"@),
    {
        TemplateApp::restore("tinykeys".to_owned())
    }
}

fn contains_key(keys: &Vec<PhysicalKey>, k: PhysicalKey) -> (r: bool)
    ensures
        r == keys@.contains(k),
{
    let mut i: usize = 0;
    while i < keys.len()
        invariant
            0 <= i <= keys@.len(),
            forall|m: int| 0 <= m < i ==> keys@[m] != k,
        decreases keys@.len() - i,
    {
        if keys[i] == k {
            return true;
        }
        i += 1;
    }
    false
}

impl TemplateApp {
    /// The display as it comes back from persisted state: only the label is
    /// kept; lamps and current key start afresh.
    pub fn restore(label: String) -> (r: Self)
        ensures
            r@ == initial_panel(label@),
    {
        let keys = [
            Key::new("▽".to_owned()),
            Key::new("◀".to_owned()),
            Key::new("◆".to_owned()),
            Key::new("▶".to_owned()),
            Key::new("⋐".to_owned()),
            Key::new("⋑".to_owned()),
            Key::new("⋑".to_owned()),
            Key::new("⋐".to_owned()),
            Key::new("◀".to_owned()),
            Key::new("◆".to_owned()),
            Key::new("▶".to_owned()),
            Key::new("△".to_owned()),
        ];
        let r = TemplateApp { label, keys, current_key: String::new() };
        assert(r@.lamp_labels =~= default_lamp_labels());
        assert(r@.lamps =~= initial_panel(label@).lamps);
        r
    }

    /// The label that is persisted across runs.
    pub fn label(&self) -> (r: &str)
        ensures
            r@ == self@.label,
    {
        self.label.as_str()
    }

    /// The label of the current key; empty when none is active.
    pub fn current_key(&self) -> (r: &str)
        ensures
            r@ == self@.current,
    {
        self.current_key.as_str()
    }

    /// Whether lamp `i` is lit.
    pub fn lamp_state(&self, i: usize) -> (r: bool)
        requires
            i < MAX_KEYS,
        ensures
            r == self@.lamps[i as int],
    {
        self.keys[i].state
    }

    /// The label of lamp `i`.
    pub fn lamp_label(&self, i: usize) -> (r: &str)
        requires
            i < MAX_KEYS,
        ensures
            r@ == self@.lamp_labels[i as int],
    {
        self.keys[i].label.as_str()
    }

    /// There are always exactly `MAX_KEYS` lamps.
    pub proof fn lemma_lamp_count(&self)
        ensures
            self@.lamps.len() == MAX_KEYS,
            self@.lamp_labels.len() == MAX_KEYS,
    {
    }

    /// Applies one frame of input: for each mapped key in table order, its
    /// press if it is in `pressed`, then its release if it is in `released`.
    /// Keys that the table does not hold are ignored.
    pub fn handle_keys(&mut self, pressed: &Vec<PhysicalKey>, released: &Vec<PhysicalKey>)
        ensures
            final(self)@ == after_frame(old(self)@, pressed@, released@),
    {
        let order = table_keys();
        let mut i: usize = 0;
        while i < order.len()
            invariant
                0 <= i <= order@.len(),
                order@ == table_order(),
                self@ == after_keys(old(self)@, order@.take(i as int), pressed@, released@),
            decreases order@.len() - i,
        {
            let k = order[i];
            proof {
                assert(order@.take(i + 1).drop_last() =~= order@.take(i as int));
            }
            if contains_key(pressed, k) {
                self.press(k);
            }
            if contains_key(released, k) {
                self.release(k);
            }
            i += 1;
        }
        assert(order@.take(i as int) =~= order@);
    }

    /// Key `k` went down: its lamps light and its label becomes current.
    /// A key that the table does not hold changes nothing.
    pub fn press(&mut self, k: PhysicalKey)
        ensures
            final(self)@ == after_press(old(self)@, k),
    {
        if let Some((l, ixs)) = lookup(k) {
            proof {
                lemma_binding_in_range(k);
            }
            self.set_all(&ixs, true);
            self.current_key = l;
        }
    }

    /// Key `k` came up: its lamps go out and the current label is cleared.
    /// A key that the table does not hold changes nothing.
    pub fn release(&mut self, k: PhysicalKey)
        ensures
            final(self)@ == after_release(old(self)@, k),
    {
        if let Some((_, ixs)) = lookup(k) {
            proof {
                lemma_binding_in_range(k);
            }
            self.set_all(&ixs, false);
            self.current_key = String::new();
        }
    }

    fn set_all(&mut self, ixs: &Vec<usize>, on: bool)
        requires
            forall|j: int| 0 <= j < ixs@.len() ==> #[trigger] ixs@[j] < MAX_KEYS,
        ensures
            final(self)@ == (Panel { lamps: set_lamps(old(self)@.lamps, ixs@, on), ..old(self)@ }),
    {
        let mut j: usize = 0;
        assert(self@.lamps =~= set_lamps(old(self)@.lamps, ixs@.take(0), on));
        while j < ixs.len()
            invariant
                0 <= j <= ixs@.len(),
                forall|m: int| 0 <= m < ixs@.len() ==> #[trigger] ixs@[m] < MAX_KEYS,
                self@ == (Panel {
                    lamps: set_lamps(old(self)@.lamps, ixs@.take(j as int), on),
                    ..old(self)@
                }),
            decreases ixs@.len() - j,
        {
            let ix = ixs[j];
            let ghost before = self@;
            self.keys[ix].state = on;
            proof {
                let done = ixs@.take(j as int);
                assert(ixs@.take(j + 1) =~= done.push(ix));
                assert(self@.lamp_labels =~= before.lamp_labels);
                let target = set_lamps(old(self)@.lamps, ixs@.take(j + 1), on);
                assert forall|i: int| 0 <= i < MAX_KEYS implies #[trigger] self@.lamps[i]
                    == target[i] by {
                    vstd::seq_lib::lemma_seq_contains_after_push(done, ix, i as usize);
                    assert(self.keys@.len() == MAX_KEYS);
                    assert(before.lamps[i] == set_lamps(old(self)@.lamps, done, on)[i]);
                }
                assert(self@.lamps =~= target);
            }
            j += 1;
        }
        assert(ixs@.take(j as int) =~= ixs@);
    }
}

} // verus!

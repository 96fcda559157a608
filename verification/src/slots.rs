//! The inventory model: a read-only snapshot of one slot, the traded-item
//! test on it, and index snapshots over a whole slot view.
//!
//! A snapshot must be re-fetched immediately before every mutating click,
//! because concurrent server-driven updates can invalidate a stale one;
//! the functions here only read a snapshot that the caller supplies.

use vstd::prelude::*;

use crate::text::contains_seq;
use crate::text::contains_sub;
use crate::text::lower_seq;
use crate::text::to_lower_str;

verus! {

/// One slot of a container or inventory view: a presence flag, the
/// item-kind identifier text, the stack count (at least one when
/// present), and the lore lines.
pub struct ItemSlot {
    /// Whether the slot holds an item.
    pub present: bool,
    /// The item-kind identifier text of a held item.
    pub kind: String,
    /// How many units the held stack has.
    pub count: u32,
    /// The lore lines attached to the held item.
    pub lore: Vec<String>,
}

impl ItemSlot {
    /// A present stack holds at least one unit.
    pub open spec fn wf(self) -> bool {
        self.present ==> self.count >= 1
    }

    /// An empty slot.
    pub fn empty() -> (r: ItemSlot)
        ensures
            !r.present,
            r.wf(),
    {
        ItemSlot { present: false, kind: String::new(), count: 0, lore: Vec::new() }
    }

    /// A slot holding a stack of `count` units of `kind` with `lore`.
    pub fn stack(kind: String, count: u32, lore: Vec<String>) -> (r: ItemSlot)
        requires
            count >= 1,
        ensures
            r.present,
            r.kind == kind,
            r.count == count,
            r.lore == lore,
            r.wf(),
    {
        ItemSlot { present: true, kind, count, lore }
    }
}

/// The slot holds the traded item: it is present and its kind identifier,
/// lower-cased, carries the traded-item name.
///
/// The identifier test is a substring match on identifier text, kept from
/// the protocol this models; a stable enumerated comparison would be
/// preferable but the identifier only reaches us as text.
pub open spec fn is_map_slot(s: ItemSlot) -> bool {
    s.present && contains_seq(lower_seq(s.kind@), "map"@)
}

/// Decides whether a slot holds the traded item.
pub fn is_map_item(item: &ItemSlot) -> (b: bool)
    ensures
        b == is_map_slot(*item),
{
    if item.present {
        let low = to_lower_str(item.kind.as_str());
        contains_sub(low.as_str(), "map")
    } else {
        false
    }
}

/// The lore lines a slot exposes: those of a held item, none otherwise.
pub open spec fn lore_of(s: ItemSlot) -> Seq<Seq<char>> {
    if s.present {
        s.lore.deep_view()
    } else {
        Seq::empty()
    }
}

/// Extracts the lore text lines from a slot snapshot.
pub fn extract_lore(item: &ItemSlot) -> (r: Vec<String>)
    ensures
        r.deep_view() == lore_of(*item),
{
    let mut out: Vec<String> = Vec::new();
    if !item.present {
        proof {
            assert(out.deep_view() =~= lore_of(*item));
        }
        return out;
    }
    let n = item.lore.len();
    let mut i: usize = 0;
    while i < n
        invariant
            n == item.lore.len(),
            0 <= i <= n,
            out@.len() == i,
            forall|k: int| 0 <= k < i ==> out@[k]@ == item.lore@[k]@,
        decreases n - i,
    {
        let line: String = item.lore[i].clone();
        proof {
            assert(line@ == item.lore@[i as int]@);
        }
        out.push(line);
        i += 1;
    }
    proof {
        assert forall|k: int| 0 <= k < n implies out.deep_view()[k]
            == item.lore.deep_view()[k] by {
            assert(out.deep_view()[k] == out@[k]@);
            assert(item.lore.deep_view()[k] == item.lore@[k]@);
        }
        assert(out.deep_view() =~= item.lore.deep_view());
    }
    out
}

/// Indices of the slots holding the traded item, in slot order.
pub open spec fn map_indices(slots: Seq<ItemSlot>) -> Seq<usize>
    decreases slots.len(),
{
    if slots.len() == 0 {
        Seq::empty()
    } else {
        let pre = map_indices(slots.drop_last());
        if is_map_slot(slots.last()) {
            pre.push((slots.len() - 1) as usize)
        } else {
            pre
        }
    }
}

/// Snapshots which slots of a view hold the traded item.
///
/// The orchestrator takes one snapshot before a purchase and one after;
/// their difference is what the purchase brought in.
pub fn get_map_slots(slots: &Vec<ItemSlot>) -> (r: Vec<usize>)
    ensures
        r@ == map_indices(slots@),
{
    let n = slots.len();
    let mut out: Vec<usize> = Vec::new();
    let mut i: usize = 0;
    proof {
        assert(slots@.take(0) =~= Seq::<ItemSlot>::empty());
    }
    while i < n
        invariant
            n == slots@.len(),
            0 <= i <= n,
            out@ == map_indices(slots@.take(i as int)),
        decreases n - i,
    {
        proof {
            assert(slots@.take(i + 1).drop_last() =~= slots@.take(i as int));
            assert(slots@.take(i + 1).last() == slots@[i as int]);
        }
        if is_map_item(&slots[i]) {
            out.push(i);
        }
        i += 1;
    }
    proof {
        assert(slots@.take(n as int) =~= slots@);
    }
    out
}

} // verus!

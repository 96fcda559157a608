//! Unstacking decisions: which stack to split next, where to place the
//! half picked up, and how to read a split's outcome.
//!
//! A pickup by right click takes half the stack, rounded up; the loop
//! that drives the clicks lives outside the library and asks this module
//! what to do against each fresh inventory snapshot.

use vstd::prelude::*;

use crate::slots::ItemSlot;
use crate::slots::is_map_item;
use crate::slots::is_map_slot;

verus! {

/// First storage slot that may receive a placed half: below it sit the
/// crafting, armour and result slots, which must never be used.
pub const FIRST_STORAGE_SLOT: usize = 9;

/// One past the last storage slot: beyond it sits the offhand slot.
pub const STORAGE_SLOT_END: usize = 45;

/// Slot `i` holds a stacked traded item: more than one unit.
pub open spec fn stacked_map_at(slots: Seq<ItemSlot>, i: int) -> bool {
    0 <= i < slots.len() && is_map_slot(slots[i]) && slots[i].count > 1
}

/// Slot `i` is an empty storage slot: inside the storage range and free.
pub open spec fn empty_storage_at(slots: Seq<ItemSlot>, i: int) -> bool {
    FIRST_STORAGE_SLOT <= i < STORAGE_SLOT_END && i < slots.len() && !slots[i].present
}

/// Finds the first slot holding more than one unit of the traded item.
pub fn first_stacked_map(slots: &Vec<ItemSlot>) -> (r: Option<(usize, u32)>)
    ensures
        match r {
            Some(found) => stacked_map_at(slots@, found.0 as int) && found.1
                == slots@[found.0 as int].count && forall|j: int|
                0 <= j < found.0 ==> !stacked_map_at(slots@, j),
            None => forall|j: int| !stacked_map_at(slots@, j),
        },
{
    let n = slots.len();
    let mut i: usize = 0;
    while i < n
        invariant
            n == slots@.len(),
            0 <= i <= n,
            forall|j: int| 0 <= j < i ==> !stacked_map_at(slots@, j),
        decreases n - i,
    {
        let s = &slots[i];
        if is_map_item(s) && s.count > 1 {
            return Some((i, s.count));
        }
        proof {
            assert(!stacked_map_at(slots@, i as int));
        }
        i += 1;
    }
    None
}

/// Finds the first empty storage slot that may receive a placed half.
pub fn first_empty_storage_slot(slots: &Vec<ItemSlot>) -> (r: Option<usize>)
    ensures
        match r {
            Some(i) => empty_storage_at(slots@, i as int) && forall|j: int|
                0 <= j < i ==> !empty_storage_at(slots@, j),
            None => forall|j: int| !empty_storage_at(slots@, j),
        },
{
    let n = slots.len();
    let limit = if n < STORAGE_SLOT_END {
        n
    } else {
        STORAGE_SLOT_END
    };
    let mut i: usize = FIRST_STORAGE_SLOT;
    if limit <= FIRST_STORAGE_SLOT {
        return None;
    }
    while i < limit
        invariant
            n == slots@.len(),
            limit == (if n < STORAGE_SLOT_END {
                n as int
            } else {
                STORAGE_SLOT_END as int
            }),
            FIRST_STORAGE_SLOT <= i <= limit,
            forall|j: int| 0 <= j < i ==> !empty_storage_at(slots@, j),
        decreases limit - i,
    {
        if !slots[i].present {
            return Some(i);
        }
        proof {
            assert(!empty_storage_at(slots@, i as int));
        }
        i += 1;
    }
    None
}

/// What to do next while unstacking, read off one fresh snapshot.
#[derive(Clone, Copy, Debug, PartialEq, Eq)]
pub enum UnstackAction {
    /// Every traded-item stack holds a single unit: unstacking is done.
    AllSingles,
    /// Split the first stacked slot: right-click it to pick up half,
    /// then left-click the target slot to place the half.
    Split {
        /// The slot holding the stack to split.
        stack_slot: usize,
        /// How many units that stack holds now.
        stack_count: u32,
        /// The empty storage slot to place the half in.
        target_slot: usize,
    },
    /// A stack needs splitting but no storage slot is free: fatal to the
    /// current cycle.
    InventoryFull {
        /// The slot holding the stack that could not be split.
        stack_slot: usize,
    },
}

/// Decides the next unstacking step from a fresh inventory snapshot.
pub fn unstack_step(slots: &Vec<ItemSlot>) -> (r: UnstackAction)
    ensures
        match r {
            UnstackAction::AllSingles => forall|j: int| !stacked_map_at(slots@, j),
            UnstackAction::Split { stack_slot, stack_count, target_slot } => {
                &&& stacked_map_at(slots@, stack_slot as int)
                &&& stack_count == slots@[stack_slot as int].count
                &&& forall|j: int| 0 <= j < stack_slot ==> !stacked_map_at(slots@, j)
                &&& empty_storage_at(slots@, target_slot as int)
                &&& forall|j: int| 0 <= j < target_slot ==> !empty_storage_at(slots@, j)
            },
            UnstackAction::InventoryFull { stack_slot } => {
                &&& stacked_map_at(slots@, stack_slot as int)
                &&& forall|j: int| 0 <= j < stack_slot ==> !stacked_map_at(slots@, j)
                &&& forall|j: int| !empty_storage_at(slots@, j)
            },
        },
{
    match first_stacked_map(slots) {
        None => UnstackAction::AllSingles,
        Some(found) => match first_empty_storage_slot(slots) {
            Some(target) => UnstackAction::Split {
                stack_slot: found.0,
                stack_count: found.1,
                target_slot: target,
            },
            None => UnstackAction::InventoryFull { stack_slot: found.0 },
        },
    }
}

/// How a split attempt ended, read off the stack slot's fresh count.
#[derive(Clone, Copy, Debug, PartialEq, Eq)]
pub enum SplitOutcome {
    /// The count did not change: the server rejected the click; the
    /// split will be retried on the next pass.
    Unchanged,
    /// The count grew: an unexpected server-side change.
    Increased,
    /// The count shrank: the split took effect.
    Reduced,
}

/// Classifies a split attempt by comparing the stack slot's count
/// before and after.
pub fn classify_split(before: u32, after: u32) -> (r: SplitOutcome)
    ensures
        after == before ==> r == SplitOutcome::Unchanged,
        after > before ==> r == SplitOutcome::Increased,
        after < before ==> r == SplitOutcome::Reduced,
{
    if after == before {
        SplitOutcome::Unchanged
    } else if after > before {
        SplitOutcome::Increased
    } else {
        SplitOutcome::Reduced
    }
}

} // verus!

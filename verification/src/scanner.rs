//! The auction scanner: over a container's own slot range, find the
//! first listing priced strictly below the ceiling.
//!
//! Only the container's slots are scanned, never the personal-inventory
//! slots appended to the same view; the result is the lowest-index
//! qualifying slot, an early exit by design, not the globally cheapest.

use vstd::prelude::*;

use crate::lore::item_info_spec;
use crate::lore::parse_item_info;
use crate::slots::ItemSlot;

verus! {

/// The kinds of container view whose own slot range is known.
#[derive(Clone, Copy, Debug, PartialEq, Eq)]
pub enum MenuKind {
    /// A generic container of one row of nine.
    Generic9x1,
    /// A generic container of two rows of nine.
    Generic9x2,
    /// A generic container of three rows of nine.
    Generic9x3,
    /// A generic container of four rows of nine.
    Generic9x4,
    /// A generic container of five rows of nine.
    Generic9x5,
    /// A generic container of six rows of nine.
    Generic9x6,
    /// Any other view: its slot range is unknown and it is not scanned.
    Other,
}

/// How many slots of the view belong to the container itself.
pub open spec fn container_capacity(k: MenuKind) -> Option<usize> {
    match k {
        MenuKind::Generic9x1 => Some(9usize),
        MenuKind::Generic9x2 => Some(18usize),
        MenuKind::Generic9x3 => Some(27usize),
        MenuKind::Generic9x4 => Some(36usize),
        MenuKind::Generic9x5 => Some(45usize),
        MenuKind::Generic9x6 => Some(54usize),
        MenuKind::Other => None,
    }
}

/// The number of slots a container view owns, when the kind is known.
pub fn container_slot_count(kind: &MenuKind) -> (r: Option<usize>)
    ensures
        r == container_capacity(*kind),
{
    match kind {
        MenuKind::Generic9x1 => Some(9),
        MenuKind::Generic9x2 => Some(18),
        MenuKind::Generic9x3 => Some(27),
        MenuKind::Generic9x4 => Some(36),
        MenuKind::Generic9x5 => Some(45),
        MenuKind::Generic9x6 => Some(54),
        MenuKind::Other => None,
    }
}

/// A qualifying listing found by the scanner.
pub struct MapSlot {
    /// The slot index inside the container's own range.
    pub slot: usize,
    /// The parsed asking price.
    pub price: u32,
    /// The parsed seller name.
    pub seller: String,
}

/// Slot `i` qualifies: it lies in the container's own range, holds an
/// item with lore, and the lore parses to a price strictly below the
/// ceiling.
pub open spec fn qualifying(slots: Seq<ItemSlot>, csize: int, ceiling: u32, i: int) -> bool {
    &&& 0 <= i < csize
    &&& i < slots.len()
    &&& slots[i].present
    &&& slots[i].lore@.len() > 0
    &&& match item_info_spec(slots[i].lore.deep_view()) {
        Some(info) => info.0 < ceiling,
        None => false,
    }
}

/// Scans the container's own slot range for the first listing priced
/// strictly below `max_price`.
///
/// Empty slots and slots whose lore does not parse are skipped. The
/// first qualifying slot wins even when a later one is cheaper.
pub fn find_cheap_maps(slots: &Vec<ItemSlot>, container_size: usize, max_price: u32) -> (r: Option<
    MapSlot,
>)
    ensures
        match r {
            Some(m) => {
                &&& qualifying(slots@, container_size as int, max_price, m.slot as int)
                &&& item_info_spec(slots@[m.slot as int].lore.deep_view()) == Some(
                    (m.price, m.seller@),
                )
                &&& forall|j: int|
                    0 <= j < m.slot ==> !qualifying(slots@, container_size as int, max_price, j)
            },
            None => forall|j: int| !qualifying(slots@, container_size as int, max_price, j),
        },
{
    let n = slots.len();
    let limit = if container_size < n {
        container_size
    } else {
        n
    };
    let mut i: usize = 0;
    while i < limit
        invariant
            n == slots@.len(),
            limit == (if container_size < n {
                container_size as int
            } else {
                n as int
            }),
            0 <= i <= limit,
            forall|j: int| 0 <= j < i ==> !qualifying(slots@, container_size as int, max_price, j),
        decreases limit - i,
    {
        let s = &slots[i];
        if s.present && s.lore.len() > 0 {
            let lore_slice = s.lore.as_slice();
            proof {
                assert(lore_slice.deep_view() =~= s.lore.deep_view());
            }
            match parse_item_info(lore_slice) {
                Some(info) => {
                    if info.0 < max_price {
                        return Some(MapSlot { slot: i, price: info.0, seller: info.1 });
                    }
                },
                None => {},
            }
        }
        proof {
            assert(!qualifying(slots@, container_size as int, max_price, i as int));
        }
        i += 1;
    }
    proof {
        assert(forall|j: int|
            j >= limit ==> !qualifying(slots@, container_size as int, max_price, j));
    }
    None
}

} // verus!

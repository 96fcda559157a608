//! The listing flow's computations: the discounted stack price, the text
//! carried by the listing command, the per-cycle plan that respects the
//! listing cap, and the verdict read back from the anchor slot after a
//! listing attempt.

use vstd::prelude::*;

use crate::price::format_price;
use crate::price::format_price_spec;
use crate::price::parse_price;
use crate::price::parse_price_spec;
use crate::slots::ItemSlot;
use crate::slots::is_map_item;
use crate::slots::is_map_slot;

verus! {

/// The hotbar slot a stack is moved to before the listing command is
/// issued.
pub const HOTBAR_ANCHOR_SLOT: usize = 36;

/// The listing price of a stack: the unit price unchanged for a single
/// unit, else half of unit price times count, truncated.
pub open spec fn listing_price_spec(unit: u32, count: u32) -> int {
    if count == 1 {
        unit as int
    } else {
        (unit * count) as int / 2
    }
}

/// Computes the listing price of a stack.
pub fn listing_price(unit: u32, count: u32) -> (r: u32)
    requires
        unit * count <= u32::MAX,
    ensures
        r == listing_price_spec(unit, count),
{
    if count == 1 {
        unit
    } else {
        (unit * count) / 2
    }
}

/// One stack to re-list: where it sits, how many units it has, and the
/// prices attached to it.
pub struct ListingJob {
    /// The inventory slot the stack sits in.
    pub source_slot: usize,
    /// How many units the stack has.
    pub stack_count: u32,
    /// The per-unit price.
    pub unit_price: u32,
    /// The computed price of the whole listing.
    pub listing_price: u32,
}

/// Builds the listing job for one stack.
pub fn make_listing_job(source_slot: usize, stack_count: u32, unit_price: u32) -> (r: ListingJob)
    requires
        unit_price * stack_count <= u32::MAX,
    ensures
        r.source_slot == source_slot,
        r.stack_count == stack_count,
        r.unit_price == unit_price,
        r.listing_price == listing_price_spec(unit_price, stack_count),
{
    let price = listing_price(unit_price, stack_count);
    ListingJob { source_slot, stack_count, unit_price, listing_price: price }
}

/// The price text carried by the listing command: for a single unit the
/// configured sell-price text unchanged, else the rendered stack price.
pub fn listing_price_text(sell_price_text: &str, unit: u32, count: u32) -> (r: String)
    requires
        unit * count <= u32::MAX,
    ensures
        count == 1 ==> r@ == sell_price_text@,
        count != 1 ==> r@ == format_price_spec(((unit * count) / 2) as u32),
{
    if count == 1 {
        String::from_str(sell_price_text)
    } else {
        format_price((unit * count) / 2)
    }
}

/// Parses the configured sell-price text, which is written without the
/// currency sign, by prepending the sign and reading it as a price.
pub fn parse_sell_price(text: &str) -> (r: Option<u32>)
    ensures
        r == parse_price_spec("$"@ + text@),
{
    let s = String::from_str("$");
    let with_sign = s.concat(text);
    parse_price(with_sign.as_str())
}

/// The candidate slots attempted this cycle: the first ones, at most the
/// configured cap; the rest are deferred to the next cycle, not
/// discarded.
pub fn listing_plan(candidates: &Vec<usize>, max_listings: u32) -> (r: Vec<usize>)
    ensures
        r@ == candidates@.take(
            if candidates@.len() <= max_listings {
                candidates@.len() as int
            } else {
                max_listings as int
            },
        ),
        r@.len() <= max_listings,
{
    let n = candidates.len();
    let limit: usize = if (n as u64) <= (max_listings as u64) {
        n
    } else {
        max_listings as usize
    };
    let mut out: Vec<usize> = Vec::new();
    let mut i: usize = 0;
    while i < limit
        invariant
            n == candidates@.len(),
            limit == (if n <= max_listings {
                n as int
            } else {
                max_listings as int
            }),
            0 <= i <= limit,
            out@ == candidates@.take(i as int),
        decreases limit - i,
    {
        out.push(candidates[i]);
        proof {
            assert(candidates@.take(i + 1) =~= candidates@.take(i as int).push(
                candidates@[i as int],
            ));
        }
        i += 1;
    }
    out
}

/// What re-reading the anchor slot after a listing attempt showed.
#[derive(Clone, Copy, Debug, PartialEq, Eq)]
pub enum ListingVerdict {
    /// The slot is empty: the stack was listed.
    Emptied,
    /// The slot still holds the traded item with fewer units: a partial
    /// listing, counted as success and logged as an anomaly.
    Partial {
        /// How many units remain in the slot.
        remaining: u32,
    },
    /// The slot holds the traded item with no fewer units: the listing
    /// failed; the slot is skipped until the next cycle.
    Unchanged,
    /// The slot holds a different item: the stack was consumed.
    OtherItem,
}

/// The verdict the anchor slot yields for a stack that had
/// `before_count` units.
pub open spec fn listing_verdict_spec(before_count: u32, s: ItemSlot) -> ListingVerdict {
    if !s.present {
        ListingVerdict::Emptied
    } else if is_map_slot(s) {
        if s.count < before_count {
            ListingVerdict::Partial { remaining: s.count }
        } else {
            ListingVerdict::Unchanged
        }
    } else {
        ListingVerdict::OtherItem
    }
}

/// A verdict that counts as a successful listing.
pub open spec fn verdict_success(v: ListingVerdict) -> bool {
    match v {
        ListingVerdict::Emptied => true,
        ListingVerdict::Partial { .. } => true,
        ListingVerdict::OtherItem => true,
        ListingVerdict::Unchanged => false,
    }
}

/// Classifies the anchor slot after a listing attempt: empty or a
/// different item is success, the same item with fewer units is a
/// partial success, anything else a failure.
pub fn classify_listing(before_count: u32, slot: &ItemSlot) -> (r: ListingVerdict)
    ensures
        r == listing_verdict_spec(before_count, *slot),
{
    if !slot.present {
        ListingVerdict::Emptied
    } else if is_map_item(slot) {
        if slot.count < before_count {
            ListingVerdict::Partial { remaining: slot.count }
        } else {
            ListingVerdict::Unchanged
        }
    } else {
        ListingVerdict::OtherItem
    }
}

/// Decides whether a verdict counts as success for bookkeeping.
pub fn listing_succeeded(v: &ListingVerdict) -> (b: bool)
    ensures
        b == verdict_success(*v),
{
    match v {
        ListingVerdict::Emptied => true,
        ListingVerdict::Partial { .. } => true,
        ListingVerdict::OtherItem => true,
        ListingVerdict::Unchanged => false,
    }
}

/// The map stacks of a slot view, as slot-index and count pairs in slot
/// order.
pub open spec fn map_stacks(slots: Seq<ItemSlot>) -> Seq<(usize, u32)>
    decreases slots.len(),
{
    if slots.len() == 0 {
        Seq::empty()
    } else {
        let pre = map_stacks(slots.drop_last());
        if is_map_slot(slots.last()) {
            pre.push((((slots.len() - 1) as usize), slots.last().count))
        } else {
            pre
        }
    }
}

/// Collects every slot holding the traded item together with its stack
/// count, in slot order.
pub fn collect_map_stacks(slots: &Vec<ItemSlot>) -> (r: Vec<(usize, u32)>)
    ensures
        r@ == map_stacks(slots@),
{
    let n = slots.len();
    let mut out: Vec<(usize, u32)> = Vec::new();
    let mut i: usize = 0;
    proof {
        assert(slots@.take(0) =~= Seq::<ItemSlot>::empty());
    }
    while i < n
        invariant
            n == slots@.len(),
            0 <= i <= n,
            out@ == map_stacks(slots@.take(i as int)),
        decreases n - i,
    {
        proof {
            assert(slots@.take(i + 1).drop_last() =~= slots@.take(i as int));
            assert(slots@.take(i + 1).last() == slots@[i as int]);
        }
        let s = &slots[i];
        if is_map_item(s) {
            out.push((i, s.count));
        }
        i += 1;
    }
    proof {
        assert(slots@.take(n as int) =~= slots@);
    }
    out
}

/// Decides whether a stack must be relocated to the anchor slot before
/// the listing command is issued.
pub fn needs_relocation(source_slot: usize) -> (b: bool)
    ensures
        b == (source_slot != HOTBAR_ANCHOR_SLOT),
{
    source_slot != HOTBAR_ANCHOR_SLOT
}

} // verus!

//! Lore parsing: the machine-readable price and seller metadata embedded
//! in an item's tooltip text lines.
//!
//! The price and seller labels are looked for independently and in any
//! order. The price is required for a result; the seller defaults to
//! "unknown" when its label is absent or its line cannot be split on the
//! label.

use vstd::prelude::*;

use crate::price::parse_price;
use crate::price::parse_price_spec;
use crate::price::strip_colors;
use crate::price::strip_minecraft_colors;
use crate::text::contains_seq;
use crate::text::contains_sub;
use crate::text::matches_at;
use crate::text::strip_prefix_sub;
use crate::text::trim_spec;
use crate::text::trim_str;

verus! {

/// The price a lore line names: present when the line carries the price
/// label and its text parses as a price.
pub open spec fn line_price(l: Seq<char>) -> Option<u32> {
    if contains_seq(l, "Price:"@) {
        parse_price_spec(l)
    } else {
        None
    }
}

/// The price of the last lore line that names one.
pub open spec fn last_price(lore: Seq<Seq<char>>) -> Option<u32>
    decreases lore.len(),
{
    if lore.len() == 0 {
        None
    } else if line_price(lore.last()) is Some {
        line_price(lore.last())
    } else {
        last_price(lore.drop_last())
    }
}

/// The seller a lore line names: present when the line carries the
/// seller label and, with colour formatting stripped, starts with it;
/// the name is what follows the label, trimmed.
pub open spec fn line_seller(l: Seq<char>) -> Option<Seq<char>> {
    if contains_seq(l, "Seller:"@) && matches_at(strip_colors(l), 0, "Seller:"@) {
        Some(trim_spec(strip_colors(l).skip("Seller:"@.len() as int)))
    } else {
        None
    }
}

/// The seller of the last lore line that names one.
pub open spec fn last_seller(lore: Seq<Seq<char>>) -> Option<Seq<char>>
    decreases lore.len(),
{
    if lore.len() == 0 {
        None
    } else if line_seller(lore.last()) is Some {
        line_seller(lore.last())
    } else {
        last_seller(lore.drop_last())
    }
}

/// What `parse_item_info` returns: the amount of the last price named in
/// the lore, paired with the last seller named, or "unknown" when none
/// is; no price, no result.
pub open spec fn item_info_spec(lore: Seq<Seq<char>>) -> Option<(u32, Seq<char>)> {
    match last_price(lore) {
        None => None,
        Some(p) => Some(
            (
                p,
                match last_seller(lore) {
                    Some(s) => s,
                    None => "unknown"@,
                },
            ),
        ),
    }
}

/// Lore with no line carrying the price label yields no quote, whatever
/// other labels its lines carry.
pub proof fn lemma_no_price_label_no_info(lore: Seq<Seq<char>>)
    requires
        forall|i: int| 0 <= i < lore.len() ==> !(#[trigger] contains_seq(lore[i], "Price:"@)),
    ensures
        last_price(lore) is None,
        item_info_spec(lore) is None,
    decreases lore.len(),
{
    if lore.len() > 0 {
        assert(!contains_seq(lore[lore.len() - 1], "Price:"@));
        assert(line_price(lore.last()) is None);
        assert forall|i: int| 0 <= i < lore.drop_last().len() implies !(#[trigger] contains_seq(
            lore.drop_last()[i],
            "Price:"@,
        )) by {
            assert(lore.drop_last()[i] == lore[i]);
        }
        lemma_no_price_label_no_info(lore.drop_last());
    }
}

/// Parses price and seller from item lore lines.
pub fn parse_item_info(lore: &[String]) -> (r: Option<(u32, String)>)
    ensures
        match r {
            Some(info) => item_info_spec(lore.deep_view()) == Some((info.0, info.1@)),
            None => item_info_spec(lore.deep_view()) is None,
        },
{
    let ghost lv = lore.deep_view();
    let n = lore.len();
    let mut price: Option<u32> = None;
    let mut seller: String = String::from_str("unknown");
    let mut have_seller = false;
    let mut i: usize = 0;
    proof {
        assert(lv.take(0) =~= Seq::<Seq<char>>::empty());
    }
    while i < n
        invariant
            n == lore@.len(),
            lv == lore.deep_view(),
            0 <= i <= n,
            price == last_price(lv.take(i as int)),
            have_seller ==> last_seller(lv.take(i as int)) == Some(seller@),
            !have_seller ==> last_seller(lv.take(i as int)) is None && seller@ == "unknown"@,
        decreases n - i,
    {
        let line: &String = vstd::slice::slice_index_get(lore, i);
        proof {
            assert(lv[i as int] == lore@[i as int]@);
        }
        if contains_sub(line.as_str(), "Price:") {
            match parse_price(line.as_str()) {
                Some(p) => {
                    price = Some(p);
                },
                None => {},
            }
        }
        if contains_sub(line.as_str(), "Seller:") {
            let clean = strip_minecraft_colors(line.as_str());
            match strip_prefix_sub(clean.as_str(), "Seller:") {
                Some(rest) => {
                    let t = trim_str(rest);
                    seller = String::from_str(t);
                    have_seller = true;
                },
                None => {},
            }
        }
        proof {
            assert(lv.take(i + 1).drop_last() =~= lv.take(i as int));
            assert(lv.take(i + 1).last() == lv[i as int]);
        }
        i += 1;
    }
    proof {
        assert(lv.take(n as int) =~= lv);
    }
    match price {
        Some(p) => Some((p, seller)),
        None => None,
    }
}

} // verus!

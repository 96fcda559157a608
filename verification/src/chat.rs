//! Chat-text reading: folding the decorative small-capital letters the
//! server uses back to ASCII, detecting the idle-teleport notice, and
//! reading a sale announcement.

use vstd::prelude::*;

use crate::price::amount_run_end;
use crate::price::is_amount_char;
use crate::price::parse_price;
use crate::price::parse_price_spec;
use crate::text::contains_seq;
use crate::text::contains_sub;
use crate::text::is_space_char;
use crate::text::lower_char;
use crate::text::matches_at;
use crate::text::push_char;
use crate::text::to_lower_char;

verus! {

/// A decorative small-capital letter mapped to its ASCII letter;
/// anything else unchanged.
pub open spec fn small_cap_to_ascii(c: char) -> char {
    if c == '\u{1d00}' {
        'a'
    } else if c == '\u{299}' {
        'b'
    } else if c == '\u{1d04}' {
        'c'
    } else if c == '\u{1d05}' {
        'd'
    } else if c == '\u{1d07}' {
        'e'
    } else if c == '\u{a730}' {
        'f'
    } else if c == '\u{262}' {
        'g'
    } else if c == '\u{29c}' {
        'h'
    } else if c == '\u{26a}' {
        'i'
    } else if c == '\u{1d0a}' {
        'j'
    } else if c == '\u{1d0b}' {
        'k'
    } else if c == '\u{29f}' {
        'l'
    } else if c == '\u{1d0d}' {
        'm'
    } else if c == '\u{274}' {
        'n'
    } else if c == '\u{1d0f}' {
        'o'
    } else if c == '\u{1d18}' {
        'p'
    } else if c == '\u{280}' {
        'r'
    } else if c == '\u{a731}' {
        's'
    } else if c == '\u{1d1b}' {
        't'
    } else if c == '\u{1d1c}' {
        'u'
    } else if c == '\u{1d20}' {
        'v'
    } else if c == '\u{1d21}' {
        'w'
    } else if c == '\u{28f}' {
        'y'
    } else if c == '\u{1d22}' {
        'z'
    } else {
        c
    }
}

/// Chat text folded for matching: small capitals mapped to ASCII, then
/// ASCII letters lower-cased.
pub open spec fn normalize_spec(s: Seq<char>) -> Seq<char> {
    s.map_values(|c: char| lower_char(small_cap_to_ascii(c)))
}

/// Maps one decorative small-capital letter to its ASCII letter.
fn small_cap_char(c: char) -> (r: char)
    ensures
        r == small_cap_to_ascii(c),
{
    match c {
        '\u{1d00}' => 'a',
        '\u{299}' => 'b',
        '\u{1d04}' => 'c',
        '\u{1d05}' => 'd',
        '\u{1d07}' => 'e',
        '\u{a730}' => 'f',
        '\u{262}' => 'g',
        '\u{29c}' => 'h',
        '\u{26a}' => 'i',
        '\u{1d0a}' => 'j',
        '\u{1d0b}' => 'k',
        '\u{29f}' => 'l',
        '\u{1d0d}' => 'm',
        '\u{274}' => 'n',
        '\u{1d0f}' => 'o',
        '\u{1d18}' => 'p',
        '\u{280}' => 'r',
        '\u{a731}' => 's',
        '\u{1d1b}' => 't',
        '\u{1d1c}' => 'u',
        '\u{1d20}' => 'v',
        '\u{1d21}' => 'w',
        '\u{28f}' => 'y',
        '\u{1d22}' => 'z',
        _ => c,
    }
}

/// Folds chat text for matching: small capitals to ASCII, ASCII letters
/// to lower case.
pub fn normalize_text(text: &str) -> (r: String)
    ensures
        r@ == normalize_spec(text@),
{
    let n = text.unicode_len();
    let mut out = String::new();
    let mut i: usize = 0;
    while i < n
        invariant
            n == text@.len(),
            0 <= i <= n,
            out@ == normalize_spec(text@.take(i as int)),
        decreases n - i,
    {
        let c = to_lower_char(small_cap_char(text.get_char(i)));
        push_char(&mut out, c);
        proof {
            assert(normalize_spec(text@.take(i + 1)) =~= normalize_spec(text@.take(i as int)).push(
                lower_char(small_cap_to_ascii(text@[i as int])),
            ));
        }
        i += 1;
    }
    proof {
        assert(text@.take(n as int) =~= text@);
    }
    out
}

/// The folded text announces an idle-teleport.
pub open spec fn afk_teleport_spec(s: Seq<char>) -> bool {
    contains_seq(normalize_spec(s), "teleported to"@) && contains_seq(normalize_spec(s), "afk"@)
}

/// Detects the idle-teleport notice in a chat message.
pub fn is_afk_teleport(msg: &str) -> (b: bool)
    ensures
        b == afk_teleport_spec(msg@),
{
    let norm = normalize_text(msg);
    if contains_sub(norm.as_str(), "teleported to") {
        contains_sub(norm.as_str(), "afk")
    } else {
        false
    }
}

/// The label a sale announcement carries, up to its currency sign.
pub open spec fn sale_label() -> Seq<char> {
    "bought your Map for $"@
}

/// Start of the run of white space that ends at `k`.
pub open spec fn ws_run_start(s: Seq<char>, k: int) -> int
    recommends
        0 <= k <= s.len(),
    decreases k,
{
    if k > 0 && is_space_char(s[k - 1]) {
        ws_run_start(s, k - 1)
    } else {
        k
    }
}

/// A sale announcement matches at `k`: the label stands there, white
/// space and a non-empty buyer name stand before it, and at least one
/// amount character follows its currency sign.
pub open spec fn sale_match_at(s: Seq<char>, k: int) -> bool {
    &&& matches_at(s, k, sale_label())
    &&& k >= 2
    &&& is_space_char(s[k - 1])
    &&& k + sale_label().len() < s.len()
    &&& is_amount_char(s[k + sale_label().len()])
}

/// Position of the first sale match at or after `k`.
pub open spec fn first_sale_from(s: Seq<char>, k: int) -> Option<int>
    recommends
        0 <= k,
    decreases s.len() - k + 1,
{
    if k > s.len() {
        None
    } else if sale_match_at(s, k) {
        Some(k)
    } else {
        first_sale_from(s, k + 1)
    }
}

/// `first_sale_from` names the first match at or after `k`, when one
/// exists.
proof fn lemma_first_sale(s: Seq<char>, k: int)
    requires
        0 <= k,
    ensures
        match first_sale_from(s, k) {
            Some(i) => k <= i && sale_match_at(s, i) && forall|j: int|
                k <= j < i ==> !sale_match_at(s, j),
            None => forall|j: int| j >= k ==> !sale_match_at(s, j),
        },
    decreases s.len() - k + 1,
{
    if k > s.len() {
    } else if sale_match_at(s, k) {
    } else {
        lemma_first_sale(s, k + 1);
    }
}

/// The buyer name of a sale match at `k`: everything before the run of
/// white space that precedes the label, but never empty.
pub open spec fn buyer_of(s: Seq<char>, k: int) -> Seq<char> {
    let j0 = ws_run_start(s, k);
    let be = if j0 < 1 {
        1int
    } else {
        j0
    };
    s.take(be)
}

/// What `parse_sale_message` returns for a message: at the first sale
/// match, the buyer name and the announced amount, read by prefixing a
/// price label to the amount text (with its optional upper-case
/// multiplier letter) and parsing it as a price.
pub open spec fn sale_spec(s: Seq<char>) -> Option<(Seq<char>, u32)> {
    match first_sale_from(s, 0) {
        None => None,
        Some(k) => {
            let pe = k + sale_label().len() as int;
            let re = amount_run_end(s, pe);
            let amt = s.subrange(pe, re);
            let suffix: Seq<char> = if re < s.len() && s[re] == 'K' {
                seq!['K']
            } else {
                Seq::empty()
            };
            match parse_price_spec("Price: $"@ + amt + suffix) {
                None => None,
                Some(p) => Some((buyer_of(s, k), p)),
            }
        },
    }
}

/// Reads a sale announcement: the buyer and the amount paid.
pub fn parse_sale_message(msg: &str) -> (r: Option<(String, u32)>)
    ensures
        match r {
            Some(info) => sale_spec(msg@) == Some((info.0@, info.1)),
            None => sale_spec(msg@) is None,
        },
{
    let n = msg.unicode_len();
    let label = "bought your Map for $";
    let m = label.unicode_len();
    proof {
        lemma_first_sale(msg@, 0);
    }
    if m >= n {
        proof {
            assert(forall|j: int| j >= 0 ==> !sale_match_at(msg@, j));
            assert(first_sale_from(msg@, 0) is None);
        }
        return None;
    }
    let mut k: usize = 0;
    let mut found = false;
    proof {
        assert(label@ == sale_label());
    }
    while !found && k < n - m
        invariant
            n == msg@.len(),
            label@ == sale_label(),
            m == label@.len(),
            m == sale_label().len(),
            m < n,
            0 <= k,
            !found ==> k <= n - m,
            found ==> sale_match_at(msg@, k as int),
            forall|j: int| 0 <= j < k ==> !sale_match_at(msg@, j),
        decreases n - k, (if found { 0int } else { 1int }),
    {
        let sp = k >= 2 && is_space_pub(msg, k - 1);
        let ok = sp && is_amount_char_at(msg, k + m) && crate::text::match_at_idx(msg, label, k);
        if ok {
            found = true;
        } else {
            proof {
                assert(!sale_match_at(msg@, k as int));
            }
            k += 1;
        }
    }
    if !found {
        proof {
            assert(forall|j: int| j >= k ==> !sale_match_at(msg@, j));
            assert(first_sale_from(msg@, 0) is None);
        }
        return None;
    }
    proof {
        match first_sale_from(msg@, 0) {
            Some(i2) => {
                if i2 < k {
                    assert(!sale_match_at(msg@, i2));
                    assert(false);
                }
                if i2 > k {
                    assert(!sale_match_at(msg@, k as int));
                    assert(false);
                }
            },
            None => {
                assert(!sale_match_at(msg@, k as int));
                assert(false);
            },
        }
        assert(first_sale_from(msg@, 0) == Some(k as int));
    }
    // start of the white-space run before the label
    let mut j = k;
    while j > 0 && is_space_pub(msg, j - 1)
        invariant
            n == msg@.len(),
            0 <= j <= k,
            k < n,
            ws_run_start(msg@, k as int) == ws_run_start(msg@, j as int),
        decreases j,
    {
        j -= 1;
    }
    proof {
        assert(ws_run_start(msg@, j as int) == j);
    }
    let be: usize = if j < 1 {
        1
    } else {
        j
    };
    let buyer = msg.substring_char(0, be);
    proof {
        assert(buyer@ =~= buyer_of(msg@, k as int));
    }
    // the run of amount characters after the currency sign
    let pe = k + m;
    let mut re = pe;
    while re < n && is_amount_char_at(msg, re)
        invariant
            n == msg@.len(),
            pe <= re <= n,
            amount_run_end(msg@, pe as int) == amount_run_end(msg@, re as int),
        decreases n - re,
    {
        re += 1;
    }
    proof {
        assert(amount_run_end(msg@, re as int) == re);
    }
    let amt = msg.substring_char(pe, re);
    let mut price_text = String::from_str("Price: $");
    price_text.append(amt);
    let mut has_k = false;
    if re < n {
        if msg.get_char(re) == 'K' {
            push_char(&mut price_text, 'K');
            has_k = true;
        }
    }
    proof {
        let amtv = msg@.subrange(pe as int, re as int);
        if has_k {
            assert(price_text@ =~= "Price: $"@ + amtv + seq!['K']);
        } else {
            assert(price_text@ =~= "Price: $"@ + amtv + Seq::<char>::empty());
        }
    }
    match parse_price(price_text.as_str()) {
        Some(p) => Some((String::from_str(buyer), p)),
        None => None,
    }
}

/// Decides whether the character at `i` is white space.
fn is_space_pub(s: &str, i: usize) -> (b: bool)
    requires
        i < s@.len(),
    ensures
        b == is_space_char(s@[i as int]),
{
    let c = s.get_char(i);
    let u = c as u32;
    u == 0x20 || u == 0x9 || u == 0xa || u == 0xd || u == 0xb || u == 0xc || u == 0x85
        || u == 0xa0 || u == 0x1680 || (0x2000 <= u && u <= 0x200a) || u == 0x2028 || u == 0x2029
        || u == 0x202f || u == 0x205f || u == 0x3000
}

/// Decides whether the character at `i` may appear in amount text.
fn is_amount_char_at(s: &str, i: usize) -> (b: bool)
    requires
        i < s@.len(),
    ensures
        b == is_amount_char(s@[i as int]),
{
    let c = s.get_char(i);
    let u = c as u32;
    (48 <= u && u <= 57) || u == 44 || u == 46
}

} // verus!

//! Price text: stripping the game's colour-formatting control sequences,
//! parsing an amount with optional thousands separators and an optional
//! multiplier suffix meaning a thousandfold, and rendering an amount back
//! into the short form used by listing commands.

use vstd::prelude::*;

use crate::text::digit_val;
use crate::text::is_digit_char;
use crate::text::push_char;

verus! {

/// The colour-formatting marker character.
pub open spec fn is_color_mark(c: char) -> bool {
    c == '\u{a7}'
}

/// A formatting code that may follow the marker: a hex digit or a
/// format letter.
pub open spec fn is_color_code(c: char) -> bool {
    ||| ('0' <= c && c <= '9')
    ||| ('a' <= c && c <= 'f')
    ||| ('k' <= c && c <= 'o')
    ||| c == 'r'
}

/// `s` with every marker-plus-code pair removed, scanning left to right.
pub open spec fn strip_colors(s: Seq<char>) -> Seq<char>
    decreases s.len(),
{
    if s.len() == 0 {
        Seq::empty()
    } else if is_color_mark(s[0]) && s.len() >= 2 && is_color_code(s[1]) {
        strip_colors(s.skip(2))
    } else {
        seq![s[0]] + strip_colors(s.skip(1))
    }
}

/// A character that may appear in the amount text: a digit, a thousands
/// separator, or a decimal point.
pub open spec fn is_amount_char(c: char) -> bool {
    is_digit_char(c) || c == ',' || c == '.'
}

/// A currency sign starts a price at `i`: it is immediately followed by
/// at least one amount character.
pub open spec fn price_start_at(s: Seq<char>, i: int) -> bool {
    0 <= i && i + 1 < s.len() && s[i] == '$' && is_amount_char(s[i + 1])
}

/// Position of the first price start in `s`, if any.
pub open spec fn price_start(s: Seq<char>) -> Option<int>
    decreases s.len(),
{
    if s.len() < 2 {
        None
    } else if s[0] == '$' && is_amount_char(s[1]) {
        Some(0)
    } else {
        match price_start(s.skip(1)) {
            Some(i) => Some(i + 1),
            None => None,
        }
    }
}

/// End of the run of amount characters that begins at `j`.
pub open spec fn amount_run_end(s: Seq<char>, j: int) -> int
    recommends
        0 <= j <= s.len(),
    decreases s.len() - j,
{
    if j < s.len() && is_amount_char(s[j]) {
        amount_run_end(s, j + 1)
    } else {
        j
    }
}

/// Number of decimal points in the amount digits.
pub open spec fn count_dots(s: Seq<char>) -> int
    decreases s.len(),
{
    if s.len() == 0 {
        0
    } else {
        count_dots(s.drop_last()) + if s.last() == '.' { 1int } else { 0int }
    }
}

/// The amount digits form a number: at most one decimal point and at
/// least one digit.
pub open spec fn valid_number(s: Seq<char>) -> bool {
    count_dots(s) <= 1 && s.len() - count_dots(s) >= 1
}

/// Value of the digits before the first decimal point.
pub open spec fn int_val(s: Seq<char>) -> int
    decreases s.len(),
{
    if s.len() == 0 {
        0
    } else if is_digit_char(s.last()) && count_dots(s.drop_last()) == 0 {
        int_val(s.drop_last()) * 10 + digit_val(s.last())
    } else {
        int_val(s.drop_last())
    }
}

/// Number of characters after the first decimal point.
pub open spec fn frac_len(s: Seq<char>) -> int
    decreases s.len(),
{
    if s.len() == 0 {
        0
    } else if count_dots(s.drop_last()) >= 1 {
        frac_len(s.drop_last()) + 1
    } else {
        0
    }
}

/// Value of the first three digits after the decimal point.
pub open spec fn frac3_val(s: Seq<char>) -> int
    decreases s.len(),
{
    if s.len() == 0 {
        0
    } else if is_digit_char(s.last()) && count_dots(s.drop_last()) >= 1 && frac_len(s.drop_last())
        < 3 {
        frac3_val(s.drop_last()) * 10 + digit_val(s.last())
    } else {
        frac3_val(s.drop_last())
    }
}

/// The fractional part in thousandths: the first three fractional digits,
/// padded with zeros when fewer are present.
pub open spec fn frac_milli(s: Seq<char>) -> int {
    if frac_len(s) >= 3 {
        frac3_val(s)
    } else if frac_len(s) == 2 {
        frac3_val(s) * 10
    } else if frac_len(s) == 1 {
        frac3_val(s) * 100
    } else {
        frac3_val(s) * 1000
    }
}

/// The amount multiplied by a thousand, truncated toward zero.
pub open spec fn amount_milli(s: Seq<char>) -> int {
    int_val(s) * 1000 + frac_milli(s)
}

/// Clamps a mathematical amount into the currency type.
pub open spec fn clamp_u32(v: int) -> u32 {
    if v > u32::MAX {
        u32::MAX
    } else {
        v as u32
    }
}

/// The amount denoted by the price whose sign stands at `start` in the
/// colour-stripped text: the run of amount characters after the sign,
/// separators removed, scaled by a thousand when the multiplier suffix
/// follows the run.
pub open spec fn price_amount(clean: Seq<char>, start: int) -> Option<u32> {
    let end = amount_run_end(clean, start + 1);
    let digits = clean.subrange(start + 1, end).filter(|c: char| c != ',');
    if !valid_number(digits) {
        None
    } else {
        let has_k = end < clean.len() && (clean[end] == 'K' || clean[end] == 'k');
        if has_k {
            Some(clamp_u32(amount_milli(digits)))
        } else {
            Some(clamp_u32(int_val(digits)))
        }
    }
}

/// What `parse_price` returns: the amount of the first price in the
/// colour-stripped text, or nothing when no price occurs or its amount
/// text is not a number.
pub open spec fn parse_price_spec(s: Seq<char>) -> Option<u32> {
    let clean = strip_colors(s);
    match price_start(clean) {
        None => None,
        Some(i) => price_amount(clean, i),
    }
}

/// Decides whether `c` is the colour-formatting marker.
fn is_color_mark_c(c: char) -> (b: bool)
    ensures
        b == is_color_mark(c),
{
    c == '\u{a7}'
}

/// Decides whether `c` is a formatting code.
fn is_color_code_c(c: char) -> (b: bool)
    ensures
        b == is_color_code(c),
{
    let u = c as u32;
    (48 <= u && u <= 57) || (97 <= u && u <= 102) || (107 <= u && u <= 111) || u == 114
}

/// Decides whether `c` may appear in amount text.
fn is_amount_c(c: char) -> (b: bool)
    ensures
        b == is_amount_char(c),
{
    let u = c as u32;
    (48 <= u && u <= 57) || u == 44 || u == 46
}

/// Strips the game's colour-formatting control sequences from text.
pub fn strip_minecraft_colors(text: &str) -> (r: String)
    ensures
        r@ == strip_colors(text@),
{
    let n = text.unicode_len();
    let mut out = String::new();
    let mut i: usize = 0;
    proof {
        assert(text@.skip(0) =~= text@);
        assert(out@ + strip_colors(text@) =~= strip_colors(text@));
    }
    while i < n
        invariant
            n == text@.len(),
            0 <= i <= n,
            strip_colors(text@) == out@ + strip_colors(text@.skip(i as int)),
        decreases n - i,
    {
        let c = text.get_char(i);
        let ghost rest = text@.skip(i as int);
        proof {
            assert(rest.len() == n - i);
            assert(rest[0] == text@[i as int]);
        }
        if is_color_mark_c(c) && i + 1 < n && is_color_code_c(text.get_char(i + 1)) {
            proof {
                assert(rest[1] == text@[i + 1]);
                assert(rest.skip(2) =~= text@.skip(i + 2));
                assert(strip_colors(rest) == strip_colors(text@.skip(i + 2)));
            }
            i += 2;
        } else {
            proof {
                if i + 1 < n {
                    assert(rest[1] == text@[i + 1]);
                }
                assert(rest.skip(1) =~= text@.skip(i + 1));
                assert(strip_colors(rest) == seq![rest[0]] + strip_colors(text@.skip(i + 1)));
                assert(out@ + strip_colors(rest) =~= out@.push(rest[0]) + strip_colors(
                    text@.skip(i + 1),
                ));
            }
            push_char(&mut out, c);
            i += 1;
        }
    }
    proof {
        assert(text@.skip(n as int) =~= Seq::<char>::empty());
        assert(out@ + strip_colors(text@.skip(n as int)) =~= out@);
    }
    out
}

/// `price_start` names the first position where a price starts, when
/// one exists.
proof fn lemma_price_start_char(s: Seq<char>)
    ensures
        match price_start(s) {
            Some(i) => price_start_at(s, i) && forall|j: int| 0 <= j < i ==> !price_start_at(s, j),
            None => forall|j: int| !price_start_at(s, j),
        },
    decreases s.len(),
{
    if s.len() < 2 {
        assert(forall|j: int| !price_start_at(s, j));
    } else if s[0] == '$' && is_amount_char(s[1]) {
        assert(price_start_at(s, 0));
    } else {
        let t = s.skip(1);
        lemma_price_start_char(t);
        assert(!price_start_at(s, 0));
        assert forall|j: int| 1 <= j && price_start_at(s, j) implies price_start_at(
            t,
            j - 1,
        ) by {
            assert(t[j - 1] == s[j]);
            assert(t[j] == s[j + 1]);
        }
        assert forall|j: int| 1 <= j && price_start_at(t, j - 1) implies price_start_at(
            s,
            j,
        ) by {
            assert(t[j - 1] == s[j]);
            assert(t[j] == s[j + 1]);
        }
        match price_start(t) {
            Some(i) => {
                assert(price_start(s) == Some(i + 1));
                assert(price_start_at(s, i + 1));
            },
            None => {},
        }
    }
}

/// The run of amount characters ends within the text.
proof fn lemma_run_end_bounds(s: Seq<char>, j: int)
    requires
        0 <= j <= s.len(),
    ensures
        j <= amount_run_end(s, j) <= s.len(),
    decreases s.len() - j,
{
    if j < s.len() && is_amount_char(s[j]) {
        lemma_run_end_bounds(s, j + 1);
    }
}

/// The numeric readings of amount digits are never negative.
proof fn lemma_vals_nonneg(s: Seq<char>)
    ensures
        int_val(s) >= 0,
        frac3_val(s) >= 0,
        0 <= count_dots(s) <= s.len(),
        frac_len(s) >= 0,
    decreases s.len(),
{
    if s.len() > 0 {
        lemma_vals_nonneg(s.drop_last());
    }
}

/// Amount digits without a decimal point have no fractional part.
proof fn lemma_no_dots_no_frac(s: Seq<char>)
    requires
        count_dots(s) == 0,
    ensures
        frac_len(s) == 0,
    decreases s.len(),
{
    if s.len() > 0 {
        lemma_vals_nonneg(s.drop_last());
        assert(count_dots(s.drop_last()) == 0);
    }
}

/// Parses the first price in `text`, as its amount in currency units.
///
/// Colour-formatting sequences are stripped first. The price is a
/// currency sign followed by digits with optional thousands separators
/// and an optional decimal point; a trailing multiplier letter scales
/// the amount by a thousand. An amount too large for the currency type
/// saturates at its maximum.
pub fn parse_price(text: &str) -> (r: Option<u32>)
    ensures
        r == parse_price_spec(text@),
{
    let clean_string = strip_minecraft_colors(text);
    let clean = clean_string.as_str();
    let ghost cl = clean@;
    let n = clean.unicode_len();
    proof {
        lemma_price_start_char(cl);
    }
    if n < 2 {
        proof {
            assert(price_start(cl) is None);
        }
        return None;
    }
    let mut i: usize = 0;
    let mut found = false;
    while !found && i < n - 1
        invariant
            clean@ == cl,
            n == cl.len(),
            2 <= n,
            0 <= i,
            !found ==> i <= n,
            found ==> i + 1 < n,
            forall|j: int| 0 <= j < i ==> !price_start_at(cl, j),
            found ==> price_start_at(cl, i as int),
        decreases n - i, (if found { 0int } else { 1int }),
    {
        let c = clean.get_char(i);
        if c == '$' && is_amount_c(clean.get_char(i + 1)) {
            found = true;
        } else {
            proof {
                assert(!price_start_at(cl, i as int));
            }
            i += 1;
        }
    }
    if !found {
        proof {
            assert(forall|j: int| !price_start_at(cl, j));
            assert(price_start(cl) is None);
        }
        return None;
    }
    let start = i;
    proof {
        match price_start(cl) {
            Some(i2) => {
                if i2 < i {
                    assert(!price_start_at(cl, i2));
                    assert(false);
                }
                if i2 > i {
                    assert(!price_start_at(cl, i as int));
                    assert(false);
                }
            },
            None => {
                assert(!price_start_at(cl, i as int));
                assert(false);
            },
        }
        assert(price_start(cl) == Some(start as int));
        lemma_run_end_bounds(cl, start + 1);
    }
    let mut j = start + 1;
    let mut dots: usize = 0;
    let mut have_digit = false;
    let mut sat = false;
    let mut iv: u64 = 0;
    let mut fl: u8 = 0;
    let mut fv: u64 = 0;
    proof {
        assert(cl.subrange(start + 1, start + 1) =~= Seq::<char>::empty());
        reveal(Seq::filter);
    }
    while j < n && is_amount_c(clean.get_char(j))
        invariant
            clean@ == cl,
            n == cl.len(),
            price_start_at(cl, start as int),
            start + 1 <= j <= n,
            amount_run_end(cl, start + 1) == amount_run_end(cl, j as int),
            forall|k: int| start + 1 <= k < j ==> is_amount_char(cl[k]),
            ({
                let d = cl.subrange(start + 1, j as int).filter(|c: char| c != ',');
                &&& dots == count_dots(d)
                &&& dots <= j - (start + 1)
                &&& have_digit == (d.len() - count_dots(d) >= 1)
                &&& (!sat ==> iv == int_val(d) && iv <= u32::MAX)
                &&& (sat ==> int_val(d) > u32::MAX)
                &&& fl == (if frac_len(d) >= 3 { 3int } else { frac_len(d) })
                &&& fv == frac3_val(d)
                &&& fv < (if fl == 0 {
                    1int
                } else if fl == 1 {
                    10int
                } else if fl == 2 {
                    100int
                } else {
                    1000int
                })
            }),
        decreases n - j,
    {
        let c = clean.get_char(j);
        let ghost d_old = cl.subrange(start + 1, j as int).filter(|c: char| c != ',');
        let ghost d_new = cl.subrange(start + 1, j + 1).filter(|c: char| c != ',');
        proof {
            reveal(Seq::filter);
            lemma_vals_nonneg(d_old);
            let p = cl.subrange(start + 1, j as int);
            let q = cl.subrange(start + 1, j + 1);
            assert(q =~= p.push(cl[j as int]));
            assert(q.drop_last() =~= p);
            assert(q.last() == cl[j as int]);
            if cl[j as int] != ',' {
                assert(d_new == d_old.push(cl[j as int]));
                assert(d_new.drop_last() =~= d_old);
                assert(d_new.last() == cl[j as int]);
            } else {
                assert(d_new == d_old);
            }
        }
        let u = c as u32;
        if u == 44 {
            // thousands separator: skipped
        } else if u == 46 {
            proof {
                assert(count_dots(d_new) == count_dots(d_old) + 1);
                assert(int_val(d_new) == int_val(d_old));
                assert(frac3_val(d_new) == frac3_val(d_old));
                if dots >= 1 {
                    assert(frac_len(d_new) == frac_len(d_old) + 1);
                } else {
                    lemma_no_dots_no_frac(d_old);
                    assert(frac_len(d_new) == 0);
                }
            }
            if dots >= 1 && fl < 3 {
                fl += 1;
            }
            dots += 1;
        } else {
            // a digit
            let dv = (u - 48) as u64;
            proof {
                assert(is_digit_char(cl[j as int]));
                assert(digit_val(cl[j as int]) == dv);
                assert(count_dots(d_new) == count_dots(d_old));
                if dots == 0 {
                    lemma_no_dots_no_frac(d_old);
                    assert(int_val(d_new) == int_val(d_old) * 10 + digit_val(d_new.last()));
                    assert(frac_len(d_old) == 0);
                    assert(frac_len(d_new) == 0);
                    assert(frac3_val(d_new) == frac3_val(d_old));
                } else {
                    assert(int_val(d_new) == int_val(d_old));
                    assert(frac_len(d_new) == frac_len(d_old) + 1);
                    if fl < 3 {
                        assert(frac_len(d_old) < 3);
                        assert(frac3_val(d_new) == frac3_val(d_old) * 10 + digit_val(
                            d_new.last(),
                        ));
                    } else {
                        assert(frac_len(d_old) >= 3);
                        assert(frac3_val(d_new) == frac3_val(d_old));
                    }
                }
            }
            have_digit = true;
            if dots == 0 {
                if !sat {
                    let next = iv * 10 + dv;
                    if next > 0xffff_ffff {
                        sat = true;
                        proof {
                            assert(int_val(d_new) > u32::MAX);
                        }
                    } else {
                        iv = next;
                    }
                } else {
                    proof {
                        assert(int_val(d_old) * 10 >= int_val(d_old)) by (nonlinear_arith)
                            requires
                                int_val(d_old) > 0,
                        ;
                        assert(int_val(d_new) > u32::MAX);
                    }
                }
            } else {
                if fl < 3 {
                    fv = fv * 10 + dv;
                    fl += 1;
                }
            }
        }
        j += 1;
    }
    let end = j;
    proof {
        assert(amount_run_end(cl, j as int) == j);
        assert(amount_run_end(cl, start + 1) == end);
    }
    let ghost d = cl.subrange(start + 1, end as int).filter(|c: char| c != ',');
    if dots > 1 || !have_digit {
        proof {
            assert(!valid_number(d));
            assert(parse_price_spec(text@) is None);
        }
        return None;
    }
    let has_k = if end < n {
        let c = clean.get_char(end);
        c == 'K' || c == 'k'
    } else {
        false
    };
    let amount: u32 = if has_k {
        if sat {
            proof {
                lemma_vals_nonneg(d);
                assert(amount_milli(d) > u32::MAX);
            }
            u32::MAX
        } else {
            let fscaled: u64 = if fl == 0 {
                fv * 1000
            } else if fl == 1 {
                fv * 100
            } else if fl == 2 {
                fv * 10
            } else {
                fv
            };
            proof {
                lemma_vals_nonneg(d);
                assert(frac_milli(d) == fscaled);
            }
            let milli = iv * 1000 + fscaled;
            proof {
                assert(amount_milli(d) == milli);
            }
            if milli > 0xffff_ffff {
                u32::MAX
            } else {
                milli as u32
            }
        }
    } else {
        if sat {
            u32::MAX
        } else {
            iv as u32
        }
    };
    proof {
        assert(valid_number(d));
        assert(parse_price_spec(text@) == price_amount(cl, start as int));
        assert(parse_price_spec(text@) == Some(amount));
    }
    Some(amount)
}

/// The digit character for a value below ten.
pub open spec fn dec_digit_char(d: int) -> char {
    (((48 + d) as u8) as char)
}

/// The decimal rendering of a non-negative value.
pub open spec fn dec_str(v: int) -> Seq<char>
    decreases v,
{
    if v < 10 {
        seq![dec_digit_char(v)]
    } else {
        dec_str(v / 10).push(dec_digit_char(v % 10))
    }
}

/// What `format_price` returns: amounts of a thousand or more render as
/// the whole thousands, one fractional digit truncated toward zero, and
/// the multiplier letter; smaller amounts render plainly.
pub open spec fn format_price_spec(p: u32) -> Seq<char> {
    if p >= 1000 {
        dec_str(p as int / 1000) + seq!['.', dec_digit_char((p as int % 1000) / 100), 'k']
    } else {
        dec_str(p as int)
    }
}

/// The digit character for a value below ten.
fn dec_digit(d: u32) -> (c: char)
    requires
        d < 10,
    ensures
        c == dec_digit_char(d as int),
{
    (48 + d as u8) as char
}

/// Appends the decimal rendering of `v`.
fn push_dec(out: &mut String, v: u32)
    ensures
        final(out)@ == old(out)@ + dec_str(v as int),
    decreases v,
{
    if v < 10 {
        push_char(out, dec_digit(v));
        proof {
            assert(old(out)@.push(dec_digit_char(v as int)) =~= old(out)@ + dec_str(v as int));
        }
    } else {
        push_dec(out, v / 10);
        push_char(out, dec_digit(v % 10));
        proof {
            assert((old(out)@ + dec_str(v as int / 10)).push(dec_digit_char(v as int % 10)) =~= old(
                out,
            )@ + dec_str(v as int));
        }
    }
}

/// Renders an amount for a listing command: a thousand or more as the
/// truncated thousands with one fractional digit and the multiplier
/// letter, less than a thousand as the plain number.
pub fn format_price(price: u32) -> (r: String)
    ensures
        r@ == format_price_spec(price),
{
    let mut out = String::new();
    if price >= 1000 {
        push_dec(&mut out, price / 1000);
        push_char(&mut out, '.');
        push_dec(&mut out, (price % 1000) / 100);
        push_char(&mut out, 'k');
        proof {
            assert(out@ =~= format_price_spec(price));
        }
    } else {
        push_dec(&mut out, price);
        proof {
            assert(out@ =~= format_price_spec(price));
        }
    }
    out
}

} // verus!

use map_flipper::listing::listing_price;
use map_flipper::listing::listing_price_text;
use map_flipper::listing::parse_sell_price;
use map_flipper::price::format_price;
use map_flipper::price::parse_price;
use map_flipper::price::strip_minecraft_colors;

#[test]
fn test_parse_price() {
    assert_eq!(parse_price("Price: $995"), Some(995));
    assert_eq!(parse_price("Price: $5K"), Some(5000));
    assert_eq!(parse_price("Price: $9.9K"), Some(9900));
    assert_eq!(parse_price("Price: $10,000"), Some(10000));
    assert_eq!(parse_price("Price: $2.5k"), Some(2500));
    assert_eq!(parse_price("\u{a7}aPrice: \u{a7}6$995"), Some(995));
    assert_eq!(parse_price("\u{a7}aPrice: \u{a7}6$5K"), Some(5000));
}

#[test]
fn test_strip_minecraft_colors() {
    assert_eq!(strip_minecraft_colors("\u{a7}aHello \u{a7}6World"), "Hello World");
    assert_eq!(strip_minecraft_colors("Normal text"), "Normal text");
    assert_eq!(strip_minecraft_colors("\u{a7}k\u{a7}l\u{a7}m\u{a7}n\u{a7}oTest"), "Test");
}

#[test]
fn test_format_price() {
    assert_eq!(format_price(995), "995");
    assert_eq!(format_price(5000), "5.0k");
    assert_eq!(format_price(9900), "9.9k");
    assert_eq!(format_price(316800), "316.8k");
    assert_eq!(format_price(1000), "1.0k");
}

#[test]
fn test_single_map_full_price_and_stack_discount() {
    let base_price: u32 = 9900;
    let sell_price_str = "9.9k";

    // Single map: no discount, use full price
    let price_str = listing_price_text(sell_price_str, base_price, 1);
    assert_eq!(price_str, "9.9k", "Single map should be listed at full price");

    // Stack of 2 maps: 50% discount
    let stack_price = listing_price(base_price, 2);
    assert_eq!(stack_price, 9900, "Stack of 2 should be 9900 total (50% off each)");
    assert_eq!(format_price(stack_price), "9.9k");

    // Stack of 32 maps: 50% discount
    let stack_price = listing_price(base_price, 32);
    assert_eq!(stack_price, 158400, "Stack of 32 should be 158400 total");
    assert_eq!(format_price(stack_price), "158.4k");

    // Stack of 64 maps: 50% discount
    let stack_price = listing_price(base_price, 64);
    assert_eq!(stack_price, 316800, "Stack of 64 should be 316800 total");
    assert_eq!(format_price(stack_price), "316.8k");
}

#[test]
fn listing_price_unit_unchanged_and_discounted() {
    assert_eq!(listing_price(9900, 1), 9900);
    assert_eq!(listing_price(9900, 2), 9900);
    assert_eq!(listing_price(9900, 64), 316800);
}

#[test]
fn listing_price_text_discounted_stack() {
    assert_eq!(listing_price_text("9.9k", 9900, 64), "316.8k");
    assert_eq!(listing_price_text("anything", 9900, 1), "anything");
}

#[test]
fn parse_price_rejects_text_without_amount() {
    assert_eq!(parse_price("no price here"), None);
    assert_eq!(parse_price("$"), None);
    assert_eq!(parse_price("$ 500"), None);
    assert_eq!(parse_price(""), None);
}

#[test]
fn parse_price_rejects_malformed_numbers() {
    assert_eq!(parse_price("Price: $,"), None);
    assert_eq!(parse_price("Price: $1.2.3"), None);
    assert_eq!(parse_price("Price: $."), None);
}

#[test]
fn parse_price_truncates_fraction_without_multiplier() {
    assert_eq!(parse_price("Price: $9.9"), Some(9));
    assert_eq!(parse_price("Price: $0.5"), Some(0));
}

#[test]
fn parse_price_multiplier_scales_exactly() {
    assert_eq!(parse_price("$8.2K"), Some(8200));
    assert_eq!(parse_price("$0.001K"), Some(1));
    assert_eq!(parse_price("$1.2345K"), Some(1234));
    assert_eq!(parse_price("$1,2.5k"), Some(12500));
}

#[test]
fn parse_price_takes_first_dollar_run() {
    assert_eq!(parse_price("a$b then $42 and $99"), Some(42));
}

#[test]
fn parse_price_saturates_huge_amounts() {
    assert_eq!(parse_price("$99999999999"), Some(u32::MAX));
    assert_eq!(parse_price("$5000000K"), Some(u32::MAX));
}

#[test]
fn format_price_below_thousand_is_plain() {
    assert_eq!(format_price(0), "0");
    assert_eq!(format_price(999), "999");
}

#[test]
fn format_price_truncates_toward_zero() {
    // 1999 / 1000 = 1.999...: one digit kept, not rounded up
    assert_eq!(format_price(1999), "1.9k");
    assert_eq!(format_price(1099), "1.0k");
}

#[test]
fn parse_sell_price_reads_config_text() {
    assert_eq!(parse_sell_price("9.9k"), Some(9900));
    assert_eq!(parse_sell_price("995"), Some(995));
    assert_eq!(parse_sell_price("not a price"), None);
}

#[test]
fn format_then_parse_round_trip_on_exact_hundreds() {
    for price in [1000u32, 9900, 158400, 316800, 2500] {
        let text = format_price(price);
        let with_sign = format!("${}", text);
        assert_eq!(parse_price(&with_sign), Some(price));
    }
}
